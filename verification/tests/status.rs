use completion_gateway::status::{HttpStatus, MAX_STATUS, MIN_STATUS};

fn status(code: u16) -> HttpStatus {
    match HttpStatus::new(code) {
        Some(status) => status,
        None => panic!("{} is no status code", code),
    }
}

#[test]
fn status_takes_three_digit_numbers_only() {
    assert!(HttpStatus::new(0).is_none());
    assert!(HttpStatus::new(99).is_none());
    assert!(HttpStatus::new(100).is_some());
    assert!(HttpStatus::new(999).is_some());
    assert!(HttpStatus::new(1000).is_none());
    assert!(HttpStatus::new(u16::MAX).is_none());
}

#[test]
fn status_bounds_are_those_of_three_digits() {
    assert_eq!(MIN_STATUS, 100);
    assert_eq!(MAX_STATUS, 999);
}

#[test]
fn status_keeps_its_number() {
    assert_eq!(status(404).code(), 404);
    assert_eq!(status(100).code(), 100);
    assert_eq!(status(999).code(), 999);
}

#[test]
fn status_is_success_from_200_to_299() {
    assert!(!status(100).is_success());
    assert!(!status(199).is_success());
    assert!(status(200).is_success());
    assert!(status(204).is_success());
    assert!(status(299).is_success());
    assert!(!status(300).is_success());
    assert!(!status(401).is_success());
    assert!(!status(500).is_success());
    assert!(!status(999).is_success());
}

#[test]
fn status_success_agrees_with_the_range_for_every_code() {
    for code in MIN_STATUS..=MAX_STATUS {
        assert_eq!(status(code).is_success(), (200..300).contains(&code));
    }
}

#[test]
fn status_text_is_number_and_reason() {
    assert_eq!(status(200).to_text(), "200 OK");
    assert_eq!(status(401).to_text(), "401 Unauthorized");
    assert_eq!(status(404).to_text(), "404 Not Found");
    assert_eq!(status(429).to_text(), "429 Too Many Requests");
    assert_eq!(status(500).to_text(), "500 Internal Server Error");
}

#[test]
fn status_text_of_a_code_without_reason() {
    assert_eq!(status(599).to_text(), "599 <unknown status code>");
    assert_eq!(status(999).to_text(), "999 <unknown status code>");
}

#[test]
fn status_text_begins_with_the_three_digits_for_every_code() {
    for code in MIN_STATUS..=MAX_STATUS {
        let text = status(code).to_text();
        assert!(text.starts_with(&format!("{} ", code)));
    }
}

#[test]
fn status_equality_goes_by_the_number() {
    assert_eq!(status(200), status(200));
    assert_ne!(status(200), status(201));
}

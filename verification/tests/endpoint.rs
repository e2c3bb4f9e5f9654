use completion_gateway::endpoint::{bearer_header, completions_url};

#[test]
fn url_appends_the_endpoint_path() {
    assert_eq!(completions_url("https://x"), "https://x/v1/chat/completions");
}

#[test]
fn url_drops_one_trailing_slash() {
    assert_eq!(completions_url("https://x/"), "https://x/v1/chat/completions");
}

#[test]
fn url_is_the_same_with_and_without_trailing_slash() {
    assert_eq!(completions_url("https://x/"), completions_url("https://x"));
    assert_eq!(
        completions_url("http://localhost:8080/api/"),
        completions_url("http://localhost:8080/api")
    );
}

#[test]
fn url_drops_every_trailing_slash() {
    assert_eq!(
        completions_url("https://api.example.com///"),
        "https://api.example.com/v1/chat/completions"
    );
}

#[test]
fn url_keeps_slashes_that_are_not_at_the_end() {
    assert_eq!(
        completions_url("https://host/a//b/"),
        "https://host/a//b/v1/chat/completions"
    );
}

#[test]
fn url_of_nothing_but_slashes_is_the_bare_path() {
    assert_eq!(completions_url("//"), "/v1/chat/completions");
    assert_eq!(completions_url(""), "/v1/chat/completions");
}

#[test]
fn url_is_not_validated() {
    assert_eq!(completions_url("not a url"), "not a url/v1/chat/completions");
}

#[test]
fn bearer_header_prefixes_the_key() {
    assert_eq!(bearer_header("sk-test-123"), "Bearer sk-test-123");
}

#[test]
fn bearer_header_takes_the_key_as_it_is() {
    assert_eq!(bearer_header(""), "Bearer ");
    assert_eq!(bearer_header(" k e y/ "), "Bearer  k e y/ ");
}

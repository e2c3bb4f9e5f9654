//! HTTP status codes: which of them mean success, and how one is shown in
//! an error message.

use vstd::prelude::*;

verus! {

/// The lowest status code there is.
pub const MIN_STATUS: u16 = 100;

/// The highest status code there is.
pub const MAX_STATUS: u16 = 999;

/// Whether `code` is a status code at all: a number of three digits.
pub open spec fn is_status_code(code: u16) -> bool {
    MIN_STATUS <= code <= MAX_STATUS
}

/// Whether a response with status `code` carries what was asked for.
pub open spec fn is_success_code(code: u16) -> bool {
    200 <= code < 300
}

/// The character for the digit `d`.
pub open spec fn digit_char(d: int) -> char {
    seq!['0', '1', '2', '3', '4', '5', '6', '7', '8', '9'][d]
}

/// The three decimal digits of a status code.
pub open spec fn status_digits(code: u16) -> Seq<char> {
    seq![
        digit_char(code as int / 100),
        digit_char(code as int / 10 % 10),
        digit_char(code as int % 10),
    ]
}

/// The words that `reqwest::StatusCode` shows after the digits of the status
/// `code`: the reason phrase registered for it, or a fixed remark where
/// none is.
pub uninterp spec fn reason_phrase(code: u16) -> Seq<char>;

/// A status code as an error message shows it: its digits, a space, and
/// its reason phrase.
pub open spec fn status_text(code: u16) -> Seq<char> {
    status_digits(code) + seq![' '] + reason_phrase(code)
}

/// `reqwest::StatusCode::is_success`, asked of the status that
/// `StatusCode::from_u16` makes of `code`: true for the codes from 200 to
/// 299 and for no other.
#[verifier::external_body]
fn status_code_is_success(code: u16) -> (success: bool)
    requires
        is_status_code(code),
    ensures
        success == is_success_code(code),
{
    match reqwest::StatusCode::from_u16(code) {
        Ok(status) => status.is_success(),
        Err(_) => false,
    }
}

/// `to_string` of the `reqwest::StatusCode` that `StatusCode::from_u16`
/// makes of `code`. Its `Display` writes the number, a space, and the
/// canonical reason phrase or, where the code has none, a fixed remark;
/// the words after the space are `reason_phrase(code)`.
#[verifier::external_body]
fn status_code_to_string(code: u16) -> (text: String)
    requires
        is_status_code(code),
    ensures
        text@ == status_digits(code) + seq![' '] + reason_phrase(code),
{
    match reqwest::StatusCode::from_u16(code) {
        Ok(status) => status.to_string(),
        Err(_) => String::new(),
    }
}

/// The status code of an HTTP response.
#[derive(Clone, Copy, Debug, PartialEq, Eq, Structural)]
pub struct HttpStatus {
    code: u16,
}

impl View for HttpStatus {
    type V = u16;

    closed spec fn view(&self) -> u16 {
        self.code
    }
}

impl HttpStatus {
    #[verifier::type_invariant]
    spec fn well_formed(self) -> bool {
        is_status_code(self.code)
    }

    /// The status with the number `code`, if `code` is a status code.
    pub fn new(code: u16) -> (status: Option<HttpStatus>)
        ensures
            is_status_code(code) ==> status is Some && status->0@ == code,
            !is_status_code(code) ==> status is None,
    {
        if MIN_STATUS <= code && code <= MAX_STATUS {
            Some(HttpStatus { code })
        } else {
            None
        }
    }

    /// The number of this status.
    pub fn code(&self) -> (code: u16)
        ensures
            code == self@,
            is_status_code(code),
    {
        proof {
            use_type_invariant(self);
        }
        self.code
    }

    /// Whether this status is one of success.
    pub fn is_success(&self) -> (success: bool)
        ensures
            success == is_success_code(self@),
    {
        proof {
            use_type_invariant(self);
        }
        status_code_is_success(self.code)
    }

    /// This status as an error message shows it.
    pub fn to_text(&self) -> (text: String)
        ensures
            text@ == status_text(self@),
    {
        proof {
            use_type_invariant(self);
        }
        status_code_to_string(self.code)
    }
}

} // verus!

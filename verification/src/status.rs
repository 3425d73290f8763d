//! HTTP status codes, as far as the replies of this backend need them.

use vstd::prelude::*;

verus! {

/// An HTTP status code: a number from 100 to 999.
#[derive(Clone, Copy, Debug, PartialEq, Eq, Structural)]
pub struct StatusCode {
    code: u16,
}

/// Whether `code` can be a status code.
pub open spec fn is_status_code(code: u16) -> bool {
    100 <= code <= 999
}

/// The standard reason phrase of a status code, where the code has one.
pub uninterp spec fn reason_phrase(code: u16) -> Option<Seq<char>>;

/// `StatusCode::canonical_reason` of the http crate, on the status code
/// that `StatusCode::from_u16` makes of `code`. The phrase comes from a
/// fixed table of that crate and depends on the code alone; a code that
/// the table lacks has none.
#[verifier::external_body]
fn canonical_reason(code: u16) -> (phrase: Option<String>)
    requires
        is_status_code(code),
    ensures
        match phrase {
            Some(text) => reason_phrase(code) == Some(text@),
            None => reason_phrase(code) is None,
        },
{
    match axum::http::StatusCode::from_u16(code) {
        Ok(status) => match status.canonical_reason() {
            Some(text) => Some(text.to_string()),
            None => None,
        },
        Err(_) => None,
    }
}

/// What is written for a status code that has no reason phrase.
pub const UNKNOWN_REASON: &'static str = "<unknown status code>";

/// The digit that writes a number below ten.
pub open spec fn digit_char(value: int) -> char {
    (0x30 + value) as char
}

/// The three digits of a status code.
pub open spec fn code_digits(code: u16) -> Seq<char> {
    seq![
        digit_char(code as int / 100),
        digit_char(code as int / 10 % 10),
        digit_char(code as int % 10),
    ]
}

/// A status code in words: its number, a space, and its reason phrase or
/// a remark that it has none.
pub open spec fn status_text(code: u16) -> Seq<char> {
    code_digits(code) + seq![' '] + match reason_phrase(code) {
        Some(phrase) => phrase,
        None => UNKNOWN_REASON@,
    }
}

/// The digit that writes `value`.
fn digit_for(value: u16) -> (c: char)
    requires
        value < 10,
    ensures
        c == digit_char(value as int),
{
    (0x30u8 + value as u8) as char
}

impl StatusCode {
    #[verifier::type_invariant]
    spec fn in_range(self) -> bool {
        is_status_code(self.code)
    }

    /// The number of the status code.
    pub closed spec fn value(self) -> u16 {
        self.code
    }

    /// The status code with the number `code`, if `code` lies between 100
    /// and 999.
    pub fn from_u16(code: u16) -> (status: Option<StatusCode>)
        ensures
            status is Some <==> is_status_code(code),
            status is Some ==> status.unwrap().value() == code,
    {
        if 100 <= code && code <= 999 {
            Some(StatusCode { code })
        } else {
            None
        }
    }

    /// The number of the status code.
    pub fn as_u16(&self) -> (code: u16)
        ensures
            code == self.value(),
            is_status_code(code),
    {
        proof {
            use_type_invariant(self);
        }
        self.code
    }

    /// Whether the status reports a success: a number from 200 to 299.
    pub open spec fn reports_success(self) -> bool {
        200 <= self.value() <= 299
    }

    /// Whether the status reports a success.
    pub fn is_success(&self) -> (success: bool)
        ensures
            success == self.reports_success(),
    {
        200 <= self.code && self.code <= 299
    }

    /// 200 OK
    pub fn ok() -> (status: StatusCode)
        ensures
            status.value() == 200,
    {
        StatusCode { code: 200 }
    }

    /// 400 Bad Request
    pub fn bad_request() -> (status: StatusCode)
        ensures
            status.value() == 400,
    {
        StatusCode { code: 400 }
    }

    /// 401 Unauthorized
    pub fn unauthorized() -> (status: StatusCode)
        ensures
            status.value() == 401,
    {
        StatusCode { code: 401 }
    }

    /// 404 Not Found
    pub fn not_found() -> (status: StatusCode)
        ensures
            status.value() == 404,
    {
        StatusCode { code: 404 }
    }

    /// 413 Payload Too Large
    pub fn payload_too_large() -> (status: StatusCode)
        ensures
            status.value() == 413,
    {
        StatusCode { code: 413 }
    }

    /// 500 Internal Server Error
    pub fn internal_server_error() -> (status: StatusCode)
        ensures
            status.value() == 500,
    {
        StatusCode { code: 500 }
    }

    /// The standard reason phrase of the status code, if it has one.
    pub fn reason(&self) -> (phrase: Option<String>)
        ensures
            match phrase {
                Some(text) => reason_phrase(self.value()) == Some(text@),
                None => reason_phrase(self.value()) is None,
            },
    {
        proof {
            use_type_invariant(self);
        }
        canonical_reason(self.code)
    }

    /// The status code in words, as it is shown to a reader.
    pub fn to_text(&self) -> (text: String)
        ensures
            text@ == status_text(self.value()),
    {
        proof {
            use_type_invariant(self);
        }
        let mut text = String::new();
        text.push(digit_for(self.code / 100));
        text.push(digit_for(self.code / 10 % 10));
        text.push(digit_for(self.code % 10));
        text.push(' ');
        let text = match canonical_reason(self.code) {
            Some(phrase) => text.concat(phrase.as_str()),
            None => text.concat(UNKNOWN_REASON),
        };
        proof {
            assert(text@ =~= status_text(self.code));
        }
        text
    }
}

} // verus!

//! The error envelope that the remote API sends in place of a page.
use vstd::prelude::*;
use crate::json::{member, text_member, Json};
use crate::text::{decimal_text, i64_text};

verus! {

/// An error reported by the remote API.
#[derive(Debug)]
pub struct ErrorResponse {
    pub error: u32,
    pub message: String,
}

/// What an error envelope holds.
pub struct ErrorResponseView {
    pub error: u32,
    pub message: Seq<char>,
}

impl View for ErrorResponse {
    type V = ErrorResponseView;

    open spec fn view(&self) -> ErrorResponseView {
        ErrorResponseView { error: self.error, message: self.message@ }
    }
}

/// The codes that report a passing condition: service offline (11), a
/// temporary processing error (16) and an exceeded rate limit (29).
pub open spec fn retriable_code(code: u32) -> bool {
    code == 11 || code == 16 || code == 29
}

/// The error envelope that `v` is: an object with an integer `error` that
/// fits in `u32` and a string `message`.
pub open spec fn error_response_of(v: Json) -> Option<ErrorResponseView> {
    match (member(v, "error"@), text_member(v, "message"@)) {
        (Some(Json::Int(code)), Some(message)) => if 0 <= code <= u32::MAX {
            Some(ErrorResponseView { error: code as u32, message })
        } else {
            None
        },
        _ => None,
    }
}

/// The message that describes an error envelope.
pub open spec fn error_response_message(e: ErrorResponseView) -> Seq<char> {
    "Error "@ + decimal_text(e.error as int) + ": "@ + e.message
}

impl ErrorResponse {
    /// The message that describes this error: its code and its message.
    pub fn to_string(&self) -> (r: String)
        ensures
            r@ == error_response_message(self@),
    {
        let mut s = "Error ".to_owned();
        s.append(i64_text(self.error as i64).as_str());
        s.append(": ");
        s.append(self.message.as_str());
        s
    }

    /// Whether a retry may succeed where this error came.
    pub fn is_retriable(&self) -> (r: bool)
        ensures
            r == retriable_code(self.error),
    {
        self.error == 11 || self.error == 16 || self.error == 29
    }

    /// Reads an error envelope.
    pub fn from_json(v: &Json) -> (r: Option<ErrorResponse>)
        ensures
            match r {
                Some(e) => error_response_of(*v) == Some(e@),
                None => error_response_of(*v) is None,
            },
    {
        match (v.get("error"), v.get_str("message")) {
            (Some(Json::Int(code)), Some(message)) => {
                if 0 <= *code && *code <= 4294967295 {
                    Some(ErrorResponse { error: *code as u32, message: message.clone() })
                } else {
                    None
                }
            },
            _ => None,
        }
    }
}

} // verus!

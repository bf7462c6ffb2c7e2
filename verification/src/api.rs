//! The auth server's answers as the client sees them: a uniform error with a stable code, and
//! the payloads of the sign-in, registration and device-login endpoints. The HTTP exchange
//! itself is made by the terminal layer, which hands the decoded pieces to these functions.

use vstd::prelude::*;

use crate::text::{chars_of, extend_chars, string_of};

verus! {

/// A uniform client error surfaced in the interface: a stable code and a message.
#[derive(Debug, Clone, PartialEq, Eq)]
pub struct ApiError {
    pub code: String,
    pub message: String,
}

/// `code: message`, the way an error reads as text.
pub open spec fn error_line(code: Seq<char>, message: Seq<char>) -> Seq<char> {
    code + ": "@ + message
}

impl ApiError {
    /// The error as one line of text: `code: message`.
    pub fn display_text(&self) -> (r: String)
        ensures
            r@ == error_line(self.code@, self.message@),
    {
        let mut v = chars_of(self.code.as_str());
        proof {
            reveal_strlit(": ");
        }
        extend_chars(&mut v, &chars_of(": "));
        extend_chars(&mut v, &chars_of(self.message.as_str()));
        string_of(&v)
    }
}

/// `prefix` followed by `detail`, as a fresh string.
fn joined(prefix: &str, detail: &str) -> (r: String)
    ensures
        r@ == prefix@ + detail@,
{
    let mut v = chars_of(prefix);
    extend_chars(&mut v, &chars_of(detail));
    string_of(&v)
}

/// The error for a request that never reached the server; `detail` is the transport's reason.
pub fn network_error(detail: &str) -> (r: ApiError)
    ensures
        r.code@ == "network"@,
        r.message@ == "could not reach the server: "@ + detail@,
{
    proof {
        reveal_strlit("network");
        reveal_strlit("could not reach the server: ");
    }
    ApiError {
        code: string_of(&chars_of("network")),
        message: joined("could not reach the server: ", detail),
    }
}

/// The error for a non-success status: the server's own `{error: {code, message}}` body when it
/// sent one, otherwise the code `unknown` with the status line as the message.
pub fn status_error(status_line: &str, body: Option<ApiError>) -> (r: ApiError)
    ensures
        match body {
            Some(b) => r == b,
            None => r.code@ == "unknown"@ && r.message@ == status_line@,
        },
{
    match body {
        Some(b) => b,
        None => {
            proof {
                reveal_strlit("unknown");
            }
            ApiError {
                code: string_of(&chars_of("unknown")),
                message: string_of(&chars_of(status_line)),
            }
        },
    }
}

/// The error for a success response whose body is not the expected shape.
pub fn decode_error(detail: &str) -> (r: ApiError)
    ensures
        r.code@ == "decode"@,
        r.message@ == "unexpected response: "@ + detail@,
{
    proof {
        reveal_strlit("decode");
        reveal_strlit("unexpected response: ");
    }
    ApiError {
        code: string_of(&chars_of("decode")),
        message: joined("unexpected response: ", detail),
    }
}

/// A new account awaiting its first code: the token that confirms it, and the TOTP secret as a
/// raw value and as an `otpauth://` URL.
#[derive(Debug, Clone, PartialEq, Eq)]
pub struct Registration {
    pub setup_token: String,
    pub secret: String,
    pub otpauth_url: String,
}

/// A device-authorization grant in progress (RFC 8628).
#[derive(Debug, Clone, PartialEq, Eq)]
pub struct DeviceGrant {
    pub device_code: String,
    pub user_code: String,
    pub verification_uri: String,
    pub verification_uri_complete: String,
    /// The polling interval the server asks for, in seconds.
    pub interval: u64,
}

/// Whether a device-token poll should keep waiting: only `authorization_pending` means the
/// user has not answered yet; a grant, or any other error, ends the poll.
pub fn poll_again<T>(result: &Result<T, ApiError>) -> (r: bool)
    ensures
        r == (result matches Err(e) && e.code@ == "authorization_pending"@),
{
    proof {
        reveal_strlit("authorization_pending");
    }
    match result {
        Ok(_) => false,
        Err(e) => crate::text::str_eq(e.code.as_str(), "authorization_pending"),
    }
}

/// The interval to poll at: the server's, but never less than a second.
pub fn poll_interval(grant: &DeviceGrant) -> (r: u64)
    ensures
        r == if grant.interval < 1 {
            1
        } else {
            grant.interval
        },
{
    if grant.interval < 1 {
        1
    } else {
        grant.interval
    }
}

} // verus!

//! The structured response envelope and its construction rules.

use vstd::prelude::*;
use crate::errors::IntoApiError;

verus! {

/// Whether a response reports success or failure.
#[derive(Clone, Copy, Debug, PartialEq, Eq, Structural)]
pub enum Status {
    Success,
    Error,
}

/// The envelope around every structured API response. The timestamp is
/// milliseconds since the Unix epoch, supplied by the caller.
#[derive(Debug)]
pub struct ApiResponse<T> {
    pub status: Status,
    pub code: Option<u16>,
    pub message: Option<String>,
    pub data: Option<T>,
    pub timestamp: u64,
}

impl<T> ApiResponse<T> {
    /// A success envelope with a payload.
    pub fn ok(data: T, now_ms: u64) -> (r: Self)
        ensures
            r.status == Status::Success,
            r.code is None,
            r.message is None,
            r.data == Some(data),
            r.timestamp == now_ms,
    {
        ApiResponse {
            status: Status::Success,
            code: None,
            message: None,
            data: Some(data),
            timestamp: now_ms,
        }
    }

    /// A success envelope with a payload and a human-readable message.
    pub fn ok_with_message(data: T, message: String, now_ms: u64) -> (r: Self)
        ensures
            r.status == Status::Success,
            r.code is None,
            r.message == Some(message),
            r.data == Some(data),
            r.timestamp == now_ms,
    {
        ApiResponse {
            status: Status::Success,
            code: None,
            message: Some(message),
            data: Some(data),
            timestamp: now_ms,
        }
    }

    /// A success envelope with a payload and a numeric code.
    pub fn ok_with_code(data: T, code: u16, now_ms: u64) -> (r: Self)
        ensures
            r.status == Status::Success,
            r.code == Some(code),
            r.message is None,
            r.data == Some(data),
            r.timestamp == now_ms,
    {
        ApiResponse {
            status: Status::Success,
            code: Some(code),
            message: None,
            data: Some(data),
            timestamp: now_ms,
        }
    }

    /// A success envelope with payload, message and code.
    pub fn ok_full(data: T, message: String, code: u16, now_ms: u64) -> (r: Self)
        ensures
            r.status == Status::Success,
            r.code == Some(code),
            r.message == Some(message),
            r.data == Some(data),
            r.timestamp == now_ms,
    {
        ApiResponse {
            status: Status::Success,
            code: Some(code),
            message: Some(message),
            data: Some(data),
            timestamp: now_ms,
        }
    }

    /// An error envelope with just a message.
    pub fn err(message: String, now_ms: u64) -> (r: Self)
        ensures
            r.status == Status::Error,
            r.code is None,
            r.message == Some(message),
            r.data is None,
            r.timestamp == now_ms,
    {
        ApiResponse {
            status: Status::Error,
            code: None,
            message: Some(message),
            data: None,
            timestamp: now_ms,
        }
    }

    /// An error envelope with a message and a numeric code.
    pub fn err_with_code(message: String, code: u16, now_ms: u64) -> (r: Self)
        ensures
            r.status == Status::Error,
            r.code == Some(code),
            r.message == Some(message),
            r.data is None,
            r.timestamp == now_ms,
    {
        ApiResponse {
            status: Status::Error,
            code: Some(code),
            message: Some(message),
            data: None,
            timestamp: now_ms,
        }
    }

    /// The envelope for an operation's outcome: success carries the
    /// payload, failure carries the error's message and code.
    pub fn from_result<E: IntoApiError>(result: Result<T, E>, now_ms: u64) -> (r: Self)
        ensures
            result is Ok ==> (r.status == Status::Success && r.data == Some(result->Ok_0)
                && r.code is None && r.message is None),
            result matches Err(e) ==> (r.status == Status::Error && r.data is None && r.code
                == Some(e.spec_code()) && (r.message matches Some(m) && m@ == e.spec_message())),
            r.timestamp == now_ms,
    {
        match result {
            Ok(payload) => ApiResponse::ok(payload, now_ms),
            Err(e) => {
                let code = match e.code() {
                    Some(c) => c,
                    None => 0,
                };
                ApiResponse::err_with_code(e.message(), code, now_ms)
            },
        }
    }

    /// The HTTP status this envelope is sent with: its numeric code when
    /// one is set and lies in the valid status range, else 200 for success
    /// and 500 for failure.
    pub fn http_status(&self) -> (r: u16)
        ensures
            r == spec_http_status(self.code, self.status),
    {
        match self.code {
            Some(c) => {
                if 100 <= c && c < 1000 {
                    c
                } else {
                    status_fallback(self.status)
                }
            },
            None => status_fallback(self.status),
        }
    }
}

/// The HTTP status derived from an envelope's code field and status tag.
pub open spec fn spec_http_status(code: Option<u16>, status: Status) -> u16 {
    match code {
        Some(c) => if 100 <= c && c < 1000 {
            c
        } else {
            spec_status_fallback(status)
        },
        None => spec_status_fallback(status),
    }
}

/// The status used when no valid numeric code is set.
pub open spec fn spec_status_fallback(status: Status) -> u16 {
    match status {
        Status::Success => 200u16,
        Status::Error => 500u16,
    }
}

/// The status used when no valid numeric code is set.
fn status_fallback(status: Status) -> (r: u16)
    ensures
        r == spec_status_fallback(status),
{
    match status {
        Status::Success => 200,
        Status::Error => 500,
    }
}

} // verus!

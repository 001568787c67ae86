//! The client-visible failure taxonomy.
//!
//! Every fault the client can observe while talking to the backend is
//! classified into one of these kinds. Exactly one kind — a chunk-decode
//! fault, meaning the transport failed to assemble a complete body chunk —
//! is transient and worth retrying; every other kind is terminal on first
//! occurrence.

use vstd::prelude::*;
use vstd::string::StringExecFns;

verus! {

/// A failure observed by the client, classified as finely as the
/// transport allows.
#[derive(Debug, Clone, PartialEq, Eq)]
pub enum CustomError {
    /// The body was cut mid-decode: the transport could not assemble a
    /// complete chunk, typically because the connection was interrupted.
    /// This is the only transient kind.
    ChunkDecodeError,
    /// The server answered but signalled failure, or the transport failed
    /// in a way that is not a chunk-decode fault. `status` is present when
    /// the server produced a status code, absent for transport-level
    /// faults; `body` carries whatever diagnostic text was available.
    HttpError { status: Option<u16>, body: String },
    /// Internal signalling between the transport worker and the caller
    /// broke. Always fatal: it indicates a bug, not a network condition.
    ChannelError,
    /// Caller misuse; never retried.
    InvalidParameters,
    /// The server answered success but the response body was missing or
    /// not decodable as text.
    BodyMissing,
}

impl CustomError {
    /// True exactly for the one kind that the retry policy may retry.
    pub fn is_transient(&self) -> (r: bool)
        ensures
            r <==> self is ChunkDecodeError,
    {
        match self {
            CustomError::ChunkDecodeError => true,
            _ => false,
        }
    }
}

/// The character of one decimal digit.
pub open spec fn spec_digit(d: int) -> Seq<char> {
    if d == 0 {
        "0"@
    } else if d == 1 {
        "1"@
    } else if d == 2 {
        "2"@
    } else if d == 3 {
        "3"@
    } else if d == 4 {
        "4"@
    } else if d == 5 {
        "5"@
    } else if d == 6 {
        "6"@
    } else if d == 7 {
        "7"@
    } else if d == 8 {
        "8"@
    } else {
        "9"@
    }
}

/// The decimal notation of a non-negative number, most significant
/// digit first.
pub open spec fn spec_decimal(n: int) -> Seq<char>
    decreases n,
{
    if n < 10 {
        spec_digit(n)
    } else {
        spec_decimal(n / 10) + spec_digit(n % 10)
    }
}

fn digit_str(d: u16) -> (r: &'static str)
    requires
        d < 10,
    ensures
        r@ == spec_digit(d as int),
{
    if d == 0 {
        "0"
    } else if d == 1 {
        "1"
    } else if d == 2 {
        "2"
    } else if d == 3 {
        "3"
    } else if d == 4 {
        "4"
    } else if d == 5 {
        "5"
    } else if d == 6 {
        "6"
    } else if d == 7 {
        "7"
    } else if d == 8 {
        "8"
    } else {
        "9"
    }
}

/// Write a status code in decimal.
pub fn u16_to_string(n: u16) -> (r: String)
    ensures
        r@ == spec_decimal(n as int),
    decreases n,
{
    if n < 10 {
        digit_str(n).to_owned()
    } else {
        let mut s = u16_to_string(n / 10);
        s.append(digit_str(n % 10));
        s
    }
}

/// The diagnostic line each failure kind shows the operator.
pub open spec fn spec_message(e: CustomError) -> Seq<char> {
    match e {
        CustomError::ChunkDecodeError => "http interrupted chunk"@,
        CustomError::HttpError { status, body } => match status {
            Some(code) => "http error remote service returns code:"@ + spec_decimal(code as int)
                + ", body:"@ + body@,
            None => "http error "@ + body@,
        },
        CustomError::ChannelError => "internal channel error"@,
        CustomError::InvalidParameters => "invalid parameters"@,
        CustomError::BodyMissing => "response body is missing"@,
    }
}

impl CustomError {
    /// The diagnostic line this failure shows the operator.
    pub fn message(&self) -> (r: String)
        ensures
            r@ == spec_message(*self),
    {
        match self {
            CustomError::ChunkDecodeError => "http interrupted chunk".to_owned(),
            CustomError::HttpError { status, body } => {
                match status {
                    Some(code) => {
                        let mut s = "http error remote service returns code:".to_owned();
                        s.append(u16_to_string(*code).as_str());
                        s.append(", body:");
                        s.append(body.as_str());
                        s
                    },
                    None => {
                        let mut s = "http error ".to_owned();
                        s.append(body.as_str());
                        s
                    },
                }
            },
            CustomError::ChannelError => "internal channel error".to_owned(),
            CustomError::InvalidParameters => "invalid parameters".to_owned(),
            CustomError::BodyMissing => "response body is missing".to_owned(),
        }
    }
}

} // verus!
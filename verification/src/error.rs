//! Error taxonomy of the library.
//!
//! Codec and framing failures are reported to the caller through these
//! variants; transport-level wrappers around the library add their own
//! handling for socket and TLS failures.

use vstd::prelude::*;

use vstd::string::StringExecFns;

use crate::text::dec_u64;
use crate::text::push_dec_u64;

verus! {

/// Error returned by the codec, the dictionary and the framing layers.
#[derive(Debug, Clone, PartialEq)]
pub enum Error {
    /// Structurally malformed wire data (short header, length mismatch,
    /// unknown command or application, invalid address length, invalid
    /// UTF-8, bad time value).
    DecodeError(String),
    /// A value cannot be serialized (a time past the 32-bit horizon).
    EncodeError(String),
    /// The dictionary has no entry for a decoded `(code, vendor)` pair.
    UnknownAvpCode(u32),
    /// A name-based builder lookup missed.
    UnknownAvpName(String),
    /// Transport-level problem reported by a client.
    ClientError(String),
    /// Transport-level problem reported by a server.
    ServerError(String),
}

/// The rendering of each error: message variants as they are, unknown
/// codes and names behind a naming prefix.
pub open spec fn error_message(e: Error) -> Seq<char> {
    match e {
        Error::DecodeError(m) => m@,
        Error::EncodeError(m) => m@,
        Error::UnknownAvpCode(c) => "Unknown AVP code: "@ + dec_u64(c as u64),
        Error::UnknownAvpName(n) => "Unknown AVP name: "@ + n@,
        Error::ClientError(m) => m@,
        Error::ServerError(m) => m@,
    }
}

impl Error {
    /// True exactly on the decode-failure variant; used by callers that
    /// treat malformed frames differently from unknown codes.
    pub fn is_decode_error(&self) -> (r: bool)
        ensures
            r == (self is DecodeError),
    {
        match self {
            Error::DecodeError(_) => true,
            _ => false,
        }
    }

    /// Renders the error for display.
    pub fn message(&self) -> (r: String)
        ensures
            r@ == error_message(*self),
    {
        let mut out = String::new();
        match self {
            Error::DecodeError(m) => {
                out.append(m.as_str());
            },
            Error::EncodeError(m) => {
                out.append(m.as_str());
            },
            Error::UnknownAvpCode(c) => {
                out.append("Unknown AVP code: ");
                push_dec_u64(*c as u64, &mut out);
            },
            Error::UnknownAvpName(n) => {
                out.append("Unknown AVP name: ");
                out.append(n.as_str());
            },
            Error::ClientError(m) => {
                out.append(m.as_str());
            },
            Error::ServerError(m) => {
                out.append(m.as_str());
            },
        }
        proof {
            assert(out@ =~= error_message(*self));
        }
        out
    }
}

} // verus!

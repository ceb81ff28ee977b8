//! The typed error taxonomy: one closed set of failure kinds covering local
//! I/O, decoding, transport, remote protocol errors, identifier mismatch, and
//! model-conversion failures.

use vstd::prelude::*;
use vstd::string::StringExecFns;
use crate::digits::{int_dec_spec, i32_to_string};

verus! {

/// A structured error reported by the remote server.
#[derive(Debug, Clone)]
pub struct RpcError {
    /// The integer identifier of the error.
    pub code: i32,
    /// A string describing the error.
    pub message: String,
    /// Additional data specific to the error, as raw JSON text.
    pub data: Option<String>,
}

/// Errors that can occur when using the RPC client.  Each underlying failure
/// carries its cause rendered as text, so the message names the cause and
/// kinds stay distinguishable.
#[derive(Debug)]
pub enum Error {
    /// Hash parsing failure.
    HexToArray(String),
    /// I/O failure, e.g. reading the cookie file.
    Io(String),
    /// Invalid or corrupted cookie file.
    InvalidCookieFile,
    /// JSON serialization or deserialization failure.
    Json(String),
    /// Failure of the caller-supplied send operation, with its cause.
    Transport(String),
    /// JSON-RPC error reported by the server, carried verbatim.
    Rpc(RpcError),
    /// Failure converting a raw decoded shape into the domain model type.
    Model(String),
    /// The response identifier did not equal the request identifier.
    NonceMismatch,
    /// Overflow while narrowing an integer result.
    TryFromInt(String),
    /// Failure modeling a verbose block header.
    GetBlockHeaderVerbose(String),
    /// Failure modeling a verbose block.
    GetBlockVerboseOne(String),
}

impl Error {
    /// The diagnostic text of this error: the kind, then the underlying cause.
    pub open spec fn message_spec(self) -> Seq<char> {
        match self {
            Error::HexToArray(m) => "hash parsing error: "@ + m@,
            Error::Io(m) => "I/O error: "@ + m@,
            Error::InvalidCookieFile => "invalid cookie file"@,
            Error::Json(m) => "JSON error: "@ + m@,
            Error::Transport(m) => "transport error: "@ + m@,
            Error::Rpc(e) => "JSON-RPC error: code "@ + int_dec_spec(e.code as int) + ": "@
                + e.message@,
            Error::Model(m) => "model conversion error: "@ + m@,
            Error::NonceMismatch => "nonce mismatch: response id does not match request id"@,
            Error::TryFromInt(m) => "integer conversion overflow error: "@ + m@,
            Error::GetBlockHeaderVerbose(m) => m@,
            Error::GetBlockVerboseOne(m) => m@,
        }
    }

    /// Renders the diagnostic text.
    pub fn message(&self) -> (s: String)
        ensures
            s@ == self.message_spec(),
    {
        match self {
            Error::HexToArray(m) => {
                let mut s = String::from_str("hash parsing error: ");
                s.append(m.as_str());
                s
            },
            Error::Io(m) => {
                let mut s = String::from_str("I/O error: ");
                s.append(m.as_str());
                s
            },
            Error::InvalidCookieFile => String::from_str("invalid cookie file"),
            Error::Json(m) => {
                let mut s = String::from_str("JSON error: ");
                s.append(m.as_str());
                s
            },
            Error::Transport(m) => {
                let mut s = String::from_str("transport error: ");
                s.append(m.as_str());
                s
            },
            Error::Rpc(e) => {
                let mut s = String::from_str("JSON-RPC error: code ");
                s.append(i32_to_string(e.code).as_str());
                s.append(": ");
                s.append(e.message.as_str());
                proof {
                    assert(s@ =~= self.message_spec());
                }
                s
            },
            Error::Model(m) => {
                let mut s = String::from_str("model conversion error: ");
                s.append(m.as_str());
                s
            },
            Error::NonceMismatch => String::from_str(
                "nonce mismatch: response id does not match request id",
            ),
            Error::TryFromInt(m) => {
                let mut s = String::from_str("integer conversion overflow error: ");
                s.append(m.as_str());
                s
            },
            Error::GetBlockHeaderVerbose(m) => m.clone(),
            Error::GetBlockVerboseOne(m) => m.clone(),
        }
    }
}

} // verus!

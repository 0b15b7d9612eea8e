//! The closed error taxonomy of the connector: transport construction,
//! request transport/status, document parsing, and artifact download
//! failures, each carrying a human-readable message.

use vstd::prelude::*;
use vstd::string::StringExecFns;

verus! {

/// One failure of a connector operation, by kind, with its message.
#[derive(Debug, Clone)]
pub enum AppError {
    /// The HTTP client could not be constructed (proxy misconfiguration).
    Transport(String),
    /// A request failed in transit or returned a non-success status.
    Request(String),
    /// The HTML document could not be parsed at all.
    Parse(String),
    /// The artifact endpoint returned a non-success status.
    Download(String),
}

impl AppError {
    /// The error rendered as text: a fixed prefix naming the kind, then the
    /// message.
    pub fn message(&self) -> (r: String)
        ensures
            (match self {
                AppError::Transport(m) => r@ == "Transport error: "@ + m@,
                AppError::Request(m) => r@ == "Request error: "@ + m@,
                AppError::Parse(m) => r@ == "Parse error: "@ + m@,
                AppError::Download(m) => r@ == "Download error: "@ + m@,
            }),
    {
        match self {
            AppError::Transport(m) => String::from_str("Transport error: ").concat(m.as_str()),
            AppError::Request(m) => String::from_str("Request error: ").concat(m.as_str()),
            AppError::Parse(m) => String::from_str("Parse error: ").concat(m.as_str()),
            AppError::Download(m) => String::from_str("Download error: ").concat(m.as_str()),
        }
    }
}

} // verus!

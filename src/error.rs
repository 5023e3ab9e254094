//! The errors of the pipeline, and the text each of them is reported with.

use crate::model::Timestamp;
use crate::text::{decimal, decimal_text};
use vstd::prelude::*;

verus! {

/// What can go wrong while work is done.
#[derive(Debug, Clone)]
pub enum Error {
    /// A header of an HTTP response was missing or unreadable; holds the reason.
    InvalidHeader(String),
    /// An operation took longer than the seconds given; holds what it was doing.
    Timeout(u64, String),
    /// The deadline of the whole program passed.
    DeadlineExceeded(Timestamp),
    /// The durable store failed, busy after all retries included.
    Storage(String),
    /// The file system failed.
    Io(String),
    /// The transport or the HTTP client failed.
    Network(String),
    /// A stored record could not be encoded or decoded.
    Serialization(String),
    /// Any other failure, told in words.
    Message(String),
}

/// The text an error is reported with.
pub open spec fn error_text(e: Error) -> Seq<char> {
    match e {
        Error::InvalidHeader(m) => m@,
        Error::Timeout(s, label) => label@ + ": timeout after "@ + decimal_text(s as nat) + "s"@,
        Error::DeadlineExceeded(t) => "deadline exceeded at "@ + decimal_text(t.millis as nat)
            + "ms since the Unix epoch"@,
        Error::Storage(m) => "storage: "@ + m@,
        Error::Io(m) => "io: "@ + m@,
        Error::Network(m) => "network: "@ + m@,
        Error::Serialization(m) => "serialization: "@ + m@,
        Error::Message(m) => m@,
    }
}

impl Error {
    /// The text this error is reported with.
    pub fn message(&self) -> (r: String)
        ensures
            r@ == error_text(*self),
    {
        match self {
            Error::InvalidHeader(m) => m.clone(),
            Error::Timeout(s, label) => {
                let r = label.clone().concat(": timeout after ");
                let r = r.concat(decimal(*s).as_str());
                r.concat("s")
            },
            Error::DeadlineExceeded(t) => {
                let r = String::from_str("deadline exceeded at ");
                let r = r.concat(decimal(t.millis).as_str());
                r.concat("ms since the Unix epoch")
            },
            Error::Storage(m) => String::from_str("storage: ").concat(m.as_str()),
            Error::Io(m) => String::from_str("io: ").concat(m.as_str()),
            Error::Network(m) => String::from_str("network: ").concat(m.as_str()),
            Error::Serialization(m) => String::from_str("serialization: ").concat(m.as_str()),
            Error::Message(m) => m.clone(),
        }
    }
}

} // verus!

//! Error taxonomy: framing failures are fatal to the connection, protocol
//! failures are ordinary typed outcomes that callers branch on.
use vstd::prelude::*;
use crate::code::Status;

verus! {

/// A protocol-level failure: a decoded status other than `NoError`, together
/// with its fixed description and an optional caller-supplied detail.
#[derive(Debug)]
pub struct ProtoError {
    pub status: Status,
    pub desc: &'static str,
    pub detail: Option<String>,
}

impl ProtoError {
    /// Build the error for a non-success status, attaching the status's own
    /// description.
    pub fn from_status(status: Status, detail: Option<String>) -> (r: Self)
        ensures
            r.status == status,
            r.desc@ == crate::code::spec_status_desc(status),
            r.detail == detail,
    {
        ProtoError { status, desc: status.desc(), detail }
    }

    /// Get error detail
    pub fn detail(&self) -> (r: Option<String>)
        ensures
            r == self.detail,
    {
        match &self.detail {
            Some(s) => Some(s.clone()),
            None => None,
        }
    }

    /// Get status code
    pub fn status(&self) -> (r: Status)
        ensures
            r == self.status,
    {
        self.status
    }

    /// A user-facing message: the description, with the detail in parentheses
    /// when one is present.
    pub fn message(&self) -> (r: String)
        ensures
            self.detail is None ==> r@ == self.desc@,
    {
        match &self.detail {
            Some(d) => {
                let mut s = self.desc.to_owned();
                s.append(" (");
                s.append(d.as_str());
                s.append(")");
                s
            },
            None => self.desc.to_owned(),
        }
    }
}

/// The standard I/O error type, carried through opaquely: this crate never
/// looks inside one, it only hands the transport's failures back out.
#[verifier::external_type_specification]
#[verifier::external_body]
pub struct ExIoError(std::io::Error);

/// What a decode or an operation can fail with: a channel failure, broken
/// framing (an unrecognised magic, opcode or status value, or lengths that
/// contradict each other), or a protocol-level status from the peer.
/// Channel failures and broken framing are fatal to the connection;
/// protocol failures are ordinary outcomes callers branch on.
#[derive(Debug)]
pub enum Error {
    /// The byte channel itself failed; the connection must be discarded.
    Io(std::io::Error),
    /// The byte stream's framing is broken; the connection must be discarded.
    Malformed,
    /// The peer answered with a status other than `NoError`.
    Proto(ProtoError),
}

impl Error {
    /// Wrap a channel failure.
    pub fn from_io(e: std::io::Error) -> (r: Error)
        ensures
            r is Io,
    {
        Error::Io(e)
    }
}

} // verus!

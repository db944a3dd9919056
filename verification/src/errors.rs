//! Error taxonomy of the engine.

use vstd::prelude::*;

verus! {

/// What went wrong, and the human-readable detail.
///
/// - `Connection`: establishing or using the transport failed (timeout,
///   refusal, resolution failure, lost channel).
/// - `Auth`: the credential was rejected, malformed, or of an unsupported
///   kind.
/// - `RemoteExec`: a remote command exited nonzero or its channel failed.
/// - `Encoding`: remote text was undecodable or binary and repair failed.
/// - `Safety`: a destructive operation targeted the root or a home alias.
#[derive(Debug, Clone, PartialEq, Eq)]
pub enum CoreError {
    Connection(String),
    Auth(String),
    RemoteExec(String),
    Encoding(String),
    Safety(String),
}

impl CoreError {
    /// The detail text carried by the error.
    pub open spec fn text(self) -> Seq<char> {
        match self {
            CoreError::Connection(s) => s@,
            CoreError::Auth(s) => s@,
            CoreError::RemoteExec(s) => s@,
            CoreError::Encoding(s) => s@,
            CoreError::Safety(s) => s@,
        }
    }

    /// True of safety violations alone.
    pub open spec fn is_safety(self) -> bool {
        self is Safety
    }

    /// The detail text carried by the error.
    pub fn message(&self) -> (r: String)
        ensures
            r@ == self.text(),
    {
        match self {
            CoreError::Connection(s) => s.clone(),
            CoreError::Auth(s) => s.clone(),
            CoreError::RemoteExec(s) => s.clone(),
            CoreError::Encoding(s) => s.clone(),
            CoreError::Safety(s) => s.clone(),
        }
    }
}

} // verus!

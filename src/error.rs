use vstd::prelude::*;

verus! {

/// The ways in which a format or token lookup can fail.
#[derive(Copy, Clone, PartialEq, Eq, Hash, Debug, Structural)]
pub enum AltoError {
    /// The format or token needs a capability that the session did not
    /// negotiate, or no session was given where one was needed.
    ExtensionNotPresent,
}

/// Result of a lookup that may fail with an [`AltoError`].
pub type AltoResult<T> = Result<T, AltoError>;

} // verus!

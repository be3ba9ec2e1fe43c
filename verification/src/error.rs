use vstd::prelude::*;

verus! {

/// The failure kinds a 9P-speaking endpoint must distinguish.
///
/// Codecs never panic: out-of-domain bits surface as `InvalidEncoding`.
/// Capability operations fail fast and leave no partial state, with the one
/// documented exception of `File::remove`, which always clunks the fid.
#[derive(Clone, Copy, Debug, PartialEq, Eq, Structural)]
pub enum Vfs9Error {
    /// A decode operation received bits outside its defined domain.
    InvalidEncoding,
    /// An operation was attempted without the required read/write/execute
    /// bit for the acting principal.
    PermissionDenied,
    /// A name did not resolve to a child, or a creation targeted a name
    /// that already exists.
    NotFound,
    /// `"."` or `".."` was given where a fresh name is required.
    IllegalName,
    /// Writing, truncating or removing-on-close a directory, or an I/O
    /// request outside the constraints of the open mode.
    IllegalOperation,
    /// An exclusive-use file is already held open by another fid.
    ExclusiveConflict,
    /// The underlying transfer could not complete.
    IoFailure,
}

} // verus!

use vstd::prelude::*;

verus! {

/// An error returned upon finding a null byte inside text that was to become
/// a null-terminated buffer. The text is rejected as a whole; nothing is
/// acquired from the pool and nothing is written.
#[derive(Debug, Clone, Copy, PartialEq, Eq, Structural)]
pub struct NulError {
    /// Zero-based byte offset of the first null byte in the rejected text.
    pub position: usize,
}

} // verus!

use vstd::prelude::*;

verus! {

/// Failure while opening or touching a real file for a file-backed stream.
#[derive(Clone, Copy, Debug, PartialEq, Eq, Structural)]
pub enum IoError {
    /// The path does not name an existing file.
    NotFound,
    /// The path exists but the process may not open it in the requested mode.
    PermissionDenied,
    /// Any other underlying I/O fault.
    Other,
}

/// Failure of a guest-visible write into a writable stream slot.
#[derive(Clone, Copy, Debug, PartialEq, Eq, Structural)]
pub enum WriteError {
    /// The write would push the sink past its fixed capacity; nothing was
    /// committed. Carries the length that was attempted and the room that
    /// was left.
    CapacityExceeded { attempted: usize, remaining: usize },
    /// The sink's target buffer is frozen and cannot currently be mutated.
    BufferImmutable,
    /// The underlying file write failed.
    Io(IoError),
}

} // verus!

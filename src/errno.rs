use vstd::prelude::*;

verus! {

/// The kinds of error that cross the library's boundary.
#[derive(Debug, Clone, Copy, PartialEq, Eq, Structural)]
pub enum Errno {
    /// A non-blocking operation cannot make progress now.
    EAGAIN,
    /// The operation is not supported by this kind of file.
    EBADF,
    /// The operation is legal for the type but not implemented here.
    ENOSYS,
    /// Wrong socket family or type, missing or mismatched address.
    EINVAL,
    /// An address was given on an already connected stream.
    EISCONN,
    /// A wait reached its deadline.
    ETIMEDOUT,
    /// Interrupted; passed through from inner calls.
    EINTR,
}

impl Errno {
    /// Whether this is the "would block" signal of non-blocking I/O.
    pub fn is_would_block(&self) -> (r: bool)
        ensures
            r == (*self == Errno::EAGAIN),
    {
        match self {
            Errno::EAGAIN => true,
            _ => false,
        }
    }
}

} // verus!

use vstd::prelude::*;

verus! {

/// `EPERM`: operation not permitted.
pub const EPERM: i32 = 1;

/// `ENOENT`: no such entry.
pub const ENOENT: i32 = 2;

/// `EBADF`: bad file descriptor.
pub const EBADF: i32 = 9;

/// `EAGAIN`: resource temporarily unavailable.
pub const EAGAIN: i32 = 11;

/// `ENOMEM`: out of memory.
pub const ENOMEM: i32 = 12;

/// `EBUSY`: device or resource busy.
pub const EBUSY: i32 = 16;

/// `EEXIST`: the entry already exists.
pub const EEXIST: i32 = 17;

/// `EINVAL`: invalid argument.
pub const EINVAL: i32 = 22;

/// `ENOBUFS`: no buffer space available.
pub const ENOBUFS: i32 = 105;

/// `ENOTCONN`: the endpoint is not connected.
pub const ENOTCONN: i32 = 107;

/// The kinds of failure reported by the library.
#[derive(Debug, Clone, Copy, PartialEq, Eq, Structural)]
pub enum VslError {
    /// A native operation failed with this `errno` value.
    Os(i32),
    /// Malformed input caught before any native call.
    InvalidArgument,
    /// A native call reported success but produced no resource.
    NullResource,
    /// A bounded wait elapsed with no event; the caller may retry.
    Timeout,
    /// The decoder flagged its input as undecodable.
    Decode,
}

impl VslError {
    /// Whether the caller may simply retry the operation.
    pub fn is_retryable(&self) -> (r: bool)
        ensures
            r == (*self is Timeout),
    {
        match self {
            VslError::Timeout => true,
            _ => false,
        }
    }
}

} // verus!

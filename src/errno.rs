//! The Linux error numbers that the core hands back to user space.
use vstd::prelude::*;

verus! {

/// An error kind, reported to user space as its negated Linux errno.
#[derive(Debug, Clone, Copy, PartialEq, Eq, Structural)]
pub enum LinuxError {
    /// No such file or directory: a path or a program image was not found.
    ENOENT,
    /// No child process to wait for.
    ECHILD,
    /// A user pointer lies outside the user-mapped region.
    EFAULT,
    /// A path component is not a directory.
    ENOTDIR,
    /// The target is a directory.
    EISDIR,
    /// An argument is invalid (bad flags, buffer too small).
    EINVAL,
    /// A user string ran past the scanning cap.
    ENAMETOOLONG,
    /// The system call is unknown or not implemented.
    ENOSYS,
    /// The operation is refused in the current state.
    EOPNOTSUPP,
    /// Any other Linux errno, by its number.
    Other(u16),
}

/// The Linux errno of each error kind.
pub open spec fn errno_of(e: LinuxError) -> i32 {
    match e {
        LinuxError::ENOENT => 2,
        LinuxError::ECHILD => 10,
        LinuxError::EFAULT => 14,
        LinuxError::ENOTDIR => 20,
        LinuxError::EISDIR => 21,
        LinuxError::EINVAL => 22,
        LinuxError::ENAMETOOLONG => 36,
        LinuxError::ENOSYS => 38,
        LinuxError::EOPNOTSUPP => 95,
        LinuxError::Other(n) => n as i32,
    }
}

impl LinuxError {
    /// The errno value of this error.
    pub fn code(self) -> (r: i32)
        ensures
            r == errno_of(self),
    {
        match self {
            LinuxError::ENOENT => 2,
            LinuxError::ECHILD => 10,
            LinuxError::EFAULT => 14,
            LinuxError::ENOTDIR => 20,
            LinuxError::EISDIR => 21,
            LinuxError::EINVAL => 22,
            LinuxError::ENAMETOOLONG => 36,
            LinuxError::ENOSYS => 38,
            LinuxError::EOPNOTSUPP => 95,
            LinuxError::Other(n) => n as i32,
        }
    }
}

} // verus!

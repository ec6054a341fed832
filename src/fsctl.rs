//! The decisions that the directory syscalls make before they reach the
//! file system.
use vstd::prelude::*;
use crate::errno::LinuxError;

verus! {

/// The directory descriptor that stands for the current directory.
pub const AT_FDCWD: i32 = -100;

/// The `unlinkat` flag that asks for a directory to be removed.
pub const AT_REMOVEDIR: usize = 0x200;

/// A path that starts at the root.
pub open spec fn is_absolute(path: Seq<u8>) -> bool {
    path.len() > 0 && path[0] == 0x2f
}

/// Checks the arguments of `mkdirat`: a relative path is served only
/// against the current directory; otherwise `EINVAL`.
pub fn mkdirat_check(dirfd: i32, path: &[u8]) -> (r: Result<(), LinuxError>)
    ensures
        r is Err <==> (!is_absolute(path@) && dirfd != AT_FDCWD),
        r is Err ==> r == Err::<(), LinuxError>(LinuxError::EINVAL),
{
    let absolute = path.len() > 0 && path[0] == 0x2f;
    if !absolute && dirfd != AT_FDCWD {
        Err(LinuxError::EINVAL)
    } else {
        Ok(())
    }
}

/// What `unlinkat` does to its target.
#[derive(Debug, Clone, Copy, PartialEq, Eq, Structural)]
pub enum UnlinkAction {
    /// Remove the directory.
    RemoveDir,
    /// Remove the link to a file.
    RemoveLink,
}

/// Chooses what `unlinkat` does: with `AT_REMOVEDIR` the directory is
/// removed; otherwise the target's link is removed, unless the target is a
/// directory (`EISDIR`). `is_dir` is read only without `AT_REMOVEDIR`.
pub fn unlinkat_plan(flags: usize, is_dir: bool) -> (r: Result<UnlinkAction, LinuxError>)
    ensures
        flags == AT_REMOVEDIR ==> r == Ok::<UnlinkAction, LinuxError>(UnlinkAction::RemoveDir),
        flags != AT_REMOVEDIR && is_dir ==> r == Err::<UnlinkAction, LinuxError>(
            LinuxError::EISDIR,
        ),
        flags != AT_REMOVEDIR && !is_dir ==> r == Ok::<UnlinkAction, LinuxError>(
            UnlinkAction::RemoveLink,
        ),
{
    if flags == AT_REMOVEDIR {
        Ok(UnlinkAction::RemoveDir)
    } else if is_dir {
        Err(LinuxError::EISDIR)
    } else {
        Ok(UnlinkAction::RemoveLink)
    }
}

} // verus!

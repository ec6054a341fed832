//! Syscall dispatch core and task-lifecycle engine of a POSIX personality
//! layer, stated over plain values and verified.
pub mod context;
pub mod dirent;
pub mod errno;
pub mod fsctl;
pub mod rlimit;
pub mod signal;
pub mod syscall;
pub mod task;
pub mod time;
pub mod uptr;

//! Resource limits.
use vstd::prelude::*;

verus! {

/// The soft and hard value of one resource limit.
#[derive(Debug, Clone, Copy, PartialEq, Eq, Structural)]
pub struct Rlimit {
    pub rlim_cur: u32,
    pub rlim_max: u32,
}

/// The value that every limit starts with, both soft and hard.
pub const RLIMIT_DEFAULT: u32 = 65535;

impl Default for Rlimit {
    fn default() -> (r: Rlimit)
        ensures
            r.rlim_cur == RLIMIT_DEFAULT,
            r.rlim_max == RLIMIT_DEFAULT,
    {
        Rlimit { rlim_cur: RLIMIT_DEFAULT, rlim_max: RLIMIT_DEFAULT }
    }
}

} // verus!

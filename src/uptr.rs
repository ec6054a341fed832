//! Validation of user pointers against the mapped user regions.
use vstd::prelude::*;
use crate::errno::LinuxError;

verus! {

/// A mapped region of user memory, `[start, end)`, with its permissions.
#[derive(Debug, Clone, Copy, PartialEq, Eq, Structural)]
pub struct UserRegion {
    pub start: usize,
    pub end: usize,
    pub readable: bool,
    pub writable: bool,
}

/// `addr` lies in region `r`.
pub open spec fn in_region(r: UserRegion, addr: usize) -> bool {
    r.start <= addr < r.end
}

/// Region `r` holds all of `[addr, addr + len)`, starting at a mapped byte,
/// and allows the access.
pub open spec fn region_covers(r: UserRegion, addr: usize, len: usize, write: bool) -> bool {
    &&& in_region(r, addr)
    &&& addr + len <= r.end
    &&& if write {
        r.writable
    } else {
        r.readable
    }
}

/// An access of `len` bytes at `addr`, aligned to `align`, is allowed: the
/// pointer is not null, is aligned, and one mapped region holds the range
/// with the needed permission.
pub open spec fn access_ok(
    regions: Seq<UserRegion>,
    addr: usize,
    len: usize,
    align: usize,
    write: bool,
) -> bool {
    &&& addr != 0
    &&& align > 0 && addr % align == 0
    &&& exists|i: int| 0 <= i < regions.len() && region_covers(#[trigger] regions[i], addr, len, write)
}

/// No region maps `addr`.
pub open spec fn unmapped(regions: Seq<UserRegion>, addr: usize) -> bool {
    forall|i: int| 0 <= i < regions.len() ==> !in_region(#[trigger] regions[i], addr)
}

/// Checks an access of `len` bytes at `addr` for alignment `align`
/// (0 counts as 1); fails with `EFAULT` where it is not allowed.
pub fn check_access(regions: &Vec<UserRegion>, addr: usize, len: usize, align: usize, write: bool) -> (r:
    Result<(), LinuxError>)
    ensures
        r is Ok <==> access_ok(regions@, addr, len, if align == 0 {
            1
        } else {
            align
        }, write),
        r is Err ==> r == Err::<(), LinuxError>(LinuxError::EFAULT),
{
    let a: usize = if align == 0 {
        1
    } else {
        align
    };
    if addr == 0 || addr % a != 0 {
        return Err(LinuxError::EFAULT);
    }
    let mut i: usize = 0;
    while i < regions.len()
        invariant
            i <= regions@.len(),
            addr != 0,
            a > 0 && addr % a == 0,
            a == (if align == 0 {
                1
            } else {
                align
            }),
            forall|j: int| 0 <= j < i ==> !region_covers(#[trigger] regions@[j], addr, len, write),
        decreases regions@.len() - i,
    {
        let r = regions[i];
        let perm = if write {
            r.writable
        } else {
            r.readable
        };
        if r.start <= addr && addr < r.end && len <= r.end - addr && perm {
            proof {
                assert(region_covers(regions@[i as int], addr, len, write));
                assert(access_ok(regions@, addr, len, a, write));
            }
            return Ok(());
        }
        i = i + 1;
    }
    Err(LinuxError::EFAULT)
}

/// A pointer into an unmapped page is refused whatever the length asked for.
pub proof fn lemma_unmapped_faults(
    regions: Seq<UserRegion>,
    addr: usize,
    len: usize,
    align: usize,
    write: bool,
)
    requires
        unmapped(regions, addr),
    ensures
        !access_ok(regions, addr, len, align, write),
{
    assert forall|i: int| 0 <= i < regions.len() implies !region_covers(
        #[trigger] regions[i],
        addr,
        len,
        write,
    ) by {
        assert(!in_region(regions[i], addr));
    }
}

/// The longest user string scanned, terminator included.
pub const MAX_CSTR_LEN: usize = 4096;

/// The position of the first NUL in `s`, or -1.
pub open spec fn first_nul(s: Seq<u8>, i: int) -> int
    decreases s.len() - i,
{
    if i < 0 || i >= s.len() {
        -1
    } else if s[i] == 0 {
        i
    } else {
        first_nul(s, i + 1)
    }
}

/// What scanning a string in `readable`, the bytes readable from the
/// pointer on, gives with the cap `cap`: the string's length where a NUL
/// comes within the cap, `ENAMETOOLONG` where the cap is passed first, and
/// `EFAULT` where the readable bytes end first.
pub open spec fn cstr_outcome(readable: Seq<u8>, cap: usize) -> Result<usize, LinuxError> {
    let n = first_nul(readable, 0);
    if n >= 0 && n < cap {
        Ok(n as usize)
    } else if readable.len() >= cap {
        Err(LinuxError::ENAMETOOLONG)
    } else {
        Err(LinuxError::EFAULT)
    }
}

proof fn lemma_first_nul_bounds(s: Seq<u8>, i: int)
    requires
        0 <= i,
    ensures
        first_nul(s, i) == -1 || (i <= first_nul(s, i) < s.len() && s[first_nul(s, i)] == 0),
    decreases s.len() - i,
{
    if i < s.len() && s[i] != 0 {
        lemma_first_nul_bounds(s, i + 1);
    }
}

/// Measures a NUL-terminated user string, scanning no more than `cap`
/// bytes.
pub fn scan_cstr(readable: &Vec<u8>, cap: usize) -> (r: Result<usize, LinuxError>)
    ensures
        r == cstr_outcome(readable@, cap),
{
    let mut i: usize = 0;
    while i < readable.len() && i < cap
        invariant
            i <= readable@.len(),
            i <= cap,
            first_nul(readable@, 0) == first_nul(readable@, i as int),
        decreases readable@.len() - i,
    {
        if readable[i] == 0 {
            return Ok(i);
        }
        i = i + 1;
    }
    proof {
        lemma_first_nul_bounds(readable@, i as int);
    }
    if i >= cap {
        Err(LinuxError::ENAMETOOLONG)
    } else {
        Err(LinuxError::EFAULT)
    }
}

} // verus!

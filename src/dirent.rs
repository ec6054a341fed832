//! Directory entries as `getdents64` lays them out in the user's buffer.
use vstd::prelude::*;
use crate::errno::LinuxError;
use crate::uptr::{UserRegion, access_ok, check_access};

verus! {

/// The kind of a node in the file system.
#[derive(Debug, Clone, Copy, PartialEq, Eq, Structural)]
pub enum NodeType {
    Fifo,
    CharDevice,
    Dir,
    BlockDevice,
    File,
    SymLink,
    Socket,
}

/// The `d_type` of a directory entry.
#[derive(Debug, Clone, Copy, PartialEq, Eq, Structural)]
pub enum FileType {
    Unknown,
    Fifo,
    Chr,
    Dir,
    Blk,
    Reg,
    Lnk,
    Socket,
    Wht,
}

/// The `d_type` byte of each file type.
pub open spec fn file_type_code(t: FileType) -> u8 {
    match t {
        FileType::Unknown => 0,
        FileType::Fifo => 1,
        FileType::Chr => 2,
        FileType::Dir => 4,
        FileType::Blk => 6,
        FileType::Reg => 8,
        FileType::Lnk => 10,
        FileType::Socket => 12,
        FileType::Wht => 14,
    }
}

/// The file type reported for a node: directories and regular files are
/// told apart, everything else is unknown.
pub open spec fn file_type_of(n: NodeType) -> FileType {
    match n {
        NodeType::Dir => FileType::Dir,
        NodeType::File => FileType::Reg,
        _ => FileType::Unknown,
    }
}

impl FileType {
    /// The `d_type` byte.
    pub fn code(self) -> (r: u8)
        ensures
            r == file_type_code(self),
    {
        match self {
            FileType::Unknown => 0,
            FileType::Fifo => 1,
            FileType::Chr => 2,
            FileType::Dir => 4,
            FileType::Blk => 6,
            FileType::Reg => 8,
            FileType::Lnk => 10,
            FileType::Socket => 12,
            FileType::Wht => 14,
        }
    }
}

impl From<NodeType> for FileType {
    fn from(n: NodeType) -> (r: FileType) {
        match n {
            NodeType::Dir => FileType::Dir,
            NodeType::File => FileType::Reg,
            _ => FileType::Unknown,
        }
    }
}

impl vstd::std_specs::convert::FromSpecImpl<NodeType> for FileType {
    open spec fn obeys_from_spec() -> bool {
        true
    }

    open spec fn from_spec(n: NodeType) -> FileType {
        file_type_of(n)
    }
}

/// The fixed header of a directory entry, before its name.
#[derive(Debug, Clone, Copy, PartialEq, Eq, Structural)]
pub struct DirEnt {
    pub d_ino: u64,
    pub d_off: i64,
    pub d_reclen: u16,
    pub d_type: u8,
}

/// The size of the header: inode, offset, record length and type.
pub const FIXED_SIZE: usize = 19;

/// The `n` low bytes of `v`, least significant first.
pub open spec fn bytes_le(v: u64, n: nat) -> Seq<u8> {
    Seq::new(n, |k: int| (v >> (8 * k) as u64) as u8)
}

/// The bytes of a header as it is written to the buffer.
pub open spec fn dirent_bytes(d: DirEnt) -> Seq<u8> {
    bytes_le(d.d_ino, 8) + bytes_le(d.d_off as u64, 8) + bytes_le(d.d_reclen as u64, 2) + seq![
        d.d_type,
    ]
}

impl DirEnt {
    /// A header; the record length is kept to its low 16 bits.
    pub fn new(ino: u64, off: i64, reclen: usize, file_type: FileType) -> (r: DirEnt)
        ensures
            r == (DirEnt {
                d_ino: ino,
                d_off: off,
                d_reclen: reclen as u16,
                d_type: file_type_code(file_type),
            }),
    {
        DirEnt { d_ino: ino, d_off: off, d_reclen: reclen as u16, d_type: file_type.code() }
    }

    /// Appends the header's bytes to `out`.
    pub fn write_to(&self, out: &mut Vec<u8>)
        ensures
            final(out)@ == old(out)@ + dirent_bytes(*self),
    {
        push_le(out, self.d_ino, 8);
        push_le(out, self.d_off as u64, 8);
        push_le(out, self.d_reclen as u64, 2);
        out.push(self.d_type);
        proof {
            assert(final(out)@ =~= old(out)@ + dirent_bytes(*self));
        }
    }
}

fn push_le(out: &mut Vec<u8>, v: u64, n: usize)
    requires
        n <= 8,
    ensures
        final(out)@ == old(out)@ + bytes_le(v, n as nat),
{
    let ghost start = out@;
    let mut k: usize = 0;
    while k < n
        invariant
            n <= 8,
            k <= n,
            out@ =~= start + bytes_le(v, k as nat),
        decreases n - k,
    {
        out.push((v >> (8 * k) as u64) as u8);
        k = k + 1;
        proof {
            assert(out@ =~= start + bytes_le(v, k as nat));
        }
    }
}

/// One entry of a directory: its name and the kind of its node.
#[derive(Debug)]
pub struct DirEntryInfo {
    pub name: Vec<u8>,
    pub kind: NodeType,
}

/// The record length of an entry whose name has `name_len` bytes: header,
/// name and a terminating NUL.
pub open spec fn record_len(name_len: nat) -> nat {
    (FIXED_SIZE + name_len + 1) as nat
}

/// The bytes of entry `e` written as a record that ends at offset `end`.
pub open spec fn record_bytes(e: DirEntryInfo, end: nat) -> Seq<u8> {
    let rl = record_len(e.name@.len());
    dirent_bytes(
        DirEnt {
            d_ino: 1,
            d_off: end as i64,
            d_reclen: rl as u16,
            d_type: file_type_code(file_type_of(e.kind)),
        },
    ) + e.name@ + seq![0u8]
}

/// The bytes that fill a buffer of `len` bytes from offset `off` with the
/// entries from index `i` on, and how many entries they hold. Filling stops
/// at the end of the entries, when fewer than a header and two bytes are
/// left, or at the first entry that does not fit whole.
pub open spec fn pack_from(es: Seq<DirEntryInfo>, len: nat, off: nat, i: int) -> (Seq<u8>, nat)
    decreases es.len() - i,
{
    if i < 0 || i >= es.len() || off + FIXED_SIZE + 2 > len {
        (seq![], 0)
    } else {
        let rl = record_len(es[i].name@.len());
        if off + rl > len {
            (seq![], 0)
        } else {
            let rest = pack_from(es, len, off + rl, i + 1);
            (record_bytes(es[i], off + rl) + rest.0, rest.1 + 1)
        }
    }
}

/// Lays out as many whole entries as fit in a buffer of `len` bytes, in
/// order, each record's offset field holding where the record ends. Returns
/// the bytes, whose length is the syscall's result, and how many entries were
/// used, past which the directory's position moves. A buffer shorter than a
/// header is refused with `EINVAL`.
pub fn fill_dirents(entries: &Vec<DirEntryInfo>, len: usize) -> (r: Result<(Vec<u8>, usize), LinuxError>)
    ensures
        len < FIXED_SIZE ==> r == Err::<(Vec<u8>, usize), LinuxError>(LinuxError::EINVAL),
        len >= FIXED_SIZE ==> (r matches Ok((bytes, n)) && (bytes@, n as nat) == pack_from(
            entries@,
            len as nat,
            0,
            0,
        ) && bytes@.len() <= len),
{
    if len < FIXED_SIZE {
        return Err(LinuxError::EINVAL);
    }
    let ghost total = pack_from(entries@, len as nat, 0, 0);
    let mut out: Vec<u8> = Vec::new();
    let mut off: usize = 0;
    let mut i: usize = 0;
    while i < entries.len()
        invariant
            i <= entries@.len(),
            off <= len,
            out@.len() == off,
            out@ + pack_from(entries@, len as nat, off as nat, i as int).0 == total.0,
            i + pack_from(entries@, len as nat, off as nat, i as int).1 == total.1,
        ensures
            pack_from(entries@, len as nat, off as nat, i as int).0 == Seq::<u8>::empty(),
            pack_from(entries@, len as nat, off as nat, i as int).1 == 0,
            out@ == total.0,
            i == total.1,
            off <= len,
            out@.len() == off,
        decreases entries@.len() - i,
    {
        if len - off < FIXED_SIZE + 2 {
            break;
        }
        let e = &entries[i];
        if e.name.len() > len - off - FIXED_SIZE - 1 {
            break;
        }
        let rl: usize = FIXED_SIZE + e.name.len() + 1;
        let end: usize = off + rl;
        let ghost before = out@;
        let ghost rest = pack_from(entries@, len as nat, end as nat, i + 1);
        let d = DirEnt::new(1, end as i64, rl, FileType::from(e.kind));
        d.write_to(&mut out);
        let mut k: usize = 0;
        while k < e.name.len()
            invariant
                k <= e.name@.len(),
                out@ =~= before + dirent_bytes(d) + e.name@.subrange(0, k as int),
            decreases e.name@.len() - k,
        {
            out.push(e.name[k]);
            k = k + 1;
        }
        out.push(0u8);
        proof {
            assert(e.name@.subrange(0, e.name@.len() as int) =~= e.name@);
            assert(out@ =~= before + record_bytes(entries@[i as int], end as nat));
            assert(before + (record_bytes(entries@[i as int], end as nat) + rest.0) =~= out@
                + rest.0);
        }
        off = end;
        i = i + 1;
    }
    Ok((out, i))
}

/// The `getdents64` step: the user buffer of `len` bytes at `buf` must be
/// mapped writable (else `EFAULT`, checked first), and must hold at least a
/// header (else `EINVAL`); then the entries are laid out as `fill_dirents`
/// does.
pub fn getdents64(
    regions: &Vec<UserRegion>,
    buf: usize,
    len: usize,
    entries: &Vec<DirEntryInfo>,
) -> (r: Result<(Vec<u8>, usize), LinuxError>)
    ensures
        !access_ok(regions@, buf, len, 1, true) ==> r == Err::<(Vec<u8>, usize), LinuxError>(
            LinuxError::EFAULT,
        ),
        access_ok(regions@, buf, len, 1, true) && len < FIXED_SIZE ==> r == Err::<
            (Vec<u8>, usize),
            LinuxError,
        >(LinuxError::EINVAL),
        access_ok(regions@, buf, len, 1, true) && len >= FIXED_SIZE ==> (r matches Ok((bytes, n))
            && (bytes@, n as nat) == pack_from(entries@, len as nat, 0, 0) && bytes@.len() <= len),
{
    if let Err(e) = check_access(regions, buf, len, 1, true) {
        return Err(e);
    }
    fill_dirents(entries, len)
}

} // verus!

//! Byte-exact FUSE wire structures, opcodes and capability flags.
use crate::wire::{
    dec16, dec32, dec64, get_u16, get_u32, get_u64, le16, le32, le64, lemma_i32_cast_round_trip,
    lemma_i64_cast_round_trip, lemma_le16_round_trip, lemma_le32_round_trip, lemma_le64_round_trip,
    push_u16, push_u32, push_u64, push_zeros,
};
use vstd::prelude::*;

verus! {

/// Protocol major version spoken by this library.
pub const FUSE_KERNEL_VERSION: u32 = 7;

/// Highest protocol minor version understood by this library.
pub const FUSE_KERNEL_MINOR_VERSION: u32 = 31;

pub const FUSE_LOOKUP: u32 = 1;
pub const FUSE_FORGET: u32 = 2;
pub const FUSE_GETATTR: u32 = 3;
pub const FUSE_SETATTR: u32 = 4;
pub const FUSE_READLINK: u32 = 5;
pub const FUSE_SYMLINK: u32 = 6;
pub const FUSE_MKNOD: u32 = 8;
pub const FUSE_MKDIR: u32 = 9;
pub const FUSE_UNLINK: u32 = 10;
pub const FUSE_RMDIR: u32 = 11;
pub const FUSE_RENAME: u32 = 12;
pub const FUSE_LINK: u32 = 13;
pub const FUSE_OPEN: u32 = 14;
pub const FUSE_READ: u32 = 15;
pub const FUSE_WRITE: u32 = 16;
pub const FUSE_STATFS: u32 = 17;
pub const FUSE_RELEASE: u32 = 18;
pub const FUSE_FSYNC: u32 = 20;
pub const FUSE_SETXATTR: u32 = 21;
pub const FUSE_GETXATTR: u32 = 22;
pub const FUSE_LISTXATTR: u32 = 23;
pub const FUSE_REMOVEXATTR: u32 = 24;
pub const FUSE_FLUSH: u32 = 25;
pub const FUSE_INIT: u32 = 26;
pub const FUSE_OPENDIR: u32 = 27;
pub const FUSE_READDIR: u32 = 28;
pub const FUSE_RELEASEDIR: u32 = 29;
pub const FUSE_FSYNCDIR: u32 = 30;
pub const FUSE_GETLK: u32 = 31;
pub const FUSE_SETLK: u32 = 32;
pub const FUSE_SETLKW: u32 = 33;
pub const FUSE_ACCESS: u32 = 34;
pub const FUSE_CREATE: u32 = 35;
pub const FUSE_INTERRUPT: u32 = 36;
pub const FUSE_BMAP: u32 = 37;
pub const FUSE_DESTROY: u32 = 38;
pub const FUSE_POLL: u32 = 40;
pub const FUSE_NOTIFY_REPLY: u32 = 41;
pub const FUSE_BATCH_FORGET: u32 = 42;
pub const FUSE_FALLOCATE: u32 = 43;

/// Notification codes, carried in the `error` field of a notification frame.
pub const FUSE_NOTIFY_POLL: i32 = 1;
pub const FUSE_NOTIFY_INVAL_INODE: i32 = 2;
pub const FUSE_NOTIFY_INVAL_ENTRY: i32 = 3;
pub const FUSE_NOTIFY_STORE: i32 = 4;
pub const FUSE_NOTIFY_RETRIEVE: i32 = 5;
pub const FUSE_NOTIFY_DELETE: i32 = 6;

pub const FUSE_ASYNC_READ: u32 = 0x1;
pub const FUSE_POSIX_LOCKS: u32 = 0x2;
pub const FUSE_ATOMIC_O_TRUNC: u32 = 0x8;
pub const FUSE_EXPORT_SUPPORT: u32 = 0x10;
pub const FUSE_BIG_WRITES: u32 = 0x20;
pub const FUSE_DONT_MASK: u32 = 0x40;
pub const FUSE_SPLICE_WRITE: u32 = 0x80;
pub const FUSE_SPLICE_MOVE: u32 = 0x100;
pub const FUSE_SPLICE_READ: u32 = 0x200;
pub const FUSE_FLOCK_LOCKS: u32 = 0x400;
pub const FUSE_HAS_IOCTL_DIR: u32 = 0x800;
pub const FUSE_AUTO_INVAL_DATA: u32 = 0x1000;
pub const FUSE_DO_READDIRPLUS: u32 = 0x2000;
pub const FUSE_READDIRPLUS_AUTO: u32 = 0x4000;
pub const FUSE_ASYNC_DIO: u32 = 0x8000;
pub const FUSE_WRITEBACK_CACHE: u32 = 0x10000;
pub const FUSE_NO_OPEN_SUPPORT: u32 = 0x20000;
pub const FUSE_PARALLEL_DIROPS: u32 = 0x40000;
pub const FUSE_HANDLE_KILLPRIV: u32 = 0x80000;
pub const FUSE_POSIX_ACL: u32 = 0x100000;
pub const FUSE_ABORT_ERROR: u32 = 0x200000;
pub const FUSE_MAX_PAGES: u32 = 0x400000;
pub const FUSE_CACHE_SYMLINKS: u32 = 0x800000;
pub const FUSE_NO_OPENDIR_SUPPORT: u32 = 0x1000000;
pub const FUSE_EXPLICIT_INVAL_DATA: u32 = 0x2000000;

/// Every capability flag that this library knows how to negotiate.
pub const SUPPORTED_CAP_FLAGS: u32 = 0x3fffffb;

/// Size in bytes of [`InHeader`] on the wire.
pub const IN_HEADER_SIZE: usize = 40;

/// Header that precedes every request frame from the kernel.
#[derive(Clone, Copy, Debug, PartialEq, Eq, Structural)]
pub struct InHeader {
    pub len: u32,
    pub opcode: u32,
    pub unique: u64,
    pub nodeid: u64,
    pub uid: u32,
    pub gid: u32,
    pub pid: u32,
    pub padding: u32,
}

impl InHeader {
    /// The bytes of this structure on the wire, little-endian and without gaps.
    pub open spec fn spec_bytes(self) -> Seq<u8> {
        le32(self.len)
            + le32(self.opcode)
            + le64(self.unique)
            + le64(self.nodeid)
            + le32(self.uid)
            + le32(self.gid)
            + le32(self.pid)
            + le32(self.padding)
    }

    /// The structure whose wire bytes start `s`; `s` holds at least [`IN_HEADER_SIZE`] bytes.
    pub open spec fn spec_parse(s: Seq<u8>) -> Self {
        InHeader {
            len: dec32(s.subrange(0, 4)),
            opcode: dec32(s.subrange(4, 8)),
            unique: dec64(s.subrange(8, 16)),
            nodeid: dec64(s.subrange(16, 24)),
            uid: dec32(s.subrange(24, 28)),
            gid: dec32(s.subrange(28, 32)),
            pid: dec32(s.subrange(32, 36)),
            padding: dec32(s.subrange(36, 40)),
        }
    }

    /// Appends the wire bytes of this structure to `buf`.
    pub fn write_to(&self, buf: &mut Vec<u8>)
        ensures
            final(buf)@ == old(buf)@ + self.spec_bytes(),
    {
        let ghost start = buf@;
        push_u32(buf, self.len);
        push_u32(buf, self.opcode);
        push_u64(buf, self.unique);
        push_u64(buf, self.nodeid);
        push_u32(buf, self.uid);
        push_u32(buf, self.gid);
        push_u32(buf, self.pid);
        push_u32(buf, self.padding);
        assert(buf@ =~= start + self.spec_bytes());
    }

    /// The wire bytes of this structure.
    pub fn to_bytes(&self) -> (r: Vec<u8>)
        ensures
            r@ == self.spec_bytes(),
            r@.len() == IN_HEADER_SIZE,
    {
        let mut buf: Vec<u8> = Vec::with_capacity(IN_HEADER_SIZE);
        self.write_to(&mut buf);
        assert(buf@ =~= self.spec_bytes());
        buf
    }

    /// Reads the structure whose wire bytes start at `off` in `b`.
    pub fn parse_at(b: &[u8], off: usize) -> (r: Self)
        requires
            off + IN_HEADER_SIZE <= b@.len(),
        ensures
            r == Self::spec_parse(b@.subrange(off as int, off + IN_HEADER_SIZE)),
    {
        let n: usize = b.len();
        assert(off + IN_HEADER_SIZE <= n);
        let ghost s = b@.subrange(off as int, off + IN_HEADER_SIZE);
        assert(s.subrange(0, 4) =~= b@.subrange(off + 0, off + 4));
        assert(s.subrange(4, 8) =~= b@.subrange(off + 4, off + 8));
        assert(s.subrange(8, 16) =~= b@.subrange(off + 8, off + 16));
        assert(s.subrange(16, 24) =~= b@.subrange(off + 16, off + 24));
        assert(s.subrange(24, 28) =~= b@.subrange(off + 24, off + 28));
        assert(s.subrange(28, 32) =~= b@.subrange(off + 28, off + 32));
        assert(s.subrange(32, 36) =~= b@.subrange(off + 32, off + 36));
        assert(s.subrange(36, 40) =~= b@.subrange(off + 36, off + 40));
        InHeader {
            len: get_u32(b, off + 0),
            opcode: get_u32(b, off + 4),
            unique: get_u64(b, off + 8),
            nodeid: get_u64(b, off + 16),
            uid: get_u32(b, off + 24),
            gid: get_u32(b, off + 28),
            pid: get_u32(b, off + 32),
            padding: get_u32(b, off + 36),
        }
    }

    /// Parsing the wire bytes of a structure gives the structure back.
    pub proof fn lemma_round_trip(self)
        ensures
            self.spec_bytes().len() == IN_HEADER_SIZE,
            Self::spec_parse(self.spec_bytes()) == self,
    {
        let s = self.spec_bytes();
        lemma_le32_round_trip(self.len);
        lemma_le32_round_trip(self.opcode);
        lemma_le64_round_trip(self.unique);
        lemma_le64_round_trip(self.nodeid);
        lemma_le32_round_trip(self.uid);
        lemma_le32_round_trip(self.gid);
        lemma_le32_round_trip(self.pid);
        lemma_le32_round_trip(self.padding);
        assert(s.subrange(0, 4) =~= le32(self.len));
        assert(s.subrange(4, 8) =~= le32(self.opcode));
        assert(s.subrange(8, 16) =~= le64(self.unique));
        assert(s.subrange(16, 24) =~= le64(self.nodeid));
        assert(s.subrange(24, 28) =~= le32(self.uid));
        assert(s.subrange(28, 32) =~= le32(self.gid));
        assert(s.subrange(32, 36) =~= le32(self.pid));
        assert(s.subrange(36, 40) =~= le32(self.padding));
    }
}

/// Size in bytes of [`OutHeader`] on the wire.
pub const OUT_HEADER_SIZE: usize = 16;

/// Header that precedes every reply and notification frame.
#[derive(Clone, Copy, Debug, PartialEq, Eq, Structural)]
pub struct OutHeader {
    pub len: u32,
    pub error: i32,
    pub unique: u64,
}

impl OutHeader {
    /// The bytes of this structure on the wire, little-endian and without gaps.
    pub open spec fn spec_bytes(self) -> Seq<u8> {
        le32(self.len)
            + le32(self.error as u32)
            + le64(self.unique)
    }

    /// The structure whose wire bytes start `s`; `s` holds at least [`OUT_HEADER_SIZE`] bytes.
    pub open spec fn spec_parse(s: Seq<u8>) -> Self {
        OutHeader {
            len: dec32(s.subrange(0, 4)),
            error: dec32(s.subrange(4, 8)) as i32,
            unique: dec64(s.subrange(8, 16)),
        }
    }

    /// Appends the wire bytes of this structure to `buf`.
    pub fn write_to(&self, buf: &mut Vec<u8>)
        ensures
            final(buf)@ == old(buf)@ + self.spec_bytes(),
    {
        let ghost start = buf@;
        push_u32(buf, self.len);
        push_u32(buf, self.error as u32);
        push_u64(buf, self.unique);
        assert(buf@ =~= start + self.spec_bytes());
    }

    /// The wire bytes of this structure.
    pub fn to_bytes(&self) -> (r: Vec<u8>)
        ensures
            r@ == self.spec_bytes(),
            r@.len() == OUT_HEADER_SIZE,
    {
        let mut buf: Vec<u8> = Vec::with_capacity(OUT_HEADER_SIZE);
        self.write_to(&mut buf);
        assert(buf@ =~= self.spec_bytes());
        buf
    }

    /// Reads the structure whose wire bytes start at `off` in `b`.
    pub fn parse_at(b: &[u8], off: usize) -> (r: Self)
        requires
            off + OUT_HEADER_SIZE <= b@.len(),
        ensures
            r == Self::spec_parse(b@.subrange(off as int, off + OUT_HEADER_SIZE)),
    {
        let n: usize = b.len();
        assert(off + OUT_HEADER_SIZE <= n);
        let ghost s = b@.subrange(off as int, off + OUT_HEADER_SIZE);
        assert(s.subrange(0, 4) =~= b@.subrange(off + 0, off + 4));
        assert(s.subrange(4, 8) =~= b@.subrange(off + 4, off + 8));
        assert(s.subrange(8, 16) =~= b@.subrange(off + 8, off + 16));
        OutHeader {
            len: get_u32(b, off + 0),
            error: get_u32(b, off + 4) as i32,
            unique: get_u64(b, off + 8),
        }
    }

    /// Parsing the wire bytes of a structure gives the structure back.
    pub proof fn lemma_round_trip(self)
        ensures
            self.spec_bytes().len() == OUT_HEADER_SIZE,
            Self::spec_parse(self.spec_bytes()) == self,
    {
        let s = self.spec_bytes();
        lemma_le32_round_trip(self.len);
        lemma_le32_round_trip(self.error as u32); lemma_i32_cast_round_trip(self.error);
        lemma_le64_round_trip(self.unique);
        assert(s.subrange(0, 4) =~= le32(self.len));
        assert(s.subrange(4, 8) =~= le32(self.error as u32));
        assert(s.subrange(8, 16) =~= le64(self.unique));
    }
}

/// Size in bytes of [`InitIn`] on the wire.
pub const INIT_IN_SIZE: usize = 16;

/// Body of the kernel's `INIT` request.
#[derive(Clone, Copy, Debug, PartialEq, Eq, Structural)]
pub struct InitIn {
    pub major: u32,
    pub minor: u32,
    pub max_readahead: u32,
    pub flags: u32,
}

impl InitIn {
    /// The bytes of this structure on the wire, little-endian and without gaps.
    pub open spec fn spec_bytes(self) -> Seq<u8> {
        le32(self.major)
            + le32(self.minor)
            + le32(self.max_readahead)
            + le32(self.flags)
    }

    /// The structure whose wire bytes start `s`; `s` holds at least [`INIT_IN_SIZE`] bytes.
    pub open spec fn spec_parse(s: Seq<u8>) -> Self {
        InitIn {
            major: dec32(s.subrange(0, 4)),
            minor: dec32(s.subrange(4, 8)),
            max_readahead: dec32(s.subrange(8, 12)),
            flags: dec32(s.subrange(12, 16)),
        }
    }

    /// Appends the wire bytes of this structure to `buf`.
    pub fn write_to(&self, buf: &mut Vec<u8>)
        ensures
            final(buf)@ == old(buf)@ + self.spec_bytes(),
    {
        let ghost start = buf@;
        push_u32(buf, self.major);
        push_u32(buf, self.minor);
        push_u32(buf, self.max_readahead);
        push_u32(buf, self.flags);
        assert(buf@ =~= start + self.spec_bytes());
    }

    /// The wire bytes of this structure.
    pub fn to_bytes(&self) -> (r: Vec<u8>)
        ensures
            r@ == self.spec_bytes(),
            r@.len() == INIT_IN_SIZE,
    {
        let mut buf: Vec<u8> = Vec::with_capacity(INIT_IN_SIZE);
        self.write_to(&mut buf);
        assert(buf@ =~= self.spec_bytes());
        buf
    }

    /// Reads the structure whose wire bytes start at `off` in `b`.
    pub fn parse_at(b: &[u8], off: usize) -> (r: Self)
        requires
            off + INIT_IN_SIZE <= b@.len(),
        ensures
            r == Self::spec_parse(b@.subrange(off as int, off + INIT_IN_SIZE)),
    {
        let n: usize = b.len();
        assert(off + INIT_IN_SIZE <= n);
        let ghost s = b@.subrange(off as int, off + INIT_IN_SIZE);
        assert(s.subrange(0, 4) =~= b@.subrange(off + 0, off + 4));
        assert(s.subrange(4, 8) =~= b@.subrange(off + 4, off + 8));
        assert(s.subrange(8, 12) =~= b@.subrange(off + 8, off + 12));
        assert(s.subrange(12, 16) =~= b@.subrange(off + 12, off + 16));
        InitIn {
            major: get_u32(b, off + 0),
            minor: get_u32(b, off + 4),
            max_readahead: get_u32(b, off + 8),
            flags: get_u32(b, off + 12),
        }
    }

    /// Parsing the wire bytes of a structure gives the structure back.
    pub proof fn lemma_round_trip(self)
        ensures
            self.spec_bytes().len() == INIT_IN_SIZE,
            Self::spec_parse(self.spec_bytes()) == self,
    {
        let s = self.spec_bytes();
        lemma_le32_round_trip(self.major);
        lemma_le32_round_trip(self.minor);
        lemma_le32_round_trip(self.max_readahead);
        lemma_le32_round_trip(self.flags);
        assert(s.subrange(0, 4) =~= le32(self.major));
        assert(s.subrange(4, 8) =~= le32(self.minor));
        assert(s.subrange(8, 12) =~= le32(self.max_readahead));
        assert(s.subrange(12, 16) =~= le32(self.flags));
    }
}

/// Size in bytes of [`FuseInitOut`] on the wire.
pub const FUSE_INIT_OUT_SIZE: usize = 64;

/// Body of the reply to `INIT`.
#[derive(Clone, Copy, Debug, PartialEq, Eq, Structural)]
pub struct FuseInitOut {
    pub major: u32,
    pub minor: u32,
    pub max_readahead: u32,
    pub flags: u32,
    pub max_background: u16,
    pub congestion_threshold: u16,
    pub max_write: u32,
    pub time_gran: u32,
    pub max_pages: u16,
    pub padding: u16,
}

impl FuseInitOut {
    /// The bytes of this structure on the wire, little-endian and without gaps.
    pub open spec fn spec_bytes(self) -> Seq<u8> {
        le32(self.major)
            + le32(self.minor)
            + le32(self.max_readahead)
            + le32(self.flags)
            + le16(self.max_background)
            + le16(self.congestion_threshold)
            + le32(self.max_write)
            + le32(self.time_gran)
            + le16(self.max_pages)
            + le16(self.padding)
            + Seq::new(32, |i: int| 0u8)
    }

    /// The structure whose wire bytes start `s`; `s` holds at least [`FUSE_INIT_OUT_SIZE`] bytes.
    pub open spec fn spec_parse(s: Seq<u8>) -> Self {
        FuseInitOut {
            major: dec32(s.subrange(0, 4)),
            minor: dec32(s.subrange(4, 8)),
            max_readahead: dec32(s.subrange(8, 12)),
            flags: dec32(s.subrange(12, 16)),
            max_background: dec16(s.subrange(16, 18)),
            congestion_threshold: dec16(s.subrange(18, 20)),
            max_write: dec32(s.subrange(20, 24)),
            time_gran: dec32(s.subrange(24, 28)),
            max_pages: dec16(s.subrange(28, 30)),
            padding: dec16(s.subrange(30, 32)),
        }
    }

    /// Appends the wire bytes of this structure to `buf`.
    pub fn write_to(&self, buf: &mut Vec<u8>)
        ensures
            final(buf)@ == old(buf)@ + self.spec_bytes(),
    {
        let ghost start = buf@;
        push_u32(buf, self.major);
        push_u32(buf, self.minor);
        push_u32(buf, self.max_readahead);
        push_u32(buf, self.flags);
        push_u16(buf, self.max_background);
        push_u16(buf, self.congestion_threshold);
        push_u32(buf, self.max_write);
        push_u32(buf, self.time_gran);
        push_u16(buf, self.max_pages);
        push_u16(buf, self.padding);
        push_zeros(buf, 32);
        assert(buf@ =~= start + self.spec_bytes());
    }

    /// The wire bytes of this structure.
    pub fn to_bytes(&self) -> (r: Vec<u8>)
        ensures
            r@ == self.spec_bytes(),
            r@.len() == FUSE_INIT_OUT_SIZE,
    {
        let mut buf: Vec<u8> = Vec::with_capacity(FUSE_INIT_OUT_SIZE);
        self.write_to(&mut buf);
        assert(buf@ =~= self.spec_bytes());
        buf
    }

    /// Reads the structure whose wire bytes start at `off` in `b`.
    pub fn parse_at(b: &[u8], off: usize) -> (r: Self)
        requires
            off + FUSE_INIT_OUT_SIZE <= b@.len(),
        ensures
            r == Self::spec_parse(b@.subrange(off as int, off + FUSE_INIT_OUT_SIZE)),
    {
        let n: usize = b.len();
        assert(off + FUSE_INIT_OUT_SIZE <= n);
        let ghost s = b@.subrange(off as int, off + FUSE_INIT_OUT_SIZE);
        assert(s.subrange(0, 4) =~= b@.subrange(off + 0, off + 4));
        assert(s.subrange(4, 8) =~= b@.subrange(off + 4, off + 8));
        assert(s.subrange(8, 12) =~= b@.subrange(off + 8, off + 12));
        assert(s.subrange(12, 16) =~= b@.subrange(off + 12, off + 16));
        assert(s.subrange(16, 18) =~= b@.subrange(off + 16, off + 18));
        assert(s.subrange(18, 20) =~= b@.subrange(off + 18, off + 20));
        assert(s.subrange(20, 24) =~= b@.subrange(off + 20, off + 24));
        assert(s.subrange(24, 28) =~= b@.subrange(off + 24, off + 28));
        assert(s.subrange(28, 30) =~= b@.subrange(off + 28, off + 30));
        assert(s.subrange(30, 32) =~= b@.subrange(off + 30, off + 32));
        FuseInitOut {
            major: get_u32(b, off + 0),
            minor: get_u32(b, off + 4),
            max_readahead: get_u32(b, off + 8),
            flags: get_u32(b, off + 12),
            max_background: get_u16(b, off + 16),
            congestion_threshold: get_u16(b, off + 18),
            max_write: get_u32(b, off + 20),
            time_gran: get_u32(b, off + 24),
            max_pages: get_u16(b, off + 28),
            padding: get_u16(b, off + 30),
        }
    }

    /// Parsing the wire bytes of a structure gives the structure back.
    pub proof fn lemma_round_trip(self)
        ensures
            self.spec_bytes().len() == FUSE_INIT_OUT_SIZE,
            Self::spec_parse(self.spec_bytes()) == self,
    {
        let s = self.spec_bytes();
        lemma_le32_round_trip(self.major);
        lemma_le32_round_trip(self.minor);
        lemma_le32_round_trip(self.max_readahead);
        lemma_le32_round_trip(self.flags);
        lemma_le16_round_trip(self.max_background);
        lemma_le16_round_trip(self.congestion_threshold);
        lemma_le32_round_trip(self.max_write);
        lemma_le32_round_trip(self.time_gran);
        lemma_le16_round_trip(self.max_pages);
        lemma_le16_round_trip(self.padding);
        assert(s.subrange(0, 4) =~= le32(self.major));
        assert(s.subrange(4, 8) =~= le32(self.minor));
        assert(s.subrange(8, 12) =~= le32(self.max_readahead));
        assert(s.subrange(12, 16) =~= le32(self.flags));
        assert(s.subrange(16, 18) =~= le16(self.max_background));
        assert(s.subrange(18, 20) =~= le16(self.congestion_threshold));
        assert(s.subrange(20, 24) =~= le32(self.max_write));
        assert(s.subrange(24, 28) =~= le32(self.time_gran));
        assert(s.subrange(28, 30) =~= le16(self.max_pages));
        assert(s.subrange(30, 32) =~= le16(self.padding));
    }
}

/// Size in bytes of [`FuseAttr`] on the wire.
pub const FUSE_ATTR_SIZE: usize = 88;

/// File attributes as the kernel expects them.
#[derive(Clone, Copy, Debug, PartialEq, Eq, Structural)]
pub struct FuseAttr {
    pub ino: u64,
    pub size: u64,
    pub blocks: u64,
    pub atime: u64,
    pub mtime: u64,
    pub ctime: u64,
    pub atimensec: u32,
    pub mtimensec: u32,
    pub ctimensec: u32,
    pub mode: u32,
    pub nlink: u32,
    pub uid: u32,
    pub gid: u32,
    pub rdev: u32,
    pub blksize: u32,
    pub padding: u32,
}

impl FuseAttr {
    /// The bytes of this structure on the wire, little-endian and without gaps.
    pub open spec fn spec_bytes(self) -> Seq<u8> {
        le64(self.ino)
            + le64(self.size)
            + le64(self.blocks)
            + le64(self.atime)
            + le64(self.mtime)
            + le64(self.ctime)
            + le32(self.atimensec)
            + le32(self.mtimensec)
            + le32(self.ctimensec)
            + le32(self.mode)
            + le32(self.nlink)
            + le32(self.uid)
            + le32(self.gid)
            + le32(self.rdev)
            + le32(self.blksize)
            + le32(self.padding)
    }

    /// The structure whose wire bytes start `s`; `s` holds at least [`FUSE_ATTR_SIZE`] bytes.
    pub open spec fn spec_parse(s: Seq<u8>) -> Self {
        FuseAttr {
            ino: dec64(s.subrange(0, 8)),
            size: dec64(s.subrange(8, 16)),
            blocks: dec64(s.subrange(16, 24)),
            atime: dec64(s.subrange(24, 32)),
            mtime: dec64(s.subrange(32, 40)),
            ctime: dec64(s.subrange(40, 48)),
            atimensec: dec32(s.subrange(48, 52)),
            mtimensec: dec32(s.subrange(52, 56)),
            ctimensec: dec32(s.subrange(56, 60)),
            mode: dec32(s.subrange(60, 64)),
            nlink: dec32(s.subrange(64, 68)),
            uid: dec32(s.subrange(68, 72)),
            gid: dec32(s.subrange(72, 76)),
            rdev: dec32(s.subrange(76, 80)),
            blksize: dec32(s.subrange(80, 84)),
            padding: dec32(s.subrange(84, 88)),
        }
    }

    /// Appends the wire bytes of this structure to `buf`.
    pub fn write_to(&self, buf: &mut Vec<u8>)
        ensures
            final(buf)@ == old(buf)@ + self.spec_bytes(),
    {
        let ghost start = buf@;
        push_u64(buf, self.ino);
        push_u64(buf, self.size);
        push_u64(buf, self.blocks);
        push_u64(buf, self.atime);
        push_u64(buf, self.mtime);
        push_u64(buf, self.ctime);
        push_u32(buf, self.atimensec);
        push_u32(buf, self.mtimensec);
        push_u32(buf, self.ctimensec);
        push_u32(buf, self.mode);
        push_u32(buf, self.nlink);
        push_u32(buf, self.uid);
        push_u32(buf, self.gid);
        push_u32(buf, self.rdev);
        push_u32(buf, self.blksize);
        push_u32(buf, self.padding);
        assert(buf@ =~= start + self.spec_bytes());
    }

    /// The wire bytes of this structure.
    pub fn to_bytes(&self) -> (r: Vec<u8>)
        ensures
            r@ == self.spec_bytes(),
            r@.len() == FUSE_ATTR_SIZE,
    {
        let mut buf: Vec<u8> = Vec::with_capacity(FUSE_ATTR_SIZE);
        self.write_to(&mut buf);
        assert(buf@ =~= self.spec_bytes());
        buf
    }

    /// Reads the structure whose wire bytes start at `off` in `b`.
    pub fn parse_at(b: &[u8], off: usize) -> (r: Self)
        requires
            off + FUSE_ATTR_SIZE <= b@.len(),
        ensures
            r == Self::spec_parse(b@.subrange(off as int, off + FUSE_ATTR_SIZE)),
    {
        let n: usize = b.len();
        assert(off + FUSE_ATTR_SIZE <= n);
        let ghost s = b@.subrange(off as int, off + FUSE_ATTR_SIZE);
        assert(s.subrange(0, 8) =~= b@.subrange(off + 0, off + 8));
        assert(s.subrange(8, 16) =~= b@.subrange(off + 8, off + 16));
        assert(s.subrange(16, 24) =~= b@.subrange(off + 16, off + 24));
        assert(s.subrange(24, 32) =~= b@.subrange(off + 24, off + 32));
        assert(s.subrange(32, 40) =~= b@.subrange(off + 32, off + 40));
        assert(s.subrange(40, 48) =~= b@.subrange(off + 40, off + 48));
        assert(s.subrange(48, 52) =~= b@.subrange(off + 48, off + 52));
        assert(s.subrange(52, 56) =~= b@.subrange(off + 52, off + 56));
        assert(s.subrange(56, 60) =~= b@.subrange(off + 56, off + 60));
        assert(s.subrange(60, 64) =~= b@.subrange(off + 60, off + 64));
        assert(s.subrange(64, 68) =~= b@.subrange(off + 64, off + 68));
        assert(s.subrange(68, 72) =~= b@.subrange(off + 68, off + 72));
        assert(s.subrange(72, 76) =~= b@.subrange(off + 72, off + 76));
        assert(s.subrange(76, 80) =~= b@.subrange(off + 76, off + 80));
        assert(s.subrange(80, 84) =~= b@.subrange(off + 80, off + 84));
        assert(s.subrange(84, 88) =~= b@.subrange(off + 84, off + 88));
        FuseAttr {
            ino: get_u64(b, off + 0),
            size: get_u64(b, off + 8),
            blocks: get_u64(b, off + 16),
            atime: get_u64(b, off + 24),
            mtime: get_u64(b, off + 32),
            ctime: get_u64(b, off + 40),
            atimensec: get_u32(b, off + 48),
            mtimensec: get_u32(b, off + 52),
            ctimensec: get_u32(b, off + 56),
            mode: get_u32(b, off + 60),
            nlink: get_u32(b, off + 64),
            uid: get_u32(b, off + 68),
            gid: get_u32(b, off + 72),
            rdev: get_u32(b, off + 76),
            blksize: get_u32(b, off + 80),
            padding: get_u32(b, off + 84),
        }
    }

    /// Parsing the wire bytes of a structure gives the structure back.
    pub proof fn lemma_round_trip(self)
        ensures
            self.spec_bytes().len() == FUSE_ATTR_SIZE,
            Self::spec_parse(self.spec_bytes()) == self,
    {
        let s = self.spec_bytes();
        lemma_le64_round_trip(self.ino);
        lemma_le64_round_trip(self.size);
        lemma_le64_round_trip(self.blocks);
        lemma_le64_round_trip(self.atime);
        lemma_le64_round_trip(self.mtime);
        lemma_le64_round_trip(self.ctime);
        lemma_le32_round_trip(self.atimensec);
        lemma_le32_round_trip(self.mtimensec);
        lemma_le32_round_trip(self.ctimensec);
        lemma_le32_round_trip(self.mode);
        lemma_le32_round_trip(self.nlink);
        lemma_le32_round_trip(self.uid);
        lemma_le32_round_trip(self.gid);
        lemma_le32_round_trip(self.rdev);
        lemma_le32_round_trip(self.blksize);
        lemma_le32_round_trip(self.padding);
        assert(s.subrange(0, 8) =~= le64(self.ino));
        assert(s.subrange(8, 16) =~= le64(self.size));
        assert(s.subrange(16, 24) =~= le64(self.blocks));
        assert(s.subrange(24, 32) =~= le64(self.atime));
        assert(s.subrange(32, 40) =~= le64(self.mtime));
        assert(s.subrange(40, 48) =~= le64(self.ctime));
        assert(s.subrange(48, 52) =~= le32(self.atimensec));
        assert(s.subrange(52, 56) =~= le32(self.mtimensec));
        assert(s.subrange(56, 60) =~= le32(self.ctimensec));
        assert(s.subrange(60, 64) =~= le32(self.mode));
        assert(s.subrange(64, 68) =~= le32(self.nlink));
        assert(s.subrange(68, 72) =~= le32(self.uid));
        assert(s.subrange(72, 76) =~= le32(self.gid));
        assert(s.subrange(76, 80) =~= le32(self.rdev));
        assert(s.subrange(80, 84) =~= le32(self.blksize));
        assert(s.subrange(84, 88) =~= le32(self.padding));
    }
}

/// Size in bytes of [`FuseAttrOut`] on the wire.
pub const FUSE_ATTR_OUT_SIZE: usize = 104;

/// Body of the reply to `GETATTR` and `SETATTR`.
#[derive(Clone, Copy, Debug, PartialEq, Eq, Structural)]
pub struct FuseAttrOut {
    pub attr_valid: u64,
    pub attr_valid_nsec: u32,
    pub dummy: u32,
    pub attr: FuseAttr,
}

impl FuseAttrOut {
    /// The bytes of this structure on the wire, little-endian and without gaps.
    pub open spec fn spec_bytes(self) -> Seq<u8> {
        le64(self.attr_valid)
            + le32(self.attr_valid_nsec)
            + le32(self.dummy)
            + self.attr.spec_bytes()
    }

    /// The structure whose wire bytes start `s`; `s` holds at least [`FUSE_ATTR_OUT_SIZE`] bytes.
    pub open spec fn spec_parse(s: Seq<u8>) -> Self {
        FuseAttrOut {
            attr_valid: dec64(s.subrange(0, 8)),
            attr_valid_nsec: dec32(s.subrange(8, 12)),
            dummy: dec32(s.subrange(12, 16)),
            attr: FuseAttr::spec_parse(s.subrange(16, 104)),
        }
    }

    /// Appends the wire bytes of this structure to `buf`.
    pub fn write_to(&self, buf: &mut Vec<u8>)
        ensures
            final(buf)@ == old(buf)@ + self.spec_bytes(),
    {
        let ghost start = buf@;
        push_u64(buf, self.attr_valid);
        push_u32(buf, self.attr_valid_nsec);
        push_u32(buf, self.dummy);
        self.attr.write_to(buf);
        assert(buf@ =~= start + self.spec_bytes());
    }

    /// The wire bytes of this structure.
    pub fn to_bytes(&self) -> (r: Vec<u8>)
        ensures
            r@ == self.spec_bytes(),
            r@.len() == FUSE_ATTR_OUT_SIZE,
    {
        let mut buf: Vec<u8> = Vec::with_capacity(FUSE_ATTR_OUT_SIZE);
        self.write_to(&mut buf);
        assert(buf@ =~= self.spec_bytes());
        buf
    }

    /// Reads the structure whose wire bytes start at `off` in `b`.
    pub fn parse_at(b: &[u8], off: usize) -> (r: Self)
        requires
            off + FUSE_ATTR_OUT_SIZE <= b@.len(),
        ensures
            r == Self::spec_parse(b@.subrange(off as int, off + FUSE_ATTR_OUT_SIZE)),
    {
        let n: usize = b.len();
        assert(off + FUSE_ATTR_OUT_SIZE <= n);
        let ghost s = b@.subrange(off as int, off + FUSE_ATTR_OUT_SIZE);
        assert(s.subrange(0, 8) =~= b@.subrange(off + 0, off + 8));
        assert(s.subrange(8, 12) =~= b@.subrange(off + 8, off + 12));
        assert(s.subrange(12, 16) =~= b@.subrange(off + 12, off + 16));
        assert(s.subrange(16, 104) =~= b@.subrange(off + 16, off + 104));
        FuseAttrOut {
            attr_valid: get_u64(b, off + 0),
            attr_valid_nsec: get_u32(b, off + 8),
            dummy: get_u32(b, off + 12),
            attr: FuseAttr::parse_at(b, off + 16),
        }
    }

    /// Parsing the wire bytes of a structure gives the structure back.
    pub proof fn lemma_round_trip(self)
        ensures
            self.spec_bytes().len() == FUSE_ATTR_OUT_SIZE,
            Self::spec_parse(self.spec_bytes()) == self,
    {
        let s = self.spec_bytes();
        lemma_le64_round_trip(self.attr_valid);
        lemma_le32_round_trip(self.attr_valid_nsec);
        lemma_le32_round_trip(self.dummy);
        self.attr.lemma_round_trip();
        assert(s.subrange(0, 8) =~= le64(self.attr_valid));
        assert(s.subrange(8, 12) =~= le32(self.attr_valid_nsec));
        assert(s.subrange(12, 16) =~= le32(self.dummy));
        assert(s.subrange(16, 104) =~= self.attr.spec_bytes());
    }
}

/// Size in bytes of [`FuseEntryOut`] on the wire.
pub const FUSE_ENTRY_OUT_SIZE: usize = 128;

/// Body of the reply to `LOOKUP` and the other requests that create an entry.
#[derive(Clone, Copy, Debug, PartialEq, Eq, Structural)]
pub struct FuseEntryOut {
    pub nodeid: u64,
    pub generation: u64,
    pub entry_valid: u64,
    pub attr_valid: u64,
    pub entry_valid_nsec: u32,
    pub attr_valid_nsec: u32,
    pub attr: FuseAttr,
}

impl FuseEntryOut {
    /// The bytes of this structure on the wire, little-endian and without gaps.
    pub open spec fn spec_bytes(self) -> Seq<u8> {
        le64(self.nodeid)
            + le64(self.generation)
            + le64(self.entry_valid)
            + le64(self.attr_valid)
            + le32(self.entry_valid_nsec)
            + le32(self.attr_valid_nsec)
            + self.attr.spec_bytes()
    }

    /// The structure whose wire bytes start `s`; `s` holds at least [`FUSE_ENTRY_OUT_SIZE`] bytes.
    pub open spec fn spec_parse(s: Seq<u8>) -> Self {
        FuseEntryOut {
            nodeid: dec64(s.subrange(0, 8)),
            generation: dec64(s.subrange(8, 16)),
            entry_valid: dec64(s.subrange(16, 24)),
            attr_valid: dec64(s.subrange(24, 32)),
            entry_valid_nsec: dec32(s.subrange(32, 36)),
            attr_valid_nsec: dec32(s.subrange(36, 40)),
            attr: FuseAttr::spec_parse(s.subrange(40, 128)),
        }
    }

    /// Appends the wire bytes of this structure to `buf`.
    pub fn write_to(&self, buf: &mut Vec<u8>)
        ensures
            final(buf)@ == old(buf)@ + self.spec_bytes(),
    {
        let ghost start = buf@;
        push_u64(buf, self.nodeid);
        push_u64(buf, self.generation);
        push_u64(buf, self.entry_valid);
        push_u64(buf, self.attr_valid);
        push_u32(buf, self.entry_valid_nsec);
        push_u32(buf, self.attr_valid_nsec);
        self.attr.write_to(buf);
        assert(buf@ =~= start + self.spec_bytes());
    }

    /// The wire bytes of this structure.
    pub fn to_bytes(&self) -> (r: Vec<u8>)
        ensures
            r@ == self.spec_bytes(),
            r@.len() == FUSE_ENTRY_OUT_SIZE,
    {
        let mut buf: Vec<u8> = Vec::with_capacity(FUSE_ENTRY_OUT_SIZE);
        self.write_to(&mut buf);
        assert(buf@ =~= self.spec_bytes());
        buf
    }

    /// Reads the structure whose wire bytes start at `off` in `b`.
    pub fn parse_at(b: &[u8], off: usize) -> (r: Self)
        requires
            off + FUSE_ENTRY_OUT_SIZE <= b@.len(),
        ensures
            r == Self::spec_parse(b@.subrange(off as int, off + FUSE_ENTRY_OUT_SIZE)),
    {
        let n: usize = b.len();
        assert(off + FUSE_ENTRY_OUT_SIZE <= n);
        let ghost s = b@.subrange(off as int, off + FUSE_ENTRY_OUT_SIZE);
        assert(s.subrange(0, 8) =~= b@.subrange(off + 0, off + 8));
        assert(s.subrange(8, 16) =~= b@.subrange(off + 8, off + 16));
        assert(s.subrange(16, 24) =~= b@.subrange(off + 16, off + 24));
        assert(s.subrange(24, 32) =~= b@.subrange(off + 24, off + 32));
        assert(s.subrange(32, 36) =~= b@.subrange(off + 32, off + 36));
        assert(s.subrange(36, 40) =~= b@.subrange(off + 36, off + 40));
        assert(s.subrange(40, 128) =~= b@.subrange(off + 40, off + 128));
        FuseEntryOut {
            nodeid: get_u64(b, off + 0),
            generation: get_u64(b, off + 8),
            entry_valid: get_u64(b, off + 16),
            attr_valid: get_u64(b, off + 24),
            entry_valid_nsec: get_u32(b, off + 32),
            attr_valid_nsec: get_u32(b, off + 36),
            attr: FuseAttr::parse_at(b, off + 40),
        }
    }

    /// Parsing the wire bytes of a structure gives the structure back.
    pub proof fn lemma_round_trip(self)
        ensures
            self.spec_bytes().len() == FUSE_ENTRY_OUT_SIZE,
            Self::spec_parse(self.spec_bytes()) == self,
    {
        let s = self.spec_bytes();
        lemma_le64_round_trip(self.nodeid);
        lemma_le64_round_trip(self.generation);
        lemma_le64_round_trip(self.entry_valid);
        lemma_le64_round_trip(self.attr_valid);
        lemma_le32_round_trip(self.entry_valid_nsec);
        lemma_le32_round_trip(self.attr_valid_nsec);
        self.attr.lemma_round_trip();
        assert(s.subrange(0, 8) =~= le64(self.nodeid));
        assert(s.subrange(8, 16) =~= le64(self.generation));
        assert(s.subrange(16, 24) =~= le64(self.entry_valid));
        assert(s.subrange(24, 32) =~= le64(self.attr_valid));
        assert(s.subrange(32, 36) =~= le32(self.entry_valid_nsec));
        assert(s.subrange(36, 40) =~= le32(self.attr_valid_nsec));
        assert(s.subrange(40, 128) =~= self.attr.spec_bytes());
    }
}

/// Size in bytes of [`FuseOpenOut`] on the wire.
pub const FUSE_OPEN_OUT_SIZE: usize = 16;

/// Body of the reply to `OPEN` and `OPENDIR`.
#[derive(Clone, Copy, Debug, PartialEq, Eq, Structural)]
pub struct FuseOpenOut {
    pub fh: u64,
    pub open_flags: u32,
    pub padding: u32,
}

impl FuseOpenOut {
    /// The bytes of this structure on the wire, little-endian and without gaps.
    pub open spec fn spec_bytes(self) -> Seq<u8> {
        le64(self.fh)
            + le32(self.open_flags)
            + le32(self.padding)
    }

    /// The structure whose wire bytes start `s`; `s` holds at least [`FUSE_OPEN_OUT_SIZE`] bytes.
    pub open spec fn spec_parse(s: Seq<u8>) -> Self {
        FuseOpenOut {
            fh: dec64(s.subrange(0, 8)),
            open_flags: dec32(s.subrange(8, 12)),
            padding: dec32(s.subrange(12, 16)),
        }
    }

    /// Appends the wire bytes of this structure to `buf`.
    pub fn write_to(&self, buf: &mut Vec<u8>)
        ensures
            final(buf)@ == old(buf)@ + self.spec_bytes(),
    {
        let ghost start = buf@;
        push_u64(buf, self.fh);
        push_u32(buf, self.open_flags);
        push_u32(buf, self.padding);
        assert(buf@ =~= start + self.spec_bytes());
    }

    /// The wire bytes of this structure.
    pub fn to_bytes(&self) -> (r: Vec<u8>)
        ensures
            r@ == self.spec_bytes(),
            r@.len() == FUSE_OPEN_OUT_SIZE,
    {
        let mut buf: Vec<u8> = Vec::with_capacity(FUSE_OPEN_OUT_SIZE);
        self.write_to(&mut buf);
        assert(buf@ =~= self.spec_bytes());
        buf
    }

    /// Reads the structure whose wire bytes start at `off` in `b`.
    pub fn parse_at(b: &[u8], off: usize) -> (r: Self)
        requires
            off + FUSE_OPEN_OUT_SIZE <= b@.len(),
        ensures
            r == Self::spec_parse(b@.subrange(off as int, off + FUSE_OPEN_OUT_SIZE)),
    {
        let n: usize = b.len();
        assert(off + FUSE_OPEN_OUT_SIZE <= n);
        let ghost s = b@.subrange(off as int, off + FUSE_OPEN_OUT_SIZE);
        assert(s.subrange(0, 8) =~= b@.subrange(off + 0, off + 8));
        assert(s.subrange(8, 12) =~= b@.subrange(off + 8, off + 12));
        assert(s.subrange(12, 16) =~= b@.subrange(off + 12, off + 16));
        FuseOpenOut {
            fh: get_u64(b, off + 0),
            open_flags: get_u32(b, off + 8),
            padding: get_u32(b, off + 12),
        }
    }

    /// Parsing the wire bytes of a structure gives the structure back.
    pub proof fn lemma_round_trip(self)
        ensures
            self.spec_bytes().len() == FUSE_OPEN_OUT_SIZE,
            Self::spec_parse(self.spec_bytes()) == self,
    {
        let s = self.spec_bytes();
        lemma_le64_round_trip(self.fh);
        lemma_le32_round_trip(self.open_flags);
        lemma_le32_round_trip(self.padding);
        assert(s.subrange(0, 8) =~= le64(self.fh));
        assert(s.subrange(8, 12) =~= le32(self.open_flags));
        assert(s.subrange(12, 16) =~= le32(self.padding));
    }
}

/// Size in bytes of [`ForgetIn`] on the wire.
pub const FORGET_IN_SIZE: usize = 8;

/// Body of a `FORGET` request.
#[derive(Clone, Copy, Debug, PartialEq, Eq, Structural)]
pub struct ForgetIn {
    pub nlookup: u64,
}

impl ForgetIn {
    /// The bytes of this structure on the wire, little-endian and without gaps.
    pub open spec fn spec_bytes(self) -> Seq<u8> {
        le64(self.nlookup)
    }

    /// The structure whose wire bytes start `s`; `s` holds at least [`FORGET_IN_SIZE`] bytes.
    pub open spec fn spec_parse(s: Seq<u8>) -> Self {
        ForgetIn {
            nlookup: dec64(s.subrange(0, 8)),
        }
    }

    /// Appends the wire bytes of this structure to `buf`.
    pub fn write_to(&self, buf: &mut Vec<u8>)
        ensures
            final(buf)@ == old(buf)@ + self.spec_bytes(),
    {
        let ghost start = buf@;
        push_u64(buf, self.nlookup);
        assert(buf@ =~= start + self.spec_bytes());
    }

    /// The wire bytes of this structure.
    pub fn to_bytes(&self) -> (r: Vec<u8>)
        ensures
            r@ == self.spec_bytes(),
            r@.len() == FORGET_IN_SIZE,
    {
        let mut buf: Vec<u8> = Vec::with_capacity(FORGET_IN_SIZE);
        self.write_to(&mut buf);
        assert(buf@ =~= self.spec_bytes());
        buf
    }

    /// Reads the structure whose wire bytes start at `off` in `b`.
    pub fn parse_at(b: &[u8], off: usize) -> (r: Self)
        requires
            off + FORGET_IN_SIZE <= b@.len(),
        ensures
            r == Self::spec_parse(b@.subrange(off as int, off + FORGET_IN_SIZE)),
    {
        let n: usize = b.len();
        assert(off + FORGET_IN_SIZE <= n);
        let ghost s = b@.subrange(off as int, off + FORGET_IN_SIZE);
        assert(s.subrange(0, 8) =~= b@.subrange(off + 0, off + 8));
        ForgetIn {
            nlookup: get_u64(b, off + 0),
        }
    }

    /// Parsing the wire bytes of a structure gives the structure back.
    pub proof fn lemma_round_trip(self)
        ensures
            self.spec_bytes().len() == FORGET_IN_SIZE,
            Self::spec_parse(self.spec_bytes()) == self,
    {
        let s = self.spec_bytes();
        lemma_le64_round_trip(self.nlookup);
        assert(s.subrange(0, 8) =~= le64(self.nlookup));
    }
}

/// Size in bytes of [`BatchForgetIn`] on the wire.
pub const BATCH_FORGET_IN_SIZE: usize = 8;

/// Head of a `BATCH_FORGET` request body; `count` entries follow it.
#[derive(Clone, Copy, Debug, PartialEq, Eq, Structural)]
pub struct BatchForgetIn {
    pub count: u32,
    pub dummy: u32,
}

impl BatchForgetIn {
    /// The bytes of this structure on the wire, little-endian and without gaps.
    pub open spec fn spec_bytes(self) -> Seq<u8> {
        le32(self.count)
            + le32(self.dummy)
    }

    /// The structure whose wire bytes start `s`; `s` holds at least [`BATCH_FORGET_IN_SIZE`] bytes.
    pub open spec fn spec_parse(s: Seq<u8>) -> Self {
        BatchForgetIn {
            count: dec32(s.subrange(0, 4)),
            dummy: dec32(s.subrange(4, 8)),
        }
    }

    /// Appends the wire bytes of this structure to `buf`.
    pub fn write_to(&self, buf: &mut Vec<u8>)
        ensures
            final(buf)@ == old(buf)@ + self.spec_bytes(),
    {
        let ghost start = buf@;
        push_u32(buf, self.count);
        push_u32(buf, self.dummy);
        assert(buf@ =~= start + self.spec_bytes());
    }

    /// The wire bytes of this structure.
    pub fn to_bytes(&self) -> (r: Vec<u8>)
        ensures
            r@ == self.spec_bytes(),
            r@.len() == BATCH_FORGET_IN_SIZE,
    {
        let mut buf: Vec<u8> = Vec::with_capacity(BATCH_FORGET_IN_SIZE);
        self.write_to(&mut buf);
        assert(buf@ =~= self.spec_bytes());
        buf
    }

    /// Reads the structure whose wire bytes start at `off` in `b`.
    pub fn parse_at(b: &[u8], off: usize) -> (r: Self)
        requires
            off + BATCH_FORGET_IN_SIZE <= b@.len(),
        ensures
            r == Self::spec_parse(b@.subrange(off as int, off + BATCH_FORGET_IN_SIZE)),
    {
        let n: usize = b.len();
        assert(off + BATCH_FORGET_IN_SIZE <= n);
        let ghost s = b@.subrange(off as int, off + BATCH_FORGET_IN_SIZE);
        assert(s.subrange(0, 4) =~= b@.subrange(off + 0, off + 4));
        assert(s.subrange(4, 8) =~= b@.subrange(off + 4, off + 8));
        BatchForgetIn {
            count: get_u32(b, off + 0),
            dummy: get_u32(b, off + 4),
        }
    }

    /// Parsing the wire bytes of a structure gives the structure back.
    pub proof fn lemma_round_trip(self)
        ensures
            self.spec_bytes().len() == BATCH_FORGET_IN_SIZE,
            Self::spec_parse(self.spec_bytes()) == self,
    {
        let s = self.spec_bytes();
        lemma_le32_round_trip(self.count);
        lemma_le32_round_trip(self.dummy);
        assert(s.subrange(0, 4) =~= le32(self.count));
        assert(s.subrange(4, 8) =~= le32(self.dummy));
    }
}

/// Size in bytes of [`ForgetOne`] on the wire.
pub const FORGET_ONE_SIZE: usize = 16;

/// One entry of a `BATCH_FORGET` request.
#[derive(Clone, Copy, Debug, PartialEq, Eq, Structural)]
pub struct ForgetOne {
    pub nodeid: u64,
    pub nlookup: u64,
}

impl ForgetOne {
    /// The bytes of this structure on the wire, little-endian and without gaps.
    pub open spec fn spec_bytes(self) -> Seq<u8> {
        le64(self.nodeid)
            + le64(self.nlookup)
    }

    /// The structure whose wire bytes start `s`; `s` holds at least [`FORGET_ONE_SIZE`] bytes.
    pub open spec fn spec_parse(s: Seq<u8>) -> Self {
        ForgetOne {
            nodeid: dec64(s.subrange(0, 8)),
            nlookup: dec64(s.subrange(8, 16)),
        }
    }

    /// Appends the wire bytes of this structure to `buf`.
    pub fn write_to(&self, buf: &mut Vec<u8>)
        ensures
            final(buf)@ == old(buf)@ + self.spec_bytes(),
    {
        let ghost start = buf@;
        push_u64(buf, self.nodeid);
        push_u64(buf, self.nlookup);
        assert(buf@ =~= start + self.spec_bytes());
    }

    /// The wire bytes of this structure.
    pub fn to_bytes(&self) -> (r: Vec<u8>)
        ensures
            r@ == self.spec_bytes(),
            r@.len() == FORGET_ONE_SIZE,
    {
        let mut buf: Vec<u8> = Vec::with_capacity(FORGET_ONE_SIZE);
        self.write_to(&mut buf);
        assert(buf@ =~= self.spec_bytes());
        buf
    }

    /// Reads the structure whose wire bytes start at `off` in `b`.
    pub fn parse_at(b: &[u8], off: usize) -> (r: Self)
        requires
            off + FORGET_ONE_SIZE <= b@.len(),
        ensures
            r == Self::spec_parse(b@.subrange(off as int, off + FORGET_ONE_SIZE)),
    {
        let n: usize = b.len();
        assert(off + FORGET_ONE_SIZE <= n);
        let ghost s = b@.subrange(off as int, off + FORGET_ONE_SIZE);
        assert(s.subrange(0, 8) =~= b@.subrange(off + 0, off + 8));
        assert(s.subrange(8, 16) =~= b@.subrange(off + 8, off + 16));
        ForgetOne {
            nodeid: get_u64(b, off + 0),
            nlookup: get_u64(b, off + 8),
        }
    }

    /// Parsing the wire bytes of a structure gives the structure back.
    pub proof fn lemma_round_trip(self)
        ensures
            self.spec_bytes().len() == FORGET_ONE_SIZE,
            Self::spec_parse(self.spec_bytes()) == self,
    {
        let s = self.spec_bytes();
        lemma_le64_round_trip(self.nodeid);
        lemma_le64_round_trip(self.nlookup);
        assert(s.subrange(0, 8) =~= le64(self.nodeid));
        assert(s.subrange(8, 16) =~= le64(self.nlookup));
    }
}

/// Size in bytes of [`InterruptIn`] on the wire.
pub const INTERRUPT_IN_SIZE: usize = 8;

/// Body of an `INTERRUPT` request.
#[derive(Clone, Copy, Debug, PartialEq, Eq, Structural)]
pub struct InterruptIn {
    pub unique: u64,
}

impl InterruptIn {
    /// The bytes of this structure on the wire, little-endian and without gaps.
    pub open spec fn spec_bytes(self) -> Seq<u8> {
        le64(self.unique)
    }

    /// The structure whose wire bytes start `s`; `s` holds at least [`INTERRUPT_IN_SIZE`] bytes.
    pub open spec fn spec_parse(s: Seq<u8>) -> Self {
        InterruptIn {
            unique: dec64(s.subrange(0, 8)),
        }
    }

    /// Appends the wire bytes of this structure to `buf`.
    pub fn write_to(&self, buf: &mut Vec<u8>)
        ensures
            final(buf)@ == old(buf)@ + self.spec_bytes(),
    {
        let ghost start = buf@;
        push_u64(buf, self.unique);
        assert(buf@ =~= start + self.spec_bytes());
    }

    /// The wire bytes of this structure.
    pub fn to_bytes(&self) -> (r: Vec<u8>)
        ensures
            r@ == self.spec_bytes(),
            r@.len() == INTERRUPT_IN_SIZE,
    {
        let mut buf: Vec<u8> = Vec::with_capacity(INTERRUPT_IN_SIZE);
        self.write_to(&mut buf);
        assert(buf@ =~= self.spec_bytes());
        buf
    }

    /// Reads the structure whose wire bytes start at `off` in `b`.
    pub fn parse_at(b: &[u8], off: usize) -> (r: Self)
        requires
            off + INTERRUPT_IN_SIZE <= b@.len(),
        ensures
            r == Self::spec_parse(b@.subrange(off as int, off + INTERRUPT_IN_SIZE)),
    {
        let n: usize = b.len();
        assert(off + INTERRUPT_IN_SIZE <= n);
        let ghost s = b@.subrange(off as int, off + INTERRUPT_IN_SIZE);
        assert(s.subrange(0, 8) =~= b@.subrange(off + 0, off + 8));
        InterruptIn {
            unique: get_u64(b, off + 0),
        }
    }

    /// Parsing the wire bytes of a structure gives the structure back.
    pub proof fn lemma_round_trip(self)
        ensures
            self.spec_bytes().len() == INTERRUPT_IN_SIZE,
            Self::spec_parse(self.spec_bytes()) == self,
    {
        let s = self.spec_bytes();
        lemma_le64_round_trip(self.unique);
        assert(s.subrange(0, 8) =~= le64(self.unique));
    }
}

/// Size in bytes of [`NotifyRetrieveIn`] on the wire.
pub const NOTIFY_RETRIEVE_IN_SIZE: usize = 40;

/// Head of the kernel's `NOTIFY_REPLY`; the retrieved bytes follow it.
#[derive(Clone, Copy, Debug, PartialEq, Eq, Structural)]
pub struct NotifyRetrieveIn {
    pub dummy1: u64,
    pub offset: u64,
    pub size: u32,
    pub dummy2: u32,
    pub dummy3: u64,
    pub dummy4: u64,
}

impl NotifyRetrieveIn {
    /// The bytes of this structure on the wire, little-endian and without gaps.
    pub open spec fn spec_bytes(self) -> Seq<u8> {
        le64(self.dummy1)
            + le64(self.offset)
            + le32(self.size)
            + le32(self.dummy2)
            + le64(self.dummy3)
            + le64(self.dummy4)
    }

    /// The structure whose wire bytes start `s`; `s` holds at least [`NOTIFY_RETRIEVE_IN_SIZE`] bytes.
    pub open spec fn spec_parse(s: Seq<u8>) -> Self {
        NotifyRetrieveIn {
            dummy1: dec64(s.subrange(0, 8)),
            offset: dec64(s.subrange(8, 16)),
            size: dec32(s.subrange(16, 20)),
            dummy2: dec32(s.subrange(20, 24)),
            dummy3: dec64(s.subrange(24, 32)),
            dummy4: dec64(s.subrange(32, 40)),
        }
    }

    /// Appends the wire bytes of this structure to `buf`.
    pub fn write_to(&self, buf: &mut Vec<u8>)
        ensures
            final(buf)@ == old(buf)@ + self.spec_bytes(),
    {
        let ghost start = buf@;
        push_u64(buf, self.dummy1);
        push_u64(buf, self.offset);
        push_u32(buf, self.size);
        push_u32(buf, self.dummy2);
        push_u64(buf, self.dummy3);
        push_u64(buf, self.dummy4);
        assert(buf@ =~= start + self.spec_bytes());
    }

    /// The wire bytes of this structure.
    pub fn to_bytes(&self) -> (r: Vec<u8>)
        ensures
            r@ == self.spec_bytes(),
            r@.len() == NOTIFY_RETRIEVE_IN_SIZE,
    {
        let mut buf: Vec<u8> = Vec::with_capacity(NOTIFY_RETRIEVE_IN_SIZE);
        self.write_to(&mut buf);
        assert(buf@ =~= self.spec_bytes());
        buf
    }

    /// Reads the structure whose wire bytes start at `off` in `b`.
    pub fn parse_at(b: &[u8], off: usize) -> (r: Self)
        requires
            off + NOTIFY_RETRIEVE_IN_SIZE <= b@.len(),
        ensures
            r == Self::spec_parse(b@.subrange(off as int, off + NOTIFY_RETRIEVE_IN_SIZE)),
    {
        let n: usize = b.len();
        assert(off + NOTIFY_RETRIEVE_IN_SIZE <= n);
        let ghost s = b@.subrange(off as int, off + NOTIFY_RETRIEVE_IN_SIZE);
        assert(s.subrange(0, 8) =~= b@.subrange(off + 0, off + 8));
        assert(s.subrange(8, 16) =~= b@.subrange(off + 8, off + 16));
        assert(s.subrange(16, 20) =~= b@.subrange(off + 16, off + 20));
        assert(s.subrange(20, 24) =~= b@.subrange(off + 20, off + 24));
        assert(s.subrange(24, 32) =~= b@.subrange(off + 24, off + 32));
        assert(s.subrange(32, 40) =~= b@.subrange(off + 32, off + 40));
        NotifyRetrieveIn {
            dummy1: get_u64(b, off + 0),
            offset: get_u64(b, off + 8),
            size: get_u32(b, off + 16),
            dummy2: get_u32(b, off + 20),
            dummy3: get_u64(b, off + 24),
            dummy4: get_u64(b, off + 32),
        }
    }

    /// Parsing the wire bytes of a structure gives the structure back.
    pub proof fn lemma_round_trip(self)
        ensures
            self.spec_bytes().len() == NOTIFY_RETRIEVE_IN_SIZE,
            Self::spec_parse(self.spec_bytes()) == self,
    {
        let s = self.spec_bytes();
        lemma_le64_round_trip(self.dummy1);
        lemma_le64_round_trip(self.offset);
        lemma_le32_round_trip(self.size);
        lemma_le32_round_trip(self.dummy2);
        lemma_le64_round_trip(self.dummy3);
        lemma_le64_round_trip(self.dummy4);
        assert(s.subrange(0, 8) =~= le64(self.dummy1));
        assert(s.subrange(8, 16) =~= le64(self.offset));
        assert(s.subrange(16, 20) =~= le32(self.size));
        assert(s.subrange(20, 24) =~= le32(self.dummy2));
        assert(s.subrange(24, 32) =~= le64(self.dummy3));
        assert(s.subrange(32, 40) =~= le64(self.dummy4));
    }
}

/// Size in bytes of [`NotifyInvalInodeOut`] on the wire.
pub const NOTIFY_INVAL_INODE_OUT_SIZE: usize = 24;

/// Body of an inode invalidation notification.
#[derive(Clone, Copy, Debug, PartialEq, Eq, Structural)]
pub struct NotifyInvalInodeOut {
    pub ino: u64,
    pub off: i64,
    pub len: i64,
}

impl NotifyInvalInodeOut {
    /// The bytes of this structure on the wire, little-endian and without gaps.
    pub open spec fn spec_bytes(self) -> Seq<u8> {
        le64(self.ino)
            + le64(self.off as u64)
            + le64(self.len as u64)
    }

    /// The structure whose wire bytes start `s`; `s` holds at least [`NOTIFY_INVAL_INODE_OUT_SIZE`] bytes.
    pub open spec fn spec_parse(s: Seq<u8>) -> Self {
        NotifyInvalInodeOut {
            ino: dec64(s.subrange(0, 8)),
            off: dec64(s.subrange(8, 16)) as i64,
            len: dec64(s.subrange(16, 24)) as i64,
        }
    }

    /// Appends the wire bytes of this structure to `buf`.
    pub fn write_to(&self, buf: &mut Vec<u8>)
        ensures
            final(buf)@ == old(buf)@ + self.spec_bytes(),
    {
        let ghost start = buf@;
        push_u64(buf, self.ino);
        push_u64(buf, self.off as u64);
        push_u64(buf, self.len as u64);
        assert(buf@ =~= start + self.spec_bytes());
    }

    /// The wire bytes of this structure.
    pub fn to_bytes(&self) -> (r: Vec<u8>)
        ensures
            r@ == self.spec_bytes(),
            r@.len() == NOTIFY_INVAL_INODE_OUT_SIZE,
    {
        let mut buf: Vec<u8> = Vec::with_capacity(NOTIFY_INVAL_INODE_OUT_SIZE);
        self.write_to(&mut buf);
        assert(buf@ =~= self.spec_bytes());
        buf
    }

    /// Reads the structure whose wire bytes start at `off` in `b`.
    pub fn parse_at(b: &[u8], off: usize) -> (r: Self)
        requires
            off + NOTIFY_INVAL_INODE_OUT_SIZE <= b@.len(),
        ensures
            r == Self::spec_parse(b@.subrange(off as int, off + NOTIFY_INVAL_INODE_OUT_SIZE)),
    {
        let n: usize = b.len();
        assert(off + NOTIFY_INVAL_INODE_OUT_SIZE <= n);
        let ghost s = b@.subrange(off as int, off + NOTIFY_INVAL_INODE_OUT_SIZE);
        assert(s.subrange(0, 8) =~= b@.subrange(off + 0, off + 8));
        assert(s.subrange(8, 16) =~= b@.subrange(off + 8, off + 16));
        assert(s.subrange(16, 24) =~= b@.subrange(off + 16, off + 24));
        NotifyInvalInodeOut {
            ino: get_u64(b, off + 0),
            off: get_u64(b, off + 8) as i64,
            len: get_u64(b, off + 16) as i64,
        }
    }

    /// Parsing the wire bytes of a structure gives the structure back.
    pub proof fn lemma_round_trip(self)
        ensures
            self.spec_bytes().len() == NOTIFY_INVAL_INODE_OUT_SIZE,
            Self::spec_parse(self.spec_bytes()) == self,
    {
        let s = self.spec_bytes();
        lemma_le64_round_trip(self.ino);
        lemma_le64_round_trip(self.off as u64); lemma_i64_cast_round_trip(self.off);
        lemma_le64_round_trip(self.len as u64); lemma_i64_cast_round_trip(self.len);
        assert(s.subrange(0, 8) =~= le64(self.ino));
        assert(s.subrange(8, 16) =~= le64(self.off as u64));
        assert(s.subrange(16, 24) =~= le64(self.len as u64));
    }
}

/// Size in bytes of [`NotifyInvalEntryOut`] on the wire.
pub const NOTIFY_INVAL_ENTRY_OUT_SIZE: usize = 16;

/// Head of an entry invalidation notification; the name follows it.
#[derive(Clone, Copy, Debug, PartialEq, Eq, Structural)]
pub struct NotifyInvalEntryOut {
    pub parent: u64,
    pub namelen: u32,
    pub padding: u32,
}

impl NotifyInvalEntryOut {
    /// The bytes of this structure on the wire, little-endian and without gaps.
    pub open spec fn spec_bytes(self) -> Seq<u8> {
        le64(self.parent)
            + le32(self.namelen)
            + le32(self.padding)
    }

    /// The structure whose wire bytes start `s`; `s` holds at least [`NOTIFY_INVAL_ENTRY_OUT_SIZE`] bytes.
    pub open spec fn spec_parse(s: Seq<u8>) -> Self {
        NotifyInvalEntryOut {
            parent: dec64(s.subrange(0, 8)),
            namelen: dec32(s.subrange(8, 12)),
            padding: dec32(s.subrange(12, 16)),
        }
    }

    /// Appends the wire bytes of this structure to `buf`.
    pub fn write_to(&self, buf: &mut Vec<u8>)
        ensures
            final(buf)@ == old(buf)@ + self.spec_bytes(),
    {
        let ghost start = buf@;
        push_u64(buf, self.parent);
        push_u32(buf, self.namelen);
        push_u32(buf, self.padding);
        assert(buf@ =~= start + self.spec_bytes());
    }

    /// The wire bytes of this structure.
    pub fn to_bytes(&self) -> (r: Vec<u8>)
        ensures
            r@ == self.spec_bytes(),
            r@.len() == NOTIFY_INVAL_ENTRY_OUT_SIZE,
    {
        let mut buf: Vec<u8> = Vec::with_capacity(NOTIFY_INVAL_ENTRY_OUT_SIZE);
        self.write_to(&mut buf);
        assert(buf@ =~= self.spec_bytes());
        buf
    }

    /// Reads the structure whose wire bytes start at `off` in `b`.
    pub fn parse_at(b: &[u8], off: usize) -> (r: Self)
        requires
            off + NOTIFY_INVAL_ENTRY_OUT_SIZE <= b@.len(),
        ensures
            r == Self::spec_parse(b@.subrange(off as int, off + NOTIFY_INVAL_ENTRY_OUT_SIZE)),
    {
        let n: usize = b.len();
        assert(off + NOTIFY_INVAL_ENTRY_OUT_SIZE <= n);
        let ghost s = b@.subrange(off as int, off + NOTIFY_INVAL_ENTRY_OUT_SIZE);
        assert(s.subrange(0, 8) =~= b@.subrange(off + 0, off + 8));
        assert(s.subrange(8, 12) =~= b@.subrange(off + 8, off + 12));
        assert(s.subrange(12, 16) =~= b@.subrange(off + 12, off + 16));
        NotifyInvalEntryOut {
            parent: get_u64(b, off + 0),
            namelen: get_u32(b, off + 8),
            padding: get_u32(b, off + 12),
        }
    }

    /// Parsing the wire bytes of a structure gives the structure back.
    pub proof fn lemma_round_trip(self)
        ensures
            self.spec_bytes().len() == NOTIFY_INVAL_ENTRY_OUT_SIZE,
            Self::spec_parse(self.spec_bytes()) == self,
    {
        let s = self.spec_bytes();
        lemma_le64_round_trip(self.parent);
        lemma_le32_round_trip(self.namelen);
        lemma_le32_round_trip(self.padding);
        assert(s.subrange(0, 8) =~= le64(self.parent));
        assert(s.subrange(8, 12) =~= le32(self.namelen));
        assert(s.subrange(12, 16) =~= le32(self.padding));
    }
}

/// Size in bytes of [`NotifyDeleteOut`] on the wire.
pub const NOTIFY_DELETE_OUT_SIZE: usize = 24;

/// Head of a deletion notification; the name follows it.
#[derive(Clone, Copy, Debug, PartialEq, Eq, Structural)]
pub struct NotifyDeleteOut {
    pub parent: u64,
    pub child: u64,
    pub namelen: u32,
    pub padding: u32,
}

impl NotifyDeleteOut {
    /// The bytes of this structure on the wire, little-endian and without gaps.
    pub open spec fn spec_bytes(self) -> Seq<u8> {
        le64(self.parent)
            + le64(self.child)
            + le32(self.namelen)
            + le32(self.padding)
    }

    /// The structure whose wire bytes start `s`; `s` holds at least [`NOTIFY_DELETE_OUT_SIZE`] bytes.
    pub open spec fn spec_parse(s: Seq<u8>) -> Self {
        NotifyDeleteOut {
            parent: dec64(s.subrange(0, 8)),
            child: dec64(s.subrange(8, 16)),
            namelen: dec32(s.subrange(16, 20)),
            padding: dec32(s.subrange(20, 24)),
        }
    }

    /// Appends the wire bytes of this structure to `buf`.
    pub fn write_to(&self, buf: &mut Vec<u8>)
        ensures
            final(buf)@ == old(buf)@ + self.spec_bytes(),
    {
        let ghost start = buf@;
        push_u64(buf, self.parent);
        push_u64(buf, self.child);
        push_u32(buf, self.namelen);
        push_u32(buf, self.padding);
        assert(buf@ =~= start + self.spec_bytes());
    }

    /// The wire bytes of this structure.
    pub fn to_bytes(&self) -> (r: Vec<u8>)
        ensures
            r@ == self.spec_bytes(),
            r@.len() == NOTIFY_DELETE_OUT_SIZE,
    {
        let mut buf: Vec<u8> = Vec::with_capacity(NOTIFY_DELETE_OUT_SIZE);
        self.write_to(&mut buf);
        assert(buf@ =~= self.spec_bytes());
        buf
    }

    /// Reads the structure whose wire bytes start at `off` in `b`.
    pub fn parse_at(b: &[u8], off: usize) -> (r: Self)
        requires
            off + NOTIFY_DELETE_OUT_SIZE <= b@.len(),
        ensures
            r == Self::spec_parse(b@.subrange(off as int, off + NOTIFY_DELETE_OUT_SIZE)),
    {
        let n: usize = b.len();
        assert(off + NOTIFY_DELETE_OUT_SIZE <= n);
        let ghost s = b@.subrange(off as int, off + NOTIFY_DELETE_OUT_SIZE);
        assert(s.subrange(0, 8) =~= b@.subrange(off + 0, off + 8));
        assert(s.subrange(8, 16) =~= b@.subrange(off + 8, off + 16));
        assert(s.subrange(16, 20) =~= b@.subrange(off + 16, off + 20));
        assert(s.subrange(20, 24) =~= b@.subrange(off + 20, off + 24));
        NotifyDeleteOut {
            parent: get_u64(b, off + 0),
            child: get_u64(b, off + 8),
            namelen: get_u32(b, off + 16),
            padding: get_u32(b, off + 20),
        }
    }

    /// Parsing the wire bytes of a structure gives the structure back.
    pub proof fn lemma_round_trip(self)
        ensures
            self.spec_bytes().len() == NOTIFY_DELETE_OUT_SIZE,
            Self::spec_parse(self.spec_bytes()) == self,
    {
        let s = self.spec_bytes();
        lemma_le64_round_trip(self.parent);
        lemma_le64_round_trip(self.child);
        lemma_le32_round_trip(self.namelen);
        lemma_le32_round_trip(self.padding);
        assert(s.subrange(0, 8) =~= le64(self.parent));
        assert(s.subrange(8, 16) =~= le64(self.child));
        assert(s.subrange(16, 20) =~= le32(self.namelen));
        assert(s.subrange(20, 24) =~= le32(self.padding));
    }
}

/// Size in bytes of [`NotifyStoreOut`] on the wire.
pub const NOTIFY_STORE_OUT_SIZE: usize = 24;

/// Head of a store notification; the data follows it.
#[derive(Clone, Copy, Debug, PartialEq, Eq, Structural)]
pub struct NotifyStoreOut {
    pub nodeid: u64,
    pub offset: u64,
    pub size: u32,
    pub padding: u32,
}

impl NotifyStoreOut {
    /// The bytes of this structure on the wire, little-endian and without gaps.
    pub open spec fn spec_bytes(self) -> Seq<u8> {
        le64(self.nodeid)
            + le64(self.offset)
            + le32(self.size)
            + le32(self.padding)
    }

    /// The structure whose wire bytes start `s`; `s` holds at least [`NOTIFY_STORE_OUT_SIZE`] bytes.
    pub open spec fn spec_parse(s: Seq<u8>) -> Self {
        NotifyStoreOut {
            nodeid: dec64(s.subrange(0, 8)),
            offset: dec64(s.subrange(8, 16)),
            size: dec32(s.subrange(16, 20)),
            padding: dec32(s.subrange(20, 24)),
        }
    }

    /// Appends the wire bytes of this structure to `buf`.
    pub fn write_to(&self, buf: &mut Vec<u8>)
        ensures
            final(buf)@ == old(buf)@ + self.spec_bytes(),
    {
        let ghost start = buf@;
        push_u64(buf, self.nodeid);
        push_u64(buf, self.offset);
        push_u32(buf, self.size);
        push_u32(buf, self.padding);
        assert(buf@ =~= start + self.spec_bytes());
    }

    /// The wire bytes of this structure.
    pub fn to_bytes(&self) -> (r: Vec<u8>)
        ensures
            r@ == self.spec_bytes(),
            r@.len() == NOTIFY_STORE_OUT_SIZE,
    {
        let mut buf: Vec<u8> = Vec::with_capacity(NOTIFY_STORE_OUT_SIZE);
        self.write_to(&mut buf);
        assert(buf@ =~= self.spec_bytes());
        buf
    }

    /// Reads the structure whose wire bytes start at `off` in `b`.
    pub fn parse_at(b: &[u8], off: usize) -> (r: Self)
        requires
            off + NOTIFY_STORE_OUT_SIZE <= b@.len(),
        ensures
            r == Self::spec_parse(b@.subrange(off as int, off + NOTIFY_STORE_OUT_SIZE)),
    {
        let n: usize = b.len();
        assert(off + NOTIFY_STORE_OUT_SIZE <= n);
        let ghost s = b@.subrange(off as int, off + NOTIFY_STORE_OUT_SIZE);
        assert(s.subrange(0, 8) =~= b@.subrange(off + 0, off + 8));
        assert(s.subrange(8, 16) =~= b@.subrange(off + 8, off + 16));
        assert(s.subrange(16, 20) =~= b@.subrange(off + 16, off + 20));
        assert(s.subrange(20, 24) =~= b@.subrange(off + 20, off + 24));
        NotifyStoreOut {
            nodeid: get_u64(b, off + 0),
            offset: get_u64(b, off + 8),
            size: get_u32(b, off + 16),
            padding: get_u32(b, off + 20),
        }
    }

    /// Parsing the wire bytes of a structure gives the structure back.
    pub proof fn lemma_round_trip(self)
        ensures
            self.spec_bytes().len() == NOTIFY_STORE_OUT_SIZE,
            Self::spec_parse(self.spec_bytes()) == self,
    {
        let s = self.spec_bytes();
        lemma_le64_round_trip(self.nodeid);
        lemma_le64_round_trip(self.offset);
        lemma_le32_round_trip(self.size);
        lemma_le32_round_trip(self.padding);
        assert(s.subrange(0, 8) =~= le64(self.nodeid));
        assert(s.subrange(8, 16) =~= le64(self.offset));
        assert(s.subrange(16, 20) =~= le32(self.size));
        assert(s.subrange(20, 24) =~= le32(self.padding));
    }
}

/// Size in bytes of [`NotifyRetrieveOut`] on the wire.
pub const NOTIFY_RETRIEVE_OUT_SIZE: usize = 32;

/// Body of a retrieve notification.
#[derive(Clone, Copy, Debug, PartialEq, Eq, Structural)]
pub struct NotifyRetrieveOut {
    pub notify_unique: u64,
    pub nodeid: u64,
    pub offset: u64,
    pub size: u32,
    pub padding: u32,
}

impl NotifyRetrieveOut {
    /// The bytes of this structure on the wire, little-endian and without gaps.
    pub open spec fn spec_bytes(self) -> Seq<u8> {
        le64(self.notify_unique)
            + le64(self.nodeid)
            + le64(self.offset)
            + le32(self.size)
            + le32(self.padding)
    }

    /// The structure whose wire bytes start `s`; `s` holds at least [`NOTIFY_RETRIEVE_OUT_SIZE`] bytes.
    pub open spec fn spec_parse(s: Seq<u8>) -> Self {
        NotifyRetrieveOut {
            notify_unique: dec64(s.subrange(0, 8)),
            nodeid: dec64(s.subrange(8, 16)),
            offset: dec64(s.subrange(16, 24)),
            size: dec32(s.subrange(24, 28)),
            padding: dec32(s.subrange(28, 32)),
        }
    }

    /// Appends the wire bytes of this structure to `buf`.
    pub fn write_to(&self, buf: &mut Vec<u8>)
        ensures
            final(buf)@ == old(buf)@ + self.spec_bytes(),
    {
        let ghost start = buf@;
        push_u64(buf, self.notify_unique);
        push_u64(buf, self.nodeid);
        push_u64(buf, self.offset);
        push_u32(buf, self.size);
        push_u32(buf, self.padding);
        assert(buf@ =~= start + self.spec_bytes());
    }

    /// The wire bytes of this structure.
    pub fn to_bytes(&self) -> (r: Vec<u8>)
        ensures
            r@ == self.spec_bytes(),
            r@.len() == NOTIFY_RETRIEVE_OUT_SIZE,
    {
        let mut buf: Vec<u8> = Vec::with_capacity(NOTIFY_RETRIEVE_OUT_SIZE);
        self.write_to(&mut buf);
        assert(buf@ =~= self.spec_bytes());
        buf
    }

    /// Reads the structure whose wire bytes start at `off` in `b`.
    pub fn parse_at(b: &[u8], off: usize) -> (r: Self)
        requires
            off + NOTIFY_RETRIEVE_OUT_SIZE <= b@.len(),
        ensures
            r == Self::spec_parse(b@.subrange(off as int, off + NOTIFY_RETRIEVE_OUT_SIZE)),
    {
        let n: usize = b.len();
        assert(off + NOTIFY_RETRIEVE_OUT_SIZE <= n);
        let ghost s = b@.subrange(off as int, off + NOTIFY_RETRIEVE_OUT_SIZE);
        assert(s.subrange(0, 8) =~= b@.subrange(off + 0, off + 8));
        assert(s.subrange(8, 16) =~= b@.subrange(off + 8, off + 16));
        assert(s.subrange(16, 24) =~= b@.subrange(off + 16, off + 24));
        assert(s.subrange(24, 28) =~= b@.subrange(off + 24, off + 28));
        assert(s.subrange(28, 32) =~= b@.subrange(off + 28, off + 32));
        NotifyRetrieveOut {
            notify_unique: get_u64(b, off + 0),
            nodeid: get_u64(b, off + 8),
            offset: get_u64(b, off + 16),
            size: get_u32(b, off + 24),
            padding: get_u32(b, off + 28),
        }
    }

    /// Parsing the wire bytes of a structure gives the structure back.
    pub proof fn lemma_round_trip(self)
        ensures
            self.spec_bytes().len() == NOTIFY_RETRIEVE_OUT_SIZE,
            Self::spec_parse(self.spec_bytes()) == self,
    {
        let s = self.spec_bytes();
        lemma_le64_round_trip(self.notify_unique);
        lemma_le64_round_trip(self.nodeid);
        lemma_le64_round_trip(self.offset);
        lemma_le32_round_trip(self.size);
        lemma_le32_round_trip(self.padding);
        assert(s.subrange(0, 8) =~= le64(self.notify_unique));
        assert(s.subrange(8, 16) =~= le64(self.nodeid));
        assert(s.subrange(16, 24) =~= le64(self.offset));
        assert(s.subrange(24, 28) =~= le32(self.size));
        assert(s.subrange(28, 32) =~= le32(self.padding));
    }
}

/// Size in bytes of [`NotifyPollWakeupOut`] on the wire.
pub const NOTIFY_POLL_WAKEUP_OUT_SIZE: usize = 8;

/// Body of a poll wakeup notification.
#[derive(Clone, Copy, Debug, PartialEq, Eq, Structural)]
pub struct NotifyPollWakeupOut {
    pub kh: u64,
}

impl NotifyPollWakeupOut {
    /// The bytes of this structure on the wire, little-endian and without gaps.
    pub open spec fn spec_bytes(self) -> Seq<u8> {
        le64(self.kh)
    }

    /// The structure whose wire bytes start `s`; `s` holds at least [`NOTIFY_POLL_WAKEUP_OUT_SIZE`] bytes.
    pub open spec fn spec_parse(s: Seq<u8>) -> Self {
        NotifyPollWakeupOut {
            kh: dec64(s.subrange(0, 8)),
        }
    }

    /// Appends the wire bytes of this structure to `buf`.
    pub fn write_to(&self, buf: &mut Vec<u8>)
        ensures
            final(buf)@ == old(buf)@ + self.spec_bytes(),
    {
        let ghost start = buf@;
        push_u64(buf, self.kh);
        assert(buf@ =~= start + self.spec_bytes());
    }

    /// The wire bytes of this structure.
    pub fn to_bytes(&self) -> (r: Vec<u8>)
        ensures
            r@ == self.spec_bytes(),
            r@.len() == NOTIFY_POLL_WAKEUP_OUT_SIZE,
    {
        let mut buf: Vec<u8> = Vec::with_capacity(NOTIFY_POLL_WAKEUP_OUT_SIZE);
        self.write_to(&mut buf);
        assert(buf@ =~= self.spec_bytes());
        buf
    }

    /// Reads the structure whose wire bytes start at `off` in `b`.
    pub fn parse_at(b: &[u8], off: usize) -> (r: Self)
        requires
            off + NOTIFY_POLL_WAKEUP_OUT_SIZE <= b@.len(),
        ensures
            r == Self::spec_parse(b@.subrange(off as int, off + NOTIFY_POLL_WAKEUP_OUT_SIZE)),
    {
        let n: usize = b.len();
        assert(off + NOTIFY_POLL_WAKEUP_OUT_SIZE <= n);
        let ghost s = b@.subrange(off as int, off + NOTIFY_POLL_WAKEUP_OUT_SIZE);
        assert(s.subrange(0, 8) =~= b@.subrange(off + 0, off + 8));
        NotifyPollWakeupOut {
            kh: get_u64(b, off + 0),
        }
    }

    /// Parsing the wire bytes of a structure gives the structure back.
    pub proof fn lemma_round_trip(self)
        ensures
            self.spec_bytes().len() == NOTIFY_POLL_WAKEUP_OUT_SIZE,
            Self::spec_parse(self.spec_bytes()) == self,
    {
        let s = self.spec_bytes();
        lemma_le64_round_trip(self.kh);
        assert(s.subrange(0, 8) =~= le64(self.kh));
    }
}

/// Size in bytes of [`GetattrIn`] on the wire.
pub const GETATTR_IN_SIZE: usize = 16;

/// Body of a `GETATTR` request.
#[derive(Clone, Copy, Debug, PartialEq, Eq, Structural)]
pub struct GetattrIn {
    pub getattr_flags: u32,
    pub dummy: u32,
    pub fh: u64,
}

impl GetattrIn {
    /// The bytes of this structure on the wire, little-endian and without gaps.
    pub open spec fn spec_bytes(self) -> Seq<u8> {
        le32(self.getattr_flags)
            + le32(self.dummy)
            + le64(self.fh)
    }

    /// The structure whose wire bytes start `s`; `s` holds at least [`GETATTR_IN_SIZE`] bytes.
    pub open spec fn spec_parse(s: Seq<u8>) -> Self {
        GetattrIn {
            getattr_flags: dec32(s.subrange(0, 4)),
            dummy: dec32(s.subrange(4, 8)),
            fh: dec64(s.subrange(8, 16)),
        }
    }

    /// Appends the wire bytes of this structure to `buf`.
    pub fn write_to(&self, buf: &mut Vec<u8>)
        ensures
            final(buf)@ == old(buf)@ + self.spec_bytes(),
    {
        let ghost start = buf@;
        push_u32(buf, self.getattr_flags);
        push_u32(buf, self.dummy);
        push_u64(buf, self.fh);
        assert(buf@ =~= start + self.spec_bytes());
    }

    /// The wire bytes of this structure.
    pub fn to_bytes(&self) -> (r: Vec<u8>)
        ensures
            r@ == self.spec_bytes(),
            r@.len() == GETATTR_IN_SIZE,
    {
        let mut buf: Vec<u8> = Vec::with_capacity(GETATTR_IN_SIZE);
        self.write_to(&mut buf);
        assert(buf@ =~= self.spec_bytes());
        buf
    }

    /// Reads the structure whose wire bytes start at `off` in `b`.
    pub fn parse_at(b: &[u8], off: usize) -> (r: Self)
        requires
            off + GETATTR_IN_SIZE <= b@.len(),
        ensures
            r == Self::spec_parse(b@.subrange(off as int, off + GETATTR_IN_SIZE)),
    {
        let n: usize = b.len();
        assert(off + GETATTR_IN_SIZE <= n);
        let ghost s = b@.subrange(off as int, off + GETATTR_IN_SIZE);
        assert(s.subrange(0, 4) =~= b@.subrange(off + 0, off + 4));
        assert(s.subrange(4, 8) =~= b@.subrange(off + 4, off + 8));
        assert(s.subrange(8, 16) =~= b@.subrange(off + 8, off + 16));
        GetattrIn {
            getattr_flags: get_u32(b, off + 0),
            dummy: get_u32(b, off + 4),
            fh: get_u64(b, off + 8),
        }
    }

    /// Parsing the wire bytes of a structure gives the structure back.
    pub proof fn lemma_round_trip(self)
        ensures
            self.spec_bytes().len() == GETATTR_IN_SIZE,
            Self::spec_parse(self.spec_bytes()) == self,
    {
        let s = self.spec_bytes();
        lemma_le32_round_trip(self.getattr_flags);
        lemma_le32_round_trip(self.dummy);
        lemma_le64_round_trip(self.fh);
        assert(s.subrange(0, 4) =~= le32(self.getattr_flags));
        assert(s.subrange(4, 8) =~= le32(self.dummy));
        assert(s.subrange(8, 16) =~= le64(self.fh));
    }
}

/// Size in bytes of [`OpenIn`] on the wire.
pub const OPEN_IN_SIZE: usize = 8;

/// Body of an `OPEN` or `OPENDIR` request.
#[derive(Clone, Copy, Debug, PartialEq, Eq, Structural)]
pub struct OpenIn {
    pub flags: u32,
    pub unused: u32,
}

impl OpenIn {
    /// The bytes of this structure on the wire, little-endian and without gaps.
    pub open spec fn spec_bytes(self) -> Seq<u8> {
        le32(self.flags)
            + le32(self.unused)
    }

    /// The structure whose wire bytes start `s`; `s` holds at least [`OPEN_IN_SIZE`] bytes.
    pub open spec fn spec_parse(s: Seq<u8>) -> Self {
        OpenIn {
            flags: dec32(s.subrange(0, 4)),
            unused: dec32(s.subrange(4, 8)),
        }
    }

    /// Appends the wire bytes of this structure to `buf`.
    pub fn write_to(&self, buf: &mut Vec<u8>)
        ensures
            final(buf)@ == old(buf)@ + self.spec_bytes(),
    {
        let ghost start = buf@;
        push_u32(buf, self.flags);
        push_u32(buf, self.unused);
        assert(buf@ =~= start + self.spec_bytes());
    }

    /// The wire bytes of this structure.
    pub fn to_bytes(&self) -> (r: Vec<u8>)
        ensures
            r@ == self.spec_bytes(),
            r@.len() == OPEN_IN_SIZE,
    {
        let mut buf: Vec<u8> = Vec::with_capacity(OPEN_IN_SIZE);
        self.write_to(&mut buf);
        assert(buf@ =~= self.spec_bytes());
        buf
    }

    /// Reads the structure whose wire bytes start at `off` in `b`.
    pub fn parse_at(b: &[u8], off: usize) -> (r: Self)
        requires
            off + OPEN_IN_SIZE <= b@.len(),
        ensures
            r == Self::spec_parse(b@.subrange(off as int, off + OPEN_IN_SIZE)),
    {
        let n: usize = b.len();
        assert(off + OPEN_IN_SIZE <= n);
        let ghost s = b@.subrange(off as int, off + OPEN_IN_SIZE);
        assert(s.subrange(0, 4) =~= b@.subrange(off + 0, off + 4));
        assert(s.subrange(4, 8) =~= b@.subrange(off + 4, off + 8));
        OpenIn {
            flags: get_u32(b, off + 0),
            unused: get_u32(b, off + 4),
        }
    }

    /// Parsing the wire bytes of a structure gives the structure back.
    pub proof fn lemma_round_trip(self)
        ensures
            self.spec_bytes().len() == OPEN_IN_SIZE,
            Self::spec_parse(self.spec_bytes()) == self,
    {
        let s = self.spec_bytes();
        lemma_le32_round_trip(self.flags);
        lemma_le32_round_trip(self.unused);
        assert(s.subrange(0, 4) =~= le32(self.flags));
        assert(s.subrange(4, 8) =~= le32(self.unused));
    }
}

/// Size in bytes of [`ReadIn`] on the wire.
pub const READ_IN_SIZE: usize = 40;

/// Body of a `READ` or `READDIR` request.
#[derive(Clone, Copy, Debug, PartialEq, Eq, Structural)]
pub struct ReadIn {
    pub fh: u64,
    pub offset: u64,
    pub size: u32,
    pub read_flags: u32,
    pub lock_owner: u64,
    pub flags: u32,
    pub padding: u32,
}

impl ReadIn {
    /// The bytes of this structure on the wire, little-endian and without gaps.
    pub open spec fn spec_bytes(self) -> Seq<u8> {
        le64(self.fh)
            + le64(self.offset)
            + le32(self.size)
            + le32(self.read_flags)
            + le64(self.lock_owner)
            + le32(self.flags)
            + le32(self.padding)
    }

    /// The structure whose wire bytes start `s`; `s` holds at least [`READ_IN_SIZE`] bytes.
    pub open spec fn spec_parse(s: Seq<u8>) -> Self {
        ReadIn {
            fh: dec64(s.subrange(0, 8)),
            offset: dec64(s.subrange(8, 16)),
            size: dec32(s.subrange(16, 20)),
            read_flags: dec32(s.subrange(20, 24)),
            lock_owner: dec64(s.subrange(24, 32)),
            flags: dec32(s.subrange(32, 36)),
            padding: dec32(s.subrange(36, 40)),
        }
    }

    /// Appends the wire bytes of this structure to `buf`.
    pub fn write_to(&self, buf: &mut Vec<u8>)
        ensures
            final(buf)@ == old(buf)@ + self.spec_bytes(),
    {
        let ghost start = buf@;
        push_u64(buf, self.fh);
        push_u64(buf, self.offset);
        push_u32(buf, self.size);
        push_u32(buf, self.read_flags);
        push_u64(buf, self.lock_owner);
        push_u32(buf, self.flags);
        push_u32(buf, self.padding);
        assert(buf@ =~= start + self.spec_bytes());
    }

    /// The wire bytes of this structure.
    pub fn to_bytes(&self) -> (r: Vec<u8>)
        ensures
            r@ == self.spec_bytes(),
            r@.len() == READ_IN_SIZE,
    {
        let mut buf: Vec<u8> = Vec::with_capacity(READ_IN_SIZE);
        self.write_to(&mut buf);
        assert(buf@ =~= self.spec_bytes());
        buf
    }

    /// Reads the structure whose wire bytes start at `off` in `b`.
    pub fn parse_at(b: &[u8], off: usize) -> (r: Self)
        requires
            off + READ_IN_SIZE <= b@.len(),
        ensures
            r == Self::spec_parse(b@.subrange(off as int, off + READ_IN_SIZE)),
    {
        let n: usize = b.len();
        assert(off + READ_IN_SIZE <= n);
        let ghost s = b@.subrange(off as int, off + READ_IN_SIZE);
        assert(s.subrange(0, 8) =~= b@.subrange(off + 0, off + 8));
        assert(s.subrange(8, 16) =~= b@.subrange(off + 8, off + 16));
        assert(s.subrange(16, 20) =~= b@.subrange(off + 16, off + 20));
        assert(s.subrange(20, 24) =~= b@.subrange(off + 20, off + 24));
        assert(s.subrange(24, 32) =~= b@.subrange(off + 24, off + 32));
        assert(s.subrange(32, 36) =~= b@.subrange(off + 32, off + 36));
        assert(s.subrange(36, 40) =~= b@.subrange(off + 36, off + 40));
        ReadIn {
            fh: get_u64(b, off + 0),
            offset: get_u64(b, off + 8),
            size: get_u32(b, off + 16),
            read_flags: get_u32(b, off + 20),
            lock_owner: get_u64(b, off + 24),
            flags: get_u32(b, off + 32),
            padding: get_u32(b, off + 36),
        }
    }

    /// Parsing the wire bytes of a structure gives the structure back.
    pub proof fn lemma_round_trip(self)
        ensures
            self.spec_bytes().len() == READ_IN_SIZE,
            Self::spec_parse(self.spec_bytes()) == self,
    {
        let s = self.spec_bytes();
        lemma_le64_round_trip(self.fh);
        lemma_le64_round_trip(self.offset);
        lemma_le32_round_trip(self.size);
        lemma_le32_round_trip(self.read_flags);
        lemma_le64_round_trip(self.lock_owner);
        lemma_le32_round_trip(self.flags);
        lemma_le32_round_trip(self.padding);
        assert(s.subrange(0, 8) =~= le64(self.fh));
        assert(s.subrange(8, 16) =~= le64(self.offset));
        assert(s.subrange(16, 20) =~= le32(self.size));
        assert(s.subrange(20, 24) =~= le32(self.read_flags));
        assert(s.subrange(24, 32) =~= le64(self.lock_owner));
        assert(s.subrange(32, 36) =~= le32(self.flags));
        assert(s.subrange(36, 40) =~= le32(self.padding));
    }
}

/// Size in bytes of [`WriteIn`] on the wire.
pub const WRITE_IN_SIZE: usize = 40;

/// Head of a `WRITE` request; the data follow it.
#[derive(Clone, Copy, Debug, PartialEq, Eq, Structural)]
pub struct WriteIn {
    pub fh: u64,
    pub offset: u64,
    pub size: u32,
    pub write_flags: u32,
    pub lock_owner: u64,
    pub flags: u32,
    pub padding: u32,
}

impl WriteIn {
    /// The bytes of this structure on the wire, little-endian and without gaps.
    pub open spec fn spec_bytes(self) -> Seq<u8> {
        le64(self.fh)
            + le64(self.offset)
            + le32(self.size)
            + le32(self.write_flags)
            + le64(self.lock_owner)
            + le32(self.flags)
            + le32(self.padding)
    }

    /// The structure whose wire bytes start `s`; `s` holds at least [`WRITE_IN_SIZE`] bytes.
    pub open spec fn spec_parse(s: Seq<u8>) -> Self {
        WriteIn {
            fh: dec64(s.subrange(0, 8)),
            offset: dec64(s.subrange(8, 16)),
            size: dec32(s.subrange(16, 20)),
            write_flags: dec32(s.subrange(20, 24)),
            lock_owner: dec64(s.subrange(24, 32)),
            flags: dec32(s.subrange(32, 36)),
            padding: dec32(s.subrange(36, 40)),
        }
    }

    /// Appends the wire bytes of this structure to `buf`.
    pub fn write_to(&self, buf: &mut Vec<u8>)
        ensures
            final(buf)@ == old(buf)@ + self.spec_bytes(),
    {
        let ghost start = buf@;
        push_u64(buf, self.fh);
        push_u64(buf, self.offset);
        push_u32(buf, self.size);
        push_u32(buf, self.write_flags);
        push_u64(buf, self.lock_owner);
        push_u32(buf, self.flags);
        push_u32(buf, self.padding);
        assert(buf@ =~= start + self.spec_bytes());
    }

    /// The wire bytes of this structure.
    pub fn to_bytes(&self) -> (r: Vec<u8>)
        ensures
            r@ == self.spec_bytes(),
            r@.len() == WRITE_IN_SIZE,
    {
        let mut buf: Vec<u8> = Vec::with_capacity(WRITE_IN_SIZE);
        self.write_to(&mut buf);
        assert(buf@ =~= self.spec_bytes());
        buf
    }

    /// Reads the structure whose wire bytes start at `off` in `b`.
    pub fn parse_at(b: &[u8], off: usize) -> (r: Self)
        requires
            off + WRITE_IN_SIZE <= b@.len(),
        ensures
            r == Self::spec_parse(b@.subrange(off as int, off + WRITE_IN_SIZE)),
    {
        let n: usize = b.len();
        assert(off + WRITE_IN_SIZE <= n);
        let ghost s = b@.subrange(off as int, off + WRITE_IN_SIZE);
        assert(s.subrange(0, 8) =~= b@.subrange(off + 0, off + 8));
        assert(s.subrange(8, 16) =~= b@.subrange(off + 8, off + 16));
        assert(s.subrange(16, 20) =~= b@.subrange(off + 16, off + 20));
        assert(s.subrange(20, 24) =~= b@.subrange(off + 20, off + 24));
        assert(s.subrange(24, 32) =~= b@.subrange(off + 24, off + 32));
        assert(s.subrange(32, 36) =~= b@.subrange(off + 32, off + 36));
        assert(s.subrange(36, 40) =~= b@.subrange(off + 36, off + 40));
        WriteIn {
            fh: get_u64(b, off + 0),
            offset: get_u64(b, off + 8),
            size: get_u32(b, off + 16),
            write_flags: get_u32(b, off + 20),
            lock_owner: get_u64(b, off + 24),
            flags: get_u32(b, off + 32),
            padding: get_u32(b, off + 36),
        }
    }

    /// Parsing the wire bytes of a structure gives the structure back.
    pub proof fn lemma_round_trip(self)
        ensures
            self.spec_bytes().len() == WRITE_IN_SIZE,
            Self::spec_parse(self.spec_bytes()) == self,
    {
        let s = self.spec_bytes();
        lemma_le64_round_trip(self.fh);
        lemma_le64_round_trip(self.offset);
        lemma_le32_round_trip(self.size);
        lemma_le32_round_trip(self.write_flags);
        lemma_le64_round_trip(self.lock_owner);
        lemma_le32_round_trip(self.flags);
        lemma_le32_round_trip(self.padding);
        assert(s.subrange(0, 8) =~= le64(self.fh));
        assert(s.subrange(8, 16) =~= le64(self.offset));
        assert(s.subrange(16, 20) =~= le32(self.size));
        assert(s.subrange(20, 24) =~= le32(self.write_flags));
        assert(s.subrange(24, 32) =~= le64(self.lock_owner));
        assert(s.subrange(32, 36) =~= le32(self.flags));
        assert(s.subrange(36, 40) =~= le32(self.padding));
    }
}

/// Size in bytes of [`ReleaseIn`] on the wire.
pub const RELEASE_IN_SIZE: usize = 24;

/// Body of a `RELEASE` or `RELEASEDIR` request.
#[derive(Clone, Copy, Debug, PartialEq, Eq, Structural)]
pub struct ReleaseIn {
    pub fh: u64,
    pub flags: u32,
    pub release_flags: u32,
    pub lock_owner: u64,
}

impl ReleaseIn {
    /// The bytes of this structure on the wire, little-endian and without gaps.
    pub open spec fn spec_bytes(self) -> Seq<u8> {
        le64(self.fh)
            + le32(self.flags)
            + le32(self.release_flags)
            + le64(self.lock_owner)
    }

    /// The structure whose wire bytes start `s`; `s` holds at least [`RELEASE_IN_SIZE`] bytes.
    pub open spec fn spec_parse(s: Seq<u8>) -> Self {
        ReleaseIn {
            fh: dec64(s.subrange(0, 8)),
            flags: dec32(s.subrange(8, 12)),
            release_flags: dec32(s.subrange(12, 16)),
            lock_owner: dec64(s.subrange(16, 24)),
        }
    }

    /// Appends the wire bytes of this structure to `buf`.
    pub fn write_to(&self, buf: &mut Vec<u8>)
        ensures
            final(buf)@ == old(buf)@ + self.spec_bytes(),
    {
        let ghost start = buf@;
        push_u64(buf, self.fh);
        push_u32(buf, self.flags);
        push_u32(buf, self.release_flags);
        push_u64(buf, self.lock_owner);
        assert(buf@ =~= start + self.spec_bytes());
    }

    /// The wire bytes of this structure.
    pub fn to_bytes(&self) -> (r: Vec<u8>)
        ensures
            r@ == self.spec_bytes(),
            r@.len() == RELEASE_IN_SIZE,
    {
        let mut buf: Vec<u8> = Vec::with_capacity(RELEASE_IN_SIZE);
        self.write_to(&mut buf);
        assert(buf@ =~= self.spec_bytes());
        buf
    }

    /// Reads the structure whose wire bytes start at `off` in `b`.
    pub fn parse_at(b: &[u8], off: usize) -> (r: Self)
        requires
            off + RELEASE_IN_SIZE <= b@.len(),
        ensures
            r == Self::spec_parse(b@.subrange(off as int, off + RELEASE_IN_SIZE)),
    {
        let n: usize = b.len();
        assert(off + RELEASE_IN_SIZE <= n);
        let ghost s = b@.subrange(off as int, off + RELEASE_IN_SIZE);
        assert(s.subrange(0, 8) =~= b@.subrange(off + 0, off + 8));
        assert(s.subrange(8, 12) =~= b@.subrange(off + 8, off + 12));
        assert(s.subrange(12, 16) =~= b@.subrange(off + 12, off + 16));
        assert(s.subrange(16, 24) =~= b@.subrange(off + 16, off + 24));
        ReleaseIn {
            fh: get_u64(b, off + 0),
            flags: get_u32(b, off + 8),
            release_flags: get_u32(b, off + 12),
            lock_owner: get_u64(b, off + 16),
        }
    }

    /// Parsing the wire bytes of a structure gives the structure back.
    pub proof fn lemma_round_trip(self)
        ensures
            self.spec_bytes().len() == RELEASE_IN_SIZE,
            Self::spec_parse(self.spec_bytes()) == self,
    {
        let s = self.spec_bytes();
        lemma_le64_round_trip(self.fh);
        lemma_le32_round_trip(self.flags);
        lemma_le32_round_trip(self.release_flags);
        lemma_le64_round_trip(self.lock_owner);
        assert(s.subrange(0, 8) =~= le64(self.fh));
        assert(s.subrange(8, 12) =~= le32(self.flags));
        assert(s.subrange(12, 16) =~= le32(self.release_flags));
        assert(s.subrange(16, 24) =~= le64(self.lock_owner));
    }
}

/// Size in bytes of [`MkdirIn`] on the wire.
pub const MKDIR_IN_SIZE: usize = 8;

/// Head of a `MKDIR` request; the name follows it.
#[derive(Clone, Copy, Debug, PartialEq, Eq, Structural)]
pub struct MkdirIn {
    pub mode: u32,
    pub umask: u32,
}

impl MkdirIn {
    /// The bytes of this structure on the wire, little-endian and without gaps.
    pub open spec fn spec_bytes(self) -> Seq<u8> {
        le32(self.mode)
            + le32(self.umask)
    }

    /// The structure whose wire bytes start `s`; `s` holds at least [`MKDIR_IN_SIZE`] bytes.
    pub open spec fn spec_parse(s: Seq<u8>) -> Self {
        MkdirIn {
            mode: dec32(s.subrange(0, 4)),
            umask: dec32(s.subrange(4, 8)),
        }
    }

    /// Appends the wire bytes of this structure to `buf`.
    pub fn write_to(&self, buf: &mut Vec<u8>)
        ensures
            final(buf)@ == old(buf)@ + self.spec_bytes(),
    {
        let ghost start = buf@;
        push_u32(buf, self.mode);
        push_u32(buf, self.umask);
        assert(buf@ =~= start + self.spec_bytes());
    }

    /// The wire bytes of this structure.
    pub fn to_bytes(&self) -> (r: Vec<u8>)
        ensures
            r@ == self.spec_bytes(),
            r@.len() == MKDIR_IN_SIZE,
    {
        let mut buf: Vec<u8> = Vec::with_capacity(MKDIR_IN_SIZE);
        self.write_to(&mut buf);
        assert(buf@ =~= self.spec_bytes());
        buf
    }

    /// Reads the structure whose wire bytes start at `off` in `b`.
    pub fn parse_at(b: &[u8], off: usize) -> (r: Self)
        requires
            off + MKDIR_IN_SIZE <= b@.len(),
        ensures
            r == Self::spec_parse(b@.subrange(off as int, off + MKDIR_IN_SIZE)),
    {
        let n: usize = b.len();
        assert(off + MKDIR_IN_SIZE <= n);
        let ghost s = b@.subrange(off as int, off + MKDIR_IN_SIZE);
        assert(s.subrange(0, 4) =~= b@.subrange(off + 0, off + 4));
        assert(s.subrange(4, 8) =~= b@.subrange(off + 4, off + 8));
        MkdirIn {
            mode: get_u32(b, off + 0),
            umask: get_u32(b, off + 4),
        }
    }

    /// Parsing the wire bytes of a structure gives the structure back.
    pub proof fn lemma_round_trip(self)
        ensures
            self.spec_bytes().len() == MKDIR_IN_SIZE,
            Self::spec_parse(self.spec_bytes()) == self,
    {
        let s = self.spec_bytes();
        lemma_le32_round_trip(self.mode);
        lemma_le32_round_trip(self.umask);
        assert(s.subrange(0, 4) =~= le32(self.mode));
        assert(s.subrange(4, 8) =~= le32(self.umask));
    }
}


} // verus!

//! Reply payloads and the framing of replies.
use crate::abi::{
    FuseAttr, FuseAttrOut, FuseEntryOut, FuseInitOut, FuseOpenOut, InHeader, OutHeader,
    FUSE_KERNEL_MINOR_VERSION, FUSE_KERNEL_VERSION, OUT_HEADER_SIZE,
};
use crate::init::CapFlags;
use vstd::prelude::*;

verus! {

/// The attributes of a file as `stat(2)` reports them, field by field.
#[derive(Clone, Copy, Debug, PartialEq, Eq, Structural)]
pub struct FileStat {
    pub st_ino: u64,
    pub st_mode: u32,
    pub st_nlink: u64,
    pub st_uid: u32,
    pub st_gid: u32,
    pub st_rdev: u64,
    pub st_size: i64,
    pub st_blksize: i64,
    pub st_blocks: i64,
    pub st_atime: i64,
    pub st_atime_nsec: i64,
    pub st_mtime: i64,
    pub st_mtime_nsec: i64,
    pub st_ctime: i64,
    pub st_ctime_nsec: i64,
}

/// The all-zero attribute record.
pub open spec fn zero_attr() -> FuseAttr {
    FuseAttr {
        ino: 0,
        size: 0,
        blocks: 0,
        atime: 0,
        mtime: 0,
        ctime: 0,
        atimensec: 0,
        mtimensec: 0,
        ctimensec: 0,
        mode: 0,
        nlink: 0,
        uid: 0,
        gid: 0,
        rdev: 0,
        blksize: 0,
        padding: 0,
    }
}

/// The attribute record that describes `st`; each field is cast to its wire width.
pub open spec fn attr_of_stat(st: FileStat) -> FuseAttr {
    FuseAttr {
        ino: st.st_ino,
        size: st.st_size as u64,
        blocks: st.st_blocks as u64,
        atime: st.st_atime as u64,
        mtime: st.st_mtime as u64,
        ctime: st.st_ctime as u64,
        atimensec: st.st_atime_nsec as u32,
        mtimensec: st.st_mtime_nsec as u32,
        ctimensec: st.st_ctime_nsec as u32,
        mode: st.st_mode,
        nlink: st.st_nlink as u32,
        uid: st.st_uid,
        gid: st.st_gid,
        rdev: st.st_rdev as u32,
        blksize: st.st_blksize as u32,
        padding: 0,
    }
}

fn new_zero_attr() -> (r: FuseAttr)
    ensures
        r == zero_attr(),
{
    FuseAttr {
        ino: 0,
        size: 0,
        blocks: 0,
        atime: 0,
        mtime: 0,
        ctime: 0,
        atimensec: 0,
        mtimensec: 0,
        ctimensec: 0,
        mode: 0,
        nlink: 0,
        uid: 0,
        gid: 0,
        rdev: 0,
        blksize: 0,
        padding: 0,
    }
}

/// Attributes of a file.
#[derive(Clone, Copy, Debug, PartialEq, Eq, Structural)]
pub struct Attr(pub FuseAttr);

impl Default for Attr {
    fn default() -> (r: Self)
        ensures
            r.0 == zero_attr(),
    {
        Attr(new_zero_attr())
    }
}

impl From<FileStat> for Attr {
    fn from(st: FileStat) -> (r: Self)
        ensures
            r.0 == attr_of_stat(st),
    {
        Attr(
            FuseAttr {
                ino: st.st_ino,
                size: st.st_size as u64,
                blocks: st.st_blocks as u64,
                atime: st.st_atime as u64,
                mtime: st.st_mtime as u64,
                ctime: st.st_ctime as u64,
                atimensec: st.st_atime_nsec as u32,
                mtimensec: st.st_mtime_nsec as u32,
                ctimensec: st.st_ctime_nsec as u32,
                mode: st.st_mode,
                nlink: st.st_nlink as u32,
                uid: st.st_uid,
                gid: st.st_gid,
                rdev: st.st_rdev as u32,
                blksize: st.st_blksize as u32,
                padding: 0,
            },
        )
    }
}

impl vstd::std_specs::convert::FromSpecImpl<FileStat> for Attr {
    open spec fn obeys_from_spec() -> bool {
        true
    }

    open spec fn from_spec(st: FileStat) -> Self {
        Attr(attr_of_stat(st))
    }
}

/// Reply to a request for the attributes of a file.
#[derive(Clone, Copy, Debug, PartialEq, Eq, Structural)]
pub struct AttrOut(pub FuseAttrOut);

impl Default for AttrOut {
    fn default() -> (r: Self)
        ensures
            r.0 == (FuseAttrOut { attr_valid: 0, attr_valid_nsec: 0, dummy: 0, attr: zero_attr() }),
    {
        AttrOut(FuseAttrOut { attr_valid: 0, attr_valid_nsec: 0, dummy: 0, attr: new_zero_attr() })
    }
}

impl From<Attr> for AttrOut {
    fn from(attr: Attr) -> (r: Self)
        ensures
            r.0 == (FuseAttrOut { attr_valid: 0, attr_valid_nsec: 0, dummy: 0, attr: attr.0 }),
    {
        let mut attr_out = Self::default();
        attr_out.set_attr(attr);
        attr_out
    }
}

impl vstd::std_specs::convert::FromSpecImpl<Attr> for AttrOut {
    open spec fn obeys_from_spec() -> bool {
        true
    }

    open spec fn from_spec(attr: Attr) -> Self {
        AttrOut(FuseAttrOut { attr_valid: 0, attr_valid_nsec: 0, dummy: 0, attr: attr.0 })
    }
}

impl AttrOut {
    /// Sets the attributes to report.
    pub fn set_attr(&mut self, attr: Attr)
        ensures
            final(self).0 == (FuseAttrOut { attr: attr.0, ..old(self).0 }),
    {
        self.0.attr = attr.0;
    }

    /// Sets how long the kernel may cache the attributes.
    pub fn set_attr_valid(&mut self, sec: u64, nsec: u32)
        ensures
            final(self).0 == (FuseAttrOut { attr_valid: sec, attr_valid_nsec: nsec, ..old(self).0 }),
    {
        self.0.attr_valid = sec;
        self.0.attr_valid_nsec = nsec;
    }
}

/// Reply to a request that looks up or creates a directory entry.
#[derive(Clone, Copy, Debug, PartialEq, Eq, Structural)]
pub struct EntryOut(pub FuseEntryOut);

/// The entry record with every field zero.
pub open spec fn zero_entry() -> FuseEntryOut {
    FuseEntryOut {
        nodeid: 0,
        generation: 0,
        entry_valid: 0,
        attr_valid: 0,
        entry_valid_nsec: 0,
        attr_valid_nsec: 0,
        attr: zero_attr(),
    }
}

impl Default for EntryOut {
    fn default() -> (r: Self)
        ensures
            r.0 == zero_entry(),
    {
        EntryOut(
            FuseEntryOut {
                nodeid: 0,
                generation: 0,
                entry_valid: 0,
                attr_valid: 0,
                entry_valid_nsec: 0,
                attr_valid_nsec: 0,
                attr: new_zero_attr(),
            },
        )
    }
}

impl EntryOut {
    /// Sets the inode number of the entry.
    pub fn set_nodeid(&mut self, nodeid: u64)
        ensures
            final(self).0 == (FuseEntryOut { nodeid, ..old(self).0 }),
    {
        self.0.nodeid = nodeid;
    }

    /// Sets the generation number of the inode.
    pub fn set_generation(&mut self, generation: u64)
        ensures
            final(self).0 == (FuseEntryOut { generation, ..old(self).0 }),
    {
        self.0.generation = generation;
    }

    /// Sets how long the kernel may cache the name of the entry.
    pub fn set_entry_valid(&mut self, sec: u64, nsec: u32)
        ensures
            final(self).0 == (FuseEntryOut { entry_valid: sec, entry_valid_nsec: nsec, ..old(self).0 }),
    {
        self.0.entry_valid = sec;
        self.0.entry_valid_nsec = nsec;
    }

    /// Sets how long the kernel may cache the attributes of the entry.
    pub fn set_attr_valid(&mut self, sec: u64, nsec: u32)
        ensures
            final(self).0 == (FuseEntryOut { attr_valid: sec, attr_valid_nsec: nsec, ..old(self).0 }),
    {
        self.0.attr_valid = sec;
        self.0.attr_valid_nsec = nsec;
    }

    /// Sets the attributes of the entry.
    pub fn set_attr(&mut self, attr: Attr)
        ensures
            final(self).0 == (FuseEntryOut { attr: attr.0, ..old(self).0 }),
    {
        self.0.attr = attr.0;
    }
}

/// Reply to the kernel's `INIT` request.
#[derive(Clone, Copy, Debug, PartialEq, Eq, Structural)]
pub struct InitOut(pub FuseInitOut);

impl Default for InitOut {
    fn default() -> (r: Self)
        ensures
            r.0 == (FuseInitOut {
                major: FUSE_KERNEL_VERSION,
                minor: FUSE_KERNEL_MINOR_VERSION,
                max_readahead: 0,
                flags: 0,
                max_background: 0,
                congestion_threshold: 0,
                max_write: 0,
                time_gran: 0,
                max_pages: 0,
                padding: 0,
            }),
    {
        InitOut(
            FuseInitOut {
                major: FUSE_KERNEL_VERSION,
                minor: FUSE_KERNEL_MINOR_VERSION,
                max_readahead: 0,
                flags: 0,
                max_background: 0,
                congestion_threshold: 0,
                max_write: 0,
                time_gran: 0,
                max_pages: 0,
                padding: 0,
            },
        )
    }
}

impl InitOut {
    /// Sets the capability flags granted to the kernel.
    pub fn set_flags(&mut self, flags: CapFlags)
        ensures
            final(self).0 == (FuseInitOut { flags: flags.bits, ..old(self).0 }),
    {
        self.0.flags = flags.bits();
    }

    pub fn max_readahead(&self) -> (r: u32)
        ensures
            r == self.0.max_readahead,
    {
        self.0.max_readahead
    }

    pub fn set_max_readahead(&mut self, max_readahead: u32)
        ensures
            final(self).0 == (FuseInitOut { max_readahead, ..old(self).0 }),
    {
        self.0.max_readahead = max_readahead;
    }

    pub fn max_write(&self) -> (r: u32)
        ensures
            r == self.0.max_write,
    {
        self.0.max_write
    }

    pub fn set_max_write(&mut self, max_write: u32)
        ensures
            final(self).0 == (FuseInitOut { max_write, ..old(self).0 }),
    {
        self.0.max_write = max_write;
    }
}

/// Reply to a request that opens a file or a directory.
#[derive(Clone, Copy, Debug, PartialEq, Eq, Structural)]
pub struct OpenOut(pub FuseOpenOut);

impl Default for OpenOut {
    fn default() -> (r: Self)
        ensures
            r.0 == (FuseOpenOut { fh: 0, open_flags: 0, padding: 0 }),
    {
        OpenOut(FuseOpenOut { fh: 0, open_flags: 0, padding: 0 })
    }
}

/// A value that can follow a reply header on the wire.
pub trait Payload {
    /// The bytes of this value on the wire.
    spec fn payload(&self) -> Seq<u8>;

    fn to_bytes(&self) -> (r: Vec<u8>)
        ensures
            r@ == self.payload(),
    ;
}

impl Payload for [u8] {
    open spec fn payload(&self) -> Seq<u8> {
        self@
    }

    fn to_bytes(&self) -> (r: Vec<u8>) {
        let mut r: Vec<u8> = Vec::with_capacity(self.len());
        let mut i: usize = 0;
        while i < self.len()
            invariant
                i <= self@.len(),
                r@ == self@.subrange(0, i as int),
            decreases self@.len() - i,
        {
            r.push(self[i]);
            i = i + 1;
            assert(r@ =~= self@.subrange(0, i as int));
        }
        assert(r@ =~= self@);
        r
    }
}

impl Payload for OutHeader {
    open spec fn payload(&self) -> Seq<u8> {
        self.spec_bytes()
    }

    fn to_bytes(&self) -> (r: Vec<u8>) {
        OutHeader::to_bytes(self)
    }
}

impl Payload for InitOut {
    open spec fn payload(&self) -> Seq<u8> {
        self.0.spec_bytes()
    }

    fn to_bytes(&self) -> (r: Vec<u8>) {
        self.0.to_bytes()
    }
}

impl Payload for OpenOut {
    open spec fn payload(&self) -> Seq<u8> {
        self.0.spec_bytes()
    }

    fn to_bytes(&self) -> (r: Vec<u8>) {
        self.0.to_bytes()
    }
}

impl Payload for AttrOut {
    open spec fn payload(&self) -> Seq<u8> {
        self.0.spec_bytes()
    }

    fn to_bytes(&self) -> (r: Vec<u8>) {
        self.0.to_bytes()
    }
}

impl Payload for EntryOut {
    open spec fn payload(&self) -> Seq<u8> {
        self.0.spec_bytes()
    }

    fn to_bytes(&self) -> (r: Vec<u8>) {
        self.0.to_bytes()
    }
}

/// The reply frame to the request `unique`: a header whose `len` counts the whole
/// frame and whose `error` is the negated errno, then `data`.
pub open spec fn reply_frame(unique: u64, error: i32, data: Seq<u8>) -> Seq<u8> {
    OutHeader { len: (OUT_HEADER_SIZE + data.len()) as u32, error: -error as i32, unique }.spec_bytes()
        + data
}

/// A reply frame can be written: its length fits the `len` field, and the errno can be negated.
pub open spec fn reply_fits(error: i32, data_len: nat) -> bool {
    OUT_HEADER_SIZE + data_len <= u32::MAX && error != i32::MIN
}

/// The payload that a reply with errno `error` carries: `data` on success, nothing on error.
pub open spec fn payload_for(error: i32, data: Seq<u8>) -> Seq<u8> {
    if error == 0 {
        data
    } else {
        Seq::empty()
    }
}

/// The reply frame to the request of `in_header`, carrying the errno `error`
/// (0 for success) and, on success only, the payload `data`: an error reply is a bare
/// header, whatever `data` holds.
pub fn reply_payload<T: Payload + ?Sized>(in_header: &InHeader, error: i32, data: &T) -> (r: Vec<u8>)
    requires
        reply_fits(error, payload_for(error, data.payload()).len()),
    ensures
        r@ == reply_frame(in_header.unique, error, payload_for(error, data.payload())),
{
    let data = if error == 0 {
        data.to_bytes()
    } else {
        let empty: Vec<u8> = Vec::new();
        assert(empty@ =~= payload_for(error, data.payload()));
        empty
    };
    let out_header = OutHeader {
        len: (OUT_HEADER_SIZE + data.len()) as u32,
        error: -error,
        unique: in_header.unique,
    };
    let mut frame = OutHeader::to_bytes(&out_header);
    let mut i: usize = 0;
    while i < data.len()
        invariant
            i <= data@.len(),
            frame@ == out_header.spec_bytes() + data@.subrange(0, i as int),
        decreases data@.len() - i,
    {
        frame.push(data[i]);
        i = i + 1;
        assert(frame@ =~= out_header.spec_bytes() + data@.subrange(0, i as int));
    }
    assert(data@.subrange(0, data@.len() as int) =~= data@);
    frame
}

/// The reply frame that reports success with no payload.
pub fn reply_none(in_header: &InHeader) -> (r: Vec<u8>)
    ensures
        r@ == reply_frame(in_header.unique, 0, Seq::empty()),
        r@.len() == OUT_HEADER_SIZE,
{
    let empty: [u8; 0] = [];
    let r = reply_payload(in_header, 0, empty.as_slice());
    assert(empty@ =~= Seq::<u8>::empty());
    proof { OutHeader { len: 16, error: 0, unique: in_header.unique }.lemma_round_trip(); }
    r
}

/// The reply frame that reports the errno `error`; it carries no payload.
pub fn reply_err(in_header: &InHeader, error: i32) -> (r: Vec<u8>)
    requires
        error != i32::MIN,
    ensures
        r@ == reply_frame(in_header.unique, error, Seq::empty()),
        r@.len() == OUT_HEADER_SIZE,
{
    let empty: [u8; 0] = [];
    let r = reply_payload(in_header, error, empty.as_slice());
    assert(empty@ =~= Seq::<u8>::empty());
    proof { OutHeader { len: 16, error: -error as i32, unique: in_header.unique }.lemma_round_trip(); }
    r
}

} // verus!

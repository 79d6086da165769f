use polyfuse::abi::{
    FuseAttr, FuseEntryOut, FuseInitOut, InHeader, NotifyInvalInodeOut, OutHeader,
    FUSE_NOTIFY_DELETE, FUSE_NOTIFY_INVAL_ENTRY, FUSE_NOTIFY_INVAL_INODE, FUSE_NOTIFY_POLL,
    FUSE_NOTIFY_STORE, OUT_HEADER_SIZE, SUPPORTED_CAP_FLAGS,
};
use polyfuse::init::CapFlags;
use polyfuse::notify::{
    notify_delete, notify_inval_entry, notify_inval_inode, notify_poll_wakeup, notify_store,
};
use polyfuse::reply::{
    reply_err, reply_none, reply_payload, Attr, AttrOut, EntryOut, FileStat, InitOut, OpenOut,
    Payload,
};

fn header(unique: u64) -> InHeader {
    InHeader { len: 40, opcode: 1, unique, nodeid: 1, uid: 0, gid: 0, pid: 0, padding: 0 }
}

fn stat() -> FileStat {
    FileStat {
        st_ino: 9,
        st_mode: 0o40755,
        st_nlink: 2,
        st_uid: 1,
        st_gid: 2,
        st_rdev: 3,
        st_size: 4096,
        st_blksize: 512,
        st_blocks: 8,
        st_atime: 100,
        st_atime_nsec: 1,
        st_mtime: 200,
        st_mtime_nsec: 2,
        st_ctime: 300,
        st_ctime_nsec: 3,
    }
}

#[test]
fn in_header_is_little_endian() {
    let h = InHeader { len: 0x01020304, opcode: 26, unique: 0x1122334455667788, nodeid: 1, uid: 2, gid: 3, pid: 4, padding: 0 };
    let b = h.to_bytes();
    assert_eq!(b.len(), 40);
    assert_eq!(&b[0..4], &[4, 3, 2, 1]);
    assert_eq!(&b[4..8], &[26, 0, 0, 0]);
    assert_eq!(&b[8..16], &[0x88, 0x77, 0x66, 0x55, 0x44, 0x33, 0x22, 0x11]);
    assert_eq!(InHeader::parse_at(&b, 0), h);
}

#[test]
fn wire_structures_round_trip() {
    let out = OutHeader { len: 16, error: -2, unique: u64::MAX };
    assert_eq!(OutHeader::parse_at(&out.to_bytes(), 0), out);
    let attr = Attr::from(stat()).0;
    assert_eq!(FuseAttr::parse_at(&attr.to_bytes(), 0), attr);
    let mut entry = EntryOut::default();
    entry.set_nodeid(5);
    entry.set_attr(Attr::from(stat()));
    assert_eq!(FuseEntryOut::parse_at(&entry.0.to_bytes(), 0), entry.0);
    let inval = NotifyInvalInodeOut { ino: 1, off: -1, len: i64::MIN };
    assert_eq!(NotifyInvalInodeOut::parse_at(&inval.to_bytes(), 0), inval);
    let mut init = InitOut::default();
    init.set_max_write(65536);
    let mut framed = vec![0xaa, 0xbb];
    framed.extend(init.0.to_bytes());
    assert_eq!(FuseInitOut::parse_at(&framed, 2), init.0);
}

#[test]
fn wire_sizes() {
    assert_eq!(AttrOut::default().to_bytes().len(), 104);
    assert_eq!(EntryOut::default().to_bytes().len(), 128);
    assert_eq!(InitOut::default().to_bytes().len(), 64);
    assert_eq!(OpenOut::default().to_bytes().len(), 16);
    assert!(InitOut::default().to_bytes()[32..].iter().all(|b| *b == 0));
}

#[test]
fn attr_from_stat() {
    let attr = Attr::from(stat()).0;
    assert_eq!(attr.ino, 9);
    assert_eq!(attr.mode, 0o40755);
    assert_eq!(attr.nlink, 2);
    assert_eq!(attr.uid, 1);
    assert_eq!(attr.gid, 2);
    assert_eq!(attr.rdev, 3);
    assert_eq!(attr.size, 4096);
    assert_eq!(attr.blksize, 512);
    assert_eq!(attr.blocks, 8);
    assert_eq!((attr.atime, attr.mtime, attr.ctime), (100, 200, 300));
    assert_eq!((attr.atimensec, attr.mtimensec, attr.ctimensec), (1, 2, 3));
    assert_eq!(Attr::default().0.ino, 0);
}

#[test]
fn reply_builders() {
    let mut attr_out = AttrOut::from(Attr::from(stat()));
    attr_out.set_attr_valid(5, 6);
    assert_eq!(attr_out.0.attr_valid, 5);
    assert_eq!(attr_out.0.attr_valid_nsec, 6);
    assert_eq!(attr_out.0.attr.ino, 9);
    let mut entry = EntryOut::default();
    entry.set_generation(3);
    entry.set_entry_valid(7, 8);
    entry.set_attr_valid(9, 10);
    assert_eq!((entry.0.generation, entry.0.entry_valid, entry.0.entry_valid_nsec), (3, 7, 8));
    assert_eq!((entry.0.attr_valid, entry.0.attr_valid_nsec), (9, 10));
    let mut init = InitOut::default();
    assert_eq!((init.0.major, init.0.minor), (7, 31));
    init.set_max_readahead(4096);
    init.set_max_write(8192);
    init.set_flags(CapFlags::from_bits_truncate(0xffff_ffff));
    assert_eq!(init.max_readahead(), 4096);
    assert_eq!(init.max_write(), 8192);
    assert_eq!(init.0.flags, SUPPORTED_CAP_FLAGS);
    assert_eq!(CapFlags::from_bits_truncate(0x4).bits(), 0);
}

#[test]
fn reply_frames_count_their_bytes() {
    let payload = OpenOut::default();
    let frame = reply_payload(&header(8), 0, &payload);
    assert_eq!(frame.len(), 32);
    let out = OutHeader::parse_at(&frame, 0);
    assert_eq!((out.len, out.error, out.unique), (32, 0, 8));
    let none = reply_none(&header(9));
    assert_eq!(OutHeader::parse_at(&none, 0), OutHeader { len: 16, error: 0, unique: 9 });
    let err = reply_err(&header(10), 2);
    assert_eq!(OutHeader::parse_at(&err, 0), OutHeader { len: 16, error: -2, unique: 10 });
    let refused = reply_payload(&header(12), 5, &[7u8][..]);
    assert_eq!(refused.len(), OUT_HEADER_SIZE);
    assert_eq!(OutHeader::parse_at(&refused, 0), OutHeader { len: 16, error: -5, unique: 12 });
    let raw: &[u8] = &[1, 2, 3];
    let frame = reply_payload(&header(11), 0, raw);
    assert_eq!(&frame[16..], &[1, 2, 3]);
    assert_eq!(OutHeader::parse_at(&frame, 0).len, 19);
}

#[test]
fn notification_frames() {
    let f = notify_inval_inode(3, 0, -1);
    let out = OutHeader::parse_at(&f, 0);
    assert_eq!((out.len as usize, out.error, out.unique), (f.len(), FUSE_NOTIFY_INVAL_INODE, 0));
    assert_eq!(f.len(), OUT_HEADER_SIZE + 24);

    let f = notify_inval_entry(1, b"abc");
    let out = OutHeader::parse_at(&f, 0);
    assert_eq!((out.len as usize, out.error), (f.len(), FUSE_NOTIFY_INVAL_ENTRY));
    assert_eq!(&f[OUT_HEADER_SIZE + 8..OUT_HEADER_SIZE + 12], &[3, 0, 0, 0]);
    assert_eq!(&f[OUT_HEADER_SIZE + 16..], b"abc\0");

    let long = vec![b'n'; 70000];
    let f = notify_inval_entry(1, &long);
    assert_eq!(OutHeader::parse_at(&f, 0).len as usize, f.len());
    assert_eq!(f.len(), OUT_HEADER_SIZE + 16 + 70000 + 1);

    let f = notify_delete(1, 2, b"xy");
    assert_eq!(OutHeader::parse_at(&f, 0).error, FUSE_NOTIFY_DELETE);
    assert_eq!(&f[OUT_HEADER_SIZE + 24..], b"xy\0");

    let f = notify_store(4, 10, b"data");
    assert_eq!(OutHeader::parse_at(&f, 0).error, FUSE_NOTIFY_STORE);
    assert_eq!(OutHeader::parse_at(&f, 0).len as usize, f.len());
    assert_eq!(&f[OUT_HEADER_SIZE + 24..], b"data");

    let f = notify_poll_wakeup(77);
    assert_eq!(OutHeader::parse_at(&f, 0).error, FUSE_NOTIFY_POLL);
    assert_eq!(&f[OUT_HEADER_SIZE..], &77u64.to_le_bytes());
}

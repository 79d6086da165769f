use polyfuse::abi::{
    InHeader, MkdirIn, ReadIn, WriteIn, FUSE_FSYNC, FUSE_LOOKUP, FUSE_MKDIR, FUSE_READ,
    FUSE_STATFS, FUSE_WRITE, IN_HEADER_SIZE,
};
use polyfuse::op::{decode, Operation};

fn frame(opcode: u32, body: &[u8]) -> Vec<u8> {
    let header = InHeader {
        len: (IN_HEADER_SIZE + body.len()) as u32,
        opcode,
        unique: 2,
        nodeid: 1,
        uid: 0,
        gid: 0,
        pid: 0,
        padding: 0,
    };
    let mut f = header.to_bytes();
    f.extend_from_slice(body);
    f
}

#[test]
fn decode_lookup_name() {
    let f = frame(FUSE_LOOKUP, b"file.txt\0");
    match decode(&f) {
        Some(Operation::Lookup { name_end }) => assert_eq!(&f[IN_HEADER_SIZE..name_end], b"file.txt"),
        other => panic!("unexpected {:?}", other),
    }
    assert_eq!(decode(&frame(FUSE_LOOKUP, b"no-nul")), None);
    assert_eq!(decode(&f[..20]), None);
}

#[test]
fn decode_mkdir() {
    let mut body = MkdirIn { mode: 0o755, umask: 0o22 }.to_bytes();
    body.extend_from_slice(b"dir\0");
    let f = frame(FUSE_MKDIR, &body);
    match decode(&f) {
        Some(Operation::Mkdir { arg, name_end }) => {
            assert_eq!(arg, MkdirIn { mode: 0o755, umask: 0o22 });
            assert_eq!(&f[IN_HEADER_SIZE + 8..name_end], b"dir");
        }
        other => panic!("unexpected {:?}", other),
    }
}

#[test]
fn decode_read_and_write() {
    let read = ReadIn { fh: 3, offset: 4096, size: 100, read_flags: 0, lock_owner: 0, flags: 0, padding: 0 };
    assert_eq!(decode(&frame(FUSE_READ, &read.to_bytes())), Some(Operation::Read(read)));
    assert_eq!(decode(&frame(FUSE_READ, &[0u8; 8])), None);

    let write = WriteIn { fh: 3, offset: 0, size: 5, write_flags: 0, lock_owner: 0, flags: 0, padding: 0 };
    let mut body = write.to_bytes();
    body.extend_from_slice(b"hello");
    let f = frame(FUSE_WRITE, &body);
    match decode(&f) {
        Some(Operation::Write { arg, data_start, data_end }) => {
            assert_eq!(arg, write);
            assert_eq!(&f[data_start..data_end], b"hello");
        }
        other => panic!("unexpected {:?}", other),
    }
    assert_eq!(decode(&frame(FUSE_WRITE, &body[..42])), None);
}

#[test]
fn decode_other_opcodes() {
    assert_eq!(decode(&frame(FUSE_STATFS, &[])), Some(Operation::Statfs));
    assert_eq!(decode(&frame(FUSE_FSYNC, &[0u8; 16])), Some(Operation::Other { opcode: FUSE_FSYNC }));
}

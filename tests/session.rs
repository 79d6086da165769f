use polyfuse::abi::{
    BatchForgetIn, ForgetIn, ForgetOne, FuseInitOut, InHeader, InitIn, InterruptIn,
    NotifyRetrieveIn, OutHeader, FUSE_ASYNC_READ, FUSE_BATCH_FORGET, FUSE_BIG_WRITES,
    FUSE_DESTROY, FUSE_FORGET, FUSE_GETATTR, FUSE_INIT, FUSE_INTERRUPT, FUSE_LOOKUP,
    FUSE_NOTIFY_REPLY, FUSE_READ, IN_HEADER_SIZE, OUT_HEADER_SIZE,
};
use polyfuse::init::{InitError, SessionInitializer};
use polyfuse::reply::{Attr, EntryOut, FileStat, Payload};
use polyfuse::server::{next_step, receive_step, ReceiveStep};
use polyfuse::session::{Dispatch, ProtocolError, Session};

fn request(opcode: u32, unique: u64, nodeid: u64, body: &[u8]) -> Vec<u8> {
    let header = InHeader {
        len: (IN_HEADER_SIZE + body.len()) as u32,
        opcode,
        unique,
        nodeid,
        uid: 1000,
        gid: 1000,
        pid: 42,
        padding: 0,
    };
    let mut frame = header.to_bytes();
    frame.extend_from_slice(body);
    frame
}

fn init_frame(unique: u64, major: u32, minor: u32, max_readahead: u32, flags: u32) -> Vec<u8> {
    let init_in = InitIn { major, minor, max_readahead, flags };
    request(FUSE_INIT, unique, 0, &init_in.to_bytes())
}

fn out_header(frame: &[u8]) -> OutHeader {
    OutHeader::parse_at(frame, 0)
}

fn started_session() -> Session {
    let outcome = SessionInitializer::default().init(&init_frame(1, 7, 31, 131072, FUSE_ASYNC_READ));
    match outcome.result {
        Ok(session) => session,
        Err(e) => panic!("init failed: {:?}", e),
    }
}

fn sample_stat() -> FileStat {
    FileStat {
        st_ino: 42,
        st_mode: 0o100644,
        st_nlink: 1,
        st_uid: 1000,
        st_gid: 100,
        st_rdev: 0,
        st_size: 1234,
        st_blksize: 4096,
        st_blocks: 8,
        st_atime: 10,
        st_atime_nsec: 11,
        st_mtime: 20,
        st_mtime_nsec: 21,
        st_ctime: 30,
        st_ctime_nsec: 31,
    }
}

#[test]
fn init_negotiation() {
    let init = SessionInitializer::default();
    let frame = init_frame(1, 7, 31, 128 * 1024, FUSE_ASYNC_READ | FUSE_BIG_WRITES);
    let outcome = init.init(&frame);
    let reply = outcome.reply.expect("a reply to INIT");
    let header = out_header(&reply);
    assert_eq!(header.len as usize, reply.len());
    assert_eq!(header.len as usize, OUT_HEADER_SIZE + 64);
    assert_eq!(header.error, 0);
    assert_eq!(header.unique, 1);
    let init_out = FuseInitOut::parse_at(&reply, OUT_HEADER_SIZE);
    assert_eq!(init_out.major, 7);
    assert_eq!(init_out.minor, 31);
    assert_eq!(init_out.flags, FUSE_ASYNC_READ | FUSE_BIG_WRITES);
    assert_eq!(init_out.max_readahead, 128 * 1024);
    assert_eq!(init_out.max_write, init.max_write);
    let session = outcome.result.expect("a session");
    assert_eq!(session.info().max_write, 131072);
    assert_eq!(session.info().proto_minor, 31);
    assert!(!session.destroyed());
}

#[test]
fn init_with_older_kernel_keeps_its_minor() {
    let outcome = SessionInitializer::default().init(&init_frame(9, 7, 26, 65536, 0));
    let reply = outcome.reply.unwrap();
    let init_out = FuseInitOut::parse_at(&reply, OUT_HEADER_SIZE);
    assert_eq!(init_out.minor, 26);
    assert_eq!(init_out.flags, 0);
    assert_eq!(init_out.max_readahead, 65536);
    assert_eq!(outcome.result.unwrap().info().proto_minor, 26);
}

#[test]
fn init_refuses_another_opcode() {
    let frame = request(FUSE_LOOKUP, 7, 1, b"x\0");
    let outcome = SessionInitializer::default().init(&frame);
    assert!(matches!(outcome.result, Err(InitError::UnexpectedOpcode)));
    let reply = outcome.reply.unwrap();
    assert_eq!(reply.len(), OUT_HEADER_SIZE);
    let header = out_header(&reply);
    assert_eq!(header.error, -libc::EPROTO);
    assert_eq!(header.unique, 7);
}

#[test]
fn init_refuses_another_major() {
    let outcome = SessionInitializer::default().init(&init_frame(3, 8, 0, 0, 0));
    assert!(matches!(outcome.result, Err(InitError::UnsupportedVersion)));
    assert_eq!(out_header(&outcome.reply.unwrap()).error, -libc::EPROTO);
}

#[test]
fn init_refuses_short_frames() {
    let outcome = SessionInitializer::default().init(&[0u8; 12]);
    assert!(outcome.reply.is_none());
    assert!(matches!(outcome.result, Err(InitError::Malformed)));
    let outcome = SessionInitializer::default().init(&request(FUSE_INIT, 2, 0, &[0u8; 8]));
    assert!(matches!(outcome.result, Err(InitError::Malformed)));
    assert_eq!(out_header(&outcome.reply.unwrap()).error, -libc::EPROTO);
}

#[test]
fn init_clamps_max_write() {
    let mut init = SessionInitializer::default();
    init.max_write = 10000;
    let session = init.init(&init_frame(1, 7, 31, 0, 0)).result.unwrap();
    assert_eq!(session.info().max_write, 8192);
    assert_eq!(session.buffer_size(), 4096 + 8192);
    init.max_write = 100;
    assert_eq!(init.init_buf_size(), 4096 + 4096);
    init.max_write = u32::MAX;
    assert_eq!(init.init_buf_size(), 4096 + 1048576);
}

#[test]
fn lookup_success() {
    let mut session = started_session();
    let frame = request(FUSE_LOOKUP, 2, 1, b"file.txt\0");
    let header = match session.process(&frame) {
        Ok(Dispatch::Request { header }) => header,
        _ => panic!("lookup is handed to the handler"),
    };
    assert_eq!(header.unique, 2);
    assert_eq!(header.nodeid, 1);
    assert_eq!(&frame[IN_HEADER_SIZE..header.len as usize], b"file.txt\0");
    assert!(session.is_in_flight(2));

    let mut entry = EntryOut::default();
    entry.set_nodeid(42);
    entry.set_generation(0);
    entry.set_attr(Attr::from(sample_stat()));
    let payload = entry.to_bytes();
    assert_eq!(payload.len(), 128);
    let reply = session.reply(2, 0, &payload).expect("a reply frame");
    let out = out_header(&reply);
    assert_eq!(out.len as usize, OUT_HEADER_SIZE + 128);
    assert_eq!(out.len as usize, reply.len());
    assert_eq!(out.error, 0);
    assert_eq!(out.unique, 2);
    assert_eq!(&reply[OUT_HEADER_SIZE..], payload.as_slice());
    assert!(!session.is_in_flight(2));
}

#[test]
fn lookup_enoent() {
    let mut session = started_session();
    let frame = request(FUSE_LOOKUP, 3, 1, b"file.txt\0");
    assert!(matches!(session.process(&frame), Ok(Dispatch::Request { .. })));
    let reply = session.reply(3, libc::ENOENT, &[1, 2, 3]).unwrap();
    assert_eq!(reply.len(), OUT_HEADER_SIZE);
    let out = out_header(&reply);
    assert_eq!(out.len as usize, OUT_HEADER_SIZE);
    assert_eq!(out.error, -libc::ENOENT);
    assert_eq!(out.unique, 3);
}

#[test]
fn forget_is_silent() {
    let mut session = started_session();
    let frame = request(FUSE_FORGET, 4, 7, &ForgetIn { nlookup: 3 }.to_bytes());
    match session.process(&frame) {
        Ok(Dispatch::Forget { nodeid, nlookup }) => {
            assert_eq!(nodeid, 7);
            assert_eq!(nlookup, 3);
        }
        _ => panic!("forget is taken by the session"),
    }
    assert!(!session.is_in_flight(4));
    assert!(session.reply(4, 0, &[]).is_none());
}

#[test]
fn batch_forget_lists_every_entry() {
    let mut session = started_session();
    let mut body = BatchForgetIn { count: 2, dummy: 0 }.to_bytes();
    body.extend(ForgetOne { nodeid: 5, nlookup: 1 }.to_bytes());
    body.extend(ForgetOne { nodeid: 6, nlookup: 9 }.to_bytes());
    match session.process(&request(FUSE_BATCH_FORGET, 8, 0, &body)) {
        Ok(Dispatch::BatchForget { forgets }) => {
            assert_eq!(forgets, vec![
                ForgetOne { nodeid: 5, nlookup: 1 },
                ForgetOne { nodeid: 6, nlookup: 9 },
            ]);
        }
        _ => panic!("batch forget is taken by the session"),
    }
    let short = &body[..8 + 16];
    assert!(matches!(
        session.process(&request(FUSE_BATCH_FORGET, 9, 0, short)),
        Err(ProtocolError::Malformed)
    ));
}

#[test]
fn interrupt_cancellation() {
    let mut session = started_session();
    let read = request(FUSE_READ, 5, 2, &[0u8; 40]);
    assert!(matches!(session.process(&read), Ok(Dispatch::Request { .. })));
    let interrupt = request(FUSE_INTERRUPT, 6, 0, &InterruptIn { unique: 5 }.to_bytes());
    match session.process(&interrupt) {
        Ok(Dispatch::Interrupt { unique, cancelled }) => {
            assert_eq!(unique, 5);
            assert!(cancelled);
        }
        _ => panic!("interrupt is taken by the session"),
    }
    assert!(!session.is_in_flight(6));
    let reply = session.reply(5, libc::EINTR, &[]).unwrap();
    let out = out_header(&reply);
    assert_eq!(out.error, -libc::EINTR);
    assert_eq!(out.unique, 5);
    assert_eq!(out.len as usize, OUT_HEADER_SIZE);
}

#[test]
fn interrupt_of_unknown_request_is_inert() {
    let mut session = started_session();
    let interrupt = request(FUSE_INTERRUPT, 6, 0, &InterruptIn { unique: 77 }.to_bytes());
    match session.process(&interrupt) {
        Ok(Dispatch::Interrupt { unique, cancelled }) => {
            assert_eq!(unique, 77);
            assert!(!cancelled);
        }
        _ => panic!("interrupt is taken by the session"),
    }
    assert!(!session.is_in_flight(77));
    assert!(!session.is_in_flight(6));
}

#[test]
fn clean_shutdown() {
    assert_eq!(next_step(&Err(Some(libc::ENODEV))), ReceiveStep::Shutdown);
    assert_eq!(next_step(&Err(Some(libc::EIO))), ReceiveStep::Fail);
    assert_eq!(next_step(&Err(None)), ReceiveStep::Fail);
    assert_eq!(next_step(&Ok(40)), ReceiveStep::Dispatch);
    assert_eq!(receive_step(&Err(Some(19)), 19), ReceiveStep::Shutdown);
    assert_eq!(receive_step(&Err(Some(5)), 19), ReceiveStep::Fail);
}

#[test]
fn destroy_ends_dispatch() {
    let mut session = started_session();
    assert!(matches!(session.process(&request(FUSE_GETATTR, 10, 1, &[0u8; 16])), Ok(Dispatch::Request { .. })));
    match session.process(&request(FUSE_DESTROY, 11, 0, &[])) {
        Ok(Dispatch::Reply(reply)) => {
            let out = out_header(&reply);
            assert_eq!(out.unique, 11);
            assert_eq!(out.error, 0);
            assert_eq!(out.len as usize, OUT_HEADER_SIZE);
        }
        _ => panic!("destroy is answered at once"),
    }
    assert!(session.destroyed());
    assert!(session.notify_retrieve(1, 0, 1).is_none());
    assert!(matches!(session.process(&request(FUSE_LOOKUP, 12, 1, b"a\0")), Ok(Dispatch::Closed)));
    assert!(!session.is_in_flight(12));
    assert!(session.reply(10, 0, &[]).is_some());
}

#[test]
fn duplicate_and_malformed_requests_are_refused() {
    let mut session = started_session();
    assert!(matches!(session.process(&request(FUSE_LOOKUP, 20, 1, b"a\0")), Ok(Dispatch::Request { .. })));
    assert!(matches!(
        session.process(&request(FUSE_LOOKUP, 20, 1, b"b\0")),
        Err(ProtocolError::DuplicateUnique)
    ));
    assert!(matches!(session.process(&[0u8; 10]), Err(ProtocolError::Malformed)));
    let mut lying = request(FUSE_LOOKUP, 21, 1, b"a\0");
    lying[0] = 200;
    assert!(matches!(session.process(&lying), Err(ProtocolError::Malformed)));
    assert!(matches!(session.process(&request(FUSE_FORGET, 22, 1, &[0u8; 4])), Err(ProtocolError::Malformed)));
}

#[test]
fn unanswered_request_gets_eio() {
    let mut session = started_session();
    assert!(matches!(session.process(&request(FUSE_LOOKUP, 30, 1, b"a\0")), Ok(Dispatch::Request { .. })));
    let reply = session.reply_unfulfilled(30).unwrap();
    assert_eq!(out_header(&reply).error, -libc::EIO);
    assert!(session.reply_unfulfilled(30).is_none());
}

#[test]
fn retrieve_answer_is_routed() {
    let mut session = started_session();
    let (unique, frame) = session.notify_retrieve(3, 100, 5).unwrap();
    assert_eq!(unique, 1);
    let out = out_header(&frame);
    assert_eq!(out.unique, 0);
    assert_eq!(out.error, polyfuse::abi::FUSE_NOTIFY_RETRIEVE);
    assert_eq!(out.len as usize, frame.len());
    let mut body = NotifyRetrieveIn { dummy1: 0, offset: 100, size: 5, dummy2: 0, dummy3: 0, dummy4: 0 }.to_bytes();
    body.extend_from_slice(b"hello");
    let answer = request(FUSE_NOTIFY_REPLY, unique, 3, &body);
    match session.process(&answer) {
        Ok(Dispatch::Retrieved { unique: u, offset, data_start, data_end }) => {
            assert_eq!(u, unique);
            assert_eq!(offset, 100);
            assert_eq!(&answer[data_start..data_end], b"hello");
        }
        _ => panic!("the answer goes to the retrieval"),
    }
    assert!(matches!(session.process(&answer), Ok(Dispatch::Unsolicited)));
    let (second, _) = session.notify_retrieve(3, 0, 1).unwrap();
    assert_eq!(second, 2);
    assert!(matches!(session.process(&request(FUSE_DESTROY, 40, 0, &[])), Ok(Dispatch::Reply(_))));
    let late = request(FUSE_NOTIFY_REPLY, second, 3, &body);
    assert!(matches!(session.process(&late), Ok(Dispatch::Closed)));
}

#[test]
fn handler_answers_are_completed() {
    let mut session = started_session();
    for unique in 50..54 {
        assert!(matches!(session.process(&request(FUSE_LOOKUP, unique, 1, b"a\0")), Ok(Dispatch::Request { .. })));
    }
    let ok = session.complete(50, Some(Ok(vec![9, 8]))).unwrap();
    assert_eq!(out_header(&ok), OutHeader { len: 18, error: 0, unique: 50 });
    assert_eq!(&ok[OUT_HEADER_SIZE..], &[9, 8]);
    let err = session.complete(51, Some(Err(libc::ENOENT))).unwrap();
    assert_eq!(out_header(&err), OutHeader { len: 16, error: -libc::ENOENT, unique: 51 });
    let bad = session.complete(52, Some(Err(-3))).unwrap();
    assert_eq!(out_header(&bad), OutHeader { len: 16, error: -libc::EIO, unique: 52 });
    let dropped = session.complete(53, None).unwrap();
    assert_eq!(out_header(&dropped), OutHeader { len: 16, error: -libc::EIO, unique: 53 });
    assert!(session.complete(53, Some(Ok(vec![]))).is_none());
}

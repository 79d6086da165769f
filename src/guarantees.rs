//! Protocol guarantees that hold across the session's operations.
use crate::abi::{
    OutHeader, FUSE_BATCH_FORGET, FUSE_DESTROY, FUSE_FORGET, FUSE_INTERRUPT, FUSE_NOTIFY_REPLY,
    INTERRUPT_IN_SIZE, IN_HEADER_SIZE, NOTIFY_RETRIEVE_IN_SIZE, NotifyRetrieveIn, OUT_HEADER_SIZE,
};
use crate::init::{body_len, body_prefix, header_of};
use crate::notify::notify_frame;
use crate::reply::{payload_for, reply_fits, reply_frame};
use crate::session::{
    answer_fits, answer_frame, interrupt_target, is_session_opcode, live, opcode_of,
    process_outcome, reply_outcome, retrieve_outcome, Dispatch, ProtocolError, Session,
};
use vstd::prelude::*;

verus! {

/// The header at the start of an outgoing frame.
pub open spec fn frame_header(out: Seq<u8>) -> OutHeader {
    OutHeader::spec_parse(out.subrange(0, OUT_HEADER_SIZE as int))
}

/// A reply frame's header names the request, carries the negated errno, and counts
/// every byte of the frame.
pub proof fn lemma_reply_frame_header(unique: u64, error: i32, data: Seq<u8>)
    requires
        reply_fits(error, data.len()),
    ensures
        frame_header(reply_frame(unique, error, data)).len == reply_frame(unique, error, data).len(),
        frame_header(reply_frame(unique, error, data)).unique == unique,
        frame_header(reply_frame(unique, error, data)).error == -error,
{
    let h = OutHeader { len: (OUT_HEADER_SIZE + data.len()) as u32, error: -error as i32, unique };
    h.lemma_round_trip();
    assert(reply_frame(unique, error, data).subrange(0, OUT_HEADER_SIZE as int) =~= h.spec_bytes());
}

/// A notification frame's header has `unique` 0, carries the notification code, and
/// counts every byte of the frame.
pub proof fn lemma_notify_frame_header(code: i32, body: Seq<u8>)
    requires
        OUT_HEADER_SIZE + body.len() <= u32::MAX,
    ensures
        frame_header(notify_frame(code, body)).len == notify_frame(code, body).len(),
        frame_header(notify_frame(code, body)).unique == 0,
        frame_header(notify_frame(code, body)).error == code,
{
    let h = OutHeader { len: (OUT_HEADER_SIZE + body.len()) as u32, error: code, unique: 0 };
    h.lemma_round_trip();
    assert(notify_frame(code, body).subrange(0, OUT_HEADER_SIZE as int) =~= h.spec_bytes());
}

/// An answer that reports an error is a bare header: it carries no payload, whatever
/// the handler offered.
pub proof fn lemma_error_answer_has_no_payload(unique: u64, error: i32, data: Seq<u8>)
    requires
        answer_fits(error, data.len()),
        error != 0,
    ensures
        answer_frame(unique, error, data).len() == OUT_HEADER_SIZE,
        frame_header(answer_frame(unique, error, data)).len == OUT_HEADER_SIZE,
        frame_header(answer_frame(unique, error, data)).error == -error,
        frame_header(answer_frame(unique, error, data)).unique == unique,
{
    lemma_reply_frame_header(unique, error, Seq::empty());
}

/// A reply frame that reports an error is a bare header, whatever payload was offered.
pub proof fn lemma_error_reply_has_no_payload(unique: u64, error: i32, data: Seq<u8>)
    requires
        error != 0,
        error != i32::MIN,
    ensures
        reply_frame(unique, error, payload_for(error, data)).len() == OUT_HEADER_SIZE,
        frame_header(reply_frame(unique, error, payload_for(error, data))).len == OUT_HEADER_SIZE,
        frame_header(reply_frame(unique, error, payload_for(error, data))).error == -error,
        frame_header(reply_frame(unique, error, payload_for(error, data))).unique == unique,
{
    lemma_reply_frame_header(unique, error, Seq::empty());
}

/// A request handed to the handler is answered exactly once: its first answer gives a
/// frame that names it and counts its own bytes, and any later answer gives nothing.
pub proof fn lemma_request_answered_once(
    s: Session,
    t: Session,
    frame: Seq<u8>,
    r: Result<Dispatch, ProtocolError>,
    e1: i32,
    d1: Seq<u8>,
    r1: Option<Vec<u8>>,
    t1: Session,
    e2: i32,
    d2: Seq<u8>,
    r2: Option<Vec<u8>>,
    t2: Session,
)
    requires
        process_outcome(s, t, frame, r),
        r is Ok,
        live(s, frame),
        !is_session_opcode(opcode_of(frame)),
        answer_fits(e1, d1.len()),
        reply_outcome(t, t1, header_of(frame).unique, e1, d1, r1),
        reply_outcome(t1, t2, header_of(frame).unique, e2, d2, r2),
    ensures
        r1 is Some,
        frame_header(r1->0@).unique == header_of(frame).unique,
        frame_header(r1->0@).len == r1->0@.len(),
        r2 is None,
{
    let u = header_of(frame).unique;
    if e1 == 0 {
        lemma_reply_frame_header(u, 0, d1);
    } else {
        lemma_reply_frame_header(u, e1, Seq::empty());
    }
}

/// `DESTROY` is answered at once, by an empty reply that names it.
pub proof fn lemma_destroy_answered(
    s: Session,
    t: Session,
    frame: Seq<u8>,
    r: Result<Dispatch, ProtocolError>,
)
    requires
        process_outcome(s, t, frame, r),
        live(s, frame),
        opcode_of(frame) == FUSE_DESTROY,
    ensures
        r matches Ok(Dispatch::Reply(out)) && frame_header(out@).unique == header_of(frame).unique
            && frame_header(out@).len == out@.len() && frame_header(out@).error == 0,
{
    lemma_reply_frame_header(header_of(frame).unique, 0, Seq::empty());
}

/// `FORGET`, `BATCH_FORGET` and `INTERRUPT` get no reply: nothing is sent back, nothing
/// goes to the handler, and the session is left as it was.
pub proof fn lemma_forget_and_interrupt_unanswered(
    s: Session,
    t: Session,
    frame: Seq<u8>,
    r: Result<Dispatch, ProtocolError>,
)
    requires
        process_outcome(s, t, frame, r),
        opcode_of(frame) == FUSE_FORGET || opcode_of(frame) == FUSE_BATCH_FORGET || opcode_of(
            frame,
        ) == FUSE_INTERRUPT,
    ensures
        t == s,
        !(r matches Ok(Dispatch::Reply(_))),
        !(r matches Ok(Dispatch::Request { .. })),
{
}

/// An `INTERRUPT` of a request that is not waiting for its answer changes nothing and
/// cancels nothing.
pub proof fn lemma_unknown_interrupt_inert(
    s: Session,
    t: Session,
    frame: Seq<u8>,
    r: Result<Dispatch, ProtocolError>,
)
    requires
        process_outcome(s, t, frame, r),
        live(s, frame),
        opcode_of(frame) == FUSE_INTERRUPT,
        body_len(frame) >= INTERRUPT_IN_SIZE,
        !s.in_flight().contains(interrupt_target(frame)),
    ensures
        t == s,
        r == Ok::<Dispatch, ProtocolError>(
            Dispatch::Interrupt { unique: interrupt_target(frame), cancelled: false },
        ),
{
}

/// Once the session has ended, no frame reaches the handler and the session stays ended;
/// answers to requests already handed out still go through.
pub proof fn lemma_no_dispatch_after_destroy(
    s: Session,
    t: Session,
    frame: Seq<u8>,
    r: Result<Dispatch, ProtocolError>,
)
    requires
        s.is_destroyed(),
        process_outcome(s, t, frame, r),
    ensures
        t == s,
        !(r matches Ok(Dispatch::Request { .. })),
{
}

/// `DESTROY` ends the session, and answering a request keeps it ended.
pub proof fn lemma_destroy_is_final(
    s: Session,
    t: Session,
    frame: Seq<u8>,
    r: Result<Dispatch, ProtocolError>,
    unique: u64,
    error: i32,
    data: Seq<u8>,
    r1: Option<Vec<u8>>,
    t1: Session,
)
    requires
        process_outcome(s, t, frame, r),
        live(s, frame),
        opcode_of(frame) == FUSE_DESTROY,
        reply_outcome(t, t1, unique, error, data, r1),
    ensures
        t.is_destroyed(),
        t1.is_destroyed(),
{
}

/// The kernel's answer to a retrieve notification is routed to that notification, with
/// exactly the bytes that the kernel sent after its fixed part.
pub proof fn lemma_retrieve_answer_routed(
    s: Session,
    t: Session,
    ino: u64,
    offset: u64,
    size: u32,
    n: Option<(u64, Vec<u8>)>,
    frame: Seq<u8>,
    r: Result<Dispatch, ProtocolError>,
    u: Session,
)
    requires
        retrieve_outcome(s, t, ino, offset, size, n),
        n is Some,
        live(t, frame),
        opcode_of(frame) == FUSE_NOTIFY_REPLY,
        header_of(frame).unique == (n->0).0,
        body_len(frame) >= NOTIFY_RETRIEVE_IN_SIZE,
        process_outcome(t, u, frame, r),
    ensures
        r == Ok::<Dispatch, ProtocolError>(
            Dispatch::Retrieved {
                unique: (n->0).0,
                offset: NotifyRetrieveIn::spec_parse(
                    body_prefix(frame, NOTIFY_RETRIEVE_IN_SIZE as int),
                ).offset,
                data_start: (IN_HEADER_SIZE + NOTIFY_RETRIEVE_IN_SIZE) as usize,
                data_end: header_of(frame).len as usize,
            },
        ),
        !u.retrievals().contains((n->0).0),
{
}

} // verus!

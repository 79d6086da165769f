//! A negotiated session: dispatch of request frames and bookkeeping of replies.
use crate::abi::{
    BatchForgetIn, ForgetIn, ForgetOne, InHeader, InterruptIn, NotifyRetrieveIn,
    BATCH_FORGET_IN_SIZE, FORGET_IN_SIZE, FORGET_ONE_SIZE, FUSE_BATCH_FORGET, FUSE_DESTROY,
    FUSE_FORGET, FUSE_INTERRUPT, FUSE_NOTIFY_REPLY, IN_HEADER_SIZE, INTERRUPT_IN_SIZE,
    NotifyRetrieveOut, FUSE_NOTIFY_RETRIEVE, NOTIFY_RETRIEVE_IN_SIZE, OUT_HEADER_SIZE,
};
use crate::errno::eio;
use crate::init::{
    body_len, body_prefix, frame_well_formed, header_of, ConnectionInfo, BUFFER_HEADER_SIZE, MAX_MAX_WRITE,
};
use crate::notify::{notification, notify_frame};
use crate::reply::{reply_err, reply_frame, reply_none, reply_payload};
use vstd::prelude::*;

verus! {

/// Why a request frame was refused.
#[derive(Clone, Copy, Debug, PartialEq, Eq, Structural)]
pub enum ProtocolError {
    /// The frame is shorter than its header or its opcode's body asks.
    Malformed,
    /// The request carries the `unique` of a request that has not been answered yet.
    DuplicateUnique,
}

/// What to do with one request frame.
pub enum Dispatch {
    /// Hand the request to the handler; its body is the frame from the end of the
    /// header up to `header.len`. It is answered later through [`Session::reply`].
    Request { header: InHeader },
    /// The kernel dropped `nlookup` references to `nodeid`; no reply is sent.
    Forget { nodeid: u64, nlookup: u64 },
    /// The kernel dropped the references listed; no reply is sent.
    BatchForget { forgets: Vec<ForgetOne> },
    /// The kernel asks to cancel request `unique`; `cancelled` tells whether that request
    /// is still unanswered. No reply is sent.
    Interrupt { unique: u64, cancelled: bool },
    /// The kernel answered the retrieve notification `unique`; the data are the frame's
    /// bytes from `data_start` to `data_end`.
    Retrieved { unique: u64, offset: u64, data_start: usize, data_end: usize },
    /// A retrieve answer that no notification waits for; it is dropped.
    Unsolicited,
    /// Send this frame back at once.
    Reply(Vec<u8>),
    /// The session has ended; the frame is dropped.
    Closed,
}

/// A session with the kernel after a successful `INIT`.
pub struct Session {
    info: ConnectionInfo,
    in_flight: Vec<u64>,
    retrievals: Vec<u64>,
    next_notify_unique: u64,
    destroyed: bool,
}

fn vec_contains(v: &Vec<u64>, x: u64) -> (r: bool)
    ensures
        r == v@.contains(x),
{
    let mut i: usize = 0;
    while i < v.len()
        invariant
            i <= v@.len(),
            forall|j: int| 0 <= j < i ==> v@[j] != x,
        decreases v@.len() - i,
    {
        if v[i] == x {
            return true;
        }
        i = i + 1;
    }
    false
}

fn vec_without(v: &Vec<u64>, x: u64) -> (r: Vec<u64>)
    ensures
        r@.to_set() == v@.to_set().remove(x),
{
    let mut r: Vec<u64> = Vec::new();
    let mut i: usize = 0;
    while i < v.len()
        invariant
            i <= v@.len(),
            forall|k: int| 0 <= k < r@.len() ==> r@[k] != x && v@.take(i as int).contains(#[trigger] r@[k]),
            forall|j: int| 0 <= j < i && v@[j] != x ==> r@.contains(#[trigger] v@[j]),
        decreases v@.len() - i,
    {
        let ghost before = r@;
        if v[i] != x {
            r.push(v[i]);
            assert(r@[r@.len() - 1] == v@[i as int]);
        }
        assert forall|k: int| 0 <= k < r@.len() implies r@[k] != x && v@.take(i + 1).contains(
            #[trigger] r@[k],
        ) by {
            if k < before.len() {
                assert(before[k] == r@[k]);
                let j = choose|j: int| 0 <= j < i && v@.take(i as int)[j] == before[k];
                assert(v@.take(i + 1)[j] == r@[k]);
            } else {
                assert(v@.take(i + 1)[i as int] == r@[k]);
            }
        }
        assert forall|j: int| 0 <= j < i + 1 && v@[j] != x implies r@.contains(#[trigger] v@[j]) by {
            if j < i {
                let k = choose|k: int| 0 <= k < before.len() && before[k] == v@[j];
                assert(r@[k] == v@[j]);
            } else {
                assert(r@[r@.len() - 1] == v@[j]);
            }
        }
        i = i + 1;
    }
    assert(v@.take(v@.len() as int) =~= v@);
    assert forall|y: u64| r@.to_set().contains(y) <==> v@.to_set().remove(x).contains(y) by {
        if r@.contains(y) {
            let k = choose|k: int| 0 <= k < r@.len() && r@[k] == y;
        }
        if v@.contains(y) && y != x {
            let j = choose|j: int| 0 <= j < v@.len() && v@[j] == y;
        }
    }
    assert(r@.to_set() =~= v@.to_set().remove(x));
    r
}

impl Session {
    /// The negotiated parameters.
    pub closed spec fn spec_info(&self) -> ConnectionInfo {
        self.info
    }

    /// The `unique` of every request handed to the handler and not answered yet.
    pub closed spec fn in_flight(&self) -> Set<u64> {
        self.in_flight@.to_set()
    }

    /// The `unique` of every retrieve notification whose answer is awaited.
    pub closed spec fn retrievals(&self) -> Set<u64> {
        self.retrievals@.to_set()
    }

    /// The `unique` that the next retrieve notification takes.
    pub closed spec fn next_retrieval(&self) -> u64 {
        self.next_notify_unique
    }

    /// Whether the kernel has ended the session with `DESTROY`.
    pub closed spec fn is_destroyed(&self) -> bool {
        self.destroyed
    }

    /// A fresh session with the parameters `info`.
    pub fn new(info: ConnectionInfo) -> (r: Self)
        requires
            info.max_write <= MAX_MAX_WRITE,
        ensures
            r.spec_info() == info,
            r.in_flight() == Set::<u64>::empty(),
            r.retrievals() == Set::<u64>::empty(),
            r.next_retrieval() == 1,
            !r.is_destroyed(),
    {
        let r = Session {
            info,
            in_flight: Vec::new(),
            retrievals: Vec::new(),
            next_notify_unique: 1,
            destroyed: false,
        };
        assert(r.in_flight@.to_set() =~= Set::<u64>::empty());
        assert(r.retrievals@.to_set() =~= Set::<u64>::empty());
        r
    }

    pub fn info(&self) -> (r: ConnectionInfo)
        ensures
            r == self.spec_info(),
    {
        self.info
    }

    /// Whether the kernel has ended the session with `DESTROY`.
    pub fn destroyed(&self) -> (r: bool)
        ensures
            r == self.is_destroyed(),
    {
        self.destroyed
    }

    /// Whether request `unique` is waiting for its reply.
    pub fn is_in_flight(&self, unique: u64) -> (r: bool)
        ensures
            r == self.in_flight().contains(unique),
    {
        vec_contains(&self.in_flight, unique)
    }

    /// Size of the buffer in which to receive a request.
    pub fn buffer_size(&self) -> (r: usize)
        requires
            self.spec_info().max_write <= MAX_MAX_WRITE,
        ensures
            r == BUFFER_HEADER_SIZE + self.spec_info().max_write,
    {
        BUFFER_HEADER_SIZE as usize + self.info.max_write as usize
    }

    /// Decides what to do with one request frame from the kernel.
    ///
    /// A request that reuses the `unique` of a request still waiting for its answer is
    /// refused with [`ProtocolError::DuplicateUnique`]: it goes to no handler and gets no
    /// reply, so the waiting request keeps its one answer.
    pub fn process(&mut self, frame: &[u8]) -> (r: Result<Dispatch, ProtocolError>)
        ensures
            process_outcome(*old(self), *final(self), frame@, r),
    {
        let n: usize = frame.len();
        if n < IN_HEADER_SIZE {
            return Err(ProtocolError::Malformed);
        }
        let h = InHeader::parse_at(frame, 0);
        if (h.len as usize) < IN_HEADER_SIZE || (h.len as usize) > n {
            return Err(ProtocolError::Malformed);
        }
        if self.destroyed {
            return Ok(Dispatch::Closed);
        }
        let body: usize = h.len as usize - IN_HEADER_SIZE;
        if h.opcode == FUSE_FORGET {
            if body < FORGET_IN_SIZE {
                return Err(ProtocolError::Malformed);
            }
            let arg = ForgetIn::parse_at(frame, IN_HEADER_SIZE);
            Ok(Dispatch::Forget { nodeid: h.nodeid, nlookup: arg.nlookup })
        } else if h.opcode == FUSE_BATCH_FORGET {
            if body < BATCH_FORGET_IN_SIZE {
                return Err(ProtocolError::Malformed);
            }
            let arg = BatchForgetIn::parse_at(frame, IN_HEADER_SIZE);
            if ((body - BATCH_FORGET_IN_SIZE) / FORGET_ONE_SIZE) < arg.count as usize {
                return Err(ProtocolError::Malformed);
            }
            let forgets = read_forgets(frame, arg.count as usize);
            Ok(Dispatch::BatchForget { forgets })
        } else if h.opcode == FUSE_INTERRUPT {
            if body < INTERRUPT_IN_SIZE {
                return Err(ProtocolError::Malformed);
            }
            let arg = InterruptIn::parse_at(frame, IN_HEADER_SIZE);
            let cancelled = vec_contains(&self.in_flight, arg.unique);
            Ok(Dispatch::Interrupt { unique: arg.unique, cancelled })
        } else if h.opcode == FUSE_DESTROY {
            self.destroyed = true;
            self.retrievals = Vec::new();
            assert(self.retrievals@.to_set() =~= Set::<u64>::empty());
            Ok(Dispatch::Reply(reply_none(&h)))
        } else if h.opcode == FUSE_NOTIFY_REPLY {
            if body < NOTIFY_RETRIEVE_IN_SIZE {
                return Err(ProtocolError::Malformed);
            }
            if !vec_contains(&self.retrievals, h.unique) {
                return Ok(Dispatch::Unsolicited);
            }
            let arg = NotifyRetrieveIn::parse_at(frame, IN_HEADER_SIZE);
            self.retrievals = vec_without(&self.retrievals, h.unique);
            Ok(
                Dispatch::Retrieved {
                    unique: h.unique,
                    offset: arg.offset,
                    data_start: IN_HEADER_SIZE + NOTIFY_RETRIEVE_IN_SIZE,
                    data_end: h.len as usize,
                },
            )
        } else if vec_contains(&self.in_flight, h.unique) {
            Err(ProtocolError::DuplicateUnique)
        } else {
            self.in_flight.push(h.unique);
            assert forall|y: u64| #[trigger] self.in_flight@.contains(y) <==> (old(
                self,
            ).in_flight@.contains(y) || y == h.unique) by {
                if old(self).in_flight@.contains(y) {
                    let j = choose|j: int|
                        0 <= j < old(self).in_flight@.len() && old(self).in_flight@[j] == y;
                    assert(self.in_flight@[j] == y);
                }
                if self.in_flight@.contains(y) && y != h.unique {
                    let j = choose|j: int| 0 <= j < self.in_flight@.len() && self.in_flight@[j] == y;
                    assert(old(self).in_flight@[j] == y);
                }
                if y == h.unique {
                    assert(self.in_flight@[self.in_flight@.len() - 1] == y);
                }
            }
            assert(self.in_flight@.to_set() =~= old(self).in_flight@.to_set().insert(h.unique));
            Ok(Dispatch::Request { header: h })
        }
    }
}

/// The frame that answers request `unique`: the payload on success, the errno alone on failure.
pub open spec fn answer_frame(unique: u64, error: i32, data: Seq<u8>) -> Seq<u8> {
    if error == 0 {
        reply_frame(unique, 0, data)
    } else {
        reply_frame(unique, error, Seq::empty())
    }
}

/// The answer to request `unique` can be framed: the errno is 0 or positive, and a
/// successful payload fits the header's `len` field.
pub open spec fn answer_fits(error: i32, data_len: nat) -> bool {
    error >= 0 && (error == 0 ==> OUT_HEADER_SIZE + data_len <= u32::MAX)
}

/// What answering request `unique` does: the first answer is framed and ends the wait,
/// any later one is dropped.
pub open spec fn reply_outcome(
    s: Session,
    t: Session,
    unique: u64,
    error: i32,
    data: Seq<u8>,
    r: Option<Vec<u8>>,
) -> bool {
    if s.in_flight().contains(unique) {
        &&& r is Some
        &&& r->0@ == answer_frame(unique, error, data)
        &&& t.in_flight() == s.in_flight().remove(unique)
        &&& same_but_in_flight(s, t)
    } else {
        r is None && t == s
    }
}

/// What processing `frame` in session `s` gives: the result `r` and the session `t`.
pub open spec fn process_outcome(
    s: Session,
    t: Session,
    frame: Seq<u8>,
    r: Result<Dispatch, ProtocolError>,
) -> bool {
    if !frame_well_formed(frame) {
        r == Err::<Dispatch, ProtocolError>(ProtocolError::Malformed) && t == s
    } else if s.is_destroyed() {
        r == Ok::<Dispatch, ProtocolError>(Dispatch::Closed) && t == s
    } else if opcode_of(frame) == FUSE_FORGET {
        forget_outcome(frame, r) && t == s
    } else if opcode_of(frame) == FUSE_BATCH_FORGET {
        batch_forget_outcome(frame, r) && t == s
    } else if opcode_of(frame) == FUSE_INTERRUPT {
        interrupt_outcome(s, frame, r) && t == s
    } else if opcode_of(frame) == FUSE_DESTROY {
        destroy_outcome(s, t, frame, r)
    } else if opcode_of(frame) == FUSE_NOTIFY_REPLY {
        notify_reply_outcome(s, t, frame, r)
    } else {
        request_outcome(s, t, frame, r)
    }
}

/// What registering a retrieve notification does: it takes the next correlation
/// `unique`, which the kernel's answer will carry, unless the session has ended or the
/// numbers are used up.
pub open spec fn retrieve_outcome(
    s: Session,
    t: Session,
    ino: u64,
    offset: u64,
    size: u32,
    r: Option<(u64, Vec<u8>)>,
) -> bool {
    if s.is_destroyed() || s.next_retrieval() == u64::MAX {
        r is None && t == s
    } else {
        let unique = s.next_retrieval();
        let pair = r->0;
        &&& r is Some
        &&& pair.0 == unique
        &&& pair.1@ == notify_frame(
            FUSE_NOTIFY_RETRIEVE,
            NotifyRetrieveOut { notify_unique: unique, nodeid: ino, offset, size, padding: 0 }.spec_bytes(),
        )
        &&& t.retrievals() == s.retrievals().insert(unique)
        &&& t.next_retrieval() == unique + 1
        &&& t.in_flight() == s.in_flight()
        &&& t.spec_info() == s.spec_info()
        &&& t.is_destroyed() == s.is_destroyed()
    }
}

/// A handler's answer that can be sent as it is: a payload that fits a frame, or a
/// positive errno.
pub open spec fn usable_answer(answer: Option<Result<Vec<u8>, i32>>) -> bool {
    match answer {
        Some(Ok(data)) => OUT_HEADER_SIZE + data@.len() <= u32::MAX,
        Some(Err(errno)) => errno > 0,
        None => false,
    }
}

/// The errno of a handler's answer: 0 for a payload.
pub open spec fn answer_errno(answer: Option<Result<Vec<u8>, i32>>) -> i32 {
    match answer {
        Some(Err(errno)) => errno,
        _ => 0,
    }
}

/// The payload of a handler's answer: empty for an errno.
pub open spec fn answer_data(answer: Option<Result<Vec<u8>, i32>>) -> Seq<u8> {
    match answer {
        Some(Ok(data)) => data@,
        _ => Seq::empty(),
    }
}

/// The frame is well formed and the session still takes requests.
pub open spec fn live(s: Session, frame: Seq<u8>) -> bool {
    frame_well_formed(frame) && !s.is_destroyed()
}

/// The opcode of a request frame.
pub open spec fn opcode_of(frame: Seq<u8>) -> u32 {
    header_of(frame).opcode
}

/// Opcodes that the session handles itself instead of handing them to the handler.
pub open spec fn is_session_opcode(opcode: u32) -> bool {
    opcode == FUSE_FORGET || opcode == FUSE_BATCH_FORGET || opcode == FUSE_INTERRUPT || opcode
        == FUSE_DESTROY || opcode == FUSE_NOTIFY_REPLY
}

/// The two sessions agree on everything but the requests in flight.
pub open spec fn same_but_in_flight(a: Session, b: Session) -> bool {
    &&& a.spec_info() == b.spec_info()
    &&& a.retrievals() == b.retrievals()
    &&& a.next_retrieval() == b.next_retrieval()
    &&& a.is_destroyed() == b.is_destroyed()
}

/// What `FORGET` gives: the reference count to drop, or a refusal of a short body.
pub open spec fn forget_outcome(frame: Seq<u8>, r: Result<Dispatch, ProtocolError>) -> bool {
    if body_len(frame) < FORGET_IN_SIZE {
        r == Err::<Dispatch, ProtocolError>(ProtocolError::Malformed)
    } else {
        r == Ok::<Dispatch, ProtocolError>(
            Dispatch::Forget {
                nodeid: header_of(frame).nodeid,
                nlookup: ForgetIn::spec_parse(body_prefix(frame, FORGET_IN_SIZE as int)).nlookup,
            },
        )
    }
}

/// What `BATCH_FORGET` gives: every entry it announces, or a refusal of a short body.
pub open spec fn batch_forget_outcome(frame: Seq<u8>, r: Result<Dispatch, ProtocolError>) -> bool {
    let count = BatchForgetIn::spec_parse(body_prefix(frame, BATCH_FORGET_IN_SIZE as int)).count;
    if body_len(frame) < BATCH_FORGET_IN_SIZE + FORGET_ONE_SIZE * count {
        r == Err::<Dispatch, ProtocolError>(ProtocolError::Malformed)
    } else {
        match r {
            Ok(Dispatch::BatchForget { forgets }) => forgets@ == batch_forgets(frame, count as nat),
            _ => false,
        }
    }
}

/// The request that an `INTERRUPT` frame asks to cancel.
pub open spec fn interrupt_target(frame: Seq<u8>) -> u64 {
    InterruptIn::spec_parse(body_prefix(frame, INTERRUPT_IN_SIZE as int)).unique
}

/// What `INTERRUPT` gives: its target, and whether that request is still unanswered.
pub open spec fn interrupt_outcome(s: Session, frame: Seq<u8>, r: Result<Dispatch, ProtocolError>) -> bool {
    if body_len(frame) < INTERRUPT_IN_SIZE {
        r == Err::<Dispatch, ProtocolError>(ProtocolError::Malformed)
    } else {
        r == Ok::<Dispatch, ProtocolError>(
            Dispatch::Interrupt {
                unique: interrupt_target(frame),
                cancelled: s.in_flight().contains(interrupt_target(frame)),
            },
        )
    }
}

/// What `DESTROY` does: the session ends, the awaited retrievals expire, and the request
/// gets an empty reply.
pub open spec fn destroy_outcome(
    s: Session,
    t: Session,
    frame: Seq<u8>,
    r: Result<Dispatch, ProtocolError>,
) -> bool {
    &&& match r {
        Ok(Dispatch::Reply(out)) => out@ == reply_frame(header_of(frame).unique, 0, Seq::empty()),
        _ => false,
    }
    &&& t.is_destroyed()
    &&& t.spec_info() == s.spec_info()
    &&& t.in_flight() == s.in_flight()
    &&& t.retrievals() == Set::<u64>::empty()
    &&& t.next_retrieval() == s.next_retrieval()
}

/// What `NOTIFY_REPLY` does: the awaited retrieval, if any, gets the frame's data.
pub open spec fn notify_reply_outcome(
    s: Session,
    t: Session,
    frame: Seq<u8>,
    r: Result<Dispatch, ProtocolError>,
) -> bool {
    let h = header_of(frame);
    if body_len(frame) < NOTIFY_RETRIEVE_IN_SIZE {
        r == Err::<Dispatch, ProtocolError>(ProtocolError::Malformed) && t == s
    } else if s.retrievals().contains(h.unique) {
        &&& r == Ok::<Dispatch, ProtocolError>(
            Dispatch::Retrieved {
                unique: h.unique,
                offset: NotifyRetrieveIn::spec_parse(
                    body_prefix(frame, NOTIFY_RETRIEVE_IN_SIZE as int),
                ).offset,
                data_start: (IN_HEADER_SIZE + NOTIFY_RETRIEVE_IN_SIZE) as usize,
                data_end: h.len as usize,
            },
        )
        &&& t.retrievals() == s.retrievals().remove(h.unique)
        &&& t.spec_info() == s.spec_info()
        &&& t.in_flight() == s.in_flight()
        &&& t.next_retrieval() == s.next_retrieval()
        &&& t.is_destroyed() == s.is_destroyed()
    } else {
        r == Ok::<Dispatch, ProtocolError>(Dispatch::Unsolicited) && t == s
    }
}

/// What any other request does: it goes to the handler and waits for its reply, unless
/// its `unique` is already waiting.
pub open spec fn request_outcome(
    s: Session,
    t: Session,
    frame: Seq<u8>,
    r: Result<Dispatch, ProtocolError>,
) -> bool {
    let h = header_of(frame);
    if s.in_flight().contains(h.unique) {
        r == Err::<Dispatch, ProtocolError>(ProtocolError::DuplicateUnique) && t == s
    } else {
        &&& r == Ok::<Dispatch, ProtocolError>(Dispatch::Request { header: h })
        &&& t.in_flight() == s.in_flight().insert(h.unique)
        &&& same_but_in_flight(s, t)
    }
}

impl Session {
    /// Answers request `unique` with the errno `error` (0 for success) and, on success,
    /// the payload `data`. Gives the frame to send, or nothing when the request is not
    /// waiting for an answer.
    pub fn reply(&mut self, unique: u64, error: i32, data: &[u8]) -> (r: Option<Vec<u8>>)
        requires
            answer_fits(error, data@.len()),
        ensures
            reply_outcome(*old(self), *final(self), unique, error, data@, r),
    {
        if !vec_contains(&self.in_flight, unique) {
            return None;
        }
        self.in_flight = vec_without(&self.in_flight, unique);
        let h = InHeader { len: 0, opcode: 0, unique, nodeid: 0, uid: 0, gid: 0, pid: 0, padding: 0 };
        if error == 0 {
            Some(reply_payload(&h, 0, data))
        } else {
            Some(reply_err(&h, error))
        }
    }

    /// Answers request `unique` with what the handler gave: a payload, an errno, or
    /// nothing. A payload too long for a frame, an errno that is not positive, and no
    /// answer at all are reported to the kernel as an I/O error.
    pub fn complete(&mut self, unique: u64, answer: Option<Result<Vec<u8>, i32>>) -> (r: Option<Vec<u8>>)
        ensures
            usable_answer(answer) ==> reply_outcome(
                *old(self),
                *final(self),
                unique,
                answer_errno(answer),
                answer_data(answer),
                r,
            ),
            !usable_answer(answer) ==> exists|e: i32|
                e > 0 && reply_outcome(*old(self), *final(self), unique, e, Seq::empty(), r),
    {
        match answer {
            Some(Ok(data)) => {
                if data.len() <= u32::MAX as usize - OUT_HEADER_SIZE {
                    self.reply(unique, 0, data.as_slice())
                } else {
                    self.reply_unfulfilled(unique)
                }
            },
            Some(Err(errno)) => {
                if errno > 0 {
                    let empty: [u8; 0] = [];
                    assert(empty@ =~= Seq::<u8>::empty());
                    self.reply(unique, errno, empty.as_slice())
                } else {
                    self.reply_unfulfilled(unique)
                }
            },
            None => self.reply_unfulfilled(unique),
        }
    }

    /// Answers request `unique` with an I/O error: the handler let it go unanswered.
    pub fn reply_unfulfilled(&mut self, unique: u64) -> (r: Option<Vec<u8>>)
        ensures
            exists|e: i32| e > 0 && reply_outcome(*old(self), *final(self), unique, e, Seq::empty(), r),
    {
        let e = eio();
        let empty: [u8; 0] = [];
        assert(empty@ =~= Seq::<u8>::empty());
        self.reply(unique, e, empty.as_slice())
    }

    /// Registers a retrieve notification for `size` bytes at `offset` of inode `ino`.
    /// Gives the correlation `unique` and the frame to send, or nothing once the
    /// session has ended or the correlation numbers are used up.
    pub fn notify_retrieve(&mut self, ino: u64, offset: u64, size: u32) -> (r: Option<(u64, Vec<u8>)>)
        ensures
            retrieve_outcome(*old(self), *final(self), ino, offset, size, r),
    {
        if self.destroyed || self.next_notify_unique == u64::MAX {
            return None;
        }
        let unique = self.next_notify_unique;
        self.next_notify_unique = unique + 1;
        let ghost before = self.retrievals@;
        self.retrievals.push(unique);
        assert forall|y: u64| #[trigger] self.retrievals@.contains(y) <==> (before.contains(y) || y == unique) by {
            if before.contains(y) {
                let j = choose|j: int| 0 <= j < before.len() && before[j] == y;
                assert(self.retrievals@[j] == y);
            }
            if self.retrievals@.contains(y) && y != unique {
                let j = choose|j: int| 0 <= j < self.retrievals@.len() && self.retrievals@[j] == y;
                assert(before[j] == y);
            }
            if y == unique {
                assert(self.retrievals@[self.retrievals@.len() - 1] == y);
            }
        }
        assert(self.retrievals@.to_set() =~= before.to_set().insert(unique));
        let body = NotifyRetrieveOut { notify_unique: unique, nodeid: ino, offset, size, padding: 0 };
        let frame = notification(FUSE_NOTIFY_RETRIEVE, body.to_bytes());
        Some((unique, frame))
    }
}

/// The entries of a `BATCH_FORGET` frame that announces `count` of them.
pub open spec fn batch_forgets(frame: Seq<u8>, count: nat) -> Seq<ForgetOne> {
    Seq::new(
        count,
        |i: int|
            ForgetOne::spec_parse(
                frame.subrange(
                    IN_HEADER_SIZE + BATCH_FORGET_IN_SIZE + FORGET_ONE_SIZE * i,
                    IN_HEADER_SIZE + BATCH_FORGET_IN_SIZE + FORGET_ONE_SIZE * (i + 1),
                ),
            ),
    )
}

fn read_forgets(frame: &[u8], count: usize) -> (r: Vec<ForgetOne>)
    requires
        IN_HEADER_SIZE + BATCH_FORGET_IN_SIZE + FORGET_ONE_SIZE * count <= frame@.len(),
    ensures
        r@ == batch_forgets(frame@, count as nat),
{
    let n: usize = frame.len();
    let mut r: Vec<ForgetOne> = Vec::with_capacity(count);
    let mut i: usize = 0;
    while i < count
        invariant
            i <= count,
            n == frame@.len(),
            IN_HEADER_SIZE + BATCH_FORGET_IN_SIZE + FORGET_ONE_SIZE * count <= frame@.len(),
            r@ == batch_forgets(frame@, i as nat),
        decreases count - i,
    {
        assert(FORGET_ONE_SIZE * (i + 1) <= FORGET_ONE_SIZE * count) by (nonlinear_arith)
            requires
                i < count,
        ;
        let off = IN_HEADER_SIZE + BATCH_FORGET_IN_SIZE + FORGET_ONE_SIZE * i;
        let one = ForgetOne::parse_at(frame, off);
        r.push(one);
        i = i + 1;
        assert(r@ =~= batch_forgets(frame@, i as nat));
    }
    r
}

} // verus!

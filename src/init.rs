//! Negotiation of the session parameters with the kernel.
use crate::abi::{
    FuseInitOut, InHeader, InitIn, FUSE_INIT, FUSE_KERNEL_MINOR_VERSION, FUSE_KERNEL_VERSION,
    IN_HEADER_SIZE, INIT_IN_SIZE, SUPPORTED_CAP_FLAGS,
};
use crate::errno::eproto;
use crate::reply::{reply_err, reply_frame, reply_payload, InitOut, Payload};
use crate::session::Session;
use vstd::prelude::*;

verus! {

/// A set of capability flags, one bit each.
#[derive(Clone, Copy, Debug, PartialEq, Eq, Structural)]
pub struct CapFlags {
    pub bits: u32,
}

impl CapFlags {
    /// The flags among `bits` that this library supports.
    pub fn from_bits_truncate(bits: u32) -> (r: Self)
        ensures
            r.bits == bits & SUPPORTED_CAP_FLAGS,
    {
        CapFlags { bits: bits & SUPPORTED_CAP_FLAGS }
    }

    /// Every flag that this library supports.
    pub fn all() -> (r: Self)
        ensures
            r.bits == SUPPORTED_CAP_FLAGS,
    {
        CapFlags { bits: SUPPORTED_CAP_FLAGS }
    }

    pub fn bits(&self) -> (r: u32)
        ensures
            r == self.bits,
    {
        self.bits
    }
}

/// Bytes reserved in a request buffer for the header and the fixed part of a request.
pub const BUFFER_HEADER_SIZE: u32 = 4096;

/// Size of a memory page; `max_write` is a whole number of them.
pub const PAGE_SIZE: u32 = 4096;

/// The smallest `max_write` that a session negotiates.
pub const MIN_MAX_WRITE: u32 = 4096;

/// The largest `max_write` that a session negotiates: the largest page-aligned body.
pub const MAX_MAX_WRITE: u32 = 1048576;

/// `max_write` as a session negotiates it: page-aligned and within bounds.
pub open spec fn clamp_max_write(max_write: u32) -> u32 {
    if max_write < MIN_MAX_WRITE {
        MIN_MAX_WRITE
    } else if max_write > MAX_MAX_WRITE {
        MAX_MAX_WRITE
    } else {
        (max_write - max_write % PAGE_SIZE) as u32
    }
}

fn clamped_max_write(max_write: u32) -> (r: u32)
    ensures
        r == clamp_max_write(max_write),
{
    if max_write < MIN_MAX_WRITE {
        MIN_MAX_WRITE
    } else if max_write > MAX_MAX_WRITE {
        MAX_MAX_WRITE
    } else {
        max_write - max_write % PAGE_SIZE
    }
}

/// The parameters of a session as negotiated with the kernel.
#[derive(Clone, Copy, Debug, PartialEq, Eq, Structural)]
pub struct ConnectionInfo {
    pub proto_major: u32,
    pub proto_minor: u32,
    pub flags: u32,
    pub max_readahead: u32,
    pub max_write: u32,
    pub max_background: u16,
    pub congestion_threshold: u16,
    pub time_gran: u32,
}

/// Why the `INIT` handshake failed.
#[derive(Clone, Copy, Debug, PartialEq, Eq, Structural)]
pub enum InitError {
    /// The frame is shorter than its header says, or than a header.
    Malformed,
    /// The first request is not `INIT`.
    UnexpectedOpcode,
    /// The kernel speaks another major version of the protocol.
    UnsupportedVersion,
}

/// What the `INIT` handshake gives: the frame to send back, if any, and the session.
pub struct InitOutcome {
    pub reply: Option<Vec<u8>>,
    pub result: Result<Session, InitError>,
}

/// The frame is long enough for a header whose `len` lies between the header size and
/// the frame's length.
pub open spec fn frame_well_formed(frame: Seq<u8>) -> bool {
    frame.len() >= IN_HEADER_SIZE && IN_HEADER_SIZE <= header_of(frame).len <= frame.len()
}

/// The header at the start of a request frame.
pub open spec fn header_of(frame: Seq<u8>) -> InHeader {
    InHeader::spec_parse(frame.subrange(0, IN_HEADER_SIZE as int))
}

/// Length of the request body of a well-formed frame.
pub open spec fn body_len(frame: Seq<u8>) -> int {
    header_of(frame).len - IN_HEADER_SIZE
}

/// The `size` bytes that follow the header of a request frame.
pub open spec fn body_prefix(frame: Seq<u8>, size: int) -> Seq<u8> {
    frame.subrange(IN_HEADER_SIZE as int, IN_HEADER_SIZE + size)
}

/// The caller's wishes for the session, from which `INIT` negotiates.
#[derive(Clone, Copy, Debug, PartialEq, Eq, Structural)]
pub struct SessionInitializer {
    pub max_readahead: u32,
    pub flags: CapFlags,
    pub max_background: u16,
    pub congestion_threshold: u16,
    pub max_write: u32,
    pub time_gran: u32,
}

impl Default for SessionInitializer {
    fn default() -> (r: Self)
        ensures
            r == (SessionInitializer {
                max_readahead: u32::MAX,
                flags: CapFlags { bits: SUPPORTED_CAP_FLAGS },
                max_background: 0,
                congestion_threshold: 0,
                max_write: 131072,
                time_gran: 1,
            }),
    {
        SessionInitializer {
            max_readahead: u32::MAX,
            flags: CapFlags::all(),
            max_background: 0,
            congestion_threshold: 0,
            max_write: 131072,
            time_gran: 1,
        }
    }
}

impl SessionInitializer {
    /// The parameters negotiated with a kernel that sent `init_in`.
    pub open spec fn negotiate(self, init_in: InitIn) -> ConnectionInfo {
        ConnectionInfo {
            proto_major: FUSE_KERNEL_VERSION,
            proto_minor: if init_in.minor < FUSE_KERNEL_MINOR_VERSION {
                init_in.minor
            } else {
                FUSE_KERNEL_MINOR_VERSION
            },
            flags: init_in.flags & self.flags.bits & SUPPORTED_CAP_FLAGS,
            max_readahead: if init_in.max_readahead < self.max_readahead {
                init_in.max_readahead
            } else {
                self.max_readahead
            },
            max_write: clamp_max_write(self.max_write),
            max_background: self.max_background,
            congestion_threshold: self.congestion_threshold,
            time_gran: self.time_gran,
        }
    }

    /// Size of the buffer in which to receive the `INIT` request.
    pub fn init_buf_size(&self) -> (r: usize)
        ensures
            r == BUFFER_HEADER_SIZE + clamp_max_write(self.max_write),
    {
        BUFFER_HEADER_SIZE as usize + clamped_max_write(self.max_write) as usize
    }

    /// Performs the `INIT` handshake on the first frame from the kernel.
    pub fn init(&self, frame: &[u8]) -> (r: InitOutcome)
        ensures
            !frame_well_formed(frame@) ==> r.reply is None && r.result == Err::<Session, InitError>(
                InitError::Malformed,
            ),
            frame_well_formed(frame@) ==> ({
                let h = header_of(frame@);
                let init_in = InitIn::spec_parse(body_prefix(frame@, INIT_IN_SIZE as int));
                let info = self.negotiate(init_in);
                if h.opcode != FUSE_INIT || body_len(frame@) < INIT_IN_SIZE || init_in.major
                    != FUSE_KERNEL_VERSION {
                    &&& r.reply is Some
                    &&& exists|e: i32| e > 0 && r.reply->0@ == reply_frame(h.unique, e, Seq::empty())
                    &&& r.result == Err::<Session, InitError>(
                        if h.opcode != FUSE_INIT {
                            InitError::UnexpectedOpcode
                        } else if body_len(frame@) < INIT_IN_SIZE {
                            InitError::Malformed
                        } else {
                            InitError::UnsupportedVersion
                        },
                    )
                } else {
                    &&& r.reply is Some
                    &&& r.reply->0@ == reply_frame(h.unique, 0, init_out_of(info).spec_bytes())
                    &&& r.result is Ok
                    &&& r.result->Ok_0.next_retrieval() == 1
                    &&& r.result->Ok_0.spec_info() == info
                    &&& r.result->Ok_0.in_flight() == Set::<u64>::empty()
                    &&& r.result->Ok_0.retrievals() == Set::<u64>::empty()
                    &&& !r.result->Ok_0.is_destroyed()
                }
            }),
    {
        let n: usize = frame.len();
        if n < IN_HEADER_SIZE {
            return InitOutcome { reply: None, result: Err(InitError::Malformed) };
        }
        let h = InHeader::parse_at(frame, 0);
        if (h.len as usize) < IN_HEADER_SIZE || (h.len as usize) > n {
            return InitOutcome { reply: None, result: Err(InitError::Malformed) };
        }
        let end = h.len as usize;
        if h.opcode != FUSE_INIT {
            let e = eproto();
            return InitOutcome { reply: Some(reply_err(&h, e)), result: Err(InitError::UnexpectedOpcode) };
        }
        if end - IN_HEADER_SIZE < INIT_IN_SIZE {
            let e = eproto();
            return InitOutcome { reply: Some(reply_err(&h, e)), result: Err(InitError::Malformed) };
        }
        let init_in = InitIn::parse_at(frame, IN_HEADER_SIZE);
        if init_in.major != FUSE_KERNEL_VERSION {
            let e = eproto();
            return InitOutcome {
                reply: Some(reply_err(&h, e)),
                result: Err(InitError::UnsupportedVersion),
            };
        }
        let info = ConnectionInfo {
            proto_major: FUSE_KERNEL_VERSION,
            proto_minor: if init_in.minor < FUSE_KERNEL_MINOR_VERSION {
                init_in.minor
            } else {
                FUSE_KERNEL_MINOR_VERSION
            },
            flags: init_in.flags & self.flags.bits & SUPPORTED_CAP_FLAGS,
            max_readahead: if init_in.max_readahead < self.max_readahead {
                init_in.max_readahead
            } else {
                self.max_readahead
            },
            max_write: clamped_max_write(self.max_write),
            max_background: self.max_background,
            congestion_threshold: self.congestion_threshold,
            time_gran: self.time_gran,
        };
        let out = make_init_out(&info);
        let reply = reply_payload(&h, 0, &out);
        InitOutcome { reply: Some(reply), result: Ok(Session::new(info)) }
    }
}

/// The body of the reply to `INIT` that announces `info`.
pub open spec fn init_out_of(info: ConnectionInfo) -> FuseInitOut {
    FuseInitOut {
        major: info.proto_major,
        minor: info.proto_minor,
        max_readahead: info.max_readahead,
        flags: info.flags,
        max_background: info.max_background,
        congestion_threshold: info.congestion_threshold,
        max_write: info.max_write,
        time_gran: info.time_gran,
        max_pages: (info.max_write / PAGE_SIZE) as u16,
        padding: 0,
    }
}

fn make_init_out(info: &ConnectionInfo) -> (r: InitOut)
    requires
        info.max_write <= MAX_MAX_WRITE,
    ensures
        r.0 == init_out_of(*info),
        r.payload() == init_out_of(*info).spec_bytes(),
{
    let mut out = InitOut::default();
    out.0.major = info.proto_major;
    out.0.minor = info.proto_minor;
    out.set_max_readahead(info.max_readahead);
    out.set_flags(CapFlags { bits: info.flags });
    out.0.max_background = info.max_background;
    out.0.congestion_threshold = info.congestion_threshold;
    out.set_max_write(info.max_write);
    out.0.time_gran = info.time_gran;
    out.0.max_pages = (info.max_write / PAGE_SIZE) as u16;
    out
}

} // verus!

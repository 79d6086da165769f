//! Decoding of request bodies into typed operations.
use crate::abi::{
    GetattrIn, MkdirIn, OpenIn, ReadIn, ReleaseIn, WriteIn, FUSE_GETATTR, FUSE_LOOKUP,
    FUSE_MKDIR, FUSE_OPEN, FUSE_OPENDIR, FUSE_READ, FUSE_READDIR, FUSE_RELEASE, FUSE_RELEASEDIR,
    FUSE_RMDIR, FUSE_STATFS, FUSE_UNLINK, FUSE_WRITE, GETATTR_IN_SIZE, IN_HEADER_SIZE,
    MKDIR_IN_SIZE, OPEN_IN_SIZE, READ_IN_SIZE, RELEASE_IN_SIZE, WRITE_IN_SIZE,
};
use crate::init::{body_len, body_prefix, frame_well_formed, header_of};
use vstd::prelude::*;

verus! {

/// A request, decoded. Names and data stay in the frame: a name is the bytes from the
/// end of the fixed part up to `name_end`, where its terminating NUL stands; data are
/// the bytes from `data_start` to `data_end`.
#[derive(Clone, Copy, Debug, PartialEq, Eq, Structural)]
pub enum Operation {
    Lookup { name_end: usize },
    Getattr(GetattrIn),
    Open(OpenIn),
    Read(ReadIn),
    Write { arg: WriteIn, data_start: usize, data_end: usize },
    Release(ReleaseIn),
    Opendir(OpenIn),
    Readdir(ReadIn),
    Releasedir(ReleaseIn),
    Mkdir { arg: MkdirIn, name_end: usize },
    Unlink { name_end: usize },
    Rmdir { name_end: usize },
    Statfs,
    /// An opcode whose body the handler reads itself.
    Other { opcode: u32 },
}

/// `end` is where the first NUL of `frame` at or after `start`, and before `limit`, stands.
pub open spec fn first_nul(frame: Seq<u8>, start: int, limit: int, end: int) -> bool {
    &&& start <= end < limit
    &&& frame[end] == 0
    &&& forall|j: int| start <= j < end ==> frame[j] != 0
}

/// No NUL stands in `frame` between `start` and `limit`.
pub open spec fn no_nul(frame: Seq<u8>, start: int, limit: int) -> bool {
    forall|j: int| start <= j < limit ==> frame[j] != 0
}

/// The name that starts at `start` decodes into `op(end)`, or the frame is refused.
pub open spec fn name_outcome(frame: Seq<u8>, start: int, r: Option<Operation>, named: spec_fn(usize) -> Operation) -> bool {
    let limit = header_of(frame).len as int;
    if start > limit || no_nul(frame, start, limit) {
        r is None
    } else {
        exists|end: usize| first_nul(frame, start, limit, end as int) && r == Some(named(end))
    }
}

/// A fixed part of `size` bytes that parses into `op(..)`, or a refusal of a short body.
pub open spec fn fixed_outcome(frame: Seq<u8>, size: int, r: Option<Operation>, op: Operation) -> bool {
    if body_len(frame) < size {
        r is None
    } else {
        r == Some(op)
    }
}

/// What decoding a well-formed request frame gives.
pub open spec fn decode_outcome(frame: Seq<u8>, r: Option<Operation>) -> bool {
    let opcode = header_of(frame).opcode;
    let len = header_of(frame).len as int;
    let start = IN_HEADER_SIZE as int;
    if opcode == FUSE_LOOKUP {
        name_outcome(frame, start, r, |e: usize| Operation::Lookup { name_end: e })
    } else if opcode == FUSE_UNLINK {
        name_outcome(frame, start, r, |e: usize| Operation::Unlink { name_end: e })
    } else if opcode == FUSE_RMDIR {
        name_outcome(frame, start, r, |e: usize| Operation::Rmdir { name_end: e })
    } else if opcode == FUSE_MKDIR {
        let arg = MkdirIn::spec_parse(body_prefix(frame, MKDIR_IN_SIZE as int));
        if body_len(frame) < MKDIR_IN_SIZE {
            r is None
        } else {
            name_outcome(frame, start + MKDIR_IN_SIZE, r, |e: usize| Operation::Mkdir { arg, name_end: e })
        }
    } else if opcode == FUSE_GETATTR {
        fixed_outcome(frame, GETATTR_IN_SIZE as int, r, Operation::Getattr(GetattrIn::spec_parse(body_prefix(frame, GETATTR_IN_SIZE as int))))
    } else if opcode == FUSE_OPEN {
        fixed_outcome(frame, OPEN_IN_SIZE as int, r, Operation::Open(OpenIn::spec_parse(body_prefix(frame, OPEN_IN_SIZE as int))))
    } else if opcode == FUSE_OPENDIR {
        fixed_outcome(frame, OPEN_IN_SIZE as int, r, Operation::Opendir(OpenIn::spec_parse(body_prefix(frame, OPEN_IN_SIZE as int))))
    } else if opcode == FUSE_READ {
        fixed_outcome(frame, READ_IN_SIZE as int, r, Operation::Read(ReadIn::spec_parse(body_prefix(frame, READ_IN_SIZE as int))))
    } else if opcode == FUSE_READDIR {
        fixed_outcome(frame, READ_IN_SIZE as int, r, Operation::Readdir(ReadIn::spec_parse(body_prefix(frame, READ_IN_SIZE as int))))
    } else if opcode == FUSE_RELEASE {
        fixed_outcome(frame, RELEASE_IN_SIZE as int, r, Operation::Release(ReleaseIn::spec_parse(body_prefix(frame, RELEASE_IN_SIZE as int))))
    } else if opcode == FUSE_RELEASEDIR {
        fixed_outcome(frame, RELEASE_IN_SIZE as int, r, Operation::Releasedir(ReleaseIn::spec_parse(body_prefix(frame, RELEASE_IN_SIZE as int))))
    } else if opcode == FUSE_WRITE {
        let arg = WriteIn::spec_parse(body_prefix(frame, WRITE_IN_SIZE as int));
        if body_len(frame) < WRITE_IN_SIZE + arg.size {
            r is None
        } else {
            r == Some(Operation::Write {
                arg,
                data_start: (start + WRITE_IN_SIZE) as usize,
                data_end: (start + WRITE_IN_SIZE + arg.size) as usize,
            })
        }
    } else if opcode == FUSE_STATFS {
        r == Some(Operation::Statfs)
    } else {
        r == Some(Operation::Other { opcode })
    }
}

/// Where the first NUL from `start` up to `limit` stands, if any.
fn find_nul(frame: &[u8], start: usize, limit: usize) -> (r: Option<usize>)
    requires
        limit <= frame@.len(),
    ensures
        r is None ==> start > limit || no_nul(frame@, start as int, limit as int),
        r matches Some(end) ==> first_nul(frame@, start as int, limit as int, end as int),
{
    if start > limit {
        return None;
    }
    let mut i: usize = start;
    while i < limit
        invariant
            start <= i <= limit,
            limit <= frame@.len(),
            no_nul(frame@, start as int, i as int),
        decreases limit - i,
    {
        if frame[i] == 0 {
            return Some(i);
        }
        i = i + 1;
    }
    None
}

/// Decodes the body of a request frame into an operation; nothing when the frame is
/// malformed, its body is shorter than its opcode asks, or a name lacks its NUL.
pub fn decode(frame: &[u8]) -> (r: Option<Operation>)
    ensures
        !frame_well_formed(frame@) ==> r is None,
        frame_well_formed(frame@) ==> decode_outcome(frame@, r),
{
    let n: usize = frame.len();
    if n < IN_HEADER_SIZE {
        return None;
    }
    let h = crate::abi::InHeader::parse_at(frame, 0);
    let len = h.len as usize;
    if len < IN_HEADER_SIZE || len > n {
        return None;
    }
    let body = len - IN_HEADER_SIZE;
    if h.opcode == FUSE_LOOKUP || h.opcode == FUSE_UNLINK || h.opcode == FUSE_RMDIR {
        let found = find_nul(frame, IN_HEADER_SIZE, len);
        match found {
            None => None,
            Some(end) => if h.opcode == FUSE_LOOKUP {
                Some(Operation::Lookup { name_end: end })
            } else if h.opcode == FUSE_UNLINK {
                Some(Operation::Unlink { name_end: end })
            } else {
                Some(Operation::Rmdir { name_end: end })
            },
        }
    } else if h.opcode == FUSE_MKDIR {
        if body < MKDIR_IN_SIZE {
            return None;
        }
        let arg = MkdirIn::parse_at(frame, IN_HEADER_SIZE);
        match find_nul(frame, IN_HEADER_SIZE + MKDIR_IN_SIZE, len) {
            None => None,
            Some(end) => Some(Operation::Mkdir { arg, name_end: end }),
        }
    } else if h.opcode == FUSE_GETATTR {
        if body < GETATTR_IN_SIZE {
            return None;
        }
        Some(Operation::Getattr(GetattrIn::parse_at(frame, IN_HEADER_SIZE)))
    } else if h.opcode == FUSE_OPEN || h.opcode == FUSE_OPENDIR {
        if body < OPEN_IN_SIZE {
            return None;
        }
        let arg = OpenIn::parse_at(frame, IN_HEADER_SIZE);
        if h.opcode == FUSE_OPEN {
            Some(Operation::Open(arg))
        } else {
            Some(Operation::Opendir(arg))
        }
    } else if h.opcode == FUSE_READ || h.opcode == FUSE_READDIR {
        if body < READ_IN_SIZE {
            return None;
        }
        let arg = ReadIn::parse_at(frame, IN_HEADER_SIZE);
        if h.opcode == FUSE_READ {
            Some(Operation::Read(arg))
        } else {
            Some(Operation::Readdir(arg))
        }
    } else if h.opcode == FUSE_RELEASE || h.opcode == FUSE_RELEASEDIR {
        if body < RELEASE_IN_SIZE {
            return None;
        }
        let arg = ReleaseIn::parse_at(frame, IN_HEADER_SIZE);
        if h.opcode == FUSE_RELEASE {
            Some(Operation::Release(arg))
        } else {
            Some(Operation::Releasedir(arg))
        }
    } else if h.opcode == FUSE_WRITE {
        if body < WRITE_IN_SIZE {
            return None;
        }
        let arg = WriteIn::parse_at(frame, IN_HEADER_SIZE);
        if body - WRITE_IN_SIZE < arg.size as usize {
            return None;
        }
        Some(
            Operation::Write {
                arg,
                data_start: IN_HEADER_SIZE + WRITE_IN_SIZE,
                data_end: IN_HEADER_SIZE + WRITE_IN_SIZE + arg.size as usize,
            },
        )
    } else if h.opcode == FUSE_STATFS {
        Some(Operation::Statfs)
    } else {
        Some(Operation::Other { opcode: h.opcode })
    }
}

} // verus!

//! Notification frames, by which the file system updates the kernel's caches.
use crate::abi::{
    NotifyDeleteOut, NotifyInvalEntryOut, NotifyInvalInodeOut, NotifyPollWakeupOut,
    NotifyStoreOut, OutHeader, FUSE_NOTIFY_DELETE, FUSE_NOTIFY_INVAL_ENTRY,
    FUSE_NOTIFY_INVAL_INODE, FUSE_NOTIFY_POLL, FUSE_NOTIFY_STORE, OUT_HEADER_SIZE,
};
use vstd::prelude::*;

verus! {

/// A notification frame: a header with `unique` 0 whose `error` field carries the
/// notification code, then `body`.
pub open spec fn notify_frame(code: i32, body: Seq<u8>) -> Seq<u8> {
    OutHeader { len: (OUT_HEADER_SIZE + body.len()) as u32, error: code, unique: 0 }.spec_bytes()
        + body
}

/// Appends the bytes of `data` to `buf`.
pub fn append_bytes(buf: &mut Vec<u8>, data: &[u8])
    ensures
        final(buf)@ == old(buf)@ + data@,
{
    let mut i: usize = 0;
    while i < data.len()
        invariant
            i <= data@.len(),
            buf@ == old(buf)@ + data@.subrange(0, i as int),
        decreases data@.len() - i,
    {
        buf.push(data[i]);
        i = i + 1;
        assert(buf@ =~= old(buf)@ + data@.subrange(0, i as int));
    }
    assert(data@.subrange(0, data@.len() as int) =~= data@);
}

/// The notification frame with code `code` and body `body`.
pub fn notification(code: i32, body: Vec<u8>) -> (r: Vec<u8>)
    requires
        OUT_HEADER_SIZE + body@.len() <= u32::MAX,
    ensures
        r@ == notify_frame(code, body@),
{
    let header = OutHeader { len: (OUT_HEADER_SIZE + body.len()) as u32, error: code, unique: 0 };
    let mut frame = header.to_bytes();
    append_bytes(&mut frame, body.as_slice());
    frame
}

/// Asks the kernel to drop `len` bytes at `off` of its cache of inode `ino`.
pub fn notify_inval_inode(ino: u64, off: i64, len: i64) -> (r: Vec<u8>)
    ensures
        r@ == notify_frame(
            FUSE_NOTIFY_INVAL_INODE,
            NotifyInvalInodeOut { ino, off, len }.spec_bytes(),
        ),
{
    notification(FUSE_NOTIFY_INVAL_INODE, NotifyInvalInodeOut { ino, off, len }.to_bytes())
}

/// Asks the kernel to drop its cache of the entry `name` in directory `parent`.
pub fn notify_inval_entry(parent: u64, name: &[u8]) -> (r: Vec<u8>)
    requires
        OUT_HEADER_SIZE + 16 + name@.len() + 1 <= u32::MAX,
    ensures
        r@ == notify_frame(
            FUSE_NOTIFY_INVAL_ENTRY,
            NotifyInvalEntryOut { parent, namelen: name@.len() as u32, padding: 0 }.spec_bytes()
                + name@ + seq![0u8],
        ),
{
    let head = NotifyInvalEntryOut { parent, namelen: name.len() as u32, padding: 0 };
    let mut body = head.to_bytes();
    append_bytes(&mut body, name);
    body.push(0u8);
    assert(body@ =~= head.spec_bytes() + name@ + seq![0u8]);
    notification(FUSE_NOTIFY_INVAL_ENTRY, body)
}

/// Tells the kernel that the entry `name` of directory `parent`, inode `child`, is gone.
pub fn notify_delete(parent: u64, child: u64, name: &[u8]) -> (r: Vec<u8>)
    requires
        OUT_HEADER_SIZE + 24 + name@.len() + 1 <= u32::MAX,
    ensures
        r@ == notify_frame(
            FUSE_NOTIFY_DELETE,
            NotifyDeleteOut { parent, child, namelen: name@.len() as u32, padding: 0 }.spec_bytes()
                + name@ + seq![0u8],
        ),
{
    let head = NotifyDeleteOut { parent, child, namelen: name.len() as u32, padding: 0 };
    let mut body = head.to_bytes();
    append_bytes(&mut body, name);
    body.push(0u8);
    assert(body@ =~= head.spec_bytes() + name@ + seq![0u8]);
    notification(FUSE_NOTIFY_DELETE, body)
}

/// Replaces `data.len()` bytes at `offset` of the kernel's cache of inode `ino` by `data`.
pub fn notify_store(ino: u64, offset: u64, data: &[u8]) -> (r: Vec<u8>)
    requires
        OUT_HEADER_SIZE + 24 + data@.len() <= u32::MAX,
    ensures
        r@ == notify_frame(
            FUSE_NOTIFY_STORE,
            NotifyStoreOut { nodeid: ino, offset, size: data@.len() as u32, padding: 0 }.spec_bytes()
                + data@,
        ),
{
    let head = NotifyStoreOut { nodeid: ino, offset, size: data.len() as u32, padding: 0 };
    let mut body = head.to_bytes();
    append_bytes(&mut body, data);
    notification(FUSE_NOTIFY_STORE, body)
}

/// Wakes up the kernel's poll waiters on the handle `kh`.
pub fn notify_poll_wakeup(kh: u64) -> (r: Vec<u8>)
    ensures
        r@ == notify_frame(FUSE_NOTIFY_POLL, NotifyPollWakeupOut { kh }.spec_bytes()),
{
    notification(FUSE_NOTIFY_POLL, NotifyPollWakeupOut { kh }.to_bytes())
}

} // verus!

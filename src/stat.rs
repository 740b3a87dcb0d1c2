//! The struct marshaller for `stat` results: a host `stat` laid out as the
//! guest C library's 80-byte record.
//!
//! Layout, little-endian, offsets in bytes:
//! `0` device, `4` zero, `8` inode (low word), `12` mode, `16` link count,
//! `20` uid, `24` gid, `28` rdev, `32` zero, `36` size, `40` block size,
//! `44` block count, `48` access time, `56` modification time,
//! `64` status-change time, `72` inode; the last four are 64-bit wide, the
//! others 32-bit wide and truncated from the host's value.
use crate::le::{encode_u32, encode_u64, le32, le64};
use crate::memory::{in_bounds, splice, Fault, GuestMemory};
use vstd::prelude::*;

verus! {

/// Length in bytes of the guest's `stat` record.
pub const STAT_RECORD_LEN: u32 = 80;

/// What a host `stat` call reports, as plain values.
#[derive(Clone, Copy, Debug, PartialEq, Eq, Structural)]
pub struct HostStat {
    pub dev: u64,
    pub ino: u64,
    pub mode: u32,
    pub nlink: u64,
    pub uid: u32,
    pub gid: u32,
    pub rdev: u64,
    pub size: i64,
    pub blksize: i64,
    pub blocks: i64,
    pub atime: i64,
    pub mtime: i64,
    pub ctime: i64,
}

/// The guest record for `st`.
pub open spec fn stat_record(st: HostStat) -> Seq<u8> {
    le32(st.dev as u32) + le32(0) + le32(st.ino as u32) + le32(st.mode) + le32(st.nlink as u32)
        + le32(st.uid) + le32(st.gid) + le32(st.rdev as u32) + le32(0) + le32(st.size as u32)
        + le32(st.blksize as u32) + le32(st.blocks as u32) + le64(st.atime as u64) + le64(
        st.mtime as u64,
    ) + le64(st.ctime as u64) + le64(st.ino)
}

fn push_u32(out: &mut Vec<u8>, v: u32)
    ensures
        final(out)@ == old(out)@ + le32(v),
{
    let mut b = encode_u32(v);
    out.append(&mut b);
}

fn push_u64(out: &mut Vec<u8>, v: u64)
    ensures
        final(out)@ == old(out)@ + le64(v),
{
    let mut b = encode_u64(v);
    out.append(&mut b);
}

/// The bytes of the guest record for `st`.
pub fn stat_record_bytes(st: &HostStat) -> (r: Vec<u8>)
    ensures
        r@ == stat_record(*st),
        r@.len() == STAT_RECORD_LEN,
{
    let mut out: Vec<u8> = Vec::new();
    push_u32(&mut out, st.dev as u32);
    push_u32(&mut out, 0);
    push_u32(&mut out, st.ino as u32);
    push_u32(&mut out, st.mode);
    push_u32(&mut out, st.nlink as u32);
    push_u32(&mut out, st.uid);
    push_u32(&mut out, st.gid);
    push_u32(&mut out, st.rdev as u32);
    push_u32(&mut out, 0);
    push_u32(&mut out, st.size as u32);
    push_u32(&mut out, st.blksize as u32);
    push_u32(&mut out, st.blocks as u32);
    push_u64(&mut out, st.atime as u64);
    push_u64(&mut out, st.mtime as u64);
    push_u64(&mut out, st.ctime as u64);
    push_u64(&mut out, st.ino);
    assert(out@ =~= stat_record(*st));
    out
}

/// Writes the guest record for `st` at `buf`: the whole record, or, where it
/// does not fit in memory, nothing.
pub fn write_stat(mem: &mut GuestMemory, buf: u32, st: &HostStat) -> (r: Result<(), Fault>)
    requires
        old(mem).wf(),
    ensures
        final(mem).wf(),
        r is Ok <==> in_bounds(old(mem)@.len(), buf as int, STAT_RECORD_LEN as int),
        r is Ok ==> final(mem)@ == splice(old(mem)@, buf as int, stat_record(*st)),
        r matches Err(e) ==> e == Fault::OutOfBounds && final(mem)@ == old(mem)@,
{
    let record = stat_record_bytes(st);
    mem.write_bytes(buf, &record)
}

} // verus!

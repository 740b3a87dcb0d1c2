//! The syscall dispatch table and the verified part of each handler. A
//! handler that needs the host reads its arguments here, hands the embedding
//! a request, and takes the host's answer back here to update guest memory
//! and compute the guest's 32-bit result.
use crate::args::{arg_i32, arg_word, args_fit, word_at, VarArgs};
use crate::le::{encode_u32, le32};
use crate::memory::{has_nul_from, in_bounds, is_c_string_at, splice, Fault, GuestMemory, Window};
use crate::stat::{stat_record, write_stat, HostStat, STAT_RECORD_LEN};
use vstd::prelude::*;

verus! {

/// Alignment that anonymous mappings are allocated with.
pub const MMAP_ALIGNMENT: u32 = 16384;

/// What the table does with a syscall number.
#[derive(Clone, Copy, Debug, PartialEq, Eq, Structural)]
pub enum Handler {
    Exit,
    Chdir,
    GetPid,
    Rmdir,
    Getcwd,
    Mmap,
    Lseek,
    Readv,
    Stat,
    Fstat,
    Fcntl,
    Prlimit,
    /// Known, not implemented: the result is -1.
    Stub,
    /// Not in the table.
    Unknown,
}

/// The dispatch table, by the 32-bit Linux numbering.
pub open spec fn handler_of(which: i32) -> Handler {
    if which == 1 {
        Handler::Exit
    } else if which == 12 {
        Handler::Chdir
    } else if which == 20 || which == 64 {
        Handler::GetPid
    } else if which == 40 {
        Handler::Rmdir
    } else if which == 183 {
        Handler::Getcwd
    } else if which == 192 {
        Handler::Mmap
    } else if which == 140 {
        Handler::Lseek
    } else if which == 145 {
        Handler::Readv
    } else if which == 195 {
        Handler::Stat
    } else if which == 197 {
        Handler::Fstat
    } else if which == 221 {
        Handler::Fcntl
    } else if which == 340 {
        Handler::Prlimit
    } else if which == 10 || which == 38 || which == 60 || which == 66 || which == 75 || which
        == 85 || which == 91 || which == 97 || which == 110 || which == 168 || which == 191
        || which == 199 || which == 220 || which == 268 || which == 272 || which == 295 || which
        == 300 || which == 334 {
        Handler::Stub
    } else {
        Handler::Unknown
    }
}

/// The handler for syscall number `which`.
pub fn lookup(which: i32) -> (r: Handler)
    ensures
        r == handler_of(which),
{
    match which {
        1 => Handler::Exit,
        12 => Handler::Chdir,
        20 | 64 => Handler::GetPid,
        40 => Handler::Rmdir,
        183 => Handler::Getcwd,
        192 => Handler::Mmap,
        140 => Handler::Lseek,
        145 => Handler::Readv,
        195 => Handler::Stat,
        197 => Handler::Fstat,
        221 => Handler::Fcntl,
        340 => Handler::Prlimit,
        10 | 38 | 60 | 66 | 75 | 85 | 91 | 97 | 110 | 168 | 191 | 199 | 220 | 268 | 272 | 295
        | 300 | 334 => Handler::Stub,
        _ => Handler::Unknown,
    }
}

/// `exit`: the status the guest ends with.
pub fn exit_status(mem: &GuestMemory, args: &mut VarArgs) -> (r: Result<i32, Fault>)
    requires
        mem.wf(),
    ensures
        r is Ok <==> args_fit(mem@, old(args).pointer, 1),
        r matches Ok(s) ==> s == arg_i32(mem@, old(args).pointer, 0) && final(args).pointer
            == old(args).pointer + 4,
{
    args.get_i32(mem)
}

/// `chdir`, `rmdir`: the path that the first argument points at.
pub fn path_arg(mem: &GuestMemory, args: &mut VarArgs) -> (r: Result<Vec<u8>, Fault>)
    requires
        mem.wf(),
    ensures
        r is Ok <==> args_fit(mem@, old(args).pointer, 1) && has_nul_from(
            mem@,
            arg_word(mem@, old(args).pointer, 0) as int,
        ),
        r matches Ok(s) ==> is_c_string_at(mem@, arg_word(mem@, old(args).pointer, 0) as int, s@)
            && final(args).pointer == old(args).pointer + 4,
{
    let addr = args.get_u32(mem)?;
    mem.read_c_string(addr)
}

/// `getcwd`: writes the host's working directory `cwd`, NUL-terminated, at
/// the buffer that the first argument names and returns that address. The
/// size argument is read and not enforced; the write is checked against
/// memory, and on a fault nothing is written.
pub fn getcwd(mem: &mut GuestMemory, args: &mut VarArgs, cwd: Vec<u8>) -> (r: Result<i32, Fault>)
    requires
        old(mem).wf(),
    ensures
        final(mem).wf(),
        r is Ok <==> args_fit(old(mem)@, old(args).pointer, 2) && in_bounds(
            old(mem)@.len(),
            arg_word(old(mem)@, old(args).pointer, 0) as int,
            cwd@.len() + 1int,
        ),
        r matches Ok(v) ==> v == arg_i32(old(mem)@, old(args).pointer, 0) && final(args).pointer
            == old(args).pointer + 8 && final(mem)@ == splice(
            old(mem)@,
            arg_word(old(mem)@, old(args).pointer, 0) as int,
            cwd@.push(0),
        ),
        r is Err ==> final(mem)@ == old(mem)@,
{
    let buf = args.get_u32(mem)?;
    let _size = args.get_i32(mem)?;
    let mut bytes = cwd;
    bytes.push(0);
    mem.write_bytes(buf, &bytes)?;
    Ok(buf as i32)
}

/// What `mmap` asks of the host.
#[derive(Clone, Copy, Debug, PartialEq, Eq, Structural)]
pub enum MmapRequest {
    /// Allocate `len` bytes with `MMAP_ALIGNMENT`, then finish with `mmap_finish`.
    Anonymous { len: u32 },
    /// A file-backed mapping: the result is -1.
    Unsupported,
}

/// `mmap2`: reads the six arguments; only descriptor -1 is served.
pub fn mmap_args(mem: &GuestMemory, args: &mut VarArgs) -> (r: Result<MmapRequest, Fault>)
    requires
        mem.wf(),
    ensures
        r is Ok <==> args_fit(mem@, old(args).pointer, 6),
        r matches Ok(q) ==> final(args).pointer == old(args).pointer + 24 && q == (if arg_i32(
            mem@,
            old(args).pointer,
            4,
        ) == -1 {
            MmapRequest::Anonymous { len: arg_word(mem@, old(args).pointer, 1) }
        } else {
            MmapRequest::Unsupported
        }),
{
    let _addr = args.get_i32(mem)?;
    let len = args.get_u32(mem)?;
    let _prot = args.get_i32(mem)?;
    let _flags = args.get_i32(mem)?;
    let fd = args.get_i32(mem)?;
    let _off = args.get_i32(mem)?;
    if fd == -1 {
        Ok(MmapRequest::Anonymous { len })
    } else {
        Ok(MmapRequest::Unsupported)
    }
}

/// `mmap2`, anonymous: given the guest allocator's answer `ptr` for `len`
/// bytes, zero-fills them and returns the address; -1 where the allocation
/// failed (`ptr` is 0).
pub fn mmap_finish(mem: &mut GuestMemory, ptr: u32, len: u32) -> (r: Result<i32, Fault>)
    requires
        old(mem).wf(),
    ensures
        final(mem).wf(),
        ptr == 0 ==> r == Ok::<i32, Fault>(-1i32) && final(mem)@ == old(mem)@,
        ptr != 0 ==> (r is Ok <==> in_bounds(old(mem)@.len(), ptr as int, len as int)),
        ptr != 0 && r is Ok ==> r == Ok::<i32, Fault>(ptr as i32) && final(mem)@ == splice(
            old(mem)@,
            ptr as int,
            Seq::new(len as nat, |i: int| 0u8),
        ),
        ptr != 0 && ptr <= 0x7fff_ffff && r is Ok ==> r->Ok_0 == ptr,
        r is Err ==> final(mem)@ == old(mem)@,
{
    if ptr == 0 {
        return Ok(-1);
    }
    mem.fill(ptr, len, 0)?;
    assert(ptr <= 0x7fff_ffff ==> ptr as i32 == ptr) by (bit_vector);
    Ok(ptr as i32)
}

/// What `lseek` asks of the host.
#[derive(Clone, Copy, Debug, PartialEq, Eq, Structural)]
pub struct LseekRequest {
    pub fd: i32,
    /// The low word of the requested offset; the high word is ignored.
    pub offset: i64,
    pub whence: i32,
    /// Where the resulting offset goes, for `lseek_finish`.
    pub result_ptr: u32,
}

/// `lseek`: reads descriptor, high and low offset words, result pointer and
/// whence.
pub fn lseek_args(mem: &GuestMemory, args: &mut VarArgs) -> (r: Result<LseekRequest, Fault>)
    requires
        mem.wf(),
    ensures
        r is Ok <==> args_fit(mem@, old(args).pointer, 5),
        r matches Ok(q) ==> final(args).pointer == old(args).pointer + 20 && q == (LseekRequest {
            fd: arg_i32(mem@, old(args).pointer, 0),
            offset: arg_i32(mem@, old(args).pointer, 2) as i64,
            whence: arg_i32(mem@, old(args).pointer, 4),
            result_ptr: arg_word(mem@, old(args).pointer, 3),
        }),
{
    let fd = args.get_i32(mem)?;
    let _high = args.get_i32(mem)?;
    let low = args.get_i32(mem)?;
    let result_ptr = args.get_u32(mem)?;
    let whence = args.get_i32(mem)?;
    Ok(LseekRequest { fd, offset: low as i64, whence, result_ptr })
}

/// `lseek`: given the host's answer `host`, the new offset or a negative
/// value, writes the offset's low word at `result_ptr` and returns 0; -1,
/// with nothing written, where the host failed.
pub fn lseek_finish(mem: &mut GuestMemory, result_ptr: u32, host: i64) -> (r: Result<i32, Fault>)
    requires
        old(mem).wf(),
    ensures
        final(mem).wf(),
        host < 0 ==> r == Ok::<i32, Fault>(-1i32) && final(mem)@ == old(mem)@,
        host >= 0 ==> (r is Ok <==> in_bounds(old(mem)@.len(), result_ptr as int, 4)),
        host >= 0 && r is Ok ==> r == Ok::<i32, Fault>(0) && final(mem)@ == splice(
            old(mem)@,
            result_ptr as int,
            le32(host as u32),
        ),
        r is Err ==> final(mem)@ == old(mem)@,
{
    if host < 0 {
        return Ok(-1);
    }
    mem.write_u32(result_ptr, host as u32)?;
    Ok(0)
}

/// `fcntl64` on command `cmd`: 0 for 2 and for the lock commands 13 and 14,
/// -1 for any other.
pub open spec fn fcntl_result(cmd: u32) -> i32 {
    if cmd == 2 || cmd == 13 || cmd == 14 {
        0
    } else {
        -1i32
    }
}

/// `fcntl64`: reads descriptor and command; the descriptor plays no part.
pub fn fcntl64(mem: &GuestMemory, args: &mut VarArgs) -> (r: Result<i32, Fault>)
    requires
        mem.wf(),
    ensures
        r is Ok <==> args_fit(mem@, old(args).pointer, 2),
        r matches Ok(v) ==> v == fcntl_result(arg_word(mem@, old(args).pointer, 1))
            && final(args).pointer == old(args).pointer + 8,
{
    let _fd = args.get_i32(mem)?;
    let cmd = args.get_u32(mem)?;
    match cmd {
        2 => Ok(0),
        13 | 14 => Ok(0),
        _ => Ok(-1),
    }
}

/// `prlimit64`: applies nothing; where the old-limit address is not 0, writes
/// there the four words of an unlimited soft and hard limit, all bits set.
/// Returns 0.
pub fn prlimit64(mem: &mut GuestMemory, args: &mut VarArgs) -> (r: Result<i32, Fault>)
    requires
        old(mem).wf(),
    ensures
        final(mem).wf(),
        r is Ok <==> args_fit(old(mem)@, old(args).pointer, 4) && (arg_word(
            old(mem)@,
            old(args).pointer,
            3,
        ) == 0 || in_bounds(old(mem)@.len(), arg_word(old(mem)@, old(args).pointer, 3) as int, 16)),
        r matches Ok(v) ==> v == 0 && final(args).pointer == old(args).pointer + 16 && final(mem)@
            == (if arg_word(old(mem)@, old(args).pointer, 3) == 0 {
            old(mem)@
        } else {
            splice(
                old(mem)@,
                arg_word(old(mem)@, old(args).pointer, 3) as int,
                Seq::new(16, |i: int| 0xffu8),
            )
        }),
        r is Err ==> final(mem)@ == old(mem)@,
{
    let _pid = args.get_i32(mem)?;
    let _resource = args.get_i32(mem)?;
    let _new_limit = args.get_u32(mem)?;
    let old_limit = args.get_u32(mem)?;
    if old_limit != 0 {
        let mut record: Vec<u8> = Vec::new();
        let mut i: u32 = 0;
        while i < 4
            invariant
                i <= 4,
                record@ == Seq::new(4 * i as nat, |j: int| 0xffu8),
            decreases 4 - i,
        {
            let mut word = encode_u32(0xffff_ffff);
            assert(word@ =~= seq![0xffu8, 0xffu8, 0xffu8, 0xffu8]);
            record.append(&mut word);
            i = i + 1;
            assert(record@ =~= Seq::new(4 * i as nat, |j: int| 0xffu8));
        }
        mem.write_bytes(old_limit, &record)?;
    }
    Ok(0)
}

/// The base address of the `i`-th element of the iovec array at `iov`.
pub open spec fn iovec_base(m: Seq<u8>, iov: u32, i: int) -> u32 {
    word_at(m, iov + 8 * i)
}

/// The length of the `i`-th element of the iovec array at `iov`.
pub open spec fn iovec_len(m: Seq<u8>, iov: u32, i: int) -> u32 {
    word_at(m, iov + 8 * i + 4)
}

/// A `readv` call in progress: one host read per iovec, in order.
#[derive(Clone, Copy, Debug, PartialEq, Eq, Structural)]
pub struct Readv {
    pub fd: i32,
    /// Guest address of the iovec array, 8 bytes per element.
    pub iov: u32,
    pub iovcnt: i32,
    /// Elements read so far.
    pub index: u32,
    /// Bytes read so far.
    pub total: u64,
    /// Whether a read has failed.
    pub failed: bool,
}

/// The next step of a `readv` call.
#[derive(Clone, Copy, Debug, PartialEq, Eq, Structural)]
pub enum ReadvAction {
    /// Read from `fd` into `window`, then hand the bytes to `Readv::deliver`.
    Read { fd: i32, window: Window },
    /// The call is over, with this result.
    Finish(i32),
}

/// `readv`: reads descriptor, iovec array address and count.
pub fn readv_args(mem: &GuestMemory, args: &mut VarArgs) -> (r: Result<Readv, Fault>)
    requires
        mem.wf(),
    ensures
        r is Ok <==> args_fit(mem@, old(args).pointer, 3),
        r matches Ok(s) ==> s.wf() && final(args).pointer == old(args).pointer + 12 && s == (
        Readv {
            fd: arg_i32(mem@, old(args).pointer, 0),
            iov: arg_word(mem@, old(args).pointer, 1),
            iovcnt: arg_i32(mem@, old(args).pointer, 2),
            index: 0,
            total: 0,
            failed: false,
        }),
{
    let fd = args.get_i32(mem)?;
    let iov = args.get_u32(mem)?;
    let iovcnt = args.get_i32(mem)?;
    Ok(Readv { fd, iov, iovcnt, index: 0, total: 0, failed: false })
}

impl Readv {
    /// No more elements done than asked for, and no more bytes than they hold.
    pub open spec fn wf(&self) -> bool {
        &&& self.index <= self.iovcnt || self.index == 0
        &&& self.total <= self.index * 0xffff_ffffnat
    }

    /// What comes next: -1 once a read has failed, whatever was read before;
    /// the total once every element is read; else a read into the next
    /// element's window, a fault where the element or its window lies out
    /// of memory.
    pub fn next(&self, mem: &GuestMemory) -> (r: Result<ReadvAction, Fault>)
        requires
            self.wf(),
            mem.wf(),
        ensures
            self.failed ==> r == Ok::<ReadvAction, Fault>(ReadvAction::Finish(-1i32)),
            !self.failed && self.index >= self.iovcnt ==> r == Ok::<ReadvAction, Fault>(
                ReadvAction::Finish(self.total as i32),
            ),
            !self.failed && self.index < self.iovcnt ==> (r is Ok <==> in_bounds(
                mem@.len(),
                self.iov + 8 * self.index,
                8,
            ) && in_bounds(
                mem@.len(),
                iovec_base(mem@, self.iov, self.index as int) as int,
                iovec_len(mem@, self.iov, self.index as int) as int,
            )),
            !self.failed && self.index < self.iovcnt && r is Ok ==> r == Ok::<ReadvAction, Fault>(
                ReadvAction::Read {
                    fd: self.fd,
                    window: Window {
                        start: iovec_base(mem@, self.iov, self.index as int),
                        len: iovec_len(mem@, self.iov, self.index as int),
                    },
                },
            ),
    {
        if self.failed {
            return Ok(ReadvAction::Finish(-1));
        }
        if self.index as i64 >= self.iovcnt as i64 {
            return Ok(ReadvAction::Finish(self.total as i32));
        }
        let entry: u64 = self.iov as u64 + 8 * self.index as u64;
        if entry > 0xffff_ffff {
            return Err(Fault::OutOfBounds);
        }
        let base = mem.read_u32(entry as u32)?;
        let len = mem.read_u32((entry + 4) as u32)?;
        let window = mem.translate(base, len)?;
        Ok(ReadvAction::Read { fd: self.fd, window })
    }

    /// Takes the host's answer for the read into `window`: `None` where it
    /// failed, which ends the call with -1; else the bytes read, which are
    /// copied into the window's start and counted. On a fault nothing is
    /// written and the call stays where it was.
    pub fn deliver(&mut self, mem: &mut GuestMemory, window: Window, data: Option<Vec<u8>>) -> (r:
        Result<(), Fault>)
        requires
            old(self).wf(),
            old(mem).wf(),
            !old(self).failed,
            old(self).index < old(self).iovcnt,
            data matches Some(d) ==> d@.len() <= window.len,
        ensures
            final(self).wf(),
            final(mem).wf(),
            final(self).fd == old(self).fd && final(self).iov == old(self).iov
                && final(self).iovcnt == old(self).iovcnt,
            data is None ==> r is Ok && final(self).failed && final(self).index == old(self).index
                && final(self).total == old(self).total && final(mem)@ == old(mem)@,
            data matches Some(d) ==> (r is Ok <==> in_bounds(
                old(mem)@.len(),
                window.start as int,
                d@.len() as int,
            )),
            data matches Some(d) ==> (r is Ok ==> !final(self).failed && final(self).index
                == old(self).index + 1 && final(self).total == old(self).total + d@.len()
                && final(mem)@ == splice(old(mem)@, window.start as int, d@)),
            r is Err ==> *final(self) == *old(self) && final(mem)@ == old(mem)@,
    {
        match data {
            None => {
                self.failed = true;
                Ok(())
            },
            Some(d) => {
                mem.write_bytes(window.start, &d)?;
                assert(self.total + d@.len() <= (self.index + 1) * 0xffff_ffffnat) by (nonlinear_arith)
                    requires
                        self.total <= self.index * 0xffff_ffffnat,
                        d@.len() <= 0xffff_ffff,
                ;
                self.total = self.total + d.len() as u64;
                self.index = self.index + 1;
                Ok(())
            },
        }
    }
}

/// What `stat64` asks of the host.
pub struct StatRequest {
    /// The path, without its terminator.
    pub path: Vec<u8>,
    /// Where the record goes, for `stat_finish`.
    pub buf: u32,
}

/// `stat64`: reads the path pointer and the record address, then the path.
pub fn stat_args(mem: &GuestMemory, args: &mut VarArgs) -> (r: Result<StatRequest, Fault>)
    requires
        mem.wf(),
    ensures
        r is Ok <==> args_fit(mem@, old(args).pointer, 2) && has_nul_from(
            mem@,
            arg_word(mem@, old(args).pointer, 0) as int,
        ),
        r matches Ok(q) ==> is_c_string_at(
            mem@,
            arg_word(mem@, old(args).pointer, 0) as int,
            q.path@,
        ) && q.buf == arg_word(mem@, old(args).pointer, 1) && final(args).pointer
            == old(args).pointer + 8,
{
    let pathname = args.get_u32(mem)?;
    let buf = args.get_u32(mem)?;
    let path = mem.read_c_string(pathname)?;
    Ok(StatRequest { path, buf })
}

/// What `fstat64` asks of the host.
#[derive(Clone, Copy, Debug, PartialEq, Eq, Structural)]
pub struct FstatRequest {
    pub fd: i32,
    /// Where the record goes, for `stat_finish`.
    pub buf: u32,
}

/// `fstat64`: reads the descriptor and the record address.
pub fn fstat_args(mem: &GuestMemory, args: &mut VarArgs) -> (r: Result<FstatRequest, Fault>)
    requires
        mem.wf(),
    ensures
        r is Ok <==> args_fit(mem@, old(args).pointer, 2),
        r matches Ok(q) ==> q == (FstatRequest {
            fd: arg_i32(mem@, old(args).pointer, 0),
            buf: arg_word(mem@, old(args).pointer, 1),
        }) && final(args).pointer == old(args).pointer + 8,
{
    let fd = args.get_i32(mem)?;
    let buf = args.get_u32(mem)?;
    Ok(FstatRequest { fd, buf })
}

/// `stat64`, `fstat64`: given the host call's status `ret` and, where it is 0,
/// what it reported, writes the guest record at `buf` and returns 0; any
/// other status is returned as it is, with nothing written.
pub fn stat_finish(mem: &mut GuestMemory, buf: u32, ret: i32, st: &HostStat) -> (r: Result<
    i32,
    Fault,
>)
    requires
        old(mem).wf(),
    ensures
        final(mem).wf(),
        ret != 0 ==> r == Ok::<i32, Fault>(ret) && final(mem)@ == old(mem)@,
        ret == 0 ==> (r is Ok <==> in_bounds(old(mem)@.len(), buf as int, STAT_RECORD_LEN as int)),
        ret == 0 && r is Ok ==> r == Ok::<i32, Fault>(0i32) && final(mem)@ == splice(
            old(mem)@,
            buf as int,
            stat_record(*st),
        ),
        r is Err ==> final(mem)@ == old(mem)@,
{
    if ret != 0 {
        return Ok(ret);
    }
    write_stat(mem, buf, st)?;
    Ok(0)
}

} // verus!

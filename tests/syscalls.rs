use emscripten_syscalls::args::VarArgs;
use emscripten_syscalls::memory::{Fault, GuestMemory, Window};
use emscripten_syscalls::stat::{stat_record_bytes, write_stat, HostStat, STAT_RECORD_LEN};
use emscripten_syscalls::syscalls::{
    exit_status, fcntl64, fstat_args, getcwd, lookup, lseek_args, lseek_finish, mmap_args,
    mmap_finish, path_arg, prlimit64, readv_args, stat_args, stat_finish, FstatRequest, Handler,
    LseekRequest, MmapRequest, ReadvAction, MMAP_ALIGNMENT,
};

const ARGS: u32 = 16;

/// A memory of `size` bytes whose argument block at `ARGS` holds `words`.
fn memory_with_args(size: u32, words: &[u32]) -> GuestMemory {
    let mut mem = GuestMemory::new(size);
    for (i, w) in words.iter().enumerate() {
        mem.write_u32(ARGS + 4 * i as u32, *w).unwrap();
    }
    mem
}

fn sample_stat() -> HostStat {
    HostStat {
        dev: 0x0000_0001_0000_0002,
        ino: 0x0000_0003_0000_0004,
        mode: 0o100644,
        nlink: 1,
        uid: 1000,
        gid: 100,
        rdev: 0,
        size: 1234,
        blksize: 4096,
        blocks: 8,
        atime: 1_600_000_000,
        mtime: 1_600_000_001,
        ctime: -1,
    }
}

#[test]
fn table_maps_numbers_to_handlers() {
    assert_eq!(lookup(1), Handler::Exit);
    assert_eq!(lookup(12), Handler::Chdir);
    assert_eq!(lookup(20), Handler::GetPid);
    assert_eq!(lookup(64), Handler::GetPid);
    assert_eq!(lookup(40), Handler::Rmdir);
    assert_eq!(lookup(183), Handler::Getcwd);
    assert_eq!(lookup(192), Handler::Mmap);
    assert_eq!(lookup(140), Handler::Lseek);
    assert_eq!(lookup(145), Handler::Readv);
    assert_eq!(lookup(195), Handler::Stat);
    assert_eq!(lookup(197), Handler::Fstat);
    assert_eq!(lookup(221), Handler::Fcntl);
    assert_eq!(lookup(340), Handler::Prlimit);
    for n in [10, 38, 60, 66, 75, 85, 91, 97, 110, 168, 191, 199, 220, 268, 272, 295, 300, 334] {
        assert_eq!(lookup(n), Handler::Stub);
    }
    assert_eq!(lookup(0), Handler::Unknown);
    assert_eq!(lookup(4), Handler::Unknown);
    assert_eq!(lookup(-1), Handler::Unknown);
}

#[test]
fn exit_reads_status() {
    let mem = memory_with_args(64, &[(-3i32) as u32]);
    let mut args = VarArgs::new(ARGS);
    assert_eq!(exit_status(&mem, &mut args), Ok(-3));
    assert_eq!(args.pointer, ARGS + 4);
}

#[test]
fn path_argument_is_read_up_to_nul() {
    let mut mem = memory_with_args(64, &[40]);
    mem.write_bytes(40, &b"/tmp/dir\0".to_vec()).unwrap();
    let mut args = VarArgs::new(ARGS);
    assert_eq!(path_arg(&mem, &mut args), Ok(b"/tmp/dir".to_vec()));
    assert_eq!(args.pointer, ARGS + 4);
}

#[test]
fn path_argument_past_memory_faults() {
    let mem = memory_with_args(64, &[1000]);
    let mut args = VarArgs::new(ARGS);
    assert_eq!(path_arg(&mem, &mut args), Err(Fault::OutOfBounds));
}

#[test]
fn getcwd_writes_path_with_nul() {
    let mut mem = memory_with_args(64, &[32, 16]);
    mem.fill(32, 16, 0xee).unwrap();
    let mut args = VarArgs::new(ARGS);
    assert_eq!(getcwd(&mut mem, &mut args, b"/tmp/x".to_vec()), Ok(32));
    assert_eq!(args.pointer, ARGS + 8);
    assert_eq!(mem.read_bytes(32, 8), Ok(b"/tmp/x\0\xee".to_vec()));
}

#[test]
fn getcwd_past_memory_faults_and_writes_nothing() {
    let mut mem = memory_with_args(64, &[60, 16]);
    let mut args = VarArgs::new(ARGS);
    assert_eq!(getcwd(&mut mem, &mut args, b"/tmp/x".to_vec()), Err(Fault::OutOfBounds));
    assert_eq!(mem.read_bytes(60, 4), Ok(vec![0, 0, 0, 0]));
}

#[test]
fn mmap_anonymous_asks_for_allocation() {
    let mem = memory_with_args(64, &[0, 4096, 3, 0x22, u32::MAX, 0]);
    let mut args = VarArgs::new(ARGS);
    assert_eq!(mmap_args(&mem, &mut args), Ok(MmapRequest::Anonymous { len: 4096 }));
    assert_eq!(args.pointer, ARGS + 24);
    assert_eq!(MMAP_ALIGNMENT, 16384);
}

#[test]
fn mmap_file_backed_is_unsupported() {
    let mem = memory_with_args(64, &[0, 4096, 3, 0x22, 5, 0]);
    let mut args = VarArgs::new(ARGS);
    assert_eq!(mmap_args(&mem, &mut args), Ok(MmapRequest::Unsupported));
}

#[test]
fn mmap_finish_zero_fills() {
    let mut mem = GuestMemory::new(64);
    mem.fill(0, 64, 0x55).unwrap();
    assert_eq!(mmap_finish(&mut mem, 32, 8), Ok(32));
    assert_eq!(mem.read_bytes(31, 10), Ok(vec![0x55, 0, 0, 0, 0, 0, 0, 0, 0, 0x55]));
}

#[test]
fn mmap_failed_allocation_returns_minus_one() {
    let mut mem = GuestMemory::new(64);
    assert_eq!(mmap_finish(&mut mem, 0, 8), Ok(-1));
}

#[test]
fn mmap_finish_past_memory_faults() {
    let mut mem = GuestMemory::new(64);
    assert_eq!(mmap_finish(&mut mem, 60, 8), Err(Fault::OutOfBounds));
}

#[test]
fn lseek_set_writes_new_offset() {
    // descriptor 3 stands at offset 10; high word 0, low word 5, SEEK_SET
    let mut mem = memory_with_args(64, &[3, 0, 5, 48, 0]);
    mem.write_u32(48, 10).unwrap();
    let mut args = VarArgs::new(ARGS);
    let q = lseek_args(&mem, &mut args).unwrap();
    assert_eq!(q, LseekRequest { fd: 3, offset: 5, whence: 0, result_ptr: 48 });
    assert_eq!(args.pointer, ARGS + 20);
    // a host lseek to 5 with SEEK_SET answers 5
    assert_eq!(lseek_finish(&mut mem, q.result_ptr, 5), Ok(0));
    assert_eq!(mem.read_u32(48), Ok(5));
}

#[test]
fn lseek_ignores_high_word() {
    let mem = memory_with_args(64, &[3, 7, 9, 48, 1]);
    let mut args = VarArgs::new(ARGS);
    let q = lseek_args(&mem, &mut args).unwrap();
    assert_eq!(q.offset, 9);
    assert_eq!(q.whence, 1);
}

#[test]
fn lseek_failure_leaves_result_unwritten() {
    let mut mem = GuestMemory::new(64);
    mem.write_u32(48, 10).unwrap();
    assert_eq!(lseek_finish(&mut mem, 48, -1), Ok(-1));
    assert_eq!(mem.read_u32(48), Ok(10));
}

#[test]
fn lseek_result_past_memory_faults() {
    let mut mem = GuestMemory::new(64);
    assert_eq!(lseek_finish(&mut mem, 62, 5), Err(Fault::OutOfBounds));
}

#[test]
fn readv_failure_discards_earlier_count() {
    // two iovecs at 40: [64, 4] and [72, 4]
    let mut mem = memory_with_args(128, &[3, 40, 2]);
    for (off, v) in [(40u32, 64u32), (44, 4), (48, 72), (52, 4)] {
        mem.write_u32(off, v).unwrap();
    }
    let mut args = VarArgs::new(ARGS);
    let mut call = readv_args(&mem, &mut args).unwrap();
    assert_eq!(args.pointer, ARGS + 12);
    let first = Window { start: 64, len: 4 };
    assert_eq!(call.next(&mem), Ok(ReadvAction::Read { fd: 3, window: first }));
    call.deliver(&mut mem, first, Some(b"abc".to_vec())).unwrap();
    let second = Window { start: 72, len: 4 };
    assert_eq!(call.next(&mem), Ok(ReadvAction::Read { fd: 3, window: second }));
    call.deliver(&mut mem, second, None).unwrap();
    assert_eq!(call.next(&mem), Ok(ReadvAction::Finish(-1)));
    assert_eq!(mem.read_bytes(64, 4), Ok(b"abc\0".to_vec()));
}

#[test]
fn readv_counts_all_bytes() {
    let mut mem = memory_with_args(128, &[3, 40, 2]);
    for (off, v) in [(40u32, 64u32), (44, 4), (48, 72), (52, 4)] {
        mem.write_u32(off, v).unwrap();
    }
    let mut args = VarArgs::new(ARGS);
    let mut call = readv_args(&mem, &mut args).unwrap();
    let data = [b"abcd".to_vec(), b"ef".to_vec()];
    for d in data {
        match call.next(&mem).unwrap() {
            ReadvAction::Read { window, .. } => call.deliver(&mut mem, window, Some(d)).unwrap(),
            ReadvAction::Finish(_) => panic!("finished early"),
        }
    }
    assert_eq!(call.next(&mem), Ok(ReadvAction::Finish(6)));
    assert_eq!(mem.read_bytes(64, 10), Ok(b"abcd\0\0\0\0ef".to_vec()));
}

#[test]
fn readv_with_no_iovecs_returns_zero() {
    let mem = memory_with_args(64, &[3, 40, 0]);
    let mut args = VarArgs::new(ARGS);
    let call = readv_args(&mem, &mut args).unwrap();
    assert_eq!(call.next(&mem), Ok(ReadvAction::Finish(0)));
}

#[test]
fn readv_iovec_past_memory_faults() {
    let mut mem = memory_with_args(64, &[3, 40, 1]);
    mem.write_u32(40, 60).unwrap();
    mem.write_u32(44, 8).unwrap();
    let mut args = VarArgs::new(ARGS);
    let call = readv_args(&mem, &mut args).unwrap();
    assert_eq!(call.next(&mem), Err(Fault::OutOfBounds));
}

#[test]
fn stat_record_layout() {
    let r = stat_record_bytes(&sample_stat());
    assert_eq!(r.len(), STAT_RECORD_LEN as usize);
    let word = |o: usize| u32::from_le_bytes([r[o], r[o + 1], r[o + 2], r[o + 3]]);
    let dword = |o: usize| u64::from_le_bytes(r[o..o + 8].try_into().unwrap());
    assert_eq!(word(0), 2);
    assert_eq!(word(4), 0);
    assert_eq!(word(8), 4);
    assert_eq!(word(12), 0o100644);
    assert_eq!(word(16), 1);
    assert_eq!(word(20), 1000);
    assert_eq!(word(24), 100);
    assert_eq!(word(28), 0);
    assert_eq!(word(32), 0);
    assert_eq!(word(36), 1234);
    assert_eq!(word(40), 4096);
    assert_eq!(word(44), 8);
    assert_eq!(dword(48), 1_600_000_000);
    assert_eq!(dword(56), 1_600_000_001);
    assert_eq!(dword(64), u64::MAX);
    assert_eq!(dword(72), 0x0000_0003_0000_0004);
}

#[test]
fn write_stat_needs_whole_record() {
    let mut mem = GuestMemory::new(100);
    assert_eq!(write_stat(&mut mem, 21, &sample_stat()), Err(Fault::OutOfBounds));
    assert_eq!(mem.read_bytes(0, 100), Ok(vec![0u8; 100]));
    assert_eq!(write_stat(&mut mem, 20, &sample_stat()), Ok(()));
    assert_eq!(mem.read_bytes(20, 80), Ok(stat_record_bytes(&sample_stat())));
}

#[test]
fn stat_reads_path_and_buffer() {
    let mut mem = memory_with_args(128, &[40, 48]);
    mem.write_bytes(40, &b"a.txt\0".to_vec()).unwrap();
    let mut args = VarArgs::new(ARGS);
    let q = stat_args(&mem, &mut args).unwrap();
    assert_eq!(q.path, b"a.txt".to_vec());
    assert_eq!(q.buf, 48);
    assert_eq!(args.pointer, ARGS + 8);
}

#[test]
fn fstat_reads_descriptor_and_buffer() {
    let mem = memory_with_args(64, &[5, 32]);
    let mut args = VarArgs::new(ARGS);
    assert_eq!(fstat_args(&mem, &mut args), Ok(FstatRequest { fd: 5, buf: 32 }));
}

#[test]
fn stat_finish_writes_record() {
    let mut mem = GuestMemory::new(128);
    assert_eq!(stat_finish(&mut mem, 32, 0, &sample_stat()), Ok(0));
    assert_eq!(mem.read_bytes(32, 80), Ok(stat_record_bytes(&sample_stat())));
}

#[test]
fn stat_failure_status_passes_through() {
    let mut mem = GuestMemory::new(128);
    assert_eq!(stat_finish(&mut mem, 32, -1, &sample_stat()), Ok(-1));
    assert_eq!(mem.read_bytes(0, 128), Ok(vec![0u8; 128]));
}

#[test]
fn fcntl_known_commands() {
    for (cmd, expected) in [(2u32, 0), (13, 0), (14, 0), (0, -1), (1, -1), (3, -1), (12, -1), (15, -1)] {
        for fd in [0u32, 7, u32::MAX] {
            let mem = memory_with_args(64, &[fd, cmd]);
            let mut args = VarArgs::new(ARGS);
            assert_eq!(fcntl64(&mem, &mut args), Ok(expected));
            assert_eq!(args.pointer, ARGS + 8);
        }
    }
}

#[test]
fn prlimit_reports_unlimited() {
    for (pid, resource) in [(0u32, 7u32), (42, 3)] {
        let mut mem = memory_with_args(64, &[pid, resource, 0, 40]);
        let mut args = VarArgs::new(ARGS);
        assert_eq!(prlimit64(&mut mem, &mut args), Ok(0));
        assert_eq!(args.pointer, ARGS + 16);
        assert_eq!(mem.read_bytes(40, 16), Ok(vec![0xffu8; 16]));
        assert_eq!(mem.read_bytes(56, 4), Ok(vec![0u8; 4]));
    }
}

#[test]
fn prlimit_without_old_limit_writes_nothing() {
    let mut mem = memory_with_args(64, &[0, 7, 0, 0]);
    let before = mem.read_bytes(0, 64).unwrap();
    let mut args = VarArgs::new(ARGS);
    assert_eq!(prlimit64(&mut mem, &mut args), Ok(0));
    assert_eq!(mem.read_bytes(0, 64), Ok(before));
}

#[test]
fn arguments_past_memory_fault() {
    let mem = GuestMemory::new(20);
    let mut args = VarArgs::new(ARGS);
    assert_eq!(fcntl64(&mem, &mut args), Err(Fault::OutOfBounds));
}

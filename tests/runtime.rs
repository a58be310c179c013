use emscripten_abi::instance::{EmscriptenData, JUMP_POOL_CAPACITY};
use emscripten_abi::jmp::{ControlError, JumpHandle, JumpPool};
use emscripten_abi::memory::{GuestMemory, GuestRange};
use emscripten_abi::dispatch::{dispatch_long_jmp, dispatch_set_jmp, dispatch_syscall, Dispatch, JumpAction};
use emscripten_abi::registry::{
    generate_emscripten_env, import_entry, Handler, ImportEntry, ImportKind, ValType,
    IMPORT_COUNT, INFINITY_BITS, NAN_BITS,
};
use emscripten_abi::syscalls::{
    decode_syscall, host_status, mocked_syscall, readv_progress, store_seek_result,
    stat_words, syscall_completed, syscall_failed, HostCall, Identity, StatInfo, SyscallError,
    EFAULT, EINVAL, ENOSYS, EOVERFLOW, STAT_SIZE,
};
use emscripten_abi::varargs::ArgCursor;

fn memory_with_words(size: usize, at: u32, words: &[u32]) -> GuestMemory {
    let mut m = GuestMemory::new(size);
    for (i, w) in words.iter().enumerate() {
        assert!(m.write_u32(at + 4 * i as u32, *w));
    }
    m
}

#[test]
fn variadic_slots_are_four_bytes_apart() {
    let m = memory_with_words(64, 8, &[11, 22, 33, 0xffff_ffff]);
    let mut c = ArgCursor::new(8);
    assert_eq!(c.read_slots(&m, 3), Some(vec![11, 22, 33]));
    assert_eq!(c.count, 3);
    assert_eq!(c.base_offset, 8);
    assert_eq!(c.next_i32(&m), Some(-1));
    assert_eq!(c.count, 4);
}

#[test]
fn variadic_read_past_memory_fails_and_keeps_cursor() {
    let m = memory_with_words(16, 4, &[1, 2, 3]);
    let mut c = ArgCursor::new(4);
    assert_eq!(c.read_slots(&m, 4), None);
    assert_eq!(c, ArgCursor::new(4));
    assert_eq!(c.read_slots(&m, 0), Some(vec![]));
    assert_eq!(c.next_u32(&m), Some(1));
    let mut far = ArgCursor::new(u32::MAX - 1);
    assert_eq!(far.next_u32(&m), None);
}

#[test]
fn jump_right_after_mark_resumes_there() {
    let mut pool = JumpPool::new(4);
    let h = pool.mark(3).unwrap();
    let r = pool.jump(h, 42).unwrap();
    assert_eq!(r.handle, h);
    assert_eq!(r.value, 42);
    assert_eq!(r.depth, 3);
    assert!(pool.is_live(h));
    pool.frame_returned(3);
    assert!(!pool.is_live(h));
    assert_eq!(pool.jump(h, 1), Err(ControlError::InvalidHandle));
}

#[test]
fn jump_discards_deeper_save_points() {
    let mut pool = JumpPool::new(4);
    let outer = pool.mark(1).unwrap();
    let inner = pool.mark(5).unwrap();
    assert_ne!(outer, inner);
    let r = pool.jump(outer, 0).unwrap();
    assert_eq!(r.value, 0);
    assert!(pool.is_live(outer));
    assert!(!pool.is_live(inner));
    assert_eq!(pool.jump(inner, 7), Err(ControlError::InvalidHandle));
}

#[test]
fn jump_pool_exhaustion_and_unknown_handles() {
    let mut pool = JumpPool::new(2);
    assert_eq!(pool.capacity(), 2);
    pool.mark(0).unwrap();
    pool.mark(0).unwrap();
    assert_eq!(pool.mark(0), Err(ControlError::PoolExhausted));
    assert_eq!(pool.jump(JumpHandle { slot: 9 }, 1), Err(ControlError::InvalidHandle));
    let mut empty = JumpPool::new(1);
    assert_eq!(empty.jump(JumpHandle { slot: 0 }, 1), Err(ControlError::InvalidHandle));
}

#[test]
fn write_syscall_decodes_guest_bytes() {
    let mut m = memory_with_words(256, 16, &[1, 100, 3]);
    assert!(m.write_bytes(100, &b"hi\n".to_vec()));
    match decode_syscall(4, &m, 16) {
        Ok(HostCall::Write { fd, data }) => {
            assert_eq!(fd, 1);
            assert_eq!(data, b"hi\n".to_vec());
        }
        other => panic!("unexpected {:?}", other),
    }
    let out = syscall_completed(Ok(3));
    assert_eq!(out.ret, 3);
    assert_eq!(out.errno, None);
}

#[test]
fn write_syscall_with_bad_buffer_faults() {
    let m = memory_with_words(64, 0, &[1, 60, 8]);
    assert_eq!(decode_syscall(4, &m, 0).unwrap_err(), SyscallError::Fault);
    assert_eq!(decode_syscall(4, &m, 62).unwrap_err(), SyscallError::Fault);
    let out = syscall_failed(SyscallError::Fault);
    assert_eq!((out.ret, out.errno), (-1, Some(EFAULT)));
}

#[test]
fn unimplemented_syscall_reports_enosys() {
    let m = GuestMemory::new(16);
    assert_eq!(decode_syscall(10, &m, 0).unwrap_err(), SyscallError::Unsupported);
    let out = mocked_syscall();
    assert_eq!(out.ret, -1);
    assert_eq!(out.errno, Some(ENOSYS));
    let mut data = EmscriptenData::new(1, 2, 3, 4, 5);
    assert_eq!(data.apply_outcome(out), -1);
    assert_eq!(data.errno, ENOSYS);
    assert_eq!(data.jumps.capacity(), JUMP_POOL_CAPACITY);
    assert_eq!(data.apply_outcome(syscall_completed(Ok(0))), 0);
    assert_eq!(data.errno, ENOSYS);
}

#[test]
fn host_error_reaches_errno() {
    let out = syscall_completed(Err(9));
    assert_eq!((out.ret, out.errno), (-1, Some(9)));
}

#[test]
fn read_syscall_checks_destination() {
    let m = memory_with_words(128, 0, &[0, 64, 64]);
    match decode_syscall(3, &m, 0) {
        Ok(HostCall::Read { fd, buf }) => {
            assert_eq!(fd, 0);
            assert_eq!(buf, GuestRange { start: 64, end: 128 });
        }
        other => panic!("unexpected {:?}", other),
    }
}

#[test]
fn path_syscalls_copy_strings() {
    let mut m = memory_with_words(128, 0, &[64, 2, 0o644]);
    assert!(m.write_bytes(64, &b"/tmp/x\0".to_vec()));
    match decode_syscall(5, &m, 0) {
        Ok(HostCall::Open { path, flags, mode }) => {
            assert_eq!(path, b"/tmp/x".to_vec());
            assert_eq!(flags, 2);
            assert_eq!(mode, 0o644);
        }
        other => panic!("unexpected {:?}", other),
    }
    match decode_syscall(39, &m, 0) {
        Ok(HostCall::Mkdir { path, mode }) => {
            assert_eq!(path, b"/tmp/x".to_vec());
            assert_eq!(mode, 2);
        }
        other => panic!("unexpected {:?}", other),
    }
    let unterminated = memory_with_words(8, 0, &[4, 0x4141_4141]);
    assert_eq!(decode_syscall(12, &unterminated, 0).unwrap_err(), SyscallError::Fault);
}

#[test]
fn simple_syscalls_decode() {
    let m = memory_with_words(32, 0, &[7, 9]);
    assert!(matches!(decode_syscall(1, &m, 0), Ok(HostCall::Exit { status: 7 })));
    assert!(matches!(decode_syscall(6, &m, 0), Ok(HostCall::Close { fd: 7 })));
    assert!(matches!(decode_syscall(63, &m, 0), Ok(HostCall::Dup2 { fd: 7, new_fd: 9 })));
    assert!(matches!(decode_syscall(20, &m, 0), Ok(HostCall::Query { which: Identity::Pid })));
    assert!(matches!(decode_syscall(64, &m, 0), Ok(HostCall::Query { which: Identity::ParentPid })));
    assert!(matches!(decode_syscall(201, &m, 0), Ok(HostCall::Query { which: Identity::EffectiveUid })));
    assert!(matches!(decode_syscall(202, &m, 0), Ok(HostCall::Query { which: Identity::EffectiveGid })));
    assert_eq!(decode_syscall(6, &m, 30).unwrap_err(), SyscallError::Fault);
}

#[test]
fn writev_gathers_spans_in_order() {
    let mut m = memory_with_words(256, 0, &[1, 12, 2, 128, 2, 200, 3]);
    assert!(m.write_bytes(128, &b"ab".to_vec()));
    assert!(m.write_bytes(200, &b"cde".to_vec()));
    match decode_syscall(146, &m, 0) {
        Ok(HostCall::Writev { fd, data }) => {
            assert_eq!(fd, 1);
            assert_eq!(data, b"abcde".to_vec());
        }
        other => panic!("unexpected {:?}", other),
    }
    match decode_syscall(145, &m, 0) {
        Ok(HostCall::Readv { fd, bufs }) => {
            assert_eq!(fd, 1);
            assert_eq!(
                bufs,
                vec![GuestRange { start: 128, end: 130 }, GuestRange { start: 200, end: 203 }]
            );
        }
        other => panic!("unexpected {:?}", other),
    }
}

#[test]
fn writev_rejects_bad_counts_and_spans() {
    let m = memory_with_words(256, 0, &[1, 32, 0xffff_ffff]);
    assert_eq!(decode_syscall(146, &m, 0).unwrap_err(), SyscallError::InvalidArgument);
    assert_eq!(syscall_failed(SyscallError::InvalidArgument).errno, Some(EINVAL));
    let bad = memory_with_words(256, 0, &[1, 12, 1, 250, 10]);
    assert_eq!(decode_syscall(146, &bad, 0).unwrap_err(), SyscallError::Fault);
}

#[test]
fn llseek_decodes_offset_and_stores_result() {
    let mut m = memory_with_words(64, 0, &[3, 1, 5, 40, 0]);
    let result = match decode_syscall(140, &m, 0) {
        Ok(HostCall::Seek { fd, offset, whence, result }) => {
            assert_eq!(fd, 3);
            assert_eq!(offset, (1i64 << 32) + 5);
            assert_eq!(whence, 0);
            assert_eq!(result, GuestRange { start: 40, end: 48 });
            result
        }
        other => panic!("unexpected {:?}", other),
    };
    assert!(store_seek_result(&mut m, result, (2u64 << 32) + 7));
    assert_eq!(m.read_u32(40), Some(7));
    assert_eq!(m.read_u32(44), Some(2));
    assert!(!store_seek_result(&mut m, GuestRange { start: 60, end: 68 }, 1));
}


#[test]
fn positional_io_decodes_offset() {
    let mut m = memory_with_words(128, 0, &[4, 64, 3, 0, 10, 1]);
    assert!(m.write_bytes(64, &b"xyz".to_vec()));
    match decode_syscall(181, &m, 0) {
        Ok(HostCall::Pwrite { fd, data, offset }) => {
            assert_eq!(fd, 4);
            assert_eq!(data, b"xyz".to_vec());
            assert_eq!(offset, (1i64 << 32) + 10);
        }
        other => panic!("unexpected {:?}", other),
    }
    match decode_syscall(180, &m, 0) {
        Ok(HostCall::Pread { fd, buf, offset }) => {
            assert_eq!(fd, 4);
            assert_eq!(buf, GuestRange { start: 64, end: 67 });
            assert_eq!(offset, (1i64 << 32) + 10);
        }
        other => panic!("unexpected {:?}", other),
    }
    assert_eq!(decode_syscall(180, &m, 108).unwrap_err(), SyscallError::Fault);
}

#[test]
fn uname_dup3_setpgid_chown_decode() {
    let mut m = memory_with_words(512, 0, &[100, 5, 6]);
    assert!(m.write_bytes(100, &b"f\0".to_vec()));
    match decode_syscall(122, &m, 0) {
        Ok(HostCall::Uname { buf }) => assert_eq!(buf, GuestRange { start: 100, end: 490 }),
        other => panic!("unexpected {:?}", other),
    }
    assert!(matches!(
        decode_syscall(330, &m, 0),
        Ok(HostCall::Dup3 { fd: 100, new_fd: 5, flags: 6 })
    ));
    assert!(matches!(decode_syscall(57, &m, 0), Ok(HostCall::Setpgid { pid: 100, pgid: 5 })));
    match decode_syscall(212, &m, 0) {
        Ok(HostCall::Chown { path, owner, group }) => {
            assert_eq!(path, b"f".to_vec());
            assert_eq!((owner, group), (5, 6));
        }
        other => panic!("unexpected {:?}", other),
    }
    let small = memory_with_words(200, 0, &[100]);
    assert_eq!(decode_syscall(122, &small, 0).unwrap_err(), SyscallError::Fault);
}

fn entry_index(table: &[ImportEntry], ns: &str, name: &str) -> usize {
    table.iter().position(|e| e.namespace == ns && e.name == name).expect("entry bound")
}

fn handler(table: &[ImportEntry], name: &str) -> Option<Handler> {
    match table[entry_index(table, "env", name)].kind {
        ImportKind::Func { handler, .. } => Some(handler),
        ImportKind::Global { .. } => None,
    }
}

#[test]
fn import_table_globals_and_keys() {
    let t = generate_emscripten_env();
    assert_eq!(t.len(), IMPORT_COUNT);
    let global = |ns: &str, name: &str| match t[entry_index(&t, ns, name)].kind {
        ImportKind::Global { value } => value,
        _ => panic!("not a global"),
    };
    assert_eq!(global("env", "STACKTOP"), 216_640);
    assert_eq!(global("env", "STACK_MAX"), 5_459_520);
    assert_eq!(global("env", "DYNAMICTOP_PTR"), 216_624);
    assert_eq!(global("global", "Infinity"), f64::INFINITY.to_bits() as i64);
    assert_eq!(global("global", "NaN"), f64::NAN.to_bits() as i64);
    assert_eq!(global("env", "tableBase"), 0);
    assert_eq!(INFINITY_BITS, f64::INFINITY.to_bits() as i64);
    assert_eq!(NAN_BITS, f64::NAN.to_bits() as i64);
    let mut names: Vec<(&str, &str)> = t.iter().map(|e| (e.namespace, e.name)).collect();
    names.sort();
    names.dedup();
    assert_eq!(names.len(), t.len());
    for i in 0..IMPORT_COUNT {
        assert_eq!(import_entry(i).name, t[i].name);
    }
}

#[test]
fn import_table_handlers_and_signatures() {
    let t = generate_emscripten_env();
    assert_eq!(handler(&t, "___syscall4"), Some(Handler::Syscall(4)));
    assert_eq!(handler(&t, "___syscall140"), Some(Handler::Syscall(140)));
    assert_eq!(handler(&t, "___syscall10"), Some(Handler::Mock));
    for n in [54, 102, 114, 142, 192, 195, 197, 221, 340] {
        assert_eq!(handler(&t, &format!("___syscall{}", n)), Some(Handler::Syscall(n)));
    }
    assert_eq!(handler(&t, "_waitpid"), Some(Handler::Mock));
    assert_eq!(handler(&t, "__setjmp"), Some(Handler::SetJmp));
    assert_eq!(handler(&t, "__longjmp"), Some(Handler::LongJmp));
    assert_eq!(handler(&t, "printf"), Some(Handler::Native));
    let alloc = t[entry_index(&t, "env", "___cxa_allocate_exception")].kind;
    assert_eq!(alloc.param_types(), vec![ValType::I32]);
    assert_eq!(alloc.result_types(), vec![ValType::I32]);
    let rem = t[entry_index(&t, "asm2wasm", "f64-rem")].kind;
    assert_eq!(rem.param_types(), vec![ValType::F64, ValType::F64]);
    assert_eq!(rem.result_types(), vec![ValType::F64]);
    let mock = t[entry_index(&t, "env", "___syscall10")].kind;
    assert!(mock.param_types().is_empty());
    assert_eq!(mock.result_types(), vec![ValType::I32]);
    for n in [10, 15, 38, 66, 75, 85, 91, 97, 168, 191, 194, 196, 199, 220, 268, 272, 295, 300, 334] {
        assert_eq!(handler(&t, &format!("___syscall{}", n)), Some(Handler::Mock));
    }
}

#[test]
fn table_write_entry_decodes_hi() {
    let t = generate_emscripten_env();
    let mut m = memory_with_words(4096, 2048, &[1, 1024, 3]);
    assert!(m.write_bytes(1024, &vec![0x68, 0x69, 0x0A]));
    match dispatch_syscall(&t, entry_index(&t, "env", "___syscall4"), &m, 2048) {
        Dispatch::Host(HostCall::Write { fd, data }) => {
            assert_eq!(fd, 1);
            assert_eq!(data, vec![0x68, 0x69, 0x0A]);
        }
        other => panic!("unexpected {:?}", other),
    }
    let mut d = EmscriptenData::new(0, 0, 0, 0, 0);
    assert_eq!(d.apply_outcome(syscall_completed(host_status(3, 0))), 3);
    assert_eq!(d.errno, 0);
}

#[test]
fn table_mock_entry_sets_enosys() {
    let t = generate_emscripten_env();
    let m = GuestMemory::new(16);
    let mut d = EmscriptenData::new(0, 0, 0, 0, 0);
    match dispatch_syscall(&t, entry_index(&t, "env", "___syscall10"), &m, 0) {
        Dispatch::Done(o) => {
            assert_eq!(d.apply_outcome(o), -1);
            assert_eq!(d.errno, ENOSYS);
        }
        other => panic!("unexpected {:?}", other),
    }
    assert!(matches!(
        dispatch_syscall(&t, entry_index(&t, "env", "printf"), &m, 0),
        Dispatch::NotSyscall
    ));
}

#[test]
fn table_entry_rejects_out_of_range_pairs() {
    let t = generate_emscripten_env();
    let write = entry_index(&t, "env", "___syscall4");
    let read = entry_index(&t, "env", "___syscall3");
    for (ptr, len) in [(60u32, 8u32), (u32::MAX, 2), (1, u32::MAX)] {
        let m = memory_with_words(64, 0, &[1, ptr, len]);
        for e in [write, read] {
            match dispatch_syscall(&t, e, &m, 0) {
                Dispatch::Done(o) => assert_eq!((o.ret, o.errno), (-1, Some(EFAULT))),
                other => panic!("unexpected {:?}", other),
            }
        }
    }
}

#[test]
fn table_entry_sees_grown_memory() {
    let t = generate_emscripten_env();
    let read = entry_index(&t, "env", "___syscall3");
    let mut m = memory_with_words(64, 0, &[0, 100, 20]);
    assert!(matches!(dispatch_syscall(&t, read, &m, 0), Dispatch::Done(_)));
    m.grow(64);
    match dispatch_syscall(&t, read, &m, 0) {
        Dispatch::Host(HostCall::Read { fd, buf }) => {
            assert_eq!(fd, 0);
            assert_eq!(buf, GuestRange { start: 100, end: 120 });
        }
        other => panic!("unexpected {:?}", other),
    }
}

#[test]
fn table_jump_entries_resume_once_then_refuse() {
    let t = generate_emscripten_env();
    let set = entry_index(&t, "env", "__setjmp");
    let long = entry_index(&t, "env", "__longjmp");
    let mut d = EmscriptenData::new(0, 0, 0, 0, 0);
    let mut m = GuestMemory::new(64);
    assert!(d.jumps.mark(0).is_ok());
    let h = match dispatch_set_jmp(&t, set, &mut d, &mut m, 16, 2) {
        JumpAction::Marked(h) => h,
        other => panic!("unexpected {:?}", other),
    };
    assert_eq!(h.slot, 1);
    assert_eq!(m.read_u32(16), Some(1));
    match dispatch_long_jmp(&t, long, &mut d, &m, 16, 5) {
        JumpAction::Resume(r) => {
            assert_eq!(r.value, 5);
            assert_eq!(r.handle, h);
            assert_eq!(r.depth, 2);
        }
        other => panic!("unexpected {:?}", other),
    }
    d.jumps.frame_returned(2);
    assert_eq!(
        dispatch_long_jmp(&t, long, &mut d, &m, 16, 5),
        JumpAction::Fatal(ControlError::InvalidHandle)
    );
    assert_eq!(
        dispatch_long_jmp(&t, long, &mut d, &m, 62, 5),
        JumpAction::Fatal(ControlError::BadPointer)
    );
    assert_eq!(
        dispatch_set_jmp(&t, set, &mut d, &mut m, 61, 2),
        JumpAction::Fatal(ControlError::BadPointer)
    );
    assert_eq!(dispatch_set_jmp(&t, long, &mut d, &mut m, 16, 2), JumpAction::NotJump);
    assert_eq!(dispatch_long_jmp(&t, set, &mut d, &m, 16, 1), JumpAction::NotJump);
}

#[test]
fn host_status_and_readv_progress() {
    assert_eq!(host_status(-1, 9), Err(9));
    assert_eq!(host_status(0, 9), Ok(0));
    assert_eq!(host_status(i32::MAX as i64 + 1, 9), Err(EOVERFLOW));
    let span = GuestRange { start: 10, end: 20 };
    assert_eq!(readv_progress(5, 10, span), Some((15, true)));
    assert_eq!(readv_progress(5, 4, span), Some((9, false)));
    assert_eq!(readv_progress(i32::MAX, 1, span), None);
}

#[test]
fn descriptor_and_process_calls_decode() {
    let m = memory_with_words(256, 0, &[3, 0x5401, 7]);
    assert!(matches!(decode_syscall(54, &m, 0), Ok(HostCall::Ioctl { fd: 3, request: 0x5401 })));
    match decode_syscall(221, &m, 0) {
        Ok(HostCall::Fcntl { fd, cmd, arg }) => assert_eq!((fd, cmd, arg), (3, 0x5401, Some(7))),
        other => panic!("unexpected {:?}", other),
    }
    let getfl = memory_with_words(8, 0, &[3, 3]);
    assert!(matches!(decode_syscall(221, &getfl, 0), Ok(HostCall::Fcntl { fd: 3, cmd: 3, arg: None })));
    assert_eq!(decode_syscall(221, &memory_with_words(8, 0, &[3, 4]), 0).unwrap_err(), SyscallError::Fault);
    let w = memory_with_words(64, 0, &[0xffff_ffff, 32, 1]);
    match decode_syscall(114, &w, 0) {
        Ok(HostCall::Wait4 { pid, status_at, options }) => {
            assert_eq!(pid, -1);
            assert_eq!(status_at, Some(GuestRange { start: 32, end: 36 }));
            assert_eq!(options, 1);
        }
        other => panic!("unexpected {:?}", other),
    }
    let nostatus = memory_with_words(64, 0, &[5, 0, 0]);
    assert!(matches!(decode_syscall(114, &nostatus, 0), Ok(HostCall::Wait4 { status_at: None, .. })));
    let bad = memory_with_words(64, 0, &[5, 62, 0]);
    assert_eq!(decode_syscall(114, &bad, 0).unwrap_err(), SyscallError::Fault);
    let mm = memory_with_words(64, 0, &[0, 4096, 3, 0x22, 0xffff_ffff, 0]);
    assert!(matches!(
        decode_syscall(192, &mm, 0),
        Ok(HostCall::Mmap { addr: 0, len: 4096, prot: 3, flags: 0x22, fd: -1, pgoffset: 0 })
    ));
    let pl = memory_with_words(128, 0, &[0, 7, 0, 64]);
    match decode_syscall(340, &pl, 0) {
        Ok(HostCall::Prlimit { pid, resource, new_limit, old_limit }) => {
            assert_eq!((pid, resource), (0, 7));
            assert_eq!(new_limit, None);
            assert_eq!(old_limit, Some(GuestRange { start: 64, end: 80 }));
        }
        other => panic!("unexpected {:?}", other),
    }
}

#[test]
fn select_and_socket_calls_decode() {
    let m = memory_with_words(128, 0, &[3, 64, 0, 0, 80]);
    match decode_syscall(142, &m, 0) {
        Ok(HostCall::Select { nfds, read, write, except, timeout }) => {
            assert_eq!(nfds, 3);
            assert_eq!(read, Some(GuestRange { start: 64, end: 72 }));
            assert_eq!((write, except), (None, None));
            assert_eq!(timeout, Some(GuestRange { start: 80, end: 88 }));
        }
        other => panic!("unexpected {:?}", other),
    }
    let many = memory_with_words(128, 0, &[65, 0, 0, 0, 0]);
    assert_eq!(decode_syscall(142, &many, 0).unwrap_err(), SyscallError::InvalidArgument);
    let s = memory_with_words(128, 0, &[1, 16, 0, 0, 2, 1, 0]);
    match decode_syscall(102, &s, 0) {
        Ok(HostCall::Socketcall { call, args }) => {
            assert_eq!(call, 1);
            assert_eq!(args, vec![2, 1, 0]);
        }
        other => panic!("unexpected {:?}", other),
    }
    let unknown = memory_with_words(16, 0, &[99, 0]);
    assert_eq!(decode_syscall(102, &unknown, 0).unwrap_err(), SyscallError::InvalidArgument);
    let short = memory_with_words(16, 0, &[11, 8]);
    assert_eq!(decode_syscall(102, &short, 0).unwrap_err(), SyscallError::Fault);
}

#[test]
fn stat_calls_decode_and_lay_out() {
    let mut m = memory_with_words(256, 0, &[100, 128]);
    assert!(m.write_bytes(100, &b"/a\0".to_vec()));
    match decode_syscall(195, &m, 0) {
        Ok(HostCall::Stat { path, buf }) => {
            assert_eq!(path, b"/a".to_vec());
            assert_eq!(buf, GuestRange { start: 128, end: 128 + STAT_SIZE as usize });
        }
        other => panic!("unexpected {:?}", other),
    }
    match decode_syscall(197, &m, 0) {
        Ok(HostCall::Fstat { fd, buf }) => {
            assert_eq!(fd, 100);
            assert_eq!(buf, GuestRange { start: 128, end: 204 });
        }
        other => panic!("unexpected {:?}", other),
    }
    let small = memory_with_words(200, 0, &[3, 128]);
    assert_eq!(decode_syscall(197, &small, 0).unwrap_err(), SyscallError::Fault);
    let info = StatInfo {
        dev: 1, ino: 2, mode: 3, nlink: 4, uid: 5, gid: 6, rdev: 7, size: 8, blksize: 9,
        blocks: 10, atime: 11, mtime: 12, ctime: 13,
    };
    assert_eq!(
        stat_words(info),
        vec![1, 0, 2, 3, 4, 5, 6, 7, 0, 8, 9, 10, 11, 0, 12, 0, 13, 0, 2]
    );
}

#[test]
fn growth_turns_rejected_calls_into_accepted_ones() {
    let t = generate_emscripten_env();
    for (name, words) in [
        ("___syscall197", vec![3u32, 100]),
        ("___syscall180", vec![3, 140, 20, 0, 0, 0]),
        ("___syscall122", vec![100]),
        ("___syscall114", vec![1, 150, 0]),
    ] {
        let e = entry_index(&t, "env", name);
        let mut m = memory_with_words(152, 0, &words);
        match dispatch_syscall(&t, e, &m, 0) {
            Dispatch::Done(o) => assert_eq!((o.ret, o.errno), (-1, Some(EFAULT))),
            other => panic!("{} unexpected {:?}", name, other),
        }
        m.grow(1000);
        assert!(matches!(dispatch_syscall(&t, e, &m, 0), Dispatch::Host(_)), "{}", name);
    }
}

#[test]
fn spans_of_other_calls_are_checked() {
    let m = memory_with_words(64, 0, &[3, 4, 0, 60]);
    match decode_syscall(340, &m, 0) {
        Err(e) => assert_eq!(e, SyscallError::Fault),
        other => panic!("unexpected {:?}", other),
    }
    let s = memory_with_words(64, 0, &[3, 60, 0, 0, 0]);
    assert_eq!(decode_syscall(142, &s, 0).unwrap_err(), SyscallError::Fault);
    let seek = memory_with_words(64, 0, &[3, 0, 0, u32::MAX - 3, 0]);
    assert_eq!(decode_syscall(140, &seek, 0).unwrap_err(), SyscallError::Fault);
}

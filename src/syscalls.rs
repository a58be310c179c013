//! Decoding of the guest's syscalls: the number picks the call, its
//! arguments are read from a block of variadic slots, and every guest
//! pointer among them is checked against the memory before it is used.
//!
//! Decoding yields a `HostCall` for the embedder to perform; its result, or
//! a decoding error, becomes the value and error code the guest observes.

use crate::memory::{cstr_at, in_bounds, le_bytes, le_value, splice, GuestMemory, GuestRange};
use crate::varargs::{slot_value, slots_readable, ArgCursor};
use vstd::prelude::*;

verus! {

/// Error code of a call that this layer does not implement.
pub const ENOSYS: i32 = 38;

/// Error code of a guest pointer outside the memory.
pub const EFAULT: i32 = 14;

/// Error code of an argument out of its range.
pub const EINVAL: i32 = 22;

/// Error code of a result too large for the guest's integer.
pub const EOVERFLOW: i32 = 75;

pub const SYS_EXIT: i32 = 1;
pub const SYS_READ: i32 = 3;
pub const SYS_WRITE: i32 = 4;
pub const SYS_OPEN: i32 = 5;
pub const SYS_CLOSE: i32 = 6;
pub const SYS_CHDIR: i32 = 12;
pub const SYS_GETPID: i32 = 20;
pub const SYS_MKDIR: i32 = 39;
pub const SYS_RMDIR: i32 = 40;
pub const SYS_DUP2: i32 = 63;
pub const SYS_GETPPID: i32 = 64;
pub const SYS_LLSEEK: i32 = 140;
pub const SYS_READV: i32 = 145;
pub const SYS_WRITEV: i32 = 146;
pub const SYS_GETEUID: i32 = 201;
pub const SYS_GETEGID: i32 = 202;
pub const SYS_SETPGID: i32 = 57;
pub const SYS_UNAME: i32 = 122;
pub const SYS_PREAD: i32 = 180;
pub const SYS_PWRITE: i32 = 181;
pub const SYS_CHOWN: i32 = 212;
pub const SYS_DUP3: i32 = 330;

pub const SYS_IOCTL: i32 = 54;
pub const SYS_SOCKETCALL: i32 = 102;
pub const SYS_WAIT4: i32 = 114;
pub const SYS_SELECT: i32 = 142;
pub const SYS_MMAP2: i32 = 192;
pub const SYS_STAT64: i32 = 195;
pub const SYS_FSTAT64: i32 = 197;
pub const SYS_FCNTL64: i32 = 221;
pub const SYS_PRLIMIT64: i32 = 340;

/// Size of the guest's `struct stat`: nineteen 32-bit words.
pub const STAT_SIZE: u32 = 76;

/// Size of the guest's `fd_set` as `select` reads it: 64 descriptors.
pub const FD_SET_SIZE: u32 = 8;

/// Size of the guest's `timeval`.
pub const TIMEVAL_SIZE: u32 = 8;

/// Size of the guest's `rlimit` with 64-bit fields.
pub const RLIMIT64_SIZE: u32 = 16;

/// Most descriptors that `select` takes.
pub const MAX_SELECT_FDS: u32 = 64;

/// Commands of `fcntl` that take no third argument: get the descriptor's
/// flags, get the file's status flags.
pub const F_GETFD: i32 = 1;
pub const F_GETFL: i32 = 3;

/// Size of the guest's `utsname`: six fields of 65 bytes.
pub const UTSNAME_SIZE: u32 = 390;

/// Why a syscall was not handed to the host.
#[derive(Debug, Clone, Copy, PartialEq, Eq, Structural)]
pub enum SyscallError {
    /// A guest pointer, or the argument block, lies outside the memory.
    Fault,
    /// The number is known to the guest but not implemented here.
    Unsupported,
    /// An argument is out of its range.
    InvalidArgument,
}

pub open spec fn errno_of(e: SyscallError) -> i32 {
    match e {
        SyscallError::Fault => EFAULT,
        SyscallError::Unsupported => ENOSYS,
        SyscallError::InvalidArgument => EINVAL,
    }
}

impl SyscallError {
    /// The error code the guest observes.
    pub fn errno(&self) -> (r: i32)
        ensures
            r == errno_of(*self),
    {
        match self {
            SyscallError::Fault => EFAULT,
            SyscallError::Unsupported => ENOSYS,
            SyscallError::InvalidArgument => EINVAL,
        }
    }
}

/// An identity of the process that the guest asks for.
#[derive(Debug, Clone, Copy, PartialEq, Eq, Structural)]
pub enum Identity {
    Pid,
    ParentPid,
    EffectiveUid,
    EffectiveGid,
}

/// A decoded syscall, with its guest pointers checked or dereferenced.
#[derive(Debug)]
pub enum HostCall {
    Exit { status: i32 },
    /// Read from `fd` into the checked span `buf`.
    Read { fd: i32, buf: GuestRange },
    /// Write `data`, copied from the guest, to `fd`.
    Write { fd: i32, data: Vec<u8> },
    Open { path: Vec<u8>, flags: i32, mode: i32 },
    Close { fd: i32 },
    Chdir { path: Vec<u8> },
    Mkdir { path: Vec<u8>, mode: i32 },
    Rmdir { path: Vec<u8> },
    Dup2 { fd: i32, new_fd: i32 },
    Dup3 { fd: i32, new_fd: i32, flags: i32 },
    Setpgid { pid: i32, pgid: i32 },
    Chown { path: Vec<u8>, owner: u32, group: u32 },
    /// Fill the checked span `buf` with the guest's `utsname`.
    Uname { buf: GuestRange },
    /// Read from `fd` at `offset` into the checked span `buf`.
    Pread { fd: i32, buf: GuestRange, offset: i64 },
    /// Write `data`, copied from the guest, to `fd` at `offset`.
    Pwrite { fd: i32, data: Vec<u8>, offset: i64 },
    Query { which: Identity },
    /// Move `fd` to `offset` from `whence`; the new position goes as eight
    /// bytes into `result`.
    Seek { fd: i32, offset: i64, whence: i32, result: GuestRange },
    Ioctl { fd: i32, request: i32 },
    /// The socket call `call` with its arguments, read from the guest.
    Socketcall { call: i32, args: Vec<u32> },
    /// Wait for `pid`; its status goes as a word into `status_at`, if given.
    Wait4 { pid: i32, status_at: Option<GuestRange>, options: i32 },
    /// Each set is a checked span of `FD_SET_SIZE` bytes, if given.
    Select {
        nfds: i32,
        read: Option<GuestRange>,
        write: Option<GuestRange>,
        except: Option<GuestRange>,
        timeout: Option<GuestRange>,
    },
    Mmap { addr: u32, len: u32, prot: i32, flags: i32, fd: i32, pgoffset: u32 },
    /// Describe the file at `path` into the checked span `buf`.
    Stat { path: Vec<u8>, buf: GuestRange },
    /// Describe the file of `fd` into the checked span `buf`.
    Fstat { fd: i32, buf: GuestRange },
    Fcntl { fd: i32, cmd: i32, arg: Option<u32> },
    /// The new limit is read from, and the old one written to, the checked
    /// spans, if given.
    Prlimit { pid: i32, resource: i32, new_limit: Option<GuestRange>, old_limit: Option<GuestRange> },
    /// Read from `fd` into each checked span in turn.
    Readv { fd: i32, bufs: Vec<GuestRange> },
    /// Write the bytes of every span, gathered in order, to `fd`.
    Writev { fd: i32, data: Vec<u8> },
}

/// The `i`-th argument slot of the block at `p`.
pub open spec fn arg(mem: Seq<u8>, p: int, i: int) -> u32 {
    slot_value(mem, p + 4 * i)
}

pub open spec fn args_ok(mem: Seq<u8>, p: int, n: int) -> bool {
    slots_readable(mem.len() as int, p, n)
}

pub open spec fn has_cstr(mem: Seq<u8>, ptr: int) -> bool {
    exists|len: int| cstr_at(mem, ptr, len)
}

/// The string at `ptr`, when there is one.
pub open spec fn cstr_of(mem: Seq<u8>, ptr: int, s: Seq<u8>) -> bool {
    cstr_at(mem, ptr, s.len() as int) && s == mem.subrange(ptr, ptr + s.len())
}

/// Base and length of the `i`-th entry of the vector of spans at `iov`.
pub open spec fn iov_base(mem: Seq<u8>, iov: int, i: int) -> u32 {
    slot_value(mem, iov + 8 * i)
}

pub open spec fn iov_len(mem: Seq<u8>, iov: int, i: int) -> u32 {
    slot_value(mem, iov + 8 * i + 4)
}

/// The `cnt` entries at `iov` are readable and each names a span inside the
/// memory.
pub open spec fn iovs_ok(mem: Seq<u8>, iov: int, cnt: int) -> bool {
    &&& slots_readable(mem.len() as int, iov, 2 * cnt)
    &&& forall|i: int|
        0 <= i < cnt ==> in_bounds(
            mem.len() as int,
            #[trigger] iov_base(mem, iov, i) as int,
            iov_len(mem, iov, i) as int,
        )
}

/// The bytes of the first `k` spans at `iov`, in order.
pub open spec fn gathered(mem: Seq<u8>, iov: int, k: int) -> Seq<u8>
    decreases k,
{
    if k <= 0 {
        Seq::empty()
    } else {
        gathered(mem, iov, k - 1) + mem.subrange(
            iov_base(mem, iov, k - 1) as int,
            iov_base(mem, iov, k - 1) + iov_len(mem, iov, k - 1),
        )
    }
}

/// `g` is the span of the `i`-th entry of the vector at `iov`.
pub open spec fn is_iov_span(mem: Seq<u8>, iov: int, i: int, g: GuestRange) -> bool {
    g.start == iov_base(mem, iov, i) && g.end == iov_base(mem, iov, i) + iov_len(mem, iov, i)
}

pub open spec fn implemented(n: i32) -> bool {
    n == SYS_EXIT || n == SYS_READ || n == SYS_WRITE || n == SYS_OPEN || n == SYS_CLOSE || n
        == SYS_CHDIR || n == SYS_GETPID || n == SYS_MKDIR || n == SYS_RMDIR || n == SYS_DUP2 || n
        == SYS_GETPPID || n == SYS_LLSEEK || n == SYS_READV || n == SYS_WRITEV || n == SYS_GETEUID
        || n == SYS_GETEGID || n == SYS_SETPGID || n == SYS_UNAME || n == SYS_PREAD || n == SYS_PWRITE
        || n == SYS_CHOWN || n == SYS_DUP3 || extra_call(n)
}

/// The calls that `decode_more` decodes.
pub open spec fn extra_call(n: i32) -> bool {
    n == SYS_IOCTL || n == SYS_SOCKETCALL || n == SYS_WAIT4 || n == SYS_SELECT || n == SYS_MMAP2
        || n == SYS_STAT64 || n == SYS_FSTAT64 || n == SYS_FCNTL64 || n == SYS_PRLIMIT64
}

/// A pointer that may be null, or else names a span of `len` bytes inside
/// the memory.
pub open spec fn opt_span_ok(mem: Seq<u8>, ptr: u32, len: u32) -> bool {
    ptr == 0 || in_bounds(mem.len() as int, ptr as int, len as int)
}

/// `g` is nothing for a null pointer, else the span of `len` bytes at `ptr`.
pub open spec fn is_opt_span(g: Option<GuestRange>, ptr: u32, len: u32) -> bool {
    if ptr == 0 {
        g is None
    } else {
        g matches Some(r) && r.start == ptr && r.end == ptr + len
    }
}

/// Number of arguments of each socket call, from `socket` (1) to `recvmsg`
/// (17); zero for any other call.
pub open spec fn socket_arg_count(call: u32) -> u32 {
    if call == 1 || call == 2 || call == 3 || call == 5 || call == 6 || call == 7 || call == 16
        || call == 17 {
        3
    } else if call == 4 || call == 13 {
        2
    } else if call == 8 || call == 9 || call == 10 {
        4
    } else if call == 11 || call == 12 {
        6
    } else if call == 14 || call == 15 {
        5
    } else {
        0
    }
}

pub open spec fn fcntl_takes_arg(cmd: i32) -> bool {
    cmd != F_GETFD && cmd != F_GETFL
}

/// Whether one of the calls of `decode_more` decodes.
pub open spec fn extra_ok(n: i32, mem: Seq<u8>, p: int) -> bool {
    if n == SYS_IOCTL {
        args_ok(mem, p, 2)
    } else if n == SYS_SOCKETCALL {
        args_ok(mem, p, 2) && socket_arg_count(arg(mem, p, 0)) > 0 && slots_readable(
            mem.len() as int,
            arg(mem, p, 1) as int,
            socket_arg_count(arg(mem, p, 0)) as int,
        )
    } else if n == SYS_WAIT4 {
        args_ok(mem, p, 3) && opt_span_ok(mem, arg(mem, p, 1), 4)
    } else if n == SYS_SELECT {
        &&& args_ok(mem, p, 5)
        &&& arg(mem, p, 0) <= MAX_SELECT_FDS
        &&& opt_span_ok(mem, arg(mem, p, 1), FD_SET_SIZE)
        &&& opt_span_ok(mem, arg(mem, p, 2), FD_SET_SIZE)
        &&& opt_span_ok(mem, arg(mem, p, 3), FD_SET_SIZE)
        &&& opt_span_ok(mem, arg(mem, p, 4), TIMEVAL_SIZE)
    } else if n == SYS_MMAP2 {
        args_ok(mem, p, 6)
    } else if n == SYS_STAT64 {
        args_ok(mem, p, 2) && has_cstr(mem, arg(mem, p, 0) as int) && in_bounds(
            mem.len() as int,
            arg(mem, p, 1) as int,
            STAT_SIZE as int,
        )
    } else if n == SYS_FSTAT64 {
        args_ok(mem, p, 2) && in_bounds(mem.len() as int, arg(mem, p, 1) as int, STAT_SIZE as int)
    } else if n == SYS_FCNTL64 {
        args_ok(mem, p, 2) && (fcntl_takes_arg(arg(mem, p, 1) as i32) ==> args_ok(mem, p, 3))
    } else {
        &&& args_ok(mem, p, 4)
        &&& opt_span_ok(mem, arg(mem, p, 2), RLIMIT64_SIZE)
        &&& opt_span_ok(mem, arg(mem, p, 3), RLIMIT64_SIZE)
    }
}

/// Arguments of one of the calls of `decode_more` that are out of range:
/// an unknown socket call, or more descriptors than `select` takes.
pub open spec fn extra_invalid(n: i32, mem: Seq<u8>, p: int) -> bool {
    ||| n == SYS_SOCKETCALL && args_ok(mem, p, 2) && socket_arg_count(arg(mem, p, 0)) == 0
    ||| n == SYS_SELECT && args_ok(mem, p, 5) && arg(mem, p, 0) > MAX_SELECT_FDS
}

/// Whether syscall `n` with the argument block at `p` decodes.
pub open spec fn request_ok(n: i32, mem: Seq<u8>, p: int) -> bool {
    if n == SYS_EXIT || n == SYS_CLOSE {
        args_ok(mem, p, 1)
    } else if n == SYS_GETPID || n == SYS_GETPPID || n == SYS_GETEUID || n == SYS_GETEGID {
        true
    } else if n == SYS_READ || n == SYS_WRITE {
        args_ok(mem, p, 3) && in_bounds(
            mem.len() as int,
            arg(mem, p, 1) as int,
            arg(mem, p, 2) as int,
        )
    } else if n == SYS_OPEN {
        args_ok(mem, p, 3) && has_cstr(mem, arg(mem, p, 0) as int)
    } else if n == SYS_CHDIR || n == SYS_RMDIR {
        args_ok(mem, p, 1) && has_cstr(mem, arg(mem, p, 0) as int)
    } else if n == SYS_MKDIR {
        args_ok(mem, p, 2) && has_cstr(mem, arg(mem, p, 0) as int)
    } else if n == SYS_DUP2 || n == SYS_SETPGID {
        args_ok(mem, p, 2)
    } else if n == SYS_DUP3 {
        args_ok(mem, p, 3)
    } else if n == SYS_CHOWN {
        args_ok(mem, p, 3) && has_cstr(mem, arg(mem, p, 0) as int)
    } else if n == SYS_UNAME {
        args_ok(mem, p, 1) && in_bounds(mem.len() as int, arg(mem, p, 0) as int, UTSNAME_SIZE as int)
    } else if n == SYS_PREAD || n == SYS_PWRITE {
        args_ok(mem, p, 6) && in_bounds(
            mem.len() as int,
            arg(mem, p, 1) as int,
            arg(mem, p, 2) as int,
        )
    } else if extra_call(n) {
        extra_ok(n, mem, p)
    } else if n == SYS_LLSEEK {
        args_ok(mem, p, 5) && in_bounds(mem.len() as int, arg(mem, p, 3) as int, 8)
    } else if n == SYS_READV || n == SYS_WRITEV {
        args_ok(mem, p, 3) && arg(mem, p, 2) <= i32::MAX && iovs_ok(
            mem,
            arg(mem, p, 1) as int,
            arg(mem, p, 2) as int,
        )
    } else {
        false
    }
}

/// The error of syscall `n` with the argument block at `p`, when it does not
/// decode.
pub open spec fn request_error(n: i32, mem: Seq<u8>, p: int) -> SyscallError {
    if !implemented(n) {
        SyscallError::Unsupported
    } else if (n == SYS_READV || n == SYS_WRITEV) && args_ok(mem, p, 3) && arg(mem, p, 2)
        > i32::MAX {
        SyscallError::InvalidArgument
    } else if extra_invalid(n, mem, p) {
        SyscallError::InvalidArgument
    } else {
        SyscallError::Fault
    }
}

/// The seek offset made of a high and a low 32-bit half.
pub open spec fn seek_offset(high: u32, low: u32) -> int {
    (high as i32) as int * 4294967296 + low as int
}

/// The slot value `x` read as a signed integer.
fn signed(x: u32) -> (r: i32)
    ensures
        r == x as i32,
{
    #[verifier::truncate]
    (x as i32)
}

/// The spans named by the `cnt` entries of the vector at `iov`, each
/// checked against the memory.
pub fn read_iovecs(mem: &GuestMemory, iov: u32, cnt: u32) -> (r: Option<Vec<GuestRange>>)
    requires
        cnt <= i32::MAX,
    ensures
        r is Some <==> iovs_ok(mem@, iov as int, cnt as int),
        r matches Some(v) ==> {
            &&& v@.len() == cnt
            &&& forall|i: int| 0 <= i < cnt ==> is_iov_span(mem@, iov as int, i, #[trigger] v@[i])
        },
{
    let mut c = ArgCursor::new(iov);
    let slots = match c.read_slots(mem, 2 * cnt) {
        None => return None,
        Some(s) => s,
    };
    let mut out: Vec<GuestRange> = Vec::new();
    let mut i: u32 = 0;
    while i < cnt
        invariant
            i <= cnt <= i32::MAX,
            slots@.len() == 2 * cnt,
            slots_readable(mem@.len() as int, iov as int, 2 * cnt),
            forall|k: int| 0 <= k < 2 * cnt ==> #[trigger] slots@[k] == slot_value(mem@, iov + 4 * k),
            out@.len() == i,
            forall|k: int| 0 <= k < i ==> is_iov_span(mem@, iov as int, k, #[trigger] out@[k]),
            forall|k: int|
                0 <= k < i ==> in_bounds(
                    mem@.len() as int,
                    #[trigger] iov_base(mem@, iov as int, k) as int,
                    iov_len(mem@, iov as int, k) as int,
                ),
        decreases cnt - i,
    {
        let base = slots[(2 * i) as usize];
        let len = slots[(2 * i + 1) as usize];
        assert(base == iov_base(mem@, iov as int, i as int));
        assert(len == iov_len(mem@, iov as int, i as int));
        match mem.translate(base, len) {
            None => return None,
            Some(g) => out.push(g),
        }
        i = i + 1;
    }
    Some(out)
}

/// The bytes of the spans `bufs`, read from the vector at `iov`, gathered
/// in order.
fn gather(mem: &GuestMemory, bufs: &Vec<GuestRange>, iov: u32, cnt: u32) -> (r: Vec<u8>)
    requires
        iovs_ok(mem@, iov as int, cnt as int),
        bufs@.len() == cnt,
        forall|i: int| 0 <= i < cnt ==> is_iov_span(mem@, iov as int, i, #[trigger] bufs@[i]),
    ensures
        r@ == gathered(mem@, iov as int, cnt as int),
{
    let bytes = mem.as_slice();
    let mut out: Vec<u8> = Vec::new();
    let mut i: usize = 0;
    while i < bufs.len()
        invariant
            bytes@ == mem@,
            i <= cnt,
            bufs@.len() == cnt,
            iovs_ok(mem@, iov as int, cnt as int),
            forall|k: int| 0 <= k < cnt ==> is_iov_span(mem@, iov as int, k, #[trigger] bufs@[k]),
            out@ == gathered(mem@, iov as int, i as int),
        decreases cnt - i,
    {
        let g = bufs[i];
        assert(in_bounds(
            mem@.len() as int,
            iov_base(mem@, iov as int, i as int) as int,
            iov_len(mem@, iov as int, i as int) as int,
        ));
        assert(is_iov_span(mem@, iov as int, i as int, bufs@[i as int]));
        let ghost before = out@;
        assert(out@ =~= before + mem@.subrange(g.start as int, g.start as int));
        let mut j: usize = g.start;
        while j < g.end
            invariant
                bytes@ == mem@,
                g.start <= j <= g.end <= mem@.len(),
                out@ == before + mem@.subrange(g.start as int, j as int),
            decreases g.end - j,
        {
            out.push(bytes[j]);
            j = j + 1;
            assert(out@ =~= before + mem@.subrange(g.start as int, j as int));
        }
        i = i + 1;
    }
    out
}

/// `c` is the call that syscall `n` with the argument block at `p` decodes
/// to: its variant is fixed by `n`, its fields by the argument slots and the
/// memory they point into.
pub open spec fn decoded_as(n: i32, mem: Seq<u8>, p: int, c: HostCall) -> bool {
    match c {
        HostCall::Exit { status } => n == SYS_EXIT && status == arg(mem, p, 0) as i32,
        HostCall::Close { fd } => n == SYS_CLOSE && fd == arg(mem, p, 0) as i32,
        HostCall::Query { which } => {
            &&& n == SYS_GETPID ==> which == Identity::Pid
            &&& n == SYS_GETPPID ==> which == Identity::ParentPid
            &&& n == SYS_GETEUID ==> which == Identity::EffectiveUid
            &&& n == SYS_GETEGID ==> which == Identity::EffectiveGid
            &&& (n == SYS_GETPID || n == SYS_GETPPID || n == SYS_GETEUID || n
                == SYS_GETEGID)
        },
        HostCall::Read { fd, buf } => {
            &&& n == SYS_READ
            &&& fd == arg(mem, p, 0) as i32
            &&& buf.start == arg(mem, p, 1)
            &&& buf.end == arg(mem, p, 1) + arg(mem, p, 2)
        },
        HostCall::Write { fd, data } => {
            &&& n == SYS_WRITE
            &&& fd == arg(mem, p, 0) as i32
            &&& data@ == mem.subrange(
                arg(mem, p, 1) as int,
                arg(mem, p, 1) + arg(mem, p, 2),
            )
        },
        HostCall::Open { path, flags, mode } => {
            &&& n == SYS_OPEN
            &&& cstr_of(mem, arg(mem, p, 0) as int, path@)
            &&& flags == arg(mem, p, 1) as i32
            &&& mode == arg(mem, p, 2) as i32
        },
        HostCall::Chdir { path } => n == SYS_CHDIR && cstr_of(mem, arg(mem, p, 0) as int, path@),
        HostCall::Rmdir { path } => n == SYS_RMDIR && cstr_of(mem, arg(mem, p, 0) as int, path@),
        HostCall::Mkdir { path, mode } => {
            &&& n == SYS_MKDIR
            &&& cstr_of(mem, arg(mem, p, 0) as int, path@)
            &&& mode == arg(mem, p, 1) as i32
        },
        HostCall::Dup2 { fd, new_fd } => {
            &&& n == SYS_DUP2
            &&& fd == arg(mem, p, 0) as i32
            &&& new_fd == arg(mem, p, 1) as i32
        },
        HostCall::Dup3 { fd, new_fd, flags } => {
            &&& n == SYS_DUP3
            &&& fd == arg(mem, p, 0) as i32
            &&& new_fd == arg(mem, p, 1) as i32
            &&& flags == arg(mem, p, 2) as i32
        },
        HostCall::Setpgid { pid, pgid } => {
            &&& n == SYS_SETPGID
            &&& pid == arg(mem, p, 0) as i32
            &&& pgid == arg(mem, p, 1) as i32
        },
        HostCall::Chown { path, owner, group } => {
            &&& n == SYS_CHOWN
            &&& cstr_of(mem, arg(mem, p, 0) as int, path@)
            &&& owner == arg(mem, p, 1)
            &&& group == arg(mem, p, 2)
        },
        HostCall::Uname { buf } => {
            &&& n == SYS_UNAME
            &&& buf.start == arg(mem, p, 0)
            &&& buf.end == arg(mem, p, 0) + UTSNAME_SIZE
        },
        HostCall::Pread { fd, buf, offset } => {
            &&& n == SYS_PREAD
            &&& fd == arg(mem, p, 0) as i32
            &&& buf.start == arg(mem, p, 1)
            &&& buf.end == arg(mem, p, 1) + arg(mem, p, 2)
            &&& offset == seek_offset(arg(mem, p, 5), arg(mem, p, 4))
        },
        HostCall::Pwrite { fd, data, offset } => {
            &&& n == SYS_PWRITE
            &&& fd == arg(mem, p, 0) as i32
            &&& data@ == mem.subrange(
                arg(mem, p, 1) as int,
                arg(mem, p, 1) + arg(mem, p, 2),
            )
            &&& offset == seek_offset(arg(mem, p, 5), arg(mem, p, 4))
        },
        HostCall::Ioctl { fd, request } => {
            &&& n == SYS_IOCTL
            &&& fd == arg(mem, p, 0) as i32
            &&& request == arg(mem, p, 1) as i32
        },
        HostCall::Socketcall { call, args } => {
            &&& n == SYS_SOCKETCALL
            &&& call == arg(mem, p, 0) as i32
            &&& args@.len() == socket_arg_count(arg(mem, p, 0))
            &&& forall|i: int|
                0 <= i < args@.len() ==> #[trigger] args@[i] == slot_value(
                    mem,
                    arg(mem, p, 1) + 4 * i,
                )
        },
        HostCall::Wait4 { pid, status_at, options } => {
            &&& n == SYS_WAIT4
            &&& pid == arg(mem, p, 0) as i32
            &&& is_opt_span(status_at, arg(mem, p, 1), 4)
            &&& options == arg(mem, p, 2) as i32
        },
        HostCall::Select { nfds, read, write, except, timeout } => {
            &&& n == SYS_SELECT
            &&& nfds == arg(mem, p, 0) as i32
            &&& is_opt_span(read, arg(mem, p, 1), FD_SET_SIZE)
            &&& is_opt_span(write, arg(mem, p, 2), FD_SET_SIZE)
            &&& is_opt_span(except, arg(mem, p, 3), FD_SET_SIZE)
            &&& is_opt_span(timeout, arg(mem, p, 4), TIMEVAL_SIZE)
        },
        HostCall::Mmap { addr, len, prot, flags, fd, pgoffset } => {
            &&& n == SYS_MMAP2
            &&& addr == arg(mem, p, 0)
            &&& len == arg(mem, p, 1)
            &&& prot == arg(mem, p, 2) as i32
            &&& flags == arg(mem, p, 3) as i32
            &&& fd == arg(mem, p, 4) as i32
            &&& pgoffset == arg(mem, p, 5)
        },
        HostCall::Stat { path, buf } => {
            &&& n == SYS_STAT64
            &&& cstr_of(mem, arg(mem, p, 0) as int, path@)
            &&& buf.start == arg(mem, p, 1)
            &&& buf.end == arg(mem, p, 1) + STAT_SIZE
        },
        HostCall::Fstat { fd, buf } => {
            &&& n == SYS_FSTAT64
            &&& fd == arg(mem, p, 0) as i32
            &&& buf.start == arg(mem, p, 1)
            &&& buf.end == arg(mem, p, 1) + STAT_SIZE
        },
        HostCall::Fcntl { fd, cmd, arg: a } => {
            &&& n == SYS_FCNTL64
            &&& fd == arg(mem, p, 0) as i32
            &&& cmd == arg(mem, p, 1) as i32
            &&& (fcntl_takes_arg(cmd) ==> a == Some(arg(mem, p, 2)))
            &&& (!fcntl_takes_arg(cmd) ==> a is None)
        },
        HostCall::Prlimit { pid, resource, new_limit, old_limit } => {
            &&& n == SYS_PRLIMIT64
            &&& pid == arg(mem, p, 0) as i32
            &&& resource == arg(mem, p, 1) as i32
            &&& is_opt_span(new_limit, arg(mem, p, 2), RLIMIT64_SIZE)
            &&& is_opt_span(old_limit, arg(mem, p, 3), RLIMIT64_SIZE)
        },
        HostCall::Seek { fd, offset, whence, result } => {
            &&& n == SYS_LLSEEK
            &&& fd == arg(mem, p, 0) as i32
            &&& offset == seek_offset(arg(mem, p, 1), arg(mem, p, 2))
            &&& result.start == arg(mem, p, 3)
            &&& result.end == arg(mem, p, 3) + 8
            &&& whence == arg(mem, p, 4) as i32
        },
        HostCall::Readv { fd, bufs } => {
            &&& n == SYS_READV
            &&& fd == arg(mem, p, 0) as i32
            &&& bufs@.len() == arg(mem, p, 2)
            &&& forall|i: int|
                0 <= i < bufs@.len() ==> is_iov_span(
                    mem,
                    arg(mem, p, 1) as int,
                    i,
                    #[trigger] bufs@[i],
                )
        },
        HostCall::Writev { fd, data } => {
            &&& n == SYS_WRITEV
            &&& fd == arg(mem, p, 0) as i32
            &&& data@ == gathered(
                mem,
                arg(mem, p, 1) as int,
                arg(mem, p, 2) as int,
            )
        },
    }
}

/// Decodes syscall `number` with its argument block at `varargs`. Every
/// pointer among the arguments is checked against the memory as it is now;
/// strings and the data of writes are copied out of it.
pub fn decode_syscall(number: i32, mem: &GuestMemory, varargs: u32) -> (r: Result<
    HostCall,
    SyscallError,
>)
    ensures
        r is Ok <==> request_ok(number, mem@, varargs as int),
        r matches Err(e) ==> e == request_error(number, mem@, varargs as int),
        r matches Ok(c) ==> decoded_as(number, mem@, varargs as int, c),
{
    let mut c = ArgCursor::new(varargs);
    if number == SYS_GETPID {
        Ok(HostCall::Query { which: Identity::Pid })
    } else if number == SYS_GETPPID {
        Ok(HostCall::Query { which: Identity::ParentPid })
    } else if number == SYS_GETEUID {
        Ok(HostCall::Query { which: Identity::EffectiveUid })
    } else if number == SYS_GETEGID {
        Ok(HostCall::Query { which: Identity::EffectiveGid })
    } else if number == SYS_EXIT || number == SYS_CLOSE {
        let a = match c.read_slots(mem, 1) {
            None => return Err(SyscallError::Fault),
            Some(a) => a,
        };
        if number == SYS_EXIT {
            Ok(HostCall::Exit { status: signed(a[0]) })
        } else {
            Ok(HostCall::Close { fd: signed(a[0]) })
        }
    } else if number == SYS_READ || number == SYS_WRITE {
        let a = match c.read_slots(mem, 3) {
            None => return Err(SyscallError::Fault),
            Some(a) => a,
        };
        if number == SYS_READ {
            match mem.translate(a[1], a[2]) {
                None => Err(SyscallError::Fault),
                Some(buf) => Ok(HostCall::Read { fd: signed(a[0]), buf }),
            }
        } else {
            match mem.read_bytes(a[1], a[2]) {
                None => Err(SyscallError::Fault),
                Some(data) => Ok(HostCall::Write { fd: signed(a[0]), data }),
            }
        }
    } else if number == SYS_OPEN || number == SYS_CHDIR || number == SYS_RMDIR || number
        == SYS_MKDIR {
        let n: u32 = if number == SYS_OPEN {
            3
        } else if number == SYS_MKDIR {
            2
        } else {
            1
        };
        let a = match c.read_slots(mem, n) {
            None => return Err(SyscallError::Fault),
            Some(a) => a,
        };
        let path = match mem.read_cstr(a[0]) {
            None => return Err(SyscallError::Fault),
            Some(p) => p,
        };
        if number == SYS_OPEN {
            Ok(HostCall::Open { path, flags: signed(a[1]), mode: signed(a[2]) })
        } else if number == SYS_MKDIR {
            Ok(HostCall::Mkdir { path, mode: signed(a[1]) })
        } else if number == SYS_CHDIR {
            Ok(HostCall::Chdir { path })
        } else {
            Ok(HostCall::Rmdir { path })
        }
    } else if number == SYS_DUP2 {
        let a = match c.read_slots(mem, 2) {
            None => return Err(SyscallError::Fault),
            Some(a) => a,
        };
        Ok(HostCall::Dup2 { fd: signed(a[0]), new_fd: signed(a[1]) })
    } else if number == SYS_DUP3 || number == SYS_SETPGID {
        let n: u32 = if number == SYS_DUP3 {
            3
        } else {
            2
        };
        let a = match c.read_slots(mem, n) {
            None => return Err(SyscallError::Fault),
            Some(a) => a,
        };
        if number == SYS_DUP3 {
            Ok(HostCall::Dup3 { fd: signed(a[0]), new_fd: signed(a[1]), flags: signed(a[2]) })
        } else {
            Ok(HostCall::Setpgid { pid: signed(a[0]), pgid: signed(a[1]) })
        }
    } else if number == SYS_CHOWN {
        let a = match c.read_slots(mem, 3) {
            None => return Err(SyscallError::Fault),
            Some(a) => a,
        };
        match mem.read_cstr(a[0]) {
            None => Err(SyscallError::Fault),
            Some(path) => Ok(HostCall::Chown { path, owner: a[1], group: a[2] }),
        }
    } else if number == SYS_UNAME {
        let a = match c.read_slots(mem, 1) {
            None => return Err(SyscallError::Fault),
            Some(a) => a,
        };
        match mem.translate(a[0], UTSNAME_SIZE) {
            None => Err(SyscallError::Fault),
            Some(buf) => Ok(HostCall::Uname { buf }),
        }
    } else if number == SYS_PREAD || number == SYS_PWRITE {
        let a = match c.read_slots(mem, 6) {
            None => return Err(SyscallError::Fault),
            Some(a) => a,
        };
        let offset: i64 = (signed(a[5]) as i64) * 4294967296 + (a[4] as i64);
        if number == SYS_PREAD {
            match mem.translate(a[1], a[2]) {
                None => Err(SyscallError::Fault),
                Some(buf) => Ok(HostCall::Pread { fd: signed(a[0]), buf, offset }),
            }
        } else {
            match mem.read_bytes(a[1], a[2]) {
                None => Err(SyscallError::Fault),
                Some(data) => Ok(HostCall::Pwrite { fd: signed(a[0]), data, offset }),
            }
        }
    } else if number == SYS_LLSEEK {
        let a = match c.read_slots(mem, 5) {
            None => return Err(SyscallError::Fault),
            Some(a) => a,
        };
        let result = match mem.translate(a[3], 8) {
            None => return Err(SyscallError::Fault),
            Some(g) => g,
        };
        let offset: i64 = (signed(a[1]) as i64) * 4294967296 + (a[2] as i64);
        Ok(HostCall::Seek { fd: signed(a[0]), offset, whence: signed(a[4]), result })
    } else if number == SYS_READV || number == SYS_WRITEV {
        let a = match c.read_slots(mem, 3) {
            None => return Err(SyscallError::Fault),
            Some(a) => a,
        };
        if a[2] > i32::MAX as u32 {
            return Err(SyscallError::InvalidArgument);
        }
        let bufs = match read_iovecs(mem, a[1], a[2]) {
            None => return Err(SyscallError::Fault),
            Some(b) => b,
        };
        if number == SYS_READV {
            Ok(HostCall::Readv { fd: signed(a[0]), bufs })
        } else {
            let data = gather(mem, &bufs, a[1], a[2]);
            Ok(HostCall::Writev { fd: signed(a[0]), data })
        }
    } else if number == SYS_IOCTL || number == SYS_SOCKETCALL || number == SYS_WAIT4 || number
        == SYS_SELECT || number == SYS_MMAP2 || number == SYS_STAT64 || number == SYS_FSTAT64
        || number == SYS_FCNTL64 || number == SYS_PRLIMIT64 {
        decode_more(number, mem, varargs)
    } else {
        Err(SyscallError::Unsupported)
    }
}

/// A pointer that may be null, checked when it is not.
fn opt_span(mem: &GuestMemory, ptr: u32, len: u32) -> (r: Option<Option<GuestRange>>)
    ensures
        r is Some <==> opt_span_ok(mem@, ptr, len),
        r matches Some(g) ==> is_opt_span(g, ptr, len),
{
    if ptr == 0 {
        Some(None)
    } else {
        match mem.translate(ptr, len) {
            None => None,
            Some(g) => Some(Some(g)),
        }
    }
}

fn socket_args(call: u32) -> (r: u32)
    ensures
        r == socket_arg_count(call),
{
    if call == 1 || call == 2 || call == 3 || call == 5 || call == 6 || call == 7 || call == 16
        || call == 17 {
        3
    } else if call == 4 || call == 13 {
        2
    } else if call == 8 || call == 9 || call == 10 {
        4
    } else if call == 11 || call == 12 {
        6
    } else if call == 14 || call == 15 {
        5
    } else {
        0
    }
}

/// Decodes the calls on sockets, processes, descriptors and file status.
fn decode_more(number: i32, mem: &GuestMemory, varargs: u32) -> (r: Result<HostCall, SyscallError>)
    requires
        extra_call(number),
    ensures
        r is Ok <==> extra_ok(number, mem@, varargs as int),
        r matches Err(e) ==> e == (if extra_invalid(number, mem@, varargs as int) {
            SyscallError::InvalidArgument
        } else {
            SyscallError::Fault
        }),
        r matches Ok(c) ==> decoded_as(number, mem@, varargs as int, c),
{
    let mut c = ArgCursor::new(varargs);
    let n: u32 = if number == SYS_IOCTL || number == SYS_SOCKETCALL || number == SYS_STAT64
        || number == SYS_FSTAT64 || number == SYS_FCNTL64 {
        2
    } else if number == SYS_WAIT4 {
        3
    } else if number == SYS_PRLIMIT64 {
        4
    } else if number == SYS_SELECT {
        5
    } else {
        6
    };
    let a = match c.read_slots(mem, n) {
        None => return Err(SyscallError::Fault),
        Some(a) => a,
    };
    if number == SYS_IOCTL {
        Ok(HostCall::Ioctl { fd: signed(a[0]), request: signed(a[1]) })
    } else if number == SYS_SOCKETCALL {
        let count = socket_args(a[0]);
        if count == 0 {
            return Err(SyscallError::InvalidArgument);
        }
        let mut sub = ArgCursor::new(a[1]);
        match sub.read_slots(mem, count) {
            None => Err(SyscallError::Fault),
            Some(args) => Ok(HostCall::Socketcall { call: signed(a[0]), args }),
        }
    } else if number == SYS_WAIT4 {
        match opt_span(mem, a[1], 4) {
            None => Err(SyscallError::Fault),
            Some(status_at) => Ok(HostCall::Wait4 { pid: signed(a[0]), status_at, options: signed(a[2]) }),
        }
    } else if number == SYS_SELECT {
        if a[0] > MAX_SELECT_FDS {
            return Err(SyscallError::InvalidArgument);
        }
        let read = match opt_span(mem, a[1], FD_SET_SIZE) {
            None => return Err(SyscallError::Fault),
            Some(g) => g,
        };
        let write = match opt_span(mem, a[2], FD_SET_SIZE) {
            None => return Err(SyscallError::Fault),
            Some(g) => g,
        };
        let except = match opt_span(mem, a[3], FD_SET_SIZE) {
            None => return Err(SyscallError::Fault),
            Some(g) => g,
        };
        let timeout = match opt_span(mem, a[4], TIMEVAL_SIZE) {
            None => return Err(SyscallError::Fault),
            Some(g) => g,
        };
        Ok(HostCall::Select { nfds: signed(a[0]), read, write, except, timeout })
    } else if number == SYS_MMAP2 {
        Ok(
            HostCall::Mmap {
                addr: a[0],
                len: a[1],
                prot: signed(a[2]),
                flags: signed(a[3]),
                fd: signed(a[4]),
                pgoffset: a[5],
            },
        )
    } else if number == SYS_STAT64 {
        let path = match mem.read_cstr(a[0]) {
            None => return Err(SyscallError::Fault),
            Some(p) => p,
        };
        match mem.translate(a[1], STAT_SIZE) {
            None => Err(SyscallError::Fault),
            Some(buf) => Ok(HostCall::Stat { path, buf }),
        }
    } else if number == SYS_FSTAT64 {
        match mem.translate(a[1], STAT_SIZE) {
            None => Err(SyscallError::Fault),
            Some(buf) => Ok(HostCall::Fstat { fd: signed(a[0]), buf }),
        }
    } else if number == SYS_FCNTL64 {
        let cmd = signed(a[1]);
        if cmd == F_GETFD || cmd == F_GETFL {
            Ok(HostCall::Fcntl { fd: signed(a[0]), cmd, arg: None })
        } else {
            let mut all = ArgCursor::new(varargs);
            match all.read_slots(mem, 3) {
                None => Err(SyscallError::Fault),
                Some(b) => Ok(HostCall::Fcntl { fd: signed(a[0]), cmd, arg: Some(b[2]) }),
            }
        }
    } else {
        let new_limit = match opt_span(mem, a[2], RLIMIT64_SIZE) {
            None => return Err(SyscallError::Fault),
            Some(g) => g,
        };
        match opt_span(mem, a[3], RLIMIT64_SIZE) {
            None => Err(SyscallError::Fault),
            Some(old_limit) => Ok(
                HostCall::Prlimit { pid: signed(a[0]), resource: signed(a[1]), new_limit, old_limit },
            ),
        }
    }
}

/// What the guest observes of a syscall: its result, and the error code
/// to store when it failed.
#[derive(Debug, Clone, Copy, PartialEq, Eq, Structural)]
pub struct SyscallOutcome {
    pub ret: i32,
    pub errno: Option<i32>,
}

/// The outcome of a syscall that was not handed to the host, as a value.
pub open spec fn failed_outcome(e: SyscallError) -> SyscallOutcome {
    SyscallOutcome { ret: -1i32, errno: Some(errno_of(e)) }
}

/// The outcome of a syscall that was not handed to the host.
pub fn syscall_failed(e: SyscallError) -> (r: SyscallOutcome)
    ensures
        r.ret == -1,
        r.errno == Some(errno_of(e)),
{
    SyscallOutcome { ret: -1, errno: Some(e.errno()) }
}

/// The outcome of a syscall that the host performed: its non-negative
/// result, or -1 with the host's error code.
pub fn syscall_completed(host: Result<i32, i32>) -> (r: SyscallOutcome)
    requires
        host matches Ok(v) ==> v >= 0,
    ensures
        host matches Ok(v) ==> r.ret == v && r.errno is None,
        host matches Err(code) ==> r.ret == -1 && r.errno == Some(code),
{
    match host {
        Ok(v) => SyscallOutcome { ret: v, errno: None },
        Err(code) => SyscallOutcome { ret: -1, errno: Some(code) },
    }
}

/// The outcome of a syscall that is registered so that modules link, but
/// not implemented.
pub fn mocked_syscall() -> (r: SyscallOutcome)
    ensures
        r.ret == -1,
        r.errno == Some(ENOSYS),
{
    syscall_failed(SyscallError::Unsupported)
}

/// Stores the position a seek reached into its eight-byte result span, low
/// word first.
pub fn store_seek_result(mem: &mut GuestMemory, result: GuestRange, pos: u64) -> (written: bool)
    ensures
        written <==> in_bounds(old(mem)@.len() as int, result.start as int, 8) && result.start
            <= u32::MAX - 4,
        written ==> final(mem)@ == splice(
            splice(old(mem)@, result.start as int, le_bytes((pos % 4294967296) as u32)),
            result.start + 4,
            le_bytes((pos / 4294967296) as u32),
        ),
        !written ==> final(mem)@ == old(mem)@,
{
    if result.start > (u32::MAX - 4) as usize || result.start as u64 + 8 > mem.len() as u64 {
        return false;
    }
    let low = (pos % 4294967296) as u32;
    let high = (pos / 4294967296) as u32;
    mem.write_u32(result.start as u32, low);
    mem.write_u32(result.start as u32 + 4, high);
    true
}

/// A host call's raw return value and error code as the guest's result: a
/// negative value is a failure with `errno`; a count too large for the
/// guest's integer is an overflow.
pub fn host_status(ret: i64, errno: i32) -> (r: Result<i32, i32>)
    ensures
        ret < 0 ==> r == Err::<i32, i32>(errno),
        0 <= ret <= i32::MAX ==> r == Ok::<i32, i32>(ret as i32),
        ret > i32::MAX ==> r == Err::<i32, i32>(EOVERFLOW),
{
    if ret < 0 {
        Err(errno)
    } else if ret > i32::MAX as i64 {
        Err(EOVERFLOW)
    } else {
        Ok(ret as i32)
    }
}

/// The count of a vectored read after one more span: the new total, or
/// none when it overflows, and whether to go on to the next span, which it
/// does only when this span was filled.
pub fn readv_progress(total: i32, got: i32, span: GuestRange) -> (r: Option<(i32, bool)>)
    requires
        total >= 0,
        got >= 0,
    ensures
        r is None <==> total + got > i32::MAX,
        r matches Some((t, more)) ==> t == total + got && more == (got == span.end - span.start),
{
    if total > i32::MAX - got {
        return None;
    }
    let filled = span.end >= span.start && got as usize == span.end - span.start;
    Some((total + got, filled))
}

/// What the host reports of a file, cut to the guest's 32-bit fields.
#[derive(Debug, Clone, Copy, PartialEq, Eq, Structural)]
pub struct StatInfo {
    pub dev: u32,
    pub ino: u32,
    pub mode: u32,
    pub nlink: u32,
    pub uid: u32,
    pub gid: u32,
    pub rdev: u32,
    pub size: u32,
    pub blksize: u32,
    pub blocks: u32,
    pub atime: u32,
    pub mtime: u32,
    pub ctime: u32,
}

/// The words of the guest's `struct stat`, in memory order; padding and
/// nanosecond fields are zero, and the inode number also ends the record.
pub fn stat_words(info: StatInfo) -> (r: Vec<u32>)
    ensures
        r@ == seq![
            info.dev, 0u32, info.ino, info.mode, info.nlink, info.uid, info.gid, info.rdev, 0u32,
            info.size, info.blksize, info.blocks, info.atime, 0u32, info.mtime, 0u32, info.ctime,
            0u32, info.ino,
        ],
        r@.len() * 4 == STAT_SIZE,
{
    let v = vec![
        info.dev, 0u32, info.ino, info.mode, info.nlink, info.uid, info.gid, info.rdev, 0u32,
        info.size, info.blksize, info.blocks, info.atime, 0u32, info.mtime, 0u32, info.ctime,
        0u32, info.ino,
    ];
    assert(v@ =~= seq![
        info.dev, 0u32, info.ino, info.mode, info.nlink, info.uid, info.gid, info.rdev, 0u32,
        info.size, info.blksize, info.blocks, info.atime, 0u32, info.mtime, 0u32, info.ctime,
        0u32, info.ino,
    ]);
    v
}

/// `g` lies inside a memory of `size` bytes.
pub open spec fn span_in(g: GuestRange, size: int) -> bool {
    g.start <= g.end <= size
}

pub open spec fn opt_span_in(g: Option<GuestRange>, size: int) -> bool {
    g matches Some(r) ==> span_in(r, size)
}

/// Every span that call `c` names lies inside a memory of `size` bytes.
pub open spec fn spans_in(c: HostCall, size: int) -> bool {
    match c {
        HostCall::Read { buf, .. } => span_in(buf, size),
        HostCall::Pread { buf, .. } => span_in(buf, size),
        HostCall::Uname { buf } => span_in(buf, size),
        HostCall::Stat { buf, .. } => span_in(buf, size),
        HostCall::Fstat { buf, .. } => span_in(buf, size),
        HostCall::Seek { result, .. } => span_in(result, size),
        HostCall::Readv { bufs, .. } => forall|i: int|
            0 <= i < bufs@.len() ==> span_in(#[trigger] bufs@[i], size),
        HostCall::Wait4 { status_at, .. } => opt_span_in(status_at, size),
        HostCall::Select { read, write, except, timeout, .. } => {
            &&& opt_span_in(read, size)
            &&& opt_span_in(write, size)
            &&& opt_span_in(except, size)
            &&& opt_span_in(timeout, size)
        },
        HostCall::Prlimit { new_limit, old_limit, .. } => opt_span_in(new_limit, size)
            && opt_span_in(old_limit, size),
        _ => true,
    }
}

/// A decoded call only names spans inside the memory it was decoded from:
/// a guest pointer and length that reach past the memory, or whose sum
/// overflows, never yield a call.
pub proof fn lemma_decoded_spans_in_bounds(n: i32, mem: Seq<u8>, p: int, c: HostCall)
    requires
        request_ok(n, mem, p),
        decoded_as(n, mem, p, c),
    ensures
        spans_in(c, mem.len() as int),
{
    if let HostCall::Readv { bufs, .. } = c {
        let iov = arg(mem, p, 1) as int;
        assert forall|i: int| 0 <= i < bufs@.len() implies span_in(
            #[trigger] bufs@[i],
            mem.len() as int,
        ) by {
            assert(is_iov_span(mem, iov, i, bufs@[i]));
            assert(in_bounds(mem.len() as int, iov_base(mem, iov, i) as int, iov_len(mem, iov, i) as int));
        }
    }
}

/// `grown` is `mem` with bytes appended.
pub open spec fn extends(grown: Seq<u8>, mem: Seq<u8>) -> bool {
    mem.len() <= grown.len() && grown.subrange(0, mem.len() as int) == mem
}

proof fn lemma_extends_bytes(grown: Seq<u8>, mem: Seq<u8>)
    requires
        extends(grown, mem),
    ensures
        forall|i: int| 0 <= i < mem.len() ==> #[trigger] grown[i] == mem[i],
        forall|a: int, b: int|
            0 <= a <= b <= mem.len() ==> #[trigger] grown.subrange(a, b) == mem.subrange(a, b),
        forall|o: int| 0 <= o && o + 4 <= mem.len() ==> #[trigger] slot_value(grown, o) == slot_value(mem, o),
{
    assert forall|i: int| 0 <= i < mem.len() implies #[trigger] grown[i] == mem[i] by {
        assert(grown.subrange(0, mem.len() as int)[i] == grown[i]);
    }
    assert forall|a: int, b: int| 0 <= a <= b <= mem.len() implies #[trigger] grown.subrange(a, b)
        == mem.subrange(a, b) by {
        assert(grown.subrange(a, b) =~= mem.subrange(a, b));
    }
    assert forall|o: int| 0 <= o && o + 4 <= mem.len() implies #[trigger] slot_value(grown, o)
        == slot_value(mem, o) by {
        assert(grown.subrange(o, o + 4) =~= mem.subrange(o, o + 4));
    }
}

proof fn lemma_gathered_extends(grown: Seq<u8>, mem: Seq<u8>, iov: int, k: int)
    requires
        extends(grown, mem),
        0 <= k,
        0 <= iov,
        slots_readable(mem.len() as int, iov, 2 * k),
        forall|i: int|
            0 <= i < k ==> in_bounds(
                mem.len() as int,
                #[trigger] iov_base(mem, iov, i) as int,
                iov_len(mem, iov, i) as int,
            ),
    ensures
        gathered(grown, iov, k) == gathered(mem, iov, k),
    decreases k,
{
    lemma_extends_bytes(grown, mem);
    if k > 0 {
        lemma_gathered_extends(grown, mem, iov, k - 1);
        assert(slot_value(grown, iov + 8 * (k - 1)) == slot_value(mem, iov + 8 * (k - 1)));
        assert(slot_value(grown, iov + 8 * (k - 1) + 4) == slot_value(mem, iov + 8 * (k - 1) + 4));
        assert(in_bounds(
            mem.len() as int,
            iov_base(mem, iov, k - 1) as int,
            iov_len(mem, iov, k - 1) as int,
        ));
    }
}

/// Growing the memory never turns an accepted syscall into a rejected one,
/// and the call decodes to the same thing: every check is made against the
/// memory as it is at the call, and what an earlier, smaller memory passed,
/// the grown one passes too.
#[verifier::rlimit(100)]
pub proof fn lemma_growth_keeps_decoding(n: i32, mem: Seq<u8>, grown: Seq<u8>, p: int, c: HostCall)
    requires
        extends(grown, mem),
        0 <= p,
        request_ok(n, mem, p),
    ensures
        request_ok(n, grown, p),
        decoded_as(n, mem, p, c) ==> decoded_as(n, grown, p, c),
{
    lemma_extends_bytes(grown, mem);
    let len = mem.len() as int;
    assert forall|ptr: int, l: int| cstr_at(mem, ptr, l) implies #[trigger] cstr_at(grown, ptr, l) by {
        assert forall|i: int| ptr <= i < ptr + l implies #[trigger] grown[i] != 0 by {
            assert(mem[i] != 0);
        }
    }
    assert forall|ptr: int| has_cstr(mem, ptr) implies #[trigger] has_cstr(grown, ptr) by {
        let l = choose|l: int| cstr_at(mem, ptr, l);
        assert(cstr_at(grown, ptr, l));
    }
    if n == SYS_READV || n == SYS_WRITEV {
        let iov = arg(mem, p, 1) as int;
        let cnt = arg(mem, p, 2) as int;
        assert(arg(grown, p, 1) == arg(mem, p, 1));
        assert(arg(grown, p, 2) == arg(mem, p, 2));
        assert forall|i: int| 0 <= i < cnt implies in_bounds(
            grown.len() as int,
            #[trigger] iov_base(grown, iov, i) as int,
            iov_len(grown, iov, i) as int,
        ) by {
            assert(in_bounds(len, iov_base(mem, iov, i) as int, iov_len(mem, iov, i) as int));
            assert(slot_value(grown, iov + 8 * i) == slot_value(mem, iov + 8 * i));
            assert(slot_value(grown, iov + 8 * i + 4) == slot_value(mem, iov + 8 * i + 4));
        }
        assert forall|i: int| 0 <= i < cnt implies #[trigger] iov_base(grown, iov, i) == iov_base(mem, iov, i)
            && iov_len(grown, iov, i) == iov_len(mem, iov, i) by {
            assert(slot_value(grown, iov + 8 * i) == slot_value(mem, iov + 8 * i));
            assert(slot_value(grown, iov + 8 * i + 4) == slot_value(mem, iov + 8 * i + 4));
        }
        lemma_gathered_extends(grown, mem, iov, cnt);
    }
    if n == SYS_SOCKETCALL {
        let base = arg(mem, p, 1) as int;
        assert(arg(grown, p, 0) == arg(mem, p, 0));
        assert(arg(grown, p, 1) == arg(mem, p, 1));
    }
    if args_ok(mem, p, 1) {
        assert(arg(grown, p, 0) == arg(mem, p, 0));
    }
    if args_ok(mem, p, 2) {
        assert(arg(grown, p, 1) == arg(mem, p, 1));
    }
    if args_ok(mem, p, 3) {
        assert(arg(grown, p, 2) == arg(mem, p, 2));
    }
    if args_ok(mem, p, 4) {
        assert(arg(grown, p, 3) == arg(mem, p, 3));
    }
    if args_ok(mem, p, 5) {
        assert(arg(grown, p, 4) == arg(mem, p, 4));
    }
    if args_ok(mem, p, 6) {
        assert(arg(grown, p, 5) == arg(mem, p, 5));
    }
}

/// The `k`-th argument of a syscall is the little-endian word of the four
/// bytes `4 * k` past the argument block, whatever the argument's width.
pub proof fn lemma_args_are_slots(mem: Seq<u8>, p: int, n: int, k: int)
    requires
        0 <= p,
        args_ok(mem, p, n),
        0 <= k < n,
    ensures
        arg(mem, p, k) as int == le_value(mem.subrange(p + 4 * k, p + 4 * k + 4)),
        p + 4 * k + 4 <= mem.len(),
{
    let b = mem.subrange(p + 4 * k, p + 4 * k + 4);
    assert(0 <= le_value(b) <= u32::MAX);
}

} // verus!

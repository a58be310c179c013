//! The imports that a module built by the toolchain links against: constant
//! globals, host functions with their signatures and the handler that
//! answers each, and placeholders for functions this layer does not
//! implement.
//!
//! The table is declared once, as `import_spec`, ordered by name; the
//! executable table is proved equal to it, and every name in it is bound
//! once. A syscall that has a decoder is bound to it and never to a
//! placeholder.

use crate::layout::{
    dynamictop_ptr, dynamictop_ptr_of, layout_fits, lemma_layout_ordered, stack_max,
    stack_max_of, stacktop, stacktop_of, STATIC_BUMP,
};
use vstd::prelude::*;

verus! {

/// Bits of the double-precision positive infinity.
pub const INFINITY_BITS: i64 = 0x7FF0_0000_0000_0000;

/// Bits of the canonical double-precision NaN.
pub const NAN_BITS: i64 = 0x7FF8_0000_0000_0000;

/// Number of entries in the import table.
pub const IMPORT_COUNT: usize = 144;

/// The kinds of values that cross the import boundary.
#[derive(Debug, Clone, Copy, PartialEq, Eq, Structural)]
pub enum ValType {
    I32,
    F64,
}

/// What answers a call of an imported function.
#[derive(Debug, Clone, Copy, PartialEq, Eq, Structural)]
pub enum Handler {
    /// The syscall of this number, decoded by `decode_syscall`.
    Syscall(i32),
    /// A placeholder: returns -1 and sets the guest's error code to ENOSYS.
    Mock,
    /// Marks a save point.
    SetJmp,
    /// Jumps to a save point.
    LongJmp,
    /// A host function that the embedder provides as it stands (formatted
    /// output, clocks, environment variables, math).
    Native,
}

/// What an import binds to. A function takes `params` and returns
/// `results` values, all of type `ty`.
#[derive(Debug, Clone, Copy)]
pub enum ImportKind {
    Global { value: i64 },
    Func { ty: ValType, params: u8, results: u8, handler: Handler },
}

/// One entry of the import table, bound by namespace and name.
#[derive(Debug, Clone, Copy)]
pub struct ImportEntry {
    pub namespace: &'static str,
    pub name: &'static str,
    pub kind: ImportKind,
}

/// The handler of a function entry; none for a global.
pub open spec fn handler_of(e: ImportEntry) -> Option<Handler> {
    match e.kind {
        ImportKind::Func { handler, .. } => Some(handler),
        ImportKind::Global { .. } => None,
    }
}

/// The declared import table, ordered by name.
pub open spec fn import_spec(i: int) -> ImportEntry {
    if i == 0 {
        ImportEntry { namespace: "env", name: "DYNAMICTOP_PTR", kind: ImportKind::Global { value: dynamictop_ptr_of(STATIC_BUMP as int) as i64 } }
    } else if i == 1 {
        ImportEntry { namespace: "global", name: "Infinity", kind: ImportKind::Global { value: INFINITY_BITS } }
    } else if i == 2 {
        ImportEntry { namespace: "global", name: "NaN", kind: ImportKind::Global { value: NAN_BITS } }
    } else if i == 3 {
        ImportEntry { namespace: "env", name: "STACKTOP", kind: ImportKind::Global { value: stacktop_of(STATIC_BUMP as int) as i64 } }
    } else if i == 4 {
        ImportEntry { namespace: "env", name: "STACK_MAX", kind: ImportKind::Global { value: stack_max_of(STATIC_BUMP as int) as i64 } }
    } else if i == 5 {
        ImportEntry { namespace: "env", name: "___buildEnvironment", kind: ImportKind::Func { ty: ValType::I32, params: 1, results: 0, handler: Handler::Native } }
    } else if i == 6 {
        ImportEntry { namespace: "env", name: "___clock_gettime", kind: ImportKind::Func { ty: ValType::I32, params: 2, results: 1, handler: Handler::Native } }
    } else if i == 7 {
        ImportEntry { namespace: "env", name: "___cxa_allocate_exception", kind: ImportKind::Func { ty: ValType::I32, params: 1, results: 1, handler: Handler::Native } }
    } else if i == 8 {
        ImportEntry { namespace: "env", name: "___cxa_throw", kind: ImportKind::Func { ty: ValType::I32, params: 3, results: 0, handler: Handler::Native } }
    } else if i == 9 {
        ImportEntry { namespace: "env", name: "___lock", kind: ImportKind::Func { ty: ValType::I32, params: 2, results: 0, handler: Handler::Native } }
    } else if i == 10 {
        ImportEntry { namespace: "env", name: "___map_file", kind: ImportKind::Func { ty: ValType::I32, params: 0, results: 1, handler: Handler::Native } }
    } else if i == 11 {
        ImportEntry { namespace: "env", name: "___setErrNo", kind: ImportKind::Func { ty: ValType::I32, params: 1, results: 1, handler: Handler::Native } }
    } else if i == 12 {
        ImportEntry { namespace: "env", name: "___syscall1", kind: ImportKind::Func { ty: ValType::I32, params: 2, results: 0, handler: Handler::Syscall(1) } }
    } else if i == 13 {
        ImportEntry { namespace: "env", name: "___syscall10", kind: ImportKind::Func { ty: ValType::I32, params: 0, results: 1, handler: Handler::Mock } }
    } else if i == 14 {
        ImportEntry { namespace: "env", name: "___syscall102", kind: ImportKind::Func { ty: ValType::I32, params: 2, results: 1, handler: Handler::Syscall(102) } }
    } else if i == 15 {
        ImportEntry { namespace: "env", name: "___syscall114", kind: ImportKind::Func { ty: ValType::I32, params: 2, results: 1, handler: Handler::Syscall(114) } }
    } else if i == 16 {
        ImportEntry { namespace: "env", name: "___syscall12", kind: ImportKind::Func { ty: ValType::I32, params: 2, results: 1, handler: Handler::Syscall(12) } }
    } else if i == 17 {
        ImportEntry { namespace: "env", name: "___syscall122", kind: ImportKind::Func { ty: ValType::I32, params: 2, results: 1, handler: Handler::Syscall(122) } }
    } else if i == 18 {
        ImportEntry { namespace: "env", name: "___syscall140", kind: ImportKind::Func { ty: ValType::I32, params: 2, results: 1, handler: Handler::Syscall(140) } }
    } else if i == 19 {
        ImportEntry { namespace: "env", name: "___syscall142", kind: ImportKind::Func { ty: ValType::I32, params: 2, results: 1, handler: Handler::Syscall(142) } }
    } else if i == 20 {
        ImportEntry { namespace: "env", name: "___syscall145", kind: ImportKind::Func { ty: ValType::I32, params: 2, results: 1, handler: Handler::Syscall(145) } }
    } else if i == 21 {
        ImportEntry { namespace: "env", name: "___syscall146", kind: ImportKind::Func { ty: ValType::I32, params: 2, results: 1, handler: Handler::Syscall(146) } }
    } else if i == 22 {
        ImportEntry { namespace: "env", name: "___syscall15", kind: ImportKind::Func { ty: ValType::I32, params: 0, results: 1, handler: Handler::Mock } }
    } else if i == 23 {
        ImportEntry { namespace: "env", name: "___syscall168", kind: ImportKind::Func { ty: ValType::I32, params: 0, results: 1, handler: Handler::Mock } }
    } else if i == 24 {
        ImportEntry { namespace: "env", name: "___syscall180", kind: ImportKind::Func { ty: ValType::I32, params: 2, results: 1, handler: Handler::Syscall(180) } }
    } else if i == 25 {
        ImportEntry { namespace: "env", name: "___syscall181", kind: ImportKind::Func { ty: ValType::I32, params: 2, results: 1, handler: Handler::Syscall(181) } }
    } else if i == 26 {
        ImportEntry { namespace: "env", name: "___syscall191", kind: ImportKind::Func { ty: ValType::I32, params: 0, results: 1, handler: Handler::Mock } }
    } else if i == 27 {
        ImportEntry { namespace: "env", name: "___syscall192", kind: ImportKind::Func { ty: ValType::I32, params: 2, results: 1, handler: Handler::Syscall(192) } }
    } else if i == 28 {
        ImportEntry { namespace: "env", name: "___syscall194", kind: ImportKind::Func { ty: ValType::I32, params: 0, results: 1, handler: Handler::Mock } }
    } else if i == 29 {
        ImportEntry { namespace: "env", name: "___syscall195", kind: ImportKind::Func { ty: ValType::I32, params: 2, results: 1, handler: Handler::Syscall(195) } }
    } else if i == 30 {
        ImportEntry { namespace: "env", name: "___syscall196", kind: ImportKind::Func { ty: ValType::I32, params: 0, results: 1, handler: Handler::Mock } }
    } else if i == 31 {
        ImportEntry { namespace: "env", name: "___syscall197", kind: ImportKind::Func { ty: ValType::I32, params: 2, results: 1, handler: Handler::Syscall(197) } }
    } else if i == 32 {
        ImportEntry { namespace: "env", name: "___syscall199", kind: ImportKind::Func { ty: ValType::I32, params: 0, results: 1, handler: Handler::Mock } }
    } else if i == 33 {
        ImportEntry { namespace: "env", name: "___syscall20", kind: ImportKind::Func { ty: ValType::I32, params: 0, results: 1, handler: Handler::Syscall(20) } }
    } else if i == 34 {
        ImportEntry { namespace: "env", name: "___syscall201", kind: ImportKind::Func { ty: ValType::I32, params: 0, results: 1, handler: Handler::Syscall(201) } }
    } else if i == 35 {
        ImportEntry { namespace: "env", name: "___syscall202", kind: ImportKind::Func { ty: ValType::I32, params: 0, results: 1, handler: Handler::Syscall(202) } }
    } else if i == 36 {
        ImportEntry { namespace: "env", name: "___syscall212", kind: ImportKind::Func { ty: ValType::I32, params: 2, results: 1, handler: Handler::Syscall(212) } }
    } else if i == 37 {
        ImportEntry { namespace: "env", name: "___syscall220", kind: ImportKind::Func { ty: ValType::I32, params: 0, results: 1, handler: Handler::Mock } }
    } else if i == 38 {
        ImportEntry { namespace: "env", name: "___syscall221", kind: ImportKind::Func { ty: ValType::I32, params: 2, results: 1, handler: Handler::Syscall(221) } }
    } else if i == 39 {
        ImportEntry { namespace: "env", name: "___syscall268", kind: ImportKind::Func { ty: ValType::I32, params: 0, results: 1, handler: Handler::Mock } }
    } else if i == 40 {
        ImportEntry { namespace: "env", name: "___syscall272", kind: ImportKind::Func { ty: ValType::I32, params: 0, results: 1, handler: Handler::Mock } }
    } else if i == 41 {
        ImportEntry { namespace: "env", name: "___syscall295", kind: ImportKind::Func { ty: ValType::I32, params: 0, results: 1, handler: Handler::Mock } }
    } else if i == 42 {
        ImportEntry { namespace: "env", name: "___syscall3", kind: ImportKind::Func { ty: ValType::I32, params: 2, results: 1, handler: Handler::Syscall(3) } }
    } else if i == 43 {
        ImportEntry { namespace: "env", name: "___syscall300", kind: ImportKind::Func { ty: ValType::I32, params: 0, results: 1, handler: Handler::Mock } }
    } else if i == 44 {
        ImportEntry { namespace: "env", name: "___syscall330", kind: ImportKind::Func { ty: ValType::I32, params: 2, results: 1, handler: Handler::Syscall(330) } }
    } else if i == 45 {
        ImportEntry { namespace: "env", name: "___syscall334", kind: ImportKind::Func { ty: ValType::I32, params: 0, results: 1, handler: Handler::Mock } }
    } else if i == 46 {
        ImportEntry { namespace: "env", name: "___syscall340", kind: ImportKind::Func { ty: ValType::I32, params: 2, results: 1, handler: Handler::Syscall(340) } }
    } else if i == 47 {
        ImportEntry { namespace: "env", name: "___syscall38", kind: ImportKind::Func { ty: ValType::I32, params: 0, results: 1, handler: Handler::Mock } }
    } else if i == 48 {
        ImportEntry { namespace: "env", name: "___syscall39", kind: ImportKind::Func { ty: ValType::I32, params: 2, results: 1, handler: Handler::Syscall(39) } }
    } else if i == 49 {
        ImportEntry { namespace: "env", name: "___syscall4", kind: ImportKind::Func { ty: ValType::I32, params: 2, results: 1, handler: Handler::Syscall(4) } }
    } else if i == 50 {
        ImportEntry { namespace: "env", name: "___syscall40", kind: ImportKind::Func { ty: ValType::I32, params: 2, results: 1, handler: Handler::Syscall(40) } }
    } else if i == 51 {
        ImportEntry { namespace: "env", name: "___syscall5", kind: ImportKind::Func { ty: ValType::I32, params: 2, results: 1, handler: Handler::Syscall(5) } }
    } else if i == 52 {
        ImportEntry { namespace: "env", name: "___syscall54", kind: ImportKind::Func { ty: ValType::I32, params: 2, results: 1, handler: Handler::Syscall(54) } }
    } else if i == 53 {
        ImportEntry { namespace: "env", name: "___syscall57", kind: ImportKind::Func { ty: ValType::I32, params: 2, results: 1, handler: Handler::Syscall(57) } }
    } else if i == 54 {
        ImportEntry { namespace: "env", name: "___syscall6", kind: ImportKind::Func { ty: ValType::I32, params: 2, results: 1, handler: Handler::Syscall(6) } }
    } else if i == 55 {
        ImportEntry { namespace: "env", name: "___syscall63", kind: ImportKind::Func { ty: ValType::I32, params: 2, results: 1, handler: Handler::Syscall(63) } }
    } else if i == 56 {
        ImportEntry { namespace: "env", name: "___syscall64", kind: ImportKind::Func { ty: ValType::I32, params: 0, results: 1, handler: Handler::Syscall(64) } }
    } else if i == 57 {
        ImportEntry { namespace: "env", name: "___syscall66", kind: ImportKind::Func { ty: ValType::I32, params: 0, results: 1, handler: Handler::Mock } }
    } else if i == 58 {
        ImportEntry { namespace: "env", name: "___syscall75", kind: ImportKind::Func { ty: ValType::I32, params: 0, results: 1, handler: Handler::Mock } }
    } else if i == 59 {
        ImportEntry { namespace: "env", name: "___syscall85", kind: ImportKind::Func { ty: ValType::I32, params: 0, results: 1, handler: Handler::Mock } }
    } else if i == 60 {
        ImportEntry { namespace: "env", name: "___syscall91", kind: ImportKind::Func { ty: ValType::I32, params: 0, results: 1, handler: Handler::Mock } }
    } else if i == 61 {
        ImportEntry { namespace: "env", name: "___syscall97", kind: ImportKind::Func { ty: ValType::I32, params: 0, results: 1, handler: Handler::Mock } }
    } else if i == 62 {
        ImportEntry { namespace: "env", name: "___unlock", kind: ImportKind::Func { ty: ValType::I32, params: 2, results: 0, handler: Handler::Native } }
    } else if i == 63 {
        ImportEntry { namespace: "env", name: "___wait", kind: ImportKind::Func { ty: ValType::I32, params: 2, results: 0, handler: Handler::Native } }
    } else if i == 64 {
        ImportEntry { namespace: "env", name: "__longjmp", kind: ImportKind::Func { ty: ValType::I32, params: 2, results: 0, handler: Handler::LongJmp } }
    } else if i == 65 {
        ImportEntry { namespace: "env", name: "__setjmp", kind: ImportKind::Func { ty: ValType::I32, params: 1, results: 1, handler: Handler::SetJmp } }
    } else if i == 66 {
        ImportEntry { namespace: "env", name: "_abort", kind: ImportKind::Func { ty: ValType::I32, params: 0, results: 0, handler: Handler::Native } }
    } else if i == 67 {
        ImportEntry { namespace: "env", name: "_asctime", kind: ImportKind::Func { ty: ValType::I32, params: 1, results: 1, handler: Handler::Native } }
    } else if i == 68 {
        ImportEntry { namespace: "env", name: "_asctime_r", kind: ImportKind::Func { ty: ValType::I32, params: 2, results: 1, handler: Handler::Native } }
    } else if i == 69 {
        ImportEntry { namespace: "env", name: "_clock", kind: ImportKind::Func { ty: ValType::I32, params: 0, results: 1, handler: Handler::Native } }
    } else if i == 70 {
        ImportEntry { namespace: "env", name: "_clock_gettime", kind: ImportKind::Func { ty: ValType::I32, params: 2, results: 1, handler: Handler::Native } }
    } else if i == 71 {
        ImportEntry { namespace: "env", name: "_difftime", kind: ImportKind::Func { ty: ValType::I32, params: 2, results: 1, handler: Handler::Native } }
    } else if i == 72 {
        ImportEntry { namespace: "env", name: "_dlclose", kind: ImportKind::Func { ty: ValType::I32, params: 0, results: 1, handler: Handler::Mock } }
    } else if i == 73 {
        ImportEntry { namespace: "env", name: "_dlerror", kind: ImportKind::Func { ty: ValType::I32, params: 0, results: 1, handler: Handler::Mock } }
    } else if i == 74 {
        ImportEntry { namespace: "env", name: "_dlopen", kind: ImportKind::Func { ty: ValType::I32, params: 0, results: 1, handler: Handler::Mock } }
    } else if i == 75 {
        ImportEntry { namespace: "env", name: "_dlsym", kind: ImportKind::Func { ty: ValType::I32, params: 0, results: 1, handler: Handler::Mock } }
    } else if i == 76 {
        ImportEntry { namespace: "env", name: "_emscripten_memcpy_big", kind: ImportKind::Func { ty: ValType::I32, params: 3, results: 1, handler: Handler::Native } }
    } else if i == 77 {
        ImportEntry { namespace: "env", name: "_endgrent", kind: ImportKind::Func { ty: ValType::I32, params: 0, results: 1, handler: Handler::Mock } }
    } else if i == 78 {
        ImportEntry { namespace: "env", name: "_execve", kind: ImportKind::Func { ty: ValType::I32, params: 0, results: 1, handler: Handler::Mock } }
    } else if i == 79 {
        ImportEntry { namespace: "env", name: "_exit", kind: ImportKind::Func { ty: ValType::I32, params: 1, results: 0, handler: Handler::Native } }
    } else if i == 80 {
        ImportEntry { namespace: "env", name: "_fork", kind: ImportKind::Func { ty: ValType::I32, params: 0, results: 1, handler: Handler::Native } }
    } else if i == 81 {
        ImportEntry { namespace: "env", name: "_getaddrinfo", kind: ImportKind::Func { ty: ValType::I32, params: 0, results: 1, handler: Handler::Mock } }
    } else if i == 82 {
        ImportEntry { namespace: "env", name: "_getenv", kind: ImportKind::Func { ty: ValType::I32, params: 1, results: 1, handler: Handler::Native } }
    } else if i == 83 {
        ImportEntry { namespace: "env", name: "_getgrent", kind: ImportKind::Func { ty: ValType::I32, params: 0, results: 1, handler: Handler::Mock } }
    } else if i == 84 {
        ImportEntry { namespace: "env", name: "_getgrnam", kind: ImportKind::Func { ty: ValType::I32, params: 1, results: 1, handler: Handler::Native } }
    } else if i == 85 {
        ImportEntry { namespace: "env", name: "_getpagesize", kind: ImportKind::Func { ty: ValType::I32, params: 0, results: 1, handler: Handler::Native } }
    } else if i == 86 {
        ImportEntry { namespace: "env", name: "_getpwnam", kind: ImportKind::Func { ty: ValType::I32, params: 1, results: 1, handler: Handler::Native } }
    } else if i == 87 {
        ImportEntry { namespace: "env", name: "_gettimeofday", kind: ImportKind::Func { ty: ValType::I32, params: 2, results: 1, handler: Handler::Native } }
    } else if i == 88 {
        ImportEntry { namespace: "env", name: "_gmtime_r", kind: ImportKind::Func { ty: ValType::I32, params: 0, results: 1, handler: Handler::Mock } }
    } else if i == 89 {
        ImportEntry { namespace: "env", name: "_kill", kind: ImportKind::Func { ty: ValType::I32, params: 0, results: 1, handler: Handler::Mock } }
    } else if i == 90 {
        ImportEntry { namespace: "env", name: "_llvm_log10_f64", kind: ImportKind::Func { ty: ValType::F64, params: 1, results: 1, handler: Handler::Native } }
    } else if i == 91 {
        ImportEntry { namespace: "env", name: "_llvm_log2_f64", kind: ImportKind::Func { ty: ValType::F64, params: 1, results: 1, handler: Handler::Native } }
    } else if i == 92 {
        ImportEntry { namespace: "env", name: "_llvm_stackrestore", kind: ImportKind::Func { ty: ValType::I32, params: 0, results: 1, handler: Handler::Mock } }
    } else if i == 93 {
        ImportEntry { namespace: "env", name: "_llvm_stacksave", kind: ImportKind::Func { ty: ValType::I32, params: 0, results: 1, handler: Handler::Mock } }
    } else if i == 94 {
        ImportEntry { namespace: "env", name: "_llvm_trap", kind: ImportKind::Func { ty: ValType::I32, params: 0, results: 0, handler: Handler::Native } }
    } else if i == 95 {
        ImportEntry { namespace: "env", name: "_localtime", kind: ImportKind::Func { ty: ValType::I32, params: 1, results: 1, handler: Handler::Native } }
    } else if i == 96 {
        ImportEntry { namespace: "env", name: "_localtime_r", kind: ImportKind::Func { ty: ValType::I32, params: 2, results: 1, handler: Handler::Native } }
    } else if i == 97 {
        ImportEntry { namespace: "env", name: "_mktime", kind: ImportKind::Func { ty: ValType::I32, params: 0, results: 1, handler: Handler::Mock } }
    } else if i == 98 {
        ImportEntry { namespace: "env", name: "_popen", kind: ImportKind::Func { ty: ValType::I32, params: 0, results: 1, handler: Handler::Native } }
    } else if i == 99 {
        ImportEntry { namespace: "env", name: "_putenv", kind: ImportKind::Func { ty: ValType::I32, params: 1, results: 0, handler: Handler::Native } }
    } else if i == 100 {
        ImportEntry { namespace: "env", name: "_raise", kind: ImportKind::Func { ty: ValType::I32, params: 0, results: 1, handler: Handler::Mock } }
    } else if i == 101 {
        ImportEntry { namespace: "env", name: "_sched_yield", kind: ImportKind::Func { ty: ValType::I32, params: 0, results: 1, handler: Handler::Mock } }
    } else if i == 102 {
        ImportEntry { namespace: "env", name: "_sem_init", kind: ImportKind::Func { ty: ValType::I32, params: 0, results: 1, handler: Handler::Mock } }
    } else if i == 103 {
        ImportEntry { namespace: "env", name: "_sem_post", kind: ImportKind::Func { ty: ValType::I32, params: 0, results: 1, handler: Handler::Mock } }
    } else if i == 104 {
        ImportEntry { namespace: "env", name: "_sem_wait", kind: ImportKind::Func { ty: ValType::I32, params: 0, results: 1, handler: Handler::Mock } }
    } else if i == 105 {
        ImportEntry { namespace: "env", name: "_setenv", kind: ImportKind::Func { ty: ValType::I32, params: 3, results: 0, handler: Handler::Native } }
    } else if i == 106 {
        ImportEntry { namespace: "env", name: "_setgrent", kind: ImportKind::Func { ty: ValType::I32, params: 0, results: 1, handler: Handler::Mock } }
    } else if i == 107 {
        ImportEntry { namespace: "env", name: "_setgroups", kind: ImportKind::Func { ty: ValType::I32, params: 0, results: 1, handler: Handler::Mock } }
    } else if i == 108 {
        ImportEntry { namespace: "env", name: "_setitimer", kind: ImportKind::Func { ty: ValType::I32, params: 0, results: 1, handler: Handler::Mock } }
    } else if i == 109 {
        ImportEntry { namespace: "env", name: "_sigaction", kind: ImportKind::Func { ty: ValType::I32, params: 3, results: 1, handler: Handler::Native } }
    } else if i == 110 {
        ImportEntry { namespace: "env", name: "_sigaddset", kind: ImportKind::Func { ty: ValType::I32, params: 2, results: 1, handler: Handler::Native } }
    } else if i == 111 {
        ImportEntry { namespace: "env", name: "_sigemptyset", kind: ImportKind::Func { ty: ValType::I32, params: 1, results: 1, handler: Handler::Native } }
    } else if i == 112 {
        ImportEntry { namespace: "env", name: "_signal", kind: ImportKind::Func { ty: ValType::I32, params: 1, results: 1, handler: Handler::Native } }
    } else if i == 113 {
        ImportEntry { namespace: "env", name: "_sigprocmask", kind: ImportKind::Func { ty: ValType::I32, params: 0, results: 1, handler: Handler::Native } }
    } else if i == 114 {
        ImportEntry { namespace: "env", name: "_sigsuspend", kind: ImportKind::Func { ty: ValType::I32, params: 0, results: 1, handler: Handler::Mock } }
    } else if i == 115 {
        ImportEntry { namespace: "env", name: "_strftime", kind: ImportKind::Func { ty: ValType::I32, params: 4, results: 1, handler: Handler::Native } }
    } else if i == 116 {
        ImportEntry { namespace: "env", name: "_sysconf", kind: ImportKind::Func { ty: ValType::I32, params: 1, results: 1, handler: Handler::Native } }
    } else if i == 117 {
        ImportEntry { namespace: "env", name: "_system", kind: ImportKind::Func { ty: ValType::I32, params: 0, results: 1, handler: Handler::Native } }
    } else if i == 118 {
        ImportEntry { namespace: "env", name: "_time", kind: ImportKind::Func { ty: ValType::I32, params: 1, results: 1, handler: Handler::Native } }
    } else if i == 119 {
        ImportEntry { namespace: "env", name: "_unsetenv", kind: ImportKind::Func { ty: ValType::I32, params: 1, results: 0, handler: Handler::Native } }
    } else if i == 120 {
        ImportEntry { namespace: "env", name: "_usleep", kind: ImportKind::Func { ty: ValType::I32, params: 0, results: 1, handler: Handler::Mock } }
    } else if i == 121 {
        ImportEntry { namespace: "env", name: "_utimes", kind: ImportKind::Func { ty: ValType::I32, params: 0, results: 1, handler: Handler::Mock } }
    } else if i == 122 {
        ImportEntry { namespace: "env", name: "_waitpid", kind: ImportKind::Func { ty: ValType::I32, params: 0, results: 1, handler: Handler::Mock } }
    } else if i == 123 {
        ImportEntry { namespace: "env", name: "abort", kind: ImportKind::Func { ty: ValType::I32, params: 1, results: 0, handler: Handler::Native } }
    } else if i == 124 {
        ImportEntry { namespace: "env", name: "abortOnCannotGrowMemory", kind: ImportKind::Func { ty: ValType::I32, params: 0, results: 0, handler: Handler::Native } }
    } else if i == 125 {
        ImportEntry { namespace: "env", name: "abortStackOverflow", kind: ImportKind::Func { ty: ValType::I32, params: 0, results: 0, handler: Handler::Native } }
    } else if i == 126 {
        ImportEntry { namespace: "env", name: "enlargeMemory", kind: ImportKind::Func { ty: ValType::I32, params: 0, results: 0, handler: Handler::Native } }
    } else if i == 127 {
        ImportEntry { namespace: "asm2wasm", name: "f64-rem", kind: ImportKind::Func { ty: ValType::F64, params: 2, results: 1, handler: Handler::Native } }
    } else if i == 128 {
        ImportEntry { namespace: "env", name: "getTotalMemory", kind: ImportKind::Func { ty: ValType::I32, params: 0, results: 1, handler: Handler::Native } }
    } else if i == 129 {
        ImportEntry { namespace: "env", name: "nullFunc_ii", kind: ImportKind::Func { ty: ValType::I32, params: 1, results: 0, handler: Handler::Native } }
    } else if i == 130 {
        ImportEntry { namespace: "env", name: "nullFunc_iii", kind: ImportKind::Func { ty: ValType::I32, params: 1, results: 0, handler: Handler::Native } }
    } else if i == 131 {
        ImportEntry { namespace: "env", name: "nullFunc_iiii", kind: ImportKind::Func { ty: ValType::I32, params: 1, results: 0, handler: Handler::Native } }
    } else if i == 132 {
        ImportEntry { namespace: "env", name: "nullFunc_iiiii", kind: ImportKind::Func { ty: ValType::I32, params: 1, results: 0, handler: Handler::Native } }
    } else if i == 133 {
        ImportEntry { namespace: "env", name: "nullFunc_iiiiii", kind: ImportKind::Func { ty: ValType::I32, params: 1, results: 0, handler: Handler::Native } }
    } else if i == 134 {
        ImportEntry { namespace: "env", name: "nullFunc_v", kind: ImportKind::Func { ty: ValType::I32, params: 1, results: 0, handler: Handler::Native } }
    } else if i == 135 {
        ImportEntry { namespace: "env", name: "nullFunc_vi", kind: ImportKind::Func { ty: ValType::I32, params: 1, results: 0, handler: Handler::Native } }
    } else if i == 136 {
        ImportEntry { namespace: "env", name: "nullFunc_vii", kind: ImportKind::Func { ty: ValType::I32, params: 1, results: 0, handler: Handler::Native } }
    } else if i == 137 {
        ImportEntry { namespace: "env", name: "nullFunc_viii", kind: ImportKind::Func { ty: ValType::I32, params: 1, results: 0, handler: Handler::Native } }
    } else if i == 138 {
        ImportEntry { namespace: "env", name: "nullFunc_viiii", kind: ImportKind::Func { ty: ValType::I32, params: 1, results: 0, handler: Handler::Native } }
    } else if i == 139 {
        ImportEntry { namespace: "env", name: "nullFunc_viiiii", kind: ImportKind::Func { ty: ValType::I32, params: 1, results: 0, handler: Handler::Native } }
    } else if i == 140 {
        ImportEntry { namespace: "env", name: "nullFunc_viiiiii", kind: ImportKind::Func { ty: ValType::I32, params: 1, results: 0, handler: Handler::Native } }
    } else if i == 141 {
        ImportEntry { namespace: "env", name: "printf", kind: ImportKind::Func { ty: ValType::I32, params: 2, results: 1, handler: Handler::Native } }
    } else if i == 142 {
        ImportEntry { namespace: "env", name: "putchar", kind: ImportKind::Func { ty: ValType::I32, params: 1, results: 0, handler: Handler::Native } }
    } else {
        ImportEntry { namespace: "env", name: "tableBase", kind: ImportKind::Global { value: 0 } }
    }
}

/// One character of a name as a digit of `name_rank`; zero past its end.
pub open spec fn ch(s: Seq<char>, k: int) -> int {
    if k < s.len() {
        s[k] as u32 as int + 1
    } else {
        0
    }
}

/// A number that orders ASCII names of up to 25 characters as their
/// dictionary order does; equal names have equal ranks.
pub open spec fn name_rank(s: Seq<char>) -> int {
    ch(s, 0) * 450975602219878121265986666592010429488900266593281 + ch(s, 1) * 3495934900929287761751834624744266895262792764289 + ch(s, 2) * 27100270549839440013580113370110596087308471041 + ch(s, 3) * 210079616665422015609148165659772062692313729 + ch(s, 4) * 1628524160197069888443009036122264051878401 + ch(s, 5) * 12624218296101316964674488652110574045569 + ch(s, 6) * 97862157334118736160267353892330031361 + ch(s, 7) * 758621374683090977986568634824263809 + ch(s, 8) * 5880785850256519209198206471505921 + ch(s, 9) * 45587487211290846582931833112449 + ch(s, 10) * 353391373730936795216525838081 + ch(s, 11) * 2739468013418114691600975489 + ch(s, 12) * 21236186150528020865123841 + ch(s, 13) * 164621598066108688876929 + ch(s, 14) * 1276136419117121619201 + ch(s, 15) * 9892530380752880769 + ch(s, 16) * 76686282021340161 + ch(s, 17) * 594467302491009 + ch(s, 18) * 4608273662721 + ch(s, 19) * 35723051649 + ch(s, 20) * 276922881 + ch(s, 21) * 2146689 + ch(s, 22) * 16641 + ch(s, 23) * 129 + ch(s, 24) * 1
}

/// The rank of the name of entry `i` of the declared table.
#[verifier::opaque]
pub open spec fn rank_at(i: int) -> int {
    name_rank(import_spec(i).name@)
}

/// Each name of the declared table ranks below the next.
#[verifier::rlimit(100)]
#[verifier::spinoff_prover]
proof fn lemma_names_ascend(i: int)
    requires
        0 <= i < IMPORT_COUNT - 1,
    ensures
        rank_at(i) < rank_at(i + 1),
{
    reveal(rank_at);
    reveal(name_rank);
    if i == 0 {
        reveal_strlit("DYNAMICTOP_PTR");
        reveal_strlit("Infinity");
    } else if i == 1 {
        reveal_strlit("Infinity");
        reveal_strlit("NaN");
    } else if i == 2 {
        reveal_strlit("NaN");
        reveal_strlit("STACKTOP");
    } else if i == 3 {
        reveal_strlit("STACKTOP");
        reveal_strlit("STACK_MAX");
    } else if i == 4 {
        reveal_strlit("STACK_MAX");
        reveal_strlit("___buildEnvironment");
    } else if i == 5 {
        reveal_strlit("___buildEnvironment");
        reveal_strlit("___clock_gettime");
    } else if i == 6 {
        reveal_strlit("___clock_gettime");
        reveal_strlit("___cxa_allocate_exception");
    } else if i == 7 {
        reveal_strlit("___cxa_allocate_exception");
        reveal_strlit("___cxa_throw");
    } else if i == 8 {
        reveal_strlit("___cxa_throw");
        reveal_strlit("___lock");
    } else if i == 9 {
        reveal_strlit("___lock");
        reveal_strlit("___map_file");
    } else if i == 10 {
        reveal_strlit("___map_file");
        reveal_strlit("___setErrNo");
    } else if i == 11 {
        reveal_strlit("___setErrNo");
        reveal_strlit("___syscall1");
    } else if i == 12 {
        reveal_strlit("___syscall1");
        reveal_strlit("___syscall10");
    } else if i == 13 {
        reveal_strlit("___syscall10");
        reveal_strlit("___syscall102");
    } else if i == 14 {
        reveal_strlit("___syscall102");
        reveal_strlit("___syscall114");
    } else if i == 15 {
        reveal_strlit("___syscall114");
        reveal_strlit("___syscall12");
    } else if i == 16 {
        reveal_strlit("___syscall12");
        reveal_strlit("___syscall122");
    } else if i == 17 {
        reveal_strlit("___syscall122");
        reveal_strlit("___syscall140");
    } else if i == 18 {
        reveal_strlit("___syscall140");
        reveal_strlit("___syscall142");
    } else if i == 19 {
        reveal_strlit("___syscall142");
        reveal_strlit("___syscall145");
    } else if i == 20 {
        reveal_strlit("___syscall145");
        reveal_strlit("___syscall146");
    } else if i == 21 {
        reveal_strlit("___syscall146");
        reveal_strlit("___syscall15");
    } else if i == 22 {
        reveal_strlit("___syscall15");
        reveal_strlit("___syscall168");
    } else if i == 23 {
        reveal_strlit("___syscall168");
        reveal_strlit("___syscall180");
    } else if i == 24 {
        reveal_strlit("___syscall180");
        reveal_strlit("___syscall181");
    } else if i == 25 {
        reveal_strlit("___syscall181");
        reveal_strlit("___syscall191");
    } else if i == 26 {
        reveal_strlit("___syscall191");
        reveal_strlit("___syscall192");
    } else if i == 27 {
        reveal_strlit("___syscall192");
        reveal_strlit("___syscall194");
    } else if i == 28 {
        reveal_strlit("___syscall194");
        reveal_strlit("___syscall195");
    } else if i == 29 {
        reveal_strlit("___syscall195");
        reveal_strlit("___syscall196");
    } else if i == 30 {
        reveal_strlit("___syscall196");
        reveal_strlit("___syscall197");
    } else if i == 31 {
        reveal_strlit("___syscall197");
        reveal_strlit("___syscall199");
    } else if i == 32 {
        reveal_strlit("___syscall199");
        reveal_strlit("___syscall20");
    } else if i == 33 {
        reveal_strlit("___syscall20");
        reveal_strlit("___syscall201");
    } else if i == 34 {
        reveal_strlit("___syscall201");
        reveal_strlit("___syscall202");
    } else if i == 35 {
        reveal_strlit("___syscall202");
        reveal_strlit("___syscall212");
    } else if i == 36 {
        reveal_strlit("___syscall212");
        reveal_strlit("___syscall220");
    } else if i == 37 {
        reveal_strlit("___syscall220");
        reveal_strlit("___syscall221");
    } else if i == 38 {
        reveal_strlit("___syscall221");
        reveal_strlit("___syscall268");
    } else if i == 39 {
        reveal_strlit("___syscall268");
        reveal_strlit("___syscall272");
    } else if i == 40 {
        reveal_strlit("___syscall272");
        reveal_strlit("___syscall295");
    } else if i == 41 {
        reveal_strlit("___syscall295");
        reveal_strlit("___syscall3");
    } else if i == 42 {
        reveal_strlit("___syscall3");
        reveal_strlit("___syscall300");
    } else if i == 43 {
        reveal_strlit("___syscall300");
        reveal_strlit("___syscall330");
    } else if i == 44 {
        reveal_strlit("___syscall330");
        reveal_strlit("___syscall334");
    } else if i == 45 {
        reveal_strlit("___syscall334");
        reveal_strlit("___syscall340");
    } else if i == 46 {
        reveal_strlit("___syscall340");
        reveal_strlit("___syscall38");
    } else if i == 47 {
        reveal_strlit("___syscall38");
        reveal_strlit("___syscall39");
    } else if i == 48 {
        reveal_strlit("___syscall39");
        reveal_strlit("___syscall4");
    } else if i == 49 {
        reveal_strlit("___syscall4");
        reveal_strlit("___syscall40");
    } else if i == 50 {
        reveal_strlit("___syscall40");
        reveal_strlit("___syscall5");
    } else if i == 51 {
        reveal_strlit("___syscall5");
        reveal_strlit("___syscall54");
    } else if i == 52 {
        reveal_strlit("___syscall54");
        reveal_strlit("___syscall57");
    } else if i == 53 {
        reveal_strlit("___syscall57");
        reveal_strlit("___syscall6");
    } else if i == 54 {
        reveal_strlit("___syscall6");
        reveal_strlit("___syscall63");
    } else if i == 55 {
        reveal_strlit("___syscall63");
        reveal_strlit("___syscall64");
    } else if i == 56 {
        reveal_strlit("___syscall64");
        reveal_strlit("___syscall66");
    } else if i == 57 {
        reveal_strlit("___syscall66");
        reveal_strlit("___syscall75");
    } else if i == 58 {
        reveal_strlit("___syscall75");
        reveal_strlit("___syscall85");
    } else if i == 59 {
        reveal_strlit("___syscall85");
        reveal_strlit("___syscall91");
    } else if i == 60 {
        reveal_strlit("___syscall91");
        reveal_strlit("___syscall97");
    } else if i == 61 {
        reveal_strlit("___syscall97");
        reveal_strlit("___unlock");
    } else if i == 62 {
        reveal_strlit("___unlock");
        reveal_strlit("___wait");
    } else if i == 63 {
        reveal_strlit("___wait");
        reveal_strlit("__longjmp");
    } else if i == 64 {
        reveal_strlit("__longjmp");
        reveal_strlit("__setjmp");
    } else if i == 65 {
        reveal_strlit("__setjmp");
        reveal_strlit("_abort");
    } else if i == 66 {
        reveal_strlit("_abort");
        reveal_strlit("_asctime");
    } else if i == 67 {
        reveal_strlit("_asctime");
        reveal_strlit("_asctime_r");
    } else if i == 68 {
        reveal_strlit("_asctime_r");
        reveal_strlit("_clock");
    } else if i == 69 {
        reveal_strlit("_clock");
        reveal_strlit("_clock_gettime");
    } else if i == 70 {
        reveal_strlit("_clock_gettime");
        reveal_strlit("_difftime");
    } else if i == 71 {
        reveal_strlit("_difftime");
        reveal_strlit("_dlclose");
    } else if i == 72 {
        reveal_strlit("_dlclose");
        reveal_strlit("_dlerror");
    } else if i == 73 {
        reveal_strlit("_dlerror");
        reveal_strlit("_dlopen");
    } else if i == 74 {
        reveal_strlit("_dlopen");
        reveal_strlit("_dlsym");
    } else if i == 75 {
        reveal_strlit("_dlsym");
        reveal_strlit("_emscripten_memcpy_big");
    } else if i == 76 {
        reveal_strlit("_emscripten_memcpy_big");
        reveal_strlit("_endgrent");
    } else if i == 77 {
        reveal_strlit("_endgrent");
        reveal_strlit("_execve");
    } else if i == 78 {
        reveal_strlit("_execve");
        reveal_strlit("_exit");
    } else if i == 79 {
        reveal_strlit("_exit");
        reveal_strlit("_fork");
    } else if i == 80 {
        reveal_strlit("_fork");
        reveal_strlit("_getaddrinfo");
    } else if i == 81 {
        reveal_strlit("_getaddrinfo");
        reveal_strlit("_getenv");
    } else if i == 82 {
        reveal_strlit("_getenv");
        reveal_strlit("_getgrent");
    } else if i == 83 {
        reveal_strlit("_getgrent");
        reveal_strlit("_getgrnam");
    } else if i == 84 {
        reveal_strlit("_getgrnam");
        reveal_strlit("_getpagesize");
    } else if i == 85 {
        reveal_strlit("_getpagesize");
        reveal_strlit("_getpwnam");
    } else if i == 86 {
        reveal_strlit("_getpwnam");
        reveal_strlit("_gettimeofday");
    } else if i == 87 {
        reveal_strlit("_gettimeofday");
        reveal_strlit("_gmtime_r");
    } else if i == 88 {
        reveal_strlit("_gmtime_r");
        reveal_strlit("_kill");
    } else if i == 89 {
        reveal_strlit("_kill");
        reveal_strlit("_llvm_log10_f64");
    } else if i == 90 {
        reveal_strlit("_llvm_log10_f64");
        reveal_strlit("_llvm_log2_f64");
    } else if i == 91 {
        reveal_strlit("_llvm_log2_f64");
        reveal_strlit("_llvm_stackrestore");
    } else if i == 92 {
        reveal_strlit("_llvm_stackrestore");
        reveal_strlit("_llvm_stacksave");
    } else if i == 93 {
        reveal_strlit("_llvm_stacksave");
        reveal_strlit("_llvm_trap");
    } else if i == 94 {
        reveal_strlit("_llvm_trap");
        reveal_strlit("_localtime");
    } else if i == 95 {
        reveal_strlit("_localtime");
        reveal_strlit("_localtime_r");
    } else if i == 96 {
        reveal_strlit("_localtime_r");
        reveal_strlit("_mktime");
    } else if i == 97 {
        reveal_strlit("_mktime");
        reveal_strlit("_popen");
    } else if i == 98 {
        reveal_strlit("_popen");
        reveal_strlit("_putenv");
    } else if i == 99 {
        reveal_strlit("_putenv");
        reveal_strlit("_raise");
    } else if i == 100 {
        reveal_strlit("_raise");
        reveal_strlit("_sched_yield");
    } else if i == 101 {
        reveal_strlit("_sched_yield");
        reveal_strlit("_sem_init");
    } else if i == 102 {
        reveal_strlit("_sem_init");
        reveal_strlit("_sem_post");
    } else if i == 103 {
        reveal_strlit("_sem_post");
        reveal_strlit("_sem_wait");
    } else if i == 104 {
        reveal_strlit("_sem_wait");
        reveal_strlit("_setenv");
    } else if i == 105 {
        reveal_strlit("_setenv");
        reveal_strlit("_setgrent");
    } else if i == 106 {
        reveal_strlit("_setgrent");
        reveal_strlit("_setgroups");
    } else if i == 107 {
        reveal_strlit("_setgroups");
        reveal_strlit("_setitimer");
    } else if i == 108 {
        reveal_strlit("_setitimer");
        reveal_strlit("_sigaction");
    } else if i == 109 {
        reveal_strlit("_sigaction");
        reveal_strlit("_sigaddset");
    } else if i == 110 {
        reveal_strlit("_sigaddset");
        reveal_strlit("_sigemptyset");
    } else if i == 111 {
        reveal_strlit("_sigemptyset");
        reveal_strlit("_signal");
    } else if i == 112 {
        reveal_strlit("_signal");
        reveal_strlit("_sigprocmask");
    } else if i == 113 {
        reveal_strlit("_sigprocmask");
        reveal_strlit("_sigsuspend");
    } else if i == 114 {
        reveal_strlit("_sigsuspend");
        reveal_strlit("_strftime");
    } else if i == 115 {
        reveal_strlit("_strftime");
        reveal_strlit("_sysconf");
    } else if i == 116 {
        reveal_strlit("_sysconf");
        reveal_strlit("_system");
    } else if i == 117 {
        reveal_strlit("_system");
        reveal_strlit("_time");
    } else if i == 118 {
        reveal_strlit("_time");
        reveal_strlit("_unsetenv");
    } else if i == 119 {
        reveal_strlit("_unsetenv");
        reveal_strlit("_usleep");
    } else if i == 120 {
        reveal_strlit("_usleep");
        reveal_strlit("_utimes");
    } else if i == 121 {
        reveal_strlit("_utimes");
        reveal_strlit("_waitpid");
    } else if i == 122 {
        reveal_strlit("_waitpid");
        reveal_strlit("abort");
    } else if i == 123 {
        reveal_strlit("abort");
        reveal_strlit("abortOnCannotGrowMemory");
    } else if i == 124 {
        reveal_strlit("abortOnCannotGrowMemory");
        reveal_strlit("abortStackOverflow");
    } else if i == 125 {
        reveal_strlit("abortStackOverflow");
        reveal_strlit("enlargeMemory");
    } else if i == 126 {
        reveal_strlit("enlargeMemory");
        reveal_strlit("f64-rem");
    } else if i == 127 {
        reveal_strlit("f64-rem");
        reveal_strlit("getTotalMemory");
    } else if i == 128 {
        reveal_strlit("getTotalMemory");
        reveal_strlit("nullFunc_ii");
    } else if i == 129 {
        reveal_strlit("nullFunc_ii");
        reveal_strlit("nullFunc_iii");
    } else if i == 130 {
        reveal_strlit("nullFunc_iii");
        reveal_strlit("nullFunc_iiii");
    } else if i == 131 {
        reveal_strlit("nullFunc_iiii");
        reveal_strlit("nullFunc_iiiii");
    } else if i == 132 {
        reveal_strlit("nullFunc_iiiii");
        reveal_strlit("nullFunc_iiiiii");
    } else if i == 133 {
        reveal_strlit("nullFunc_iiiiii");
        reveal_strlit("nullFunc_v");
    } else if i == 134 {
        reveal_strlit("nullFunc_v");
        reveal_strlit("nullFunc_vi");
    } else if i == 135 {
        reveal_strlit("nullFunc_vi");
        reveal_strlit("nullFunc_vii");
    } else if i == 136 {
        reveal_strlit("nullFunc_vii");
        reveal_strlit("nullFunc_viii");
    } else if i == 137 {
        reveal_strlit("nullFunc_viii");
        reveal_strlit("nullFunc_viiii");
    } else if i == 138 {
        reveal_strlit("nullFunc_viiii");
        reveal_strlit("nullFunc_viiiii");
    } else if i == 139 {
        reveal_strlit("nullFunc_viiiii");
        reveal_strlit("nullFunc_viiiiii");
    } else if i == 140 {
        reveal_strlit("nullFunc_viiiiii");
        reveal_strlit("printf");
    } else if i == 141 {
        reveal_strlit("printf");
        reveal_strlit("putchar");
    } else {
        reveal_strlit("putchar");
        reveal_strlit("tableBase");
    }
}

proof fn lemma_names_ordered(i: int, j: int)
    requires
        0 <= i < j < IMPORT_COUNT,
    ensures
        rank_at(i) < rank_at(j),
    decreases j - i,
{
    lemma_names_ascend(j - 1);
    if i < j - 1 {
        lemma_names_ordered(i, j - 1);
    }
}

/// No name is bound twice in the declared table.
pub proof fn lemma_names_unique(i: int, j: int)
    requires
        0 <= i < IMPORT_COUNT,
        0 <= j < IMPORT_COUNT,
        i != j,
    ensures
        import_spec(i).name@ != import_spec(j).name@,
{
    reveal(rank_at);
    if i < j {
        lemma_names_ordered(i, j);
    } else {
        lemma_names_ordered(j, i);
    }
}

/// Entry `i` of the table.
pub fn import_entry(i: usize) -> (r: ImportEntry)
    requires
        i < IMPORT_COUNT,
    ensures
        r == import_spec(i as int),
{
    assert(layout_fits(STATIC_BUMP as int));
    proof {
        lemma_layout_ordered(STATIC_BUMP as int);
    }
    match i {
        0 => ImportEntry { namespace: "env", name: "DYNAMICTOP_PTR", kind: ImportKind::Global { value: dynamictop_ptr(STATIC_BUMP) as i64 } },
        1 => ImportEntry { namespace: "global", name: "Infinity", kind: ImportKind::Global { value: INFINITY_BITS } },
        2 => ImportEntry { namespace: "global", name: "NaN", kind: ImportKind::Global { value: NAN_BITS } },
        3 => ImportEntry { namespace: "env", name: "STACKTOP", kind: ImportKind::Global { value: stacktop(STATIC_BUMP) as i64 } },
        4 => ImportEntry { namespace: "env", name: "STACK_MAX", kind: ImportKind::Global { value: stack_max(STATIC_BUMP) as i64 } },
        5 => ImportEntry { namespace: "env", name: "___buildEnvironment", kind: ImportKind::Func { ty: ValType::I32, params: 1, results: 0, handler: Handler::Native } },
        6 => ImportEntry { namespace: "env", name: "___clock_gettime", kind: ImportKind::Func { ty: ValType::I32, params: 2, results: 1, handler: Handler::Native } },
        7 => ImportEntry { namespace: "env", name: "___cxa_allocate_exception", kind: ImportKind::Func { ty: ValType::I32, params: 1, results: 1, handler: Handler::Native } },
        8 => ImportEntry { namespace: "env", name: "___cxa_throw", kind: ImportKind::Func { ty: ValType::I32, params: 3, results: 0, handler: Handler::Native } },
        9 => ImportEntry { namespace: "env", name: "___lock", kind: ImportKind::Func { ty: ValType::I32, params: 2, results: 0, handler: Handler::Native } },
        10 => ImportEntry { namespace: "env", name: "___map_file", kind: ImportKind::Func { ty: ValType::I32, params: 0, results: 1, handler: Handler::Native } },
        11 => ImportEntry { namespace: "env", name: "___setErrNo", kind: ImportKind::Func { ty: ValType::I32, params: 1, results: 1, handler: Handler::Native } },
        12 => ImportEntry { namespace: "env", name: "___syscall1", kind: ImportKind::Func { ty: ValType::I32, params: 2, results: 0, handler: Handler::Syscall(1) } },
        13 => ImportEntry { namespace: "env", name: "___syscall10", kind: ImportKind::Func { ty: ValType::I32, params: 0, results: 1, handler: Handler::Mock } },
        14 => ImportEntry { namespace: "env", name: "___syscall102", kind: ImportKind::Func { ty: ValType::I32, params: 2, results: 1, handler: Handler::Syscall(102) } },
        15 => ImportEntry { namespace: "env", name: "___syscall114", kind: ImportKind::Func { ty: ValType::I32, params: 2, results: 1, handler: Handler::Syscall(114) } },
        16 => ImportEntry { namespace: "env", name: "___syscall12", kind: ImportKind::Func { ty: ValType::I32, params: 2, results: 1, handler: Handler::Syscall(12) } },
        17 => ImportEntry { namespace: "env", name: "___syscall122", kind: ImportKind::Func { ty: ValType::I32, params: 2, results: 1, handler: Handler::Syscall(122) } },
        18 => ImportEntry { namespace: "env", name: "___syscall140", kind: ImportKind::Func { ty: ValType::I32, params: 2, results: 1, handler: Handler::Syscall(140) } },
        19 => ImportEntry { namespace: "env", name: "___syscall142", kind: ImportKind::Func { ty: ValType::I32, params: 2, results: 1, handler: Handler::Syscall(142) } },
        20 => ImportEntry { namespace: "env", name: "___syscall145", kind: ImportKind::Func { ty: ValType::I32, params: 2, results: 1, handler: Handler::Syscall(145) } },
        21 => ImportEntry { namespace: "env", name: "___syscall146", kind: ImportKind::Func { ty: ValType::I32, params: 2, results: 1, handler: Handler::Syscall(146) } },
        22 => ImportEntry { namespace: "env", name: "___syscall15", kind: ImportKind::Func { ty: ValType::I32, params: 0, results: 1, handler: Handler::Mock } },
        23 => ImportEntry { namespace: "env", name: "___syscall168", kind: ImportKind::Func { ty: ValType::I32, params: 0, results: 1, handler: Handler::Mock } },
        24 => ImportEntry { namespace: "env", name: "___syscall180", kind: ImportKind::Func { ty: ValType::I32, params: 2, results: 1, handler: Handler::Syscall(180) } },
        25 => ImportEntry { namespace: "env", name: "___syscall181", kind: ImportKind::Func { ty: ValType::I32, params: 2, results: 1, handler: Handler::Syscall(181) } },
        26 => ImportEntry { namespace: "env", name: "___syscall191", kind: ImportKind::Func { ty: ValType::I32, params: 0, results: 1, handler: Handler::Mock } },
        27 => ImportEntry { namespace: "env", name: "___syscall192", kind: ImportKind::Func { ty: ValType::I32, params: 2, results: 1, handler: Handler::Syscall(192) } },
        28 => ImportEntry { namespace: "env", name: "___syscall194", kind: ImportKind::Func { ty: ValType::I32, params: 0, results: 1, handler: Handler::Mock } },
        29 => ImportEntry { namespace: "env", name: "___syscall195", kind: ImportKind::Func { ty: ValType::I32, params: 2, results: 1, handler: Handler::Syscall(195) } },
        30 => ImportEntry { namespace: "env", name: "___syscall196", kind: ImportKind::Func { ty: ValType::I32, params: 0, results: 1, handler: Handler::Mock } },
        31 => ImportEntry { namespace: "env", name: "___syscall197", kind: ImportKind::Func { ty: ValType::I32, params: 2, results: 1, handler: Handler::Syscall(197) } },
        32 => ImportEntry { namespace: "env", name: "___syscall199", kind: ImportKind::Func { ty: ValType::I32, params: 0, results: 1, handler: Handler::Mock } },
        33 => ImportEntry { namespace: "env", name: "___syscall20", kind: ImportKind::Func { ty: ValType::I32, params: 0, results: 1, handler: Handler::Syscall(20) } },
        34 => ImportEntry { namespace: "env", name: "___syscall201", kind: ImportKind::Func { ty: ValType::I32, params: 0, results: 1, handler: Handler::Syscall(201) } },
        35 => ImportEntry { namespace: "env", name: "___syscall202", kind: ImportKind::Func { ty: ValType::I32, params: 0, results: 1, handler: Handler::Syscall(202) } },
        36 => ImportEntry { namespace: "env", name: "___syscall212", kind: ImportKind::Func { ty: ValType::I32, params: 2, results: 1, handler: Handler::Syscall(212) } },
        37 => ImportEntry { namespace: "env", name: "___syscall220", kind: ImportKind::Func { ty: ValType::I32, params: 0, results: 1, handler: Handler::Mock } },
        38 => ImportEntry { namespace: "env", name: "___syscall221", kind: ImportKind::Func { ty: ValType::I32, params: 2, results: 1, handler: Handler::Syscall(221) } },
        39 => ImportEntry { namespace: "env", name: "___syscall268", kind: ImportKind::Func { ty: ValType::I32, params: 0, results: 1, handler: Handler::Mock } },
        40 => ImportEntry { namespace: "env", name: "___syscall272", kind: ImportKind::Func { ty: ValType::I32, params: 0, results: 1, handler: Handler::Mock } },
        41 => ImportEntry { namespace: "env", name: "___syscall295", kind: ImportKind::Func { ty: ValType::I32, params: 0, results: 1, handler: Handler::Mock } },
        42 => ImportEntry { namespace: "env", name: "___syscall3", kind: ImportKind::Func { ty: ValType::I32, params: 2, results: 1, handler: Handler::Syscall(3) } },
        43 => ImportEntry { namespace: "env", name: "___syscall300", kind: ImportKind::Func { ty: ValType::I32, params: 0, results: 1, handler: Handler::Mock } },
        44 => ImportEntry { namespace: "env", name: "___syscall330", kind: ImportKind::Func { ty: ValType::I32, params: 2, results: 1, handler: Handler::Syscall(330) } },
        45 => ImportEntry { namespace: "env", name: "___syscall334", kind: ImportKind::Func { ty: ValType::I32, params: 0, results: 1, handler: Handler::Mock } },
        46 => ImportEntry { namespace: "env", name: "___syscall340", kind: ImportKind::Func { ty: ValType::I32, params: 2, results: 1, handler: Handler::Syscall(340) } },
        47 => ImportEntry { namespace: "env", name: "___syscall38", kind: ImportKind::Func { ty: ValType::I32, params: 0, results: 1, handler: Handler::Mock } },
        48 => ImportEntry { namespace: "env", name: "___syscall39", kind: ImportKind::Func { ty: ValType::I32, params: 2, results: 1, handler: Handler::Syscall(39) } },
        49 => ImportEntry { namespace: "env", name: "___syscall4", kind: ImportKind::Func { ty: ValType::I32, params: 2, results: 1, handler: Handler::Syscall(4) } },
        50 => ImportEntry { namespace: "env", name: "___syscall40", kind: ImportKind::Func { ty: ValType::I32, params: 2, results: 1, handler: Handler::Syscall(40) } },
        51 => ImportEntry { namespace: "env", name: "___syscall5", kind: ImportKind::Func { ty: ValType::I32, params: 2, results: 1, handler: Handler::Syscall(5) } },
        52 => ImportEntry { namespace: "env", name: "___syscall54", kind: ImportKind::Func { ty: ValType::I32, params: 2, results: 1, handler: Handler::Syscall(54) } },
        53 => ImportEntry { namespace: "env", name: "___syscall57", kind: ImportKind::Func { ty: ValType::I32, params: 2, results: 1, handler: Handler::Syscall(57) } },
        54 => ImportEntry { namespace: "env", name: "___syscall6", kind: ImportKind::Func { ty: ValType::I32, params: 2, results: 1, handler: Handler::Syscall(6) } },
        55 => ImportEntry { namespace: "env", name: "___syscall63", kind: ImportKind::Func { ty: ValType::I32, params: 2, results: 1, handler: Handler::Syscall(63) } },
        56 => ImportEntry { namespace: "env", name: "___syscall64", kind: ImportKind::Func { ty: ValType::I32, params: 0, results: 1, handler: Handler::Syscall(64) } },
        57 => ImportEntry { namespace: "env", name: "___syscall66", kind: ImportKind::Func { ty: ValType::I32, params: 0, results: 1, handler: Handler::Mock } },
        58 => ImportEntry { namespace: "env", name: "___syscall75", kind: ImportKind::Func { ty: ValType::I32, params: 0, results: 1, handler: Handler::Mock } },
        59 => ImportEntry { namespace: "env", name: "___syscall85", kind: ImportKind::Func { ty: ValType::I32, params: 0, results: 1, handler: Handler::Mock } },
        60 => ImportEntry { namespace: "env", name: "___syscall91", kind: ImportKind::Func { ty: ValType::I32, params: 0, results: 1, handler: Handler::Mock } },
        61 => ImportEntry { namespace: "env", name: "___syscall97", kind: ImportKind::Func { ty: ValType::I32, params: 0, results: 1, handler: Handler::Mock } },
        62 => ImportEntry { namespace: "env", name: "___unlock", kind: ImportKind::Func { ty: ValType::I32, params: 2, results: 0, handler: Handler::Native } },
        63 => ImportEntry { namespace: "env", name: "___wait", kind: ImportKind::Func { ty: ValType::I32, params: 2, results: 0, handler: Handler::Native } },
        64 => ImportEntry { namespace: "env", name: "__longjmp", kind: ImportKind::Func { ty: ValType::I32, params: 2, results: 0, handler: Handler::LongJmp } },
        65 => ImportEntry { namespace: "env", name: "__setjmp", kind: ImportKind::Func { ty: ValType::I32, params: 1, results: 1, handler: Handler::SetJmp } },
        66 => ImportEntry { namespace: "env", name: "_abort", kind: ImportKind::Func { ty: ValType::I32, params: 0, results: 0, handler: Handler::Native } },
        67 => ImportEntry { namespace: "env", name: "_asctime", kind: ImportKind::Func { ty: ValType::I32, params: 1, results: 1, handler: Handler::Native } },
        68 => ImportEntry { namespace: "env", name: "_asctime_r", kind: ImportKind::Func { ty: ValType::I32, params: 2, results: 1, handler: Handler::Native } },
        69 => ImportEntry { namespace: "env", name: "_clock", kind: ImportKind::Func { ty: ValType::I32, params: 0, results: 1, handler: Handler::Native } },
        70 => ImportEntry { namespace: "env", name: "_clock_gettime", kind: ImportKind::Func { ty: ValType::I32, params: 2, results: 1, handler: Handler::Native } },
        71 => ImportEntry { namespace: "env", name: "_difftime", kind: ImportKind::Func { ty: ValType::I32, params: 2, results: 1, handler: Handler::Native } },
        72 => ImportEntry { namespace: "env", name: "_dlclose", kind: ImportKind::Func { ty: ValType::I32, params: 0, results: 1, handler: Handler::Mock } },
        73 => ImportEntry { namespace: "env", name: "_dlerror", kind: ImportKind::Func { ty: ValType::I32, params: 0, results: 1, handler: Handler::Mock } },
        74 => ImportEntry { namespace: "env", name: "_dlopen", kind: ImportKind::Func { ty: ValType::I32, params: 0, results: 1, handler: Handler::Mock } },
        75 => ImportEntry { namespace: "env", name: "_dlsym", kind: ImportKind::Func { ty: ValType::I32, params: 0, results: 1, handler: Handler::Mock } },
        76 => ImportEntry { namespace: "env", name: "_emscripten_memcpy_big", kind: ImportKind::Func { ty: ValType::I32, params: 3, results: 1, handler: Handler::Native } },
        77 => ImportEntry { namespace: "env", name: "_endgrent", kind: ImportKind::Func { ty: ValType::I32, params: 0, results: 1, handler: Handler::Mock } },
        78 => ImportEntry { namespace: "env", name: "_execve", kind: ImportKind::Func { ty: ValType::I32, params: 0, results: 1, handler: Handler::Mock } },
        79 => ImportEntry { namespace: "env", name: "_exit", kind: ImportKind::Func { ty: ValType::I32, params: 1, results: 0, handler: Handler::Native } },
        80 => ImportEntry { namespace: "env", name: "_fork", kind: ImportKind::Func { ty: ValType::I32, params: 0, results: 1, handler: Handler::Native } },
        81 => ImportEntry { namespace: "env", name: "_getaddrinfo", kind: ImportKind::Func { ty: ValType::I32, params: 0, results: 1, handler: Handler::Mock } },
        82 => ImportEntry { namespace: "env", name: "_getenv", kind: ImportKind::Func { ty: ValType::I32, params: 1, results: 1, handler: Handler::Native } },
        83 => ImportEntry { namespace: "env", name: "_getgrent", kind: ImportKind::Func { ty: ValType::I32, params: 0, results: 1, handler: Handler::Mock } },
        84 => ImportEntry { namespace: "env", name: "_getgrnam", kind: ImportKind::Func { ty: ValType::I32, params: 1, results: 1, handler: Handler::Native } },
        85 => ImportEntry { namespace: "env", name: "_getpagesize", kind: ImportKind::Func { ty: ValType::I32, params: 0, results: 1, handler: Handler::Native } },
        86 => ImportEntry { namespace: "env", name: "_getpwnam", kind: ImportKind::Func { ty: ValType::I32, params: 1, results: 1, handler: Handler::Native } },
        87 => ImportEntry { namespace: "env", name: "_gettimeofday", kind: ImportKind::Func { ty: ValType::I32, params: 2, results: 1, handler: Handler::Native } },
        88 => ImportEntry { namespace: "env", name: "_gmtime_r", kind: ImportKind::Func { ty: ValType::I32, params: 0, results: 1, handler: Handler::Mock } },
        89 => ImportEntry { namespace: "env", name: "_kill", kind: ImportKind::Func { ty: ValType::I32, params: 0, results: 1, handler: Handler::Mock } },
        90 => ImportEntry { namespace: "env", name: "_llvm_log10_f64", kind: ImportKind::Func { ty: ValType::F64, params: 1, results: 1, handler: Handler::Native } },
        91 => ImportEntry { namespace: "env", name: "_llvm_log2_f64", kind: ImportKind::Func { ty: ValType::F64, params: 1, results: 1, handler: Handler::Native } },
        92 => ImportEntry { namespace: "env", name: "_llvm_stackrestore", kind: ImportKind::Func { ty: ValType::I32, params: 0, results: 1, handler: Handler::Mock } },
        93 => ImportEntry { namespace: "env", name: "_llvm_stacksave", kind: ImportKind::Func { ty: ValType::I32, params: 0, results: 1, handler: Handler::Mock } },
        94 => ImportEntry { namespace: "env", name: "_llvm_trap", kind: ImportKind::Func { ty: ValType::I32, params: 0, results: 0, handler: Handler::Native } },
        95 => ImportEntry { namespace: "env", name: "_localtime", kind: ImportKind::Func { ty: ValType::I32, params: 1, results: 1, handler: Handler::Native } },
        96 => ImportEntry { namespace: "env", name: "_localtime_r", kind: ImportKind::Func { ty: ValType::I32, params: 2, results: 1, handler: Handler::Native } },
        97 => ImportEntry { namespace: "env", name: "_mktime", kind: ImportKind::Func { ty: ValType::I32, params: 0, results: 1, handler: Handler::Mock } },
        98 => ImportEntry { namespace: "env", name: "_popen", kind: ImportKind::Func { ty: ValType::I32, params: 0, results: 1, handler: Handler::Native } },
        99 => ImportEntry { namespace: "env", name: "_putenv", kind: ImportKind::Func { ty: ValType::I32, params: 1, results: 0, handler: Handler::Native } },
        100 => ImportEntry { namespace: "env", name: "_raise", kind: ImportKind::Func { ty: ValType::I32, params: 0, results: 1, handler: Handler::Mock } },
        101 => ImportEntry { namespace: "env", name: "_sched_yield", kind: ImportKind::Func { ty: ValType::I32, params: 0, results: 1, handler: Handler::Mock } },
        102 => ImportEntry { namespace: "env", name: "_sem_init", kind: ImportKind::Func { ty: ValType::I32, params: 0, results: 1, handler: Handler::Mock } },
        103 => ImportEntry { namespace: "env", name: "_sem_post", kind: ImportKind::Func { ty: ValType::I32, params: 0, results: 1, handler: Handler::Mock } },
        104 => ImportEntry { namespace: "env", name: "_sem_wait", kind: ImportKind::Func { ty: ValType::I32, params: 0, results: 1, handler: Handler::Mock } },
        105 => ImportEntry { namespace: "env", name: "_setenv", kind: ImportKind::Func { ty: ValType::I32, params: 3, results: 0, handler: Handler::Native } },
        106 => ImportEntry { namespace: "env", name: "_setgrent", kind: ImportKind::Func { ty: ValType::I32, params: 0, results: 1, handler: Handler::Mock } },
        107 => ImportEntry { namespace: "env", name: "_setgroups", kind: ImportKind::Func { ty: ValType::I32, params: 0, results: 1, handler: Handler::Mock } },
        108 => ImportEntry { namespace: "env", name: "_setitimer", kind: ImportKind::Func { ty: ValType::I32, params: 0, results: 1, handler: Handler::Mock } },
        109 => ImportEntry { namespace: "env", name: "_sigaction", kind: ImportKind::Func { ty: ValType::I32, params: 3, results: 1, handler: Handler::Native } },
        110 => ImportEntry { namespace: "env", name: "_sigaddset", kind: ImportKind::Func { ty: ValType::I32, params: 2, results: 1, handler: Handler::Native } },
        111 => ImportEntry { namespace: "env", name: "_sigemptyset", kind: ImportKind::Func { ty: ValType::I32, params: 1, results: 1, handler: Handler::Native } },
        112 => ImportEntry { namespace: "env", name: "_signal", kind: ImportKind::Func { ty: ValType::I32, params: 1, results: 1, handler: Handler::Native } },
        113 => ImportEntry { namespace: "env", name: "_sigprocmask", kind: ImportKind::Func { ty: ValType::I32, params: 0, results: 1, handler: Handler::Native } },
        114 => ImportEntry { namespace: "env", name: "_sigsuspend", kind: ImportKind::Func { ty: ValType::I32, params: 0, results: 1, handler: Handler::Mock } },
        115 => ImportEntry { namespace: "env", name: "_strftime", kind: ImportKind::Func { ty: ValType::I32, params: 4, results: 1, handler: Handler::Native } },
        116 => ImportEntry { namespace: "env", name: "_sysconf", kind: ImportKind::Func { ty: ValType::I32, params: 1, results: 1, handler: Handler::Native } },
        117 => ImportEntry { namespace: "env", name: "_system", kind: ImportKind::Func { ty: ValType::I32, params: 0, results: 1, handler: Handler::Native } },
        118 => ImportEntry { namespace: "env", name: "_time", kind: ImportKind::Func { ty: ValType::I32, params: 1, results: 1, handler: Handler::Native } },
        119 => ImportEntry { namespace: "env", name: "_unsetenv", kind: ImportKind::Func { ty: ValType::I32, params: 1, results: 0, handler: Handler::Native } },
        120 => ImportEntry { namespace: "env", name: "_usleep", kind: ImportKind::Func { ty: ValType::I32, params: 0, results: 1, handler: Handler::Mock } },
        121 => ImportEntry { namespace: "env", name: "_utimes", kind: ImportKind::Func { ty: ValType::I32, params: 0, results: 1, handler: Handler::Mock } },
        122 => ImportEntry { namespace: "env", name: "_waitpid", kind: ImportKind::Func { ty: ValType::I32, params: 0, results: 1, handler: Handler::Mock } },
        123 => ImportEntry { namespace: "env", name: "abort", kind: ImportKind::Func { ty: ValType::I32, params: 1, results: 0, handler: Handler::Native } },
        124 => ImportEntry { namespace: "env", name: "abortOnCannotGrowMemory", kind: ImportKind::Func { ty: ValType::I32, params: 0, results: 0, handler: Handler::Native } },
        125 => ImportEntry { namespace: "env", name: "abortStackOverflow", kind: ImportKind::Func { ty: ValType::I32, params: 0, results: 0, handler: Handler::Native } },
        126 => ImportEntry { namespace: "env", name: "enlargeMemory", kind: ImportKind::Func { ty: ValType::I32, params: 0, results: 0, handler: Handler::Native } },
        127 => ImportEntry { namespace: "asm2wasm", name: "f64-rem", kind: ImportKind::Func { ty: ValType::F64, params: 2, results: 1, handler: Handler::Native } },
        128 => ImportEntry { namespace: "env", name: "getTotalMemory", kind: ImportKind::Func { ty: ValType::I32, params: 0, results: 1, handler: Handler::Native } },
        129 => ImportEntry { namespace: "env", name: "nullFunc_ii", kind: ImportKind::Func { ty: ValType::I32, params: 1, results: 0, handler: Handler::Native } },
        130 => ImportEntry { namespace: "env", name: "nullFunc_iii", kind: ImportKind::Func { ty: ValType::I32, params: 1, results: 0, handler: Handler::Native } },
        131 => ImportEntry { namespace: "env", name: "nullFunc_iiii", kind: ImportKind::Func { ty: ValType::I32, params: 1, results: 0, handler: Handler::Native } },
        132 => ImportEntry { namespace: "env", name: "nullFunc_iiiii", kind: ImportKind::Func { ty: ValType::I32, params: 1, results: 0, handler: Handler::Native } },
        133 => ImportEntry { namespace: "env", name: "nullFunc_iiiiii", kind: ImportKind::Func { ty: ValType::I32, params: 1, results: 0, handler: Handler::Native } },
        134 => ImportEntry { namespace: "env", name: "nullFunc_v", kind: ImportKind::Func { ty: ValType::I32, params: 1, results: 0, handler: Handler::Native } },
        135 => ImportEntry { namespace: "env", name: "nullFunc_vi", kind: ImportKind::Func { ty: ValType::I32, params: 1, results: 0, handler: Handler::Native } },
        136 => ImportEntry { namespace: "env", name: "nullFunc_vii", kind: ImportKind::Func { ty: ValType::I32, params: 1, results: 0, handler: Handler::Native } },
        137 => ImportEntry { namespace: "env", name: "nullFunc_viii", kind: ImportKind::Func { ty: ValType::I32, params: 1, results: 0, handler: Handler::Native } },
        138 => ImportEntry { namespace: "env", name: "nullFunc_viiii", kind: ImportKind::Func { ty: ValType::I32, params: 1, results: 0, handler: Handler::Native } },
        139 => ImportEntry { namespace: "env", name: "nullFunc_viiiii", kind: ImportKind::Func { ty: ValType::I32, params: 1, results: 0, handler: Handler::Native } },
        140 => ImportEntry { namespace: "env", name: "nullFunc_viiiiii", kind: ImportKind::Func { ty: ValType::I32, params: 1, results: 0, handler: Handler::Native } },
        141 => ImportEntry { namespace: "env", name: "printf", kind: ImportKind::Func { ty: ValType::I32, params: 2, results: 1, handler: Handler::Native } },
        142 => ImportEntry { namespace: "env", name: "putchar", kind: ImportKind::Func { ty: ValType::I32, params: 1, results: 0, handler: Handler::Native } },
        _ => ImportEntry { namespace: "env", name: "tableBase", kind: ImportKind::Global { value: 0 } },
    }
}

impl ImportKind {
    /// The parameter types of a function; empty for a global.
    pub fn param_types(&self) -> (r: Vec<ValType>)
        ensures
            self matches ImportKind::Func { ty, params, .. } ==> r@ == Seq::new(
                params as nat,
                |k: int| *ty,
            ),
            self is Global ==> r@.len() == 0,
    {
        match self {
            ImportKind::Global { .. } => Vec::new(),
            ImportKind::Func { ty, params, .. } => repeat(*ty, *params),
        }
    }

    /// The result types of a function; empty for a global.
    pub fn result_types(&self) -> (r: Vec<ValType>)
        ensures
            self matches ImportKind::Func { ty, results, .. } ==> r@ == Seq::new(
                results as nat,
                |k: int| *ty,
            ),
            self is Global ==> r@.len() == 0,
    {
        match self {
            ImportKind::Global { .. } => Vec::new(),
            ImportKind::Func { ty, results, .. } => repeat(*ty, *results),
        }
    }
}

fn repeat(ty: ValType, n: u8) -> (r: Vec<ValType>)
    ensures
        r@ == Seq::new(n as nat, |k: int| ty),
{
    let mut v: Vec<ValType> = Vec::new();
    let mut i: u8 = 0;
    while i < n
        invariant
            i <= n,
            v@ =~= Seq::new(i as nat, |k: int| ty),
        decreases n - i,
    {
        v.push(ty);
        i = i + 1;
    }
    v
}

/// The whole import table: entry `i` is `import_spec(i)`, and each name is
/// bound once.
pub fn generate_emscripten_env() -> (r: Vec<ImportEntry>)
    ensures
        r@.len() == IMPORT_COUNT,
        forall|i: int| 0 <= i < IMPORT_COUNT ==> #[trigger] r@[i] == import_spec(i),
        forall|i: int, j: int|
            0 <= i < IMPORT_COUNT && 0 <= j < IMPORT_COUNT && i != j ==> (#[trigger] r@[i]).name@
                != (#[trigger] r@[j]).name@,
{
    let mut t: Vec<ImportEntry> = Vec::new();
    let mut i: usize = 0;
    while i < IMPORT_COUNT
        invariant
            i <= IMPORT_COUNT,
            t@.len() == i,
            forall|k: int| 0 <= k < i ==> #[trigger] t@[k] == import_spec(k),
        decreases IMPORT_COUNT - i,
    {
        t.push(import_entry(i));
        i = i + 1;
    }
    assert forall|i: int, j: int|
        0 <= i < IMPORT_COUNT && 0 <= j < IMPORT_COUNT && i != j implies (#[trigger] t@[i]).name@
            != (#[trigger] t@[j]).name@ by {
        lemma_names_unique(i, j);
    }
    t
}

} // verus!

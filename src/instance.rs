//! Per-instance state: the guest's allocator entry points, its error
//! register and its pool of save points.

use crate::jmp::JumpPool;
use crate::syscalls::SyscallOutcome;
use vstd::prelude::*;

verus! {

/// Number of save points an instance can hold at once.
pub const JUMP_POOL_CAPACITY: usize = 256;

/// State kept for one instance from its creation to its end. The allocator
/// entry points are indices of the guest's exported functions.
pub struct EmscriptenData {
    pub malloc: u32,
    pub free: u32,
    pub memalign: u32,
    pub memset: u32,
    pub stack_alloc: u32,
    /// The guest-visible error code of the last failed call.
    pub errno: i32,
    pub jumps: JumpPool,
}

impl EmscriptenData {
    /// State for a new instance, with no error recorded and an empty pool of
    /// `JUMP_POOL_CAPACITY` save points.
    pub fn new(malloc: u32, free: u32, memalign: u32, memset: u32, stack_alloc: u32) -> (r:
        EmscriptenData)
        ensures
            r.malloc == malloc,
            r.free == free,
            r.memalign == memalign,
            r.memset == memset,
            r.stack_alloc == stack_alloc,
            r.errno == 0,
            r.jumps@ == Seq::new(JUMP_POOL_CAPACITY as nat, |i: int| None::<u32>),
    {
        EmscriptenData {
            malloc,
            free,
            memalign,
            memset,
            stack_alloc,
            errno: 0,
            jumps: JumpPool::new(JUMP_POOL_CAPACITY),
        }
    }

    /// Records the error code of `outcome`, if any, and returns the value
    /// the guest's call returns.
    pub fn apply_outcome(&mut self, outcome: SyscallOutcome) -> (r: i32)
        ensures
            r == outcome.ret,
            final(self).errno == match outcome.errno {
                Some(code) => code,
                None => old(self).errno,
            },
            final(self).jumps@ == old(self).jumps@,
            final(self).malloc == old(self).malloc,
            final(self).free == old(self).free,
            final(self).memalign == old(self).memalign,
            final(self).memset == old(self).memset,
            final(self).stack_alloc == old(self).stack_alloc,
    {
        if let Some(code) = outcome.errno {
            self.errno = code;
        }
        outcome.ret
    }
}

} // verus!

//! The heap bookkeeping word written into a fresh instance's memory.

use crate::layout::{
    dynamic_base, dynamic_base_of, dynamictop_ptr, dynamictop_ptr_of, layout_fits,
    lemma_layout_ordered, LayoutConstants, STATIC_BUMP,
};
use crate::memory::{in_bounds, le_bytes, splice, GuestMemory};
use vstd::prelude::*;

verus! {

/// Memory `mem` after the start of the heap for static size `b` has been
/// written at the bookkeeping word; unchanged when the word does not fit.
pub open spec fn bootstrapped(mem: Seq<u8>, b: int) -> Seq<u8> {
    if in_bounds(mem.len() as int, dynamictop_ptr_of(b), 4) {
        splice(mem, dynamictop_ptr_of(b), le_bytes(dynamic_base_of(b) as u32))
    } else {
        mem
    }
}

/// Writes the start of the heap at the bookkeeping word of `layout`.
/// A memory too short to hold the word is left as it is: the guest grows it
/// before it first uses the heap.
pub fn write_dynamictop(memory: &mut GuestMemory, layout: &LayoutConstants) -> (written: bool)
    requires
        layout.wf(),
    ensures
        written <==> old(memory)@.len() >= layout.dynamictop_ptr + 4,
        final(memory)@ == bootstrapped(old(memory)@, layout.static_bump as int),
        old(memory)@.len() < layout.dynamictop_ptr + 4 ==> final(memory)@ == old(memory)@,
{
    memory.write_u32(layout.dynamictop_ptr, layout.dynamic_base)
}

/// Prepares the memory of a new instance for modules of the default static
/// size.
pub fn emscripten_set_up_memory(memory: &mut GuestMemory)
    ensures
        final(memory)@ == bootstrapped(old(memory)@, STATIC_BUMP as int),
{
    assert(layout_fits(STATIC_BUMP as int));
    proof {
        lemma_layout_ordered(STATIC_BUMP as int);
    }
    let ptr = dynamictop_ptr(STATIC_BUMP);
    if (ptr as usize) + 4 > memory.len() {
        return;
    }
    memory.write_u32(ptr, dynamic_base(STATIC_BUMP));
}

/// Writing the bookkeeping word twice leaves the same bytes as writing it
/// once.
pub proof fn lemma_bootstrap_idempotent(mem: Seq<u8>, b: int)
    requires
        layout_fits(b),
    ensures
        bootstrapped(bootstrapped(mem, b), b) == bootstrapped(mem, b),
{
    let p = dynamictop_ptr_of(b);
    let w = le_bytes(dynamic_base_of(b) as u32);
    if in_bounds(mem.len() as int, p, 4) {
        let once = splice(mem, p, w);
        assert(once.len() == mem.len());
        assert(splice(once, p, w) =~= once);
    }
}

} // verus!

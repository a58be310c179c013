//! Stack and heap boundaries of the guest's linear memory, computed from the
//! size of the module's static data segment.

use vstd::prelude::*;

verus! {

/// Bytes reserved for the guest's call stack.
pub const TOTAL_STACK: u32 = 5_242_880;

/// Distance from the end of static data to the heap bookkeeping word.
pub const DYNAMICTOP_PTR_DIFF: u32 = 1088;

/// Size of the static data segment assumed for modules.
pub const STATIC_BUMP: u32 = 215_536;

/// Boundary, a power of two, to which stack and heap starts are aligned.
pub const ALIGNMENT: u32 = 16;

/// `x` rounded up to the next multiple of `ALIGNMENT`.
pub open spec fn align_of(x: int) -> int {
    (x + 15) / 16 * 16
}

pub open spec fn dynamictop_ptr_of(b: int) -> int {
    b + DYNAMICTOP_PTR_DIFF
}

pub open spec fn stacktop_of(b: int) -> int {
    align_of(dynamictop_ptr_of(b) + 4)
}

pub open spec fn stack_max_of(b: int) -> int {
    stacktop_of(b) + TOTAL_STACK
}

pub open spec fn dynamic_base_of(b: int) -> int {
    align_of(stack_max_of(b))
}

/// A static size whose whole layout fits in the 32-bit guest address space.
pub open spec fn layout_fits(b: int) -> bool {
    0 <= b && dynamic_base_of(b) <= u32::MAX
}

pub open spec fn is_aligned(x: int) -> bool {
    x % 16 == 0
}

proof fn lemma_align(x: int)
    requires
        0 <= x,
    ensures
        x <= align_of(x) < x + 16,
        is_aligned(align_of(x)),
{
}

/// Rounds `ptr` up to the next multiple of `ALIGNMENT`.
pub fn align_memory(ptr: u32) -> (r: u32)
    requires
        align_of(ptr as int) <= u32::MAX,
    ensures
        r == align_of(ptr as int),
{
    proof {
        lemma_align(ptr as int);
    }
    if ptr % ALIGNMENT == 0 {
        ptr
    } else {
        (ptr / ALIGNMENT + 1) * ALIGNMENT
    }
}

/// Offset of the word that holds the current top of the heap.
pub fn dynamictop_ptr(static_bump: u32) -> (r: u32)
    requires
        dynamictop_ptr_of(static_bump as int) <= u32::MAX,
    ensures
        r == dynamictop_ptr_of(static_bump as int),
{
    static_bump + DYNAMICTOP_PTR_DIFF
}

/// First offset of the guest stack.
pub fn stacktop(static_bump: u32) -> (r: u32)
    requires
        stacktop_of(static_bump as int) <= u32::MAX,
    ensures
        r == stacktop_of(static_bump as int),
{
    proof {
        lemma_align(dynamictop_ptr_of(static_bump as int) + 4);
    }
    align_memory(dynamictop_ptr(static_bump) + 4)
}

/// End of the guest stack.
pub fn stack_max(static_bump: u32) -> (r: u32)
    requires
        stack_max_of(static_bump as int) <= u32::MAX,
    ensures
        r == stack_max_of(static_bump as int),
{
    stacktop(static_bump) + TOTAL_STACK
}

/// First offset of the guest heap.
pub fn dynamic_base(static_bump: u32) -> (r: u32)
    requires
        layout_fits(static_bump as int),
    ensures
        r == dynamic_base_of(static_bump as int),
{
    proof {
        lemma_align(stack_max_of(static_bump as int));
    }
    align_memory(stack_max(static_bump))
}

/// The layout boundaries of the heap and stack are ordered and aligned:
/// the heap starts at or after the stack's end, the stack ends after it
/// starts, and the stack starts past the heap bookkeeping word.
pub proof fn lemma_layout_ordered(b: int)
    requires
        0 <= b,
    ensures
        dynamic_base_of(b) >= stack_max_of(b),
        stack_max_of(b) >= stacktop_of(b),
        stacktop_of(b) >= dynamictop_ptr_of(b) + 4,
        is_aligned(stacktop_of(b)),
        is_aligned(stack_max_of(b)),
        is_aligned(dynamic_base_of(b)),
{
    lemma_align(dynamictop_ptr_of(b) + 4);
    lemma_align(stack_max_of(b));
}

/// A layout whose static size leaves no room in the 32-bit address space.
#[derive(Debug, Clone, Copy, PartialEq, Eq, Structural)]
pub enum LayoutError {
    Overflow,
}

/// The boundaries of one module's memory, fixed when it is loaded.
#[derive(Debug, Clone, Copy, PartialEq, Eq, Structural)]
pub struct LayoutConstants {
    pub static_bump: u32,
    pub stack_top: u32,
    pub stack_max: u32,
    pub dynamic_base: u32,
    pub dynamictop_ptr: u32,
}

impl LayoutConstants {
    pub open spec fn wf(&self) -> bool {
        &&& layout_fits(self.static_bump as int)
        &&& self.stack_top == stacktop_of(self.static_bump as int)
        &&& self.stack_max == stack_max_of(self.static_bump as int)
        &&& self.dynamic_base == dynamic_base_of(self.static_bump as int)
        &&& self.dynamictop_ptr == dynamictop_ptr_of(self.static_bump as int)
    }

    /// Computes the layout for a static size, or fails when one of its
    /// boundaries would not fit in 32 bits.
    pub fn new(static_bump: u32) -> (r: Result<LayoutConstants, LayoutError>)
        ensures
            r is Ok <==> layout_fits(static_bump as int),
            r matches Ok(l) ==> l.wf() && l.static_bump == static_bump,
    {
        let top: u64 = (static_bump as u64 + DYNAMICTOP_PTR_DIFF as u64 + 4 + 15) / 16 * 16;
        let base: u64 = (top + TOTAL_STACK as u64 + 15) / 16 * 16;
        if base > u32::MAX as u64 {
            return Err(LayoutError::Overflow);
        }
        proof {
            lemma_layout_ordered(static_bump as int);
        }
        Ok(LayoutConstants {
            static_bump,
            stack_top: stacktop(static_bump),
            stack_max: stack_max(static_bump),
            dynamic_base: dynamic_base(static_bump),
            dynamictop_ptr: dynamictop_ptr(static_bump),
        })
    }
}

} // verus!

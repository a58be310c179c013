//! Variadic arguments: consecutive four-byte slots in guest memory.

use crate::memory::{in_bounds, le_value, GuestMemory};
use vstd::prelude::*;

verus! {

/// Bytes that each variadic argument takes, whatever its width.
pub const SLOT_SIZE: u32 = 4;

/// Whether `n` slots from offset `o` all lie inside a memory of `size` bytes
/// and inside the 32-bit guest address space.
pub open spec fn slots_readable(size: int, o: int, n: int) -> bool {
    n == 0 || (o + 4 * (n - 1) <= u32::MAX && o + 4 * n <= size)
}

/// The value of the slot at `at`.
pub open spec fn slot_value(mem: Seq<u8>, at: int) -> u32 {
    le_value(mem.subrange(at, at + 4)) as u32
}

/// The next variadic slot to read: `count` slots past `base_offset`.
#[derive(Debug, Clone, Copy, PartialEq, Eq, Structural)]
pub struct ArgCursor {
    pub base_offset: u32,
    pub count: u32,
}

impl ArgCursor {
    pub open spec fn offset(&self) -> int {
        self.base_offset + 4 * self.count
    }

    /// A cursor at the first slot of the block at `base_offset`.
    pub fn new(base_offset: u32) -> (r: ArgCursor)
        ensures
            r.base_offset == base_offset,
            r.count == 0,
    {
        ArgCursor { base_offset, count: 0 }
    }

    /// Reads the slot under the cursor and moves past it. When the slot is
    /// not inside the memory nothing is read and the cursor stays.
    pub fn next_u32(&mut self, mem: &GuestMemory) -> (r: Option<u32>)
        ensures
            r is Some <==> old(self).offset() <= u32::MAX && in_bounds(
                mem@.len() as int,
                old(self).offset(),
                4,
            ),
            r matches Some(v) ==> v == slot_value(mem@, old(self).offset()),
            r is Some ==> final(self).base_offset == old(self).base_offset && final(self).count
                == old(self).count + 1,
            r is None ==> *final(self) == *old(self),
    {
        let off: u64 = self.base_offset as u64 + 4 * (self.count as u64);
        if off > u32::MAX as u64 {
            return None;
        }
        match mem.read_u32(off as u32) {
            None => None,
            Some(v) => {
                self.count = self.count + 1;
                Some(v)
            },
        }
    }

    /// Reads the slot under the cursor as a signed integer.
    pub fn next_i32(&mut self, mem: &GuestMemory) -> (r: Option<i32>)
        ensures
            r is Some <==> old(self).offset() <= u32::MAX && in_bounds(
                mem@.len() as int,
                old(self).offset(),
                4,
            ),
            r matches Some(v) ==> v == slot_value(mem@, old(self).offset()) as i32,
            r is Some ==> final(self).base_offset == old(self).base_offset && final(self).count
                == old(self).count + 1,
            r is None ==> *final(self) == *old(self),
    {
        match self.next_u32(mem) {
            None => None,
            Some(v) => Some(v as i32),
        }
    }

    /// Reads `n` consecutive slots: the `i`-th comes from `4 * i` bytes past
    /// the cursor, which ends `4 * n` bytes further on. When any of them is
    /// not inside the memory nothing is read and the cursor stays.
    pub fn read_slots(&mut self, mem: &GuestMemory, n: u32) -> (r: Option<Vec<u32>>)
        ensures
            r is Some <==> slots_readable(mem@.len() as int, old(self).offset(), n as int),
            r matches Some(v) ==> {
                &&& v@.len() == n
                &&& forall|i: int|
                    0 <= i < n ==> #[trigger] v@[i] == slot_value(mem@, old(self).offset() + 4 * i)
                &&& final(self).base_offset == old(self).base_offset
                &&& final(self).offset() == old(self).offset() + 4 * n
            },
            r is None ==> *final(self) == *old(self),
    {
        let start = *self;
        let mut out: Vec<u32> = Vec::new();
        let mut i: u32 = 0;
        while i < n
            invariant
                i <= n,
                start == *old(self),
                self.base_offset == start.base_offset,
                self.offset() == start.offset() + 4 * i,
                out@.len() == i,
                forall|k: int| 0 <= k < i ==> #[trigger] out@[k] == slot_value(mem@, start.offset() + 4 * k),
                i > 0 ==> slots_readable(mem@.len() as int, start.offset(), i as int),
            decreases n - i,
        {
            match self.next_u32(mem) {
                None => {
                    *self = start;
                    return None;
                },
                Some(v) => {
                    out.push(v);
                    i = i + 1;
                },
            }
        }
        Some(out)
    }
}

} // verus!

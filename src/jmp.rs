//! Bookkeeping of save points for nonlocal jumps (setjmp / longjmp).
//!
//! A save point is marked by a host call made at some native call depth and
//! stays valid while the frame at that depth is live. Jumping to it discards
//! the frames above it; returning from its frame, or discarding it, ends it.

use vstd::prelude::*;

verus! {

/// Misuse of save points; each one ends the instance.
#[derive(Debug, Clone, Copy, PartialEq, Eq, Structural)]
pub enum ControlError {
    /// Every slot of the pool holds a live save point.
    PoolExhausted,
    /// The handle names no live save point.
    InvalidHandle,
    /// The guest's jump buffer lies outside the memory.
    BadPointer,
}

/// The slot that holds one save point.
#[derive(Debug, Clone, Copy, PartialEq, Eq, Structural)]
pub struct JumpHandle {
    pub slot: usize,
}

/// Where a jump resumes: the save point's frame depth, and the value that
/// the marking call then observes as its result.
#[derive(Debug, Clone, Copy, PartialEq, Eq, Structural)]
pub struct Resume {
    pub handle: JumpHandle,
    pub depth: u32,
    pub value: i32,
}

/// Whether slot `h` holds a live save point.
pub open spec fn jump_ok(s: Seq<Option<u32>>, h: int) -> bool {
    0 <= h < s.len() && s[h] is Some
}

/// The slots after the frames above depth `d` have been discarded.
pub open spec fn discard_above(s: Seq<Option<u32>>, d: int) -> Seq<Option<u32>> {
    Seq::new(
        s.len(),
        |i: int|
            match s[i] {
                Some(e) => if e > d {
                    None
                } else {
                    Some(e)
                },
                None => None,
            },
    )
}

/// The slots after the frame at depth `d` has returned normally.
pub open spec fn returned_from(s: Seq<Option<u32>>, d: int) -> Seq<Option<u32>> {
    discard_above(s, d - 1)
}

/// The first free slot, if any.
pub open spec fn first_free(s: Seq<Option<u32>>, h: int) -> bool {
    0 <= h < s.len() && s[h] is None && forall|j: int| 0 <= j < h ==> #[trigger] s[j] is Some
}

/// A fixed number of save-point slots, each empty or holding the depth of
/// the frame that marked it.
pub struct JumpPool {
    slots: Vec<Option<u32>>,
}

impl View for JumpPool {
    type V = Seq<Option<u32>>;

    closed spec fn view(&self) -> Seq<Option<u32>> {
        self.slots@
    }
}

impl JumpPool {
    /// A pool of `capacity` empty slots.
    pub fn new(capacity: usize) -> (r: JumpPool)
        ensures
            r@ == Seq::new(capacity as nat, |i: int| None::<u32>),
    {
        let mut slots: Vec<Option<u32>> = Vec::new();
        let mut i: usize = 0;
        while i < capacity
            invariant
                i <= capacity,
                slots@ =~= Seq::new(i as nat, |j: int| None::<u32>),
            decreases capacity - i,
        {
            slots.push(None);
            i = i + 1;
        }
        JumpPool { slots }
    }

    pub fn capacity(&self) -> (r: usize)
        ensures
            r == self@.len(),
    {
        self.slots.len()
    }

    /// Whether `handle` names a live save point.
    pub fn is_live(&self, handle: JumpHandle) -> (r: bool)
        ensures
            r == jump_ok(self@, handle.slot as int),
    {
        handle.slot < self.slots.len() && self.slots[handle.slot].is_some()
    }

    /// Records a save point made at frame depth `depth` in the first free
    /// slot.
    pub fn mark(&mut self, depth: u32) -> (r: Result<JumpHandle, ControlError>)
        ensures
            r is Err <==> forall|j: int| 0 <= j < old(self)@.len() ==> #[trigger] old(self)@[j] is Some,
            r matches Err(e) ==> e == ControlError::PoolExhausted && final(self)@ == old(self)@,
            r matches Ok(h) ==> first_free(old(self)@, h.slot as int) && final(self)@ == old(
                self,
            )@.update(h.slot as int, Some(depth)),
    {
        let mut i: usize = 0;
        while i < self.slots.len()
            invariant
                i <= self.slots@.len(),
                self@ == old(self)@,
                forall|j: int| 0 <= j < i ==> #[trigger] self@[j] is Some,
            decreases self.slots@.len() - i,
        {
            if self.slots[i].is_none() {
                self.slots.set(i, Some(depth));
                return Ok(JumpHandle { slot: i });
            }
            i = i + 1;
        }
        Err(ControlError::PoolExhausted)
    }

    /// Resumes at the save point of `handle` with `value`, discarding the
    /// save points of every frame above it. A handle without a live save
    /// point is refused and the pool stays as it was.
    pub fn jump(&mut self, handle: JumpHandle, value: i32) -> (r: Result<Resume, ControlError>)
        ensures
            r is Ok <==> jump_ok(old(self)@, handle.slot as int),
            r matches Err(e) ==> e == ControlError::InvalidHandle && final(self)@ == old(self)@,
            r matches Ok(res) ==> {
                &&& res.handle == handle
                &&& res.value == value
                &&& old(self)@[handle.slot as int] == Some(res.depth)
                &&& final(self)@ == discard_above(old(self)@, res.depth as int)
            },
    {
        if handle.slot >= self.slots.len() {
            return Err(ControlError::InvalidHandle);
        }
        match self.slots[handle.slot] {
            None => Err(ControlError::InvalidHandle),
            Some(depth) => {
                self.clear_where(depth as u64 + 1);
                Ok(Resume { handle, depth, value })
            },
        }
    }

    /// Ends the save points of the frame at `depth`, which has returned, and
    /// of every frame above it.
    pub fn frame_returned(&mut self, depth: u32)
        ensures
            final(self)@ == returned_from(old(self)@, depth as int),
    {
        self.clear_where(depth as u64);
    }

    /// Empties every slot whose depth is at least `from`.
    fn clear_where(&mut self, from: u64)
        ensures
            final(self)@ == discard_above(old(self)@, from - 1),
    {
        let mut i: usize = 0;
        while i < self.slots.len()
            invariant
                i <= self.slots@.len(),
                self@.len() == old(self)@.len(),
                forall|j: int|
                    0 <= j < i ==> #[trigger] self@[j] == discard_above(old(self)@, from - 1)[j],
                forall|j: int| i <= j < self@.len() ==> #[trigger] self@[j] == old(self)@[j],
            decreases self.slots@.len() - i,
        {
            if let Some(e) = self.slots[i] {
                if e as u64 >= from {
                    self.slots.set(i, None);
                }
            }
            i = i + 1;
        }
        assert(self@ =~= discard_above(old(self)@, from - 1));
    }
}

/// A save point marked at depth `d` is resumed by a jump made right after
/// it, and stays live while its frame does; once that frame has returned, a
/// jump to it is refused.
pub proof fn lemma_mark_jump_return(s: Seq<Option<u32>>, h: int, d: u32)
    requires
        first_free(s, h),
    ensures
        jump_ok(s.update(h, Some(d)), h),
        s.update(h, Some(d))[h] == Some(d),
        jump_ok(discard_above(s.update(h, Some(d)), d as int), h),
        !jump_ok(returned_from(discard_above(s.update(h, Some(d)), d as int), d as int), h),
        !jump_ok(returned_from(s.update(h, Some(d)), d as int), h),
{
    let m = s.update(h, Some(d));
    assert(discard_above(m, d as int)[h] == Some(d));
    assert(returned_from(discard_above(m, d as int), d as int)[h] is None);
    assert(returned_from(m, d as int)[h] is None);
}

} // verus!

//! Routing of guest calls through the import table: the handler tag of the
//! called entry decides whether the call is decoded as a syscall, answered
//! as a placeholder, or acts on the instance's save points.

use crate::instance::EmscriptenData;
use crate::jmp::{discard_above, first_free, jump_ok, ControlError, JumpHandle, Resume};
use crate::memory::{in_bounds, le_bytes, splice, GuestMemory};
use crate::varargs::slot_value;
use crate::registry::{handler_of, Handler, ImportEntry, ImportKind};
use crate::syscalls::{
    decode_syscall, decoded_as, failed_outcome, mocked_syscall, request_error, request_ok,
    syscall_failed, HostCall, SyscallOutcome, ENOSYS,
};
use vstd::prelude::*;

verus! {

/// What a syscall entry asks of the host.
#[derive(Debug)]
pub enum Dispatch {
    /// Perform this call, then complete it with `syscall_completed`.
    Host(HostCall),
    /// The call is answered without the host.
    Done(SyscallOutcome),
    /// The entry is not a syscall or a placeholder.
    NotSyscall,
}

/// What a save-point entry did.
#[derive(Debug, Clone, Copy, PartialEq, Eq, Structural)]
pub enum JumpAction {
    /// A save point was marked; the marking call returns 0 to the guest.
    Marked(JumpHandle),
    /// Unwind to the save point and return the value there.
    Resume(Resume),
    /// The instance must end.
    Fatal(ControlError),
    /// The entry is not of the kind called.
    NotJump,
}

/// Routes a call of table entry `entry`, with its argument block at
/// `varargs`: a syscall entry decodes its number's arguments, a placeholder
/// fails with ENOSYS.
pub fn dispatch_syscall(table: &Vec<ImportEntry>, entry: usize, mem: &GuestMemory, varargs: u32) -> (r:
    Dispatch)
    requires
        entry < table@.len(),
    ensures
        match handler_of(table@[entry as int]) {
            Some(Handler::Syscall(n)) => {
                &&& (r is Host <==> request_ok(n, mem@, varargs as int))
                &&& (r matches Dispatch::Host(c) ==> decoded_as(n, mem@, varargs as int, c))
                &&& (r matches Dispatch::Done(o) ==> o == failed_outcome(
                    request_error(n, mem@, varargs as int),
                ))
                &&& !(r is NotSyscall)
            },
            Some(Handler::Mock) => r matches Dispatch::Done(o) && o.ret == -1 && o.errno == Some(
                ENOSYS,
            ),
            _ => r is NotSyscall,
        },
{
    match table[entry].kind {
        ImportKind::Func { handler: Handler::Syscall(n), .. } => match decode_syscall(
            n,
            mem,
            varargs,
        ) {
            Ok(c) => Dispatch::Host(c),
            Err(e) => Dispatch::Done(syscall_failed(e)),
        },
        ImportKind::Func { handler: Handler::Mock, .. } => Dispatch::Done(mocked_syscall()),
        _ => Dispatch::NotSyscall,
    }
}

/// A call of table entry `entry` with the guest's jump buffer at `env`,
/// made at native frame depth `depth`: the save-point entry marks a save
/// point there and stores its slot as a word at `env`. A buffer outside
/// the memory ends the instance, and nothing changes.
pub fn dispatch_set_jmp(
    table: &Vec<ImportEntry>,
    entry: usize,
    data: &mut EmscriptenData,
    mem: &mut GuestMemory,
    env: u32,
    depth: u32,
) -> (r: JumpAction)
    requires
        entry < table@.len(),
        old(data).jumps@.len() <= u32::MAX,
    ensures
        handler_of(table@[entry as int]) == Some(Handler::SetJmp) ==> {
            &&& (r == JumpAction::Fatal(ControlError::BadPointer) <==> !in_bounds(
                old(mem)@.len() as int,
                env as int,
                4,
            ))
            &&& (r == JumpAction::Fatal(ControlError::PoolExhausted) <==> in_bounds(
                old(mem)@.len() as int,
                env as int,
                4,
            ) && (forall|j: int|
                0 <= j < old(data).jumps@.len() ==> #[trigger] old(data).jumps@[j] is Some))
            &&& (r is Fatal ==> final(data).jumps@ == old(data).jumps@ && final(mem)@ == old(mem)@)
            &&& (r matches JumpAction::Marked(h) ==> {
                &&& first_free(old(data).jumps@, h.slot as int)
                &&& final(data).jumps@ == old(data).jumps@.update(h.slot as int, Some(depth))
                &&& final(mem)@ == splice(old(mem)@, env as int, le_bytes(h.slot as u32))
            })
            &&& (r is Marked || r is Fatal)
        },
        handler_of(table@[entry as int]) != Some(Handler::SetJmp) ==> {
            &&& r is NotJump
            &&& final(data).jumps@ == old(data).jumps@
            &&& final(mem)@ == old(mem)@
        },
{
    match table[entry].kind {
        ImportKind::Func { handler: Handler::SetJmp, .. } => {
            if mem.translate(env, 4).is_none() {
                return JumpAction::Fatal(ControlError::BadPointer);
            }
            match data.jumps.mark(depth) {
                Ok(h) => {
                    mem.write_u32(env, h.slot as u32);
                    JumpAction::Marked(h)
                },
                Err(e) => JumpAction::Fatal(e),
            }
        },
        _ => JumpAction::NotJump,
    }
}

/// A call of table entry `entry` with the guest's jump buffer at `env` and
/// a value: the jump entry reads the slot stored at `env` and resumes at
/// that save point, discarding the frames above it. A buffer outside the
/// memory, or a save point that is not live, ends the instance.
pub fn dispatch_long_jmp(
    table: &Vec<ImportEntry>,
    entry: usize,
    data: &mut EmscriptenData,
    mem: &GuestMemory,
    env: u32,
    value: i32,
) -> (r: JumpAction)
    requires
        entry < table@.len(),
    ensures
        handler_of(table@[entry as int]) == Some(Handler::LongJmp) ==> {
            &&& (!in_bounds(mem@.len() as int, env as int, 4) ==> r == JumpAction::Fatal(
                ControlError::BadPointer,
            ))
            &&& (in_bounds(mem@.len() as int, env as int, 4) ==> {
                let slot = slot_value(mem@, env as int) as int;
                &&& (r is Resume <==> jump_ok(old(data).jumps@, slot))
                &&& (r matches JumpAction::Resume(res) ==> {
                    &&& res.handle.slot == slot
                    &&& res.value == value
                    &&& old(data).jumps@[slot] == Some(res.depth)
                    &&& final(data).jumps@ == discard_above(old(data).jumps@, res.depth as int)
                })
                &&& (!(r is Resume) ==> r == JumpAction::Fatal(ControlError::InvalidHandle))
            })
            &&& (!(r is Resume) ==> final(data).jumps@ == old(data).jumps@)
        },
        handler_of(table@[entry as int]) != Some(Handler::LongJmp) ==> r is NotJump
            && final(data).jumps@ == old(data).jumps@,
{
    match table[entry].kind {
        ImportKind::Func { handler: Handler::LongJmp, .. } => match mem.read_u32(env) {
            None => JumpAction::Fatal(ControlError::BadPointer),
            Some(slot) => match data.jumps.jump(JumpHandle { slot: slot as usize }, value) {
                Ok(res) => JumpAction::Resume(res),
                Err(e) => JumpAction::Fatal(e),
            },
        },
        _ => JumpAction::NotJump,
    }
}

} // verus!

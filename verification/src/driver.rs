//! The three-verb dispatch contract every userspace-facing capsule
//! implements.
//!
//! A process reaches a capsule only through its driver number and the three
//! operations [`Driver::command`], [`Driver::allow_shared`] and
//! [`Driver::subscribe`]. A command triggers an immediate, possibly
//! side-effecting action and must return a failure code rather than block;
//! an allow atomically exchanges a shared process buffer for the one the
//! capsule currently holds under the same id, so a buffer is never owned by
//! both sides at once; a subscribe registers — or replaces, handing the old
//! one back — the callback invoked when an asynchronous event completes.

use vstd::prelude::*;

verus! {

use crate::process::{ProcessId, ProcessTable};
use crate::returncode::ErrorCode;

/// A function-pointer-plus-process-identity pair registered through
/// `subscribe` and delivered to the process when an asynchronous event
/// completes.
#[derive(Clone, Copy, Debug, PartialEq, Eq, Structural)]
pub struct Callback {
    /// The process the callback belongs to.
    pub app_id: ProcessId,
    /// The subscription slot it was registered under.
    pub subscribe_num: usize,
    /// The process-space function pointer, as a plain address.
    pub fn_ptr: usize,
    /// Opaque word the process asked to receive back.
    pub appdata: usize,
}

impl Callback {
    /// Assemble a callback record.
    pub fn new(app_id: ProcessId, subscribe_num: usize, fn_ptr: usize, appdata: usize) -> (r:
        Callback)
        ensures
            r == (Callback { app_id, subscribe_num, fn_ptr, appdata }),
    {
        Callback { app_id, subscribe_num, fn_ptr, appdata }
    }

    /// The process this callback belongs to.
    pub fn app_id(&self) -> (r: ProcessId)
        ensures
            r == self.app_id,
    {
        self.app_id
    }
}

/// A capability over a contiguous range of one process's memory, handed to
/// a capsule via `allow`. The process remains the long-term owner; the
/// capsule holds the capability — and with it the sole right to the bytes —
/// until the process re-allows the same id or is torn down.
#[derive(Clone, Debug, PartialEq, Eq)]
pub struct SharedBuffer {
    /// The owning process.
    pub owner: ProcessId,
    /// The buffer id it was allowed under.
    pub id: usize,
    /// The shared bytes.
    pub data: Vec<u8>,
}

impl SharedBuffer {
    /// An empty capability owned by process 0; the placeholder a capsule
    /// holds before any allow.
    pub fn empty() -> (r: SharedBuffer)
        ensures
            r.owner == (ProcessId { index: 0 }),
            r.id == 0,
            r.data@.len() == 0,
    {
        SharedBuffer { owner: ProcessId { index: 0 }, id: 0, data: Vec::new() }
    }

    /// Wrap a process buffer as a capability.
    pub fn new(owner: ProcessId, id: usize, data: Vec<u8>) -> (r: SharedBuffer)
        ensures
            r.owner == owner,
            r.id == id,
            r.data == data,
    {
        SharedBuffer { owner, id, data }
    }

    /// Length of the shared range in bytes.
    pub fn len(&self) -> (r: usize)
        ensures
            r == self.data@.len(),
    {
        self.data.len()
    }
}

/// What a `command` returns to the calling process: success, possibly with
/// values, or one failure from the closed error enumeration.
#[derive(Clone, Copy, Debug, PartialEq, Eq, Structural)]
pub enum CommandReturn {
    /// The command failed with the given error.
    Failure(ErrorCode),
    /// The command succeeded.
    Success,
    /// The command succeeded and carries one word.
    SuccessU32(u32),
    /// The command succeeded and carries two words.
    SuccessU32U32(u32, u32),
}

impl CommandReturn {
    /// A bare success.
    pub fn success() -> (r: CommandReturn)
        ensures
            r == CommandReturn::Success,
    {
        CommandReturn::Success
    }

    /// A success carrying one word.
    pub fn success_u32(value: u32) -> (r: CommandReturn)
        ensures
            r == CommandReturn::SuccessU32(value),
    {
        CommandReturn::SuccessU32(value)
    }

    /// A failure with the given error.
    pub fn failure(error: ErrorCode) -> (r: CommandReturn)
        ensures
            r == CommandReturn::Failure(error),
    {
        CommandReturn::Failure(error)
    }

    /// Whether this is a success of any shape.
    pub fn is_success(&self) -> (r: bool)
        ensures
            r == !(*self is Failure),
    {
        match *self {
            CommandReturn::Failure(_) => false,
            _ => true,
        }
    }
}

/// The dispatch contract of one capsule.
///
/// Every method receives the kernel's process table so a capsule can enter
/// its grants; each must leave the table well-formed and its size
/// unchanged. A capsule must reject operations that violate its own state
/// machine with the busy code rather than silently reordering, and must
/// never block: long-running work is "start now, callback later".
pub trait Driver {
    /// Trigger an immediate action. Unsupported `command_num`s fail with
    /// the unsupported-operation code.
    fn command(
        &mut self,
        command_num: usize,
        arg0: usize,
        arg1: usize,
        caller: ProcessId,
        procs: &mut ProcessTable,
    ) -> (r: CommandReturn)
        requires
            old(procs).wf(),
        ensures
            final(procs).wf(),
            final(procs).capacity() == old(procs).capacity(),
    ;

    /// Atomically exchange the buffer shared under `which` for the one the
    /// capsule currently holds: on success the previous holding comes back
    /// to the caller, on failure the offered buffer is returned untouched
    /// beside the error.
    fn allow_shared(
        &mut self,
        caller: ProcessId,
        which: usize,
        slice: SharedBuffer,
        procs: &mut ProcessTable,
    ) -> (r: Result<SharedBuffer, (SharedBuffer, ErrorCode)>)
        requires
            old(procs).wf(),
        ensures
            final(procs).wf(),
            final(procs).capacity() == old(procs).capacity(),
    ;

    /// Register or replace the callback for `subscribe_num`: on success the
    /// previously registered callback comes back, on failure the offered
    /// callback is returned untouched beside the error.
    fn subscribe(
        &mut self,
        subscribe_num: usize,
        callback: Callback,
        procs: &mut ProcessTable,
    ) -> (r: Result<Callback, (Callback, ErrorCode)>)
        requires
            old(procs).wf(),
        ensures
            final(procs).wf(),
            final(procs).capacity() == old(procs).capacity(),
    ;
}

} // verus!

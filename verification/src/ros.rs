//! Read-only system-call driver.
//!
//! Gives userspace a shared memory region the kernel keeps current, so an
//! application can read kernel values — an update counter, its pending-task
//! count, the time — without the context-switch cost of a real syscall. The
//! values are only as fresh as the last time the kernel switched to the
//! application. The region's layout is versioned; `command 0` reports the
//! version, and new versions only append fields.

use vstd::prelude::*;

verus! {

use crate::driver::{Callback, CommandReturn, Driver, SharedBuffer};
use crate::grant::{Grant, GrantDefault, GrantError};
use crate::process::{ProcessId, ProcessTable};
use crate::returncode::ErrorCode;

/// Syscall driver number.
pub const DRIVER_NUM: usize = 0x10001;

/// Version of the shared-region layout served by this kernel.
pub const VERSION: u32 = 1;

/// Per-process state: the buffer the process allowed the kernel to write
/// its values into.
pub struct App {
    /// The shared region, present once the process has allowed one.
    pub mem_region: Option<SharedBuffer>,
}

impl GrantDefault for App {
    open spec fn spec_grant_default() -> App {
        App { mem_region: Option::None }
    }

    fn grant_default() -> (r: App) {
        App { mem_region: None }
    }
}

/// Whether byte `k` of a values region of length `len` belongs to a
/// field the kernel writes: a field is written only when the region holds
/// it whole, so a short region never receives a partial field.
pub open spec fn ros_field_byte(k: int, len: int) -> bool {
    ||| (len >= 4 && 0 <= k < 4)
    ||| (len >= 8 && 4 <= k < 8)
    ||| (len >= 16 && 8 <= k < 16)
}

/// Byte `k` of the little-endian encoding of `v`.
pub open spec fn le_byte_u32(v: u32, k: int) -> u8 {
    ((v >> (8 * k as u32)) & 0xFF) as u8
}

/// Byte `k` of the little-endian encoding of `v`.
pub open spec fn le_byte_u64(v: u64, k: int) -> u8 {
    ((v >> (8 * k as u64)) & 0xFF) as u8
}

/// The driver: an update counter and the per-process grant.
pub struct ROSDriver {
    /// Counts completed updates; written into every shared region so a
    /// process can detect a torn read.
    pub count: u32,
    /// Per-process shared-region state.
    pub apps: Grant<App>,
}

impl ROSDriver {
    /// Build the driver around its grant.
    pub fn new(grant: Grant<App>) -> (r: ROSDriver)
        ensures
            r.count == 0,
            r.apps == grant,
    {
        ROSDriver { count: 0, apps: grant }
    }

    /// Write the current values into `appid`'s shared region, then bump the
    /// update counter. Fields the region is too small for are skipped, and
    /// bytes past the known fields are left as they were. The caller — the
    /// kernel, just before switching to `appid` — guarantees the grant is
    /// enterable.
    pub fn update_values(
        &mut self,
        appid: ProcessId,
        pending_tasks: usize,
        now_ticks: u64,
        procs: &mut ProcessTable,
    ) -> (r: Result<(), GrantError>)
        requires
            old(self).apps.capacity() == old(procs).capacity(),
            old(procs).wf(),
            old(self).apps.enter_outcome(*old(procs), appid) is Ok,
        ensures
            final(self).apps.capacity() == old(self).apps.capacity(),
            final(procs).wf(),
            final(procs).capacity() == old(procs).capacity(),
            r is Ok,
            final(self).count == (old(self).count + 1) as u32 || (old(self).count == u32::MAX
                && final(self).count == 0),
            old(self).apps.is_ready(appid) ==> (old(self).apps.value_of(appid).mem_region matches
            Some(buf) ==> (final(self).apps.is_ready(appid) && (final(self).apps.value_of(
                appid,
            ).mem_region matches Some(updated) && {
                &&& updated.owner == buf.owner
                &&& updated.id == buf.id
                &&& updated.data@.len() == buf.data@.len()
                &&& buf.data@.len() >= 4 ==> forall|k: int|
                    0 <= k < 4 ==> #[trigger] updated.data@[k] == le_byte_u32(old(self).count, k)
                &&& buf.data@.len() >= 8 ==> forall|k: int|
                    4 <= k < 8 ==> #[trigger] updated.data@[k] == le_byte_u32(
                        (pending_tasks as u64 % 0x1_0000_0000) as u32,
                        k - 4,
                    )
                &&& buf.data@.len() >= 16 ==> forall|k: int|
                    8 <= k < 16 ==> #[trigger] updated.data@[k] == le_byte_u64(now_ticks, k - 8)
                &&& forall|k: int|
                    0 <= k < buf.data@.len() && !ros_field_byte(k, buf.data@.len() as int)
                        ==> #[trigger] updated.data@[k] == buf.data@[k]
            }))),
    {
        let taken = self.apps.enter_begin(procs, appid);
        match taken {
            Ok(mut app) => {
                if let Some(mut buf) = app.mem_region {
                    let len = buf.data.len();
                    if len >= 4 {
                        write_le_u32(&mut buf.data, 0, self.count);
                    }
                    if len >= 8 {
                        let wide: u64 = pending_tasks as u64;
                        let pending: u32 = (wide & 0xFFFF_FFFF) as u32;
                        proof {
                            assert((wide & 0xFFFF_FFFF) == wide % 0x1_0000_0000) by (bit_vector);
                        }
                        write_le_u32(&mut buf.data, 4, pending);
                    }
                    if len >= 16 {
                        write_le_u64(&mut buf.data, 8, now_ticks);
                    }
                    app.mem_region = Some(buf);
                } else {
                    app.mem_region = None;
                }
                self.apps.enter_end(appid, app);
            },
            Err(_) => {
                // the precondition promises an enterable grant
                proof {
                    assert(false);
                }
            },
        }
        self.count = self.count.wrapping_add(1);
        Ok(())
    }
}

/// Write the four little-endian bytes of `v` at `off`, leaving every other
/// byte alone.
fn write_le_u32(data: &mut Vec<u8>, off: usize, v: u32)
    requires
        off + 4 <= old(data)@.len(),
    ensures
        final(data)@.len() == old(data)@.len(),
        forall|k: int| 0 <= k < 4 ==> final(data)@[off + k] == le_byte_u32(v, k),
        forall|k: int|
            0 <= k < old(data)@.len() && !(off <= k < off + 4) ==> final(data)@[k] == old(
                data,
            )@[k],
{
    let n = data.len();
    let b0: u8 = (v & 0xFF) as u8;
    let b1: u8 = ((v >> 8) & 0xFF) as u8;
    let b2: u8 = ((v >> 16) & 0xFF) as u8;
    let b3: u8 = ((v >> 24) & 0xFF) as u8;
    proof {
        assert((v & 0xFF) == ((v >> 0) & 0xFF)) by (bit_vector);
    }
    data.set(off, b0);
    data.set(off + 1, b1);
    data.set(off + 2, b2);
    data.set(off + 3, b3);
}

/// Write the eight little-endian bytes of `v` at `off`, leaving every
/// other byte alone.
fn write_le_u64(data: &mut Vec<u8>, off: usize, v: u64)
    requires
        off + 8 <= old(data)@.len(),
    ensures
        final(data)@.len() == old(data)@.len(),
        forall|k: int| 0 <= k < 8 ==> final(data)@[off + k] == le_byte_u64(v, k),
        forall|k: int|
            0 <= k < old(data)@.len() && !(off <= k < off + 8) ==> final(data)@[k] == old(
                data,
            )@[k],
{
    let n = data.len();
    let mut k: usize = 0;
    while k < 8
        invariant
            k <= 8,
            n == data@.len(),
            off + 8 <= n,
            off + 8 <= data@.len(),
            data@.len() == old(data)@.len(),
            forall|j: int| 0 <= j < k ==> data@[off + j] == le_byte_u64(v, j),
            forall|j: int|
                0 <= j < old(data)@.len() && !(off <= j < off + k) ==> data@[j] == old(data)@[j],
        decreases 8 - k,
    {
        let b: u8 = ((v >> ((8 * k) as u64)) & 0xFF) as u8;
        data.set(off + k, b);
        k = k + 1;
    }
}

impl Driver for ROSDriver {
    /// `command 0` reports the layout version; everything else is
    /// unsupported.
    fn command(
        &mut self,
        command_num: usize,
        _arg0: usize,
        _arg1: usize,
        _caller: ProcessId,
        procs: &mut ProcessTable,
    ) -> (r: CommandReturn)
        ensures
            final(procs).slots@ == old(procs).slots@,
            *final(self) == *old(self),
            command_num == 0 ==> r == CommandReturn::SuccessU32(VERSION),
            command_num != 0 ==> r == CommandReturn::Failure(ErrorCode::NOSUPPORT),
    {
        if command_num == 0 {
            CommandReturn::success_u32(VERSION)
        } else {
            CommandReturn::failure(ErrorCode::NOSUPPORT)
        }
    }

    /// Buffer id 0 is the values region. The offered buffer is stored and
    /// the previously stored buffer — or an empty one, the first time —
    /// comes back to the caller in the same step: at no instant do the
    /// kernel and the process both hold the same buffer.
    fn allow_shared(
        &mut self,
        caller: ProcessId,
        which: usize,
        slice: SharedBuffer,
        procs: &mut ProcessTable,
    ) -> (r: Result<SharedBuffer, (SharedBuffer, ErrorCode)>)
        ensures
            final(self).apps.capacity() == old(self).apps.capacity(),
            which != 0 ==> r == Err::<SharedBuffer, (SharedBuffer, ErrorCode)>((
                slice,
                ErrorCode::NOSUPPORT,
            )) && *final(self) == *old(self) && final(procs).slots@ == old(procs).slots@,
            which == 0 && old(self).apps.capacity() == old(procs).capacity() ==> {
                &&& (old(self).apps.enter_outcome(*old(procs), caller) matches Err(e) ==> r
                    == Err::<SharedBuffer, (SharedBuffer, ErrorCode)>((
                    slice,
                    e.as_error_code(),
                )) && final(self).apps.slots@ == old(self).apps.slots@ && final(procs).slots@
                    == old(procs).slots@)
                &&& (old(self).apps.enter_outcome(*old(procs), caller) is Ok ==> (
                final(self).apps.is_ready(caller)
                    && final(self).apps.value_of(caller).mem_region == Some(slice) && (
                r matches Ok(previous) && {
                    ||| (old(self).apps.is_ready(caller) && old(self).apps.value_of(
                        caller,
                    ).mem_region == Some(previous))
                    ||| ((!(old(self).apps.is_ready(caller) && old(self).apps.value_of(
                        caller,
                    ).mem_region is Some)) && previous.data@.len() == 0)
                })))
            },
    {
        if which != 0 {
            return Err((slice, ErrorCode::NOSUPPORT));
        }
        if self.apps.capacity_len() != procs.slots.len() {
            return Err((slice, ErrorCode::FAIL));
        }
        match self.apps.enter_begin(procs, caller) {
            Err(e) => Err((slice, e.into_error_code())),
            Ok(mut app) => {
                let previous = match app.mem_region {
                    Some(b) => b,
                    None => SharedBuffer::empty(),
                };
                app.mem_region = Some(slice);
                self.apps.enter_end(caller, app);
                Ok(previous)
            },
        }
    }

    /// No asynchronous events: every subscription is unsupported.
    fn subscribe(
        &mut self,
        _subscribe_num: usize,
        callback: Callback,
        procs: &mut ProcessTable,
    ) -> (r: Result<Callback, (Callback, ErrorCode)>)
        ensures
            *final(self) == *old(self),
            final(procs).slots@ == old(procs).slots@,
            r == Err::<Callback, (Callback, ErrorCode)>((callback, ErrorCode::NOSUPPORT)),
    {
        Err((callback, ErrorCode::NOSUPPORT))
    }
}

impl ROSDriver {
    /// Materialize the grant for `processid` without touching its state:
    /// the kernel calls this when a process is loaded so later updates
    /// cannot fail on allocation.
    pub fn allocate_grant(&mut self, processid: ProcessId, procs: &mut ProcessTable) -> (r: Result<
        (),
        GrantError,
    >)
        requires
            old(self).apps.capacity() == old(procs).capacity(),
            old(procs).wf(),
        ensures
            final(self).apps.capacity() == old(self).apps.capacity(),
            final(procs).wf(),
            final(procs).capacity() == old(procs).capacity(),
            r is Ok <==> old(self).apps.enter_outcome(*old(procs), processid) is Ok,
            r is Ok ==> final(self).apps.is_ready(processid),
            r matches Err(e) ==> (old(self).apps.enter_outcome(*old(procs), processid) matches
            Err(e2) && e == e2),
            r is Err ==> final(self).apps.slots@ == old(self).apps.slots@ && final(procs).slots@
                == old(procs).slots@,
    {
        match self.apps.enter(procs, processid, |app: App| -> (r: (App, ())) { (app, ()) }) {
            Ok(()) => Ok(()),
            Err(e) => Err(e),
        }
    }
}

} // verus!

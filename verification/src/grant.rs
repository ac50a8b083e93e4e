//! The per-process, per-capsule isolated-state allocator.
//!
//! A [`Grant<T>`] is a capsule's declaration that it needs one `T` of
//! private state per process. The grant object itself is a slot reservation
//! created once at boot; per-process backing storage is materialized lazily,
//! on first entry, out of the owning process's own memory budget — never
//! kernel heap. The central invariant: for a given capsule and process, at
//! most one mutable borrow of the grant state is live at a time. Entering is
//! explicit here — [`Grant::enter_begin`] takes the state out and marks the
//! slot entered, [`Grant::enter_end`] puts it back — and a re-entrant
//! `enter_begin` for an entered slot fails with a contention error rather
//! than deadlocking or aliasing. [`Grant::enter`] wraps the pair around a
//! closure for the common case.

use vstd::prelude::*;

verus! {

use crate::caps::MemoryAllocationCapability;
use crate::process::{ProcessId, ProcessTable, Process};
use crate::returncode::{ErrorCode, ReturnCode};

/// Why a grant entry failed. All variants are recoverable; they are
/// surfaced to the caller as values, never panics.
#[derive(Clone, Copy, Debug, PartialEq, Eq, Structural)]
pub enum GrantError {
    /// The process does not exist or can no longer run.
    NoSuchProcess,
    /// The grant is already entered for this process: a re-entrancy attempt.
    AlreadyEntered,
    /// The process has too little free memory to materialize the state.
    OutOfMemory,
}

impl GrantError {
    /// The [`ErrorCode`] a capsule reports for this failure.
    pub open spec fn as_error_code(self) -> ErrorCode {
        match self {
            GrantError::NoSuchProcess => ErrorCode::INVAL,
            GrantError::AlreadyEntered => ErrorCode::BUSY,
            GrantError::OutOfMemory => ErrorCode::NOMEM,
        }
    }

    /// Report this failure as an [`ErrorCode`].
    pub fn into_error_code(self) -> (r: ErrorCode)
        ensures
            r == self.as_error_code(),
    {
        match self {
            GrantError::NoSuchProcess => ErrorCode::INVAL,
            GrantError::AlreadyEntered => ErrorCode::BUSY,
            GrantError::OutOfMemory => ErrorCode::NOMEM,
        }
    }

    /// Report this failure as a [`ReturnCode`].
    pub fn into_return_code(self) -> (r: ReturnCode)
        ensures
            r == crate::returncode::error_code_as_return_code(self.as_error_code()),
    {
        self.into_error_code().into_return_code()
    }
}

/// The initial value a grant's state takes when it is first materialized
/// for a process.
pub trait GrantDefault: Sized {
    /// The initial state, as a specification-level value.
    spec fn spec_grant_default() -> Self;

    /// Produce the initial state.
    fn grant_default() -> (r: Self)
        ensures
            r == Self::spec_grant_default(),
    ;
}

/// State of one process's slot in a grant.
pub enum GrantSlot<T> {
    /// No storage materialized yet for this process.
    Unallocated,
    /// Storage holds a value and nobody is inside the grant.
    Ready(T),
    /// The capsule is currently inside the grant for this process: the value
    /// is out on loan and a second entry must fail.
    Entered,
}

/// A capsule's per-process private state store.
pub struct Grant<T> {
    /// Bytes of process memory one materialized state costs.
    pub size: usize,
    /// One slot per process-table slot.
    pub slots: Vec<GrantSlot<T>>,
}

impl<T> Grant<T> {
    /// The grant covers a table of `num_processes` slots.
    pub open spec fn capacity(&self) -> int {
        self.slots@.len() as int
    }

    /// Whether the slot for `pid` is currently entered.
    pub open spec fn is_entered(&self, pid: ProcessId) -> bool {
        0 <= pid.index < self.slots@.len() && self.slots@[pid.index as int] is Entered
    }

    /// Whether the slot for `pid` holds materialized, not-borrowed state.
    pub open spec fn is_ready(&self, pid: ProcessId) -> bool {
        0 <= pid.index < self.slots@.len() && self.slots@[pid.index as int] is Ready
    }

    /// Whether the slot for `pid` has never been materialized.
    pub open spec fn is_unallocated(&self, pid: ProcessId) -> bool {
        0 <= pid.index < self.slots@.len() && self.slots@[pid.index as int] is Unallocated
    }

    /// The value stored in `pid`'s slot.
    pub open spec fn value_of(&self, pid: ProcessId) -> T
        recommends
            self.is_ready(pid),
    {
        self.slots@[pid.index as int]->Ready_0
    }

    /// The number of process slots this grant covers.
    pub fn capacity_len(&self) -> (r: usize)
        ensures
            r == self.capacity(),
    {
        self.slots.len()
    }

    /// Create a grant covering `num_processes` slots, each costing `size`
    /// bytes of the owning process's memory once materialized. Reserving
    /// process memory is privileged, so the caller presents the
    /// memory-allocation capability.
    pub fn new(_cap: &MemoryAllocationCapability, num_processes: usize, size: usize) -> (r: Grant<
        T,
    >)
        ensures
            r.capacity() == num_processes,
            r.size == size,
            forall|i: int| 0 <= i < num_processes ==> (#[trigger] r.slots@[i]) is Unallocated,
    {
        let mut slots: Vec<GrantSlot<T>> = Vec::new();
        let mut i: usize = 0;
        while i < num_processes
            invariant
                i <= num_processes,
                slots@.len() == i,
                forall|j: int| 0 <= j < i ==> (#[trigger] slots@[j]) is Unallocated,
            decreases num_processes - i,
        {
            slots.push(GrantSlot::Unallocated);
            i = i + 1;
        }
        Grant { size, slots }
    }
}

impl<T: GrantDefault> Grant<T> {
    /// The outcome [`Grant::enter_begin`] owes for a given starting state:
    /// the process must exist and be alive, the slot must not already be
    /// entered, and on first use the process must have memory to spare.
    pub open spec fn enter_outcome(
        self,
        procs: ProcessTable,
        pid: ProcessId,
    ) -> Result<T, GrantError> {
        if !(procs.has_process(pid) && procs.process_of(pid).alive()) {
            Err(GrantError::NoSuchProcess)
        } else if self.is_entered(pid) {
            Err(GrantError::AlreadyEntered)
        } else if self.is_ready(pid) {
            Ok(self.value_of(pid))
        } else if procs.process_of(pid).free_grant_bytes < self.size {
            Err(GrantError::OutOfMemory)
        } else {
            Ok(T::spec_grant_default())
        }
    }

    /// Take the grant state for `pid` out on loan, materializing it on
    /// first use from the process's own free memory.
    ///
    /// The result is exactly [`Grant::enter_outcome`]: a missing or dead
    /// process, a re-entrant entry, or an out-of-memory first use fail with
    /// the corresponding error and change nothing; otherwise the slot
    /// becomes entered and the stored value (or the initial value, paid for
    /// out of the process's memory) is handed out.
    pub fn enter_begin(&mut self, procs: &mut ProcessTable, pid: ProcessId) -> (r: Result<
        T,
        GrantError,
    >)
        requires
            old(self).capacity() == old(procs).capacity(),
            old(procs).wf(),
        ensures
            final(self).capacity() == old(self).capacity(),
            final(self).size == old(self).size,
            final(procs).wf(),
            final(procs).capacity() == old(procs).capacity(),
            r == old(self).enter_outcome(*old(procs), pid),
            r is Err ==> final(self).slots@ == old(self).slots@ && final(procs).slots@ == old(
                procs,
            ).slots@,
            r is Ok ==> final(self).slots@ == old(self).slots@.update(
                pid.index as int,
                GrantSlot::Entered,
            ),
            r is Ok && old(self).is_ready(pid) ==> final(procs).slots@ == old(procs).slots@,
            r is Ok && old(self).is_unallocated(pid) ==> final(procs).slots@ == old(
                procs,
            ).slots@.update(
                pid.index as int,
                Some(
                    (Process {
                        free_grant_bytes: (old(procs).process_of(pid).free_grant_bytes - old(
                            self,
                        ).size) as usize,
                        ..old(procs).process_of(pid)
                    }),
                ),
            ),
    {
        if pid.index >= self.slots.len() {
            return Err(GrantError::NoSuchProcess);
        }
        let alive = match procs.get(pid) {
            Some(p) => p.is_alive(),
            None => false,
        };
        if !alive {
            return Err(GrantError::NoSuchProcess);
        }
        let mut taken = GrantSlot::Entered;
        core::mem::swap(&mut taken, &mut self.slots[pid.index]);
        match taken {
            GrantSlot::Entered => {
                proof {
                    assert(self.slots@ =~= old(self).slots@);
                }
                Err(GrantError::AlreadyEntered)
            },
            GrantSlot::Ready(t) => Ok(t),
            GrantSlot::Unallocated => {
                if procs.allocate_grant_memory(pid, self.size) {
                    Ok(T::grant_default())
                } else {
                    self.slots.set(pid.index, GrantSlot::Unallocated);
                    proof {
                        assert(self.slots@ =~= old(self).slots@);
                    }
                    Err(GrantError::OutOfMemory)
                }
            },
        }
    }

    /// Run `f` with this capsule's private state for `pid`, materializing
    /// the state on first use. The closure receives the state and returns
    /// the updated state together with its own result.
    ///
    /// Fails — surfacing the error to the caller, never panicking on
    /// contention — exactly when [`Grant::enter_begin`] does: the process is
    /// gone, the grant is already entered for it, or its memory is
    /// exhausted. While `f` runs, the slot is marked entered, so the closure
    /// holds the only live copy of the state for this process.
    pub fn enter<R, F: FnOnce(T) -> (T, R)>(
        &mut self,
        procs: &mut ProcessTable,
        pid: ProcessId,
        f: F,
    ) -> (r: Result<R, GrantError>)
        requires
            old(self).capacity() == old(procs).capacity(),
            old(procs).wf(),
            (old(self).enter_outcome(*old(procs), pid) matches Ok(t0) ==> call_requires(
                f,
                (t0,),
            )),
        ensures
            final(self).capacity() == old(self).capacity(),
            final(self).size == old(self).size,
            final(procs).wf(),
            final(procs).capacity() == old(procs).capacity(),
            old(self).enter_outcome(*old(procs), pid) matches Err(e) ==> r == Err::<
                R,
                GrantError,
            >(e) && final(self).slots@ == old(self).slots@ && final(procs).slots@ == old(
                procs,
            ).slots@,
            (old(self).enter_outcome(*old(procs), pid) matches Ok(t0) ==> r matches Ok(res)
                && exists|t1: T|
                call_ensures(f, (t0,), (t1, res)) && final(self).slots@ == old(
                    self,
                ).slots@.update(pid.index as int, GrantSlot::Ready(t1))),
            r is Ok && old(self).is_ready(pid) ==> final(procs).slots@ == old(procs).slots@,
            r is Ok && old(self).is_unallocated(pid) ==> final(procs).slots@ == old(
                procs,
            ).slots@.update(
                pid.index as int,
                Some(
                    (Process {
                        free_grant_bytes: (old(procs).process_of(pid).free_grant_bytes - old(
                            self,
                        ).size) as usize,
                        ..old(procs).process_of(pid)
                    }),
                ),
            ),
    {
        match self.enter_begin(procs, pid) {
            Err(e) => Err(e),
            Ok(t) => {
                let (t1, res) = f(t);
                let ghost stored = t1;
                self.enter_end(pid, t1);
                proof {
                    assert(self.slots@ =~= old(self).slots@.update(
                        pid.index as int,
                        GrantSlot::Ready(stored),
                    ));
                }
                Ok(res)
            },
        }
    }

    /// Return the state taken out by [`Grant::enter_begin`].
    pub fn enter_end(&mut self, pid: ProcessId, value: T)
        requires
            old(self).is_entered(pid),
        ensures
            final(self).capacity() == old(self).capacity(),
            final(self).size == old(self).size,
            final(self).is_ready(pid),
            final(self).value_of(pid) == value,
            forall|i: int|
                0 <= i < old(self).capacity() && i != pid.index ==> final(self).slots@[i] == old(
                    self,
                ).slots@[i],
    {
        self.slots.set(pid.index, GrantSlot::Ready(value));
    }
}

impl<T> Grant<T> {
    /// Borrow the materialized state for `pid` without allocating: the
    /// value comes out on loan — the slot is entered — only if it was
    /// ready. Unallocated, entered or out-of-range slots yield `None` and
    /// nothing changes. Pair with [`Grant::enter_end`].
    pub fn take_ready(&mut self, pid: ProcessId) -> (r: Option<T>)
        ensures
            final(self).capacity() == old(self).capacity(),
            final(self).size == old(self).size,
            r is Some <==> old(self).is_ready(pid),
            r matches Some(t) ==> t == old(self).value_of(pid) && final(self).slots@ == old(
                self,
            ).slots@.update(pid.index as int, GrantSlot::Entered),
            r is None ==> final(self).slots@ == old(self).slots@,
    {
        if pid.index >= self.slots.len() {
            return None;
        }
        let mut taken = GrantSlot::Entered;
        core::mem::swap(&mut taken, &mut self.slots[pid.index]);
        match taken {
            GrantSlot::Ready(t) => Some(t),
            GrantSlot::Unallocated => {
                self.slots.set(pid.index, GrantSlot::Unallocated);
                proof {
                    assert(self.slots@ =~= old(self).slots@);
                }
                None
            },
            GrantSlot::Entered => {
                proof {
                    assert(self.slots@ =~= old(self).slots@);
                }
                None
            },
        }
    }

    /// Run `f` once for every process whose grant state is materialized and
    /// not currently on loan, in slot order — an order that is arbitrary
    /// but stable for a given boot. Slots never materialized are skipped;
    /// they are not errors.
    pub fn each<F: Fn(ProcessId, T) -> T>(&mut self, f: &F)
        requires
            forall|i: int, t: T|
                0 <= i < old(self).capacity() ==> #[trigger] call_requires(
                    *f,
                    (ProcessId { index: i as usize }, t),
                ),
        ensures
            final(self).capacity() == old(self).capacity(),
            final(self).size == old(self).size,
            forall|i: int|
                0 <= i < old(self).capacity() ==> ((#[trigger] old(self).slots@[i]) matches
                    GrantSlot::Ready(t) ==> (final(self).slots@[i] matches GrantSlot::Ready(t2)
                    && call_ensures(*f, (ProcessId { index: i as usize }, t), t2))),
            forall|i: int|
                0 <= i < old(self).capacity() && !((#[trigger] old(self).slots@[i]) is Ready)
                    ==> final(self).slots@[i] == old(self).slots@[i],
    {
        let n = self.slots.len();
        let mut i: usize = 0;
        while i < n
            invariant
                i <= n,
                n == old(self).capacity(),
                self.slots@.len() == n,
                self.size == old(self).size,
                forall|j: int, t: T|
                    0 <= j < n ==> #[trigger] call_requires(
                        *f,
                        (ProcessId { index: j as usize }, t),
                    ),
                forall|j: int|
                    0 <= j < i ==> ((#[trigger] old(self).slots@[j]) matches GrantSlot::Ready(t)
                        ==> (self.slots@[j] matches GrantSlot::Ready(t2) && call_ensures(
                        *f,
                        (ProcessId { index: j as usize }, t),
                        t2,
                    ))),
                forall|j: int|
                    0 <= j < i && !((#[trigger] old(self).slots@[j]) is Ready) ==> self.slots@[j]
                        == old(self).slots@[j],
                forall|j: int| i <= j < n ==> self.slots@[j] == old(self).slots@[j],
            decreases n - i,
        {
            let mut taken = GrantSlot::Entered;
            core::mem::swap(&mut taken, &mut self.slots[i]);
            match taken {
                GrantSlot::Ready(t) => {
                    let t2 = f(ProcessId { index: i }, t);
                    self.slots.set(i, GrantSlot::Ready(t2));
                },
                GrantSlot::Unallocated => {
                    self.slots.set(i, GrantSlot::Unallocated);
                },
                GrantSlot::Entered => {},
            }
            i = i + 1;
        }
    }
}

/// While a grant is entered for a process, any further entry for the same
/// process and capsule is owed the contention error — never a deadlock, and
/// never a second copy of the state. Together with the frame conditions of
/// [`Grant::enter_begin`] this pins the exclusivity of grant entry: at most
/// one borrow of a process's slot is ever out.
pub proof fn lemma_enter_exclusive<T: GrantDefault>(
    g: Grant<T>,
    procs: ProcessTable,
    pid: ProcessId,
)
    requires
        g.is_entered(pid),
        procs.has_process(pid),
        procs.process_of(pid).alive(),
    ensures
        g.enter_outcome(procs, pid) == Err::<T, GrantError>(GrantError::AlreadyEntered),
{
}

/// A process with less free memory than the grant's state costs is owed
/// the out-of-memory error on a first-use entry, and the failed entry
/// changes nothing about the process.
pub proof fn lemma_enter_out_of_memory<T: GrantDefault>(
    g: Grant<T>,
    procs: ProcessTable,
    pid: ProcessId,
)
    requires
        g.is_unallocated(pid),
        procs.has_process(pid),
        procs.process_of(pid).alive(),
        procs.process_of(pid).free_grant_bytes < g.size,
    ensures
        g.enter_outcome(procs, pid) == Err::<T, GrantError>(GrantError::OutOfMemory),
{
}

} // verus!

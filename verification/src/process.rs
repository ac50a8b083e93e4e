//! Processes: identity tokens, scheduling states and memory accounting.
//!
//! A process is one runtime instance of a loaded application. The kernel
//! owns every [`Process`] exclusively; capsules see only opaque
//! [`ProcessId`] tokens and brokered buffers. The scheduling state machine
//! is: `Running` moves to `YieldedWaiting` on a syscall that expects an
//! asynchronous callback; `YieldedWaiting` moves back to `Running` when the
//! scheduler selects the process again after a callback is pending; any
//! state moves to `Fault` on a protection violation, handled per-process by
//! its configurable fault policy; `Fault` and `Terminated` are terminal
//! until an explicit reload.

use vstd::prelude::*;

verus! {

use crate::caps::ProcessManagementCapability;

/// Opaque identity token for a process: an index into the kernel's process
/// table. Unforgeable from capsule code in spirit; capsules only ever
/// receive ids from the kernel.
#[derive(Clone, Copy, Debug, PartialEq, Eq, Structural)]
pub struct ProcessId {
    /// Index of the process in the kernel's process table.
    pub index: usize,
}

impl ProcessId {
    /// Wrap a table index as an identity token.
    pub fn new(index: usize) -> (r: ProcessId)
        ensures
            r.index == index,
    {
        ProcessId { index }
    }

    /// The table index of this process.
    pub fn idx(&self) -> (r: usize)
        ensures
            r == self.index,
    {
        self.index
    }
}

/// Scheduling state of a process.
#[derive(Clone, Copy, Debug, PartialEq, Eq, Structural)]
pub enum ProcessState {
    /// Selected by the scheduler; may issue syscalls.
    Running,
    /// Blocked on an asynchronous callback.
    YieldedWaiting,
    /// Stopped by a protection violation or illegal instruction.
    Fault,
    /// Stopped for good; terminal until explicit reload.
    Terminated,
}

/// What the kernel does with a process that faults.
#[derive(Clone, Copy, Debug, PartialEq, Eq, Structural)]
pub enum FaultPolicy {
    /// Restart the process from a fresh state.
    Restart,
    /// Stop the process unrecoverably.
    Stop,
}

/// Kernel-owned record of one process.
#[derive(Clone, Copy, Debug, PartialEq, Eq, Structural)]
pub struct Process {
    /// This process's identity.
    pub id: ProcessId,
    /// Current scheduling state.
    pub state: ProcessState,
    /// How the kernel responds when this process faults.
    pub fault_policy: FaultPolicy,
    /// Bytes of this process's own memory region still available for grant
    /// allocation. Grants are leases on process memory, never kernel heap.
    pub free_grant_bytes: usize,
    /// Base address of the process's memory region, for protection setup.
    pub mem_start: usize,
    /// Size of the memory region as a power-of-two exponent, for protection
    /// setup.
    pub mem_len_pow: usize,
    /// Callbacks queued for delivery on this process's next scheduling slot.
    pub pending_callbacks: usize,
}

impl Process {
    /// Whether the process can still interact with the kernel.
    pub open spec fn alive(&self) -> bool {
        self.state == ProcessState::Running || self.state == ProcessState::YieldedWaiting
    }

    /// Whether the process can still interact with the kernel.
    pub fn is_alive(&self) -> (r: bool)
        ensures
            r == self.alive(),
    {
        match self.state {
            ProcessState::Running | ProcessState::YieldedWaiting => true,
            _ => false,
        }
    }

    /// The process issued a syscall that completes through a callback: it
    /// now waits, off the run queue, until one is delivered.
    pub fn yield_for_callback(&mut self)
        requires
            old(self).state == ProcessState::Running,
        ensures
            final(self).state == ProcessState::YieldedWaiting,
            *final(self) == (Process { state: ProcessState::YieldedWaiting, ..*old(self) }),
    {
        self.state = ProcessState::YieldedWaiting;
    }

    /// The scheduler selects the process again: legal only once a callback
    /// is pending for it.
    pub fn resume(&mut self)
        requires
            old(self).state == ProcessState::YieldedWaiting,
            old(self).pending_callbacks > 0,
        ensures
            *final(self) == (Process { state: ProcessState::Running, ..*old(self) }),
    {
        self.state = ProcessState::Running;
    }

    /// A protection violation or illegal instruction was observed while this
    /// process ran; any state moves to `Fault`.
    pub fn fault(&mut self)
        ensures
            *final(self) == (Process { state: ProcessState::Fault, ..*old(self) }),
    {
        self.state = ProcessState::Fault;
    }

    /// Apply this process's fault policy: restart resets the process to a
    /// fresh runnable state with its whole memory region reclaimed; stop is
    /// terminal.
    pub fn handle_fault(&mut self, initial_free_bytes: usize)
        requires
            old(self).state == ProcessState::Fault,
        ensures
            old(self).fault_policy == FaultPolicy::Restart ==> *final(self) == (Process {
                state: ProcessState::Running,
                free_grant_bytes: initial_free_bytes,
                pending_callbacks: 0,
                ..*old(self)
            }),
            old(self).fault_policy == FaultPolicy::Stop ==> *final(self) == (Process {
                state: ProcessState::Terminated,
                ..*old(self)
            }),
    {
        match self.fault_policy {
            FaultPolicy::Restart => {
                self.state = ProcessState::Running;
                self.free_grant_bytes = initial_free_bytes;
                self.pending_callbacks = 0;
            },
            FaultPolicy::Stop => {
                self.state = ProcessState::Terminated;
            },
        }
    }

    /// Record one queued callback for this process.
    pub fn enqueue_callback(&mut self)
        requires
            old(self).pending_callbacks < usize::MAX,
        ensures
            *final(self) == (Process {
                pending_callbacks: (old(self).pending_callbacks + 1) as usize,
                ..*old(self)
            }),
    {
        self.pending_callbacks = self.pending_callbacks + 1;
    }

    /// Record one delivered callback.
    pub fn dequeue_callback(&mut self)
        requires
            old(self).pending_callbacks > 0,
        ensures
            *final(self) == (Process {
                pending_callbacks: (old(self).pending_callbacks - 1) as usize,
                ..*old(self)
            }),
    {
        self.pending_callbacks = self.pending_callbacks - 1;
    }
}

/// The kernel's table of processes: a fixed number of slots, each either
/// empty or holding the process whose id names that slot.
pub struct ProcessTable {
    /// The slots; `slots[i]` is `None` or a process with id `i`.
    pub slots: Vec<Option<Process>>,
}

impl ProcessTable {
    /// Every occupied slot holds the process named after it.
    pub open spec fn wf(&self) -> bool {
        forall|i: int|
            0 <= i < self.slots@.len() ==> ((#[trigger] self.slots@[i]) matches Some(p)
                ==> p.id.index == i)
    }

    /// Number of slots, fixed at construction.
    pub open spec fn capacity(&self) -> int {
        self.slots@.len() as int
    }

    /// Whether `pid` names an occupied slot.
    pub open spec fn has_process(&self, pid: ProcessId) -> bool {
        0 <= pid.index < self.slots@.len() && self.slots@[pid.index as int] is Some
    }

    /// The process in `pid`'s slot.
    pub open spec fn process_of(&self, pid: ProcessId) -> Process
        recommends
            self.has_process(pid),
    {
        self.slots@[pid.index as int]->Some_0
    }

    /// An empty table with `capacity` slots.
    pub fn new(capacity: usize) -> (r: ProcessTable)
        ensures
            r.wf(),
            r.capacity() == capacity,
            forall|i: int| 0 <= i < capacity ==> (#[trigger] r.slots@[i]) is None,
    {
        let mut slots: Vec<Option<Process>> = Vec::new();
        let mut i: usize = 0;
        while i < capacity
            invariant
                i <= capacity,
                slots@.len() == i,
                forall|j: int| 0 <= j < i ==> (#[trigger] slots@[j]) is None,
            decreases capacity - i,
        {
            slots.push(None);
            i = i + 1;
        }
        ProcessTable { slots }
    }

    /// Load a process into the first free slot. Creating processes is
    /// privileged, so the caller must present the process-management
    /// capability.
    pub fn load_process(
        &mut self,
        _cap: &ProcessManagementCapability,
        fault_policy: FaultPolicy,
        free_grant_bytes: usize,
        mem_start: usize,
        mem_len_pow: usize,
    ) -> (r: Option<ProcessId>)
        requires
            old(self).wf(),
        ensures
            final(self).wf(),
            final(self).capacity() == old(self).capacity(),
            r matches Some(pid) ==> {
                &&& 0 <= pid.index < old(self).capacity()
                &&& old(self).slots@[pid.index as int] is None
                &&& final(self).has_process(pid)
                &&& final(self).process_of(pid) == (Process {
                    id: pid,
                    state: ProcessState::Running,
                    fault_policy,
                    free_grant_bytes,
                    mem_start,
                    mem_len_pow,
                    pending_callbacks: 0,
                })
                &&& forall|i: int|
                    0 <= i < old(self).capacity() && i != pid.index
                        ==> final(self).slots@[i] == old(self).slots@[i]
            },
            r is None ==> *final(self) == *old(self) && (forall|i: int|
                0 <= i < old(self).capacity() ==> (#[trigger] old(self).slots@[i]) is Some),
    {
        let n = self.slots.len();
        let mut i: usize = 0;
        while i < n
            invariant
                self == old(self),
                old(self).wf(),
                n == self.slots@.len(),
                i <= n,
                forall|j: int| 0 <= j < i ==> (#[trigger] self.slots@[j]) is Some,
            decreases n - i,
        {
            if self.slots[i].is_none() {
                let p = Process {
                    id: ProcessId { index: i },
                    state: ProcessState::Running,
                    fault_policy,
                    free_grant_bytes,
                    mem_start,
                    mem_len_pow,
                    pending_callbacks: 0,
                };
                self.slots.set(i, Some(p));
                proof {
                    assert forall|j: int|
                        0 <= j < self.slots@.len() && (#[trigger] self.slots@[j]) is Some implies (
                    self.slots@[j]->Some_0).id.index == j by {
                        if j == i as int {
                            assert(self.slots@[j] == Some(p));
                        } else {
                            assert(self.slots@[j] == old(self).slots@[j]);
                            assert((old(self).slots@[j] matches Some(q) ==> q.id.index == j));
                        }
                    }
                }
                return Some(ProcessId { index: i });
            }
            i = i + 1;
        }
        None
    }

    /// Deduct `size` bytes from `pid`'s free grant memory if it has that
    /// much; report whether the reservation succeeded.
    pub fn allocate_grant_memory(&mut self, pid: ProcessId, size: usize) -> (r: bool)
        requires
            old(self).wf(),
            old(self).has_process(pid),
        ensures
            final(self).wf(),
            final(self).capacity() == old(self).capacity(),
            r == (old(self).process_of(pid).free_grant_bytes >= size),
            r ==> final(self).slots@ == old(self).slots@.update(
                pid.index as int,
                Some(
                    Process {
                        free_grant_bytes: (old(self).process_of(pid).free_grant_bytes
                            - size) as usize,
                        ..old(self).process_of(pid)
                    },
                ),
            ),
            !r ==> *final(self) == *old(self),
    {
        let p = match &self.slots[pid.index] {
            Some(p) => *p,
            None => { return false },
        };
        if p.free_grant_bytes >= size {
            let updated = Process { free_grant_bytes: p.free_grant_bytes - size, ..p };
            self.slots.set(pid.index, Some(updated));
            true
        } else {
            false
        }
    }

    /// Read the process in `pid`'s slot, if the id is current.
    pub fn get(&self, pid: ProcessId) -> (r: Option<&Process>)
        ensures
            r matches Some(p) ==> self.has_process(pid) && *p == self.process_of(pid),
            r is None ==> !self.has_process(pid),
    {
        if pid.index < self.slots.len() {
            match &self.slots[pid.index] {
                Some(p) => Some(p),
                None => None,
            }
        } else {
            None
        }
    }
}

} // verus!

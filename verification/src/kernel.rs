//! The kernel dispatcher: syscall routing, the process-facing state
//! machine, protection setup and the idle-time deferred-call scan.
//!
//! The dispatcher never touches capsule internals. It only looks up the
//! capsule for a driver number through the board's [`Platform`], forwards
//! the three protocol verbs to it, arranges protection-region updates when
//! a process's footprint changes, and, when no process is runnable, takes
//! one deferred-call scan pass and runs the fired clients. The real event
//! loop — fetching syscalls from the hardware trap frame, sleeping the core
//! — lives outside; it feeds events in through [`kernel_step`], which is a
//! pure state-and-event to state-and-answer function.

use vstd::prelude::*;

verus! {

use crate::caps::{MainLoopCapability, MemoryAllocationCapability, ProcessManagementCapability};
use crate::deferred_call::{DeferredCallClient, DeferredCallHandle, DynamicDeferredCall};
use crate::driver::{Callback, CommandReturn, SharedBuffer};
use crate::grant::Grant;
use crate::mpu::{AccessPermission, ExecutePermission, Region, MPU};
use crate::process::{FaultPolicy, Process, ProcessId, ProcessState, ProcessTable};
use crate::returncode::ErrorCode;

/// A board's mapping from driver numbers to its capsules. Dispatch is by
/// value through the board type, so the set of drivers is closed at
/// compile time; an unsupported number is answered with the no-device
/// failure and must leave everything unchanged.
pub trait Platform: Sized {
    /// Which driver numbers this board serves.
    spec fn spec_supports_driver(&self, driver_num: usize) -> bool;

    /// Forward a command to the capsule registered under `driver_num`.
    fn dispatch_command(
        &mut self,
        driver_num: usize,
        command_num: usize,
        arg0: usize,
        arg1: usize,
        caller: ProcessId,
        procs: &mut ProcessTable,
    ) -> (r: CommandReturn)
        requires
            old(procs).wf(),
        ensures
            final(procs).wf(),
            final(procs).capacity() == old(procs).capacity(),
            !old(self).spec_supports_driver(driver_num) ==> r == CommandReturn::Failure(
                ErrorCode::NODEVICE,
            ) && *final(self) == *old(self) && final(procs).slots@ == old(procs).slots@,
    ;

    /// Forward a buffer share to the capsule registered under `driver_num`.
    fn dispatch_allow(
        &mut self,
        driver_num: usize,
        caller: ProcessId,
        which: usize,
        slice: SharedBuffer,
        procs: &mut ProcessTable,
    ) -> (r: Result<SharedBuffer, (SharedBuffer, ErrorCode)>)
        requires
            old(procs).wf(),
        ensures
            final(procs).wf(),
            final(procs).capacity() == old(procs).capacity(),
            !old(self).spec_supports_driver(driver_num) ==> r == Err::<
                SharedBuffer,
                (SharedBuffer, ErrorCode),
            >((slice, ErrorCode::NODEVICE)) && *final(self) == *old(self) && final(procs).slots@
                == old(procs).slots@,
    ;

    /// Forward a callback registration to the capsule registered under
    /// `driver_num`.
    fn dispatch_subscribe(
        &mut self,
        driver_num: usize,
        subscribe_num: usize,
        callback: Callback,
        procs: &mut ProcessTable,
    ) -> (r: Result<Callback, (Callback, ErrorCode)>)
        requires
            old(procs).wf(),
        ensures
            final(procs).wf(),
            final(procs).capacity() == old(procs).capacity(),
            !old(self).spec_supports_driver(driver_num) ==> r == Err::<
                Callback,
                (Callback, ErrorCode),
            >((callback, ErrorCode::NODEVICE)) && *final(self) == *old(self) && final(procs).slots@
                == old(procs).slots@,
    ;
}

/// One syscall as decoded from a process's trap frame.
pub enum Syscall {
    /// Trigger an action on a capsule.
    Command {
        /// Target capsule.
        driver_num: usize,
        /// Operation within the capsule.
        command_num: usize,
        /// First argument word.
        arg0: usize,
        /// Second argument word.
        arg1: usize,
    },
    /// Share (or reclaim) a buffer with a capsule.
    Allow {
        /// Target capsule.
        driver_num: usize,
        /// Buffer id within the capsule.
        buffer_num: usize,
        /// The offered buffer capability.
        buffer: SharedBuffer,
    },
    /// Register a completion callback with a capsule.
    Subscribe {
        /// Target capsule.
        driver_num: usize,
        /// Subscription id within the capsule.
        subscribe_num: usize,
        /// The offered callback.
        callback: Callback,
    },
    /// Give up the processor until a callback is delivered.
    Yield,
}

/// What the dispatcher hands back for one syscall, to be written into the
/// process's trap frame.
pub enum SyscallResult {
    /// Answer of a command.
    Command(CommandReturn),
    /// Answer of an allow: the previous buffer, or the offer returned with
    /// an error.
    Allow(Result<SharedBuffer, (SharedBuffer, ErrorCode)>),
    /// Answer of a subscribe: the previous callback, or the offer returned
    /// with an error.
    Subscribe(Result<Callback, (Callback, ErrorCode)>),
    /// The process yielded.
    Yielded,
}

/// The kernel context: the process table and the deferred-call registry,
/// constructed once at startup and threaded explicitly through the board.
pub struct Kernel {
    /// All processes.
    pub processes: ProcessTable,
    /// The deferred-call registry.
    pub deferred_calls: DynamicDeferredCall,
}

impl Kernel {
    /// The kernel context is well-formed.
    pub open spec fn wf(&self) -> bool {
        self.processes.wf() && self.deferred_calls.wf()
    }

    /// A fresh kernel for `num_processes` process slots and up to
    /// `num_deferred_clients` deferred-call clients.
    pub fn new(num_processes: usize, num_deferred_clients: usize) -> (r: Kernel)
        ensures
            r.wf(),
            r.processes.capacity() == num_processes,
            r.deferred_calls.capacity() == num_deferred_clients,
            r.deferred_calls.registered == 0,
            forall|i: int| 0 <= i < num_processes ==> (#[trigger] r.processes.slots@[i]) is None,
    {
        Kernel {
            processes: ProcessTable::new(num_processes),
            deferred_calls: DynamicDeferredCall::new(num_deferred_clients),
        }
    }

    /// Reserve a grant: one `T` of capsule-private state per process slot,
    /// costing `size` bytes of the owning process's memory once
    /// materialized. Privileged by the memory-allocation capability.
    pub fn create_grant<T>(&self, cap: &MemoryAllocationCapability, size: usize) -> (r: Grant<T>)
        ensures
            r.capacity() == self.processes.capacity(),
            r.size == size,
            forall|i: int|
                0 <= i < r.capacity() ==> (#[trigger] r.slots@[i]) is Unallocated,
    {
        Grant::new(cap, self.processes.slots.len(), size)
    }

    /// Load a process into the first free slot; privileged by the
    /// process-management capability.
    pub fn load_process(
        &mut self,
        cap: &ProcessManagementCapability,
        fault_policy: FaultPolicy,
        free_grant_bytes: usize,
        mem_start: usize,
        mem_len_pow: usize,
    ) -> (r: Option<ProcessId>)
        requires
            old(self).wf(),
        ensures
            final(self).wf(),
            final(self).deferred_calls == old(self).deferred_calls,
            final(self).processes.capacity() == old(self).processes.capacity(),
            r matches Some(pid) ==> (final(self).processes.has_process(pid)
                && final(self).processes.process_of(pid).state == ProcessState::Running),
    {
        self.processes.load_process(cap, fault_policy, free_grant_bytes, mem_start, mem_len_pow)
    }
}

/// Install the protection regions for `pid` before it runs: its own memory
/// region becomes accessible without execute restriction, and when the
/// request cannot be represented — or the process is gone — the hardware
/// slot is loaded with the empty, no-access region, the safe default,
/// instead. Returns the region that was installed.
pub fn configure_process_protection<M: MPU>(
    mpu: &M,
    procs: &ProcessTable,
    pid: ProcessId,
) -> (r: Region)
    ensures
        procs.has_process(pid) ==> r == (match M::spec_create_region(
            0,
            procs.process_of(pid).mem_start as int,
            procs.process_of(pid).mem_len_pow as int,
            ExecutePermission::ExecutionPermitted,
            AccessPermission::ReadWrite,
        ) {
            Some(region) => region,
            None => Region {
                base_address: crate::mpu::empty_region_base(0),
                attributes: 0,
            },
        }),
        !procs.has_process(pid) ==> r == (Region {
            base_address: crate::mpu::empty_region_base(0),
            attributes: 0,
        }),
{
    let region = match procs.get(pid) {
        Some(p) => M::create_region(
            0,
            p.mem_start,
            p.mem_len_pow,
            ExecutePermission::ExecutionPermitted,
            AccessPermission::ReadWrite,
        ),
        None => None,
    };
    let install = match region {
        Some(r) => r,
        None => Region::empty(0),
    };
    mpu.set_mpu(install);
    install
}

/// Route one syscall from `caller` to the board's capsules. A `Yield` from
/// a running process parks it until a callback arrives; everything else is
/// forwarded verb-for-verb, and the answer comes back unchanged.
pub fn handle_syscall<P: Platform>(
    platform: &mut P,
    procs: &mut ProcessTable,
    caller: ProcessId,
    syscall: Syscall,
) -> (r: SyscallResult)
    requires
        old(procs).wf(),
    ensures
        final(procs).wf(),
        final(procs).capacity() == old(procs).capacity(),
        (syscall is Command ==> r is Command),
        (syscall is Allow ==> r is Allow),
        (syscall is Subscribe ==> r is Subscribe),
        (syscall is Yield ==> r is Yielded),
        (syscall matches Syscall::Command { driver_num, .. } ==> (!old(
            platform,
        ).spec_supports_driver(driver_num) ==> r == SyscallResult::Command(
            CommandReturn::Failure(ErrorCode::NODEVICE),
        ) && *final(platform) == *old(platform) && final(procs).slots@ == old(procs).slots@)),
        (syscall matches Syscall::Allow { driver_num, buffer_num, buffer } ==> (!old(
            platform,
        ).spec_supports_driver(driver_num) ==> r == SyscallResult::Allow(
            Err((buffer, ErrorCode::NODEVICE)),
        ) && *final(platform) == *old(platform) && final(procs).slots@ == old(procs).slots@)),
        (syscall matches Syscall::Subscribe { driver_num, subscribe_num, callback } ==> (!old(
            platform,
        ).spec_supports_driver(driver_num) ==> r == SyscallResult::Subscribe(
            Err((callback, ErrorCode::NODEVICE)),
        ) && *final(platform) == *old(platform) && final(procs).slots@ == old(procs).slots@)),
        (syscall is Yield && old(procs).has_process(caller) && old(procs).process_of(caller).state
            == ProcessState::Running) ==> (final(procs).has_process(caller)
            && final(procs).process_of(caller) == (Process {
            state: ProcessState::YieldedWaiting,
            ..old(procs).process_of(caller)
        })),
        syscall is Yield && !(old(procs).has_process(caller) && old(procs).process_of(
            caller,
        ).state == ProcessState::Running) ==> final(procs).slots@ == old(procs).slots@,
{
    match syscall {
        Syscall::Command { driver_num, command_num, arg0, arg1 } => {
            SyscallResult::Command(
                platform.dispatch_command(driver_num, command_num, arg0, arg1, caller, procs),
            )
        },
        Syscall::Allow { driver_num, buffer_num, buffer } => {
            SyscallResult::Allow(
                platform.dispatch_allow(driver_num, caller, buffer_num, buffer, procs),
            )
        },
        Syscall::Subscribe { driver_num, subscribe_num, callback } => {
            SyscallResult::Subscribe(
                platform.dispatch_subscribe(driver_num, subscribe_num, callback, procs),
            )
        },
        Syscall::Yield => {
            let can_yield = match procs.get(caller) {
                Some(p) => p.state == ProcessState::Running,
                None => false,
            };
            if can_yield {
                if caller.index < procs.slots.len() {
                    let p = match &procs.slots[caller.index] {
                        Some(p) => Some(*p),
                        None => None,
                    };
                    if let Some(mut proc) = p {
                        proc.yield_for_callback();
                        procs.slots.set(caller.index, Some(proc));
                    }
                }
            }
            SyscallResult::Yielded
        },
    }
}

/// Take one idle-time scan pass over the deferred-call registry and run
/// every fired client callback, in slot order. Flags were all cleared
/// before the first client runs, so re-arms land in the next pass. Returns
/// the handles that fired.
pub fn service_deferred_calls<C: DeferredCallClient>(
    dc: &mut DynamicDeferredCall,
    client: &mut C,
) -> (fired: Vec<DeferredCallHandle>)
    requires
        old(dc).wf(),
    ensures
        final(dc).wf(),
        final(dc).capacity() == old(dc).capacity(),
        final(dc).registered == old(dc).registered,
        fired@ == old(dc).scan_result(),
{
    let fired = dc.scan_pass();
    let n = fired.len();
    let mut k: usize = 0;
    while k < n
        invariant
            k <= n,
            n == fired@.len(),
            dc.wf(),
            dc.capacity() == old(dc).capacity(),
            dc.registered == old(dc).registered,
            forall|j: int| 0 <= j < n ==> old(dc).valid_handle(#[trigger] fired@[j]),
        decreases n - k,
    {
        client.call(fired[k], dc);
        k = k + 1;
    }
    fired
}

/// Enter the kernel's main dispatch loop logic for one event. The real
/// loop around it performs the hardware work — trapping into a process,
/// sleeping the core — and feeds what happened back in. Entry to the loop
/// is privileged by the main-loop capability.
pub enum KernelEvent {
    /// A process issued a syscall.
    ProcessSyscall {
        /// The calling process.
        caller: ProcessId,
        /// The decoded syscall.
        syscall: Syscall,
    },
    /// A process faulted on a protection violation or illegal instruction.
    ProcessFault {
        /// The faulting process, and
        caller: ProcessId,
        /// the memory its restart would start over with.
        initial_free_bytes: usize,
    },
    /// Nothing is runnable; the core is about to idle.
    Idle,
}

/// The dispatcher's answer for one event.
pub enum KernelStepResult {
    /// The syscall's answer, to be delivered to the process.
    Syscall(SyscallResult),
    /// The fault was handled by the process's fault policy.
    FaultHandled,
    /// The idle pass ran these deferred calls.
    Idled(Vec<DeferredCallHandle>),
}

/// One turn of the kernel dispatch loop: route a syscall, apply a fault
/// policy, or — when idle — scan and run deferred calls. The kernel itself
/// never blocks in here and never recurses into process execution.
pub fn kernel_step<P: Platform, C: DeferredCallClient>(
    _cap: &MainLoopCapability,
    kernel: &mut Kernel,
    platform: &mut P,
    client: &mut C,
    event: KernelEvent,
) -> (r: KernelStepResult)
    requires
        old(kernel).wf(),
    ensures
        final(kernel).wf(),
        final(kernel).processes.capacity() == old(kernel).processes.capacity(),
        final(kernel).deferred_calls.capacity() == old(kernel).deferred_calls.capacity(),
        (event is ProcessSyscall ==> r is Syscall),
        (event is ProcessFault ==> r is FaultHandled),
        (event matches KernelEvent::ProcessFault { caller, initial_free_bytes } ==> {
            &&& (old(kernel).processes.has_process(caller) ==> (final(kernel).processes.has_process(caller) && {
                let p = old(kernel).processes.process_of(caller);
                &&& (p.fault_policy == FaultPolicy::Restart ==> final(kernel).processes.process_of(caller) == (Process {
                    state: ProcessState::Running,
                    free_grant_bytes: initial_free_bytes,
                    pending_callbacks: 0,
                    ..p
                }))
                &&& (p.fault_policy == FaultPolicy::Stop ==> final(kernel).processes.process_of(caller) == (Process {
                    state: ProcessState::Terminated,
                    ..p
                }))
            }))
            &&& (!old(kernel).processes.has_process(caller) ==> final(kernel).processes.slots@
                == old(kernel).processes.slots@)
            &&& final(kernel).deferred_calls == old(kernel).deferred_calls
        }),
        (event matches KernelEvent::ProcessSyscall { caller, syscall } ==> (syscall matches
        Syscall::Command { driver_num, .. } ==> (!old(platform).spec_supports_driver(driver_num)
            ==> r == KernelStepResult::Syscall(
            SyscallResult::Command(CommandReturn::Failure(ErrorCode::NODEVICE)),
        ) && *final(platform) == *old(platform)))),
        (event is Idle ==> (r matches KernelStepResult::Idled(fired) && fired@ == old(
            kernel,
        ).deferred_calls.scan_result())),
{
    match event {
        KernelEvent::ProcessSyscall { caller, syscall } => {
            KernelStepResult::Syscall(
                handle_syscall(platform, &mut kernel.processes, caller, syscall),
            )
        },
        KernelEvent::ProcessFault { caller, initial_free_bytes } => {
            if caller.index < kernel.processes.slots.len() {
                let p = match &kernel.processes.slots[caller.index] {
                    Some(p) => Some(*p),
                    None => None,
                };
                if let Some(mut proc) = p {
                    proc.fault();
                    proc.handle_fault(initial_free_bytes);
                    kernel.processes.slots.set(caller.index, Some(proc));
                }
            }
            KernelStepResult::FaultHandled
        },
        KernelEvent::Idle => {
            KernelStepResult::Idled(service_deferred_calls(&mut kernel.deferred_calls, client))
        },
    }
}

} // verus!

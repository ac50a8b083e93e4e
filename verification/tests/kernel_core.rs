//! Tests of the kernel core: grants, deferred calls, processes and the
//! memory-protection abstraction.

use kernel_core::caps::create_boot_capabilities;
use kernel_core::deferred_call::{DeferredCallClient, DeferredCallHandle, DynamicDeferredCall};
use kernel_core::grant::{Grant, GrantError};
use kernel_core::kernel::{service_deferred_calls, Kernel, KernelEvent, KernelStepResult};
use kernel_core::mpu::{AccessPermission, ExecutePermission, HardwareMpu, Region, MPU};
use kernel_core::process::{FaultPolicy, ProcessId, ProcessState};
use kernel_core::returncode::{ErrorCode, ReturnCode};
use kernel_core::ros::App as RosApp;

fn kernel_with_process(free_bytes: usize) -> (Kernel, ProcessId) {
    let caps = create_boot_capabilities();
    let mut kernel = Kernel::new(4, 4);
    let pid = kernel
        .load_process(
            &caps.process_management,
            FaultPolicy::Restart,
            free_bytes,
            0x2000_0000,
            12,
        )
        .unwrap();
    (kernel, pid)
}

#[test]
fn grant_enter_is_exclusive() {
    let caps = create_boot_capabilities();
    let (mut kernel, pid) = kernel_with_process(1024);
    let mut grant: Grant<RosApp> = kernel.create_grant(&caps.memory_allocation, 16);

    let first = grant.enter_begin(&mut kernel.processes, pid);
    assert!(first.is_ok());
    // a second entry for the same process and capsule while the first is
    // live must fail with the contention error, not alias or deadlock
    let second = grant.enter_begin(&mut kernel.processes, pid);
    match second {
        Err(GrantError::AlreadyEntered) => {}
        _ => panic!("re-entrant grant entry must fail with the contention error"),
    }
    assert_eq!(
        GrantError::AlreadyEntered.into_return_code(),
        ReturnCode::EBUSY
    );
    // once the state is returned, entry works again
    grant.enter_end(pid, first.unwrap());
    assert!(grant.enter_begin(&mut kernel.processes, pid).is_ok());
}

#[test]
fn grant_enter_out_of_memory_leaves_process_alone() {
    let caps = create_boot_capabilities();
    let (mut kernel, pid) = kernel_with_process(0);
    let mut grant: Grant<RosApp> = kernel.create_grant(&caps.memory_allocation, 16);

    let r = grant.enter_begin(&mut kernel.processes, pid);
    match r {
        Err(GrantError::OutOfMemory) => {}
        _ => panic!("zero free process memory must surface as out-of-memory"),
    }
    // the process is unaffected
    let p = kernel.processes.get(pid).unwrap();
    assert_eq!(p.free_grant_bytes, 0);
    assert_eq!(p.state, ProcessState::Running);
    assert_eq!(
        GrantError::OutOfMemory.into_return_code(),
        ReturnCode::ENOMEM
    );
}

#[test]
fn grant_materializes_lazily_and_charges_the_process() {
    let caps = create_boot_capabilities();
    let (mut kernel, pid) = kernel_with_process(64);
    let mut grant: Grant<RosApp> = kernel.create_grant(&caps.memory_allocation, 16);

    let app = grant.enter_begin(&mut kernel.processes, pid).unwrap();
    assert!(app.mem_region.is_none());
    assert_eq!(kernel.processes.get(pid).unwrap().free_grant_bytes, 48);
    grant.enter_end(pid, app);
    // a second entry reuses the materialized state without paying again
    let app = grant.enter_begin(&mut kernel.processes, pid).unwrap();
    assert_eq!(kernel.processes.get(pid).unwrap().free_grant_bytes, 48);
    grant.enter_end(pid, app);
}

#[test]
fn grant_enter_dead_process_fails() {
    let caps = create_boot_capabilities();
    let mut kernel = Kernel::new(2, 0);
    let mut grant: Grant<RosApp> = kernel.create_grant(&caps.memory_allocation, 16);
    let r = grant.enter_begin(&mut kernel.processes, ProcessId::new(0));
    match r {
        Err(GrantError::NoSuchProcess) => {}
        _ => panic!("an empty slot must surface as a missing process"),
    }
}

#[test]
fn grant_closure_enter_runs_once() {
    let caps = create_boot_capabilities();
    let (mut kernel, pid) = kernel_with_process(1024);
    let mut grant: Grant<RosApp> = kernel.create_grant(&caps.memory_allocation, 16);

    let r = grant.enter(&mut kernel.processes, pid, |app: RosApp| (app, 7usize));
    assert_eq!(r.unwrap(), 7);
}

#[test]
fn grant_each_visits_only_materialized_state() {
    let caps = create_boot_capabilities();
    let mut kernel = Kernel::new(3, 0);
    let first = kernel
        .load_process(&caps.process_management, FaultPolicy::Restart, 256, 0, 12)
        .unwrap();
    let _second = kernel
        .load_process(&caps.process_management, FaultPolicy::Restart, 256, 0, 12)
        .unwrap();
    let mut grant: Grant<RosApp> = kernel.create_grant(&caps.memory_allocation, 16);
    // materialize only the first process's state
    let app = grant.enter_begin(&mut kernel.processes, first).unwrap();
    grant.enter_end(first, app);

    let visited = std::cell::Cell::new(0usize);
    grant.each(&|_pid, app: RosApp| {
        visited.set(visited.get() + 1);
        app
    });
    // the second process never materialized: it is skipped, not an error
    assert_eq!(visited.get(), 1);
}

#[test]
fn yield_parks_a_running_process() {
    let (mut kernel, pid) = kernel_with_process(256);
    let mut platform = dummy_board();
    let r = kernel_core::kernel::handle_syscall(
        &mut platform,
        &mut kernel.processes,
        pid,
        kernel_core::kernel::Syscall::Yield,
    );
    assert!(matches!(r, kernel_core::kernel::SyscallResult::Yielded));
    assert_eq!(
        kernel.processes.get(pid).unwrap().state,
        ProcessState::YieldedWaiting
    );
}

struct CountingClient {
    fired: Vec<usize>,
    rearm_once: bool,
}

impl DeferredCallClient for CountingClient {
    fn call(&mut self, handle: DeferredCallHandle, caller: &mut DynamicDeferredCall) {
        self.fired.push(handle.index);
        if self.rearm_once {
            self.rearm_once = false;
            // a client may legally re-arm itself from inside its callback
            caller.set(handle);
        }
    }
}

#[test]
fn deferred_call_fires_exactly_once_per_pass() {
    let mut dc = DynamicDeferredCall::new(4);
    let h0 = dc.register().unwrap();
    let h1 = dc.register().unwrap();
    dc.set(h0);
    dc.set(h1);
    let mut client = CountingClient {
        fired: Vec::new(),
        rearm_once: false,
    };
    let fired = service_deferred_calls(&mut dc, &mut client);
    assert_eq!(fired.len(), 2);
    assert_eq!(client.fired, vec![h0.index, h1.index]);
    assert!(!dc.has_pending());
    // a second pass with nothing set fires nothing
    let fired = service_deferred_calls(&mut dc, &mut client);
    assert_eq!(fired.len(), 0);
    assert_eq!(client.fired.len(), 2);
}

#[test]
fn deferred_call_rearm_fires_next_pass_not_same_pass() {
    let mut dc = DynamicDeferredCall::new(2);
    let h = dc.register().unwrap();
    dc.set(h);
    let mut client = CountingClient {
        fired: Vec::new(),
        rearm_once: true,
    };
    // the client re-arms itself inside its callback: the pass still fires
    // it exactly once, and the flag is pending again afterwards
    let fired = service_deferred_calls(&mut dc, &mut client);
    assert_eq!(fired.len(), 1);
    assert_eq!(client.fired, vec![h.index]);
    assert!(dc.has_pending());
    // the next idle pass delivers the re-armed call
    let fired = service_deferred_calls(&mut dc, &mut client);
    assert_eq!(fired.len(), 1);
    assert_eq!(client.fired, vec![h.index, h.index]);
    assert!(!dc.has_pending());
}

#[test]
fn deferred_call_registry_full() {
    let mut dc = DynamicDeferredCall::new(1);
    assert!(dc.register().is_some());
    assert!(dc.register().is_none());
}

#[test]
fn kernel_idle_step_scans_deferred_calls() {
    let caps = create_boot_capabilities();
    let mut kernel = Kernel::new(1, 2);
    let h = kernel.deferred_calls.register().unwrap();
    kernel.deferred_calls.set(h);
    let mut client = CountingClient {
        fired: Vec::new(),
        rearm_once: false,
    };
    let mut platform = dummy_board();
    let r = kernel_core::kernel::kernel_step(
        &caps.main_loop,
        &mut kernel,
        &mut platform,
        &mut client,
        KernelEvent::Idle,
    );
    match r {
        KernelStepResult::Idled(fired) => assert_eq!(fired.len(), 1),
        _ => panic!("an idle event must run the deferred-call scan"),
    }
    assert_eq!(client.fired, vec![h.index]);
}

fn dummy_board() -> kernel_core::board::Board {
    let caps = create_boot_capabilities();
    let kernel = Kernel::new(1, 1);
    let ble_grant = kernel.create_grant(&caps.memory_allocation, 64);
    let ros_grant = kernel.create_grant(&caps.memory_allocation, 16);
    kernel_core::board::Board::new(
        kernel_core::ble::BLE::new(ble_grant, [0u8; 39], 32768),
        kernel_core::ros::ROSDriver::new(ros_grant),
    )
}

#[test]
fn process_fault_policy_restart_and_stop() {
    let caps = create_boot_capabilities();
    let mut kernel = Kernel::new(2, 0);
    let restarting = kernel
        .load_process(&caps.process_management, FaultPolicy::Restart, 100, 0, 12)
        .unwrap();
    let stopping = kernel
        .load_process(&caps.process_management, FaultPolicy::Stop, 100, 0, 12)
        .unwrap();

    let mut platform = dummy_board();
    let mut client = CountingClient {
        fired: Vec::new(),
        rearm_once: false,
    };
    let r = kernel_core::kernel::kernel_step(
        &caps.main_loop,
        &mut kernel,
        &mut platform,
        &mut client,
        KernelEvent::ProcessFault {
            caller: restarting,
            initial_free_bytes: 100,
        },
    );
    assert!(matches!(r, KernelStepResult::FaultHandled));
    assert_eq!(
        kernel.processes.get(restarting).unwrap().state,
        ProcessState::Running
    );

    let r = kernel_core::kernel::kernel_step(
        &caps.main_loop,
        &mut kernel,
        &mut platform,
        &mut client,
        KernelEvent::ProcessFault {
            caller: stopping,
            initial_free_bytes: 100,
        },
    );
    assert!(matches!(r, KernelStepResult::FaultHandled));
    assert_eq!(
        kernel.processes.get(stopping).unwrap().state,
        ProcessState::Terminated
    );
}

#[test]
fn hardware_mpu_rejects_unrepresentable_regions() {
    // a representable region: slot 0, 4 KiB, aligned base
    let ok = HardwareMpu::create_region(
        0,
        0x2000_0000,
        12,
        ExecutePermission::ExecutionPermitted,
        AccessPermission::ReadWrite,
    );
    assert!(ok.is_some());
    let region = ok.unwrap();
    // validity bit and slot number in the base word
    assert_eq!(region.base_address(), 0x2000_0000 | (1 << 4));
    // enable bit and size field in the attribute word
    assert_eq!(region.attributes() & 1, 1);
    assert_eq!((region.attributes() >> 1) & 0x1F, 11);

    // misaligned base
    assert!(HardwareMpu::create_region(
        0,
        0x2000_0001,
        12,
        ExecutePermission::ExecutionPermitted,
        AccessPermission::ReadWrite,
    )
    .is_none());
    // size too small for the hardware
    assert!(HardwareMpu::create_region(
        0,
        0x2000_0000,
        2,
        ExecutePermission::ExecutionPermitted,
        AccessPermission::ReadWrite,
    )
    .is_none());
    // size exponent past the address space
    assert!(HardwareMpu::create_region(
        0,
        0x2000_0000,
        32,
        ExecutePermission::ExecutionPermitted,
        AccessPermission::ReadWrite,
    )
    .is_none());
    // no such slot
    assert!(HardwareMpu::create_region(
        8,
        0x2000_0000,
        12,
        ExecutePermission::ExecutionPermitted,
        AccessPermission::ReadWrite,
    )
    .is_none());
}

#[test]
fn noop_mpu_always_succeeds_with_unrestricted_map() {
    // the no-op implementation may never refuse, whatever the request
    let r = <() as MPU>::create_region(
        7,
        0x1234_5677,
        3,
        ExecutePermission::ExecutionNotPermitted,
        AccessPermission::NoAccess,
    );
    let region = r.expect("the no-op protection unit must always succeed");
    assert_eq!(region.base_address(), Region::empty(0).base_address());
    assert_eq!(region.attributes(), 0);
    ().enable_mpu();
    ().set_mpu(region);
}

#[test]
fn region_accessors_and_empty_encoding() {
    let r = Region::new(0xdead_0000, 0x17);
    assert_eq!(r.base_address(), 0xdead_0000);
    assert_eq!(r.attributes(), 0x17);
    let e = Region::empty(3);
    assert_eq!(e.base_address(), 3 | (1 << 4));
    assert_eq!(e.attributes(), 0);
}

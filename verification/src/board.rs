//! A reference board: the capsules this crate provides, wired to their
//! driver numbers.
//!
//! The board structure holds one of each syscall-facing capsule and maps
//! incoming driver numbers onto them, so the set of drivers is closed at
//! build time. Dispatch to a number no capsule answers to fails with the
//! no-device code and touches nothing.

use vstd::prelude::*;

verus! {

use crate::ble::BLE;
use crate::driver::{Callback, CommandReturn, Driver, SharedBuffer};
use crate::kernel::Platform;
use crate::process::{ProcessId, ProcessTable};
use crate::returncode::ErrorCode;
use crate::ros::ROSDriver;

/// The capsules of this board.
pub struct Board {
    /// The BLE advertising driver, under its driver number.
    pub ble: BLE,
    /// The read-only-state driver, under its driver number.
    pub ros: ROSDriver,
}

impl Board {
    /// Assemble the board from its capsules.
    pub fn new(ble: BLE, ros: ROSDriver) -> (r: Board)
        ensures
            r.ble == ble,
            r.ros == ros,
    {
        Board { ble, ros }
    }
}

impl Platform for Board {
    /// The driver numbers this board serves.
    open spec fn spec_supports_driver(&self, driver_num: usize) -> bool {
        driver_num == crate::ble::DRIVER_NUM || driver_num == crate::ros::DRIVER_NUM
    }

    fn dispatch_command(
        &mut self,
        driver_num: usize,
        command_num: usize,
        arg0: usize,
        arg1: usize,
        caller: ProcessId,
        procs: &mut ProcessTable,
    ) -> (r: CommandReturn)
        ensures
            driver_num == crate::ble::DRIVER_NUM ==> final(self).ros == old(self).ros,
            driver_num == crate::ros::DRIVER_NUM ==> final(self).ble == old(self).ble,
    {
        if driver_num == crate::ble::DRIVER_NUM {
            self.ble.command(command_num, arg0, arg1, caller, procs)
        } else if driver_num == crate::ros::DRIVER_NUM {
            self.ros.command(command_num, arg0, arg1, caller, procs)
        } else {
            CommandReturn::failure(ErrorCode::NODEVICE)
        }
    }

    fn dispatch_allow(
        &mut self,
        driver_num: usize,
        caller: ProcessId,
        which: usize,
        slice: SharedBuffer,
        procs: &mut ProcessTable,
    ) -> (r: Result<SharedBuffer, (SharedBuffer, ErrorCode)>)
        ensures
            driver_num == crate::ble::DRIVER_NUM ==> final(self).ros == old(self).ros,
            driver_num == crate::ros::DRIVER_NUM ==> final(self).ble == old(self).ble,
    {
        if driver_num == crate::ble::DRIVER_NUM {
            self.ble.allow_shared(caller, which, slice, procs)
        } else if driver_num == crate::ros::DRIVER_NUM {
            self.ros.allow_shared(caller, which, slice, procs)
        } else {
            Err((slice, ErrorCode::NODEVICE))
        }
    }

    fn dispatch_subscribe(
        &mut self,
        driver_num: usize,
        subscribe_num: usize,
        callback: Callback,
        procs: &mut ProcessTable,
    ) -> (r: Result<Callback, (Callback, ErrorCode)>)
        ensures
            driver_num == crate::ble::DRIVER_NUM ==> final(self).ros == old(self).ros,
            driver_num == crate::ros::DRIVER_NUM ==> final(self).ble == old(self).ble,
    {
        if driver_num == crate::ble::DRIVER_NUM {
            self.ble.subscribe(subscribe_num, callback, procs)
        } else if driver_num == crate::ros::DRIVER_NUM {
            self.ros.subscribe(subscribe_num, callback, procs)
        } else {
            Err((callback, ErrorCode::NODEVICE))
        }
    }
}

} // verus!

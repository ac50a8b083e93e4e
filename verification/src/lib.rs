//! Core of an embedded operating system kernel for microcontrollers without
//! an MMU: mutually distrusting user processes are isolated from each other
//! and from the kernel by memory-protection hardware, and all hardware access
//! is brokered by trusted driver modules ("capsules") behind a narrow
//! three-verb syscall surface (`command` / `allow` / `subscribe`).
//!
//! The crate is organised leaves-first:
//! - [`returncode`]: the closed, numerically stable result encodings that
//!   cross the kernel/process boundary.
//! - [`mpu`]: the platform-independent memory-protection-unit abstraction.
//! - [`caps`]: unforgeable zero-sized capability tokens for privileged
//!   operations.
//! - [`process`]: process identities, scheduling states and memory accounting.
//! - [`grant`]: the per-process, per-capsule isolated state allocator.
//! - [`deferred_call`]: software-triggered "soft interrupt" scheduling for
//!   bottom-half work.
//! - [`driver`]: the dispatch contract every userspace-facing capsule
//!   implements.
//! - [`kernel`]: the dispatcher that routes syscalls to capsules and runs the
//!   idle-time deferred-call scan.
//!
//! The remaining modules are clients of that core: the read-only-state
//! syscall driver ([`ros`]), the BLE advertising driver ([`ble`] with its
//! radio-facing types in [`ble_hil`]), a paravirtualized entropy device
//! ([`virtio_rng`]), a serial-over-USB device ([`cdc`]), a multimode radio
//! driver ([`radio_multimode`]), timer and BLE-stack interface types
//! ([`time`], [`rubble`]), a flash interface ([`flash`]), compression
//! contexts ([`sixlowpan`]), an interrupt-number table ([`nvic`]), and the
//! [`board`] that wires the capsules to their driver numbers.

use vstd::prelude::*;

pub mod returncode;
pub mod mpu;
pub mod caps;
pub mod process;
pub mod grant;
pub mod deferred_call;
pub mod driver;
pub mod kernel;
pub mod ros;
pub mod time;
pub mod rubble;
pub mod flash;
pub mod nvic;
pub mod ble;
pub mod ble_hil;
pub mod virtio_rng;
pub mod cdc;
pub mod sixlowpan;
pub mod board;
pub mod radio_multimode;

verus! {

} // verus!

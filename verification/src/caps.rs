//! Unforgeable capability tokens gating privileged kernel operations.
//!
//! A capability is a zero-sized marker type whose only constructor lives in
//! this module's single bootstrap function. Possession of a value proves the
//! holder was handed it, directly or indirectly, by trusted kernel
//! initialization code; the tokens are never serialized and never revoked.
//! Privileged entry points take the relevant token by reference, so the
//! privilege check is done entirely by the type system.

use vstd::prelude::*;

verus! {

/// Proof of the right to create, restart and terminate processes.
pub struct ProcessManagementCapability {
    sealed: (),
}

/// Proof of the right to allocate memory out of process regions, e.g. to
/// create grants.
pub struct MemoryAllocationCapability {
    sealed: (),
}

/// Proof of the right to enter the kernel's main scheduling loop.
pub struct MainLoopCapability {
    sealed: (),
}

/// The full set of privileges held by board-initialization code.
pub struct BootCapabilities {
    /// Process management privilege.
    pub process_management: ProcessManagementCapability,
    /// Memory allocation privilege.
    pub memory_allocation: MemoryAllocationCapability,
    /// Main loop privilege.
    pub main_loop: MainLoopCapability,
}

/// The designated bootstrap constructor: the one place capability tokens
/// come into existence. Board `main` calls this once at startup and threads
/// the tokens into the components that need them.
pub fn create_boot_capabilities() -> BootCapabilities {
    BootCapabilities {
        process_management: ProcessManagementCapability { sealed: () },
        memory_allocation: MemoryAllocationCapability { sealed: () },
        main_loop: MainLoopCapability { sealed: () },
    }
}

} // verus!

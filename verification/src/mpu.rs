//! Platform-independent interface to memory-protection hardware.
//!
//! The kernel consults an [`MPU`] implementation whenever a process's active
//! memory footprint changes: regions describe a base address and attribute
//! word in the layout used by ARMv7-M protection hardware (a region base
//! register with a validity bit and region number in the low bits, and an
//! attribute register holding enable, size, access and execute bits).
//!
//! Two implementations live here: [`HardwareMpu`] models an eight-region
//! unit with power-of-two sized, size-aligned regions and rejects every
//! request the hardware cannot represent, and the no-op implementation on
//! `()` for platforms without protection hardware, which always succeeds and
//! always hands back the default, unrestricted mapping. The no-op is a
//! bring-up escape hatch, not a security boundary.

use vstd::prelude::*;

verus! {

use vstd::arithmetic::power2::pow2;

/// Access permission of a protection region, as privileged/unprivileged
/// read-write capability pairs.
#[derive(Clone, Copy, Debug, PartialEq, Eq, Structural)]
pub enum AccessPermission {
    /// No access in either mode.
    NoAccess,
    /// Privileged read-write, unprivileged none.
    PrivilegedOnly,
    /// Privileged read-write, unprivileged read-only.
    UnprivilegedReadOnly,
    /// Read-write in both modes.
    ReadWrite,
    /// Reserved encoding with undefined behaviour; never installed.
    Reserved,
    /// Privileged read-only, unprivileged none.
    PrivilegedOnlyReadOnly,
    /// Read-only in both modes.
    ReadOnly,
    /// Alias of the read-only encoding.
    ReadOnlyAlais,
}

/// The three-bit hardware encoding of an [`AccessPermission`].
pub open spec fn access_permission_bits(ap: AccessPermission) -> u32 {
    match ap {
        AccessPermission::NoAccess => 0b000,
        AccessPermission::PrivilegedOnly => 0b001,
        AccessPermission::UnprivilegedReadOnly => 0b010,
        AccessPermission::ReadWrite => 0b011,
        AccessPermission::Reserved => 0b100,
        AccessPermission::PrivilegedOnlyReadOnly => 0b101,
        AccessPermission::ReadOnly => 0b110,
        AccessPermission::ReadOnlyAlais => 0b111,
    }
}

impl AccessPermission {
    /// The three-bit field value written into a region's attributes.
    pub fn bits(&self) -> (r: u32)
        ensures
            r == access_permission_bits(*self),
    {
        match *self {
            AccessPermission::NoAccess => 0b000,
            AccessPermission::PrivilegedOnly => 0b001,
            AccessPermission::UnprivilegedReadOnly => 0b010,
            AccessPermission::ReadWrite => 0b011,
            AccessPermission::Reserved => 0b100,
            AccessPermission::PrivilegedOnlyReadOnly => 0b101,
            AccessPermission::ReadOnly => 0b110,
            AccessPermission::ReadOnlyAlais => 0b111,
        }
    }
}

/// Whether instruction fetches from a region are allowed.
#[derive(Clone, Copy, Debug, PartialEq, Eq, Structural)]
pub enum ExecutePermission {
    /// Instruction fetches allowed.
    ExecutionPermitted,
    /// Instruction fetches forbidden (execute-never).
    ExecutionNotPermitted,
}

/// The one-bit execute-never encoding of an [`ExecutePermission`].
pub open spec fn execute_permission_bits(xp: ExecutePermission) -> u32 {
    match xp {
        ExecutePermission::ExecutionPermitted => 0b0,
        ExecutePermission::ExecutionNotPermitted => 0b1,
    }
}

impl ExecutePermission {
    /// The execute-never bit written into a region's attributes.
    pub fn bits(&self) -> (r: u32)
        ensures
            r == execute_permission_bits(*self),
    {
        match *self {
            ExecutePermission::ExecutionPermitted => 0b0,
            ExecutePermission::ExecutionNotPermitted => 0b1,
        }
    }
}

/// A hardware protection region: the raw base-address and attribute words
/// that are written into one numbered region slot.
#[derive(Clone, Copy, Debug, PartialEq, Eq, Structural)]
pub struct Region {
    /// Region base register value: base address bits, a validity bit and the
    /// region number in the low bits.
    pub base_address: u32,
    /// Region attribute register value: enable, size, access and execute
    /// fields.
    pub attributes: u32,
}

/// The base-register word for `region_num` marked valid, with no address
/// bits set: the disabled, safe-default mapping for that slot.
pub open spec fn empty_region_base(region_num: int) -> u32 {
    (region_num as u32) | (1u32 << 4)
}

impl Region {
    /// Build a region directly from raw hardware words.
    pub fn new(base_address: u32, attributes: u32) -> (r: Region)
        ensures
            r.base_address == base_address,
            r.attributes == attributes,
    {
        Region { base_address, attributes }
    }

    /// The safe default for a numbered slot when no mapping is needed: the
    /// slot is addressed (validity bit set) but all attributes are clear, so
    /// the region is disabled.
    pub fn empty(region_num: usize) -> (r: Region)
        ensures
            r.base_address == empty_region_base(region_num as int),
            r.attributes == 0,
    {
        Region { base_address: (region_num as u32) | (1u32 << 4), attributes: 0 }
    }

    /// The raw base-address word.
    pub fn base_address(&self) -> (r: u32)
        ensures
            r == self.base_address,
    {
        self.base_address
    }

    /// The raw attribute word.
    pub fn attributes(&self) -> (r: u32)
        ensures
            r == self.attributes,
    {
        self.attributes
    }
}

/// Interface to a platform's memory-protection unit.
///
/// `create_region` validates a request against what the hardware can
/// represent and returns `None` rather than ever producing an incorrect
/// region; `set_mpu` installs a previously created region, taking effect the
/// next time the corresponding process runs.
pub trait MPU {
    /// Activate protection, allowing privileged software access to the
    /// default memory map.
    fn enable_mpu(&self);

    /// What this hardware makes of a region request, as a specification:
    /// the region produced, or nothing where the request cannot be
    /// represented.
    spec fn spec_create_region(
        region_num: int,
        start: int,
        len: int,
        execute: ExecutePermission,
        access: AccessPermission,
    ) -> Option<Region>;

    /// Create a protection region for slot `region_num` covering
    /// `2^len` bytes starting at `start`, or `None` if the request cannot be
    /// represented by this hardware.
    fn create_region(
        region_num: usize,
        start: usize,
        len: usize,
        execute: ExecutePermission,
        access: AccessPermission,
    ) -> (r: Option<Region>)
        ensures
            r == Self::spec_create_region(
                region_num as int,
                start as int,
                len as int,
                execute,
                access,
            ),
    ;

    /// Install a previously created region into its hardware slot.
    fn set_mpu(&self, region: Region);
}

/// Number of region slots the modeled hardware provides.
pub const NUM_HARDWARE_REGIONS: usize = 8;

/// Smallest representable region: `2^5` = 32 bytes.
pub const MIN_REGION_POW: usize = 5;

/// Largest representable region exponent: `2^31` bytes.
pub const MAX_REGION_POW: usize = 31;

/// Whether the modeled hardware can represent a region of `2^len` bytes at
/// `start` in slot `region_num`: the slot must exist, the size must be a
/// representable power of two, the base must fit in the 32-bit address
/// space and be aligned to the region size.
pub open spec fn hardware_region_representable(region_num: int, start: int, len: int) -> bool {
    &&& 0 <= region_num < NUM_HARDWARE_REGIONS
    &&& MIN_REGION_POW <= len <= MAX_REGION_POW
    &&& 0 <= start <= u32::MAX
    &&& start % (pow2(len as nat) as int) == 0
}

/// The base-register word of a representable hardware region: the (aligned)
/// base address with the validity bit and the slot number in the low bits.
pub open spec fn hardware_region_base(region_num: int, start: int) -> u32 {
    (start as u32) | (1u32 << 4) | (region_num as u32)
}

/// The attribute word of a representable hardware region: enable bit, size
/// field `len - 1`, access permission and execute-never fields.
pub open spec fn hardware_region_attributes(
    len: int,
    execute: ExecutePermission,
    access: AccessPermission,
) -> u32 {
    1u32 | (((len - 1) as u32) << 1) | (access_permission_bits(access) << 24) | (
    execute_permission_bits(execute) << 28)
}

/// A memory-protection unit with eight numbered slots and power-of-two
/// sized, size-aligned regions, in the style of ARMv7-M protection hardware.
///
/// The model validates requests exactly; installing the produced words into
/// real registers is the surrounding platform's concern.
pub struct HardwareMpu {
    /// Whether `enable_mpu` has been observed; diagnostic only.
    pub enabled: bool,
}

impl MPU for HardwareMpu {
    fn enable_mpu(&self) {
    }

    /// Exactly the representable requests produce a region, with the
    /// hardware base and attribute words.
    open spec fn spec_create_region(
        region_num: int,
        start: int,
        len: int,
        execute: ExecutePermission,
        access: AccessPermission,
    ) -> Option<Region> {
        if hardware_region_representable(region_num, start, len) {
            Some(
                Region {
                    base_address: hardware_region_base(region_num, start),
                    attributes: hardware_region_attributes(len, execute, access),
                },
            )
        } else {
            None
        }
    }

    /// Validate and build a region, rejecting any size, alignment or slot
    /// the hardware cannot represent.
    fn create_region(
        region_num: usize,
        start: usize,
        len: usize,
        execute: ExecutePermission,
        access: AccessPermission,
    ) -> (r: Option<Region>)
        ensures
            r is Some <==> hardware_region_representable(
                region_num as int,
                start as int,
                len as int,
            ),
            r matches Some(region) ==> region.base_address == hardware_region_base(
                region_num as int,
                start as int,
            ) && region.attributes == hardware_region_attributes(len as int, execute, access),
    {
        if region_num >= NUM_HARDWARE_REGIONS {
            return None;
        }
        if len < MIN_REGION_POW || len > MAX_REGION_POW {
            return None;
        }
        if start > u32::MAX as usize {
            return None;
        }
        let size: u32 = 1u32 << (len as u32);
        proof {
            vstd::arithmetic::power2::lemma2_to64();
            vstd::bits::lemma_u32_shl_is_mul(1u32, len as u32);
        }
        if (start as u32) % size != 0 {
            return None;
        }
        let base: u32 = (start as u32) | (1u32 << 4) | (region_num as u32);
        let attributes: u32 = 1u32 | (((len - 1) as u32) << 1) | (access.bits() << 24) | (
        execute.bits() << 28);
        Some(Region { base_address: base, attributes })
    }

    fn set_mpu(&self, region: Region) {
    }
}

/// No-op implementation for platforms without protection hardware: every
/// request succeeds and yields the default, unrestricted mapping. This is a
/// bring-up escape hatch, not a security boundary.
impl MPU for () {
    fn enable_mpu(&self) {
    }

    /// Every request succeeds with the default, unrestricted mapping.
    open spec fn spec_create_region(
        _region_num: int,
        _start: int,
        _len: int,
        _execute: ExecutePermission,
        _access: AccessPermission,
    ) -> Option<Region> {
        Some(Region { base_address: empty_region_base(0), attributes: 0 })
    }

    /// Always succeed with the default, unrestricted mapping.
    fn create_region(
        _region_num: usize,
        _start: usize,
        _len: usize,
        _execute: ExecutePermission,
        _access: AccessPermission,
    ) -> (r: Option<Region>)
        ensures
            r matches Some(region) && region.base_address == empty_region_base(0)
                && region.attributes == 0,
    {
        Some(Region::empty(0))
    }

    fn set_mpu(&self, _region: Region) {
    }
}

} // verus!

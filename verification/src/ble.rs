//! Bluetooth Low Energy advertising driver.
//!
//! A syscall driver exposing the BLE advertising channel. Each process gets
//! a generated static device address and drives its own advertisements;
//! timing is handled here, but processes choose the advertising interval
//! and TX power. Data payloads are limited to 31 bytes, since the largest
//! advertising-channel protocol data unit (PDU) is 39 bytes on air and
//! carries a 2-byte header and a 6-byte address.
//!
//! The capsule is written radio-side-out: every decision — what to load
//! into the radio, which channel to hop to, when to re-arm the alarm — is
//! computed here, against owned state, and emitted as [`RadioAction`]
//! values that the surrounding board code performs on the hardware. The
//! syscall surface is the three-verb dispatch protocol; per-process state
//! lives in a grant.

use vstd::prelude::*;

verus! {

use crate::driver::{Callback, CommandReturn, Driver, SharedBuffer};
use crate::grant::{Grant, GrantDefault, GrantSlot};
use crate::process::{ProcessId, ProcessTable};
use crate::returncode::{ErrorCode, ReturnCode};

/// Syscall driver number.
pub const DRIVER_NUM: usize = 0x03_00_00;

/// Offset of the PDU-type header byte in a packet.
pub const PACKET_HDR_PDU: usize = 0;

/// Offset of the length header byte in a packet.
pub const PACKET_HDR_LEN: usize = 1;

/// First byte of the advertiser address in a packet.
pub const PACKET_ADDR_START: usize = 2;

/// Last byte of the advertiser address in a packet.
pub const PACKET_ADDR_END: usize = 7;

/// First byte of the payload in a packet.
pub const PACKET_PAYLOAD_START: usize = 8;

/// Size of a full advertising-channel packet buffer.
pub const PACKET_LENGTH: usize = 39;

/// On-air length of a scan request: scanner address plus advertiser
/// address.
pub const SCAN_REQ_LEN: u8 = 12;

/// Largest on-air length of an advertising indication.
pub const SCAN_IND_MAX_LEN: u8 = 37;

/// Length of a bare device address.
pub const DEVICE_ADDRESS_LEN: u8 = 6;

/// On-air length of a connect request.
pub const CONNECT_REQ_LEN: u8 = 34;

/// The fixed access address of the advertising channels.
pub const ACCESS_ADDRESS_ADV: u32 = 0x8e89bed6;

/// The CRC initialization value of the advertising channels.
pub const CRCINIT: u32 = 0x555555;

/// Number of packets the diagnostic log retains.
pub const NBR_PACKETS: usize = 20;

/// GAP data types that userspace may place in an advertisement payload;
/// only the types the userspace library knows are listed.
#[derive(Clone, Copy, Debug, PartialEq, Eq, Structural)]
pub enum BLEGapType {
    /// Advertising flags.
    Flags,
    /// Incomplete list of 16-bit service class ids.
    IncompleteList16BitServiceIDs,
    /// Complete list of 16-bit service class ids.
    CompleteList16BitServiceIDs,
    /// Incomplete list of 32-bit service class ids.
    IncompleteList32BitServiceIDs,
    /// Complete list of 32-bit service class ids.
    CompleteList32BitServiceIDs,
    /// Incomplete list of 128-bit service class ids.
    IncompleteList128BitServiceIDs,
    /// Complete list of 128-bit service class ids.
    CompleteList128BitServiceIDs,
    /// Shortened local name.
    ShortedLocalName,
    /// Complete local name.
    CompleteLocalName,
    /// TX power level.
    TxPowerLevel,
    /// Device id profile data.
    DeviceId,
    /// Slave connection interval range.
    SlaveConnectionIntervalRange,
    /// List of 16-bit service solicitation ids.
    List16BitSolicitationIDs,
    /// List of 128-bit service solicitation ids.
    List128BitSolicitationIDs,
    /// Service data.
    ServiceData,
    /// Appearance.
    Appearance,
    /// Advertising interval.
    AdvertisingInterval,
    /// Manufacturer specific data.
    ManufacturerSpecificData,
}

/// The on-air type byte of each GAP data type.
pub open spec fn gap_type_num(g: BLEGapType) -> u8 {
    match g {
        BLEGapType::Flags => 0x01,
        BLEGapType::IncompleteList16BitServiceIDs => 0x02,
        BLEGapType::CompleteList16BitServiceIDs => 0x03,
        BLEGapType::IncompleteList32BitServiceIDs => 0x04,
        BLEGapType::CompleteList32BitServiceIDs => 0x05,
        BLEGapType::IncompleteList128BitServiceIDs => 0x06,
        BLEGapType::CompleteList128BitServiceIDs => 0x07,
        BLEGapType::ShortedLocalName => 0x08,
        BLEGapType::CompleteLocalName => 0x09,
        BLEGapType::TxPowerLevel => 0x0A,
        BLEGapType::DeviceId => 0x10,
        BLEGapType::SlaveConnectionIntervalRange => 0x12,
        BLEGapType::List16BitSolicitationIDs => 0x14,
        BLEGapType::List128BitSolicitationIDs => 0x15,
        BLEGapType::ServiceData => 0x16,
        BLEGapType::Appearance => 0x19,
        BLEGapType::AdvertisingInterval => 0x1A,
        BLEGapType::ManufacturerSpecificData => 0xFF,
    }
}

impl BLEGapType {
    /// The on-air type byte.
    pub fn to_u8(&self) -> (r: u8)
        ensures
            r == gap_type_num(*self),
    {
        match *self {
            BLEGapType::Flags => 0x01,
            BLEGapType::IncompleteList16BitServiceIDs => 0x02,
            BLEGapType::CompleteList16BitServiceIDs => 0x03,
            BLEGapType::IncompleteList32BitServiceIDs => 0x04,
            BLEGapType::CompleteList32BitServiceIDs => 0x05,
            BLEGapType::IncompleteList128BitServiceIDs => 0x06,
            BLEGapType::CompleteList128BitServiceIDs => 0x07,
            BLEGapType::ShortedLocalName => 0x08,
            BLEGapType::CompleteLocalName => 0x09,
            BLEGapType::TxPowerLevel => 0x0A,
            BLEGapType::DeviceId => 0x10,
            BLEGapType::SlaveConnectionIntervalRange => 0x12,
            BLEGapType::List16BitSolicitationIDs => 0x14,
            BLEGapType::List128BitSolicitationIDs => 0x15,
            BLEGapType::ServiceData => 0x16,
            BLEGapType::Appearance => 0x19,
            BLEGapType::AdvertisingInterval => 0x1A,
            BLEGapType::ManufacturerSpecificData => 0xFF,
        }
    }
}

/// What an `allow` number selects: a GAP payload field, the passive-scan
/// buffer, or the advertisement buffer itself.
#[derive(Clone, Copy, Debug, PartialEq, Eq, Structural)]
pub enum AllowType {
    /// A GAP data field of the advertisement payload.
    BLEGap(BLEGapType),
    /// The passive-scanning receive buffer.
    PassiveScanning,
    /// The advertisement buffer.
    InitAdvertisementBuffer,
}

/// The `allow` number of each selectable buffer.
pub open spec fn allow_type_num(a: AllowType) -> int {
    match a {
        AllowType::BLEGap(g) => gap_type_num(g) as int,
        AllowType::PassiveScanning => 0x31,
        AllowType::InitAdvertisementBuffer => 0x32,
    }
}

impl AllowType {
    /// Decode an `allow` number; `None` for numbers no buffer answers to.
    pub fn from_usize(n: usize) -> (r: Option<AllowType>)
        ensures
            r matches Some(a) ==> allow_type_num(a) == n as int,
            r is None ==> !exists|a: AllowType| allow_type_num(a) == n as int,
            r == Self::from_usize_spec(n),
    {
        match n {
            0x01 => Some(AllowType::BLEGap(BLEGapType::Flags)),
            0x02 => Some(AllowType::BLEGap(BLEGapType::IncompleteList16BitServiceIDs)),
            0x03 => Some(AllowType::BLEGap(BLEGapType::CompleteList16BitServiceIDs)),
            0x04 => Some(AllowType::BLEGap(BLEGapType::IncompleteList32BitServiceIDs)),
            0x05 => Some(AllowType::BLEGap(BLEGapType::CompleteList32BitServiceIDs)),
            0x06 => Some(AllowType::BLEGap(BLEGapType::IncompleteList128BitServiceIDs)),
            0x07 => Some(AllowType::BLEGap(BLEGapType::CompleteList128BitServiceIDs)),
            0x08 => Some(AllowType::BLEGap(BLEGapType::ShortedLocalName)),
            0x09 => Some(AllowType::BLEGap(BLEGapType::CompleteLocalName)),
            0x0A => Some(AllowType::BLEGap(BLEGapType::TxPowerLevel)),
            0x10 => Some(AllowType::BLEGap(BLEGapType::DeviceId)),
            0x12 => Some(AllowType::BLEGap(BLEGapType::SlaveConnectionIntervalRange)),
            0x14 => Some(AllowType::BLEGap(BLEGapType::List16BitSolicitationIDs)),
            0x15 => Some(AllowType::BLEGap(BLEGapType::List128BitSolicitationIDs)),
            0x16 => Some(AllowType::BLEGap(BLEGapType::ServiceData)),
            0x19 => Some(AllowType::BLEGap(BLEGapType::Appearance)),
            0x1A => Some(AllowType::BLEGap(BLEGapType::AdvertisingInterval)),
            0x31 => Some(AllowType::PassiveScanning),
            0x32 => Some(AllowType::InitAdvertisementBuffer),
            0xFF => Some(AllowType::BLEGap(BLEGapType::ManufacturerSpecificData)),
            _ => {
                proof {
                    assert forall|a: AllowType| allow_type_num(a) != n as int by {
                        match a {
                            AllowType::BLEGap(g) => {},
                            _ => {},
                        }
                    }
                }
                None
            },
        }
    }
}

/// Link-layer connection parameters carried by a connect request.
#[verifier::ext_equal]
#[derive(Clone, Copy, Debug, PartialEq, Eq)]
pub struct LLData {
    /// Access address of the new connection.
    pub aa: [u8; 4],
    /// CRC initialization value.
    pub crc_init: [u8; 3],
    /// Transmit window size.
    pub win_size: u8,
    /// Transmit window offset.
    pub win_offset: u16,
    /// Connection interval.
    pub interval: u16,
    /// Slave latency.
    pub latency: u16,
    /// Supervision timeout.
    pub timeout: u16,
    /// Channel map.
    pub chm: [u8; 5],
    /// Hop increment in the low five bits, sleep-clock accuracy in the top
    /// three.
    pub hop_and_sca: u8,
}

/// Whether the bytes of `b` starting at the link-layer-data offset spell
/// out `l` in the connect-request wire layout: access address and CRC
/// reversed, the 16-bit fields high byte first.
pub open spec fn lldata_written(b: Seq<u8>, l: LLData) -> bool {
    &&& b[14] == l.aa@[3]
    &&& b[15] == l.aa@[2]
    &&& b[16] == l.aa@[1]
    &&& b[17] == l.aa@[0]
    &&& b[18] == l.crc_init@[2]
    &&& b[19] == l.crc_init@[1]
    &&& b[20] == l.crc_init@[0]
    &&& b[21] == l.win_size
    &&& b[22] == ((l.win_offset >> 8) & 0xFF) as u8
    &&& b[23] == (l.win_offset & 0xFF) as u8
    &&& b[24] == ((l.interval >> 8) & 0xFF) as u8
    &&& b[25] == (l.interval & 0xFF) as u8
    &&& b[26] == ((l.latency >> 8) & 0xFF) as u8
    &&& b[27] == (l.latency & 0xFF) as u8
    &&& b[28] == ((l.timeout >> 8) & 0xFF) as u8
    &&& b[29] == (l.timeout & 0xFF) as u8
    &&& b[30] == l.chm@[0]
    &&& b[31] == l.chm@[1]
    &&& b[32] == l.chm@[2]
    &&& b[33] == l.chm@[3]
    &&& b[34] == l.chm@[4]
    &&& b[35] == l.hop_and_sca
}

/// The link-layer data spelled out by the bytes of `b`, inverting the
/// connect-request wire layout.
pub open spec fn lldata_read(b: Seq<u8>) -> LLData {
    LLData {
        aa: [b[17], b[16], b[15], b[14]],
        crc_init: [b[20], b[19], b[18]],
        win_size: b[21],
        win_offset: ((b[22] as u16) << 8) | (b[23] as u16),
        interval: ((b[24] as u16) << 8) | (b[25] as u16),
        latency: ((b[26] as u16) << 8) | (b[27] as u16),
        timeout: ((b[28] as u16) << 8) | (b[29] as u16),
        chm: [b[30], b[31], b[32], b[33], b[34]],
        hop_and_sca: b[35],
    }
}

impl LLData {
    /// Fixed connection parameters for outgoing connect requests. The
    /// access address and CRC seed are constants here; a deployment would
    /// draw them with proper entropy.
    pub fn new() -> (r: LLData)
        ensures
            r == (LLData {
                aa: [0x33, 0x19, 0x32, 0x66],
                crc_init: [0x27, 0x01, 0x11],
                win_size: 0x03,
                win_offset: 0x0d00,
                interval: 0x1800,
                latency: 0x0000,
                timeout: 0x4800,
                chm: [0x00, 0xf0, 0x1f, 0x00, 0x18],
                hop_and_sca: (1u8 << 5) | 15,
            }),
    {
        LLData {
            aa: [0x33, 0x19, 0x32, 0x66],
            crc_init: [0x27, 0x01, 0x11],
            win_size: 0x03,
            win_offset: 0x0d00,
            interval: 0x1800,
            latency: 0x0000,
            timeout: 0x4800,
            chm: [0x00, 0xf0, 0x1f, 0x00, 0x18],
            hop_and_sca: (1u8 << 5) | 15,
        }
    }

    /// Serialize these parameters into a packet at the connect-request
    /// offsets, leaving every other byte alone.
    pub fn write_to_buffer(&self, buffer: &mut Vec<u8>)
        requires
            old(buffer)@.len() >= 36,
        ensures
            final(buffer)@.len() == old(buffer)@.len(),
            lldata_written(final(buffer)@, *self),
            forall|k: int|
                0 <= k < old(buffer)@.len() && !(14 <= k < 36) ==> final(buffer)@[k] == old(
                    buffer,
                )@[k],
    {
        let n = buffer.len();
        buffer.set(14, self.aa[3]);
        buffer.set(15, self.aa[2]);
        buffer.set(16, self.aa[1]);
        buffer.set(17, self.aa[0]);
        buffer.set(18, self.crc_init[2]);
        buffer.set(19, self.crc_init[1]);
        buffer.set(20, self.crc_init[0]);
        buffer.set(21, self.win_size);
        buffer.set(22, ((self.win_offset >> 8) & 0xFF) as u8);
        buffer.set(23, (self.win_offset & 0xFF) as u8);
        buffer.set(24, ((self.interval >> 8) & 0xFF) as u8);
        buffer.set(25, (self.interval & 0xFF) as u8);
        buffer.set(26, ((self.latency >> 8) & 0xFF) as u8);
        buffer.set(27, (self.latency & 0xFF) as u8);
        buffer.set(28, ((self.timeout >> 8) & 0xFF) as u8);
        buffer.set(29, (self.timeout & 0xFF) as u8);
        buffer.set(30, self.chm[0]);
        buffer.set(31, self.chm[1]);
        buffer.set(32, self.chm[2]);
        buffer.set(33, self.chm[3]);
        buffer.set(34, self.chm[4]);
        buffer.set(35, self.hop_and_sca);
    }

    /// Deserialize connection parameters from a packet's connect-request
    /// offsets.
    pub fn read_from_buffer(buffer: &[u8]) -> (r: LLData)
        requires
            buffer@.len() >= 36,
        ensures
            r == lldata_read(buffer@),
    {
        LLData {
            aa: [
                *slice_index_get(buffer, 17),
                *slice_index_get(buffer, 16),
                *slice_index_get(buffer, 15),
                *slice_index_get(buffer, 14),
            ],
            crc_init: [
                *slice_index_get(buffer, 20),
                *slice_index_get(buffer, 19),
                *slice_index_get(buffer, 18),
            ],
            win_size: *slice_index_get(buffer, 21),
            win_offset: ((*slice_index_get(buffer, 22) as u16) << 8) | (*slice_index_get(
                buffer,
                23,
            ) as u16),
            interval: ((*slice_index_get(buffer, 24) as u16) << 8) | (*slice_index_get(
                buffer,
                25,
            ) as u16),
            latency: ((*slice_index_get(buffer, 26) as u16) << 8) | (*slice_index_get(
                buffer,
                27,
            ) as u16),
            timeout: ((*slice_index_get(buffer, 28) as u16) << 8) | (*slice_index_get(
                buffer,
                29,
            ) as u16),
            chm: [
                *slice_index_get(buffer, 30),
                *slice_index_get(buffer, 31),
                *slice_index_get(buffer, 32),
                *slice_index_get(buffer, 33),
                *slice_index_get(buffer, 34),
            ],
            hop_and_sca: *slice_index_get(buffer, 35),
        }
    }
}

/// Serializing link-layer data and reading it back yields the data
/// unchanged: the two wire-layout maps invert each other.
pub proof fn lemma_lldata_roundtrip(b: Seq<u8>, l: LLData)
    requires
        b.len() >= 36,
        lldata_written(b, l),
    ensures
        lldata_read(b) == l,
{
    let wo = l.win_offset;
    let iv = l.interval;
    let la = l.latency;
    let to = l.timeout;
    assert(forall|x: u16|
        ((((((x >> 8) & 0xFF) as u8) as u16) << 8) | (((x & 0xFF) as u8) as u16)) == x)
        by (bit_vector);
    assert((((((wo >> 8) & 0xFF) as u8) as u16) << 8) | (((wo & 0xFF) as u8) as u16) == wo);
    assert((((((iv >> 8) & 0xFF) as u8) as u16) << 8) | (((iv & 0xFF) as u8) as u16) == iv);
    assert((((((la >> 8) & 0xFF) as u8) as u16) << 8) | (((la & 0xFF) as u8) as u16) == la);
    assert((((((to >> 8) & 0xFF) as u8) as u16) << 8) | (((to & 0xFF) as u8) as u16) == to);
    broadcast use vstd::array::group_array_axioms;

    assert(lldata_read(b).aa =~= l.aa);
    assert(lldata_read(b).crc_init =~= l.crc_init);
    assert(lldata_read(b).chm =~= l.chm);
    assert(lldata_read(b) =~~= l);
}

/// A six-byte device address as it appears on air.
#[derive(Clone, Copy, Debug, PartialEq, Eq)]
pub struct DeviceAddress(pub [u8; 6]);

impl DeviceAddress {
    /// An address from its six bytes.
    pub fn new(slice: &[u8]) -> (r: DeviceAddress)
        requires
            slice@.len() == 6,
        ensures
            r.0@ == slice@,
    {
        let address: [u8; 6] = [
            *slice_index_get(slice, 0),
            *slice_index_get(slice, 1),
            *slice_index_get(slice, 2),
            *slice_index_get(slice, 3),
            *slice_index_get(slice, 4),
            *slice_index_get(slice, 5),
        ];
        proof {
            assert(address@ =~= slice@);
        }
        DeviceAddress(address)
    }

    /// Compare two addresses byte for byte.
    pub fn same_as(&self, other: &DeviceAddress) -> (r: bool)
        ensures
            r == (self.0@ =~= other.0@),
    {
        let mut i: usize = 0;
        while i < 6
            invariant
                i <= 6,
                forall|j: int| 0 <= j < i ==> self.0@[j] == other.0@[j],
            decreases 6 - i,
        {
            if self.0[i] != other.0[i] {
                return false;
            }
            i = i + 1;
        }
        true
    }
}

/// Whether the radio is free or held by one process's operation.
#[derive(Clone, Copy, Debug, PartialEq, Eq, Structural)]
pub enum BusyState {
    /// Nobody holds the radio.
    Free,
    /// The given process's operation is in flight.
    Busy(ProcessId),
}

/// The advertising-channel PDU types.
#[derive(Clone, Copy, Debug, PartialEq, Eq, Structural)]
pub enum BLEAdvertisementType {
    /// Connectable undirected advertising.
    ConnectUndirected,
    /// Connectable directed advertising.
    ConnectDirected,
    /// Non-connectable undirected advertising.
    NonConnectUndirected,
    /// Scan request.
    ScanRequest,
    /// Scan response.
    ScanResponse,
    /// Connect request.
    ConnectRequest,
    /// Scannable undirected advertising.
    ScanUndirected,
}

/// The on-air type code of each PDU type.
pub open spec fn adv_type_num(t: BLEAdvertisementType) -> u8 {
    match t {
        BLEAdvertisementType::ConnectUndirected => 0x00,
        BLEAdvertisementType::ConnectDirected => 0x01,
        BLEAdvertisementType::NonConnectUndirected => 0x02,
        BLEAdvertisementType::ScanRequest => 0x03,
        BLEAdvertisementType::ScanResponse => 0x04,
        BLEAdvertisementType::ConnectRequest => 0x05,
        BLEAdvertisementType::ScanUndirected => 0x06,
    }
}

impl BLEAdvertisementType {
    /// The on-air type code.
    pub fn to_u8(&self) -> (r: u8)
        ensures
            r == adv_type_num(*self),
    {
        match *self {
            BLEAdvertisementType::ConnectUndirected => 0x00,
            BLEAdvertisementType::ConnectDirected => 0x01,
            BLEAdvertisementType::NonConnectUndirected => 0x02,
            BLEAdvertisementType::ScanRequest => 0x03,
            BLEAdvertisementType::ScanResponse => 0x04,
            BLEAdvertisementType::ConnectRequest => 0x05,
            BLEAdvertisementType::ScanUndirected => 0x06,
        }
    }

    /// Decode an on-air type code; `None` for codes no PDU type carries.
    pub fn from_u8(pdu_type: u8) -> (r: Option<BLEAdvertisementType>)
        ensures
            r matches Some(t) ==> adv_type_num(t) == pdu_type,
            r is None <==> pdu_type > 6,
            r == Self::from_u8_spec(pdu_type),
    {
        match pdu_type {
            0x00 => Some(BLEAdvertisementType::ConnectUndirected),
            0x01 => Some(BLEAdvertisementType::ConnectDirected),
            0x02 => Some(BLEAdvertisementType::NonConnectUndirected),
            0x03 => Some(BLEAdvertisementType::ScanRequest),
            0x04 => Some(BLEAdvertisementType::ScanResponse),
            0x05 => Some(BLEAdvertisementType::ConnectRequest),
            0x06 => Some(BLEAdvertisementType::ScanUndirected),
            _ => None,
        }
    }
}

/// A decoded advertising-channel PDU: the addresses, payload or
/// link-layer data its type carries.
#[derive(Clone, Debug, PartialEq, Eq)]
pub enum BLEPduType {
    /// Connectable undirected advertising: advertiser address and payload.
    ConnectUndirected(DeviceAddress, Vec<u8>),
    /// Connectable directed advertising: advertiser and initiator
    /// addresses.
    ConnectDirected(DeviceAddress, DeviceAddress),
    /// Non-connectable undirected advertising: advertiser address and
    /// payload.
    NonConnectUndirected(DeviceAddress, Vec<u8>),
    /// Scannable undirected advertising: advertiser address and payload.
    ScanUndirected(DeviceAddress, Vec<u8>),
    /// Scan request: scanner address, then the advertiser scanned.
    ScanRequest(DeviceAddress, DeviceAddress),
    /// Scan response: advertiser address and response payload.
    ScanResponse(DeviceAddress, Vec<u8>),
    /// Connect request: initiator, advertiser, and connection parameters.
    ConnectRequest(DeviceAddress, DeviceAddress, LLData),
}

impl BLEPduType {
    /// Decode the body of a packet whose type byte named `pdu_type`.
    /// Refuses — `None`, not a crash — packets whose length header cannot
    /// even hold an address.
    pub fn from_buffer(pdu_type: BLEAdvertisementType, buf: &[u8]) -> (r: Option<BLEPduType>)
        requires
            buf@.len() >= PACKET_LENGTH,
        ensures
            r is None <==> buf@[PACKET_HDR_LEN as int] < 6,
            r matches Some(pdu) ==> pdu.spec_address().0@ == match pdu_type {
                BLEAdvertisementType::ScanRequest => buf@.subrange(8, 14),
                BLEAdvertisementType::ConnectRequest => buf@.subrange(8, 14),
                _ => buf@.subrange(2, 8),
            },
            r matches Some(pdu) ==> match pdu {
                BLEPduType::ConnectUndirected(a, payload) => pdu_type
                    == BLEAdvertisementType::ConnectUndirected && a.0@ == buf@.subrange(2, 8)
                    && payload@ == buf@.subrange(
                    PACKET_PAYLOAD_START as int,
                    PACKET_LENGTH as int,
                ),
                BLEPduType::ConnectDirected(a, target) => pdu_type
                    == BLEAdvertisementType::ConnectDirected && a.0@ == buf@.subrange(2, 8)
                    && target.0@ == buf@.subrange(8, 14),
                BLEPduType::NonConnectUndirected(a, payload) => pdu_type
                    == BLEAdvertisementType::NonConnectUndirected && a.0@ == buf@.subrange(2, 8)
                    && payload@ == buf@.subrange(
                    PACKET_PAYLOAD_START as int,
                    PACKET_LENGTH as int,
                ),
                BLEPduType::ScanUndirected(a, payload) => pdu_type
                    == BLEAdvertisementType::ScanUndirected && a.0@ == buf@.subrange(2, 8)
                    && payload@ == buf@.subrange(
                    PACKET_PAYLOAD_START as int,
                    PACKET_LENGTH as int,
                ),
                BLEPduType::ScanRequest(scanner, a) => pdu_type
                    == BLEAdvertisementType::ScanRequest && scanner.0@ == buf@.subrange(2, 8)
                    && a.0@ == buf@.subrange(8, 14),
                BLEPduType::ScanResponse(a, payload) => pdu_type
                    == BLEAdvertisementType::ScanResponse && a.0@ == buf@.subrange(2, 8)
                    && payload@.len() == 0,
                BLEPduType::ConnectRequest(initiator, a, lld) => pdu_type
                    == BLEAdvertisementType::ConnectRequest && initiator.0@ == buf@.subrange(
                    2,
                    8,
                ) && a.0@ == buf@.subrange(8, 14) && lld == lldata_read(buf@),
            },
    {
        if *slice_index_get(buf, PACKET_HDR_LEN) < 6 {
            None
        } else {
            let adv_addr = DeviceAddress::new(slice_subrange(buf, PACKET_ADDR_START,
                PACKET_ADDR_END + 1));
            let s = match pdu_type {
                BLEAdvertisementType::ConnectUndirected => BLEPduType::ConnectUndirected(
                    adv_addr,
                    slice_to_vec(slice_subrange(buf, PACKET_PAYLOAD_START, PACKET_LENGTH)),
                ),
                BLEAdvertisementType::ConnectDirected => BLEPduType::ConnectDirected(
                    adv_addr,
                    DeviceAddress::new(slice_subrange(buf, PACKET_PAYLOAD_START, 14)),
                ),
                BLEAdvertisementType::NonConnectUndirected => BLEPduType::NonConnectUndirected(
                    adv_addr,
                    slice_to_vec(slice_subrange(buf, PACKET_PAYLOAD_START, PACKET_LENGTH)),
                ),
                BLEAdvertisementType::ScanUndirected => BLEPduType::ScanUndirected(
                    adv_addr,
                    slice_to_vec(slice_subrange(buf, PACKET_PAYLOAD_START, PACKET_LENGTH)),
                ),
                BLEAdvertisementType::ScanRequest => BLEPduType::ScanRequest(
                    adv_addr,
                    DeviceAddress::new(slice_subrange(buf, PACKET_PAYLOAD_START, 14)),
                ),
                BLEAdvertisementType::ScanResponse => BLEPduType::ScanResponse(
                    adv_addr,
                    Vec::new(),
                ),
                BLEAdvertisementType::ConnectRequest => BLEPduType::ConnectRequest(
                    adv_addr,
                    DeviceAddress::new(slice_subrange(buf, PACKET_PAYLOAD_START, 14)),
                    LLData::read_from_buffer(buf),
                ),
            };
            Some(s)
        }
    }

    /// The address that identifies the advertiser this PDU concerns: the
    /// second address for requests aimed at an advertiser, the first
    /// otherwise.
    pub fn address(&self) -> (r: DeviceAddress)
        ensures
            r == self.spec_address(),
    {
        match self {
            BLEPduType::ConnectUndirected(a, _) => *a,
            BLEPduType::ConnectDirected(a, _) => *a,
            BLEPduType::NonConnectUndirected(a, _) => *a,
            BLEPduType::ScanUndirected(a, _) => *a,
            BLEPduType::ScanRequest(_, a) => *a,
            BLEPduType::ScanResponse(a, _) => *a,
            BLEPduType::ConnectRequest(_, a, _) => *a,
        }
    }

    /// The advertiser address of this PDU, as a specification value.
    pub open spec fn spec_address(&self) -> DeviceAddress {
        match self {
            BLEPduType::ConnectUndirected(a, _) => *a,
            BLEPduType::ConnectDirected(a, _) => *a,
            BLEPduType::NonConnectUndirected(a, _) => *a,
            BLEPduType::ScanUndirected(a, _) => *a,
            BLEPduType::ScanRequest(_, a) => *a,
            BLEPduType::ScanResponse(a, _) => *a,
            BLEPduType::ConnectRequest(_, a, _) => *a,
        }
    }
}

/// Lifecycle of one process's use of this driver.
#[derive(Clone, Copy, Debug, PartialEq, Eq, Structural)]
pub enum AppBLEState {
    /// No advertisement buffer allowed yet.
    NotInitialized,
    /// Ready to advertise or scan.
    Initialized,
    /// Passive scanning in progress.
    Scanning,
    /// Periodic advertising in progress.
    Advertising,
}

/// What the radio is doing for this driver as a whole.
#[derive(Clone, Copy, Debug, PartialEq, Eq, Structural)]
pub enum BLEState {
    /// Receiving advertisements.
    Scanning,
    /// Sending advertisements.
    Advertising,
    /// Initiating a connection.
    Initiating,
    /// In a connection.
    Connection,
}

/// When a per-process timer fires, if at all.
#[derive(Clone, Copy, Debug, PartialEq, Eq, Structural)]
pub enum Expiration {
    /// No timer armed.
    Disabled,
    /// Fires at the given absolute tick count.
    Abs(u32),
}

/// One process's timer: the reference point the delay was computed from
/// and the expiration.
#[derive(Clone, Copy, Debug, PartialEq, Eq, Structural)]
pub struct AlarmData {
    /// Tick count when the timer was armed.
    pub t0: u32,
    /// When it fires.
    pub expiration: Expiration,
}

impl AlarmData {
    /// A disarmed timer.
    pub fn new() -> (r: AlarmData)
        ensures
            r == (AlarmData { t0: 0, expiration: Expiration::Disabled }),
    {
        AlarmData { t0: 0, expiration: Expiration::Disabled }
    }
}

/// Link-layer state between radio events.
#[derive(Clone, Copy, Debug, PartialEq, Eq, Structural)]
pub enum BleLinkLayerState {
    /// A scan response is loaded and about to go out.
    RespondingToScanRequest,
    /// A connect request was accepted; waiting on the first data packet.
    WaitingForConnection(crate::ble_hil::ConnectionData),
}

/// A timestamped entry of the diagnostic log: a captured packet, by its
/// index in the packet store, or a marker string.
#[derive(Clone, Copy, Debug, PartialEq, Eq)]
pub enum Timestamp {
    /// A marker string at the given time.
    Str(u32, &'static str),
    /// The packet stored at the given index, captured at the given time.
    BufferIndex(u32, usize),
}

/// A bounded in-memory log of radio traffic for debugging. Collection
/// stops silently when the log is full; draining it empties it again.
pub struct Log {
    /// The entries, oldest first.
    pub timing_array: Vec<Timestamp>,
    /// Number of entries used.
    pub array_ptr: usize,
    /// The captured packets.
    pub log_array: Vec<Vec<u8>>,
}

impl Log {
    /// Entries and packets stay inside the fixed capacity.
    pub open spec fn wf(&self) -> bool {
        &&& self.timing_array@.len() == NBR_PACKETS
        &&& self.log_array@.len() == NBR_PACKETS
        &&& self.array_ptr <= NBR_PACKETS
    }

    /// An empty log.
    pub fn new() -> (r: Log)
        ensures
            r.wf(),
            r.array_ptr == 0,
    {
        let mut timing_array: Vec<Timestamp> = Vec::new();
        let mut log_array: Vec<Vec<u8>> = Vec::new();
        let mut i: usize = 0;
        while i < NBR_PACKETS
            invariant
                i <= NBR_PACKETS,
                timing_array@.len() == i,
                log_array@.len() == i,
            decreases NBR_PACKETS - i,
        {
            timing_array.push(Timestamp::BufferIndex(0, 0));
            log_array.push(Vec::new());
            i = i + 1;
        }
        Log { timing_array, array_ptr: 0, log_array }
    }

    /// Record a packet with its capture time; dropped silently when the
    /// log is full.
    pub fn collect_buffer_log(&mut self, buf: &[u8], timestamp: u32)
        requires
            old(self).wf(),
        ensures
            final(self).wf(),
            old(self).array_ptr < NBR_PACKETS ==> {
                &&& final(self).array_ptr == old(self).array_ptr + 1
                &&& final(self).log_array@[old(self).array_ptr as int]@ == buf@
                &&& final(self).timing_array@[old(self).array_ptr as int] == (
                Timestamp::BufferIndex(timestamp, old(self).array_ptr))
            },
            old(self).array_ptr == NBR_PACKETS ==> *final(self) == *old(self),
    {
        if self.array_ptr < NBR_PACKETS {
            self.log_array.set(self.array_ptr, slice_to_vec(buf));
            self.timing_array.set(
                self.array_ptr,
                Timestamp::BufferIndex(timestamp, self.array_ptr),
            );
            self.array_ptr = self.array_ptr + 1;
        }
    }

    /// Record a marker string with its time; dropped silently when the
    /// log is full.
    pub fn collect_string_log(&mut self, text: &'static str, timestamp: u32)
        requires
            old(self).wf(),
        ensures
            final(self).wf(),
            old(self).array_ptr < NBR_PACKETS ==> {
                &&& final(self).array_ptr == old(self).array_ptr + 1
                &&& final(self).timing_array@[old(self).array_ptr as int] == (Timestamp::Str(
                    timestamp,
                    text,
                ))
            },
            old(self).array_ptr == NBR_PACKETS ==> *final(self) == *old(self),
    {
        if self.array_ptr < NBR_PACKETS {
            self.timing_array.set(self.array_ptr, Timestamp::Str(timestamp, text));
            self.array_ptr = self.array_ptr + 1;
        }
    }

    /// Whether a captured packet is worth printing: only requests and
    /// responses aimed at an advertiser are.
    pub fn print_buffer(&self, timestamp: u32, buf: &[u8]) -> (r: Option<(u32, Vec<u8>)>)
        requires
            buf@.len() >= PACKET_LENGTH,
        ensures
            r matches Some(entry) ==> entry.0 == timestamp && entry.1@ == buf@,
            r is Some <==> (buf@[0] & 0x0f) as int <= 6 && buf@[1] >= 6 && ((buf@[0] & 0x0f) == 3
                || (buf@[0] & 0x0f) == 4 || (buf@[0] & 0x0f) == 5),
    {
        let type_bits: u8 = *slice_index_get(buf, 0) & 0x0f;
        proof {
            let b0 = buf@[0];
            assert((b0 & 0x0f) <= 0x0f) by (bit_vector);
        }
        let parsed_type = BLEAdvertisementType::from_u8(type_bits);
        match parsed_type {
            Some(adv_type) => {
                let pdu = BLEPduType::from_buffer(adv_type, buf);
                if pdu.is_some() {
                    match adv_type {
                        BLEAdvertisementType::ScanRequest
                        | BLEAdvertisementType::ScanResponse
                        | BLEAdvertisementType::ConnectRequest => Some(
                            (timestamp, slice_to_vec(buf)),
                        ),
                        _ => None,
                    }
                } else {
                    None
                }
            },
            None => None,
        }
    }

    /// Drain the log: hand back the printable packet entries, oldest
    /// first, and reset the log to empty.
    pub fn print_log(&mut self) -> (r: Vec<(u32, Vec<u8>)>)
        requires
            old(self).wf(),
            forall|i: int|
                0 <= i < NBR_PACKETS ==> (#[trigger] old(self).log_array@[i])@.len()
                    >= PACKET_LENGTH,
        ensures
            final(self).wf(),
            final(self).array_ptr == 0,
    {
        let mut out: Vec<(u32, Vec<u8>)> = Vec::new();
        let n = self.array_ptr;
        let mut i: usize = 0;
        while i < n
            invariant
                i <= n,
                n <= NBR_PACKETS,
                self.wf(),
                self == old(self),
                forall|j: int|
                    0 <= j < NBR_PACKETS ==> (#[trigger] self.log_array@[j])@.len()
                        >= PACKET_LENGTH,
            decreases n - i,
        {
            match self.timing_array[i] {
                Timestamp::BufferIndex(time, index) => {
                    if time != 0 && index < NBR_PACKETS {
                        let entry = self.print_buffer(
                            time,
                            self.log_array[index].as_slice(),
                        );
                        if let Some(e) = entry {
                            out.push(e);
                        }
                    }
                },
                Timestamp::Str(time, _string) => {},
            }
            i = i + 1;
        }
        self.array_ptr = 0;
        out
    }
}

/// Per-process driver state, kept in the grant.
pub struct App {
    /// The generated static device address this process advertises under.
    pub advertising_address: Option<DeviceAddress>,
    /// The process's advertisement buffer, allowed under the
    /// initialization id.
    pub advertisement_buf: Option<SharedBuffer>,
    /// A GAP payload field offered by the process, consumed by the next
    /// payload update.
    pub app_write: Option<SharedBuffer>,
    /// The buffer scan results are delivered into.
    pub app_read: Option<SharedBuffer>,
    /// The callback delivering scan results.
    pub scan_callback: Option<Callback>,
    /// Next free byte of the advertisement payload.
    pub idx: usize,
    /// Where this process is in the driver's lifecycle.
    pub process_status: Option<AppBLEState>,
    /// Advertising interval in milliseconds.
    pub advertisement_interval_ms: u32,
    /// Scan timeout in milliseconds.
    pub scan_timeout_ms: u32,
    /// This process's timer.
    pub alarm_data: AlarmData,
    /// Requested transmit power, in the chip's encoding.
    pub tx_power: u8,
    /// Link-layer state between radio events.
    pub state: Option<BleLinkLayerState>,
    /// The channel this process's radio work uses.
    pub channel: Option<crate::ble_hil::RadioChannel>,
    /// State of the process's pseudo-random number sequence, e.g. for the
    /// advertising delay.
    pub random_nonce: u32,
}

impl App {
    /// The state an [`App`] must keep: an allowed advertisement buffer is
    /// a full packet, the payload cursor stays inside it, the configured
    /// intervals stay in the range the commands enforce, and link-layer
    /// values stay well-formed.
    pub open spec fn wf(&self) -> bool {
        &&& (self.advertisement_buf matches Some(b) ==> b.data@.len() >= PACKET_LENGTH)
        &&& PACKET_PAYLOAD_START <= self.idx <= PACKET_LENGTH
        &&& 20 <= self.advertisement_interval_ms <= 10240
        &&& self.scan_timeout_ms <= 10240
        &&& (self.channel matches Some(c) ==> c.wf())
        &&& (self.state matches Some(s) ==> (s matches BleLinkLayerState::WaitingForConnection(cd)
            ==> cd.wf()))
    }
}

impl GrantDefault for App {
    open spec fn spec_grant_default() -> App {
        App {
            advertising_address: Option::None,
            advertisement_buf: Option::None,
            app_write: Option::None,
            app_read: Option::None,
            scan_callback: Option::None,
            idx: PACKET_PAYLOAD_START,
            process_status: Option::Some(AppBLEState::NotInitialized),
            advertisement_interval_ms: 200,
            scan_timeout_ms: 100,
            alarm_data: AlarmData { t0: 0, expiration: Expiration::Disabled },
            tx_power: 0,
            state: Option::None,
            channel: Option::None,
            random_nonce: 0xdeadbeef,
        }
    }

    fn grant_default() -> (r: App) {
        App {
            advertising_address: None,
            advertisement_buf: None,
            app_write: None,
            app_read: None,
            scan_callback: None,
            idx: PACKET_PAYLOAD_START,
            process_status: Some(AppBLEState::NotInitialized),
            advertisement_interval_ms: 200,
            scan_timeout_ms: 100,
            alarm_data: AlarmData { t0: 0, expiration: Expiration::Disabled },
            tx_power: 0,
            state: None,
            channel: None,
            // any non-zero starting value works as a seed
            random_nonce: 0xdeadbeef,
        }
    }
}

/// The freshly materialized state is well-formed.
pub proof fn lemma_app_default_wf()
    ensures
        App::spec_grant_default().wf(),
{
}

impl App {
    /// Zero the whole advertisement buffer; the invalid-value error when
    /// none is allowed.
    pub fn initialize_advertisement_buffer(&mut self) -> (r: ReturnCode)
        requires
            old(self).wf(),
        ensures
            final(self).wf(),
            r == if old(self).advertisement_buf is Some {
                ReturnCode::SUCCESS
            } else {
                ReturnCode::EINVAL
            },
            old(self).advertisement_buf matches Some(b) ==> (final(self).advertisement_buf matches
            Some(b2) && b2.owner == b.owner && b2.id == b.id && b2.data@.len() == b.data@.len()
                && (forall|k: int| 0 <= k < PACKET_LENGTH ==> b2.data@[k] == 0) && (forall|k: int|
                PACKET_LENGTH <= k < b.data@.len() ==> b2.data@[k] == b.data@[k])),
            old(self).advertisement_buf is None ==> *final(self) == *old(self),
            final(self).idx == old(self).idx,
            final(self).process_status == old(self).process_status,
            final(self).app_write == old(self).app_write,
    {
        if let Some(mut buf) = option_take(&mut self.advertisement_buf) {
            let mut i: usize = 0;
            while i < PACKET_LENGTH
                invariant
                    i <= PACKET_LENGTH,
                    buf.data@.len() >= PACKET_LENGTH,
                    buf.data@.len() == old(self).advertisement_buf->Some_0.data@.len(),
                    buf.owner == old(self).advertisement_buf->Some_0.owner,
                    buf.id == old(self).advertisement_buf->Some_0.id,
                    forall|k: int| 0 <= k < i ==> buf.data@[k] == 0,
                    forall|k: int|
                        i <= k < buf.data@.len() ==> buf.data@[k] == old(
                            self,
                        ).advertisement_buf->Some_0.data@[k],
                decreases PACKET_LENGTH - i,
            {
                buf.data.set(i, 0);
                i = i + 1;
            }
            self.advertisement_buf = Some(buf);
            ReturnCode::SUCCESS
        } else {
            ReturnCode::EINVAL
        }
    }

    /// Install this process's static device address: two fixed
    /// most-significant bits set in the first and last byte, the middle
    /// derived from the process identity, and the address bytes mirrored
    /// into the advertisement buffer behind a six-byte length header.
    pub fn generate_random_address(&mut self, appid: ProcessId) -> (r: ReturnCode)
        requires
            old(self).wf(),
        ensures
            final(self).wf(),
            r == if old(self).advertisement_buf is Some {
                ReturnCode::SUCCESS
            } else {
                ReturnCode::ESIZE
            },
            final(self).advertising_address matches Some(a) && a.0@ =~= device_address_bytes(),
            r == ReturnCode::SUCCESS ==> (old(self).advertisement_buf matches Some(b) ==> (
            final(self).advertisement_buf matches Some(b2) && {
                &&& b2.owner == b.owner
                &&& b2.id == b.id
                &&& b2.data@.len() == b.data@.len()
                &&& b2.data@[PACKET_HDR_LEN as int] == 6
                &&& forall|i: int|
                    0 <= i < 6 ==> #[trigger] b2.data@[PACKET_ADDR_START + i]
                        == device_address_bytes()[i]
                &&& forall|k: int|
                    0 <= k < b.data@.len() && !(PACKET_HDR_LEN <= k < PACKET_ADDR_START + 6)
                        ==> #[trigger] b2.data@[k] == b.data@[k]
            })),
            old(self).advertisement_buf is None ==> final(self).advertisement_buf is None,
            *final(self) == (App {
                advertising_address: final(self).advertising_address,
                advertisement_buf: final(self).advertisement_buf,
                ..*old(self)
            }),
    {
        let idx_wide: u64 = appid.idx() as u64;
        let b3: u8 = (((idx_wide << 16) as u8) as u8) & 0xff;
        let b4: u8 = (((idx_wide << 24) as u8) as u8) & 0xff;
        proof {
            let x = idx_wide;
            assert((((x << 16) as u8) as u8) & 0xff == 0) by (bit_vector);
            assert((((x << 24) as u8) as u8) & 0xff == 0) by (bit_vector);
        }
        let random_address: [u8; 6] = [0xf0, 0x0f, 0x0f, b3, b4, 0xf0];
        proof {
            broadcast use vstd::array::group_array_axioms;

            assert(random_address@ =~= device_address_bytes());
        }
        self.advertising_address = Some(DeviceAddress(random_address));
        if let Some(mut buf) = option_take(&mut self.advertisement_buf) {
            buf.data.set(PACKET_HDR_LEN, 6);
            let mut i: usize = 0;
            while i < 6
                invariant
                    i <= 6,
                    buf.data@.len() >= PACKET_LENGTH,
                    buf.data@.len() == old(self).advertisement_buf->Some_0.data@.len(),
                    buf.owner == old(self).advertisement_buf->Some_0.owner,
                    buf.id == old(self).advertisement_buf->Some_0.id,
                    buf.data@[PACKET_HDR_LEN as int] == 6,
                    forall|j: int|
                        0 <= j < i ==> #[trigger] buf.data@[PACKET_ADDR_START + j]
                            == random_address@[j],
                    forall|k: int|
                        0 <= k < buf.data@.len() && !(PACKET_HDR_LEN <= k < PACKET_ADDR_START + i)
                            ==> #[trigger] buf.data@[k] == old(
                            self,
                        ).advertisement_buf->Some_0.data@[k],
                decreases 6 - i,
            {
                buf.data.set(PACKET_ADDR_START + i, random_address[i]);
                i = i + 1;
            }
            self.advertisement_buf = Some(buf);
            ReturnCode::SUCCESS
        } else {
            ReturnCode::ESIZE
        }
    }

    /// Copy the advertisement image into an outgoing packet buffer and
    /// produce the connectable-undirected header byte; hands back the
    /// payload cursor.
    pub fn make_adv_pdu(&self, buffer: &mut Vec<u8>, header: &mut u8) -> (r: u8)
        requires
            self.wf(),
            old(buffer)@.len() >= PACKET_LENGTH,
        ensures
            final(buffer)@.len() == old(buffer)@.len(),
            *final(header) == (0x04u8 << 4) | adv_type_num(BLEAdvertisementType::ConnectUndirected),
            r == self.idx as u8,
            self.advertisement_buf matches Some(b) ==> forall|k: int|
                0 <= k < PACKET_LENGTH - PACKET_ADDR_START ==> final(buffer)@[k] == b.data@[
                    PACKET_ADDR_START + k],
    {
        if let Some(buf) = &self.advertisement_buf {
            let mut i: usize = 0;
            while i < PACKET_LENGTH - PACKET_ADDR_START
                invariant
                    i <= PACKET_LENGTH - PACKET_ADDR_START,
                    buffer@.len() == old(buffer)@.len(),
                    old(buffer)@.len() >= PACKET_LENGTH,
                    buf.data@.len() >= PACKET_LENGTH,
                    forall|k: int| 0 <= k < i ==> buffer@[k] == buf.data@[PACKET_ADDR_START + k],
                decreases PACKET_LENGTH - PACKET_ADDR_START - i,
            {
                let byte = buf.data[PACKET_ADDR_START + i];
                buffer.set(i, byte);
                i = i + 1;
            }
        }
        *header = (0x04u8 << 4) | 0x00;
        self.idx as u8
    }

    /// Clear the advertisement payload and rewind the cursor; refused with
    /// the busy code while the payload is on air.
    pub fn reset_payload(&mut self) -> (r: ReturnCode)
        requires
            old(self).wf(),
        ensures
            final(self).wf(),
            (old(self).process_status == Some(AppBLEState::Advertising) || old(
                self,
            ).process_status == Some(AppBLEState::Scanning)) ==> r == ReturnCode::EBUSY && *final(self) == *old(self),
            !(old(self).process_status == Some(AppBLEState::Advertising) || old(
                self,
            ).process_status == Some(AppBLEState::Scanning)) ==> {
                &&& r == if old(self).advertisement_buf is Some {
                    ReturnCode::SUCCESS
                } else {
                    ReturnCode::EINVAL
                }
                &&& (r == ReturnCode::EINVAL ==> *final(self) == *old(self))
                &&& (old(self).advertisement_buf matches Some(b) ==> (
                final(self).advertisement_buf matches Some(b2) && {
                    &&& b2.owner == b.owner
                    &&& b2.id == b.id
                    &&& b2.data@.len() == b.data@.len()
                    &&& forall|k: int|
                        PACKET_PAYLOAD_START <= k < PACKET_LENGTH ==> #[trigger] b2.data@[k] == 0
                    &&& forall|k: int|
                        0 <= k < b.data@.len() && !(PACKET_PAYLOAD_START <= k < PACKET_LENGTH)
                            ==> #[trigger] b2.data@[k] == b.data@[k]
                }))
                &&& (r == ReturnCode::SUCCESS ==> final(self).idx == PACKET_PAYLOAD_START
                    && *final(self) == (App {
                    advertisement_buf: final(self).advertisement_buf,
                    idx: final(self).idx,
                    ..*old(self)
                }))
            },
    {
        match self.process_status {
            Some(AppBLEState::Advertising) | Some(AppBLEState::Scanning) => ReturnCode::EBUSY,
            _ => {
                if let Some(mut buf) = option_take(&mut self.advertisement_buf) {
                    let mut i: usize = PACKET_PAYLOAD_START;
                    while i < PACKET_LENGTH
                        invariant
                            PACKET_PAYLOAD_START <= i <= PACKET_LENGTH,
                            buf.data@.len() >= PACKET_LENGTH,
                            buf.data@.len() == old(self).advertisement_buf->Some_0.data@.len(),
                            buf.owner == old(self).advertisement_buf->Some_0.owner,
                            buf.id == old(self).advertisement_buf->Some_0.id,
                            forall|k: int|
                                PACKET_PAYLOAD_START <= k < i ==> #[trigger] buf.data@[k] == 0,
                            forall|k: int|
                                0 <= k < buf.data@.len() && !(PACKET_PAYLOAD_START <= k < i)
                                    ==> #[trigger] buf.data@[k] == old(
                                    self,
                                ).advertisement_buf->Some_0.data@[k],
                        decreases PACKET_LENGTH - i,
                    {
                        buf.data.set(i, 0);
                        i = i + 1;
                    }
                    self.advertisement_buf = Some(buf);
                    self.idx = PACKET_PAYLOAD_START;
                    ReturnCode::SUCCESS
                } else {
                    ReturnCode::EINVAL
                }
            },
        }
    }

    /// Stamp the connectable-undirected header byte into the
    /// advertisement buffer.
    pub fn configure_advertisement_pdu(&mut self) -> (r: ReturnCode)
        requires
            old(self).wf(),
        ensures
            final(self).wf(),
            r == if old(self).advertisement_buf is Some {
                ReturnCode::SUCCESS
            } else {
                ReturnCode::ESIZE
            },
            r == ReturnCode::ESIZE ==> *final(self) == *old(self),
            old(self).advertisement_buf matches Some(b) ==> (
            final(self).advertisement_buf matches Some(b2) && {
                &&& b2.owner == b.owner
                &&& b2.id == b.id
                &&& b2.data@.len() == b.data@.len()
                &&& b2.data@[PACKET_HDR_PDU as int] == ((0x04u8 << 4) | adv_type_num(
                    BLEAdvertisementType::ConnectUndirected,
                ))
                &&& forall|k: int|
                    0 < k < b.data@.len() ==> #[trigger] b2.data@[k] == b.data@[k]
            }),
            *final(self) == (App {
                advertisement_buf: final(self).advertisement_buf,
                ..*old(self)
            }),
    {
        if let Some(mut buf) = option_take(&mut self.advertisement_buf) {
            buf.data.set(PACKET_HDR_PDU, (0x04u8 << 4) | 0x00);
            self.advertisement_buf = Some(buf);
            ReturnCode::SUCCESS
        } else {
            ReturnCode::ESIZE
        }
    }

    /// Append one GAP field to the advertisement payload: a length byte, a
    /// type byte, then the process's bytes, with the packet's total length
    /// header updated and the cursor advanced. Consumes the offered write
    /// buffer; refuses over-long data with the size error.
    pub fn set_gap_data(&mut self, gap_type: BLEGapType) -> (r: ReturnCode)
        requires
            old(self).wf(),
        ensures
            final(self).wf(),
            old(self).app_write is None ==> r == ReturnCode::EINVAL && *final(self) == *old(self),
            old(self).app_write matches Some(slice) ==> {
                &&& (r == ReturnCode::SUCCESS ==> final(self).app_write is None)
                &&& (r != ReturnCode::SUCCESS ==> *final(self) == *old(self))
                &&& (old(self).idx + slice.data@.len() + 2 > PACKET_LENGTH ==> r
                    == ReturnCode::ESIZE)
                &&& (old(self).idx + slice.data@.len() + 2 <= PACKET_LENGTH ==> (
                old(self).advertisement_buf is None ==> r == ReturnCode::EINVAL))
                &&& (old(self).idx + slice.data@.len() + 2 <= PACKET_LENGTH ==> (old(
                    self,
                ).advertisement_buf matches Some(data) ==> (r == ReturnCode::SUCCESS && final(self).idx == old(self).idx + slice.data@.len() + 2 && (final(self).advertisement_buf matches Some(d2) && {
                    let idx = old(self).idx as int;
                    let end = idx + slice.data@.len() + 2;
                    &&& d2.data@.len() == data.data@.len()
                    &&& d2.data@[idx] == (slice.data@.len() + 1) as u8
                    &&& d2.data@[idx + 1] == gap_type_num(gap_type)
                    &&& d2.data@[PACKET_HDR_LEN as int] == (end - 2) as u8
                    &&& forall|k: int|
                        0 <= k < slice.data@.len() ==> d2.data@[idx + 2 + k] == slice.data@[k]
                }))))
            },
    {
        if let Some(slice) = option_take(&mut self.app_write) {
            let slice_len = slice.data.len();
            let idx = self.idx;
            if slice_len > PACKET_LENGTH || idx + slice_len + 2 > PACKET_LENGTH {
                self.app_write = Some(slice);
                return ReturnCode::ESIZE;
            }
            let end = idx + slice_len + 2;
            if let Some(mut data) = option_take(&mut self.advertisement_buf) {
                data.data.set(idx, (slice_len + 1) as u8);
                data.data.set(idx + 1, gap_type.to_u8());
                data.data.set(PACKET_HDR_LEN, (end - 2) as u8);
                let mut k: usize = 0;
                while k < slice_len
                    invariant
                        k <= slice_len,
                        idx + slice_len + 2 <= PACKET_LENGTH,
                        slice_len == slice.data@.len(),
                        data.data@.len() >= PACKET_LENGTH,
                        data.data@.len() == old(self).advertisement_buf->Some_0.data@.len(),
                        data.data@[idx as int] == (slice_len + 1) as u8,
                        data.data@[idx as int + 1] == gap_type_num(gap_type),
                        data.data@[PACKET_HDR_LEN as int] == (idx + slice_len) as u8,
                        forall|j: int|
                            0 <= j < k ==> data.data@[idx + 2 + j] == slice.data@[j],
                    decreases slice_len - k,
                {
                    let byte = slice.data[k];
                    data.data.set(idx + 2 + k, byte);
                    k = k + 1;
                }
                self.advertisement_buf = Some(data);
                self.idx = end;
                ReturnCode::SUCCESS
            } else {
                self.app_write = Some(slice);
                ReturnCode::EINVAL
            }
        } else {
            ReturnCode::EINVAL
        }
    }

    /// A new pseudo-random number; updates the randomness state with a
    /// xorshift step.
    pub fn random_nonce(&mut self) -> (r: u32)
        ensures
            r == xorshift32(old(self).random_nonce),
            *final(self) == (App { random_nonce: xorshift32(old(self).random_nonce), ..*old(self) }),
    {
        let mut next_nonce: u32 = self.random_nonce;
        next_nonce = next_nonce ^ (next_nonce << 13);
        next_nonce = next_nonce ^ (next_nonce >> 17);
        next_nonce = next_nonce ^ (next_nonce << 5);
        self.random_nonce = next_nonce;
        next_nonce
    }

    /// Arm this process's timer one advertising interval — plus a small
    /// pseudo-random delay, to break collisions between processes — past
    /// `now`. `freq` is the alarm's tick rate; periods beyond the 32-bit
    /// tick range wrap, like the counter itself.
    pub fn set_next_alarm(&mut self, freq: u32, now: u32)
        ensures
            final(self).alarm_data.t0 == now,
            final(self).alarm_data.expiration is Abs,
            final(self).random_nonce == xorshift32(old(self).random_nonce),
            *final(self) == (App {
                alarm_data: final(self).alarm_data,
                random_nonce: final(self).random_nonce,
                ..*old(self)
            }),
    {
        self.alarm_data.t0 = now;
        let nonce = self.random_nonce() % 10;
        let interval_wide: u128 = (self.advertisement_interval_ms as u128) + (nonce as u128);
        let freq_wide: u128 = freq as u128;
        proof {
            let iw = interval_wide;
            let fw = freq_wide;
            assert(iw * fw <= u128::MAX) by (nonlinear_arith)
                requires
                    iw <= 0x1_0000_0009,
                    fw <= 0xFFFF_FFFF,
            ;
        }
        let period_wide: u128 = (interval_wide * freq_wide) / 1000;
        let period_ms: u32 = (period_wide & 0xFFFF_FFFF) as u32;
        self.alarm_data.expiration = Expiration::Abs(now.wrapping_add(period_ms));
    }

    /// Arm this process's timer one scan timeout past `now`. `freq` is
    /// the alarm's tick rate.
    pub fn set_next_adv_scan_timeout(&mut self, freq: u32, now: u32)
        ensures
            final(self).alarm_data.t0 == now,
            final(self).alarm_data.expiration is Abs,
            *final(self) == (App { alarm_data: final(self).alarm_data, ..*old(self) }),
    {
        self.alarm_data.t0 = now;
        let timeout_wide: u64 = self.scan_timeout_ms as u64;
        let freq_wide: u64 = freq as u64;
        proof {
            let tw = timeout_wide;
            let fw = freq_wide;
            assert(tw * fw <= u64::MAX) by (nonlinear_arith)
                requires
                    tw <= 0xFFFF_FFFF,
                    fw <= 0xFFFF_FFFF,
            ;
        }
        let period_wide: u64 = (timeout_wide * freq_wide) / 1000;
        let period_ms: u32 = (period_wide & 0xFFFF_FFFF) as u32;
        self.alarm_data.expiration = Expiration::Abs(now.wrapping_add(period_ms));
    }
}

/// The static device address this driver installs for a process: the
/// fixed marker bytes with the identity-derived middle, which the 16- and
/// 24-bit shifts truncate to zero.
pub open spec fn device_address_bytes() -> Seq<u8> {
    seq![0xf0u8, 0x0fu8, 0x0fu8, 0x00u8, 0x00u8, 0xf0u8]
}

/// One xorshift step: the next value of the pseudo-random sequence.
pub open spec fn xorshift32(x: u32) -> u32 {
    let a = x ^ (x << 13);
    let b = a ^ (a >> 17);
    b ^ (b << 5)
}

impl App {
    /// Copy the advertisement image into the radio packet with the given
    /// PDU type in the header; clears any link-layer state.
    pub fn prepare_advertisement(
        &mut self,
        tx: &mut [u8; PACKET_LENGTH],
        advertisement_type: BLEAdvertisementType,
    ) -> (r: ReturnCode)
        requires
            old(self).wf(),
        ensures
            final(self).wf(),
            *final(self) == (App { state: None, ..*old(self) }),
            r == if old(self).advertisement_buf is Some {
                ReturnCode::SUCCESS
            } else {
                ReturnCode::EINVAL
            },
            r == ReturnCode::SUCCESS ==> final(tx)@[PACKET_HDR_PDU as int] == ((0x04u8 << 4)
                | adv_type_num(advertisement_type)),
            old(self).advertisement_buf matches Some(b) ==> forall|k: int|
                1 <= k < PACKET_LENGTH ==> final(tx)@[k] == b.data@[k],
    {
        self.state = None;
        if let Some(buf) = &self.advertisement_buf {
            let mut i: usize = 0;
            while i < PACKET_LENGTH
                invariant
                    i <= PACKET_LENGTH,
                    buf.data@.len() >= PACKET_LENGTH,
                    forall|k: int| 0 <= k < i ==> tx@[k] == buf.data@[k],
                decreases PACKET_LENGTH - i,
            {
                let byte = buf.data[i];
                tx.set(i, byte);
                i = i + 1;
            }
            tx.set(PACKET_HDR_PDU, (0x04u8 << 4) | advertisement_type.to_u8());
            ReturnCode::SUCCESS
        } else {
            ReturnCode::EINVAL
        }
    }

    /// Copy the advertisement image into the radio packet as a scan
    /// response and note that one is about to go out.
    pub fn prepare_scan_response(&mut self, tx: &mut [u8; PACKET_LENGTH]) -> (r: ReturnCode)
        requires
            old(self).wf(),
        ensures
            final(self).wf(),
            final(self).state == Some(BleLinkLayerState::RespondingToScanRequest),
            r == if old(self).advertisement_buf is Some {
                ReturnCode::SUCCESS
            } else {
                ReturnCode::EINVAL
            },
            r == ReturnCode::SUCCESS ==> final(tx)@[PACKET_HDR_PDU as int] == ((0x04u8 << 4)
                | adv_type_num(BLEAdvertisementType::ScanResponse)),
    {
        if let Some(buf) = &self.advertisement_buf {
            let mut i: usize = 0;
            while i < PACKET_LENGTH
                invariant
                    i <= PACKET_LENGTH,
                    buf.data@.len() >= PACKET_LENGTH,
                decreases PACKET_LENGTH - i,
            {
                let byte = buf.data[i];
                tx.set(i, byte);
                i = i + 1;
            }
            tx.set(PACKET_HDR_PDU, (0x04u8 << 4) | 0x04);
            self.state = Some(BleLinkLayerState::RespondingToScanRequest);
            ReturnCode::SUCCESS
        } else {
            self.state = Some(BleLinkLayerState::RespondingToScanRequest);
            ReturnCode::EINVAL
        }
    }

    /// Build a connect request aimed at `adv_addr` in the radio packet:
    /// the advertisement image, the connect-request length header, the
    /// target address and the connection parameters.
    pub fn send_connect_request(
        &mut self,
        tx: &mut [u8; PACKET_LENGTH],
        adv_addr: &DeviceAddress,
        lldata: &LLData,
    ) -> (r: ReturnCode)
        requires
            old(self).wf(),
        ensures
            final(self).wf(),
            r == if old(self).advertisement_buf is Some {
                ReturnCode::SUCCESS
            } else {
                ReturnCode::EINVAL
            },
            r == ReturnCode::SUCCESS ==> {
                &&& final(tx)@[PACKET_HDR_PDU as int] == ((0x04u8 << 4) | adv_type_num(
                    BLEAdvertisementType::ConnectRequest,
                ))
                &&& final(tx)@[PACKET_HDR_LEN as int] == CONNECT_REQ_LEN
                &&& (forall|k: int|
                    0 <= k < 6 ==> final(tx)@[PACKET_PAYLOAD_START + k] == adv_addr.0@[k])
                &&& lldata_written(final(tx)@, *lldata)
            },
    {
        if let Some(buf) = &self.advertisement_buf {
            let mut i: usize = 0;
            while i < PACKET_LENGTH
                invariant
                    i <= PACKET_LENGTH,
                    buf.data@.len() >= PACKET_LENGTH,
                decreases PACKET_LENGTH - i,
            {
                let byte = buf.data[i];
                tx.set(i, byte);
                i = i + 1;
            }
            let mut k: usize = 0;
            while k < 6
                invariant
                    k <= 6,
                    forall|j: int| 0 <= j < k ==> tx@[PACKET_PAYLOAD_START + j] == adv_addr.0@[j],
                decreases 6 - k,
            {
                tx.set(PACKET_PAYLOAD_START + k, adv_addr.0[k]);
                k = k + 1;
            }
            tx.set(PACKET_HDR_LEN, CONNECT_REQ_LEN);
            tx.set(14, lldata.aa[3]);
            tx.set(15, lldata.aa[2]);
            tx.set(16, lldata.aa[1]);
            tx.set(17, lldata.aa[0]);
            tx.set(18, lldata.crc_init[2]);
            tx.set(19, lldata.crc_init[1]);
            tx.set(20, lldata.crc_init[0]);
            tx.set(21, lldata.win_size);
            tx.set(22, ((lldata.win_offset >> 8) & 0xFF) as u8);
            tx.set(23, (lldata.win_offset & 0xFF) as u8);
            tx.set(24, ((lldata.interval >> 8) & 0xFF) as u8);
            tx.set(25, (lldata.interval & 0xFF) as u8);
            tx.set(26, ((lldata.latency >> 8) & 0xFF) as u8);
            tx.set(27, (lldata.latency & 0xFF) as u8);
            tx.set(28, ((lldata.timeout >> 8) & 0xFF) as u8);
            tx.set(29, (lldata.timeout & 0xFF) as u8);
            tx.set(30, lldata.chm[0]);
            tx.set(31, lldata.chm[1]);
            tx.set(32, lldata.chm[2]);
            tx.set(33, lldata.chm[3]);
            tx.set(34, lldata.chm[4]);
            tx.set(35, lldata.hop_and_sca);
            tx.set(PACKET_HDR_PDU, (0x04u8 << 4) | 0x05);
            ReturnCode::SUCCESS
        } else {
            ReturnCode::EINVAL
        }
    }

    /// Load an empty link-layer data PDU into the radio packet.
    pub fn prepare_empty_conn_pdu(&mut self, tx: &mut [u8; PACKET_LENGTH]) -> (r: ReturnCode)
        requires
            old(self).wf(),
        ensures
            final(self).wf(),
            *final(self) == *old(self),
            r == if old(self).advertisement_buf is Some {
                ReturnCode::SUCCESS
            } else {
                ReturnCode::EINVAL
            },
            r == ReturnCode::SUCCESS ==> final(tx)@[PACKET_HDR_PDU as int] == 0x01 && final(tx)@[
                PACKET_HDR_LEN as int] == 0,
    {
        if self.advertisement_buf.is_some() {
            tx.set(PACKET_HDR_LEN, 0);
            tx.set(PACKET_HDR_PDU, 0x01);
            ReturnCode::SUCCESS
        } else {
            ReturnCode::EINVAL
        }
    }

    /// React to a request received while advertising. A scan request for
    /// this process's address loads the scan response and asks for a move
    /// to transmit; a connect request for it accepts the connection, hops
    /// to the first data channel and waits in receive; anything else —
    /// including requests for other advertisers — is ignored.
    pub fn handle_request(&mut self, tx: &mut [u8; PACKET_LENGTH], pdu: &BLEPduType) -> (r:
        crate::ble_hil::PhyTransition)
        requires
            old(self).wf(),
        ensures
            final(self).wf(),
            old(self).advertising_address is None ==> r
                == crate::ble_hil::PhyTransition::NoTransition,
            (pdu matches BLEPduType::ScanRequest(_, a) ==> ((old(
                self,
            ).advertising_address matches Some(own) && a.0@ =~= own.0@) ==> r
                == crate::ble_hil::PhyTransition::MoveToTX)),
            (pdu matches BLEPduType::ConnectRequest(_, a, _) ==> ((old(
                self,
            ).advertising_address matches Some(own) && a.0@ =~= own.0@) ==> r
                == crate::ble_hil::PhyTransition::MoveToRX)),
            r == crate::ble_hil::PhyTransition::MoveToTX ==> (pdu matches BLEPduType::ScanRequest(
                _,
                a,
            ) && (old(self).advertising_address matches Some(own) && a.0@ =~= own.0@)),
            r == crate::ble_hil::PhyTransition::MoveToRX ==> (pdu matches
                BLEPduType::ConnectRequest(_, a, _) && (old(self).advertising_address matches Some(
                own,
            ) && a.0@ =~= own.0@) && final(self).channel is Some && (final(self).state matches
            Some(s) && s is WaitingForConnection)),
    {
        match pdu {
            BLEPduType::ScanRequest(_scan_addr, adv_addr) => {
                let matches_us = match &self.advertising_address {
                    Some(own) => adv_addr.same_as(own),
                    None => false,
                };
                if matches_us {
                    self.prepare_scan_response(tx);
                    crate::ble_hil::PhyTransition::MoveToTX
                } else {
                    crate::ble_hil::PhyTransition::NoTransition
                }
            },
            BLEPduType::ConnectRequest(_init_addr, adv_addr, lldata) => {
                let matches_us = match &self.advertising_address {
                    Some(own) => adv_addr.same_as(own),
                    None => false,
                };
                if matches_us {
                    let mut conndata = crate::ble_hil::ConnectionData::new(lldata);
                    let channel = conndata.next_channel();
                    self.state = Some(BleLinkLayerState::WaitingForConnection(conndata));
                    self.channel = Some(channel);
                    self.prepare_empty_conn_pdu(tx);
                    crate::ble_hil::PhyTransition::MoveToRX
                } else {
                    crate::ble_hil::PhyTransition::NoTransition
                }
            },
            _ => crate::ble_hil::PhyTransition::NoTransition,
        }
    }

    /// React to a packet received inside a connection: answer with an
    /// empty link-layer PDU.
    pub fn handle_connection(&mut self, tx: &mut [u8; PACKET_LENGTH]) -> (r:
        crate::ble_hil::PhyTransition)
        requires
            old(self).wf(),
        ensures
            final(self).wf(),
            r == crate::ble_hil::PhyTransition::MoveToTX,
    {
        self.prepare_empty_conn_pdu(tx);
        crate::ble_hil::PhyTransition::MoveToTX
    }
}

/// Whether an on-air packet is acceptable in the given radio state: while
/// advertising, each PDU type has a fixed length rule; inside a
/// connection everything is taken; otherwise nothing is.
pub open spec fn valid_pkt_spec(
    st: BLEState,
    t: Option<BLEAdvertisementType>,
    len: u8,
) -> bool {
    match st {
        BLEState::Advertising => match t {
            Some(BLEAdvertisementType::ScanRequest) => len == SCAN_REQ_LEN,
            Some(BLEAdvertisementType::ConnectDirected) => len == SCAN_REQ_LEN,
            Some(BLEAdvertisementType::ScanResponse) => DEVICE_ADDRESS_LEN <= len
                <= SCAN_IND_MAX_LEN,
            Some(BLEAdvertisementType::ConnectUndirected) => DEVICE_ADDRESS_LEN <= len
                <= SCAN_IND_MAX_LEN,
            Some(BLEAdvertisementType::ScanUndirected) => DEVICE_ADDRESS_LEN <= len
                <= SCAN_IND_MAX_LEN,
            Some(BLEAdvertisementType::NonConnectUndirected) => DEVICE_ADDRESS_LEN <= len
                <= SCAN_IND_MAX_LEN,
            Some(BLEAdvertisementType::ConnectRequest) => len == CONNECT_REQ_LEN,
            None => false,
        },
        BLEState::Connection => true,
        _ => false,
    }
}

/// Whether slot `i` holds materialized state whose timer is armed for
/// the absolute tick count `e`.
pub open spec fn slot_armed(slots: Seq<GrantSlot<App>>, i: int, e: u32) -> bool {
    0 <= i < slots.len() && (slots[i] matches GrantSlot::Ready(a) && a.alarm_data.expiration
        == Expiration::Abs(e))
}

/// Whether a process timer armed at `ad.t0` for `exp` has gone off by
/// `now`, on the wrapping 32-bit tick counter.
pub open spec fn alarm_expired(ad: AlarmData, exp: u32, now: u32) -> bool {
    now.wrapping_sub(ad.t0) >= exp.wrapping_sub(ad.t0)
}

/// Whether the radio is held by a process other than slot `i`'s.
pub open spec fn radio_held_by_other(busy: BusyState, i: int) -> bool {
    busy matches BusyState::Busy(p) && p.index != i
}

/// The Bluetooth Low Energy advertising capsule.
///
/// Owns the kernel-side packet buffer, the per-process grant, and the
/// radio-facing state. Interactions with the physical radio and the
/// hardware alarm are queued as [`crate::ble_hil::RadioAction`] values;
/// the board drains them with [`BLE::take_actions`] after every call in.
pub struct BLE {
    /// Who, if anyone, holds the radio.
    pub busy: BusyState,
    /// Per-process driver state.
    pub app: Grant<App>,
    /// What the radio is doing for the driver as a whole.
    pub ble_state: BLEState,
    /// The kernel's own packet buffer, loaded into the radio.
    pub kernel_tx: [u8; PACKET_LENGTH],
    /// The alarm's tick count as of the event being handled; board code
    /// refreshes it before calling in.
    pub now: u32,
    /// The alarm's tick rate in ticks per second, fixed at construction.
    pub alarm_freq: u32,
    /// The process whose transmission is in flight.
    pub sending_app: Option<ProcessId>,
    /// The process whose reception is in flight.
    pub receiving_app: Option<ProcessId>,
    /// Radio instructions queued for the board.
    pub actions: Vec<crate::ble_hil::RadioAction>,
}

impl BLE {
    /// All materialized per-process state is well-formed.
    pub open spec fn grants_wf(&self) -> bool {
        forall|i: int|
            0 <= i < self.app.slots@.len() ==> ((#[trigger] self.app.slots@[i]) matches
                GrantSlot::Ready(a) ==> a.wf())
    }

    /// A fresh driver around its grant; the radio is free and the packet
    /// buffer holds `tx_buf`.
    pub fn new(container: Grant<App>, tx_buf: [u8; PACKET_LENGTH], alarm_freq: u32) -> (r: BLE)
        ensures
            r.busy == BusyState::Free,
            r.app == container,
            r.ble_state == BLEState::Advertising,
            r.kernel_tx@ == tx_buf@,
            r.sending_app is None,
            r.receiving_app is None,
            r.actions@.len() == 0,
            r.now == 0,
            r.alarm_freq == alarm_freq,
    {
        BLE {
            busy: BusyState::Free,
            app: container,
            ble_state: BLEState::Advertising,
            kernel_tx: tx_buf,
            now: 0,
            alarm_freq,
            sending_app: None,
            receiving_app: None,
            actions: Vec::new(),
        }
    }

    /// The alarm's tick count as of the event being handled.
    pub fn alarm_now(&self) -> (r: u32)
        ensures
            r == self.now,
    {
        self.now
    }

    /// Board code refreshes the driver's notion of time before an event.
    pub fn set_alarm_now(&mut self, now: u32)
        ensures
            *final(self) == (BLE { now, ..*old(self) }),
    {
        self.now = now;
    }

    /// Mark the radio held or free.
    pub fn set_busy(&mut self, state: BusyState)
        ensures
            *final(self) == (BLE { busy: state, ..*old(self) }),
    {
        self.busy = state;
    }

    /// Drain the queued radio instructions, in the order they were
    /// decided.
    pub fn take_actions(&mut self) -> (r: Vec<crate::ble_hil::RadioAction>)
        ensures
            r@ == old(self).actions@,
            *final(self) == (BLE { actions: final(self).actions, ..*old(self) }),
            final(self).actions@.len() == 0,
    {
        let mut taken: Vec<crate::ble_hil::RadioAction> = Vec::new();
        core::mem::swap(&mut taken, &mut self.actions);
        taken
    }

    /// Queue a transmission of the kernel packet buffer on behalf of
    /// `appid`.
    fn transmit_buffer(&mut self, appid: ProcessId)
        ensures
            final(self).sending_app == Some(appid),
            final(self).actions@ == old(self).actions@.push(
                crate::ble_hil::RadioAction::TransmitAdvertisement,
            ),
            *final(self) == (BLE {
                sending_app: Some(appid),
                actions: final(self).actions,
                ..*old(self)
            }),
    {
        self.sending_app = Some(appid);
        self.actions.push(crate::ble_hil::RadioAction::TransmitAdvertisement);
    }

    /// Compute which process timer expires next — by smallest wrapping
    /// distance from `now` — and queue arming the hardware alarm for it.
    /// A timer at the largest representable distance is indistinguishable
    /// from the no-timer sentinel and is not armed. Processes whose grant
    /// is on loan are not seen, so this must not be called from inside an
    /// entered grant.
    pub fn reset_active_alarm(&mut self) -> (r: Option<u32>)
        ensures
            *final(self) == (BLE { actions: final(self).actions, ..*old(self) }),
            r matches Some(next) ==> {
                &&& final(self).actions@ == old(self).actions@.push(
                    crate::ble_hil::RadioAction::SetAlarm(next),
                )
                &&& exists|i: int| #[trigger] slot_armed(old(self).app.slots@, i, next)
                &&& next.wrapping_sub(old(self).now) < u32::MAX
                &&& forall|i: int, e: u32|
                    #[trigger] slot_armed(old(self).app.slots@, i, e) ==> next.wrapping_sub(
                        old(self).now,
                    ) <= e.wrapping_sub(old(self).now)
            },
            r is None ==> final(self).actions@ == old(self).actions@ && (forall|i: int, e: u32|
                #[trigger] slot_armed(old(self).app.slots@, i, e) ==> e.wrapping_sub(
                    old(self).now,
                ) == u32::MAX),
    {
        let now = self.now;
        let mut next_alarm: u32 = u32::MAX;
        let mut next_dist: u32 = u32::MAX;
        let n = self.app.slots.len();
        let mut i: usize = 0;
        while i < n
            invariant
                i <= n,
                n == self.app.slots@.len(),
                self == old(self),
                now == old(self).now,
                next_dist < u32::MAX ==> next_dist == next_alarm.wrapping_sub(now) && (exists|
                    j: int,
                |
                    #[trigger] slot_armed(self.app.slots@, j, next_alarm)),
                forall|j: int, e: u32|
                    #[trigger] slot_armed(self.app.slots@, j, e) && j < i ==> next_dist
                        <= e.wrapping_sub(now),
            decreases n - i,
        {
            match &self.app.slots[i] {
                GrantSlot::Ready(a) => {
                    match a.alarm_data.expiration {
                        Expiration::Abs(exp) => {
                            proof {
                                assert(slot_armed(self.app.slots@, i as int, exp));
                            }
                            let t_dist = exp.wrapping_sub(now);
                            if next_dist > t_dist {
                                next_alarm = exp;
                                next_dist = t_dist;
                            }
                        },
                        Expiration::Disabled => {},
                    }
                },
                _ => {},
            }
            i = i + 1;
        }
        if next_dist != u32::MAX {
            self.actions.push(crate::ble_hil::RadioAction::SetAlarm(next_alarm));
            Some(next_alarm)
        } else {
            None
        }
    }

    /// The hardware alarm fired: start the radio work of every process
    /// whose timer expired. A process that finds the radio held by
    /// another — a collision — is pushed one interval into the future
    /// instead; the pseudo-random part of each period makes repeat
    /// collisions unlikely, though nothing enforces fairness between
    /// processes.
    pub fn fired(&mut self)
        requires
            old(self).grants_wf(),
        ensures
            final(self).grants_wf(),
            final(self).app.capacity() == old(self).app.capacity(),
            final(self).app.size == old(self).app.size,
            forall|i: int|
                0 <= i < old(self).app.capacity() ==> ((#[trigger] old(self).app.slots@[i])
                    matches GrantSlot::Ready(a) ==> {
                    &&& final(self).app.slots@[i] is Ready
                    &&& (a.alarm_data.expiration is Disabled ==> final(self).app.slots@[i] == old(
                        self,
                    ).app.slots@[i])
                    &&& (a.alarm_data.expiration matches Expiration::Abs(exp) ==> {
                        &&& (!alarm_expired(a.alarm_data, exp, old(self).now) ==> final(self).app.slots@[i] == old(self).app.slots@[i])
                        &&& (alarm_expired(a.alarm_data, exp, old(self).now)
                            && radio_held_by_other(old(self).busy, i) ==> (final(self).app.slots@[i] matches GrantSlot::Ready(b) && b.alarm_data.t0 == old(
                            self,
                        ).now && b.alarm_data.expiration is Abs))
                        &&& (alarm_expired(a.alarm_data, exp, old(self).now)
                            && !radio_held_by_other(old(self).busy, i) ==> final(self).app.slots@[i] == GrantSlot::Ready((App { state: None, ..a })))
                    })
                }),
    {
        let now = self.now;
        let n = self.app.slots.len();
        let mut i: usize = 0;
        while i < n
            invariant
                i <= n,
                n == self.app.capacity(),
                self.app.capacity() == old(self).app.capacity(),
                self.app.size == old(self).app.size,
                self.grants_wf(),
                self.alarm_freq == old(self).alarm_freq,
                now == old(self).now,
                self.busy == old(self).busy,
                forall|j: int| i <= j < n ==> self.app.slots@[j] == old(self).app.slots@[j],
                forall|j: int|
                    0 <= j < i ==> ((#[trigger] old(self).app.slots@[j]) matches GrantSlot::Ready(
                        a,
                    ) ==> {
                        &&& self.app.slots@[j] is Ready
                        &&& (a.alarm_data.expiration is Disabled ==> self.app.slots@[j] == old(
                            self,
                        ).app.slots@[j])
                        &&& (a.alarm_data.expiration matches Expiration::Abs(exp) ==> {
                            &&& (!alarm_expired(a.alarm_data, exp, old(self).now)
                                ==> self.app.slots@[j] == old(self).app.slots@[j])
                            &&& (alarm_expired(a.alarm_data, exp, old(self).now)
                                && radio_held_by_other(old(self).busy, j) ==> (
                            self.app.slots@[j] matches GrantSlot::Ready(b) && b.alarm_data.t0
                                == old(self).now && b.alarm_data.expiration is Abs))
                            &&& (alarm_expired(a.alarm_data, exp, old(self).now)
                                && !radio_held_by_other(old(self).busy, j) ==> self.app.slots@[j]
                                == GrantSlot::Ready((App { state: None, ..a })))
                        })
                    }),
            decreases n - i,
        {
            let pid = ProcessId { index: i };
            if let Some(mut app) = self.app.take_ready(pid) {
                if let Expiration::Abs(exp) = app.alarm_data.expiration {
                    let expired = now.wrapping_sub(app.alarm_data.t0) >= exp.wrapping_sub(
                        app.alarm_data.t0,
                    );
                    if expired {
                        let held_by_other = match self.busy {
                            BusyState::Busy(busy_app_id) => busy_app_id.index != i,
                            BusyState::Free => false,
                        };
                        if held_by_other {
                            // the radio is taken: reschedule rather than
                            // collide on air
                            app.set_next_alarm(self.alarm_freq, now);
                        } else {
                            self.receiving_app = Some(pid);
                            self.sending_app = Some(pid);
                            if let Some(channel) = app.channel {
                                self.actions.push(
                                    crate::ble_hil::RadioAction::SetChannel(
                                        channel,
                                        ACCESS_ADDRESS_ADV,
                                        CRCINIT,
                                    ),
                                );
                            }
                            self.actions.push(
                                crate::ble_hil::RadioAction::SetTransitionState(
                                    crate::ble_hil::PhyTransition::MoveToRX,
                                ),
                            );
                            app.prepare_advertisement(
                                &mut self.kernel_tx,
                                BLEAdvertisementType::ConnectUndirected,
                            );
                            self.actions.push(
                                crate::ble_hil::RadioAction::SetAdvertisementData,
                            );
                            self.transmit_buffer(pid);
                        }
                    }
                }
                self.app.enter_end(pid, app);
                proof {
                    assert forall|j: int| 0 <= j < self.app.slots@.len() implies ((
                    #[trigger] self.app.slots@[j]) matches GrantSlot::Ready(a) ==> a.wf()) by {
                    }
                }
            }
            i = i + 1;
        }
        self.reset_active_alarm();
    }

    /// A frame is arriving: decide from its type byte and the radio state
    /// whether to read it and what the radio should do afterwards.
    pub fn receive_start(&self, buf: &[u8]) -> (r: crate::ble_hil::ReadAction)
        requires
            buf@.len() >= 1,
        ensures
            r == match self.ble_state {
                BLEState::Advertising => if (buf@[0] & 0x0f) == 3 {
                    crate::ble_hil::ReadAction::ReadFrameAndMoveToTX
                } else if (buf@[0] & 0x0f) == 5 {
                    crate::ble_hil::ReadAction::ReadFrameAndStayRX
                } else {
                    crate::ble_hil::ReadAction::SkipFrame
                },
                BLEState::Connection => crate::ble_hil::ReadAction::ReadFrameAndMoveToTX,
                BLEState::Scanning => crate::ble_hil::ReadAction::ReadFrameAndStayRX,
                BLEState::Initiating => crate::ble_hil::ReadAction::SkipFrame,
            },
    {
        let type_bits: u8 = *slice_index_get(buf, 0) & 0x0f;
        match self.ble_state {
            BLEState::Advertising => {
                if type_bits == 0x03 {
                    crate::ble_hil::ReadAction::ReadFrameAndMoveToTX
                } else if type_bits == 0x05 {
                    crate::ble_hil::ReadAction::ReadFrameAndStayRX
                } else {
                    crate::ble_hil::ReadAction::SkipFrame
                }
            },
            BLEState::Connection => crate::ble_hil::ReadAction::ReadFrameAndMoveToTX,
            BLEState::Scanning => crate::ble_hil::ReadAction::ReadFrameAndStayRX,
            BLEState::Initiating => crate::ble_hil::ReadAction::SkipFrame,
        }
    }

    /// A frame finished arriving. Packets that fail the length rules of
    /// [`valid_pkt_spec`], arrive with a bad checksum, or arrive while no
    /// transmission owner is known are dropped without a transition.
    /// While advertising, a valid request is answered through
    /// [`App::handle_request`]; inside a connection every packet is
    /// answered with an empty PDU. Accepting a connect request tunes the
    /// radio to the connection's first data channel.
    pub fn receive_end(&mut self, buf: &[u8], _len: u8, crc_ok: bool) -> (r:
        crate::ble_hil::PhyTransition)
        requires
            old(self).grants_wf(),
            buf@.len() >= PACKET_LENGTH,
        ensures
            final(self).grants_wf(),
            final(self).app.capacity() == old(self).app.capacity(),
            final(self).app.size == old(self).app.size,
            old(self).sending_app is None ==> r == crate::ble_hil::PhyTransition::NoTransition,
            !crc_ok ==> r == crate::ble_hil::PhyTransition::NoTransition,
            r != crate::ble_hil::PhyTransition::NoTransition ==> crc_ok && valid_pkt_spec(
                old(self).ble_state,
                BLEAdvertisementType::from_u8_spec(buf@[0] & 0x0f),
                buf@[1],
            ),
            (old(self).sending_app matches Some(s) ==> ((crc_ok && old(self).app.is_ready(s)
                && old(self).app.value_of(s).wf() && old(self).ble_state == BLEState::Advertising
                && (buf@[0] & 0x0f) == 3 && buf@[1] == SCAN_REQ_LEN && (old(self).app.value_of(
                s,
            ).advertising_address matches Some(own) && own.0@ =~= buf@.subrange(8, 14))) ==> r
                == crate::ble_hil::PhyTransition::MoveToTX)),
    {
        let mut transition = crate::ble_hil::PhyTransition::NoTransition;
        let sending = match self.sending_app {
            Some(appid) => appid,
            None => { return crate::ble_hil::PhyTransition::NoTransition },
        };
        let type_bits: u8 = *slice_index_get(buf, 0) & 0x0f;
        proof {
            let b0 = buf@[0];
            assert((b0 & 0x0f) <= 0x0f) by (bit_vector);
        }
        let pdu_type = BLEAdvertisementType::from_u8(type_bits);
        let pkt_len: u8 = *slice_index_get(buf, PACKET_HDR_LEN);
        let valid_pkt: bool = if crc_ok {
            match self.ble_state {
                BLEState::Advertising => match pdu_type {
                    Some(advertisement_type) => match advertisement_type {
                        BLEAdvertisementType::ScanRequest
                        | BLEAdvertisementType::ConnectDirected => pkt_len == SCAN_REQ_LEN,
                        BLEAdvertisementType::ScanResponse
                        | BLEAdvertisementType::ConnectUndirected
                        | BLEAdvertisementType::ScanUndirected
                        | BLEAdvertisementType::NonConnectUndirected => pkt_len
                            >= DEVICE_ADDRESS_LEN && pkt_len <= SCAN_IND_MAX_LEN,
                        BLEAdvertisementType::ConnectRequest => pkt_len == CONNECT_REQ_LEN,
                    },
                    None => false,
                },
                BLEState::Connection => true,
                _ => false,
            }
        } else {
            false
        };
        if !valid_pkt {
            return crate::ble_hil::PhyTransition::NoTransition;
        }
        if let Some(mut app) = self.app.take_ready(sending) {
            match self.ble_state {
                BLEState::Advertising => {
                    if let Some(t) = pdu_type {
                        if let Some(pdu) = BLEPduType::from_buffer(t, buf) {
                            transition = app.handle_request(&mut self.kernel_tx, &pdu);
                            if transition == crate::ble_hil::PhyTransition::MoveToTX {
                                self.actions.push(
                                    crate::ble_hil::RadioAction::SetAdvertisementData,
                                );
                            }
                        }
                    }
                },
                BLEState::Connection => {
                    transition = app.handle_connection(&mut self.kernel_tx);
                    self.actions.push(crate::ble_hil::RadioAction::SetAdvertisementData);
                },
                _ => {},
            }
            let mut entered_connection = false;
            if let (Some(channel), Some(BleLinkLayerState::WaitingForConnection(conn_data))) = (
                &app.channel,
                &app.state,
            ) {
                self.actions.push(
                    crate::ble_hil::RadioAction::SetChannel(
                        *channel,
                        conn_data.aa,
                        conn_data.crcinit,
                    ),
                );
                entered_connection = true;
            }
            if entered_connection {
                self.ble_state = BLEState::Connection;
            }
            self.app.enter_end(sending, app);
            proof {
                assert forall|j: int| 0 <= j < self.app.slots@.len() implies ((
                #[trigger] self.app.slots@[j]) matches GrantSlot::Ready(a) ==> a.wf()) by {
                }
            }
        }
        transition
    }

    /// A transmission finished; nothing to deliver yet, but the next
    /// process timer must be re-armed.
    pub fn transmit_event(&mut self, _crc_ok: bool)
        ensures
            final(self).app == old(self).app,
            final(self).busy == old(self).busy,
            final(self).ble_state == old(self).ble_state,
    {
        if self.sending_app.is_some() {
            self.reset_active_alarm();
        }
    }

    /// An advertisement completed. While advertising, move on to the next
    /// advertising channel and transmit again, or — after channel 39 —
    /// end the advertising event and re-arm the process timer. Inside a
    /// connection, hop to the next data channel and respond after the
    /// inter-frame spacing.
    pub fn advertisement_done(&mut self) -> (r: crate::ble_hil::TxImmediate)
        requires
            old(self).grants_wf(),
        ensures
            final(self).grants_wf(),
            final(self).app.capacity() == old(self).app.capacity(),
            final(self).app.size == old(self).app.size,
            old(self).sending_app is None ==> r == crate::ble_hil::TxImmediate::GoToSleep,
            (old(self).sending_app matches Some(s) ==> ((old(self).app.is_ready(s) && old(
                self,
            ).ble_state == BLEState::Advertising && old(self).app.value_of(s).state != Some(
                BleLinkLayerState::RespondingToScanRequest,
            )) ==> {
                let a = old(self).app.value_of(s);
                &&& (a.channel == Some(crate::ble_hil::RadioChannel::AdvertisingChannel37) ==> r
                    == crate::ble_hil::TxImmediate::TX && final(self).app.value_of(s).channel
                    == Some(crate::ble_hil::RadioChannel::AdvertisingChannel38))
                &&& (a.channel == Some(crate::ble_hil::RadioChannel::AdvertisingChannel38) ==> r
                    == crate::ble_hil::TxImmediate::TX && final(self).app.value_of(s).channel
                    == Some(crate::ble_hil::RadioChannel::AdvertisingChannel39))
                &&& (a.channel == Some(crate::ble_hil::RadioChannel::AdvertisingChannel39) ==> r
                    == crate::ble_hil::TxImmediate::GoToSleep && final(self).app.value_of(
                    s,
                ).alarm_data.t0 == old(self).now)
            })),
            (old(self).sending_app matches Some(s) ==> ((old(self).app.is_ready(s) && old(
                self,
            ).ble_state == BLEState::Connection && (old(self).app.value_of(s).state matches Some(
                st,
            ) && st is WaitingForConnection)) ==> r
                == crate::ble_hil::TxImmediate::RespondAfterTifs)),
    {
        let mut tx_response = crate::ble_hil::TxImmediate::GoToSleep;
        let sending = match self.sending_app {
            Some(appid) => appid,
            None => { return crate::ble_hil::TxImmediate::GoToSleep },
        };
        let now = self.now;
        if let Some(mut app) = self.app.take_ready(sending) {
            match self.ble_state {
                BLEState::Advertising => {
                    let responding = app.state == Some(
                        BleLinkLayerState::RespondingToScanRequest,
                    );
                    if responding {
                        app.prepare_advertisement(
                            &mut self.kernel_tx,
                            BLEAdvertisementType::ConnectUndirected,
                        );
                        self.actions.push(crate::ble_hil::RadioAction::SetAdvertisementData);
                    }
                    if let Some(channel) = app.channel {
                        if let Some(next_channel) = channel.get_next_advertising_channel() {
                            app.channel = Some(next_channel);
                            self.actions.push(
                                crate::ble_hil::RadioAction::SetChannel(
                                    next_channel,
                                    ACCESS_ADDRESS_ADV,
                                    CRCINIT,
                                ),
                            );
                            tx_response = crate::ble_hil::TxImmediate::TX;
                        } else {
                            app.set_next_alarm(self.alarm_freq, now);
                        }
                    }
                },
                BLEState::Connection => {
                    if let Some(BleLinkLayerState::WaitingForConnection(mut conn_data)) =
                    app.state {
                        let channel = conn_data.next_channel();
                        self.actions.push(
                            crate::ble_hil::RadioAction::SetChannel(
                                channel,
                                conn_data.aa,
                                conn_data.crcinit,
                            ),
                        );
                        tx_response = crate::ble_hil::TxImmediate::RespondAfterTifs;
                        app.state = Some(BleLinkLayerState::WaitingForConnection(conn_data));
                        app.channel = Some(channel);
                    }
                },
                _ => {},
            }
            self.app.enter_end(sending, app);
            proof {
                assert forall|j: int| 0 <= j < self.app.slots@.len() implies ((
                #[trigger] self.app.slots@[j]) matches GrantSlot::Ready(a) ==> a.wf()) by {
                }
            }
        }
        self.reset_active_alarm();
        tx_response
    }

    /// The scan or advertisement window timed out: reload the
    /// advertisement and transmit again.
    pub fn timer_expired(&mut self)
        requires
            old(self).grants_wf(),
        ensures
            final(self).grants_wf(),
            final(self).app.capacity() == old(self).app.capacity(),
            final(self).app.size == old(self).app.size,
            (old(self).sending_app matches Some(s) ==> (old(self).app.is_ready(s) ==> (
            final(self).actions@.len() >= old(self).actions@.len() + 2 && final(self).actions@[old(
                self,
            ).actions@.len() as int] == crate::ble_hil::RadioAction::SetAdvertisementData && final(self).actions@[old(self).actions@.len() as int + 1] ==
                crate::ble_hil::RadioAction::TransmitAdvertisement))),
    {
        let sending = match self.sending_app {
            Some(appid) => appid,
            None => { return },
        };
        if let Some(mut app) = self.app.take_ready(sending) {
            app.prepare_advertisement(
                &mut self.kernel_tx,
                BLEAdvertisementType::ConnectUndirected,
            );
            self.actions.push(crate::ble_hil::RadioAction::SetAdvertisementData);
            self.app.enter_end(sending, app);
            proof {
                assert forall|j: int| 0 <= j < self.app.slots@.len() implies ((
                #[trigger] self.app.slots@[j]) matches GrantSlot::Ready(a) ==> a.wf()) by {
                }
            }
            self.transmit_buffer(sending);
            self.reset_active_alarm();
        }
    }
}

impl BLEAdvertisementType {
    /// What [`BLEAdvertisementType::from_u8`] returns, as a
    /// specification-level function.
    pub open spec fn from_u8_spec(pdu_type: u8) -> Option<BLEAdvertisementType> {
        if pdu_type == 0 {
            Some(BLEAdvertisementType::ConnectUndirected)
        } else if pdu_type == 1 {
            Some(BLEAdvertisementType::ConnectDirected)
        } else if pdu_type == 2 {
            Some(BLEAdvertisementType::NonConnectUndirected)
        } else if pdu_type == 3 {
            Some(BLEAdvertisementType::ScanRequest)
        } else if pdu_type == 4 {
            Some(BLEAdvertisementType::ScanResponse)
        } else if pdu_type == 5 {
            Some(BLEAdvertisementType::ConnectRequest)
        } else if pdu_type == 6 {
            Some(BLEAdvertisementType::ScanUndirected)
        } else {
            None
        }
    }
}

/// Whether a requested transmit power is one the radio can represent:
/// 0 to +10 dBm, or the two's-complement encodings of -20 to -1 dBm.
pub open spec fn valid_tx_power(p: u8) -> bool {
    p <= 10 || p >= 0xec
}

/// The advertising interval a process may configure, clamped to the
/// range the protocol allows: 20 to 10240 milliseconds.
pub open spec fn clamp_interval_ms(data: int) -> u32 {
    if data < 20 {
        20u32
    } else if data > 10240 {
        10240u32
    } else {
        data as u32
    }
}

/// The return value `command` owes once the grant was entered: the state
/// machine is consulted before anything happens, and a command that does
/// not fit the process's current state fails with the busy code — or the
/// invalid/size codes where the inputs, not the timing, are wrong.
pub open spec fn ble_command_result(
    command_num: usize,
    a0: App,
    busy: BusyState,
    pid: ProcessId,
    data: usize,
) -> CommandReturn {
    if command_num > 6 {
        CommandReturn::Failure(ErrorCode::NOSUPPORT)
    } else if !a0.wf() {
        CommandReturn::Failure(ErrorCode::FAIL)
    } else if command_num == 0 {
        if a0.process_status == Some(AppBLEState::Initialized) {
            CommandReturn::Success
        } else {
            CommandReturn::Failure(ErrorCode::BUSY)
        }
    } else if command_num == 1 {
        if a0.process_status == Some(AppBLEState::Advertising) || a0.process_status == Some(
            AppBLEState::Scanning,
        ) {
            CommandReturn::Success
        } else {
            CommandReturn::Failure(ErrorCode::BUSY)
        }
    } else if command_num == 2 {
        if a0.process_status == Some(AppBLEState::Advertising) || a0.process_status == Some(
            AppBLEState::Scanning,
        ) {
            CommandReturn::Failure(ErrorCode::BUSY)
        } else if valid_tx_power((data % 256) as u8) {
            CommandReturn::Success
        } else {
            CommandReturn::Failure(ErrorCode::INVAL)
        }
    } else if command_num == 3 {
        if busy == BusyState::Busy(pid) {
            CommandReturn::Failure(ErrorCode::BUSY)
        } else {
            CommandReturn::Success
        }
    } else if command_num == 4 {
        if a0.process_status == Some(AppBLEState::Advertising) || a0.process_status == Some(
            AppBLEState::Scanning,
        ) {
            CommandReturn::Failure(ErrorCode::BUSY)
        } else if a0.advertisement_buf is Some {
            CommandReturn::Success
        } else {
            CommandReturn::Failure(ErrorCode::INVAL)
        }
    } else if command_num == 5 {
        if a0.process_status == Some(AppBLEState::Initialized) {
            CommandReturn::Success
        } else {
            CommandReturn::Failure(ErrorCode::BUSY)
        }
    } else if command_num == 6 {
        if a0.process_status == Some(AppBLEState::Initialized) {
            if a0.advertisement_buf is Some {
                CommandReturn::Success
            } else {
                CommandReturn::Failure(ErrorCode::SIZE)
            }
        } else {
            CommandReturn::Failure(ErrorCode::INVAL)
        }
    } else {
        CommandReturn::Failure(ErrorCode::NOSUPPORT)
    }
}

/// Check at run time that a stored per-process state is well-formed; a
/// failed check makes the operation fail safe instead of misbehaving.
fn check_app_wf(app: &App) -> (r: bool)
    ensures
        r == app.wf(),
{
    let buf_ok = match &app.advertisement_buf {
        Some(b) => b.data.len() >= PACKET_LENGTH,
        None => true,
    };
    let channel_ok = match &app.channel {
        Some(c) => match c {
            crate::ble_hil::RadioChannel::DataChannel(i) => *i < 37,
            _ => true,
        },
        None => true,
    };
    let state_ok = match &app.state {
        Some(BleLinkLayerState::WaitingForConnection(cd)) => cd.unmapped_channel < 37 && cd.hop
            <= 0x1F,
        _ => true,
    };
    buf_ok && PACKET_PAYLOAD_START <= app.idx && app.idx <= PACKET_LENGTH && 20
        <= app.advertisement_interval_ms && app.advertisement_interval_ms <= 10240
        && app.scan_timeout_ms <= 10240 && channel_ok && state_ok
}

impl Driver for BLE {
    #[verifier::rlimit(60)]
    /// The command dispatch of the driver: start advertising (0), stop
    /// (1), configure transmit power (2), configure the advertising
    /// interval in milliseconds, clamped to the protocol's range (3),
    /// clear the payload (4), start passive scanning (5), initialize the
    /// driver and its address (6). An unsupported number is a protocol
    /// error of its own, refused before any grant work; grant failures
    /// surface as their error codes; a command that conflicts with the
    /// process's current state fails busy rather than reordering.
    fn command(
        &mut self,
        command_num: usize,
        data: usize,
        _arg1: usize,
        appid: ProcessId,
        procs: &mut ProcessTable,
    ) -> (r: CommandReturn)
        ensures
            final(self).app.capacity() == old(self).app.capacity(),
            final(self).app.size == old(self).app.size,
            old(self).grants_wf() ==> final(self).grants_wf(),
            command_num > 6 ==> r == CommandReturn::Failure(ErrorCode::NOSUPPORT) && *final(self)
                == *old(self) && final(procs).slots@ == old(procs).slots@,
            old(self).app.capacity() == old(procs).capacity() ==> {
                &&& (command_num <= 6 ==> (old(self).app.enter_outcome(*old(procs), appid) matches
                Err(e) ==> r == CommandReturn::Failure(e.as_error_code()) && final(self).app.slots@ == old(self).app.slots@))
                &&& (old(self).app.enter_outcome(*old(procs), appid) matches Ok(a0) ==> r
                    == ble_command_result(command_num, a0, old(self).busy, appid, data))
                &&& (old(self).app.enter_outcome(*old(procs), appid) matches Ok(a0) ==> (
                command_num == 0 && a0.wf() && a0.process_status == Some(AppBLEState::Initialized)
                    ==> (final(self).app.is_ready(appid) && final(self).app.value_of(
                    appid,
                ).process_status == Some(AppBLEState::Advertising) && final(self).app.value_of(
                    appid,
                ).channel == Some(crate::ble_hil::RadioChannel::AdvertisingChannel37))))
                &&& (old(self).app.enter_outcome(*old(procs), appid) matches Ok(a0) ==> (
                command_num == 1 && a0.wf() && (a0.process_status == Some(AppBLEState::Advertising)
                    || a0.process_status == Some(AppBLEState::Scanning)) ==> (final(self).app.is_ready(appid) && final(self).app.value_of(appid).process_status == Some(
                    AppBLEState::Initialized,
                ))))
                &&& (old(self).app.enter_outcome(*old(procs), appid) matches Ok(a0) ==> (
                command_num == 5 && a0.wf() && a0.process_status == Some(AppBLEState::Initialized)
                    ==> (final(self).app.is_ready(appid) && final(self).app.value_of(
                    appid,
                ).process_status == Some(AppBLEState::Scanning))))
                &&& (old(self).app.enter_outcome(*old(procs), appid) matches Ok(a0) ==> ((a0.wf()
                    && command_num <= 6 && r == CommandReturn::Failure(ErrorCode::BUSY)) ==> (
                final(self).app.is_ready(appid) && {
                    let b = final(self).app.value_of(appid);
                    &&& b.process_status == a0.process_status
                    &&& b.channel == a0.channel
                    &&& b.alarm_data == a0.alarm_data
                    &&& b.advertisement_buf == a0.advertisement_buf
                })))
                &&& (old(self).app.enter_outcome(*old(procs), appid) matches Ok(a0) ==> (
                command_num == 2 && a0.wf() && r == CommandReturn::Success ==> (final(self).app.is_ready(appid) && final(self).app.value_of(appid).tx_power == (data
                    % 256) as u8 && final(self).actions@ == old(self).actions@.push(
                    crate::ble_hil::RadioAction::SetTxPower((data % 256) as u8),
                ))))
                &&& (old(self).app.enter_outcome(*old(procs), appid) matches Ok(a0) ==> (
                command_num == 3 && a0.wf() && r == CommandReturn::Success ==> (final(self).app.is_ready(appid) && final(self).app.value_of(
                    appid,
                ).advertisement_interval_ms == clamp_interval_ms(data as int))))
                &&& (old(self).app.enter_outcome(*old(procs), appid) matches Ok(a0) ==> (
                command_num == 4 && a0.wf() && r == CommandReturn::Success ==> (final(self).app.is_ready(appid) && final(self).app.value_of(appid).idx
                    == PACKET_PAYLOAD_START && (final(self).app.value_of(
                    appid,
                ).advertisement_buf matches Some(b2) && (forall|k: int|
                    PACKET_PAYLOAD_START <= k < PACKET_LENGTH ==> #[trigger] b2.data@[k] == 0)))))
                &&& (old(self).app.enter_outcome(*old(procs), appid) matches Ok(a0) ==> (
                command_num == 6 && a0.wf() && r == CommandReturn::Success ==> (final(self).app.is_ready(appid) && {
                    let b = final(self).app.value_of(appid);
                    &&& (b.advertising_address matches Some(a) && a.0@ =~= device_address_bytes())
                    &&& (b.advertisement_buf matches Some(d) && {
                        &&& d.data@[PACKET_HDR_PDU as int] == ((0x04u8 << 4) | adv_type_num(
                            BLEAdvertisementType::ConnectUndirected,
                        ))
                        &&& d.data@[PACKET_HDR_LEN as int] == 6
                        &&& forall|i: int|
                            0 <= i < 6 ==> #[trigger] d.data@[PACKET_ADDR_START + i]
                                == device_address_bytes()[i]
                    })
                })))
            },
    {
        if command_num > 6 {
            // protocol error in its own right: answered before any grant
            // work, whatever the process's state
            return CommandReturn::failure(ErrorCode::NOSUPPORT);
        }
        if self.app.capacity_len() != procs.slots.len() {
            return CommandReturn::failure(ErrorCode::FAIL);
        }
        let now = self.now;
        let freq = self.alarm_freq;
        match self.app.enter_begin(procs, appid) {
            Err(e) => CommandReturn::failure(e.into_error_code()),
            Ok(mut app) => {
                if !check_app_wf(&app) {
                    self.app.enter_end(appid, app);
                    proof {
                        if old(self).grants_wf() {
                            self.lemma_one_slot_wf(old(self), appid);
                        }
                    }
                    return CommandReturn::failure(ErrorCode::FAIL);
                }
                let mut arm_alarm = false;
                let r = if command_num == 0 {
                    // start periodic advertisements
                    if app.process_status == Some(AppBLEState::Initialized) {
                        app.process_status = Some(AppBLEState::Advertising);
                        app.channel = Some(crate::ble_hil::RadioChannel::AdvertisingChannel37);
                        app.random_nonce = now;
                        app.set_next_alarm(freq, now);
                        arm_alarm = true;
                        CommandReturn::success()
                    } else {
                        CommandReturn::failure(ErrorCode::BUSY)
                    }
                } else if command_num == 1 {
                    // stop advertising or scanning
                    match app.process_status {
                        Some(AppBLEState::Advertising) | Some(AppBLEState::Scanning) => {
                            app.process_status = Some(AppBLEState::Initialized);
                            CommandReturn::success()
                        },
                        _ => CommandReturn::failure(ErrorCode::BUSY),
                    }
                } else if command_num == 2 {
                    // configure transmit power, in dBm
                    if app.process_status == Some(AppBLEState::Scanning) || app.process_status
                        == Some(AppBLEState::Advertising) {
                        CommandReturn::failure(ErrorCode::BUSY)
                    } else {
                        let power: u8 = (data % 256) as u8;
                        if power <= 10 || power >= 0xec {
                            app.tx_power = power;
                            self.actions.push(crate::ble_hil::RadioAction::SetTxPower(power));
                            CommandReturn::success()
                        } else {
                            CommandReturn::failure(ErrorCode::INVAL)
                        }
                    }
                } else if command_num == 3 {
                    // configure the advertising interval
                    let busy_self = match self.busy {
                        BusyState::Busy(busy_id) => busy_id.index == appid.index,
                        BusyState::Free => false,
                    };
                    if busy_self {
                        CommandReturn::failure(ErrorCode::BUSY)
                    } else {
                        let clamped: u32 = if data < 20 {
                            20
                        } else if data > 10240 {
                            10240
                        } else {
                            data as u32
                        };
                        app.advertisement_interval_ms = clamped;
                        CommandReturn::success()
                    }
                } else if command_num == 4 {
                    // clear the advertisement payload
                    let rc = app.reset_payload();
                    match rc {
                        ReturnCode::SUCCESS => CommandReturn::success(),
                        ReturnCode::EBUSY => CommandReturn::failure(ErrorCode::BUSY),
                        _ => CommandReturn::failure(ErrorCode::INVAL),
                    }
                } else if command_num == 5 {
                    // start passive scanning
                    if app.process_status == Some(AppBLEState::Initialized) {
                        app.process_status = Some(AppBLEState::Scanning);
                        app.channel = Some(crate::ble_hil::RadioChannel::AdvertisingChannel37);
                        app.set_next_alarm(freq, now);
                        arm_alarm = true;
                        CommandReturn::success()
                    } else {
                        CommandReturn::failure(ErrorCode::BUSY)
                    }
                } else if command_num == 6 {
                    // initialize: generate the device address and stamp the
                    // packet header; the advertisement buffer must already
                    // be allowed
                    if app.process_status == Some(AppBLEState::Initialized) {
                        let status = app.generate_random_address(appid);
                        if status == ReturnCode::SUCCESS {
                            match app.configure_advertisement_pdu() {
                                ReturnCode::SUCCESS => CommandReturn::success(),
                                _ => CommandReturn::failure(ErrorCode::SIZE),
                            }
                        } else {
                            CommandReturn::failure(ErrorCode::SIZE)
                        }
                    } else {
                        CommandReturn::failure(ErrorCode::INVAL)
                    }
                } else {
                    CommandReturn::failure(ErrorCode::NOSUPPORT)
                };
                self.app.enter_end(appid, app);
                proof {
                    if old(self).grants_wf() {
                        self.lemma_one_slot_wf(old(self), appid);
                    }
                }
                if arm_alarm {
                    self.reset_active_alarm();
                }
                r
            },
        }
    }

    /// The buffer dispatch of the driver: GAP payload fields by their
    /// type number, the passive-scan buffer (0x31) and the advertisement
    /// buffer (0x32). Buffers move atomically: the previous holding comes
    /// back on success, the offer comes back beside the error on failure.
    fn allow_shared(
        &mut self,
        caller: ProcessId,
        which: usize,
        slice: SharedBuffer,
        procs: &mut ProcessTable,
    ) -> (r: Result<SharedBuffer, (SharedBuffer, ErrorCode)>)
        ensures
            final(self).app.capacity() == old(self).app.capacity(),
            final(self).app.size == old(self).app.size,
            old(self).grants_wf() ==> final(self).grants_wf(),
            AllowType::from_usize_spec(which) is None ==> r == Err::<
                SharedBuffer,
                (SharedBuffer, ErrorCode),
            >((slice, ErrorCode::NOSUPPORT)) && final(self).app.slots@ == old(self).app.slots@,
            (AllowType::from_usize_spec(which) is Some && old(self).app.capacity() == old(
                procs,
            ).capacity()) ==> (old(self).app.enter_outcome(*old(procs), caller) matches Err(e)
                ==> r == Err::<SharedBuffer, (SharedBuffer, ErrorCode)>((
                slice,
                e.as_error_code(),
            )) && final(self).app.slots@ == old(self).app.slots@),
            (AllowType::from_usize_spec(which) == Some(AllowType::InitAdvertisementBuffer) && old(
                self,
            ).app.capacity() == old(procs).capacity()) ==> (old(self).app.enter_outcome(
                *old(procs),
                caller,
            ) matches Ok(a0) ==> {
                &&& (a0.wf() && a0.process_status == Some(AppBLEState::NotInitialized)
                    && slice.data@.len() >= PACKET_LENGTH ==> (r is Ok && final(self).app.is_ready(caller) && final(self).app.value_of(caller).process_status == Some(
                    AppBLEState::Initialized,
                ) && (final(self).app.value_of(caller).advertisement_buf matches Some(stored)
                    && stored.owner == slice.owner && stored.id == slice.id && stored.data@.len()
                    == slice.data@.len() && (forall|k: int|
                    0 <= k < PACKET_LENGTH ==> #[trigger] stored.data@[k] == 0) && (forall|k: int|
                    PACKET_LENGTH <= k < slice.data@.len() ==> #[trigger] stored.data@[k]
                        == slice.data@[k])) && (r matches Ok(previous) && {
                    ||| a0.advertisement_buf == Some(previous)
                    ||| (a0.advertisement_buf is None && previous.data@.len() == 0)
                })))
                &&& (a0.wf() && a0.process_status == Some(AppBLEState::NotInitialized)
                    && slice.data@.len() < PACKET_LENGTH ==> r == Err::<
                    SharedBuffer,
                    (SharedBuffer, ErrorCode),
                >((slice, ErrorCode::SIZE)) && final(self).app.is_ready(caller) && final(self).app.value_of(caller) == a0)
                &&& (a0.wf() && a0.process_status != Some(AppBLEState::NotInitialized) ==> r
                    == Err::<SharedBuffer, (SharedBuffer, ErrorCode)>((slice, ErrorCode::INVAL))
                    && final(self).app.is_ready(caller) && final(self).app.value_of(caller)
                    == a0)
            }),
            AllowType::from_usize_spec(which) matches Some(t) ==> (old(self).app.capacity()
                == old(procs).capacity() ==> (t matches AllowType::BLEGap(g) ==> (old(
                self,
            ).app.enter_outcome(*old(procs), caller) matches Ok(a0) ==> {
                &&& (a0.wf() && a0.process_status == Some(AppBLEState::NotInitialized) ==> r
                    == Err::<SharedBuffer, (SharedBuffer, ErrorCode)>((slice, ErrorCode::INVAL))
                    && final(self).app.is_ready(caller) && final(self).app.value_of(caller)
                    == a0)
                &&& (a0.wf() && a0.process_status != Some(AppBLEState::NotInitialized) && a0.idx
                    + slice.data@.len() + 2 > PACKET_LENGTH ==> r == Err::<
                    SharedBuffer,
                    (SharedBuffer, ErrorCode),
                >((slice, ErrorCode::SIZE)) && final(self).app.is_ready(caller) && final(self).app.value_of(caller) == a0)
                &&& (a0.wf() && a0.process_status != Some(AppBLEState::NotInitialized) && a0.idx
                    + slice.data@.len() + 2 <= PACKET_LENGTH && a0.advertisement_buf is None ==> r
                    == Err::<SharedBuffer, (SharedBuffer, ErrorCode)>((slice, ErrorCode::INVAL))
                    && final(self).app.is_ready(caller) && final(self).app.value_of(caller)
                    == a0)
                &&& (a0.wf() && a0.process_status != Some(AppBLEState::NotInitialized) && a0.idx
                    + slice.data@.len() + 2 <= PACKET_LENGTH ==> (a0.advertisement_buf matches
                Some(d) ==> (r is Ok && (r matches Ok(previous) && {
                    ||| a0.app_write == Some(previous)
                    ||| (a0.app_write is None && previous.data@.len() == 0)
                }) && final(self).app.is_ready(caller) && {
                    let b = final(self).app.value_of(caller);
                    &&& b.app_write is None
                    &&& b.idx == a0.idx + slice.data@.len() + 2
                    &&& (b.advertisement_buf matches Some(d2) && {
                        &&& d2.data@.len() == d.data@.len()
                        &&& d2.data@[a0.idx as int] == (slice.data@.len() + 1) as u8
                        &&& d2.data@[a0.idx + 1] == gap_type_num(g)
                        &&& d2.data@[PACKET_HDR_LEN as int] == (a0.idx
                            + slice.data@.len()) as u8
                        &&& forall|k: int|
                            0 <= k < slice.data@.len() ==> #[trigger] d2.data@[a0.idx + 2 + k]
                                == slice.data@[k]
                    })
                })))
            }))),
            (AllowType::from_usize_spec(which) == Some(AllowType::PassiveScanning) && old(
                self,
            ).app.capacity() == old(procs).capacity()) ==> (old(self).app.enter_outcome(
                *old(procs),
                caller,
            ) matches Ok(a0) ==> {
                &&& (a0.wf() && (a0.process_status == Some(AppBLEState::NotInitialized)
                    || a0.process_status == Some(AppBLEState::Initialized)) ==> (r is Ok && final(self).app.is_ready(caller) && final(self).app.value_of(caller).app_read == Some(slice)
                    && final(self).app.value_of(caller).process_status == Some(
                    AppBLEState::Initialized,
                ) && (r matches Ok(previous) && {
                    ||| a0.app_read == Some(previous)
                    ||| (a0.app_read is None && previous.data@.len() == 0)
                })))
                &&& (a0.wf() && !(a0.process_status == Some(AppBLEState::NotInitialized)
                    || a0.process_status == Some(AppBLEState::Initialized)) ==> r == Err::<
                    SharedBuffer,
                    (SharedBuffer, ErrorCode),
                >((slice, ErrorCode::INVAL)))
            }),
    {
        let allow_type = match AllowType::from_usize(which) {
            Some(t) => t,
            None => { return Err((slice, ErrorCode::NOSUPPORT)) },
        };
        if self.app.capacity_len() != procs.slots.len() {
            return Err((slice, ErrorCode::FAIL));
        }
        match self.app.enter_begin(procs, caller) {
            Err(e) => Err((slice, e.into_error_code())),
            Ok(mut app) => {
                if !check_app_wf(&app) {
                    self.app.enter_end(caller, app);
                    proof {
                        if old(self).grants_wf() {
                            self.lemma_one_slot_wf(old(self), caller);
                        }
                    }
                    return Err((slice, ErrorCode::FAIL));
                }
                let result: Result<SharedBuffer, (SharedBuffer, ErrorCode)> = match allow_type {
                    AllowType::BLEGap(gap_type) => {
                        if app.process_status != Some(AppBLEState::NotInitialized) {
                            let previous = option_take(&mut app.app_write);
                            app.app_write = Some(slice);
                            let rc = app.set_gap_data(gap_type);
                            match rc {
                                ReturnCode::SUCCESS => {
                                    match previous {
                                        Some(b) => Ok(b),
                                        None => Ok(SharedBuffer::empty()),
                                    }
                                },
                                ReturnCode::ESIZE => {
                                    let offered = option_take(&mut app.app_write);
                                    app.app_write = previous;
                                    match offered {
                                        Some(b) => Err((b, ErrorCode::SIZE)),
                                        None => Err((SharedBuffer::empty(), ErrorCode::SIZE)),
                                    }
                                },
                                _ => {
                                    let offered = option_take(&mut app.app_write);
                                    app.app_write = previous;
                                    match offered {
                                        Some(b) => Err((b, ErrorCode::INVAL)),
                                        None => Err((SharedBuffer::empty(), ErrorCode::INVAL)),
                                    }
                                },
                            }
                        } else {
                            Err((slice, ErrorCode::INVAL))
                        }
                    },
                    AllowType::PassiveScanning => {
                        match app.process_status {
                            Some(AppBLEState::NotInitialized) | Some(AppBLEState::Initialized) => {
                                let previous = option_take(&mut app.app_read);
                                app.app_read = Some(slice);
                                app.process_status = Some(AppBLEState::Initialized);
                                match previous {
                                    Some(b) => Ok(b),
                                    None => Ok(SharedBuffer::empty()),
                                }
                            },
                            _ => Err((slice, ErrorCode::INVAL)),
                        }
                    },
                    AllowType::InitAdvertisementBuffer => {
                        if app.process_status == Some(AppBLEState::NotInitialized) {
                            if slice.len() >= PACKET_LENGTH {
                                let previous = option_take(&mut app.advertisement_buf);
                                app.advertisement_buf = Some(slice);
                                app.process_status = Some(AppBLEState::Initialized);
                                app.initialize_advertisement_buffer();
                                match previous {
                                    Some(b) => Ok(b),
                                    None => Ok(SharedBuffer::empty()),
                                }
                            } else {
                                Err((slice, ErrorCode::SIZE))
                            }
                        } else {
                            Err((slice, ErrorCode::INVAL))
                        }
                    },
                };
                self.app.enter_end(caller, app);
                proof {
                    if old(self).grants_wf() {
                        self.lemma_one_slot_wf(old(self), caller);
                    }
                }
                result
            },
        }
    }

    /// The callback dispatch of the driver: subscription 0 is the scan
    /// callback, registered or replaced before scanning starts.
    fn subscribe(
        &mut self,
        subscribe_num: usize,
        callback: Callback,
        procs: &mut ProcessTable,
    ) -> (r: Result<Callback, (Callback, ErrorCode)>)
        ensures
            final(self).app.capacity() == old(self).app.capacity(),
            final(self).app.size == old(self).app.size,
            old(self).grants_wf() ==> final(self).grants_wf(),
            subscribe_num != 0 ==> r == Err::<Callback, (Callback, ErrorCode)>((
                callback,
                ErrorCode::NOSUPPORT,
            )) && final(self).app.slots@ == old(self).app.slots@,
            (subscribe_num == 0 && old(self).app.capacity() == old(procs).capacity()) ==> {
                &&& (old(self).app.enter_outcome(*old(procs), callback.app_id) matches Err(e)
                    ==> r == Err::<Callback, (Callback, ErrorCode)>((callback, e.as_error_code()))
                    && final(self).app.slots@ == old(self).app.slots@)
                &&& (old(self).app.enter_outcome(*old(procs), callback.app_id) matches Ok(a0)
                    ==> {
                    &&& (a0.wf() && (a0.process_status == Some(AppBLEState::NotInitialized)
                        || a0.process_status == Some(AppBLEState::Initialized)) ==> (r is Ok
                        && final(self).app.is_ready(callback.app_id) && final(self).app.value_of(
                        callback.app_id,
                    ).scan_callback == Some(callback) && (r matches Ok(previous) && {
                        ||| a0.scan_callback == Some(previous)
                        ||| (a0.scan_callback is None && previous == (Callback {
                            app_id: (ProcessId { index: 0 }),
                            subscribe_num: 0,
                            fn_ptr: 0,
                            appdata: 0,
                        }))
                    })))
                    &&& (a0.wf() && !(a0.process_status == Some(AppBLEState::NotInitialized)
                        || a0.process_status == Some(AppBLEState::Initialized)) ==> r == Err::<
                        Callback,
                        (Callback, ErrorCode),
                    >((callback, ErrorCode::INVAL)) && final(self).app.is_ready(callback.app_id)
                        && final(self).app.value_of(callback.app_id) == a0)
                })
            },
    {
        if subscribe_num != 0 {
            return Err((callback, ErrorCode::NOSUPPORT));
        }
        if self.app.capacity_len() != procs.slots.len() {
            return Err((callback, ErrorCode::FAIL));
        }
        let appid = callback.app_id();
        match self.app.enter_begin(procs, appid) {
            Err(e) => Err((callback, e.into_error_code())),
            Ok(mut app) => {
                if !check_app_wf(&app) {
                    self.app.enter_end(appid, app);
                    proof {
                        if old(self).grants_wf() {
                            self.lemma_one_slot_wf(old(self), appid);
                        }
                    }
                    return Err((callback, ErrorCode::FAIL));
                }
                let result = match app.process_status {
                    Some(AppBLEState::NotInitialized) | Some(AppBLEState::Initialized) => {
                        let previous = option_take(&mut app.scan_callback);
                        app.scan_callback = Some(callback);
                        match previous {
                            Some(cb) => Ok(cb),
                            None => Ok(Callback::new(ProcessId::new(0), 0, 0, 0)),
                        }
                    },
                    _ => Err((callback, ErrorCode::INVAL)),
                };
                self.app.enter_end(appid, app);
                proof {
                    if old(self).grants_wf() {
                        self.lemma_one_slot_wf(old(self), appid);
                    }
                }
                result
            },
        }
    }
}

impl BLE {
    /// After putting one well-formed state back, all materialized state is
    /// well-formed again if it was before the slot was taken.
    proof fn lemma_one_slot_wf(&self, before: &BLE, pid: ProcessId)
        requires
            before.grants_wf(),
            self.app.slots@.len() == before.app.slots@.len(),
            forall|j: int|
                0 <= j < self.app.slots@.len() && j != pid.index ==> self.app.slots@[j]
                    == before.app.slots@[j],
            pid.index < self.app.slots@.len() ==> ((self.app.slots@[pid.index as int]) matches
                GrantSlot::Ready(a) ==> a.wf()),
        ensures
            self.grants_wf(),
    {
        assert forall|j: int| 0 <= j < self.app.slots@.len() implies ((
        #[trigger] self.app.slots@[j]) matches GrantSlot::Ready(a) ==> a.wf()) by {
            if j != pid.index {
                assert(self.app.slots@[j] == before.app.slots@[j]);
            }
        }
    }
}

impl AllowType {
    /// What [`AllowType::from_usize`] returns, as a specification-level
    /// function.
    pub open spec fn from_usize_spec(n: usize) -> Option<AllowType> {
        if n == 0x01 {
            Some(AllowType::BLEGap(BLEGapType::Flags))
        } else if n == 0x02 {
            Some(AllowType::BLEGap(BLEGapType::IncompleteList16BitServiceIDs))
        } else if n == 0x03 {
            Some(AllowType::BLEGap(BLEGapType::CompleteList16BitServiceIDs))
        } else if n == 0x04 {
            Some(AllowType::BLEGap(BLEGapType::IncompleteList32BitServiceIDs))
        } else if n == 0x05 {
            Some(AllowType::BLEGap(BLEGapType::CompleteList32BitServiceIDs))
        } else if n == 0x06 {
            Some(AllowType::BLEGap(BLEGapType::IncompleteList128BitServiceIDs))
        } else if n == 0x07 {
            Some(AllowType::BLEGap(BLEGapType::CompleteList128BitServiceIDs))
        } else if n == 0x08 {
            Some(AllowType::BLEGap(BLEGapType::ShortedLocalName))
        } else if n == 0x09 {
            Some(AllowType::BLEGap(BLEGapType::CompleteLocalName))
        } else if n == 0x0A {
            Some(AllowType::BLEGap(BLEGapType::TxPowerLevel))
        } else if n == 0x10 {
            Some(AllowType::BLEGap(BLEGapType::DeviceId))
        } else if n == 0x12 {
            Some(AllowType::BLEGap(BLEGapType::SlaveConnectionIntervalRange))
        } else if n == 0x14 {
            Some(AllowType::BLEGap(BLEGapType::List16BitSolicitationIDs))
        } else if n == 0x15 {
            Some(AllowType::BLEGap(BLEGapType::List128BitSolicitationIDs))
        } else if n == 0x16 {
            Some(AllowType::BLEGap(BLEGapType::ServiceData))
        } else if n == 0x19 {
            Some(AllowType::BLEGap(BLEGapType::Appearance))
        } else if n == 0x1A {
            Some(AllowType::BLEGap(BLEGapType::AdvertisingInterval))
        } else if n == 0x31 {
            Some(AllowType::PassiveScanning)
        } else if n == 0x32 {
            Some(AllowType::InitAdvertisementBuffer)
        } else if n == 0xFF {
            Some(AllowType::BLEGap(BLEGapType::ManufacturerSpecificData))
        } else {
            None
        }
    }
}

/// Take the value out of an option, leaving `None` behind.
fn option_take<T>(o: &mut Option<T>) -> (r: Option<T>)
    ensures
        r == *old(o),
        *final(o) is None,
{
    let mut taken: Option<T> = None;
    core::mem::swap(&mut taken, o);
    taken
}

/// Read one slice element by index.
fn slice_index_get<T>(s: &[T], i: usize) -> (r: &T)
    requires
        0 <= i < s@.len(),
    ensures
        *r == s@[i as int],
{
    &s[i]
}

/// Borrow the subrange `[from, to)` of a slice.
fn slice_subrange<T>(s: &[T], from: usize, to: usize) -> (r: &[T])
    requires
        0 <= from <= to <= s@.len(),
    ensures
        r@ == s@.subrange(from as int, to as int),
{
    &s[from..to]
}

/// Copy a slice into an owned vector.
fn slice_to_vec(s: &[u8]) -> (r: Vec<u8>)
    ensures
        r@ == s@,
{
    let mut v: Vec<u8> = Vec::new();
    let n = s.len();
    let mut i: usize = 0;
    while i < n
        invariant
            i <= n,
            n == s@.len(),
            v@ =~= s@.subrange(0, i as int),
        decreases n - i,
    {
        v.push(*slice_index_get(s, i));
        i = i + 1;
    }
    proof {
        assert(v@ =~= s@);
    }
    v
}

} // verus!

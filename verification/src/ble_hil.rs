//! Radio-facing types of the BLE advertising driver.
//!
//! The physical radio is driven by chip code outside this crate. The
//! driver's decisions about it are represented as plain values: which
//! channel to select, what to do with the frame being received, how the
//! radio should transition after an event. Board code reads these values
//! and programs the hardware accordingly.

use vstd::prelude::*;

verus! {

use crate::ble::LLData;

/// One of the forty BLE channels: a data channel by index, or one of the
/// three fixed advertising channels.
#[derive(Clone, Copy, Debug, PartialEq, Eq, Structural)]
pub enum RadioChannel {
    /// A data channel, indexed 0 to 36.
    DataChannel(u8),
    /// Advertising channel 37.
    AdvertisingChannel37,
    /// Advertising channel 38.
    AdvertisingChannel38,
    /// Advertising channel 39.
    AdvertisingChannel39,
}

impl RadioChannel {
    /// A data-channel value is an index below 37.
    pub open spec fn wf(&self) -> bool {
        match *self {
            RadioChannel::DataChannel(i) => i < 37,
            _ => true,
        }
    }

    /// The channel's number in the BLE channel map.
    pub fn channel_number(&self) -> (r: u8)
        ensures
            r == match *self {
                RadioChannel::DataChannel(i) => i,
                RadioChannel::AdvertisingChannel37 => 37u8,
                RadioChannel::AdvertisingChannel38 => 38u8,
                RadioChannel::AdvertisingChannel39 => 39u8,
            },
    {
        match *self {
            RadioChannel::DataChannel(i) => i,
            RadioChannel::AdvertisingChannel37 => 37,
            RadioChannel::AdvertisingChannel38 => 38,
            RadioChannel::AdvertisingChannel39 => 39,
        }
    }

    /// The advertising channel an advertisement moves to after this one:
    /// 37 to 38 to 39, then none — the advertising event is over.
    pub fn get_next_advertising_channel(&self) -> (r: Option<RadioChannel>)
        ensures
            r == match *self {
                RadioChannel::AdvertisingChannel37 => Some(RadioChannel::AdvertisingChannel38),
                RadioChannel::AdvertisingChannel38 => Some(RadioChannel::AdvertisingChannel39),
                _ => None::<RadioChannel>,
            },
    {
        match *self {
            RadioChannel::AdvertisingChannel37 => Some(RadioChannel::AdvertisingChannel38),
            RadioChannel::AdvertisingChannel38 => Some(RadioChannel::AdvertisingChannel39),
            _ => None,
        }
    }
}

/// What the radio should do once the current operation completes.
#[derive(Clone, Copy, Debug, PartialEq, Eq, Structural)]
pub enum PhyTransition {
    /// Stay put; no automatic transition.
    NoTransition,
    /// Switch to transmit after the inter-frame spacing.
    MoveToTX,
    /// Switch to (or stay in) receive.
    MoveToRX,
}

/// What to do with a frame whose reception just started.
#[derive(Clone, Copy, Debug, PartialEq, Eq, Structural)]
pub enum ReadAction {
    /// Read the frame and stay in receive afterwards.
    ReadFrameAndStayRX,
    /// Read the frame and move to transmit afterwards.
    ReadFrameAndMoveToTX,
    /// Ignore the frame.
    SkipFrame,
}

/// Whether to transmit again immediately after a completed advertisement.
#[derive(Clone, Copy, Debug, PartialEq, Eq, Structural)]
pub enum TxImmediate {
    /// Nothing more to send; the radio may sleep.
    GoToSleep,
    /// Transmit the prepared buffer now.
    TX,
    /// Transmit after the inter-frame spacing.
    RespondAfterTifs,
}

/// Link-layer state of a connection being set up: the words programmed
/// into the radio and the channel-hopping state.
#[derive(Clone, Copy, Debug, PartialEq, Eq, Structural)]
pub struct ConnectionData {
    /// Access address, assembled least-significant byte first from the
    /// connect request.
    pub aa: u32,
    /// CRC initialization value, assembled most-significant byte first
    /// from the three seed bytes.
    pub crcinit: u32,
    /// Hop increment: the low five bits of the hop-and-accuracy byte.
    pub hop: u8,
    /// The unmapped data channel most recently used.
    pub unmapped_channel: u8,
}

impl ConnectionData {
    /// The hopping state stays on real channel indices and the hop
    /// increment fits its five-bit field.
    pub open spec fn wf(&self) -> bool {
        self.unmapped_channel < 37 && self.hop <= 0x1F
    }

    /// Extract the radio words and hop increment from a connect request's
    /// link-layer data.
    pub fn new(lldata: &LLData) -> (r: ConnectionData)
        ensures
            r.aa == (lldata.aa@[0] as u32) | ((lldata.aa@[1] as u32) << 8) | ((lldata.aa@[2]
                as u32) << 16) | ((lldata.aa@[3] as u32) << 24),
            r.crcinit == ((lldata.crc_init@[0] as u32) << 16) | ((lldata.crc_init@[1] as u32)
                << 8) | (lldata.crc_init@[2] as u32),
            r.hop == lldata.hop_and_sca & 0x1F,
            r.unmapped_channel == 0,
            r.wf(),
    {
        let aa: u32 = (lldata.aa[0] as u32) | ((lldata.aa[1] as u32) << 8) | ((lldata.aa[2] as u32)
            << 16) | ((lldata.aa[3] as u32) << 24);
        let crcinit: u32 = ((lldata.crc_init[0] as u32) << 16) | ((lldata.crc_init[1] as u32) << 8)
            | (lldata.crc_init[2] as u32);
        let hop: u8 = lldata.hop_and_sca & 0x1F;
        proof {
            let h = lldata.hop_and_sca;
            assert((h & 0x1F) <= 0x1F) by (bit_vector);
        }
        ConnectionData { aa, crcinit, hop, unmapped_channel: 0 }
    }

    /// Hop to the next data channel: the unmapped channel advances by the
    /// hop increment, modulo the 37 data channels.
    pub fn next_channel(&mut self) -> (r: RadioChannel)
        requires
            old(self).wf(),
        ensures
            final(self).wf(),
            final(self).aa == old(self).aa,
            final(self).crcinit == old(self).crcinit,
            final(self).hop == old(self).hop,
            final(self).unmapped_channel == (old(self).unmapped_channel + old(self).hop) % 37,
            r == RadioChannel::DataChannel(final(self).unmapped_channel),
    {
        let next: u8 = (self.unmapped_channel + self.hop) % 37;
        self.unmapped_channel = next;
        RadioChannel::DataChannel(next)
    }
}

/// One instruction to the physical radio, emitted by the driver and
/// performed by board code.
#[derive(Clone, Copy, Debug, PartialEq, Eq, Structural)]
pub enum RadioAction {
    /// Tune to a channel with the given access address and CRC seed.
    SetChannel(RadioChannel, u32, u32),
    /// Transmit the driver's packet buffer.
    TransmitAdvertisement,
    /// Load the driver's packet buffer into the radio without
    /// transmitting.
    SetAdvertisementData,
    /// Start receiving.
    ReceiveAdvertisement,
    /// Request the given transmit power, in the chip's encoding.
    SetTxPower(u8),
    /// Program the automatic transition after the current operation.
    SetTransitionState(PhyTransition),
    /// Arm the hardware alarm for the given tick count.
    SetAlarm(u32),
}

} // verus!

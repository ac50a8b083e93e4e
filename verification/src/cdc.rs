//! Communications-class USB device: a serial port over USB.
//!
//! The capsule presents the standard two-interface layout — a
//! communication interface for control and a data interface with one bulk
//! endpoint in each direction — and runs a transmit state machine on top
//! of the data-IN endpoint: a client lends a buffer, the capsule carves it
//! into packet-sized chunks each time the host polls, and hands the buffer
//! back when everything was sent. The USB controller itself is chip
//! hardware; what the capsule asks of it is emitted as [`CdcAction`]
//! values for the surrounding board code.

use vstd::prelude::*;

verus! {

use crate::returncode::ReturnCode;

/// USB vendor id presented to the host.
pub const VENDOR_ID: u16 = 0x6668;

/// USB product id presented to the host.
pub const PRODUCT_ID: u16 = 0xabce;

/// Endpoint number carrying data from us to the host.
pub const ENDPOINT_IN_NUM: usize = 2;

/// Endpoint number carrying data from the host to us.
pub const ENDPOINT_OUT_NUM: usize = 3;

/// Number of endpoints the capsule drives.
pub const N_ENDPOINTS: usize = 3;

/// Size of one endpoint packet buffer.
pub const PACKET_BUF_LEN: usize = 64;

/// Largest control packet of one supported controller family.
pub const MAX_CTRL_PACKET_SIZE_SAM4L: u8 = 8;

/// Largest control packet of another supported controller family.
pub const MAX_CTRL_PACKET_SIZE_NRF52840: u8 = 64;

/// Direction of an endpoint, seen from the host.
#[derive(Clone, Copy, Debug, PartialEq, Eq, Structural)]
pub enum TransferDirection {
    /// Device to host.
    DeviceToHost,
    /// Host to device.
    HostToDevice,
}

/// USB transfer type of an endpoint.
#[derive(Clone, Copy, Debug, PartialEq, Eq, Structural)]
pub enum TransferType {
    /// Control transfers.
    Control,
    /// Isochronous transfers.
    Isochronous,
    /// Bulk transfers.
    Bulk,
    /// Interrupt transfers.
    Interrupt,
}

/// An endpoint number with its direction, as wired into a descriptor.
#[derive(Clone, Copy, Debug, PartialEq, Eq, Structural)]
pub struct EndpointAddress {
    /// The endpoint number.
    pub number: usize,
    /// The direction.
    pub direction: TransferDirection,
}

impl EndpointAddress {
    /// An endpoint address from its parts.
    pub fn new_const(number: usize, direction: TransferDirection) -> (r: EndpointAddress)
        ensures
            r == (EndpointAddress { number, direction }),
    {
        EndpointAddress { number, direction }
    }
}

/// One endpoint of a configuration.
#[derive(Clone, Copy, Debug, PartialEq, Eq, Structural)]
pub struct EndpointDescriptor {
    /// Where the endpoint sits and which way it points.
    pub endpoint_address: EndpointAddress,
    /// Its transfer type.
    pub transfer_type: TransferType,
    /// Largest packet it accepts.
    pub max_packet_size: u16,
    /// Polling interval in frames.
    pub interval: u8,
}

/// One interface of a configuration.
#[derive(Clone, Copy, Debug, PartialEq, Eq, Structural)]
pub struct InterfaceDescriptor {
    /// Index of the interface.
    pub interface_number: u8,
    /// Class code.
    pub interface_class: u8,
    /// Subclass code.
    pub interface_subclass: u8,
    /// Protocol code.
    pub interface_protocol: u8,
}

/// Subtype of a class-specific communications descriptor.
#[derive(Clone, Copy, Debug, PartialEq, Eq, Structural)]
pub enum CsInterfaceDescriptorSubType {
    /// Header functional descriptor.
    Header,
    /// Call management functional descriptor.
    CallManagement,
    /// Abstract control management functional descriptor.
    AbstractControlManagement,
    /// Union functional descriptor.
    Union,
}

/// A class-specific communications descriptor: subtype and two payload
/// bytes.
#[derive(Clone, Copy, Debug, PartialEq, Eq, Structural)]
pub struct CsInterfaceDescriptor {
    /// Which functional descriptor this is.
    pub subtype: CsInterfaceDescriptorSubType,
    /// First payload byte.
    pub field1: u8,
    /// Second payload byte.
    pub field2: u8,
}

/// The device-level identity presented during enumeration.
#[derive(Clone, Copy, Debug, PartialEq, Eq, Structural)]
pub struct DeviceDescriptor {
    /// Vendor id.
    pub vendor_id: u16,
    /// Product id.
    pub product_id: u16,
    /// Index of the manufacturer string.
    pub manufacturer_string: u8,
    /// Index of the product string.
    pub product_string: u8,
    /// Index of the serial-number string.
    pub serial_number_string: u8,
    /// Device class code.
    pub class: u8,
    /// Largest packet on the default control endpoint.
    pub max_packet_size_ep0: u8,
}

/// What the capsule asks of the USB controller; board code performs these
/// on the hardware.
#[derive(Clone, Copy, Debug, PartialEq, Eq, Structural)]
pub enum CdcAction {
    /// Set up the default control endpoint.
    EnableCtrl,
    /// Attach to the bus.
    Attach,
    /// Hand the given endpoint its IN packet buffer and enable it for
    /// bulk transfers.
    EnableInEndpoint(usize),
    /// Hand the given endpoint its OUT packet buffer and enable it for
    /// bulk transfers.
    EnableOutEndpoint(usize),
    /// Resume the IN endpoint: data is waiting to be sent.
    ResumeIn(usize),
}

/// What the capsule answers when the host polls an IN endpoint.
#[derive(Clone, Debug, PartialEq, Eq)]
pub enum InResult {
    /// A packet of the given size was placed in the endpoint buffer.
    Packet(usize),
    /// Nothing to send; the hardware should wait for a resume.
    Delay,
    /// The transaction is in error.
    Error,
}

/// What the capsule answers when the host delivers an OUT packet.
#[derive(Clone, Copy, Debug, PartialEq, Eq, Structural)]
pub enum OutResult {
    /// The packet was consumed.
    Accepted,
    /// The packet cannot be consumed now; retry later.
    Delay,
    /// The transaction is in error.
    Error,
}

/// The serial-over-USB capsule.
pub struct Cdc {
    /// Device identity served during enumeration.
    pub device_descriptor: DeviceDescriptor,
    /// The communication and data interfaces.
    pub interfaces: Vec<InterfaceDescriptor>,
    /// The class-specific functional descriptors.
    pub cdc_descriptors: Vec<CsInterfaceDescriptor>,
    /// The data endpoints.
    pub endpoints: Vec<EndpointDescriptor>,
    /// The packet buffer of the data-IN endpoint.
    pub in_packet: [u8; PACKET_BUF_LEN],
    /// The client buffer being transmitted, while one is held.
    pub tx_buffer: Option<Vec<u8>>,
    /// Bytes the client asked to send, reported back on completion.
    pub tx_len: usize,
    /// Bytes still to transmit.
    pub tx_remaining: usize,
    /// Where in the client buffer the next packet starts.
    pub tx_offset: usize,
    /// Whether a transmit client is registered.
    pub tx_client_set: bool,
    /// Set when the whole buffer went out: the buffer and length to hand
    /// back to the client. Board code forwards and clears it.
    pub tx_complete: Option<(Vec<u8>, usize)>,
    /// Controller work queued for the board.
    pub actions: Vec<CdcAction>,
}

impl Cdc {
    /// The transmit cursor stays inside the held buffer.
    pub open spec fn tx_wf(&self) -> bool {
        self.tx_buffer matches Some(b) ==> self.tx_offset + self.tx_remaining <= b@.len()
    }

    /// A fresh capsule: the standard communications-device identity — a
    /// communication interface (abstract control model, AT commands) and
    /// a data interface — with the class-specific header, call
    /// management, abstract control management and union descriptors, and
    /// one bulk endpoint in each direction.
    pub fn new(max_ctrl_packet_size: u8) -> (r: Cdc)
        ensures
            r.device_descriptor == (DeviceDescriptor {
                vendor_id: VENDOR_ID,
                product_id: PRODUCT_ID,
                manufacturer_string: 1,
                product_string: 2,
                serial_number_string: 3,
                class: 0x2,
                max_packet_size_ep0: max_ctrl_packet_size,
            }),
            r.interfaces@.len() == 2,
            r.interfaces@[0] == (InterfaceDescriptor {
                interface_number: 0,
                interface_class: 0x02,
                interface_subclass: 0x02,
                interface_protocol: 0x01,
            }),
            r.interfaces@[1] == (InterfaceDescriptor {
                interface_number: 1,
                interface_class: 0x0a,
                interface_subclass: 0x00,
                interface_protocol: 0x00,
            }),
            r.cdc_descriptors@.len() == 4,
            r.cdc_descriptors@[0] == (CsInterfaceDescriptor {
                subtype: CsInterfaceDescriptorSubType::Header,
                field1: 0x10,
                field2: 0x11,
            }),
            r.cdc_descriptors@[1] == (CsInterfaceDescriptor {
                subtype: CsInterfaceDescriptorSubType::CallManagement,
                field1: 0x00,
                field2: 0x01,
            }),
            r.cdc_descriptors@[2] == (CsInterfaceDescriptor {
                subtype: CsInterfaceDescriptorSubType::AbstractControlManagement,
                field1: 0x06,
                field2: 0x00,
            }),
            r.cdc_descriptors@[3] == (CsInterfaceDescriptor {
                subtype: CsInterfaceDescriptorSubType::Union,
                field1: 0x00,
                field2: 0x01,
            }),
            r.endpoints@.len() == 3,
            r.endpoints@[0] == (EndpointDescriptor {
                endpoint_address: (EndpointAddress {
                    number: 4,
                    direction: TransferDirection::DeviceToHost,
                }),
                transfer_type: TransferType::Interrupt,
                max_packet_size: 8,
                interval: 100,
            }),
            r.endpoints@[1] == (EndpointDescriptor {
                endpoint_address: (EndpointAddress {
                    number: ENDPOINT_IN_NUM,
                    direction: TransferDirection::DeviceToHost,
                }),
                transfer_type: TransferType::Bulk,
                max_packet_size: 64,
                interval: 100,
            }),
            r.endpoints@[2] == (EndpointDescriptor {
                endpoint_address: (EndpointAddress {
                    number: ENDPOINT_OUT_NUM,
                    direction: TransferDirection::HostToDevice,
                }),
                transfer_type: TransferType::Bulk,
                max_packet_size: 64,
                interval: 100,
            }),
            r.tx_buffer is None,
            r.tx_complete is None,
            !r.tx_client_set,
            r.tx_len == 0,
            r.tx_remaining == 0,
            r.tx_offset == 0,
            r.actions@.len() == 0,
            r.tx_wf(),
    {
        let mut interfaces: Vec<InterfaceDescriptor> = Vec::new();
        // the communication interface: abstract control model over V.25ter
        interfaces.push(
            InterfaceDescriptor {
                interface_number: 0,
                interface_class: 0x02,
                interface_subclass: 0x02,
                interface_protocol: 0x01,
            },
        );
        // the data interface
        interfaces.push(
            InterfaceDescriptor {
                interface_number: 1,
                interface_class: 0x0a,
                interface_subclass: 0x00,
                interface_protocol: 0x00,
            },
        );
        let mut cdc_descriptors: Vec<CsInterfaceDescriptor> = Vec::new();
        cdc_descriptors.push(
            CsInterfaceDescriptor {
                subtype: CsInterfaceDescriptorSubType::Header,
                field1: 0x10,
                field2: 0x11,
            },
        );
        cdc_descriptors.push(
            CsInterfaceDescriptor {
                subtype: CsInterfaceDescriptorSubType::CallManagement,
                field1: 0x00,
                field2: 0x01,
            },
        );
        cdc_descriptors.push(
            CsInterfaceDescriptor {
                subtype: CsInterfaceDescriptorSubType::AbstractControlManagement,
                field1: 0x06,
                field2: 0x00,
            },
        );
        cdc_descriptors.push(
            CsInterfaceDescriptor {
                subtype: CsInterfaceDescriptorSubType::Union,
                field1: 0x00,
                field2: 0x01,
            },
        );
        let mut endpoints: Vec<EndpointDescriptor> = Vec::new();
        endpoints.push(
            EndpointDescriptor {
                endpoint_address: EndpointAddress::new_const(
                    4,
                    TransferDirection::DeviceToHost,
                ),
                transfer_type: TransferType::Interrupt,
                max_packet_size: 8,
                interval: 100,
            },
        );
        endpoints.push(
            EndpointDescriptor {
                endpoint_address: EndpointAddress::new_const(
                    ENDPOINT_IN_NUM,
                    TransferDirection::DeviceToHost,
                ),
                transfer_type: TransferType::Bulk,
                max_packet_size: 64,
                interval: 100,
            },
        );
        endpoints.push(
            EndpointDescriptor {
                endpoint_address: EndpointAddress::new_const(
                    ENDPOINT_OUT_NUM,
                    TransferDirection::HostToDevice,
                ),
                transfer_type: TransferType::Bulk,
                max_packet_size: 64,
                interval: 100,
            },
        );
        Cdc {
            device_descriptor: DeviceDescriptor {
                vendor_id: VENDOR_ID,
                product_id: PRODUCT_ID,
                manufacturer_string: 1,
                product_string: 2,
                serial_number_string: 3,
                class: 0x2,
                max_packet_size_ep0: max_ctrl_packet_size,
            },
            interfaces,
            cdc_descriptors,
            endpoints,
            in_packet: [0; PACKET_BUF_LEN],
            tx_buffer: None,
            tx_len: 0,
            tx_remaining: 0,
            tx_offset: 0,
            tx_client_set: false,
            tx_complete: None,
            actions: Vec::new(),
        }
    }

    /// Set up the endpoints: the control pipe and the two bulk data
    /// endpoints, each with its packet buffer.
    pub fn enable(&mut self)
        ensures
            final(self).actions@ == old(self).actions@.push(CdcAction::EnableCtrl).push(
                CdcAction::EnableInEndpoint(ENDPOINT_IN_NUM),
            ).push(CdcAction::EnableOutEndpoint(ENDPOINT_OUT_NUM)),
            *final(self) == (Cdc { actions: final(self).actions, ..*old(self) }),
    {
        self.actions.push(CdcAction::EnableCtrl);
        self.actions.push(CdcAction::EnableInEndpoint(ENDPOINT_IN_NUM));
        self.actions.push(CdcAction::EnableOutEndpoint(ENDPOINT_OUT_NUM));
    }

    /// Attach to the bus.
    pub fn attach(&mut self)
        ensures
            final(self).actions@ == old(self).actions@.push(CdcAction::Attach),
            *final(self) == (Cdc { actions: final(self).actions, ..*old(self) }),
    {
        self.actions.push(CdcAction::Attach);
    }

    /// Register the transmit client.
    pub fn set_transmit_client(&mut self)
        ensures
            *final(self) == (Cdc { tx_client_set: true, ..*old(self) }),
    {
        self.tx_client_set = true;
    }

    /// Start sending `tx_len` bytes out of `tx_buffer`. Refused busy — the
    /// buffer handed straight back — while an earlier transmission still
    /// runs, and refused with the size code when the buffer is shorter
    /// than the requested length. On success the capsule keeps the buffer,
    /// arms its chunking state and asks the controller to resume the IN
    /// endpoint.
    pub fn transmit_buffer(&mut self, tx_buffer: Vec<u8>, tx_len: usize) -> (r: (
        ReturnCode,
        Option<Vec<u8>>,
    ))
        requires
            old(self).tx_wf(),
        ensures
            final(self).tx_wf(),
            old(self).tx_buffer is Some ==> (r.0 == ReturnCode::EBUSY && (r.1 matches Some(b)
                && b@ == tx_buffer@) && *final(self) == *old(self)),
            old(self).tx_buffer is None && tx_len > tx_buffer@.len() ==> (r.0 == ReturnCode::ESIZE
                && (r.1 matches Some(b) && b@ == tx_buffer@) && *final(self) == *old(self)),
            old(self).tx_buffer is None && tx_len <= tx_buffer@.len() ==> (r.0
                == ReturnCode::SUCCESS && r.1 is None && final(self).tx_remaining == tx_len
                && final(self).tx_len == tx_len && final(self).tx_offset == 0 && (final(self).tx_buffer matches Some(b) && b@ == tx_buffer@) && final(self).actions@ == old(
                self,
            ).actions@.push(CdcAction::ResumeIn(ENDPOINT_IN_NUM))),
    {
        if self.tx_buffer.is_some() {
            // an earlier transmission still holds the state machine
            (ReturnCode::EBUSY, Some(tx_buffer))
        } else if tx_len > tx_buffer.len() {
            // cannot send more bytes than the buffer holds
            (ReturnCode::ESIZE, Some(tx_buffer))
        } else {
            self.tx_remaining = tx_len;
            self.tx_len = tx_len;
            self.tx_offset = 0;
            self.tx_buffer = Some(tx_buffer);
            self.actions.push(CdcAction::ResumeIn(ENDPOINT_IN_NUM));
            (ReturnCode::SUCCESS, None)
        }
    }

    /// The host polls an IN endpoint. On the bulk endpoint, the next chunk
    /// of the held buffer — up to one packet — moves into the endpoint
    /// buffer; once nothing remains, the buffer and its byte count are
    /// queued for the client and the controller is told to wait.
    /// Interrupt polls are not implemented and error out.
    pub fn packet_in(&mut self, transfer_type: TransferType, _endpoint: usize) -> (r: InResult)
        requires
            old(self).tx_wf(),
        ensures
            final(self).tx_wf(),
            transfer_type == TransferType::Interrupt ==> r == InResult::Error && *final(self)
                == *old(self),
            transfer_type == TransferType::Bulk && old(self).tx_buffer is None ==> r
                == InResult::Delay && *final(self) == *old(self),
            transfer_type == TransferType::Bulk && old(self).tx_buffer is Some && old(
                self,
            ).tx_remaining > 0 ==> {
                &&& r == InResult::Packet(
                    if old(self).tx_remaining < PACKET_BUF_LEN {
                        old(self).tx_remaining
                    } else {
                        PACKET_BUF_LEN
                    },
                )
                &&& final(self).tx_buffer == old(self).tx_buffer
                &&& final(self).tx_remaining == old(self).tx_remaining - (
                if old(self).tx_remaining < PACKET_BUF_LEN {
                    old(self).tx_remaining
                } else {
                    PACKET_BUF_LEN
                })
                &&& final(self).tx_offset == old(self).tx_offset + (
                if old(self).tx_remaining < PACKET_BUF_LEN {
                    old(self).tx_remaining
                } else {
                    PACKET_BUF_LEN
                })
                &&& (forall|k: int|
                    0 <= k < (if old(self).tx_remaining < PACKET_BUF_LEN {
                        old(self).tx_remaining as int
                    } else {
                        PACKET_BUF_LEN as int
                    }) ==> final(self).in_packet@[k] == old(self).tx_buffer->Some_0@[old(
                        self,
                    ).tx_offset + k])
            },
            transfer_type == TransferType::Bulk && old(self).tx_buffer is Some && old(
                self,
            ).tx_remaining == 0 ==> (r == InResult::Delay && final(self).tx_buffer is None && (
            final(self).tx_complete matches Some(done) && done.0@ == old(self).tx_buffer->Some_0@
                && done.1 == old(self).tx_len)),
    {
        match transfer_type {
            TransferType::Interrupt => InResult::Error,
            TransferType::Bulk => {
                let buf = match option_take_cdc(&mut self.tx_buffer) {
                    Some(b) => b,
                    None => { return InResult::Delay },
                };
                let remaining = self.tx_remaining;
                if remaining > 0 {
                    let to_send: usize = if remaining < PACKET_BUF_LEN {
                        remaining
                    } else {
                        PACKET_BUF_LEN
                    };
                    let offset = self.tx_offset;
                    let blen = buf.len();
                    let mut i: usize = 0;
                    while i < to_send
                        invariant
                            i <= to_send,
                            to_send <= PACKET_BUF_LEN,
                            blen == buf@.len(),
                            offset + to_send <= blen,
                            forall|k: int| 0 <= k < i ==> self.in_packet@[k] == buf@[offset + k],
                        decreases to_send - i,
                    {
                        let byte = buf[offset + i];
                        self.in_packet.set(i, byte);
                        i = i + 1;
                    }
                    self.tx_remaining = remaining - to_send;
                    self.tx_offset = offset + to_send;
                    self.tx_buffer = Some(buf);
                    InResult::Packet(to_send)
                } else {
                    // everything went out: hand the buffer back
                    let done_len = self.tx_len;
                    self.tx_complete = Some((buf, done_len));
                    InResult::Delay
                }
            },
            TransferType::Control | TransferType::Isochronous => InResult::Error,
        }
    }

    /// The host delivered an OUT packet; reception is not buffered here,
    /// so bulk packets are simply accepted and interrupt packets error.
    pub fn packet_out(&mut self, transfer_type: TransferType, _endpoint: usize, _packet_bytes: u32)
        -> (r: OutResult)
        ensures
            *final(self) == *old(self),
            r == match transfer_type {
                TransferType::Interrupt => OutResult::Error,
                TransferType::Bulk => OutResult::Accepted,
                _ => OutResult::Error,
            },
    {
        match transfer_type {
            TransferType::Interrupt => OutResult::Error,
            TransferType::Bulk => OutResult::Accepted,
            TransferType::Control | TransferType::Isochronous => OutResult::Error,
        }
    }

    /// Aborting an in-flight transmission is not supported.
    pub fn transmit_abort(&mut self) -> (r: ReturnCode)
        ensures
            *final(self) == *old(self),
            r == ReturnCode::FAIL,
    {
        ReturnCode::FAIL
    }

    /// Single-word transmission is not supported.
    pub fn transmit_word(&mut self, _word: u32) -> (r: ReturnCode)
        ensures
            *final(self) == *old(self),
            r == ReturnCode::FAIL,
    {
        ReturnCode::FAIL
    }

    /// Line parameters are fixed by the USB model; accept any request.
    pub fn configure(&mut self) -> (r: ReturnCode)
        ensures
            *final(self) == *old(self),
            r == ReturnCode::SUCCESS,
    {
        ReturnCode::SUCCESS
    }

    /// Reception into client buffers is not implemented; the request is
    /// acknowledged and nothing more happens.
    pub fn receive_buffer(&mut self, _rx_buffer: Vec<u8>, _rx_len: usize) -> (r: (
        ReturnCode,
        Option<Vec<u8>>,
    ))
        ensures
            *final(self) == *old(self),
            r.0 == ReturnCode::SUCCESS,
            r.1 is None,
    {
        (ReturnCode::SUCCESS, None)
    }

    /// Aborting a reception is not supported.
    pub fn receive_abort(&mut self) -> (r: ReturnCode)
        ensures
            *final(self) == *old(self),
            r == ReturnCode::FAIL,
    {
        ReturnCode::FAIL
    }

    /// Single-word reception is not supported.
    pub fn receive_word(&mut self) -> (r: ReturnCode)
        ensures
            *final(self) == *old(self),
            r == ReturnCode::FAIL,
    {
        ReturnCode::FAIL
    }
}

/// Take the value out of an option, leaving `None` behind.
fn option_take_cdc<T>(o: &mut Option<T>) -> (r: Option<T>)
    ensures
        r == *old(o),
        *final(o) is None,
{
    let mut taken: Option<T> = None;
    core::mem::swap(&mut taken, o);
    taken
}

} // verus!

//! Tests of the capsules and interface types: result encodings, timer
//! types, the BLE driver, the read-only-state driver, the serial-over-USB
//! device, the entropy device and the compression-context store.

use kernel_core::ble;
use kernel_core::ble::{
    AllowType, BLEAdvertisementType, BLEGapType, BLEPduType, BusyState, DeviceAddress, LLData,
    Log, App as BleApp, BLE,
};
use kernel_core::caps::create_boot_capabilities;
use kernel_core::deferred_call::DeferredCallClient;
use kernel_core::cdc::{Cdc, InResult, OutResult, TransferType};
use kernel_core::driver::{Callback, CommandReturn, Driver, SharedBuffer};
use kernel_core::kernel::Kernel;
use kernel_core::nvic::NvicIdx;
use kernel_core::process::{FaultPolicy, ProcessId};
use kernel_core::returncode::{ErrorCode, ReturnCode};
use kernel_core::ros::ROSDriver;
use kernel_core::rubble::{Duration, Instant};
use kernel_core::sixlowpan::{matches_prefix, Context, ContextStore, DummyStore};
use kernel_core::time::{Freq32KHz, Ticks32, Time};
use kernel_core::radio_multimode::{
    CpePatch, DirectCommand, McePatch, Radio, RadioMode, RfCore, RfcMode, RfePatch,
};
use kernel_core::virtio_rng::{SplitVirtQueue, VirtIORng, VirtQueueBuffer};

struct VAlarm;

impl Time for VAlarm {
    type Frequency = Freq32KHz;
    type Ticks = Ticks32;

    fn now(&self) -> Ticks32 {
        panic!()
    }
}

#[test]
fn time_roundtrip() {
    for &start in &[0, 3120, 10000, 22500, 9514094] {
        let rubble = Instant::from_alarm_time::<VAlarm>(start);
        let end = rubble.to_alarm_time(&VAlarm);
        assert!((start as i32 - end as i32).abs() < 10);
    }
}

#[test]
fn instant_and_duration_arithmetic() {
    assert_eq!(Instant::from_raw_micros(123456).raw_micros(), 123456);
    assert_eq!(Duration::from_micros(2_500_000).as_micros(), 2_500_000);
    assert_eq!(Duration::from_millis(1500).as_micros(), 1_500_000);
    assert_eq!(Duration::from_secs(3).as_micros(), 3_000_000);
    assert_eq!(Duration::from_micros(2_500_000).whole_secs(), 2);
    assert_eq!(Duration::from_micros(2_500_999).whole_millis(), 2500);
    // 32768 ticks are exactly one second
    assert_eq!(
        Instant::from_alarm_time::<VAlarm>(32768).raw_micros(),
        1_000_000
    );
}

#[test]
fn return_code_encoding_is_stable() {
    assert_eq!(ReturnCode::SUCCESS.to_num(), 0);
    assert_eq!(ReturnCode::FAIL.to_num(), -1);
    assert_eq!(ReturnCode::EBUSY.to_num(), -2);
    assert_eq!(ReturnCode::EALREADY.to_num(), -3);
    assert_eq!(ReturnCode::EOFF.to_num(), -4);
    assert_eq!(ReturnCode::ERESERVE.to_num(), -5);
    assert_eq!(ReturnCode::EINVAL.to_num(), -6);
    assert_eq!(ReturnCode::ESIZE.to_num(), -7);
    assert_eq!(ReturnCode::ECANCEL.to_num(), -8);
    assert_eq!(ReturnCode::ENOMEM.to_num(), -9);
    assert_eq!(ReturnCode::ENOSUPPORT.to_num(), -10);
    assert_eq!(ReturnCode::ENODEVICE.to_num(), -11);
    assert_eq!(ReturnCode::EUNINSTALLED.to_num(), -12);
    assert_eq!(ReturnCode::ENOACK.to_num(), -13);
    for n in -13..=0 {
        let rc = ReturnCode::from_num(n as isize).unwrap();
        assert_eq!(rc.to_num(), n as isize);
    }
    assert!(ReturnCode::from_num(1).is_none());
    assert!(ReturnCode::from_num(-14).is_none());
}

#[test]
fn error_code_encoding_is_stable() {
    assert_eq!(ErrorCode::FAIL.to_num(), 1);
    assert_eq!(ErrorCode::BUSY.to_num(), 2);
    assert_eq!(ErrorCode::ALREADY.to_num(), 3);
    assert_eq!(ErrorCode::OFF.to_num(), 4);
    assert_eq!(ErrorCode::RESERVE.to_num(), 5);
    assert_eq!(ErrorCode::INVAL.to_num(), 6);
    assert_eq!(ErrorCode::SIZE.to_num(), 7);
    assert_eq!(ErrorCode::CANCEL.to_num(), 8);
    assert_eq!(ErrorCode::NOMEM.to_num(), 9);
    assert_eq!(ErrorCode::NOSUPPORT.to_num(), 10);
    assert_eq!(ErrorCode::NODEVICE.to_num(), 11);
    assert_eq!(ErrorCode::UNINSTALLED.to_num(), 12);
    assert_eq!(ErrorCode::NOACK.to_num(), 13);
    assert_eq!(ErrorCode::BUSY.into_return_code(), ReturnCode::EBUSY);
    assert_eq!(ErrorCode::NOMEM.into_return_code(), ReturnCode::ENOMEM);
}

#[test]
fn nvic_index_roundtrip_with_gap() {
    // line 5 does not exist on this chip
    assert!(NvicIdx::from_index(5).is_none());
    assert!(NvicIdx::from_index(26).is_none());
    assert_eq!(NvicIdx::POWER_CLOCK.index(), 0);
    assert_eq!(NvicIdx::GPIOTE.index(), 6);
    assert_eq!(NvicIdx::SWI5.index(), 25);
    for n in 0..26u32 {
        if n == 5 {
            continue;
        }
        let idx = NvicIdx::from_index(n).unwrap();
        assert_eq!(idx.index(), n);
    }
}

#[test]
fn lldata_wire_roundtrip() {
    let lld = LLData::new();
    let mut buffer = vec![0u8; 39];
    lld.write_to_buffer(&mut buffer);
    // the access address goes out reversed
    assert_eq!(&buffer[14..18], &[0x66, 0x32, 0x19, 0x33]);
    // sixteen-bit fields go out high byte first
    assert_eq!(buffer[22], 0x0d);
    assert_eq!(buffer[23], 0x00);
    let back = LLData::read_from_buffer(&buffer);
    assert_eq!(back, lld);
}

#[test]
fn adv_type_codes() {
    for n in 0..7u8 {
        let t = BLEAdvertisementType::from_u8(n).unwrap();
        assert_eq!(t.to_u8(), n);
    }
    assert!(BLEAdvertisementType::from_u8(7).is_none());
    assert_eq!(
        BLEAdvertisementType::from_u8(3),
        Some(BLEAdvertisementType::ScanRequest)
    );
}

#[test]
fn allow_type_decoding() {
    assert_eq!(
        AllowType::from_usize(0x01),
        Some(AllowType::BLEGap(BLEGapType::Flags))
    );
    assert_eq!(AllowType::from_usize(0x31), Some(AllowType::PassiveScanning));
    assert_eq!(
        AllowType::from_usize(0x32),
        Some(AllowType::InitAdvertisementBuffer)
    );
    assert_eq!(
        AllowType::from_usize(0xFF),
        Some(AllowType::BLEGap(BLEGapType::ManufacturerSpecificData))
    );
    assert!(AllowType::from_usize(0x0B).is_none());
    assert!(AllowType::from_usize(0x33).is_none());
}

#[test]
fn pdu_from_buffer_scan_request() {
    let mut buf = vec![0u8; 39];
    buf[0] = 0x43; // header: scan request
    buf[1] = 12;
    // scanner address at 2..8, advertiser address at 8..14
    for i in 0..6 {
        buf[2 + i] = 0x10 + i as u8;
        buf[8 + i] = 0x20 + i as u8;
    }
    let pdu = BLEPduType::from_buffer(BLEAdvertisementType::ScanRequest, &buf).unwrap();
    match &pdu {
        BLEPduType::ScanRequest(scanner, advertiser) => {
            assert_eq!(scanner.0, [0x10, 0x11, 0x12, 0x13, 0x14, 0x15]);
            assert_eq!(advertiser.0, [0x20, 0x21, 0x22, 0x23, 0x24, 0x25]);
        }
        _ => panic!("wrong PDU decoded"),
    }
    // the address that names the advertiser is the second one
    assert_eq!(pdu.address().0, [0x20, 0x21, 0x22, 0x23, 0x24, 0x25]);

    // a length header too short for an address is refused
    let mut short = vec![0u8; 39];
    short[1] = 5;
    assert!(BLEPduType::from_buffer(BLEAdvertisementType::ScanRequest, &short).is_none());
}

#[test]
fn device_address_compares_by_bytes() {
    let a = DeviceAddress::new(&[1, 2, 3, 4, 5, 6]);
    let b = DeviceAddress::new(&[1, 2, 3, 4, 5, 6]);
    let c = DeviceAddress::new(&[1, 2, 3, 4, 5, 7]);
    assert!(a.same_as(&b));
    assert!(!a.same_as(&c));
}

#[test]
fn log_collects_and_drains() {
    let mut log = Log::new();
    let mut pkt = vec![0u8; 39];
    pkt[0] = 0x43; // scan request: printable
    pkt[1] = 12;
    log.collect_buffer_log(&pkt, 77);
    log.collect_string_log("marker", 78);
    let entries = log.print_log();
    assert_eq!(entries.len(), 1);
    assert_eq!(entries[0].0, 77);
    assert_eq!(entries[0].1, pkt);
    assert_eq!(log.array_ptr, 0);
}

fn ble_fixture() -> (Kernel, ProcessId, BLE) {
    let caps = create_boot_capabilities();
    let mut kernel = Kernel::new(2, 2);
    let pid = kernel
        .load_process(&caps.process_management, FaultPolicy::Restart, 4096, 0, 12)
        .unwrap();
    let grant = kernel.create_grant::<BleApp>(&caps.memory_allocation, 128);
    let ble = BLE::new(grant, [0u8; 39], 32768);
    (kernel, pid, ble)
}

#[test]
fn ble_start_twice_is_busy() {
    let (mut kernel, pid, mut ble) = ble_fixture();
    // allow the advertisement buffer: the process becomes initialized
    let buf = SharedBuffer::new(pid, 0x32, vec![0u8; 39]);
    let r = ble.allow_shared(pid, 0x32, buf, &mut kernel.processes);
    assert!(r.is_ok());
    // start an operation
    let first = ble.command(0, 0, 0, pid, &mut kernel.processes);
    assert_eq!(first, CommandReturn::Success);
    // starting again before completion is refused busy
    let second = ble.command(0, 0, 0, pid, &mut kernel.processes);
    assert_eq!(second, CommandReturn::Failure(ErrorCode::BUSY));
    // stopping takes the process back, after which starting works again
    let stop = ble.command(1, 0, 0, pid, &mut kernel.processes);
    assert_eq!(stop, CommandReturn::Success);
    let third = ble.command(0, 0, 0, pid, &mut kernel.processes);
    assert_eq!(third, CommandReturn::Success);
}

#[test]
fn ble_command_state_machine() {
    let (mut kernel, pid, mut ble) = ble_fixture();
    // commands against an uninitialized process are refused
    assert_eq!(
        ble.command(0, 0, 0, pid, &mut kernel.processes),
        CommandReturn::Failure(ErrorCode::BUSY)
    );
    // unsupported command number
    assert_eq!(
        ble.command(9, 0, 0, pid, &mut kernel.processes),
        CommandReturn::Failure(ErrorCode::NOSUPPORT)
    );
    // an unsupported number is a protocol error in its own right: it is
    // answered before any grant work, even for a missing process
    assert_eq!(
        ble.command(9, 0, 0, ProcessId::new(1), &mut kernel.processes),
        CommandReturn::Failure(ErrorCode::NOSUPPORT)
    );
    let buf = SharedBuffer::new(pid, 0x32, vec![0u8; 64]);
    ble.allow_shared(pid, 0x32, buf, &mut kernel.processes)
        .unwrap();
    // configure transmit power: 4 dBm is representable
    assert_eq!(
        ble.command(2, 4, 0, pid, &mut kernel.processes),
        CommandReturn::Success
    );
    // 100 is out of the representable power range
    assert_eq!(
        ble.command(2, 100, 0, pid, &mut kernel.processes),
        CommandReturn::Failure(ErrorCode::INVAL)
    );
    // initialize: generates the device address
    assert_eq!(
        ble.command(6, 0, 0, pid, &mut kernel.processes),
        CommandReturn::Success
    );
    // a missing process surfaces the grant error
    let ghost_pid = ProcessId::new(1);
    assert_eq!(
        ble.command(0, 0, 0, ghost_pid, &mut kernel.processes),
        CommandReturn::Failure(ErrorCode::INVAL)
    );
}

#[test]
fn ble_interval_command_honors_its_argument() {
    let (mut kernel, pid, mut ble) = ble_fixture();
    let buf = SharedBuffer::new(pid, 0x32, vec![0u8; 39]);
    ble.allow_shared(pid, 0x32, buf, &mut kernel.processes)
        .unwrap();
    // a representable interval is stored as asked
    assert_eq!(
        ble.command(3, 5000, 0, pid, &mut kernel.processes),
        CommandReturn::Success
    );
    let stored = match &ble.app.slots[pid.idx()] {
        kernel_core::grant::GrantSlot::Ready(app) => app.advertisement_interval_ms,
        _ => panic!("the grant must be materialized"),
    };
    assert_eq!(stored, 5000);
    // out-of-range requests are clamped to the protocol's bounds
    ble.command(3, 5, 0, pid, &mut kernel.processes);
    let stored = match &ble.app.slots[pid.idx()] {
        kernel_core::grant::GrantSlot::Ready(app) => app.advertisement_interval_ms,
        _ => panic!("the grant must be materialized"),
    };
    assert_eq!(stored, 20);
    ble.command(3, 99_999, 0, pid, &mut kernel.processes);
    let stored = match &ble.app.slots[pid.idx()] {
        kernel_core::grant::GrantSlot::Ready(app) => app.advertisement_interval_ms,
        _ => panic!("the grant must be materialized"),
    };
    assert_eq!(stored, 10240);
}

#[test]
fn ble_init_allow_zeroes_the_stored_packet() {
    let (mut kernel, pid, mut ble) = ble_fixture();
    let mut bytes = vec![0xABu8; 48];
    bytes[40] = 0xCD;
    let buf = SharedBuffer::new(pid, 0x32, bytes);
    ble.allow_shared(pid, 0x32, buf, &mut kernel.processes)
        .unwrap();
    let stored = match &ble.app.slots[pid.idx()] {
        kernel_core::grant::GrantSlot::Ready(app) => app.advertisement_buf.clone().unwrap(),
        _ => panic!("the grant must be materialized"),
    };
    // the packet image is zeroed; bytes past it are kept
    assert!(stored.data[0..39].iter().all(|b| *b == 0));
    assert_eq!(stored.data[40], 0xCD);
}

#[test]
fn ble_allow_too_short_advertisement_buffer() {
    let (mut kernel, pid, mut ble) = ble_fixture();
    let buf = SharedBuffer::new(pid, 0x32, vec![0u8; 10]);
    match ble.allow_shared(pid, 0x32, buf, &mut kernel.processes) {
        Err((returned, ErrorCode::SIZE)) => assert_eq!(returned.data.len(), 10),
        _ => panic!("a buffer shorter than a packet must be refused with the size code"),
    }
}

#[test]
fn ble_allow_returns_previous_scan_buffer() {
    let (mut kernel, pid, mut ble) = ble_fixture();
    let first = SharedBuffer::new(pid, 0x31, vec![0xAA; 20]);
    let r1 = ble.allow_shared(pid, 0x31, first, &mut kernel.processes).unwrap();
    // nothing was held before: the placeholder is empty
    assert_eq!(r1.data.len(), 0);
    // the second allow for the same id returns the first buffer intact
    let second = SharedBuffer::new(pid, 0x31, vec![0xBB; 30]);
    let r2 = ble.allow_shared(pid, 0x31, second, &mut kernel.processes).unwrap();
    assert_eq!(r2.data, vec![0xAA; 20]);
}

#[test]
fn ble_gap_payload_lands_in_advertisement() {
    let (mut kernel, pid, mut ble) = ble_fixture();
    let buf = SharedBuffer::new(pid, 0x32, vec![0xFF; 39]);
    ble.allow_shared(pid, 0x32, buf, &mut kernel.processes)
        .unwrap();
    // append a two-byte flags field
    let gap = SharedBuffer::new(pid, 0x01, vec![0x06, 0x05]);
    let r = ble.allow_shared(pid, 0x01, gap, &mut kernel.processes);
    assert!(r.is_ok());
    // and read the buffer back by re-allowing the advertisement id:
    // refused, since the process is initialized now — the payload is
    // observed through the grant instead
    match ble.allow_shared(
        pid,
        0x32,
        SharedBuffer::new(pid, 0x32, vec![0u8; 39]),
        &mut kernel.processes,
    ) {
        Err((_, ErrorCode::INVAL)) => {}
        _ => panic!("re-allowing the advertisement buffer is invalid once initialized"),
    }
    // an oversized field is refused with the size code
    let big = SharedBuffer::new(pid, 0x01, vec![0; 38]);
    match ble.allow_shared(pid, 0x01, big, &mut kernel.processes) {
        Err((returned, ErrorCode::SIZE)) => assert_eq!(returned.data.len(), 38),
        _ => panic!("an over-long field must be refused with the size code"),
    }
}

#[test]
fn ble_subscribe_scan_callback() {
    let (mut kernel, pid, mut ble) = ble_fixture();
    let cb = Callback::new(pid, 0, 0x8000, 42);
    let r = ble.subscribe(0, cb, &mut kernel.processes);
    assert!(r.is_ok());
    // replacing hands the old callback back
    let cb2 = Callback::new(pid, 0, 0x9000, 43);
    let prev = ble.subscribe(0, cb2, &mut kernel.processes).unwrap();
    assert_eq!(prev.fn_ptr, 0x8000);
    // unsupported subscription number
    match ble.subscribe(7, cb, &mut kernel.processes) {
        Err((_, ErrorCode::NOSUPPORT)) => {}
        _ => panic!("unsupported subscription numbers must be refused"),
    }
}

#[test]
fn ble_receive_start_decisions() {
    let (_kernel, _pid, ble) = ble_fixture();
    let mut buf = vec![0u8; 39];
    buf[0] = 0x03; // scan request
    assert_eq!(
        ble.receive_start(&buf),
        kernel_core::ble_hil::ReadAction::ReadFrameAndMoveToTX
    );
    buf[0] = 0x05; // connect request
    assert_eq!(
        ble.receive_start(&buf),
        kernel_core::ble_hil::ReadAction::ReadFrameAndStayRX
    );
    buf[0] = 0x00; // plain advertisement: not addressed to us
    assert_eq!(
        ble.receive_start(&buf),
        kernel_core::ble_hil::ReadAction::SkipFrame
    );
}

fn advertising_fixture() -> (Kernel, ProcessId, BLE) {
    let (mut kernel, pid, mut ble) = ble_fixture();
    let buf = SharedBuffer::new(pid, 0x32, vec![0u8; 39]);
    ble.allow_shared(pid, 0x32, buf, &mut kernel.processes)
        .unwrap();
    // initialize: the driver generates and installs the device address
    assert_eq!(
        ble.command(6, 0, 0, pid, &mut kernel.processes),
        CommandReturn::Success
    );
    assert_eq!(
        ble.command(0, 0, 0, pid, &mut kernel.processes),
        CommandReturn::Success
    );
    ble.take_actions();
    ble.sending_app = Some(pid);
    (kernel, pid, ble)
}

#[test]
fn ble_receive_end_answers_scan_request_for_us() {
    let (_kernel, pid, mut ble) = advertising_fixture();
    let own = match &ble.app.slots[pid.idx()] {
        kernel_core::grant::GrantSlot::Ready(app) => app.advertising_address.unwrap(),
        _ => panic!("the grant must be materialized"),
    };
    // a scan request aimed at our own address
    let mut buf = vec![0u8; 39];
    buf[0] = 0x03;
    buf[1] = 12;
    for i in 0..6 {
        buf[8 + i] = own.0[i];
    }
    assert_eq!(
        ble.receive_end(&buf, 39, true),
        kernel_core::ble_hil::PhyTransition::MoveToTX
    );
    // the same frame with a bad checksum is dropped
    assert_eq!(
        ble.receive_end(&buf, 39, false),
        kernel_core::ble_hil::PhyTransition::NoTransition
    );
    // a scan request for some other advertiser is ignored
    let mut other = buf.clone();
    other[8] = other[8].wrapping_add(1);
    assert_eq!(
        ble.receive_end(&other, 39, true),
        kernel_core::ble_hil::PhyTransition::NoTransition
    );
    // a scan request with the wrong on-air length is invalid
    let mut wrong_len = buf.clone();
    wrong_len[1] = 13;
    assert_eq!(
        ble.receive_end(&wrong_len, 39, true),
        kernel_core::ble_hil::PhyTransition::NoTransition
    );
}

#[test]
fn ble_receive_end_accepts_connect_request_for_us() {
    let (_kernel, pid, mut ble) = advertising_fixture();
    let own = match &ble.app.slots[pid.idx()] {
        kernel_core::grant::GrantSlot::Ready(app) => app.advertising_address.unwrap(),
        _ => panic!("the grant must be materialized"),
    };
    let mut buf = vec![0u8; 39];
    buf[0] = 0x05;
    buf[1] = 34;
    for i in 0..6 {
        buf[8 + i] = own.0[i];
    }
    // connection parameters
    LLData::new().write_to_buffer(&mut buf);
    assert_eq!(
        ble.receive_end(&buf, 39, true),
        kernel_core::ble_hil::PhyTransition::MoveToRX
    );
    // accepting the connection tuned the radio to a data channel
    assert_eq!(ble.ble_state, kernel_core::ble::BLEState::Connection);
    let actions = ble.take_actions();
    assert!(actions.iter().any(|a| matches!(
        a,
        kernel_core::ble_hil::RadioAction::SetChannel(
            kernel_core::ble_hil::RadioChannel::DataChannel(_),
            _,
            _
        )
    )));
}

#[test]
fn ble_advertisement_done_walks_the_channels() {
    let (_kernel, _pid, mut ble) = advertising_fixture();
    // the advertising event walks 37, 38, 39, then sleeps until the timer
    assert_eq!(ble.advertisement_done(), kernel_core::ble_hil::TxImmediate::TX);
    assert_eq!(ble.advertisement_done(), kernel_core::ble_hil::TxImmediate::TX);
    assert_eq!(
        ble.advertisement_done(),
        kernel_core::ble_hil::TxImmediate::GoToSleep
    );
}

#[test]
fn ble_fired_delays_on_collision() {
    let (_kernel, pid, mut ble) = advertising_fixture();
    // force the timer to be due now
    if let kernel_core::grant::GrantSlot::Ready(app) = &mut ble.app.slots[pid.idx()] {
        app.alarm_data.t0 = 0;
        app.alarm_data.expiration = kernel_core::ble::Expiration::Abs(5);
    }
    ble.set_alarm_now(10);
    // another process holds the radio: the operation is pushed out
    ble.set_busy(BusyState::Busy(ProcessId::new(1)));
    ble.fired();
    let actions = ble.take_actions();
    assert!(!actions
        .iter()
        .any(|a| matches!(a, kernel_core::ble_hil::RadioAction::TransmitAdvertisement)));
    if let kernel_core::grant::GrantSlot::Ready(app) = &ble.app.slots[pid.idx()] {
        // rescheduled from the current time
        assert_eq!(app.alarm_data.t0, 10);
    } else {
        panic!("the grant must still be materialized");
    }
}

#[test]
fn ble_fired_transmits_when_radio_free() {
    let (_kernel, pid, mut ble) = advertising_fixture();
    if let kernel_core::grant::GrantSlot::Ready(app) = &mut ble.app.slots[pid.idx()] {
        app.alarm_data.t0 = 0;
        app.alarm_data.expiration = kernel_core::ble::Expiration::Abs(5);
    }
    ble.set_alarm_now(10);
    ble.fired();
    assert_eq!(ble.sending_app, Some(pid));
    let actions = ble.take_actions();
    assert!(actions
        .iter()
        .any(|a| matches!(a, kernel_core::ble_hil::RadioAction::TransmitAdvertisement)));
    assert!(actions
        .iter()
        .any(|a| matches!(a, kernel_core::ble_hil::RadioAction::SetAlarm(_))));
}

#[test]
fn ble_busy_state_values() {
    let free = BusyState::Free;
    let busy = BusyState::Busy(ProcessId::new(3));
    assert_ne!(free, busy);
    assert_eq!(busy, BusyState::Busy(ProcessId::new(3)));
}

#[test]
fn ros_allow_exchanges_buffers_atomically() {
    let caps = create_boot_capabilities();
    let mut kernel = Kernel::new(2, 0);
    let pid = kernel
        .load_process(&caps.process_management, FaultPolicy::Restart, 256, 0, 12)
        .unwrap();
    let grant = kernel.create_grant(&caps.memory_allocation, 16);
    let mut ros = ROSDriver::new(grant);

    let first = SharedBuffer::new(pid, 0, vec![1, 2, 3, 4]);
    let r1 = ros.allow_shared(pid, 0, first, &mut kernel.processes).unwrap();
    assert_eq!(r1.data.len(), 0);
    // the second allow returns the first buffer intact — not lost
    let second = SharedBuffer::new(pid, 0, vec![9, 9]);
    let r2 = ros.allow_shared(pid, 0, second, &mut kernel.processes).unwrap();
    assert_eq!(r2.data, vec![1, 2, 3, 4]);
    // an unsupported buffer id hands the offer straight back
    let third = SharedBuffer::new(pid, 1, vec![7]);
    match ros.allow_shared(pid, 1, third, &mut kernel.processes) {
        Err((returned, ErrorCode::NOSUPPORT)) => assert_eq!(returned.data, vec![7]),
        _ => panic!("unsupported buffer ids must be refused"),
    }
}

#[test]
fn ros_update_values_writes_the_layout() {
    let caps = create_boot_capabilities();
    let mut kernel = Kernel::new(1, 0);
    let pid = kernel
        .load_process(&caps.process_management, FaultPolicy::Restart, 256, 0, 12)
        .unwrap();
    let grant = kernel.create_grant(&caps.memory_allocation, 16);
    let mut ros = ROSDriver::new(grant);

    let region = SharedBuffer::new(pid, 0, vec![0u8; 16]);
    ros.allow_shared(pid, 0, region, &mut kernel.processes)
        .unwrap();
    ros.update_values(pid, 7, 0x1122334455667788, &mut kernel.processes)
        .unwrap();
    ros.update_values(pid, 7, 0x1122334455667788, &mut kernel.processes)
        .unwrap();
    // retrieve the written region by exchanging it out again
    let out = ros
        .allow_shared(pid, 0, SharedBuffer::new(pid, 0, vec![0u8; 16]), &mut kernel.processes)
        .unwrap();
    // count was 1 on the second update
    assert_eq!(&out.data[0..4], &[1, 0, 0, 0]);
    // pending tasks, little endian
    assert_eq!(&out.data[4..8], &[7, 0, 0, 0]);
    // time ticks, little endian
    assert_eq!(
        &out.data[8..16],
        &[0x88, 0x77, 0x66, 0x55, 0x44, 0x33, 0x22, 0x11]
    );
}

#[test]
fn ros_command_reports_version() {
    let caps = create_boot_capabilities();
    let mut kernel = Kernel::new(1, 0);
    let pid = kernel
        .load_process(&caps.process_management, FaultPolicy::Restart, 256, 0, 12)
        .unwrap();
    let grant = kernel.create_grant(&caps.memory_allocation, 16);
    let mut ros = ROSDriver::new(grant);
    assert_eq!(
        ros.command(0, 0, 0, pid, &mut kernel.processes),
        CommandReturn::SuccessU32(1)
    );
    assert_eq!(
        ros.command(3, 0, 0, pid, &mut kernel.processes),
        CommandReturn::Failure(ErrorCode::NOSUPPORT)
    );
}

#[test]
fn cdc_descriptor_identity() {
    let cdc = Cdc::new(8);
    assert_eq!(cdc.device_descriptor.vendor_id, 0x6668);
    assert_eq!(cdc.device_descriptor.product_id, 0xabce);
    assert_eq!(cdc.device_descriptor.max_packet_size_ep0, 8);
    assert_eq!(cdc.device_descriptor.class, 0x2);
    assert_eq!(cdc.interfaces.len(), 2);
    assert_eq!(cdc.interfaces[0].interface_class, 0x02);
    assert_eq!(cdc.interfaces[1].interface_class, 0x0a);
    assert_eq!(cdc.cdc_descriptors.len(), 4);
    assert_eq!(cdc.endpoints.len(), 3);
    assert_eq!(cdc.endpoints[1].endpoint_address.number, 2);
    assert_eq!(cdc.endpoints[2].endpoint_address.number, 3);
}

#[test]
fn cdc_transmit_busy_and_size_checks() {
    let mut cdc = Cdc::new(64);
    // more bytes than the buffer holds
    let (rc, buf) = cdc.transmit_buffer(vec![0u8; 4], 5);
    assert_eq!(rc, ReturnCode::ESIZE);
    assert!(buf.is_some());
    // a first transmission is accepted
    let (rc, buf) = cdc.transmit_buffer(vec![0u8; 100], 100);
    assert_eq!(rc, ReturnCode::SUCCESS);
    assert!(buf.is_none());
    // a second, while the first is in flight, is refused busy
    let (rc, buf) = cdc.transmit_buffer(vec![1u8; 8], 8);
    assert_eq!(rc, ReturnCode::EBUSY);
    assert_eq!(buf.unwrap(), vec![1u8; 8]);
}

#[test]
fn cdc_packet_chunking_and_completion() {
    let mut cdc = Cdc::new(64);
    let mut data = vec![0u8; 100];
    for (i, b) in data.iter_mut().enumerate() {
        *b = i as u8;
    }
    let (rc, _) = cdc.transmit_buffer(data, 100);
    assert_eq!(rc, ReturnCode::SUCCESS);
    // first poll: one full packet
    match cdc.packet_in(TransferType::Bulk, 2) {
        InResult::Packet(n) => assert_eq!(n, 64),
        _ => panic!("a full packet was due"),
    }
    assert_eq!(cdc.in_packet[0], 0);
    assert_eq!(cdc.in_packet[63], 63);
    // second poll: the remainder
    match cdc.packet_in(TransferType::Bulk, 2) {
        InResult::Packet(n) => assert_eq!(n, 36),
        _ => panic!("the remainder was due"),
    }
    assert_eq!(cdc.in_packet[0], 64);
    // third poll: everything sent; the buffer is handed back
    assert_eq!(cdc.packet_in(TransferType::Bulk, 2), InResult::Delay);
    let (returned, len) = cdc.tx_complete.take().unwrap();
    assert_eq!(len, 100);
    assert_eq!(returned.len(), 100);
    // interrupt polls are not implemented
    assert_eq!(cdc.packet_in(TransferType::Interrupt, 4), InResult::Error);
    // bulk OUT packets are accepted
    assert_eq!(cdc.packet_out(TransferType::Bulk, 3, 8), OutResult::Accepted);
}

fn rng_fixture() -> VirtIORng {
    VirtIORng::new(SplitVirtQueue::new(2))
}

#[test]
fn virtio_rng_buffer_rules() {
    let mut rng = rng_fixture();
    // fewer than four bytes can never hold a word of entropy
    match rng.provide_buffer(vec![0u8; 3]) {
        Err((b, ErrorCode::INVAL)) => assert_eq!(b.len(), 3),
        _ => panic!("short buffers must be refused as invalid"),
    }
    assert_eq!(rng.provide_buffer(vec![0u8; 8]).unwrap(), 8);
    assert_eq!(rng.provide_buffer(vec![0u8; 4]).unwrap(), 12);
    // the queue holds two chains: the third is refused for memory
    match rng.provide_buffer(vec![0u8; 4]) {
        Err((_, ErrorCode::NOMEM)) => {}
        _ => panic!("a full queue must surface as out-of-memory"),
    }
}

#[test]
fn virtio_rng_get_needs_client_and_capacity() {
    let mut dc = DynamicDeferredCallFixture::new();
    let mut rng = rng_fixture();
    assert_eq!(rng.get(&mut dc.dc), Err(ErrorCode::FAIL));
    rng.provide_buffer(vec![0u8; 8]).unwrap();
    // capacity but no client
    assert_eq!(rng.get(&mut dc.dc), Err(ErrorCode::FAIL));
    rng.set_client();
    // nothing ready: the request stays pending and callbacks turn on
    assert_eq!(rng.get(&mut dc.dc), Err(ErrorCode::OFF));
    assert!(rng.callback_pending);
    assert!(rng.virtqueue.used_callbacks_enabled);
    // a second request while one is outstanding is a conflicting
    // operation: refused busy, and no deferred call is scheduled
    assert_eq!(rng.get(&mut dc.dc), Err(ErrorCode::BUSY));
    assert!(!dc.dc.has_pending());
}

struct DynamicDeferredCallFixture {
    dc: kernel_core::deferred_call::DynamicDeferredCall,
    handle: kernel_core::deferred_call::DeferredCallHandle,
}

impl DynamicDeferredCallFixture {
    fn new() -> Self {
        let mut dc = kernel_core::deferred_call::DynamicDeferredCall::new(2);
        let handle = dc.register().unwrap();
        DynamicDeferredCallFixture { dc, handle }
    }
}

#[test]
fn virtio_rng_get_arms_deferred_call_when_data_ready() {
    let mut fix = DynamicDeferredCallFixture::new();
    let mut rng = rng_fixture();
    rng.set_deferred_call_handle(fix.handle);
    rng.set_client();
    rng.provide_buffer(vec![0u8; 8]).unwrap();
    // simulate the device filling the buffer: the platform moves the
    // chain from the available ring to the used ring
    let chain = rng.virtqueue.available.remove(0);
    rng.virtqueue.used.push((chain, 8));
    assert_eq!(rng.get(&mut fix.dc), Ok(()));
    assert!(rng.callback_pending);
    assert!(fix.dc.has_pending());
}

#[test]
fn virtio_rng_cancel_is_idempotent() {
    let mut rng = rng_fixture();
    rng.provide_buffer(vec![0u8; 8]).unwrap();
    let capacity_before = rng.buffer_capacity;
    let available_before = rng.virtqueue.available.len();
    // nothing outstanding: cancel succeeds and changes no state
    assert_eq!(rng.cancel(), Ok(()));
    assert_eq!(rng.buffer_capacity, capacity_before);
    assert_eq!(rng.virtqueue.available.len(), available_before);
    assert!(!rng.callback_pending);
    assert!(!rng.virtqueue.used_callbacks_enabled);
    // and calling it again changes nothing either
    assert_eq!(rng.cancel(), Ok(()));
    assert_eq!(rng.buffer_capacity, capacity_before);
    assert!(!rng.callback_pending);
}

#[test]
fn virtio_rng_delivers_words_little_endian() {
    let mut rng = rng_fixture();
    rng.set_client();
    rng.provide_buffer(vec![0u8; 8]).unwrap();
    rng.callback_pending = true;
    let chain = VirtQueueBuffer {
        buf: vec![0x78, 0x56, 0x34, 0x12, 0xDD, 0xCC, 0xBB, 0xAA],
        len: 8,
        device_writable: true,
    };
    // take the lent chain out of the accounting first
    rng.virtqueue.available.clear();
    let words = rng.buffer_chain_callback(chain, 8);
    assert_eq!(words, vec![0x12345678, 0xAABBCCDD]);
    assert!(!rng.callback_pending);
}

#[test]
fn virtio_rng_deferred_call_delivers_once_and_clears_pending() {
    let mut fix = DynamicDeferredCallFixture::new();
    let mut rng = rng_fixture();
    rng.set_deferred_call_handle(fix.handle);
    rng.set_client();
    rng.provide_buffer(vec![0u8; 8]).unwrap();
    // the device fills the buffer
    let mut chain = rng.virtqueue.available.remove(0);
    chain.buf = vec![0x78, 0x56, 0x34, 0x12, 0xDD, 0xCC, 0xBB, 0xAA];
    rng.virtqueue.used.push((chain, 8));
    assert_eq!(rng.get(&mut fix.dc), Ok(()));
    // the kernel's idle pass fires the deferred call: the words are
    // delivered exactly once and the pending flag is cleared
    let fired = fix.dc.scan_pass();
    assert_eq!(fired.len(), 1);
    rng.call(fired[0], &mut fix.dc);
    assert_eq!(rng.delivered, vec![0x12345678, 0xAABBCCDD]);
    assert!(!rng.callback_pending);
    assert_eq!(rng.virtqueue.used.len(), 0);
    // firing again with nothing queued changes nothing
    let before_cap = rng.buffer_capacity;
    rng.call(fired[0], &mut fix.dc);
    assert!(!rng.callback_pending);
    assert_eq!(rng.buffer_capacity, before_cap);
}

#[test]
fn sixlowpan_prefix_matching() {
    let a = [0xc0u8, 0xc1, 0xc2, 0xc3, 0xc4, 0xc5, 0xc6, 0xc7];
    let b = [0xc0u8, 0xc1, 0xc2, 0xc3, 0xff, 0xff, 0xff, 0xff];
    assert!(matches_prefix(&a, &b, 32));
    // partial byte: the top two bits of byte 4 are 11 in both
    assert!(matches_prefix(&a, &b, 33));
    assert!(matches_prefix(&a, &b, 34));
    assert!(!matches_prefix(&a, &b, 35));
    // a prefix longer than the buffers is never matched
    assert!(!matches_prefix(&a, &b, 65));
    assert!(matches_prefix(&a, &b, 0));
}

#[test]
fn dummy_store_serves_exactly_its_context() {
    let store = DummyStore::new(Context {
        prefix: vec![0xc0, 0xc1, 0xc2, 0xc3, 0xc4, 0xc5, 0xc6, 0xc7],
        prefix_len: 64,
        id: 0,
        compress: true,
    });
    let mut addr = [0u8; 16];
    addr[0..8].copy_from_slice(&[0xc0, 0xc1, 0xc2, 0xc3, 0xc4, 0xc5, 0xc6, 0xc7]);
    assert!(store.get_context_from_addr(&addr).is_some());
    addr[7] = 0;
    assert!(store.get_context_from_addr(&addr).is_none());

    assert!(store.get_context_from_id(0).is_some());
    assert!(store.get_context_from_id(1).is_none());

    let ctx = store
        .get_context_from_prefix(&[0xc0, 0xc1, 0xc2, 0xc3, 0xc4, 0xc5, 0xc6, 0xc7], 64)
        .unwrap();
    assert_eq!(ctx.id, 0);
    assert!(ctx.compress);
    assert!(store
        .get_context_from_prefix(&[0xc0, 0xc1, 0xc2, 0xc3], 32)
        .is_none());
}

#[test]
fn radio_power_sequencing_and_status_decoding() {
    let mut radio = Radio::new(RfCore::new());
    // the core has not reported the done status yet: power-up fails
    assert!(radio.power_up().is_err());
    assert!(radio.rfc.enabled);
    assert_eq!(radio.rfc.mode, RfcMode::BLE);
    // with the done status reported, power-up succeeds
    radio.rfc.status = 0x0400;
    assert!(radio.power_up().is_ok());
    // status decoding: the masked class field is compared against the
    // raw class values, so only an all-clear class reads as success
    radio.rfc.status = 0x0000;
    assert_eq!(radio.get_command_status().0, ReturnCode::SUCCESS);
    radio.rfc.status = 0x0030;
    assert_eq!(radio.get_command_status().0, ReturnCode::SUCCESS);
    radio.rfc.status = 0x0800;
    assert_eq!(radio.get_command_status().0, ReturnCode::EINVAL);
    radio.rfc.status = 0x0100;
    assert_eq!(radio.get_command_status().0, ReturnCode::EINVAL);
    radio.rfc.status = 0x0001;
    assert!(radio.busy());
    radio.rfc.status = 0x0003;
    assert!(!radio.busy());
    // power down always lands
    assert!(radio.power_down().is_ok());
    assert!(!radio.rfc.enabled);
    // direct commands are refused while powered down
    assert_eq!(radio.set_tx_power(7), ReturnCode::FAIL);
    radio.rfc.enable();
    assert_eq!(radio.set_tx_power(7), ReturnCode::SUCCESS);
    assert_eq!(
        *radio.rfc.posted.last().unwrap(),
        DirectCommand::new(0x0010, 7)
    );
    assert_eq!(radio.send_stop_command(), ReturnCode::SUCCESS);
    assert_eq!(
        *radio.rfc.posted.last().unwrap(),
        DirectCommand::new(0x0402, 0)
    );
}

#[test]
fn radio_transmit_is_busy_while_buffer_held() {
    let mut radio = Radio::new(RfCore::new());
    radio.rfc.enable();
    let (rc, returned) = radio.transmit(vec![1, 2, 3], 3);
    assert_eq!(rc, ReturnCode::SUCCESS);
    assert!(returned.is_none());
    // the buffer is owned until the completion event
    let (rc, returned) = radio.transmit(vec![4, 5], 2);
    assert_eq!(rc, ReturnCode::EBUSY);
    assert_eq!(returned.unwrap(), vec![4, 5]);
    // the completion event hands the first buffer back
    let done = radio.tx_done().unwrap();
    assert_eq!(done, vec![1, 2, 3]);
    assert!(radio.tx_done().is_none());
}

#[test]
fn radio_mode_default_patches() {
    let mode = RadioMode::default();
    assert_eq!(mode.mode, RfcMode::Unchanged);
    assert!(matches!(mode.cpe_patch, CpePatch::GenFsk { .. }));
    assert!(matches!(mode.rfe_patch, RfePatch::GenFsk { .. }));
    assert!(matches!(mode.mce_patch, McePatch::GenFsk { .. }));
}

#[test]
fn ble_lldata_defaults() {
    let lld = LLData::new();
    assert_eq!(lld.aa, [0x33, 0x19, 0x32, 0x66]);
    assert_eq!(lld.crc_init, [0x27, 0x01, 0x11]);
    assert_eq!(lld.win_size, 0x03);
    assert_eq!(lld.win_offset, 0x0d00);
    assert_eq!(lld.interval, 0x1800);
    assert_eq!(lld.latency, 0x0000);
    assert_eq!(lld.timeout, 0x4800);
    assert_eq!(lld.chm, [0x00, 0xf0, 0x1f, 0x00, 0x18]);
    assert_eq!(lld.hop_and_sca, 0b0010_1111);
    assert_eq!(ble::PACKET_LENGTH, 39);
}

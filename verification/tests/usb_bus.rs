//! Opening, probing and discovery over a deterministic in-memory USB bus.

use std::collections::VecDeque;

use rptadv_gpio_adapter::abi::{
    DeviceConfig, DeviceInfo, DeviceList, OutputAction, ABI_VERSION, DEVICE_CONFIG_SIZE,
    DEVICE_INFO_PREFIX_SIZE, DEVICE_INFO_SIZE, DEVICE_LIST_CAPACITY, DEVICE_LIST_SIZE,
    DEVICE_SERIAL_CAPACITY, GPIO_INVALID_ARGUMENT, GPIO_OK, GPIO_UNSUPPORTED, GPIO_USB_ERROR,
    HID_REPORT_BYTES, OUTPUT_ACTION_SIZE, PORT_CHAIN_CAPACITY,
};
use rptadv_gpio_adapter::config::ValidatedConfig;
use rptadv_gpio_adapter::device::{GpioDevice, HidStep};
use rptadv_gpio_adapter::discovery::{
    clear_device_info, device_serial, empty_device_info, fill_device_info, prepare_discovery,
    prepare_probe,
};
use rptadv_gpio_adapter::identity::{
    supported_cm119_descriptor, UsbDescriptor, CMEDIA_VENDOR_ID,
};
use rptadv_gpio_adapter::topology::UsbPortPath;
use rptadv_gpio_adapter::transport::{
    hid_transfer_outcome, input_report_request, output_report_request, HeldTransport, ReleaseCall,
};
use rptadv_gpio_adapter::usb::{
    OpenError, UsbCall, UsbGoal, UsbOutcome, UsbReply, UsbSession, SERIAL_TEXT_BYTES,
};

/// Result of a successful USB library call.
const SUCCESS: i32 = 0;

/// Observations of one synthetic bus.
#[derive(Default)]
struct Calls {
    init: usize,
    exit: usize,
    list: usize,
    free_list: usize,
    descriptor: usize,
    ports: usize,
    open: usize,
    serial: usize,
    close: usize,
    claim: usize,
    release: usize,
    kernel_active: usize,
    detach: usize,
    transfer: usize,
    writes: Vec<[u8; HID_REPORT_BYTES]>,
}

/// A synthetic USB library with one kind of device.
struct FakeBus {
    calls: Calls,
    init_result: i32,
    null_context_on_init: bool,
    device_list_result: i32,
    present: Vec<bool>,
    descriptor_result: i32,
    descriptor_results: VecDeque<i32>,
    descriptor: UsbDescriptor,
    bus: u8,
    ports: Vec<u8>,
    port_result: Option<i32>,
    open_results: VecDeque<i32>,
    null_handle_on_open: bool,
    serial: Vec<u8>,
    serial_result: Option<i32>,
    claim_results: VecDeque<i32>,
    kernel_active_result: i32,
    detach_result: i32,
    output_results: VecDeque<i32>,
    input_results: VecDeque<Result<[u8; HID_REPORT_BYTES], i32>>,
    input_return_results: VecDeque<i32>,
}

impl FakeBus {
    /// A normally successful bus with one CM119.
    fn new() -> Self {
        Self {
            calls: Calls::default(),
            init_result: SUCCESS,
            null_context_on_init: false,
            device_list_result: 1,
            present: vec![true],
            descriptor_result: SUCCESS,
            descriptor_results: VecDeque::new(),
            descriptor: UsbDescriptor {
                id_vendor: CMEDIA_VENDOR_ID,
                id_product: 0x0008,
                i_serial_number: 3,
            },
            bus: 3,
            ports: vec![1],
            port_result: None,
            open_results: VecDeque::new(),
            null_handle_on_open: false,
            serial: b"CM119-TEST".to_vec(),
            serial_result: None,
            claim_results: VecDeque::new(),
            kernel_active_result: 0,
            detach_result: SUCCESS,
            output_results: VecDeque::new(),
            input_results: VecDeque::new(),
            input_return_results: VecDeque::new(),
        }
    }

    fn set_device_count(&mut self, count: usize) {
        self.device_list_result = count as i32;
        self.present = vec![true; count];
    }

    /// Answer one library call.
    fn answer(&mut self, call: UsbCall) -> UsbReply {
        match call {
            UsbCall::Init => {
                self.calls.init += 1;
                UsbReply::Initialized {
                    code: self.init_result,
                    context: self.init_result == SUCCESS && !self.null_context_on_init,
                }
            }
            UsbCall::ListDevices => {
                self.calls.list += 1;
                UsbReply::Listed {
                    count: self.device_list_result,
                    present: if self.device_list_result < 0 {
                        Vec::new()
                    } else {
                        self.present.clone()
                    },
                }
            }
            UsbCall::Descriptor(_) => {
                self.calls.descriptor += 1;
                UsbReply::Descriptor {
                    code: self
                        .descriptor_results
                        .pop_front()
                        .unwrap_or(self.descriptor_result),
                    descriptor: self.descriptor,
                }
            }
            UsbCall::BusNumber(_) => UsbReply::BusNumber(self.bus),
            UsbCall::PortNumbers(_) => {
                self.calls.ports += 1;
                let count = self.port_result.unwrap_or(self.ports.len() as i32);
                let mut ports = [0; PORT_CHAIN_CAPACITY];
                if count > 0 && count as usize <= PORT_CHAIN_CAPACITY {
                    let copied = usize::min(count as usize, self.ports.len());
                    ports[..copied].copy_from_slice(&self.ports[..copied]);
                }
                UsbReply::PortNumbers { count, ports }
            }
            UsbCall::Open(_) => {
                self.calls.open += 1;
                let code = self.open_results.pop_front().unwrap_or(SUCCESS);
                UsbReply::Opened {
                    code,
                    handle: code == SUCCESS && !self.null_handle_on_open,
                }
            }
            UsbCall::Claim => {
                self.calls.claim += 1;
                UsbReply::Claimed(self.claim_results.pop_front().unwrap_or(SUCCESS))
            }
            UsbCall::KernelDriverActive => {
                self.calls.kernel_active += 1;
                UsbReply::KernelDriver(self.kernel_active_result)
            }
            UsbCall::DetachKernelDriver => {
                self.calls.detach += 1;
                UsbReply::Detached(self.detach_result)
            }
            UsbCall::SerialText(index) => {
                assert_eq!(index, self.descriptor.i_serial_number);
                self.calls.serial += 1;
                let count = self.serial_result.unwrap_or(self.serial.len() as i32);
                let mut bytes = [0; SERIAL_TEXT_BYTES];
                if count > 0 {
                    let copied = usize::min(self.serial.len(), SERIAL_TEXT_BYTES);
                    bytes[..copied].copy_from_slice(&self.serial[..copied]);
                }
                UsbReply::SerialText { count, bytes }
            }
            UsbCall::Close => {
                self.calls.close += 1;
                UsbReply::Released
            }
            UsbCall::FreeDeviceList => {
                self.calls.free_list += 1;
                UsbReply::Released
            }
            UsbCall::Exit => {
                self.calls.exit += 1;
                UsbReply::Released
            }
        }
    }

    /// Drive one session to its end.
    fn run(&mut self, session: &mut UsbSession) -> UsbOutcome {
        while let Some(call) = session.call() {
            let reply = self.answer(call);
            session.resume(reply);
        }
        session.outcome().expect("an ended session has an outcome")
    }

    /// Give back what a claimed transport owns.
    fn release(&mut self, held: &mut HeldTransport) {
        while let Some(call) = held.release_next() {
            match call {
                ReleaseCall::ReleaseInterface => self.calls.release += 1,
                ReleaseCall::Close => self.calls.close += 1,
                ReleaseCall::Exit => self.calls.exit += 1,
            }
        }
    }

    /// Perform every pending HID transfer of one step and its successors.
    fn drive(&mut self, device: &mut GpioDevice, first: HidStep) -> i32 {
        let mut step = first;
        loop {
            step = match step {
                HidStep::Write(pending) => {
                    self.calls.transfer += 1;
                    self.calls.writes.push(pending.report);
                    let result = self
                        .output_results
                        .pop_front()
                        .unwrap_or(HID_REPORT_BYTES as i32);
                    device.complete_write(pending, hid_transfer_outcome(result), 0)
                }
                HidStep::Read(pending) => {
                    self.calls.transfer += 1;
                    let outcome = match self
                        .input_results
                        .pop_front()
                        .unwrap_or(Ok([u8::MAX; HID_REPORT_BYTES]))
                    {
                        Ok(report) => {
                            let result = self
                                .input_return_results
                                .pop_front()
                                .unwrap_or(HID_REPORT_BYTES as i32);
                            hid_transfer_outcome(result).map(|()| report)
                        }
                        Err(error) => hid_transfer_outcome(error).map(|()| [0; 4]),
                    };
                    device.complete_read(pending, outcome, 0)
                }
                HidStep::Done(code) => return code,
                HidStep::EepromDone { code, .. } => return code,
            };
        }
    }
}

fn ordinary_config() -> DeviceConfig {
    DeviceConfig {
        struct_size: DEVICE_CONFIG_SIZE,
        abi_version: ABI_VERSION,
        usb_port_path: Some(b"3-1:1.0".to_vec()),
        vendor_id: 0,
        product_id: 0,
        profile: 0,
        ptt_inverted: 0,
        gpio_output_enable_mask: 1,
        gpio_output_initial_mask: 1,
    }
}

/// Probe one configuration into a report.
fn device_probe(bus: &mut FakeBus, config: Option<&DeviceConfig>, info: &mut DeviceInfo) -> i32 {
    let setup = match prepare_probe(info, config) {
        Ok(setup) => setup,
        Err(code) => return code,
    };
    let mut session = UsbSession::probe(setup, *info);
    let outcome = bus.run(&mut session);
    if let UsbGoal::Probe { info: report, .. } = session.goal {
        *info = report;
    }
    outcome.code()
}

/// Discover devices into a snapshot.
fn device_discover(bus: &mut FakeBus, list: &mut DeviceList) -> i32 {
    if let Err(code) = prepare_discovery(list) {
        return code;
    }
    let mut session = UsbSession::discover(*list);
    let outcome = bus.run(&mut session);
    if let UsbGoal::Discover { list: snapshot } = session.goal {
        *list = snapshot;
    }
    outcome.code()
}

/// Open the device of one configuration.
fn device_open(bus: &mut FakeBus, config: &DeviceConfig) -> Result<GpioDevice, i32> {
    let setup = ValidatedConfig::from_ffi(Some(config)).ok_or(GPIO_INVALID_ARGUMENT)?;
    let mut session = UsbSession::open(setup);
    let outcome = bus.run(&mut session);
    match (outcome, &session.goal) {
        (UsbOutcome::Opened(product_id), UsbGoal::Open { config: setup }) => {
            Ok(GpioDevice::new(setup, product_id))
        }
        _ => Err(outcome.code()),
    }
}

fn device_close(bus: &mut FakeBus, device: &mut GpioDevice) {
    let first = device.begin_close(0);
    bus.drive(device, first);
    bus.release(&mut HeldTransport::claimed());
}

fn empty_list() -> DeviceList {
    DeviceList {
        struct_size: DEVICE_LIST_SIZE,
        abi_version: 0,
        matching_device_count: 0,
        returned_device_count: 0,
        devices: [empty_device_info(); DEVICE_LIST_CAPACITY],
    }
}

#[test]
fn unopened_libusb_transport_drops_without_ffi_calls() {
    let mut unopened = HeldTransport {
        context: false,
        handle: false,
        claimed: false,
    };
    assert_eq!(unopened.release_next(), None);
}

#[test]
fn claimed_transports_give_back_interface_handle_and_context_in_that_order() {
    let mut held = HeldTransport::claimed();
    assert_eq!(held.release_next(), Some(ReleaseCall::ReleaseInterface));
    assert_eq!(held.release_next(), Some(ReleaseCall::Close));
    assert_eq!(held.release_next(), Some(ReleaseCall::Exit));
    assert_eq!(held.release_next(), None);
}

#[test]
fn device_info_helpers_reset_prefixes_and_fill_a_complete_match() {
    let mut info = empty_device_info();
    assert_eq!(info.struct_size, DEVICE_INFO_SIZE);
    assert_eq!(info.abi_version, ABI_VERSION);
    info.present = 1;
    info.serial[0] = b'x';
    info.struct_size = DEVICE_INFO_PREFIX_SIZE;
    clear_device_info(&mut info);
    assert_eq!(info.present, 0);
    assert_eq!(info.serial[0], b'x');

    info.struct_size = DEVICE_INFO_SIZE;
    let topology = UsbPortPath {
        bus: 2,
        ports: vec![3, 4],
    };
    let descriptor = UsbDescriptor {
        id_vendor: CMEDIA_VENDOR_ID,
        id_product: 0x0008,
        i_serial_number: 3,
    };
    let mut serial = [0; DEVICE_SERIAL_CAPACITY];
    serial[..3].copy_from_slice(&[b'a', b'b', 0]);
    fill_device_info(&mut info, &topology, descriptor, serial);
    assert_eq!(info.present, 1);
    assert_eq!(info.usb_bus, 2);
    assert_eq!(info.usb_port_number_count, 2);
    assert_eq!(&info.usb_port_numbers[..2], &[3, 4]);
    assert_eq!(info.serial[..3], serial[..3]);
    info.struct_size = DEVICE_INFO_PREFIX_SIZE;
    info.serial[0] = b'x';
    fill_device_info(
        &mut info,
        &topology,
        descriptor,
        [0; DEVICE_SERIAL_CAPACITY],
    );
    assert_eq!(info.serial[0], b'x');
    assert!(supported_cm119_descriptor(descriptor));
    assert!(!supported_cm119_descriptor(UsbDescriptor {
        id_vendor: 0x1234,
        ..descriptor
    }));
}

#[test]
fn libusb_backend_covers_successful_discovery_open_exchange_and_release() {
    let mut bus = FakeBus::new();
    let config = ordinary_config();
    let mut info = empty_device_info();
    assert_eq!(device_probe(&mut bus, Some(&config), &mut info), GPIO_OK);
    assert_eq!(info.present, 1);
    assert_eq!(&info.serial[..10], b"CM119-TEST");
    assert_eq!(info.serial[10], 0);

    let mut list = empty_list();
    assert_eq!(device_discover(&mut bus, &mut list), GPIO_OK);
    assert_eq!(list.matching_device_count, 1);
    assert_eq!(list.returned_device_count, 1);
    assert_eq!(list.devices[0].product_id, 0x0008);

    let mut device = device_open(&mut bus, &config).expect("opened device");
    let action = OutputAction {
        struct_size: OUTPUT_ACTION_SIZE,
        abi_version: ABI_VERSION,
        ptt_asserted: 1,
        gpio_output_mask: 0,
    };
    assert_eq!(device.publish_outputs(&action), GPIO_OK);
    let first = device.begin_service(0);
    assert_eq!(bus.drive(&mut device, first), GPIO_OK);
    device_close(&mut bus, &mut device);

    let calls = &bus.calls;
    assert_eq!(calls.init, 3);
    assert_eq!(calls.exit, 3);
    assert_eq!(calls.list, 3);
    assert_eq!(calls.free_list, 3);
    assert_eq!(calls.open, 3);
    assert_eq!(calls.serial, 2);
    assert_eq!(calls.claim, 1);
    assert_eq!(calls.release, 1);
    assert_eq!(calls.close, 3);
    assert!(calls.transfer >= 4);
    assert_eq!(calls.writes.first(), Some(&[0, 0x04, 0x05, 0]));
}

#[test]
fn libusb_backend_retries_claim_after_detaching_an_active_kernel_driver() {
    let mut bus = FakeBus::new();
    bus.claim_results.extend([-7, SUCCESS]);
    bus.kernel_active_result = 1;
    let config = ordinary_config();
    let mut device = device_open(&mut bus, &config).expect("opened device");
    device_close(&mut bus, &mut device);

    assert_eq!(bus.calls.claim, 2);
    assert_eq!(bus.calls.kernel_active, 1);
    assert_eq!(bus.calls.detach, 1);
    assert_eq!(bus.calls.release, 1);
}

#[test]
fn libusb_backend_rejects_malformed_topology_and_descriptor_results() {
    let config = ordinary_config();
    for (bus_number, ports, port_result, descriptor_result) in [
        (0, vec![1], None, SUCCESS),
        (3, vec![1], Some(0), SUCCESS),
        (3, vec![1], Some((PORT_CHAIN_CAPACITY + 1) as i32), SUCCESS),
        (3, vec![0], None, SUCCESS),
        (3, vec![1], None, -8),
    ] {
        let mut bus = FakeBus::new();
        bus.bus = bus_number;
        bus.ports = ports;
        bus.port_result = port_result;
        bus.descriptor_result = descriptor_result;
        assert_eq!(
            device_open(&mut bus, &config).err(),
            Some(GPIO_UNSUPPORTED)
        );
        assert_eq!(bus.calls.open, 0);
        assert_eq!((bus.calls.free_list, bus.calls.exit), (1, 1));
    }
}

#[test]
fn libusb_backend_reports_open_failures_and_releases_partial_resources() {
    let config = ordinary_config();
    for (
        init_result,
        null_context,
        list_result,
        open_result,
        null_handle,
        claim_result,
        active,
        detach,
    ) in [
        (-1, false, 1, 0, false, 0, 0, 0),
        (0, true, 1, 0, false, 0, 0, 0),
        (0, false, -2, 0, false, 0, 0, 0),
        (0, false, 1, -3, false, 0, 0, 0),
        (0, false, 1, 0, true, 0, 0, 0),
        (0, false, 1, 0, false, -4, 0, 0),
        (0, false, 1, 0, false, -5, 1, -6),
    ] {
        let mut bus = FakeBus::new();
        bus.init_result = init_result;
        bus.null_context_on_init = null_context;
        bus.device_list_result = list_result;
        bus.open_results.push_back(open_result);
        bus.null_handle_on_open = null_handle;
        bus.claim_results.push_back(claim_result);
        bus.kernel_active_result = active;
        bus.detach_result = detach;
        assert_eq!(device_open(&mut bus, &config).err(), Some(GPIO_USB_ERROR));
        let has_context = init_result == 0 && !null_context;
        assert_eq!(bus.calls.exit, usize::from(has_context));
        assert_eq!(
            bus.calls.free_list,
            usize::from(has_context && list_result >= 0)
        );
        assert_eq!(
            bus.calls.close,
            usize::from(bus.calls.open == 1 && open_result == 0 && !null_handle)
        );
    }
}

#[test]
fn libusb_backend_rejects_short_and_failed_hid_transfers() {
    let config = ordinary_config();
    for (output_result, input_result, input_return) in [
        (
            HID_REPORT_BYTES as i32 - 1,
            Ok([u8::MAX; HID_REPORT_BYTES]),
            None,
        ),
        (-9, Ok([u8::MAX; HID_REPORT_BYTES]), None),
        (HID_REPORT_BYTES as i32, Err(-10), None),
        (
            HID_REPORT_BYTES as i32,
            Ok([u8::MAX; HID_REPORT_BYTES]),
            Some(HID_REPORT_BYTES as i32 - 1),
        ),
    ] {
        let mut bus = FakeBus::new();
        bus.output_results.push_back(output_result);
        bus.input_results.push_back(input_result);
        bus.input_return_results.extend(input_return);
        let mut device = device_open(&mut bus, &config).expect("opened device");
        let first = device.begin_service(0);
        assert_eq!(bus.drive(&mut device, first), GPIO_USB_ERROR);
        device_close(&mut bus, &mut device);
    }
}

#[test]
fn libusb_backend_handles_missing_and_failed_serial_queries() {
    let config = ordinary_config();

    let mut bus = FakeBus::new();
    bus.descriptor.i_serial_number = 0;
    let mut info = empty_device_info();
    assert_eq!(device_probe(&mut bus, Some(&config), &mut info), GPIO_OK);
    assert_eq!(info.serial, [0; DEVICE_SERIAL_CAPACITY]);
    assert_eq!(bus.calls.open, 0);

    let mut bus = FakeBus::new();
    bus.open_results.push_back(-11);
    let mut info = empty_device_info();
    assert_eq!(device_probe(&mut bus, Some(&config), &mut info), GPIO_OK);
    assert_eq!(info.serial, [0; DEVICE_SERIAL_CAPACITY]);
    assert_eq!(bus.calls.close, 0);

    let mut bus = FakeBus::new();
    bus.serial_result = Some(0);
    let mut info = empty_device_info();
    assert_eq!(device_probe(&mut bus, Some(&config), &mut info), GPIO_OK);
    assert_eq!(info.serial, [0; DEVICE_SERIAL_CAPACITY]);
    assert_eq!(bus.calls.close, 1);
}

#[test]
fn libusb_backend_reports_probe_and_discovery_transport_failures() {
    let config = ordinary_config();
    for (init_result, list_result) in [(-1, 1), (SUCCESS, -2)] {
        let mut bus = FakeBus::new();
        bus.init_result = init_result;
        bus.device_list_result = list_result;
        let mut info = empty_device_info();
        assert_eq!(
            device_probe(&mut bus, Some(&config), &mut info),
            GPIO_USB_ERROR
        );
        let mut list = empty_list();
        assert_eq!(device_discover(&mut bus, &mut list), GPIO_USB_ERROR);
    }
}

#[test]
fn libusb_backend_handles_nonmatching_and_disappearing_devices() {
    let config = ordinary_config();
    let mut bus = FakeBus::new();
    bus.descriptor.id_vendor = 0x1234;
    let mut info = empty_device_info();
    assert_eq!(
        device_probe(&mut bus, Some(&config), &mut info),
        GPIO_UNSUPPORTED
    );

    let mut bus = FakeBus::new();
    bus.descriptor_results.extend([SUCCESS, -12]);
    let mut info = empty_device_info();
    assert_eq!(
        device_probe(&mut bus, Some(&config), &mut info),
        GPIO_UNSUPPORTED
    );

    let mut bus = FakeBus::new();
    bus.descriptor_results.extend([SUCCESS, -13]);
    assert_eq!(
        device_open(&mut bus, &config).err(),
        Some(GPIO_UNSUPPORTED)
    );
}

#[test]
fn libusb_backend_discovery_skips_bad_candidates_and_bounds_the_snapshot() {
    let mut absent = FakeBus::new();
    absent.present = vec![false];
    let mut unreadable = FakeBus::new();
    unreadable.descriptor_result = -14;
    let mut unsupported = FakeBus::new();
    unsupported.descriptor.id_product = 0xffff;
    let mut unplaced = FakeBus::new();
    unplaced.bus = 0;
    let mut crowded = FakeBus::new();
    crowded.set_device_count(DEVICE_LIST_CAPACITY + 1);

    for (bus, matching) in [
        (&mut absent, 0),
        (&mut unreadable, 0),
        (&mut unsupported, 0),
        (&mut unplaced, 0),
        (&mut crowded, DEVICE_LIST_CAPACITY as u32 + 1),
    ] {
        let mut list = empty_list();
        assert_eq!(device_discover(bus, &mut list), GPIO_OK);
        assert!(list.returned_device_count <= DEVICE_LIST_CAPACITY as u32);
        assert_eq!(list.matching_device_count, matching);
        assert_eq!(
            list.returned_device_count,
            u32::min(matching, DEVICE_LIST_CAPACITY as u32)
        );
    }
    assert_eq!(crowded.calls.serial, DEVICE_LIST_CAPACITY);
}

#[test]
fn libusb_backend_covers_null_context_handle_and_candidate_short_circuits() {
    let config = ordinary_config();
    let mut bus = FakeBus::new();
    bus.null_context_on_init = true;
    let mut info = empty_device_info();
    assert_eq!(
        device_probe(&mut bus, Some(&config), &mut info),
        GPIO_USB_ERROR
    );

    let mut bus = FakeBus::new();
    bus.null_context_on_init = true;
    let mut list = empty_list();
    assert_eq!(device_discover(&mut bus, &mut list), GPIO_USB_ERROR);

    let mut bus = FakeBus::new();
    let mut wrong_product = ordinary_config();
    wrong_product.product_id = 0x000c;
    let mut info = empty_device_info();
    assert_eq!(
        device_probe(&mut bus, Some(&wrong_product), &mut info),
        GPIO_UNSUPPORTED
    );

    let mut bus = FakeBus::new();
    bus.present = vec![false];
    let mut info = empty_device_info();
    assert_eq!(
        device_probe(&mut bus, Some(&config), &mut info),
        GPIO_UNSUPPORTED
    );
    assert_eq!(
        device_open(&mut bus, &config).err(),
        Some(GPIO_UNSUPPORTED)
    );

    let mut bus = FakeBus::new();
    bus.null_handle_on_open = true;
    let mut info = empty_device_info();
    assert_eq!(device_probe(&mut bus, Some(&config), &mut info), GPIO_OK);
    assert_eq!(info.serial, [0; DEVICE_SERIAL_CAPACITY]);
}

#[test]
fn malformed_probe_and_discovery_requests_touch_no_bus() {
    let config = ordinary_config();
    let mut bus = FakeBus::new();
    let mut info = empty_device_info();
    info.present = 1;
    assert_eq!(
        device_probe(&mut bus, None, &mut info),
        GPIO_INVALID_ARGUMENT
    );
    assert_eq!(info.present, 0);
    info.struct_size = 0;
    info.present = 1;
    assert_eq!(
        device_probe(&mut bus, Some(&config), &mut info),
        GPIO_INVALID_ARGUMENT
    );
    assert_eq!(info.present, 1);
    let mut list = empty_list();
    list.struct_size = DEVICE_LIST_SIZE - 1;
    list.matching_device_count = 9;
    assert_eq!(
        device_discover(&mut bus, &mut list),
        GPIO_INVALID_ARGUMENT
    );
    assert_eq!(list.matching_device_count, 9);
    assert_eq!(bus.calls.init, 0);
}

#[test]
fn a_failed_open_says_which_call_failed() {
    let setup = || ValidatedConfig::from_ffi(Some(&ordinary_config())).expect("valid");
    let mut bus = FakeBus::new();
    bus.claim_results.extend([-5, -6]);
    bus.kernel_active_result = 1;
    let mut session = UsbSession::open(setup());
    assert_eq!(
        bus.run(&mut session),
        UsbOutcome::OpenFailed(OpenError::Usb(-6))
    );
    let mut bus = FakeBus::new();
    bus.device_list_result = -2;
    let mut session = UsbSession::open(setup());
    assert_eq!(
        bus.run(&mut session),
        UsbOutcome::OpenFailed(OpenError::Usb(-2))
    );
    let mut bus = FakeBus::new();
    bus.set_device_count(0);
    let mut session = UsbSession::open(setup());
    assert_eq!(
        bus.run(&mut session),
        UsbOutcome::OpenFailed(OpenError::Unsupported)
    );
    assert_eq!(UsbOutcome::Opened(8).code(), GPIO_OK);
}

#[test]
fn an_answer_to_another_call_changes_nothing() {
    let setup = ValidatedConfig::from_ffi(Some(&ordinary_config())).expect("valid");
    let mut session = UsbSession::open(setup);
    session.resume(UsbReply::Claimed(SUCCESS));
    assert_eq!(session.call(), Some(UsbCall::Init));
    session.resume(UsbReply::Initialized {
        code: SUCCESS,
        context: true,
    });
    assert_eq!(session.call(), Some(UsbCall::ListDevices));
    session.resume(UsbReply::Listed {
        count: 3,
        present: vec![false, true, true],
    });
    assert_eq!(session.call(), Some(UsbCall::Descriptor(1)));
    assert_eq!(session.outcome(), None);
}

#[test]
fn serial_texts_are_bounded_and_terminated() {
    let mut bytes = [b'a'; SERIAL_TEXT_BYTES];
    bytes[1] = b'b';
    let two = device_serial(2, &bytes);
    assert_eq!(&two[..3], b"ab\0");
    let long = device_serial(500, &bytes);
    assert_eq!(long[..SERIAL_TEXT_BYTES], bytes);
    assert_eq!(long[SERIAL_TEXT_BYTES], 0);
    assert_eq!(device_serial(-4, &bytes), [0; DEVICE_SERIAL_CAPACITY]);
}

#[test]
fn hid_transfers_are_class_requests_of_one_report() {
    let output = output_report_request();
    assert_eq!(
        (output.request_type, output.request, output.value),
        (0x21, 0x09, 0x0200)
    );
    let input = input_report_request();
    assert_eq!(
        (input.request_type, input.request, input.value),
        (0xa1, 0x01, 0x0100)
    );
    assert_eq!((output.index, output.length), (3, 4));
    assert_eq!(input.timeout_milliseconds, 20);
    assert_eq!(hid_transfer_outcome(4), Ok(()));
    assert_eq!(hid_transfer_outcome(3), Err(-1));
    assert_eq!(hid_transfer_outcome(-9), Err(-9));
}

//! One pass over the USB bus: opening, probing or discovering devices.
//!
//! A [`UsbSession`] names the one USB library call that comes next. Whoever
//! drives it makes that call and hands the answer to [`UsbSession::resume`],
//! until the session names none. The session decides which devices are
//! looked at, what is claimed, and what is given back on every path.

use vstd::prelude::*;

use crate::abi::{
    DeviceInfo, DeviceList, DEVICE_LIST_CAPACITY, DEVICE_SERIAL_CAPACITY, GPIO_OK,
    GPIO_UNSUPPORTED, GPIO_USB_ERROR, PORT_CHAIN_CAPACITY,
};
use crate::config::ValidatedConfig;
use crate::discovery::{add_device, count_device, device_serial, fill_device_info};
#[allow(unused_imports)]
use crate::discovery::{serial_text, zeros, DeviceInfoView, DeviceListView};
use crate::identity::{product_matches, supported_cm119_descriptor, UsbDescriptor};
#[allow(unused_imports)]
use crate::identity::{is_requested_product, is_supported};
use crate::topology::UsbPortPath;
#[allow(unused_imports)]
use crate::topology::{reported_topology, UsbTopology};

verus! {

/// Result of a USB library call that succeeded.
pub const USB_SUCCESS: i32 = 0;

/// Bytes of one serial string that are asked for.
pub const SERIAL_TEXT_BYTES: usize = 127;

/// Why a device could not be opened.
#[derive(Clone, Copy, Debug, PartialEq, Eq, Structural)]
pub enum OpenError {
    /// The explicitly selected topology did not enumerate.
    Unsupported,
    /// A USB call failed with this result.
    Usb(i32),
}

/// How a session ended.
#[derive(Clone, Copy, Debug, PartialEq, Eq, Structural)]
pub enum UsbOutcome {
    /// The HID interface of a device with this product identity is claimed.
    Opened(u16),
    /// No interface was claimed.
    OpenFailed(OpenError),
    /// The probe or discovery ended with this result.
    Completed(i32),
}

impl UsbOutcome {
    /// The result that a caller receives.
    pub open spec fn result(self) -> i32 {
        match self {
            UsbOutcome::Opened(_) => GPIO_OK,
            UsbOutcome::OpenFailed(OpenError::Unsupported) => GPIO_UNSUPPORTED,
            UsbOutcome::OpenFailed(OpenError::Usb(_)) => GPIO_USB_ERROR,
            UsbOutcome::Completed(code) => code,
        }
    }

    /// Return the result that a caller receives.
    pub fn code(&self) -> (code: i32)
        ensures
            code == self.result(),
    {
        match self {
            UsbOutcome::Opened(_) => GPIO_OK,
            UsbOutcome::OpenFailed(OpenError::Unsupported) => GPIO_UNSUPPORTED,
            UsbOutcome::OpenFailed(OpenError::Usb(_)) => GPIO_USB_ERROR,
            UsbOutcome::Completed(code) => *code,
        }
    }
}

/// Where a live device says that it is plugged in.
#[derive(Clone, Copy, Debug)]
pub struct ReportedPlace {
    /// USB bus number.
    pub bus: u8,
    /// Number of ports in the chain.
    pub count: i32,
    /// The chain, as far as `count` says.
    pub ports: [u8; PORT_CHAIN_CAPACITY],
}

impl ReportedPlace {
    /// The topology that was reported, if it is a stable one.
    pub open spec fn topology(self) -> Option<UsbTopology> {
        reported_topology(self.bus, self.count, self.ports@)
    }
}

/// What a session waits for.
#[derive(Clone, Copy, Debug)]
pub enum UsbStage {
    /// The library context.
    Initializing,
    /// The device list.
    Listing,
    /// The descriptor of the device under scrutiny.
    MatchingDescriptor,
    /// Its bus number.
    MatchingBus { descriptor: UsbDescriptor },
    /// Its port chain.
    MatchingPorts { descriptor: UsbDescriptor, bus: u8 },
    /// The descriptor of a device that matched, read again.
    ConfirmingDescriptor,
    /// Its bus number, read again.
    ConfirmingBus { confirmed: Option<UsbDescriptor> },
    /// Its port chain, read again.
    ConfirmingPorts { confirmed: Option<UsbDescriptor>, bus: u8 },
    /// A handle for reading the serial number.
    OpeningSerial { descriptor: UsbDescriptor, place: ReportedPlace },
    /// The serial number.
    ReadingSerial { descriptor: UsbDescriptor, place: ReportedPlace },
    /// The end of the serial-number handle.
    ClosingSerial {
        descriptor: UsbDescriptor,
        place: ReportedPlace,
        count: i32,
        bytes: [u8; SERIAL_TEXT_BYTES],
    },
    /// The handle that will own the interface.
    Opening { product_id: u16 },
    /// The claim of the interface.
    Claiming { product_id: u16 },
    /// Whether a kernel driver caused the claim to fail.
    AskingDriver { product_id: u16, claim: i32 },
    /// The end of the kernel driver.
    Detaching { product_id: u16, claim: i32 },
    /// The second claim of the interface.
    Reclaiming { product_id: u16 },
    /// The end of a handle whose interface could not be claimed.
    ClosingHandle { claim: i32 },
    /// The end of the device list.
    FreeingList { outcome: UsbOutcome },
    /// The end of the library context.
    Exiting { outcome: UsbOutcome },
    /// Nothing more.
    Finished { outcome: UsbOutcome },
}

/// A USB library call.
#[derive(Clone, Copy, Debug, PartialEq, Eq, Structural)]
pub enum UsbCall {
    /// Initialize a library context.
    Init,
    /// Obtain the device list.
    ListDevices,
    /// Read the descriptor of a listed device.
    Descriptor(usize),
    /// Read the bus number of a listed device.
    BusNumber(usize),
    /// Read the port chain of a listed device.
    PortNumbers(usize),
    /// Open a listed device.
    Open(usize),
    /// Claim the HID interface of the open handle.
    Claim,
    /// Ask whether a kernel driver owns the HID interface.
    KernelDriverActive,
    /// Detach the kernel driver from the HID interface.
    DetachKernelDriver,
    /// Read a string of the open handle as bounded ASCII bytes.
    SerialText(u8),
    /// Close the open handle.
    Close,
    /// Release the device list.
    FreeDeviceList,
    /// Shut the library context down.
    Exit,
}

/// The answer to a USB library call.
#[derive(Debug)]
pub enum UsbReply {
    /// Result of the initialization, and whether there is a context.
    Initialized { code: i32, context: bool },
    /// Number of devices, or an error below zero, and for each device whether it is there.
    Listed { count: i32, present: Vec<bool> },
    /// Result of the descriptor read, and the descriptor.
    Descriptor { code: i32, descriptor: UsbDescriptor },
    /// Bus number.
    BusNumber(u8),
    /// Length of the port chain, and the chain.
    PortNumbers { count: i32, ports: [u8; PORT_CHAIN_CAPACITY] },
    /// Result of the open, and whether there is a handle.
    Opened { code: i32, handle: bool },
    /// Result of the claim.
    Claimed(i32),
    /// Above zero where a kernel driver owns the interface.
    KernelDriver(i32),
    /// Result of the detach.
    Detached(i32),
    /// Length of the string, and its bytes.
    SerialText { count: i32, bytes: [u8; SERIAL_TEXT_BYTES] },
    /// The release was made.
    Released,
}

/// What a session is for.
#[derive(Debug)]
pub enum UsbGoal {
    /// Claim the configured device.
    Open { config: ValidatedConfig },
    /// Report the configured device without claiming it.
    Probe { config: ValidatedConfig, info: DeviceInfo },
    /// Report every supported device without claiming any.
    Discover { list: DeviceList },
}

/// What a session is for, as mathematical values.
#[verifier::ext_equal]
pub enum UsbGoalView {
    /// Claim the configured device.
    Open { config: ValidatedConfig },
    /// Report the configured device without claiming it.
    Probe { config: ValidatedConfig, info: DeviceInfoView },
    /// Report every supported device without claiming any.
    Discover { list: DeviceListView },
}

impl View for UsbGoal {
    type V = UsbGoalView;

    open spec fn view(&self) -> UsbGoalView {
        match *self {
            UsbGoal::Open { config } => UsbGoalView::Open { config },
            UsbGoal::Probe { config, info } => UsbGoalView::Probe { config, info: info@ },
            UsbGoal::Discover { list } => UsbGoalView::Discover { list: list@ },
        }
    }
}

/// One pass over the USB bus.
#[derive(Debug)]
pub struct UsbSession {
    /// What the session is for.
    pub goal: UsbGoal,
    /// What it waits for.
    pub stage: UsbStage,
    /// For each listed device whether it is there.
    pub devices: Vec<bool>,
    /// The device under scrutiny.
    pub index: usize,
}

/// One pass over the USB bus as mathematical values.
#[verifier::ext_equal]
pub struct UsbSessionView {
    /// What the session is for.
    pub goal: UsbGoalView,
    /// What it waits for.
    pub stage: UsbStage,
    /// For each listed device whether it is there.
    pub devices: Seq<bool>,
    /// The device under scrutiny.
    pub index: int,
}

impl View for UsbSession {
    type V = UsbSessionView;

    open spec fn view(&self) -> UsbSessionView {
        UsbSessionView {
            goal: self.goal@,
            stage: self.stage,
            devices: self.devices@,
            index: self.index as int,
        }
    }
}

/// The smaller of two numbers.
pub open spec fn smaller(left: int, right: int) -> int {
    if left < right {
        left
    } else {
        right
    }
}

impl UsbGoalView {
    /// Whether a descriptor is one that the session looks for.
    pub open spec fn wants(self, descriptor: UsbDescriptor) -> bool {
        match self {
            UsbGoalView::Open { config } | UsbGoalView::Probe { config, .. } => {
                &&& descriptor.id_vendor == config.vendor_id
                &&& is_requested_product(config.product_id, descriptor.id_product)
            },
            UsbGoalView::Discover { .. } => is_supported(descriptor),
        }
    }

    /// How a session ends that a failed USB call cut short.
    pub open spec fn failed(self, code: i32) -> UsbOutcome {
        match self {
            UsbGoalView::Open { .. } => UsbOutcome::OpenFailed(OpenError::Usb(code)),
            _ => UsbOutcome::Completed(GPIO_USB_ERROR),
        }
    }

    /// How a session ends that has seen every device.
    pub open spec fn exhausted(self) -> UsbOutcome {
        match self {
            UsbGoalView::Open { .. } => UsbOutcome::OpenFailed(OpenError::Unsupported),
            UsbGoalView::Probe { .. } => UsbOutcome::Completed(GPIO_UNSUPPORTED),
            UsbGoalView::Discover { .. } => UsbOutcome::Completed(GPIO_OK),
        }
    }

    /// A snapshot returns as many devices as it can hold of those it counts, except that while a
    /// device is being reported it is already counted.
    pub open spec fn well_formed(self, reporting: bool) -> bool {
        self matches UsbGoalView::Discover { list } ==> {
            let pending: int = if reporting {
                1
            } else {
                0
            };
            &&& list.devices.len() == DEVICE_LIST_CAPACITY
            &&& list.returned_device_count + pending == smaller(
                list.matching_device_count as int,
                DEVICE_LIST_CAPACITY as int,
            )
        }
    }
}

impl UsbSessionView {
    /// Whether a device is being reported.
    pub open spec fn is_reporting(self) -> bool {
        self.stage is OpeningSerial || self.stage is ReadingSerial || self.stage is ClosingSerial
    }

    /// Whether a listed device is under scrutiny.
    pub open spec fn has_device(self) -> bool {
        match self.stage {
            UsbStage::Initializing | UsbStage::Listing => false,
            UsbStage::FreeingList { .. } | UsbStage::Exiting { .. } | UsbStage::Finished { .. } =>
            false,
            UsbStage::Claiming { .. }
            | UsbStage::AskingDriver { .. }
            | UsbStage::Detaching { .. }
            | UsbStage::Reclaiming { .. }
            | UsbStage::ClosingHandle { .. } => false,
            _ => true,
        }
    }

    /// The device under scrutiny is listed, a device is reported with a stable place, the
    /// snapshot is consistent, and only a session that was asked to open claims an interface.
    pub open spec fn well_formed(self) -> bool {
        &&& 0 <= self.index
        &&& self.has_device() ==> self.index < self.devices.len() && self.devices[self.index]
        &&& self.goal.well_formed(self.is_reporting())
        &&& match self.stage {
            UsbStage::OpeningSerial { place, .. }
            | UsbStage::ReadingSerial { place, .. }
            | UsbStage::ClosingSerial { place, .. } => place.topology() is Some
                && self.goal !is Open,
            UsbStage::ConfirmingDescriptor => self.goal !is Discover,
            UsbStage::ConfirmingBus { .. } | UsbStage::ConfirmingPorts { .. } =>
            self.goal is Probe,
            UsbStage::Opening { .. }
            | UsbStage::Claiming { .. }
            | UsbStage::AskingDriver { .. }
            | UsbStage::Detaching { .. }
            | UsbStage::Reclaiming { .. }
            | UsbStage::ClosingHandle { .. } => self.goal is Open,
            UsbStage::FreeingList { outcome } | UsbStage::Finished { outcome } => outcome is Opened
                ==> self.goal is Open,
            UsbStage::Exiting { outcome } => outcome !is Opened,
            _ => true,
        }
    }

    /// The session waiting for something else.
    pub open spec fn at(self, stage: UsbStage) -> Self {
        UsbSessionView { stage, ..self }
    }

    /// The session going on with the first listed device from `from` on, or ending its scan.
    pub open spec fn scanning(self, from: int) -> Self
        decreases self.devices.len() - from,
    {
        if from >= self.devices.len() {
            self.at(UsbStage::FreeingList { outcome: self.goal.exhausted() })
        } else if self.devices[from] {
            UsbSessionView { stage: UsbStage::MatchingDescriptor, index: from, ..self }
        } else {
            self.scanning(from + 1)
        }
    }

    /// The session going on behind the device under scrutiny.
    pub open spec fn skipping(self) -> Self {
        self.scanning(self.index + 1)
    }

    /// The session after reporting a device.
    pub open spec fn reported(
        self,
        descriptor: UsbDescriptor,
        topology: UsbTopology,
        serial: Seq<u8>,
    ) -> Self {
        match self.goal {
            UsbGoalView::Open { .. } => self,
            UsbGoalView::Probe { config, info } => UsbSessionView {
                goal: UsbGoalView::Probe {
                    config,
                    info: info.filled(topology, descriptor, serial),
                },
                stage: UsbStage::FreeingList { outcome: UsbOutcome::Completed(GPIO_OK) },
                ..self
            },
            UsbGoalView::Discover { list } => UsbSessionView {
                goal: UsbGoalView::Discover { list: list.added(topology, descriptor, serial) },
                ..self
            }.skipping(),
        }
    }

    /// The session about to report a device, whose serial number is read first if it has one.
    pub open spec fn reporting(self, descriptor: UsbDescriptor, place: ReportedPlace) -> Self {
        if descriptor.i_serial_number == 0 {
            self.reported(descriptor, place.topology()->0, zeros(128))
        } else {
            self.at(UsbStage::OpeningSerial { descriptor, place })
        }
    }

    /// The session once the place of a wanted device is known.
    pub open spec fn located(self, descriptor: UsbDescriptor, place: ReportedPlace) -> Self {
        match self.goal {
            UsbGoalView::Open { config } | UsbGoalView::Probe { config, .. } =>
            if place.topology() == Some(config.usb_port_path@) {
                self.at(UsbStage::ConfirmingDescriptor)
            } else {
                self.skipping()
            },
            UsbGoalView::Discover { list } => if place.topology() is None {
                self.skipping()
            } else {
                let counted = UsbSessionView {
                    goal: UsbGoalView::Discover { list: list.counted() },
                    ..self
                };
                if list.has_room() {
                    counted.reporting(descriptor, place)
                } else {
                    counted.skipping()
                }
            },
        }
    }

    /// The session after an answer. An answer to another call than the pending one changes
    /// nothing.
    pub open spec fn resumed(self, reply: UsbReply) -> Self {
        match (self.stage, reply) {
            (UsbStage::Initializing, UsbReply::Initialized { code, context }) => if code
                != USB_SUCCESS || !context {
                self.at(UsbStage::Finished { outcome: self.goal.failed(code) })
            } else {
                self.at(UsbStage::Listing)
            },
            (UsbStage::Listing, UsbReply::Listed { count, present }) => if count < 0 {
                self.at(UsbStage::Exiting { outcome: self.goal.failed(count) })
            } else {
                UsbSessionView { devices: present@, ..self }.scanning(0)
            },
            (UsbStage::MatchingDescriptor, UsbReply::Descriptor { code, descriptor }) => if code
                == USB_SUCCESS && self.goal.wants(descriptor) {
                self.at(UsbStage::MatchingBus { descriptor })
            } else {
                self.skipping()
            },
            (UsbStage::MatchingBus { descriptor }, UsbReply::BusNumber(bus)) => if bus == 0 {
                self.skipping()
            } else {
                self.at(UsbStage::MatchingPorts { descriptor, bus })
            },
            (
                UsbStage::MatchingPorts { descriptor, bus },
                UsbReply::PortNumbers { count, ports },
            ) => self.located(descriptor, ReportedPlace { bus, count, ports }),
            (UsbStage::ConfirmingDescriptor, UsbReply::Descriptor { code, descriptor }) =>
            if self.goal is Probe {
                self.at(
                    UsbStage::ConfirmingBus {
                        confirmed: if code == USB_SUCCESS {
                            Some(descriptor)
                        } else {
                            None
                        },
                    },
                )
            } else if code == USB_SUCCESS {
                self.at(UsbStage::Opening { product_id: descriptor.id_product })
            } else {
                self.skipping()
            },
            (UsbStage::ConfirmingBus { confirmed }, UsbReply::BusNumber(bus)) => if bus == 0 {
                self.skipping()
            } else {
                self.at(UsbStage::ConfirmingPorts { confirmed, bus })
            },
            (
                UsbStage::ConfirmingPorts { confirmed, bus },
                UsbReply::PortNumbers { count, ports },
            ) => {
                let place = ReportedPlace { bus, count, ports };
                match confirmed {
                    Some(descriptor) => if place.topology() is Some {
                        self.reporting(descriptor, place)
                    } else {
                        self.skipping()
                    },
                    None => self.skipping(),
                }
            },
            (UsbStage::OpeningSerial { descriptor, place }, UsbReply::Opened { code, handle }) =>
            if code != USB_SUCCESS || !handle {
                self.reported(descriptor, place.topology()->0, zeros(128))
            } else {
                self.at(UsbStage::ReadingSerial { descriptor, place })
            },
            (
                UsbStage::ReadingSerial { descriptor, place },
                UsbReply::SerialText { count, bytes },
            ) => self.at(UsbStage::ClosingSerial { descriptor, place, count, bytes }),
            (UsbStage::ClosingSerial { descriptor, place, count, bytes }, UsbReply::Released) =>
            self.reported(descriptor, place.topology()->0, serial_text(count, bytes@)),
            (UsbStage::Opening { product_id }, UsbReply::Opened { code, handle }) => if code
                != USB_SUCCESS || !handle {
                self.at(
                    UsbStage::FreeingList {
                        outcome: UsbOutcome::OpenFailed(OpenError::Usb(code)),
                    },
                )
            } else {
                self.at(UsbStage::Claiming { product_id })
            },
            (UsbStage::Claiming { product_id }, UsbReply::Claimed(code)) => if code == USB_SUCCESS {
                self.at(UsbStage::FreeingList { outcome: UsbOutcome::Opened(product_id) })
            } else {
                self.at(UsbStage::AskingDriver { product_id, claim: code })
            },
            (UsbStage::AskingDriver { product_id, claim }, UsbReply::KernelDriver(active)) =>
            if active > 0 {
                self.at(UsbStage::Detaching { product_id, claim })
            } else {
                self.at(UsbStage::ClosingHandle { claim })
            },
            (UsbStage::Detaching { product_id, claim }, UsbReply::Detached(code)) => if code
                == USB_SUCCESS {
                self.at(UsbStage::Reclaiming { product_id })
            } else {
                self.at(UsbStage::ClosingHandle { claim })
            },
            (UsbStage::Reclaiming { product_id }, UsbReply::Claimed(code)) => if code
                == USB_SUCCESS {
                self.at(UsbStage::FreeingList { outcome: UsbOutcome::Opened(product_id) })
            } else {
                self.at(UsbStage::ClosingHandle { claim: code })
            },
            (UsbStage::ClosingHandle { claim }, UsbReply::Released) => self.at(
                UsbStage::FreeingList { outcome: UsbOutcome::OpenFailed(OpenError::Usb(claim)) },
            ),
            (UsbStage::FreeingList { outcome }, UsbReply::Released) => if outcome is Opened {
                self.at(UsbStage::Finished { outcome })
            } else {
                self.at(UsbStage::Exiting { outcome })
            },
            (UsbStage::Exiting { outcome }, UsbReply::Released) => self.at(
                UsbStage::Finished { outcome },
            ),
            _ => self,
        }
    }

    /// The call that the session waits for, if any.
    pub open spec fn pending_call(self) -> Option<UsbCall> {
        let index = self.index as usize;
        match self.stage {
            UsbStage::Initializing => Some(UsbCall::Init),
            UsbStage::Listing => Some(UsbCall::ListDevices),
            UsbStage::MatchingDescriptor | UsbStage::ConfirmingDescriptor => Some(
                UsbCall::Descriptor(index),
            ),
            UsbStage::MatchingBus { .. } | UsbStage::ConfirmingBus { .. } => Some(
                UsbCall::BusNumber(index),
            ),
            UsbStage::MatchingPorts { .. } | UsbStage::ConfirmingPorts { .. } => Some(
                UsbCall::PortNumbers(index),
            ),
            UsbStage::OpeningSerial { .. } | UsbStage::Opening { .. } => Some(UsbCall::Open(index)),
            UsbStage::ReadingSerial { descriptor, .. } => Some(
                UsbCall::SerialText(descriptor.i_serial_number),
            ),
            UsbStage::Claiming { .. } | UsbStage::Reclaiming { .. } => Some(UsbCall::Claim),
            UsbStage::AskingDriver { .. } => Some(UsbCall::KernelDriverActive),
            UsbStage::Detaching { .. } => Some(UsbCall::DetachKernelDriver),
            UsbStage::ClosingSerial { .. } | UsbStage::ClosingHandle { .. } => Some(
                UsbCall::Close,
            ),
            UsbStage::FreeingList { .. } => Some(UsbCall::FreeDeviceList),
            UsbStage::Exiting { .. } => Some(UsbCall::Exit),
            UsbStage::Finished { .. } => None,
        }
    }
}

impl UsbSession {
    /// Begin opening and exclusively claiming the configured device.
    pub fn open(config: ValidatedConfig) -> (session: Self)
        ensures
            session@ == (UsbSessionView {
                goal: UsbGoalView::Open { config },
                stage: UsbStage::Initializing,
                devices: Seq::empty(),
                index: 0,
            }),
            session@.well_formed(),
    {
        UsbSession {
            goal: UsbGoal::Open { config },
            stage: UsbStage::Initializing,
            devices: Vec::new(),
            index: 0,
        }
    }

    /// Begin probing the configured device into a report that was reset.
    pub fn probe(config: ValidatedConfig, info: DeviceInfo) -> (session: Self)
        ensures
            session@ == (UsbSessionView {
                goal: UsbGoalView::Probe { config, info: info@ },
                stage: UsbStage::Initializing,
                devices: Seq::empty(),
                index: 0,
            }),
            session@.well_formed(),
    {
        UsbSession {
            goal: UsbGoal::Probe { config, info },
            stage: UsbStage::Initializing,
            devices: Vec::new(),
            index: 0,
        }
    }

    /// Begin discovering every supported device into a snapshot that was reset.
    pub fn discover(list: DeviceList) -> (session: Self)
        requires
            list.matching_device_count == 0,
            list.returned_device_count == 0,
        ensures
            session@ == (UsbSessionView {
                goal: UsbGoalView::Discover { list: list@ },
                stage: UsbStage::Initializing,
                devices: Seq::empty(),
                index: 0,
            }),
            session@.well_formed(),
    {
        UsbSession {
            goal: UsbGoal::Discover { list },
            stage: UsbStage::Initializing,
            devices: Vec::new(),
            index: 0,
        }
    }

    /// The call to make next, or none when the session has ended.
    pub fn call(&self) -> (call: Option<UsbCall>)
        ensures
            call == self@.pending_call(),
    {
        match self.stage {
            UsbStage::Initializing => Some(UsbCall::Init),
            UsbStage::Listing => Some(UsbCall::ListDevices),
            UsbStage::MatchingDescriptor => Some(UsbCall::Descriptor(self.index)),
            UsbStage::ConfirmingDescriptor => Some(UsbCall::Descriptor(self.index)),
            UsbStage::MatchingBus { .. } => Some(UsbCall::BusNumber(self.index)),
            UsbStage::ConfirmingBus { .. } => Some(UsbCall::BusNumber(self.index)),
            UsbStage::MatchingPorts { .. } => Some(UsbCall::PortNumbers(self.index)),
            UsbStage::ConfirmingPorts { .. } => Some(UsbCall::PortNumbers(self.index)),
            UsbStage::OpeningSerial { .. } => Some(UsbCall::Open(self.index)),
            UsbStage::ReadingSerial { descriptor, .. } => Some(
                UsbCall::SerialText(descriptor.i_serial_number),
            ),
            UsbStage::ClosingSerial { .. } => Some(UsbCall::Close),
            UsbStage::Opening { .. } => Some(UsbCall::Open(self.index)),
            UsbStage::Claiming { .. } => Some(UsbCall::Claim),
            UsbStage::AskingDriver { .. } => Some(UsbCall::KernelDriverActive),
            UsbStage::Detaching { .. } => Some(UsbCall::DetachKernelDriver),
            UsbStage::Reclaiming { .. } => Some(UsbCall::Claim),
            UsbStage::ClosingHandle { .. } => Some(UsbCall::Close),
            UsbStage::FreeingList { .. } => Some(UsbCall::FreeDeviceList),
            UsbStage::Exiting { .. } => Some(UsbCall::Exit),
            UsbStage::Finished { .. } => None,
        }
    }

    /// How the session ended, if it has.
    pub fn outcome(&self) -> (outcome: Option<UsbOutcome>)
        ensures
            match self@.stage {
                UsbStage::Finished { outcome: ended } => outcome == Some(ended),
                _ => outcome is None,
            },
    {
        match self.stage {
            UsbStage::Finished { outcome } => Some(outcome),
            _ => None,
        }
    }

    /// Whether a descriptor is one that the session looks for.
    fn wants(&self, descriptor: UsbDescriptor) -> (wanted: bool)
        ensures
            wanted == self@.goal.wants(descriptor),
    {
        match &self.goal {
            UsbGoal::Open { config } => descriptor.id_vendor == config.vendor_id && product_matches(
                config.product_id,
                descriptor.id_product,
            ),
            UsbGoal::Probe { config, .. } => descriptor.id_vendor == config.vendor_id
                && product_matches(config.product_id, descriptor.id_product),
            UsbGoal::Discover { .. } => supported_cm119_descriptor(descriptor),
        }
    }

    /// How the session ends when a USB call cuts it short.
    fn failed(&self, code: i32) -> (outcome: UsbOutcome)
        ensures
            outcome == self@.goal.failed(code),
    {
        match &self.goal {
            UsbGoal::Open { .. } => UsbOutcome::OpenFailed(OpenError::Usb(code)),
            UsbGoal::Probe { .. } => UsbOutcome::Completed(GPIO_USB_ERROR),
            UsbGoal::Discover { .. } => UsbOutcome::Completed(GPIO_USB_ERROR),
        }
    }

    /// Go on with the first listed device from `from` on, or end the scan.
    fn scan(&mut self, from: usize)
        requires
            from <= old(self).devices@.len(),
            old(self)@.goal.well_formed(false),
        ensures
            final(self)@ == old(self)@.scanning(from as int),
            final(self)@.well_formed(),
    {
        let mut next: usize = from;
        let ghost start = self@;
        while next < self.devices.len()
            invariant
                self@ == start,
                start == old(self)@,
                from <= next <= self.devices@.len(),
                start.scanning(next as int) == start.scanning(from as int),
                start.goal.well_formed(false),
            decreases self.devices@.len() - next,
        {
            if self.devices[next] {
                self.index = next;
                self.stage = UsbStage::MatchingDescriptor;
                return;
            }
            next += 1;
        }
        let outcome = match &self.goal {
            UsbGoal::Open { .. } => UsbOutcome::OpenFailed(OpenError::Unsupported),
            UsbGoal::Probe { .. } => UsbOutcome::Completed(GPIO_UNSUPPORTED),
            UsbGoal::Discover { .. } => UsbOutcome::Completed(GPIO_OK),
        };
        self.stage = UsbStage::FreeingList { outcome };
    }

    /// Go on behind the device under scrutiny.
    fn skip(&mut self)
        requires
            old(self).index < old(self).devices@.len(),
            old(self)@.goal.well_formed(false),
        ensures
            final(self)@ == old(self)@.skipping(),
            final(self)@.well_formed(),
    {
        assert(self.index < self.devices.len());
        self.scan(self.index + 1);
    }

    /// Report one device.
    fn report(
        &mut self,
        descriptor: UsbDescriptor,
        place: ReportedPlace,
        serial: [u8; DEVICE_SERIAL_CAPACITY],
    )
        requires
            old(self).index < old(self).devices@.len(),
            old(self)@.goal !is Open,
            old(self)@.goal.well_formed(true),
            place.topology() is Some,
        ensures
            final(self)@ == old(self)@.reported(descriptor, place.topology()->0, serial@),
            final(self)@.well_formed(),
    {
        if let Some(topology) = UsbPortPath::from_parts(place.bus, place.count, place.ports) {
            match &mut self.goal {
                UsbGoal::Open { .. } => {},
                UsbGoal::Probe { info, .. } => {
                    fill_device_info(info, &topology, descriptor, serial);
                    self.stage = UsbStage::FreeingList { outcome: UsbOutcome::Completed(GPIO_OK) };
                },
                UsbGoal::Discover { list } => {
                    add_device(list, &topology, descriptor, serial);
                    self.skip();
                },
            }
        }
    }

    /// Report one device, reading its serial number first if it has one.
    fn begin_report(&mut self, descriptor: UsbDescriptor, place: ReportedPlace)
        requires
            old(self).index < old(self).devices@.len(),
            old(self).devices@[old(self).index as int],
            old(self)@.goal !is Open,
            old(self)@.goal.well_formed(true),
            place.topology() is Some,
        ensures
            final(self)@ == old(self)@.reporting(descriptor, place),
            final(self)@.well_formed(),
    {
        if descriptor.i_serial_number == 0 {
            let none: [u8; DEVICE_SERIAL_CAPACITY] = [0; DEVICE_SERIAL_CAPACITY];
            assert(none@ =~= zeros(128));
            self.report(descriptor, place, none);
        } else {
            self.stage = UsbStage::OpeningSerial { descriptor, place };
        }
    }

    /// Decide on a wanted device whose place is known.
    fn locate(&mut self, descriptor: UsbDescriptor, place: ReportedPlace)
        requires
            old(self).index < old(self).devices@.len(),
            old(self).devices@[old(self).index as int],
            old(self)@.goal.well_formed(false),
        ensures
            final(self)@ == old(self)@.located(descriptor, place),
            final(self)@.well_formed(),
    {
        let topology = UsbPortPath::from_parts(place.bus, place.count, place.ports);
        let selected: Option<bool> = match (&self.goal, &topology) {
            (UsbGoal::Open { config }, Some(reported)) => Some(
                config.usb_port_path.matches(reported),
            ),
            (UsbGoal::Probe { config, .. }, Some(reported)) => Some(
                config.usb_port_path.matches(reported),
            ),
            (UsbGoal::Discover { .. }, Some(_)) => None,
            (_, None) => Some(false),
        };
        match selected {
            Some(true) => {
                self.stage = UsbStage::ConfirmingDescriptor;
            },
            Some(false) => {
                self.skip();
            },
            None => {
                let mut has_room: bool = false;
                if let UsbGoal::Discover { list } = &mut self.goal {
                    has_room = (list.returned_device_count as usize) < DEVICE_LIST_CAPACITY;
                    count_device(list);
                }
                if has_room {
                    self.begin_report(descriptor, place);
                } else {
                    self.skip();
                }
            },
        }
    }

    /// Take the answer to the pending call.
    pub fn resume(&mut self, reply: UsbReply)
        requires
            old(self)@.well_formed(),
        ensures
            final(self)@ == old(self)@.resumed(reply),
            final(self)@.well_formed(),
    {
        match (self.stage, reply) {
            (UsbStage::Initializing, UsbReply::Initialized { code, context }) => {
                if code != USB_SUCCESS || !context {
                    self.stage = UsbStage::Finished { outcome: self.failed(code) };
                } else {
                    self.stage = UsbStage::Listing;
                }
            },
            (UsbStage::Listing, UsbReply::Listed { count, present }) => {
                if count < 0 {
                    self.stage = UsbStage::Exiting { outcome: self.failed(count) };
                } else {
                    self.devices = present;
                    self.scan(0);
                }
            },
            (UsbStage::MatchingDescriptor, UsbReply::Descriptor { code, descriptor }) => {
                if code == USB_SUCCESS && self.wants(descriptor) {
                    self.stage = UsbStage::MatchingBus { descriptor };
                } else {
                    self.skip();
                }
            },
            (UsbStage::MatchingBus { descriptor }, UsbReply::BusNumber(bus)) => {
                if bus == 0 {
                    self.skip();
                } else {
                    self.stage = UsbStage::MatchingPorts { descriptor, bus };
                }
            },
            (
                UsbStage::MatchingPorts { descriptor, bus },
                UsbReply::PortNumbers { count, ports },
            ) => {
                self.locate(descriptor, ReportedPlace { bus, count, ports });
            },
            (UsbStage::ConfirmingDescriptor, UsbReply::Descriptor { code, descriptor }) => {
                let probing: bool = match &self.goal {
                    UsbGoal::Probe { .. } => true,
                    _ => false,
                };
                if probing {
                    let confirmed: Option<UsbDescriptor> = if code == USB_SUCCESS {
                        Some(descriptor)
                    } else {
                        None
                    };
                    self.stage = UsbStage::ConfirmingBus { confirmed };
                } else if code == USB_SUCCESS {
                    self.stage = UsbStage::Opening { product_id: descriptor.id_product };
                } else {
                    self.skip();
                }
            },
            (UsbStage::ConfirmingBus { confirmed }, UsbReply::BusNumber(bus)) => {
                if bus == 0 {
                    self.skip();
                } else {
                    self.stage = UsbStage::ConfirmingPorts { confirmed, bus };
                }
            },
            (
                UsbStage::ConfirmingPorts { confirmed, bus },
                UsbReply::PortNumbers { count, ports },
            ) => {
                let place = ReportedPlace { bus, count, ports };
                match (confirmed, UsbPortPath::from_parts(bus, count, ports)) {
                    (Some(descriptor), Some(_)) => {
                        self.begin_report(descriptor, place);
                    },
                    _ => {
                        self.skip();
                    },
                }
            },
            (UsbStage::OpeningSerial { descriptor, place }, UsbReply::Opened { code, handle }) => {
                if code != USB_SUCCESS || !handle {
                    let none: [u8; DEVICE_SERIAL_CAPACITY] = [0; DEVICE_SERIAL_CAPACITY];
                    assert(none@ =~= zeros(128));
                    self.report(descriptor, place, none);
                } else {
                    self.stage = UsbStage::ReadingSerial { descriptor, place };
                }
            },
            (
                UsbStage::ReadingSerial { descriptor, place },
                UsbReply::SerialText { count, bytes },
            ) => {
                self.stage = UsbStage::ClosingSerial { descriptor, place, count, bytes };
            },
            (UsbStage::ClosingSerial { descriptor, place, count, bytes }, UsbReply::Released) => {
                let serial = device_serial(count, &bytes);
                self.report(descriptor, place, serial);
            },
            (UsbStage::Opening { product_id }, UsbReply::Opened { code, handle }) => {
                if code != USB_SUCCESS || !handle {
                    self.stage =
                    UsbStage::FreeingList {
                        outcome: UsbOutcome::OpenFailed(OpenError::Usb(code)),
                    };
                } else {
                    self.stage = UsbStage::Claiming { product_id };
                }
            },
            (UsbStage::Claiming { product_id }, UsbReply::Claimed(code)) => {
                if code == USB_SUCCESS {
                    self.stage = UsbStage::FreeingList { outcome: UsbOutcome::Opened(product_id) };
                } else {
                    self.stage = UsbStage::AskingDriver { product_id, claim: code };
                }
            },
            (UsbStage::AskingDriver { product_id, claim }, UsbReply::KernelDriver(active)) => {
                if active > 0 {
                    self.stage = UsbStage::Detaching { product_id, claim };
                } else {
                    self.stage = UsbStage::ClosingHandle { claim };
                }
            },
            (UsbStage::Detaching { product_id, claim }, UsbReply::Detached(code)) => {
                if code == USB_SUCCESS {
                    self.stage = UsbStage::Reclaiming { product_id };
                } else {
                    self.stage = UsbStage::ClosingHandle { claim };
                }
            },
            (UsbStage::Reclaiming { product_id }, UsbReply::Claimed(code)) => {
                if code == USB_SUCCESS {
                    self.stage = UsbStage::FreeingList { outcome: UsbOutcome::Opened(product_id) };
                } else {
                    self.stage = UsbStage::ClosingHandle { claim: code };
                }
            },
            (UsbStage::ClosingHandle { claim }, UsbReply::Released) => {
                self.stage =
                UsbStage::FreeingList { outcome: UsbOutcome::OpenFailed(OpenError::Usb(claim)) };
            },
            (UsbStage::FreeingList { outcome }, UsbReply::Released) => {
                match outcome {
                    UsbOutcome::Opened(_) => {
                        self.stage = UsbStage::Finished { outcome };
                    },
                    _ => {
                        self.stage = UsbStage::Exiting { outcome };
                    },
                }
            },
            (UsbStage::Exiting { outcome }, UsbReply::Released) => {
                self.stage = UsbStage::Finished { outcome };
            },
            _ => {},
        }
    }
}

} // verus!

//! What holds of every pass over the USB bus, whatever the bus answers.

use vstd::prelude::*;

#[allow(unused_imports)]
use crate::abi::{GPIO_OK, GPIO_UNSUPPORTED};
#[allow(unused_imports)]
use crate::config::ValidatedConfig;
#[allow(unused_imports)]
use crate::discovery::{serial_text, zeros, DeviceInfoView, DeviceListView};
#[allow(unused_imports)]
use crate::identity::{is_requested_product, is_supported, UsbDescriptor};
#[allow(unused_imports)]
use crate::topology::UsbTopology;
#[allow(unused_imports)]
use crate::usb::{
    smaller, OpenError, ReportedPlace, UsbCall, UsbGoalView, UsbOutcome, UsbReply,
    UsbSessionView, UsbStage, SERIAL_TEXT_BYTES, USB_SUCCESS,
};

verus! {

/// What was acquired through USB calls and not given back yet.
pub struct UsbHoldings {
    /// The library context.
    pub context: bool,
    /// The device list.
    pub list: bool,
    /// A device handle.
    pub handle: bool,
    /// The HID interface of that handle.
    pub claimed: bool,
}

impl UsbHoldings {
    /// Nothing at all.
    pub open spec fn nothing() -> Self {
        UsbHoldings { context: false, list: false, handle: false, claimed: false }
    }

    /// What is held after a call and its answer.
    pub open spec fn after(self, call: UsbCall, reply: UsbReply) -> Self {
        match (call, reply) {
            (UsbCall::Init, UsbReply::Initialized { code, context }) => UsbHoldings {
                context: code == USB_SUCCESS && context,
                ..self
            },
            (UsbCall::ListDevices, UsbReply::Listed { count, .. }) => UsbHoldings {
                list: count >= 0,
                ..self
            },
            (UsbCall::Open(_), UsbReply::Opened { code, handle }) => UsbHoldings {
                handle: code == USB_SUCCESS && handle,
                ..self
            },
            (UsbCall::Claim, UsbReply::Claimed(code)) => UsbHoldings {
                claimed: code == USB_SUCCESS,
                ..self
            },
            (UsbCall::Close, _) => UsbHoldings { handle: false, ..self },
            (UsbCall::FreeDeviceList, _) => UsbHoldings { list: false, ..self },
            (UsbCall::Exit, _) => UsbHoldings { context: false, ..self },
            _ => self,
        }
    }

    /// Whether what a call needs is held, and nothing that it would take away too early.
    pub open spec fn permits(self, call: UsbCall) -> bool {
        match call {
            UsbCall::Init => self == Self::nothing(),
            UsbCall::ListDevices => self.context && !self.list,
            UsbCall::Descriptor(_) | UsbCall::BusNumber(_) | UsbCall::PortNumbers(_) =>
            self.context && self.list,
            UsbCall::Open(_) => self.context && self.list && !self.handle,
            UsbCall::Claim | UsbCall::KernelDriverActive | UsbCall::DetachKernelDriver =>
            self.handle && !self.claimed,
            UsbCall::SerialText(_) => self.handle && !self.claimed,
            UsbCall::Close => self.handle && !self.claimed,
            UsbCall::FreeDeviceList => self.context && self.list,
            UsbCall::Exit => self.context && !self.list && !self.handle,
        }
    }
}

/// What a session holds while it waits.
pub open spec fn holdings(session: UsbSessionView) -> UsbHoldings {
    let listed = UsbHoldings { context: true, list: true, handle: false, claimed: false };
    match session.stage {
        UsbStage::Initializing => UsbHoldings::nothing(),
        UsbStage::Listing | UsbStage::Exiting { .. } => UsbHoldings {
            context: true,
            ..UsbHoldings::nothing()
        },
        UsbStage::ReadingSerial { .. }
        | UsbStage::ClosingSerial { .. }
        | UsbStage::Claiming { .. }
        | UsbStage::AskingDriver { .. }
        | UsbStage::Detaching { .. }
        | UsbStage::Reclaiming { .. }
        | UsbStage::ClosingHandle { .. } => UsbHoldings { handle: true, ..listed },
        UsbStage::FreeingList { outcome: UsbOutcome::Opened(_) } => UsbHoldings {
            handle: true,
            claimed: true,
            ..listed
        },
        UsbStage::Finished { outcome: UsbOutcome::Opened(_) } => UsbHoldings {
            context: true,
            list: false,
            handle: true,
            claimed: true,
        },
        UsbStage::Finished { .. } => UsbHoldings::nothing(),
        _ => listed,
    }
}

/// Whether an answer is one to this call.
pub open spec fn answers(call: UsbCall, reply: UsbReply) -> bool {
    match call {
        UsbCall::Init => reply is Initialized,
        UsbCall::ListDevices => reply is Listed,
        UsbCall::Descriptor(_) => reply is Descriptor,
        UsbCall::BusNumber(_) => reply is BusNumber,
        UsbCall::PortNumbers(_) => reply is PortNumbers,
        UsbCall::Open(_) => reply is Opened,
        UsbCall::Claim => reply is Claimed,
        UsbCall::KernelDriverActive => reply is KernelDriver,
        UsbCall::DetachKernelDriver => reply is Detached,
        UsbCall::SerialText(_) => reply is SerialText,
        UsbCall::Close | UsbCall::FreeDeviceList | UsbCall::Exit => reply is Released,
    }
}

/// Scanning only looks: it ends at a device or at the end of the list.
pub proof fn lemma_scanning_ends(session: UsbSessionView, from: int)
    requires
        0 <= from,
    ensures
        ({
            let next = session.scanning(from);
            &&& next.goal == session.goal
            &&& next.devices == session.devices
            &&& {
                ||| next.stage == (UsbStage::FreeingList { outcome: session.goal.exhausted() })
                    && next.index == session.index
                ||| next.stage == UsbStage::MatchingDescriptor && from <= next.index
                    < session.devices.len() && session.devices[next.index]
            }
        }),
    decreases session.devices.len() - from,
{
    if from < session.devices.len() && !session.devices[from] {
        lemma_scanning_ends(session, from + 1);
    }
}

/// Everything acquired on any path is accounted for, and each call is made only while what it
/// needs is held.
pub proof fn law_holdings_are_accounted_for(session: UsbSessionView, call: UsbCall, reply: UsbReply)
    requires
        session.well_formed(),
        session.pending_call() == Some(call),
        answers(call, reply),
    ensures
        holdings(session).permits(call),
        holdings(session.resumed(reply)) == holdings(session).after(call, reply),
{
    lemma_scanning_ends(session, session.index + 1);
    if let UsbReply::Listed { present, .. } = reply {
        lemma_scanning_ends(UsbSessionView { devices: present@, ..session }, 0);
    }
    if let UsbGoalView::Discover { list } = session.goal {
        let counted = UsbSessionView {
            goal: UsbGoalView::Discover { list: list.counted() },
            ..session
        };
        lemma_scanning_ends(counted, session.index + 1);
        lemma_reported_discovery(session);
        lemma_reported_discovery(counted);
    }
}

/// Reporting a device in a discovery goes on behind that device.
proof fn lemma_reported_discovery(session: UsbSessionView)
    requires
        session.goal is Discover,
        0 <= session.index,
    ensures
        forall|descriptor: UsbDescriptor, topology: UsbTopology, serial: Seq<u8>|
            ({
                let next = #[trigger] session.reported(descriptor, topology, serial);
                next.goal is Discover && (next.stage == UsbStage::MatchingDescriptor || next.stage
                    == (UsbStage::FreeingList { outcome: UsbOutcome::Completed(GPIO_OK) }))
            }),
{
    assert forall|descriptor: UsbDescriptor, topology: UsbTopology, serial: Seq<u8>|
        ({
            let next = #[trigger] session.reported(descriptor, topology, serial);
            next.goal is Discover && (next.stage == UsbStage::MatchingDescriptor || next.stage == (
            UsbStage::FreeingList { outcome: UsbOutcome::Completed(GPIO_OK) }))
        }) by {
        let list = session.goal->list;
        let added = UsbSessionView {
            goal: UsbGoalView::Discover { list: list.added(topology, descriptor, serial) },
            ..session
        };
        lemma_scanning_ends(added, session.index + 1);
    }
}

/// A session that ends without a claimed interface holds nothing; one that ends with it holds
/// the context, the handle and the claim, and no device list.
pub proof fn law_only_a_claimed_interface_is_kept(session: UsbSessionView, outcome: UsbOutcome)
    requires
        session.stage == (UsbStage::Finished { outcome }),
    ensures
        outcome is Opened ==> holdings(session) == (UsbHoldings {
            context: true,
            list: false,
            handle: true,
            claimed: true,
        }),
        outcome !is Opened ==> holdings(session) == UsbHoldings::nothing(),
{
}

/// Only a session that was asked to open ever claims an interface or disturbs its kernel driver,
/// and no answer turns a probe or a discovery into such a session.
pub proof fn law_only_opening_claims(session: UsbSessionView, call: UsbCall, reply: UsbReply)
    requires
        session.well_formed(),
        session.goal !is Open,
        session.pending_call() == Some(call),
    ensures
        call != UsbCall::Claim,
        call != UsbCall::KernelDriverActive,
        call != UsbCall::DetachKernelDriver,
        session.resumed(reply).goal !is Open,
{
    lemma_scanning_ends(session, session.index + 1);
    if let UsbReply::Listed { present, .. } = reply {
        lemma_scanning_ends(UsbSessionView { devices: present@, ..session }, 0);
    }
    if let UsbGoalView::Discover { list } = session.goal {
        let counted = UsbSessionView {
            goal: UsbGoalView::Discover { list: list.counted() },
            ..session
        };
        lemma_scanning_ends(counted, session.index + 1);
        lemma_reported_discovery(session);
        lemma_reported_discovery(counted);
    }
}

/// How far a waiting session is from the end of its work on one device, or of its clean-up.
pub open spec fn stage_rank(stage: UsbStage) -> int {
    match stage {
        UsbStage::MatchingDescriptor => 15,
        UsbStage::MatchingBus { .. } => 14,
        UsbStage::MatchingPorts { .. } => 13,
        UsbStage::ConfirmingDescriptor => 12,
        UsbStage::ConfirmingBus { .. } => 11,
        UsbStage::ConfirmingPorts { .. } => 10,
        UsbStage::OpeningSerial { .. } | UsbStage::Opening { .. } => 9,
        UsbStage::ReadingSerial { .. } | UsbStage::Claiming { .. } => 8,
        UsbStage::ClosingSerial { .. } | UsbStage::AskingDriver { .. } => 7,
        UsbStage::Detaching { .. } => 6,
        UsbStage::Reclaiming { .. } => 5,
        UsbStage::ClosingHandle { .. } => 4,
        UsbStage::FreeingList { .. } => 3,
        UsbStage::Exiting { .. } => 2,
        _ => 0,
    }
}

/// A bound on the calls that a session with a device list still makes.
pub open spec fn calls_bound(session: UsbSessionView) -> int {
    stage_rank(session.stage) + (if session.has_device() {
        16 * (session.devices.len() - session.index)
    } else {
        0
    })
}

/// Whether a session has its device list and has not ended.
pub open spec fn is_underway(session: UsbSessionView) -> bool {
    session.stage !is Initializing && session.stage !is Listing && session.stage !is Finished
}

/// A session behind the device that it looked at is nearer to its end.
proof fn lemma_skipping_makes_progress(session: UsbSessionView, before: UsbSessionView)
    requires
        before.has_device(),
        0 <= before.index < before.devices.len(),
        session.index == before.index,
        session.devices == before.devices,
        stage_rank(before.stage) >= 7,
    ensures
        0 <= calls_bound(session.skipping()) < calls_bound(before),
{
    lemma_scanning_ends(session, session.index + 1);
}

/// Every answer brings a session nearer to its end: each device is looked at once, and no answer
/// makes a session go on forever.
pub proof fn law_every_answer_makes_progress(
    session: UsbSessionView,
    call: UsbCall,
    reply: UsbReply,
)
    requires
        session.well_formed(),
        is_underway(session),
        session.pending_call() == Some(call),
        answers(call, reply),
    ensures
        0 <= calls_bound(session.resumed(reply)) < calls_bound(session),
{
    if session.has_device() && stage_rank(session.stage) >= 7 {
        lemma_skipping_makes_progress(session, session);
        if let UsbGoalView::Discover { list } = session.goal {
            let counted = UsbSessionView {
                goal: UsbGoalView::Discover { list: list.counted() },
                ..session
            };
            lemma_skipping_makes_progress(counted, session);
            lemma_reporting_makes_progress(session, session);
            lemma_reporting_makes_progress(counted, session);
        }
    }
}

/// A session behind the device that it reported is nearer to its end.
proof fn lemma_reporting_makes_progress(session: UsbSessionView, before: UsbSessionView)
    requires
        session.goal is Discover,
        before.has_device(),
        0 <= before.index < before.devices.len(),
        session.index == before.index,
        session.devices == before.devices,
        stage_rank(before.stage) >= 7,
    ensures
        forall|descriptor: UsbDescriptor, topology: UsbTopology, serial: Seq<u8>|
            0 <= calls_bound(#[trigger] session.reported(descriptor, topology, serial))
                < calls_bound(before),
{
    assert forall|descriptor: UsbDescriptor, topology: UsbTopology, serial: Seq<u8>|
        0 <= calls_bound(#[trigger] session.reported(descriptor, topology, serial)) < calls_bound(
            before,
        ) by {
        let list = session.goal->list;
        let added = UsbSessionView {
            goal: UsbGoalView::Discover { list: list.added(topology, descriptor, serial) },
            ..session
        };
        lemma_skipping_makes_progress(added, before);
    }
}

/// A device on a bus that answers the same question the same way every time.
pub struct BusDevice {
    /// Whether the list has an entry for it.
    pub present: bool,
    /// Result of reading its descriptor.
    pub descriptor_code: i32,
    /// Its descriptor.
    pub descriptor: UsbDescriptor,
    /// Where it is plugged in.
    pub place: ReportedPlace,
    /// Result of opening it.
    pub open_code: i32,
    /// Whether opening it gives a handle.
    pub handle: bool,
    /// Length of its serial string.
    pub serial_count: i32,
    /// Its serial string.
    pub serial_bytes: [u8; SERIAL_TEXT_BYTES],
    /// Result of the first claim of its interface.
    pub claim: i32,
    /// Whether a kernel driver owns its interface.
    pub driver: i32,
    /// Result of detaching that driver.
    pub detach: i32,
    /// Result of the second claim.
    pub reclaim: i32,
}

impl BusDevice {
    /// Whether it is the configured device.
    pub open spec fn is_configured(self, config: ValidatedConfig) -> bool {
        &&& self.present
        &&& self.descriptor_code == USB_SUCCESS
        &&& self.descriptor.id_vendor == config.vendor_id
        &&& is_requested_product(config.product_id, self.descriptor.id_product)
        &&& self.place.topology() == Some(config.usb_port_path@)
    }

    /// Whether it is a supported device in a stable place.
    pub open spec fn is_candidate(self) -> bool {
        &&& self.present
        &&& self.descriptor_code == USB_SUCCESS
        &&& is_supported(self.descriptor)
        &&& self.place.topology() is Some
    }

    /// Its serial number, or zeros where none can be read.
    pub open spec fn serial(self) -> Seq<u8> {
        if self.descriptor.i_serial_number == 0 || self.open_code != USB_SUCCESS || !self.handle {
            zeros(128)
        } else {
            serial_text(self.serial_count, self.serial_bytes@)
        }
    }

    /// How opening it ends.
    pub open spec fn opening(self) -> UsbOutcome {
        let product = self.descriptor.id_product;
        if self.open_code != USB_SUCCESS || !self.handle {
            UsbOutcome::OpenFailed(OpenError::Usb(self.open_code))
        } else if self.claim == USB_SUCCESS {
            UsbOutcome::Opened(product)
        } else if self.driver > 0 && self.detach == USB_SUCCESS {
            if self.reclaim == USB_SUCCESS {
                UsbOutcome::Opened(product)
            } else {
                UsbOutcome::OpenFailed(OpenError::Usb(self.reclaim))
            }
        } else {
            UsbOutcome::OpenFailed(OpenError::Usb(self.claim))
        }
    }
}

/// What a steady bus answers to a session that is underway.
pub open spec fn steady_answer(bus: Seq<BusDevice>, session: UsbSessionView) -> UsbReply {
    let device = bus[session.index];
    match session.stage {
        UsbStage::MatchingDescriptor | UsbStage::ConfirmingDescriptor => UsbReply::Descriptor {
            code: device.descriptor_code,
            descriptor: device.descriptor,
        },
        UsbStage::MatchingBus { .. } | UsbStage::ConfirmingBus { .. } => UsbReply::BusNumber(
            device.place.bus,
        ),
        UsbStage::MatchingPorts { .. } | UsbStage::ConfirmingPorts { .. } => UsbReply::PortNumbers {
            count: device.place.count,
            ports: device.place.ports,
        },
        UsbStage::OpeningSerial { .. } | UsbStage::Opening { .. } => UsbReply::Opened {
            code: device.open_code,
            handle: device.handle,
        },
        UsbStage::ReadingSerial { .. } => UsbReply::SerialText {
            count: device.serial_count,
            bytes: device.serial_bytes,
        },
        UsbStage::Claiming { .. } => UsbReply::Claimed(device.claim),
        UsbStage::AskingDriver { .. } => UsbReply::KernelDriver(device.driver),
        UsbStage::Detaching { .. } => UsbReply::Detached(device.detach),
        UsbStage::Reclaiming { .. } => UsbReply::Claimed(device.reclaim),
        _ => UsbReply::Released,
    }
}

/// Whether a session has the device list of this bus.
pub open spec fn lists(session: UsbSessionView, bus: Seq<BusDevice>) -> bool {
    &&& session.devices.len() == bus.len()
    &&& forall|index: int|
        0 <= index < bus.len() ==> #[trigger] session.devices[index] == bus[index].present
}

/// The end of a session on a steady bus.
pub open spec fn steady_end(bus: Seq<BusDevice>, session: UsbSessionView) -> UsbSessionView
    decreases calls_bound(session),
{
    let next = session.resumed(steady_answer(bus, session));
    if is_underway(session) && 0 <= calls_bound(next) < calls_bound(session) {
        steady_end(bus, next)
    } else {
        session
    }
}

/// One call of a session on a steady bus.
proof fn lemma_steady_step(bus: Seq<BusDevice>, session: UsbSessionView)
    requires
        session.well_formed(),
        is_underway(session),
    ensures
        steady_end(bus, session) == steady_end(
            bus,
            session.resumed(steady_answer(bus, session)),
        ),
{
    let call = session.pending_call()->0;
    law_every_answer_makes_progress(session, call, steady_answer(bus, session));
}

/// A session that frees its list ends as it decided.
proof fn lemma_steady_cleanup(bus: Seq<BusDevice>, session: UsbSessionView, outcome: UsbOutcome)
    requires
        session.well_formed(),
        session.stage == (UsbStage::FreeingList { outcome }),
    ensures
        steady_end(bus, session) == session.at(UsbStage::Finished { outcome }),
{
    lemma_steady_step(bus, session);
    if outcome !is Opened {
        lemma_steady_step(bus, session.at(UsbStage::Exiting { outcome }));
    }
}

/// A snapshot behind one more device: a candidate is counted, and reported while there is room.
pub open spec fn with_device(list: DeviceListView, device: BusDevice) -> DeviceListView {
    if !device.is_candidate() {
        list
    } else if list.has_room() {
        list.counted().added(device.place.topology()->0, device.descriptor, device.serial())
    } else {
        list.counted()
    }
}

/// The snapshot of a steady bus from device `from` on.
pub open spec fn snapshot_of(list: DeviceListView, bus: Seq<BusDevice>, from: int) -> DeviceListView
    decreases bus.len() - from,
{
    if from >= bus.len() {
        list
    } else {
        snapshot_of(with_device(list, bus[from]), bus, from + 1)
    }
}

/// The session that discovers from device `from` on.
pub open spec fn discovering(
    session: UsbSessionView,
    list: DeviceListView,
    from: int,
) -> UsbSessionView {
    UsbSessionView { goal: UsbGoalView::Discover { list }, ..session }.scanning(from)
}

/// Discovery looks at one device and goes on behind it.
proof fn lemma_steady_candidate(
    bus: Seq<BusDevice>,
    session: UsbSessionView,
    list: DeviceListView,
    from: int,
)
    requires
        session.well_formed(),
        session.stage == UsbStage::MatchingDescriptor,
        session.goal == (UsbGoalView::Discover { list }),
        session.index == from,
        lists(session, bus),
        bus[from].present,
    ensures
        steady_end(bus, session) == steady_end(
            bus,
            discovering(session, with_device(list, bus[from]), from + 1),
        ),
{
    let device = bus[from];
    let descriptor = device.descriptor;
    let place = device.place;
    lemma_steady_step(bus, session);
    if device.descriptor_code == USB_SUCCESS && is_supported(descriptor) {
        let at_bus = session.at(UsbStage::MatchingBus { descriptor });
        lemma_steady_step(bus, at_bus);
        if place.bus == 0 {
            assert(session.skipping() == at_bus.skipping()) by {
                lemma_scan_ignores_stage(session, at_bus, from + 1);
            }
            assert(place.topology() is None);
            assert(session.skipping() == discovering(session, list, from + 1));
        } else {
            let at_ports = session.at(UsbStage::MatchingPorts { descriptor, bus: place.bus });
            lemma_steady_step(bus, at_ports);
            assert((ReportedPlace { bus: place.bus, count: place.count, ports: place.ports })
                == place);
            lemma_scan_ignores_stage(session, at_ports, from + 1);
            if place.topology() is None {
                assert(session.skipping() == discovering(session, list, from + 1));
            } else {
                let counted = UsbSessionView {
                    goal: UsbGoalView::Discover { list: list.counted() },
                    ..at_ports
                };
                if !list.has_room() {
                    lemma_scan_ignores_stage(
                        UsbSessionView {
                            goal: UsbGoalView::Discover { list: list.counted() },
                            ..session
                        },
                        counted,
                        from + 1,
                    );
                    assert(counted.skipping() == discovering(session, list.counted(), from + 1));
                } else {
                    lemma_steady_report(bus, counted, from);
                    let added = list.counted().added(
                        place.topology()->0,
                        descriptor,
                        device.serial(),
                    );
                    let after = UsbSessionView {
                        goal: UsbGoalView::Discover { list: added },
                        ..session
                    };
                    lemma_scan_ignores_stage(
                        after,
                        UsbSessionView { goal: UsbGoalView::Discover { list: added }, ..counted },
                        from + 1,
                    );
                    assert(discovering(session, added, from + 1) == after.skipping());
                }
            }
        }
    } else {
        assert(session.skipping() == discovering(session, list, from + 1));
    }
}

/// Scanning depends on the list and the goal, not on what the session waited for.
proof fn lemma_scan_ignores_stage(left: UsbSessionView, right: UsbSessionView, from: int)
    requires
        left.goal == right.goal,
        left.devices == right.devices,
        left.index == right.index,
    ensures
        left.scanning(from) == right.scanning(from),
    decreases left.devices.len() - from,
{
    if from < left.devices.len() && !left.devices[from] {
        lemma_scan_ignores_stage(left, right, from + 1);
    }
}

/// A device that is about to be reported is reported with its serial number.
proof fn lemma_steady_report(bus: Seq<BusDevice>, session: UsbSessionView, index: int)
    requires
        session.goal !is Open,
        session.goal.well_formed(true),
        session.index == index,
        0 <= index < bus.len(),
        lists(session, bus),
        bus[index].present,
        bus[index].place.topology() is Some,
    ensures
        ({
            let device = bus[index];
            let topology = device.place.topology()->0;
            let waiting = session.reporting(device.descriptor, device.place);
            steady_end(bus, waiting) == steady_end(
                bus,
                session.reported(device.descriptor, topology, device.serial()),
            )
        }),
{
    let device = bus[index];
    let descriptor = device.descriptor;
    let place = device.place;
    if descriptor.i_serial_number != 0 {
        let at_open = session.at(UsbStage::OpeningSerial { descriptor, place });
        lemma_steady_step(bus, at_open);
        if device.open_code != USB_SUCCESS || !device.handle {
            lemma_report_ignores_stage(session, at_open, descriptor, place.topology()->0, zeros(128));
        } else {
            let at_read = session.at(UsbStage::ReadingSerial { descriptor, place });
            lemma_steady_step(bus, at_read);
            let at_close = session.at(
                UsbStage::ClosingSerial {
                    descriptor,
                    place,
                    count: device.serial_count,
                    bytes: device.serial_bytes,
                },
            );
            lemma_steady_step(bus, at_close);
            lemma_report_ignores_stage(
                session,
                at_close,
                descriptor,
                place.topology()->0,
                device.serial(),
            );
        }
    }
}

/// Reporting does not depend on what the session waited for.
proof fn lemma_report_ignores_stage(
    left: UsbSessionView,
    right: UsbSessionView,
    descriptor: UsbDescriptor,
    topology: UsbTopology,
    serial: Seq<u8>,
)
    requires
        left.goal == right.goal,
        left.goal !is Open,
        left.devices == right.devices,
        left.index == right.index,
    ensures
        left.reported(descriptor, topology, serial) == right.reported(
            descriptor,
            topology,
            serial,
        ),
{
    if let UsbGoalView::Discover { list } = left.goal {
        let goal = UsbGoalView::Discover { list: list.added(topology, descriptor, serial) };
        lemma_scan_ignores_stage(
            UsbSessionView { goal, ..left },
            UsbSessionView { goal, ..right },
            left.index + 1,
        );
    }
}

/// Discovery from device `from` on ends with the snapshot of the rest of the bus.
proof fn lemma_steady_discovery(
    bus: Seq<BusDevice>,
    session: UsbSessionView,
    list: DeviceListView,
    from: int,
)
    requires
        (UsbGoalView::Discover { list }).well_formed(false),
        lists(session, bus),
        0 <= session.index,
        0 <= from <= bus.len(),
    ensures
        ({
            let end = steady_end(bus, discovering(session, list, from));
            &&& end.goal == (UsbGoalView::Discover { list: snapshot_of(list, bus, from) })
            &&& end.stage == (UsbStage::Finished { outcome: UsbOutcome::Completed(GPIO_OK) })
        }),
    decreases bus.len() - from,
{
    let scanning = discovering(session, list, from);
    if from == bus.len() {
        lemma_steady_cleanup(bus, scanning, UsbOutcome::Completed(GPIO_OK));
    } else if !bus[from].present {
        lemma_steady_discovery(bus, session, list, from + 1);
    } else {
        lemma_steady_candidate(bus, scanning, list, from);
        lemma_steady_discovery(bus, scanning, with_device(list, bus[from]), from + 1);
    }
}

/// On a steady bus discovery succeeds and its snapshot tells of every candidate, in bus order: it
/// counts all of them and reports the first ones as far as it has room.
pub proof fn law_discovery_reports_the_candidates(
    bus: Seq<BusDevice>,
    session: UsbSessionView,
    list: DeviceListView,
)
    requires
        session.goal == (UsbGoalView::Discover { list: list.cleared() }),
        lists(session, bus),
        session.index == 0,
        bus.len() <= u32::MAX,
    ensures
        ({
            let candidates = bus.filter(|device: BusDevice| device.is_candidate());
            let end = steady_end(bus, session.scanning(0));
            &&& end.stage == (UsbStage::Finished { outcome: UsbOutcome::Completed(GPIO_OK) })
            &&& end.goal matches UsbGoalView::Discover { list: found }
            &&& found.struct_size == list.struct_size
            &&& found.matching_device_count == candidates.len()
            &&& found.returned_device_count == smaller(candidates.len() as int, 16)
            &&& forall|slot: int|
                0 <= slot < 16 ==> #[trigger] found.devices[slot] == (if slot
                    < candidates.len() {
                    let device = candidates[slot];
                    DeviceInfoView::empty().filled(
                        device.place.topology()->0,
                        device.descriptor,
                        device.serial(),
                    )
                } else {
                    DeviceInfoView::empty()
                })
        }),
{
    let candidates = bus.filter(|device: BusDevice| device.is_candidate());
    assert(session.scanning(0) == discovering(session, list.cleared(), 0));
    lemma_steady_discovery(bus, session, list.cleared(), 0);
    assert(list.cleared().devices.len() == 16);
    lemma_snapshot_describes(list.cleared(), bus, 0, Seq::empty());
    assert(bus.skip(0) =~= bus);
    assert(Seq::<BusDevice>::empty() + candidates =~= candidates);
}

/// Whether a snapshot tells of exactly these candidates.
pub open spec fn describes(list: DeviceListView, seen: Seq<BusDevice>) -> bool {
    &&& list.devices.len() == 16
    &&& list.matching_device_count == seen.len()
    &&& list.returned_device_count == smaller(seen.len() as int, 16)
    &&& forall|slot: int|
        0 <= slot < 16 ==> #[trigger] list.devices[slot] == (if slot < seen.len() {
            DeviceInfoView::empty().filled(
                seen[slot].place.topology()->0,
                seen[slot].descriptor,
                seen[slot].serial(),
            )
        } else {
            DeviceInfoView::empty()
        })
}

/// A snapshot goes on telling of the candidates that it passes.
proof fn lemma_snapshot_describes(
    list: DeviceListView,
    bus: Seq<BusDevice>,
    from: int,
    seen: Seq<BusDevice>,
)
    requires
        describes(list, seen),
        0 <= from <= bus.len(),
        seen.len() <= from,
        bus.len() <= u32::MAX,
    ensures
        describes(
            snapshot_of(list, bus, from),
            seen + bus.skip(from).filter(|device: BusDevice| device.is_candidate()),
        ),
        snapshot_of(list, bus, from).struct_size == list.struct_size,
    decreases bus.len() - from,
{
    let candidate = |device: BusDevice| device.is_candidate();
    let rest = bus.skip(from);
    reveal(Seq::filter);
    if from == bus.len() {
        assert(rest.filter(candidate) =~= Seq::empty());
        assert(seen + rest.filter(candidate) =~= seen);
    } else {
        let device = bus[from];
        let tail = bus.skip(from + 1);
        assert(rest =~= seq![device] + tail);
        lemma_filter_first(device, tail, candidate);
        if device.is_candidate() {
            let grown = seen.push(device);
            assert(describes(with_device(list, device), grown));
            lemma_snapshot_describes(with_device(list, device), bus, from + 1, grown);
            assert(grown + tail.filter(candidate) =~= seen + rest.filter(candidate));
        } else {
            lemma_snapshot_describes(list, bus, from + 1, seen);
        }
    }
}

/// Filtering a sequence keeps its first element or drops it, and filters the rest.
proof fn lemma_filter_first<T>(first: T, rest: Seq<T>, keep: spec_fn(T) -> bool)
    ensures
        (seq![first] + rest).filter(keep) == (if keep(first) {
            seq![first] + rest.filter(keep)
        } else {
            rest.filter(keep)
        }),
    decreases rest.len(),
{
    reveal(Seq::filter);
    let whole = seq![first] + rest;
    if rest.len() == 0 {
        assert(whole.drop_last() =~= Seq::<T>::empty());
        assert(whole.drop_last().filter(keep) =~= Seq::<T>::empty());
        assert(rest.filter(keep) =~= Seq::<T>::empty());
        assert(whole.filter(keep) =~= (if keep(first) {
            seq![first] + rest.filter(keep)
        } else {
            rest.filter(keep)
        }));
    } else {
        lemma_filter_first(first, rest.drop_last(), keep);
        assert(whole.drop_last() =~= seq![first] + rest.drop_last());
        assert(whole.last() == rest.last());
        assert(whole.filter(keep) =~= (if keep(first) {
            seq![first] + rest.filter(keep)
        } else {
            rest.filter(keep)
        }));
    }
}

/// The first configured device from `from` on, or the length of the bus.
pub open spec fn first_configured(bus: Seq<BusDevice>, config: ValidatedConfig, from: int) -> int
    decreases bus.len() - from,
{
    if from >= bus.len() || bus[from].is_configured(config) {
        from
    } else {
        first_configured(bus, config, from + 1)
    }
}

/// A session for one configured device reaches the confirmation of that device, or passes it.
proof fn lemma_steady_match(
    bus: Seq<BusDevice>,
    session: UsbSessionView,
    config: ValidatedConfig,
    from: int,
)
    requires
        session.well_formed(),
        session.stage == UsbStage::MatchingDescriptor,
        match session.goal {
            UsbGoalView::Open { config: wanted } => wanted == config,
            UsbGoalView::Probe { config: wanted, .. } => wanted == config,
            UsbGoalView::Discover { .. } => false,
        },
        session.index == from,
        lists(session, bus),
        bus[from].present,
    ensures
        bus[from].is_configured(config) ==> steady_end(bus, session) == steady_end(
            bus,
            session.at(UsbStage::ConfirmingDescriptor),
        ),
        !bus[from].is_configured(config) ==> steady_end(bus, session) == steady_end(
            bus,
            session.scanning(from + 1),
        ),
{
    let device = bus[from];
    let descriptor = device.descriptor;
    let place = device.place;
    lemma_steady_step(bus, session);
    if device.descriptor_code == USB_SUCCESS && session.goal.wants(descriptor) {
        let at_bus = session.at(UsbStage::MatchingBus { descriptor });
        lemma_steady_step(bus, at_bus);
        lemma_scan_ignores_stage(session, at_bus, from + 1);
        if place.bus != 0 {
            let at_ports = session.at(UsbStage::MatchingPorts { descriptor, bus: place.bus });
            lemma_steady_step(bus, at_ports);
            lemma_scan_ignores_stage(session, at_ports, from + 1);
            assert((ReportedPlace { bus: place.bus, count: place.count, ports: place.ports })
                == place);
        }
    }
}

/// On a steady bus opening takes the first device that is the configured one, and ends as
/// claiming that device ends; without such a device it is unsupported.
pub proof fn law_open_takes_the_first_configured_device(
    bus: Seq<BusDevice>,
    session: UsbSessionView,
    config: ValidatedConfig,
    from: int,
)
    requires
        session.goal == (UsbGoalView::Open { config }),
        lists(session, bus),
        0 <= session.index,
        0 <= from <= bus.len(),
    ensures
        ({
            let first = first_configured(bus, config, from);
            steady_end(bus, session.scanning(from)).stage == (UsbStage::Finished {
                outcome: if first < bus.len() {
                    bus[first].opening()
                } else {
                    UsbOutcome::OpenFailed(OpenError::Unsupported)
                },
            })
        }),
    decreases bus.len() - from,
{
    let scanning = session.scanning(from);
    if from == bus.len() {
        lemma_steady_cleanup(bus, scanning, UsbOutcome::OpenFailed(OpenError::Unsupported));
    } else if !bus[from].present {
        law_open_takes_the_first_configured_device(bus, session, config, from + 1);
    } else {
        lemma_steady_match(bus, scanning, config, from);
        if bus[from].is_configured(config) {
            lemma_steady_claim(bus, scanning.at(UsbStage::ConfirmingDescriptor), from);
        } else {
            law_open_takes_the_first_configured_device(bus, scanning, config, from + 1);
        }
    }
}

/// A confirmed device is claimed, with one retry behind its kernel driver.
proof fn lemma_steady_claim(bus: Seq<BusDevice>, session: UsbSessionView, from: int)
    requires
        session.well_formed(),
        session.stage == UsbStage::ConfirmingDescriptor,
        session.goal is Open,
        session.index == from,
        bus[from].descriptor_code == USB_SUCCESS,
    ensures
        steady_end(bus, session).stage == (UsbStage::Finished { outcome: bus[from].opening() }),
{
    let device = bus[from];
    let product_id = device.descriptor.id_product;
    lemma_steady_step(bus, session);
    let opening = session.at(UsbStage::Opening { product_id });
    lemma_steady_step(bus, opening);
    if device.open_code == USB_SUCCESS && device.handle {
        let claiming = session.at(UsbStage::Claiming { product_id });
        lemma_steady_step(bus, claiming);
        if device.claim != USB_SUCCESS {
            let asking = session.at(
                UsbStage::AskingDriver { product_id, claim: device.claim },
            );
            lemma_steady_step(bus, asking);
            if device.driver > 0 {
                let detaching = session.at(
                    UsbStage::Detaching { product_id, claim: device.claim },
                );
                lemma_steady_step(bus, detaching);
                if device.detach == USB_SUCCESS {
                    let reclaiming = session.at(UsbStage::Reclaiming { product_id });
                    lemma_steady_step(bus, reclaiming);
                    if device.reclaim != USB_SUCCESS {
                        lemma_steady_step(
                            bus,
                            session.at(UsbStage::ClosingHandle { claim: device.reclaim }),
                        );
                    }
                } else {
                    lemma_steady_step(
                        bus,
                        session.at(UsbStage::ClosingHandle { claim: device.claim }),
                    );
                }
            } else {
                lemma_steady_step(
                    bus,
                    session.at(UsbStage::ClosingHandle { claim: device.claim }),
                );
            }
        }
    }
    lemma_steady_cleanup(
        bus,
        session.at(UsbStage::FreeingList { outcome: device.opening() }),
        device.opening(),
    );
}

/// On a steady bus probing reports the first device that is the configured one; without such a
/// device it is unsupported and the report stays as it was reset.
pub proof fn law_probe_reports_the_first_configured_device(
    bus: Seq<BusDevice>,
    session: UsbSessionView,
    config: ValidatedConfig,
    info: DeviceInfoView,
    from: int,
)
    requires
        session.goal == (UsbGoalView::Probe { config, info }),
        lists(session, bus),
        0 <= session.index,
        0 <= from <= bus.len(),
    ensures
        ({
            let first = first_configured(bus, config, from);
            let end = steady_end(bus, session.scanning(from));
            if first < bus.len() {
                let device = bus[first];
                &&& end.stage == (UsbStage::Finished { outcome: UsbOutcome::Completed(GPIO_OK) })
                &&& end.goal == (UsbGoalView::Probe {
                    config,
                    info: info.filled(
                        config.usb_port_path@,
                        device.descriptor,
                        device.serial(),
                    ),
                })
            } else {
                &&& end.stage == (UsbStage::Finished {
                    outcome: UsbOutcome::Completed(GPIO_UNSUPPORTED),
                })
                &&& end.goal == session.goal
            }
        }),
    decreases bus.len() - from,
{
    let scanning = session.scanning(from);
    if from == bus.len() {
        lemma_steady_cleanup(bus, scanning, UsbOutcome::Completed(GPIO_UNSUPPORTED));
    } else if !bus[from].present {
        law_probe_reports_the_first_configured_device(bus, session, config, info, from + 1);
    } else {
        lemma_steady_match(bus, scanning, config, from);
        if bus[from].is_configured(config) {
            let device = bus[from];
            let descriptor = device.descriptor;
            let place = device.place;
            let confirming = scanning.at(UsbStage::ConfirmingDescriptor);
            lemma_steady_step(bus, confirming);
            let at_bus = scanning.at(UsbStage::ConfirmingBus { confirmed: Some(descriptor) });
            lemma_steady_step(bus, at_bus);
            let at_ports = scanning.at(
                UsbStage::ConfirmingPorts { confirmed: Some(descriptor), bus: place.bus },
            );
            lemma_steady_step(bus, at_ports);
            assert((ReportedPlace { bus: place.bus, count: place.count, ports: place.ports })
                == place);
            lemma_steady_report(bus, at_ports, from);
            lemma_steady_cleanup(
                bus,
                at_ports.reported(descriptor, place.topology()->0, device.serial()),
                UsbOutcome::Completed(GPIO_OK),
            );
        } else {
            law_probe_reports_the_first_configured_device(bus, scanning, config, info, from + 1);
        }
    }
}

} // verus!

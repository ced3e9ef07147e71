//! What single answers of the USB bus lead to, on a bus that may answer anything.

use vstd::prelude::*;

#[allow(unused_imports)]
use crate::discovery::zeros;
#[allow(unused_imports)]
use crate::identity::UsbDescriptor;
#[allow(unused_imports)]
use crate::topology::reported_topology;
#[allow(unused_imports)]
use crate::usb::{
    OpenError, ReportedPlace, UsbCall, UsbGoalView, UsbOutcome, UsbReply, UsbSessionView, UsbStage,
};
#[allow(unused_imports)]
use crate::usb_laws::{answers, lemma_scanning_ends};

verus! {

/// A caller sees success for a claimed interface, the unsupported result where nothing was found,
/// the USB result where a call failed, and the result of a probe or discovery as it is.
pub proof fn law_outcomes_have_results(product: u16, code: i32)
    ensures
        UsbOutcome::Opened(product).result() == 0,
        UsbOutcome::OpenFailed(OpenError::Unsupported).result() == -4,
        UsbOutcome::OpenFailed(OpenError::Usb(code)).result() == -3,
        UsbOutcome::Completed(code).result() == code,
{
}

/// A session goes on behind its initialization exactly when there is a context. Without one it
/// ends at once, with the USB result, and an opening keeps the error of the call.
pub proof fn law_initialization_decides(session: UsbSessionView, code: i32, context: bool)
    requires
        session.stage == UsbStage::Initializing,
    ensures
        session.pending_call() == Some(UsbCall::Init),
        ({
            let next = session.resumed(UsbReply::Initialized { code, context });
            &&& code == 0 && context ==> next == session.at(UsbStage::Listing)
            &&& code != 0 || !context ==> {
                &&& next.stage matches UsbStage::Finished { outcome }
                &&& outcome.result() == -3
                &&& session.goal is Open ==> outcome == UsbOutcome::OpenFailed(OpenError::Usb(code))
                &&& next.goal == session.goal
            }
        }),
{
}

/// A session without a device list shuts its context down and ends with the USB result, and an
/// opening keeps the error of the call.
pub proof fn law_failed_listing_ends_the_session(
    session: UsbSessionView,
    count: i32,
    present: Vec<bool>,
)
    requires
        session.stage == UsbStage::Listing,
        count < 0,
    ensures
        session.pending_call() == Some(UsbCall::ListDevices),
        ({
            let failed = session.resumed(UsbReply::Listed { count, present });
            let ended = failed.resumed(UsbReply::Released);
            &&& failed.pending_call() == Some(UsbCall::Exit)
            &&& ended.stage matches UsbStage::Finished { outcome }
            &&& outcome.result() == -3
            &&& session.goal is Open ==> outcome == UsbOutcome::OpenFailed(OpenError::Usb(count))
            &&& ended.goal == session.goal
        }),
{
}

/// Scanning stops at the first device that is there, and at no other.
proof fn lemma_scanning_finds_the_first(session: UsbSessionView, from: int)
    requires
        0 <= from,
    ensures
        ({
            let next = session.scanning(from);
            &&& next.stage == UsbStage::MatchingDescriptor ==> forall|before: int|
                from <= before < next.index ==> !#[trigger] session.devices[before]
            &&& next.stage != UsbStage::MatchingDescriptor ==> forall|listed: int|
                from <= listed < session.devices.len() ==> !#[trigger] session.devices[listed]
        }),
    decreases session.devices.len() - from,
{
    if from < session.devices.len() && !session.devices[from] {
        lemma_scanning_finds_the_first(session, from + 1);
        lemma_scanning_ends(session, from + 1);
    }
}

/// A session with a device list looks at the first device that is there. Where there is none it
/// releases the list: an opening or a probe has found nothing, a discovery has succeeded.
pub proof fn law_scan_begins_at_the_first_device(
    session: UsbSessionView,
    count: i32,
    present: Vec<bool>,
)
    requires
        session.stage == UsbStage::Listing,
        count >= 0,
        present@.len() <= usize::MAX,
    ensures
        ({
            let next = session.resumed(UsbReply::Listed { count, present });
            &&& next.goal == session.goal
            &&& next.devices == present@
            &&& (exists|listed: int| 0 <= listed < present@.len() && #[trigger] present@[listed])
                ==> {
                &&& 0 <= next.index < present@.len()
                &&& present@[next.index]
                &&& forall|before: int| 0 <= before < next.index ==> !#[trigger] present@[before]
                &&& next.pending_call() matches Some(UsbCall::Descriptor(index)) && index
                    == next.index
            }
            &&& (forall|listed: int| 0 <= listed < present@.len() ==> !#[trigger] present@[listed])
                ==> {
                &&& next.stage matches UsbStage::FreeingList { outcome }
                &&& session.goal is Discover ==> outcome.result() == 0
                &&& session.goal !is Discover ==> outcome.result() == -4
                &&& next.pending_call() == Some(UsbCall::FreeDeviceList)
            }
        }),
{
    let listed = UsbSessionView { devices: present@, ..session };
    lemma_scanning_ends(listed, 0);
    lemma_scanning_finds_the_first(listed, 0);
}

/// Whether a session has passed over the device that it looked at: it looks at the first device
/// that is there behind it, or releases the list.
pub open spec fn passes_over(before: UsbSessionView, after: UsbSessionView) -> bool {
    &&& after.goal == before.goal
    &&& after.devices == before.devices
    &&& if after.stage == UsbStage::MatchingDescriptor {
        &&& before.index < after.index < before.devices.len()
        &&& before.devices[after.index]
        &&& forall|between: int|
            before.index < between < after.index ==> !#[trigger] before.devices[between]
    } else {
        &&& after.stage matches UsbStage::FreeingList { outcome }
        &&& outcome.result() == (if before.goal is Discover {
            0int
        } else {
            -4int
        })
        &&& forall|behind: int|
            before.index < behind < before.devices.len() ==> !#[trigger] before.devices[behind]
    }
}

/// Skipping passes over exactly one device.
proof fn lemma_skipping_passes_over(session: UsbSessionView)
    requires
        0 <= session.index,
    ensures
        passes_over(session, session.skipping()),
{
    lemma_scanning_ends(session, session.index + 1);
    lemma_scanning_finds_the_first(session, session.index + 1);
}

/// A device is passed over when its descriptor cannot be read or is not one that the session
/// looks for, and is looked at further otherwise.
pub proof fn law_unwanted_device_is_passed_over(
    session: UsbSessionView,
    code: i32,
    descriptor: UsbDescriptor,
)
    requires
        session.well_formed(),
        session.stage == UsbStage::MatchingDescriptor,
    ensures
        ({
            let next = session.resumed(UsbReply::Descriptor { code, descriptor });
            &&& code != 0 || !session.goal.wants(descriptor) ==> passes_over(session, next)
            &&& code == 0 && session.goal.wants(descriptor) ==> next == session.at(
                UsbStage::MatchingBus { descriptor },
            )
        }),
{
    lemma_skipping_passes_over(session);
}

/// A device without a bus number is passed over, when it is matched and when it is confirmed.
pub proof fn law_device_without_a_bus_is_passed_over(session: UsbSessionView, bus: u8)
    requires
        session.well_formed(),
        session.stage is MatchingBus || session.stage is ConfirmingBus,
    ensures
        ({
            let next = session.resumed(UsbReply::BusNumber(bus));
            &&& bus == 0 ==> passes_over(session, next)
            &&& bus != 0 ==> next.index == session.index && (
            session.pending_call() matches Some(UsbCall::BusNumber(index)) && next.pending_call()
                == Some(UsbCall::PortNumbers(index)))
        }),
{
    lemma_skipping_passes_over(session);
}

/// A wanted device in another place than the selected one is passed over.
pub proof fn law_device_elsewhere_is_passed_over(
    session: UsbSessionView,
    descriptor: UsbDescriptor,
    place: ReportedPlace,
)
    requires
        session.well_formed(),
        session.stage == (UsbStage::MatchingPorts { descriptor, bus: place.bus }),
    ensures
        ({
            let found = reported_topology(place.bus, place.count, place.ports@);
            let next = session.resumed(
                UsbReply::PortNumbers { count: place.count, ports: place.ports },
            );
            match session.goal {
                UsbGoalView::Open { config } | UsbGoalView::Probe { config, .. } => {
                    &&& found != Some(config.usb_port_path@) ==> passes_over(session, next)
                    &&& found == Some(config.usb_port_path@) ==> next == session.at(
                        UsbStage::ConfirmingDescriptor,
                    )
                },
                UsbGoalView::Discover { .. } => found is None ==> passes_over(session, next),
            }
        }),
{
    lemma_skipping_passes_over(session);
}

/// An opening takes the product that the second reading of the descriptor names, whatever the
/// first one said, and passes over a device that cannot be read again.
pub proof fn law_opened_product_is_the_confirmed_one(
    session: UsbSessionView,
    code: i32,
    descriptor: UsbDescriptor,
)
    requires
        session.well_formed(),
        session.goal is Open,
        session.stage == UsbStage::ConfirmingDescriptor,
    ensures
        ({
            let confirmed = session.resumed(UsbReply::Descriptor { code, descriptor });
            let opened = confirmed.resumed(UsbReply::Opened { code: 0, handle: true });
            let claimed = opened.resumed(UsbReply::Claimed(0));
            let ended = claimed.resumed(UsbReply::Released);
            &&& code != 0 ==> passes_over(session, confirmed)
            &&& code == 0 ==> {
                &&& confirmed.pending_call() == Some(UsbCall::Open(session.index as usize))
                &&& opened.pending_call() == Some(UsbCall::Claim)
                &&& claimed.pending_call() == Some(UsbCall::FreeDeviceList)
                &&& ended.pending_call() is None
                &&& ended.stage == (UsbStage::Finished {
                    outcome: UsbOutcome::Opened(descriptor.id_product),
                })
            }
        }),
{
    lemma_skipping_passes_over(session);
}

/// A probe reports what the second reading says, and passes over a device that cannot be read
/// again or has left its place.
pub proof fn law_probe_reports_the_confirmed_reading(
    session: UsbSessionView,
    code: i32,
    descriptor: UsbDescriptor,
    place: ReportedPlace,
)
    requires
        session.well_formed(),
        session.stage == UsbStage::ConfirmingDescriptor,
        session.goal is Probe,
        place.bus != 0,
        descriptor.i_serial_number == 0,
    ensures
        ({
            let reread = session.resumed(UsbReply::Descriptor { code, descriptor });
            let placed = reread.resumed(UsbReply::BusNumber(place.bus));
            let ended = placed.resumed(
                UsbReply::PortNumbers { count: place.count, ports: place.ports },
            );
            let found = reported_topology(place.bus, place.count, place.ports@);
            &&& code != 0 || found is None ==> passes_over(session, ended)
            &&& code == 0 && found is Some ==> {
                &&& ended.stage matches UsbStage::FreeingList { outcome }
                &&& outcome.result() == 0
                &&& session.goal matches UsbGoalView::Probe { config, info }
                &&& ended.goal == (UsbGoalView::Probe {
                    config,
                    info: info.filled(found->0, descriptor, zeros(128)),
                })
            }
        }),
{
    let reread = session.resumed(UsbReply::Descriptor { code, descriptor });
    let placed = reread.resumed(UsbReply::BusNumber(place.bus));
    lemma_skipping_passes_over(placed);
    assert((ReportedPlace { bus: place.bus, count: place.count, ports: place.ports }) == place);
}

/// Every call about a listed device names the device under scrutiny, which is there, and the
/// serial number is asked for by the index that its descriptor gives.
pub proof fn law_calls_name_the_device_under_scrutiny(session: UsbSessionView, call: UsbCall)
    requires
        session.well_formed(),
        session.pending_call() == Some(call),
        session.devices.len() <= usize::MAX,
    ensures
        match call {
            UsbCall::Descriptor(index)
            | UsbCall::BusNumber(index)
            | UsbCall::PortNumbers(index)
            | UsbCall::Open(index) => index == session.index && index < session.devices.len()
                && session.devices[index as int],
            UsbCall::SerialText(string) => session.stage matches UsbStage::ReadingSerial {
                descriptor,
                ..
            } && string == descriptor.i_serial_number,
            _ => true,
        },
{
}

/// An answer to another call than the pending one changes nothing.
pub proof fn law_stray_answers_change_nothing(
    session: UsbSessionView,
    call: UsbCall,
    reply: UsbReply,
)
    requires
        session.pending_call() == Some(call),
        !answers(call, reply),
    ensures
        session.resumed(reply) == session,
{
}

/// A session that has ended stays as it is.
pub proof fn law_ended_session_stays(session: UsbSessionView, reply: UsbReply)
    requires
        session.pending_call() is None,
    ensures
        session.resumed(reply) == session,
        session.stage is Finished,
{
}

} // verus!

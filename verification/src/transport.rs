//! How reports and bytes travel, and in which order what was claimed is given back.

use vstd::prelude::*;

use crate::abi::{GPIO_IO_ERROR, HID_REPORT_BYTES};

verus! {

/// CM119 HID interface number.
pub const HID_INTERFACE: u16 = 3;

/// Bound on one HID control transfer.
pub const HID_TIMEOUT_MILLISECONDS: u32 = 20;

/// Spacing kept in front of every HID transfer.
pub const HID_SETTLE_DELAY_MILLISECONDS: u64 = 3;

/// Request-type bit of a transfer toward the host.
pub const USB_ENDPOINT_IN: u8 = 0x80;

/// Request-type bit of a class request.
pub const USB_REQUEST_TYPE_CLASS: u8 = 0x20;

/// Request-type bit of a request to an interface.
pub const USB_RECIPIENT_INTERFACE: u8 = 0x01;

/// HID request that reads a report.
pub const HID_REPORT_GET: u8 = 0x01;

/// HID request that sends a report.
pub const HID_REPORT_SET: u8 = 0x09;

/// Report selector of the input report.
pub const HID_REPORT_INPUT: u16 = 0x0100;

/// Report selector of the output report.
pub const HID_REPORT_OUTPUT: u16 = 0x0200;

/// Error recorded for a transfer that moved too few bytes.
pub const SHORT_TRANSFER: i32 = -1;

/// Header of one HID control transfer.
#[derive(Clone, Copy, Debug, PartialEq, Eq, Structural)]
pub struct HidControlRequest {
    /// Direction and request-type bits.
    pub request_type: u8,
    /// HID request selector.
    pub request: u8,
    /// HID report type and identifier.
    pub value: u16,
    /// Interface number.
    pub index: u16,
    /// Exact report width.
    pub length: u16,
    /// Bounded transfer timeout.
    pub timeout_milliseconds: u32,
}

/// The request types of class requests to an interface, away from the host and toward it.
proof fn lemma_request_types()
    ensures
        USB_REQUEST_TYPE_CLASS | USB_RECIPIENT_INTERFACE == 0x21,
        USB_ENDPOINT_IN | USB_REQUEST_TYPE_CLASS | USB_RECIPIENT_INTERFACE == 0xa1,
{
    assert(0x20u8 | 0x01u8 == 0x21u8 && 0x80u8 | 0x20u8 | 0x01u8 == 0xa1u8) by (bit_vector);
}

/// The control transfer that submits one output report.
pub fn output_report_request() -> (request: HidControlRequest)
    ensures
        request == (HidControlRequest {
            request_type: 0x21,
            request: 0x09,
            value: 0x0200,
            index: 3,
            length: 4,
            timeout_milliseconds: 20,
        }),
{
    proof {
        lemma_request_types();
    }
    HidControlRequest {
        request_type: USB_REQUEST_TYPE_CLASS | USB_RECIPIENT_INTERFACE,
        request: HID_REPORT_SET,
        value: HID_REPORT_OUTPUT,
        index: HID_INTERFACE,
        length: HID_REPORT_BYTES as u16,
        timeout_milliseconds: HID_TIMEOUT_MILLISECONDS,
    }
}

/// The control transfer that reads one input report.
pub fn input_report_request() -> (request: HidControlRequest)
    ensures
        request == (HidControlRequest {
            request_type: 0xa1,
            request: 0x01,
            value: 0x0100,
            index: 3,
            length: 4,
            timeout_milliseconds: 20,
        }),
{
    proof {
        lemma_request_types();
    }
    HidControlRequest {
        request_type: USB_ENDPOINT_IN | USB_REQUEST_TYPE_CLASS | USB_RECIPIENT_INTERFACE,
        request: HID_REPORT_GET,
        value: HID_REPORT_INPUT,
        index: HID_INTERFACE,
        length: HID_REPORT_BYTES as u16,
        timeout_milliseconds: HID_TIMEOUT_MILLISECONDS,
    }
}

/// The outcome of a HID transfer that moved `result` bytes, or failed with an error below zero.
pub open spec fn transfer_outcome(result: i32) -> Result<(), i32> {
    if result == HID_REPORT_BYTES {
        Ok(())
    } else if result < 0 {
        Err(result)
    } else {
        Err(SHORT_TRANSFER)
    }
}

/// Accept a HID transfer only when it moved exactly one report.
pub fn hid_transfer_outcome(result: i32) -> (outcome: Result<(), i32>)
    ensures
        outcome == transfer_outcome(result),
{
    if result == HID_REPORT_BYTES as i32 {
        Ok(())
    } else if result < 0 {
        Err(result)
    } else {
        Err(SHORT_TRANSFER)
    }
}

/// What an opened HID transport still owns.
#[derive(Clone, Copy, Debug, PartialEq, Eq, Structural)]
pub struct HeldTransport {
    /// The library context.
    pub context: bool,
    /// The device handle.
    pub handle: bool,
    /// The claimed HID interface.
    pub claimed: bool,
}

/// One thing that is given back.
#[derive(Clone, Copy, Debug, PartialEq, Eq, Structural)]
pub enum ReleaseCall {
    /// Release the claimed HID interface.
    ReleaseInterface,
    /// Close the device handle.
    Close,
    /// Shut the library context down.
    Exit,
}

impl HeldTransport {
    /// What a transport owns whose interface was just claimed.
    pub fn claimed() -> (held: Self)
        ensures
            held == (HeldTransport { context: true, handle: true, claimed: true }),
    {
        HeldTransport { context: true, handle: true, claimed: true }
    }

    /// What remains and what is given back next: the interface before its handle, the handle
    /// before its context.
    pub open spec fn released(self) -> (Self, Option<ReleaseCall>) {
        if self.claimed {
            (HeldTransport { claimed: false, ..self }, Some(ReleaseCall::ReleaseInterface))
        } else if self.handle {
            (HeldTransport { handle: false, ..self }, Some(ReleaseCall::Close))
        } else if self.context {
            (HeldTransport { context: false, ..self }, Some(ReleaseCall::Exit))
        } else {
            (self, None)
        }
    }

    /// Give back one thing.
    pub fn release_next(&mut self) -> (call: Option<ReleaseCall>)
        ensures
            (*final(self), call) == old(self).released(),
    {
        if self.claimed {
            self.claimed = false;
            Some(ReleaseCall::ReleaseInterface)
        } else if self.handle {
            self.handle = false;
            Some(ReleaseCall::Close)
        } else if self.context {
            self.context = false;
            Some(ReleaseCall::Exit)
        } else {
            None
        }
    }
}

/// Everything that a transport owns is given back within three calls, each once, and a transport
/// that owns nothing makes no call.
pub proof fn law_everything_held_is_released(held: HeldTransport)
    ensures
        ({
            let (first, first_call) = held.released();
            let (second, second_call) = first.released();
            let (third, third_call) = second.released();
            &&& third.released() == (third, None::<ReleaseCall>)
            &&& third == (HeldTransport { context: false, handle: false, claimed: false })
            &&& held == third ==> first_call is None
            &&& held == (HeldTransport { context: true, handle: true, claimed: true }) ==> first_call
                == Some(ReleaseCall::ReleaseInterface) && second_call == Some(ReleaseCall::Close)
                && third_call == Some(ReleaseCall::Exit)
        }),
{
}

/// What opening a ppdev node waits for.
#[derive(Clone, Copy, Debug, PartialEq, Eq, Structural)]
pub enum PpdevStep {
    /// Open the node.
    Open,
    /// Claim the port exclusively.
    Claim,
    /// Close a descriptor whose port could not be claimed.
    CloseUnclaimed,
    /// The port is claimed.
    Claimed,
    /// The node could not be used; this is the result.
    Refused(i32),
}

impl PpdevStep {
    /// What follows a call that ended with `result`.
    pub open spec fn following(self, result: i32) -> Self {
        match self {
            PpdevStep::Open => if result < 0 {
                PpdevStep::Refused(GPIO_IO_ERROR)
            } else {
                PpdevStep::Claim
            },
            PpdevStep::Claim => if result < 0 {
                PpdevStep::CloseUnclaimed
            } else {
                PpdevStep::Claimed
            },
            PpdevStep::CloseUnclaimed => PpdevStep::Refused(GPIO_IO_ERROR),
            _ => self,
        }
    }

    /// Take the result of the pending call.
    pub fn resume(self, result: i32) -> (step: Self)
        ensures
            step == self.following(result),
    {
        match self {
            PpdevStep::Open => if result < 0 {
                PpdevStep::Refused(GPIO_IO_ERROR)
            } else {
                PpdevStep::Claim
            },
            PpdevStep::Claim => if result < 0 {
                PpdevStep::CloseUnclaimed
            } else {
                PpdevStep::Claimed
            },
            PpdevStep::CloseUnclaimed => PpdevStep::Refused(GPIO_IO_ERROR),
            PpdevStep::Claimed => PpdevStep::Claimed,
            PpdevStep::Refused(code) => PpdevStep::Refused(code),
        }
    }
}

/// Accept a ppdev register operation unless it failed.
pub fn ppdev_outcome(result: i32) -> (outcome: Result<(), i32>)
    ensures
        outcome == (if result < 0 {
            Err::<(), i32>(GPIO_IO_ERROR)
        } else {
            Ok::<(), i32>(())
        }),
{
    if result < 0 {
        Err(GPIO_IO_ERROR)
    } else {
        Ok(())
    }
}

/// Offset of the data register in the I/O port space.
pub fn raw_io_data_offset(base: u16) -> (offset: u64)
    ensures
        offset == base,
{
    base as u64
}

/// Offset of the status register, which follows the data register.
pub fn raw_io_status_offset(base: u16) -> (offset: u64)
    ensures
        offset == base + 1,
{
    base as u64 + 1
}

/// What is given back next is what was acquired last, and giving it back ends just that.
pub proof fn law_last_acquired_is_released_first(held: HeldTransport)
    ensures
        ({
            let (rest, call) = held.released();
            &&& call == Some(ReleaseCall::ReleaseInterface) <==> held.claimed
            &&& call == Some(ReleaseCall::Close) <==> !held.claimed && held.handle
            &&& call == Some(ReleaseCall::Exit) <==> !held.claimed && !held.handle && held.context
            &&& rest.claimed == (held.claimed && call != Some(ReleaseCall::ReleaseInterface))
            &&& rest.handle == (held.handle && call != Some(ReleaseCall::Close))
            &&& rest.context == (held.context && call != Some(ReleaseCall::Exit))
        }),
{
}

/// A HID transfer succeeds exactly when it moved four bytes. A failure keeps its own error, and
/// any other length is an error too.
pub proof fn law_only_whole_reports_are_accepted(result: i32)
    ensures
        transfer_outcome(result) is Ok <==> result == 4,
        result < 0 ==> transfer_outcome(result) == Err::<(), i32>(result),
        result >= 0 && result != 4 ==> (transfer_outcome(result) matches Err(error) && error == -1),
{
}

/// A ppdev node is used exactly when it was opened and then claimed. A port that was opened and
/// not claimed is closed first, and every refusal is an I/O error.
pub proof fn law_ppdev_port_is_claimed_or_closed(opened: i32, claimed: i32, closed: i32)
    ensures
        ({
            let first = PpdevStep::Open.following(opened);
            let second = first.following(claimed);
            let third = second.following(closed);
            &&& opened < 0 ==> (first matches PpdevStep::Refused(code) && code == -5)
            &&& opened < 0 ==> second == first && third == first
            &&& opened >= 0 ==> first == PpdevStep::Claim
            &&& opened >= 0 && claimed >= 0 ==> second == PpdevStep::Claimed && third == second
            &&& opened >= 0 && claimed < 0 ==> second == PpdevStep::CloseUnclaimed && (
            third matches PpdevStep::Refused(code) && code == -5)
        }),
{
}

} // verus!

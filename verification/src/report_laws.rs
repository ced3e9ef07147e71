//! What a report or a snapshot tells of the devices that were seen.

use vstd::prelude::*;

#[allow(unused_imports)]
use crate::discovery::{serial_text, DeviceInfoView, DeviceListView};
#[allow(unused_imports)]
use crate::identity::UsbDescriptor;
#[allow(unused_imports)]
use crate::topology::UsbTopology;

verus! {

/// A filled report names the device: its identity, its bus, each port of its chain and, where the
/// caller has room for it, its serial number.
pub proof fn law_filled_report_names_the_device(
    info: DeviceInfoView,
    topology: UsbTopology,
    descriptor: UsbDescriptor,
    serial: Seq<u8>,
    hop: int,
)
    requires
        topology.ports.len() <= 7,
        0 <= hop < 7,
    ensures
        ({
            let filled = info.filled(topology, descriptor, serial);
            &&& filled.struct_size == info.struct_size
            &&& filled.abi_version == 1
            &&& filled.present == 1
            &&& filled.vendor_id == descriptor.id_vendor
            &&& filled.product_id == descriptor.id_product
            &&& filled.usb_bus == topology.bus
            &&& filled.usb_port_number_count == topology.ports.len()
            &&& filled.usb_port_numbers.len() == 7
            &&& hop < topology.ports.len() ==> filled.usb_port_numbers[hop] == topology.ports[hop]
            &&& hop >= topology.ports.len() ==> filled.usb_port_numbers[hop] == 0
            &&& info.struct_size >= 160 ==> filled.serial == serial
            &&& info.struct_size < 160 ==> filled.serial == info.serial
        }),
{
}

/// A reset report names no device, and leaves the serial number alone where the caller has no
/// room for it.
pub proof fn law_reset_report_names_no_device(info: DeviceInfoView, hop: int, place: int)
    requires
        0 <= hop < 7,
        0 <= place < 128,
    ensures
        ({
            let reset = info.cleared();
            &&& reset.struct_size == info.struct_size
            &&& reset.abi_version == 1
            &&& reset.present == 0
            &&& reset.vendor_id == 0
            &&& reset.product_id == 0
            &&& reset.usb_bus == 0
            &&& reset.usb_port_number_count == 0
            &&& reset.usb_port_numbers.len() == 7
            &&& reset.usb_port_numbers[hop] == 0
            &&& info.struct_size >= 160 ==> reset.serial.len() == 128 && reset.serial[place] == 0
            &&& info.struct_size < 160 ==> reset.serial == info.serial
        }),
{
}

/// Where a device was reported before does not matter: filling a report again forgets the first
/// device, and a reset forgets any.
pub proof fn law_reports_do_not_accumulate(
    info: DeviceInfoView,
    first: UsbTopology,
    second: UsbTopology,
    first_descriptor: UsbDescriptor,
    second_descriptor: UsbDescriptor,
    first_serial: Seq<u8>,
    second_serial: Seq<u8>,
)
    ensures
        info.filled(first, first_descriptor, first_serial).filled(
            second,
            second_descriptor,
            second_serial,
        ) == info.filled(second, second_descriptor, second_serial),
        info.filled(first, first_descriptor, first_serial).cleared() == info.cleared(),
        info.cleared().filled(first, first_descriptor, first_serial) == info.filled(
            first,
            first_descriptor,
            first_serial,
        ),
{
}

/// A serial number holds the bytes that were read, at most 127 of them, and zeros behind them; it
/// always ends with a zero.
pub proof fn law_serial_is_what_was_read(count: i32, bytes: Seq<u8>)
    requires
        bytes.len() == 127,
    ensures
        serial_text(count, bytes).len() == 128,
        serial_text(count, bytes)[127] == 0,
        0 <= count <= 127 ==> serial_text(count, bytes).take(count as int) == bytes.take(
            count as int,
        ),
        count > 127 ==> serial_text(count, bytes).take(127) == bytes,
        forall|place: int|
            0 <= place < 128 && count <= place ==> #[trigger] serial_text(count, bytes)[place] == 0,
{
    let text = serial_text(count, bytes);
    if 0 <= count <= 127 {
        assert(text.take(count as int) =~= bytes.take(count as int));
    }
    if count > 127 {
        assert(text.take(127) =~= bytes);
    }
}

/// A reset snapshot has counted and returned nothing, and each of its sixteen reports names no
/// device and has room for a serial number.
pub proof fn law_reset_snapshot_is_empty(list: DeviceListView, slot: int)
    requires
        0 <= slot < 16,
    ensures
        ({
            let reset = list.cleared();
            &&& reset.struct_size == list.struct_size
            &&& reset.abi_version == 1
            &&& reset.matching_device_count == 0
            &&& reset.returned_device_count == 0
            &&& reset.devices.len() == 16
            &&& reset.devices[slot].struct_size == 160
            &&& reset.devices[slot].abi_version == 1
            &&& reset.devices[slot].present == 0
            &&& reset.devices[slot] == reset.devices[slot].cleared()
            &&& reset.has_room()
        }),
{
    assert(list.cleared().devices[slot] =~= list.cleared().devices[slot].cleared());
}

/// Counting adds one device and stays at the largest number; nothing is returned by it.
pub proof fn law_counting_changes_the_count_only(list: DeviceListView)
    ensures
        ({
            let next = list.counted();
            &&& list.matching_device_count < 0xffff_ffff ==> next.matching_device_count
                == list.matching_device_count + 1
            &&& list.matching_device_count == 0xffff_ffff ==> next.matching_device_count
                == 0xffff_ffff
            &&& next == (DeviceListView {
                matching_device_count: next.matching_device_count,
                ..list
            })
        }),
{
}

/// A device is returned in the first free slot, of which there are sixteen; the devices returned
/// before it and the count stay.
pub proof fn law_returned_device_takes_the_first_free_slot(
    list: DeviceListView,
    topology: UsbTopology,
    descriptor: UsbDescriptor,
    serial: Seq<u8>,
    slot: int,
)
    requires
        list.devices.len() == 16,
        list.returned_device_count < 16,
        0 <= slot < 16,
    ensures
        list.has_room(),
        ({
            let next = list.added(topology, descriptor, serial);
            &&& next.returned_device_count == list.returned_device_count + 1
            &&& next.has_room() <==> next.returned_device_count < 16
            &&& next.devices.len() == 16
            &&& slot == list.returned_device_count ==> next.devices[slot].present == 1
                && next.devices[slot] == list.devices[slot].filled(topology, descriptor, serial)
            &&& slot != list.returned_device_count ==> next.devices[slot] == list.devices[slot]
            &&& next.matching_device_count == list.matching_device_count
            &&& next.struct_size == list.struct_size
            &&& next.abi_version == list.abi_version
        }),
{
}

} // verus!

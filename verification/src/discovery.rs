//! What probing and discovery report about devices.

use vstd::prelude::*;

use crate::abi::{
    DeviceConfig, DeviceInfo, DeviceList, ABI_VERSION, DEVICE_INFO_PREFIX_SIZE, DEVICE_INFO_SIZE,
    DEVICE_LIST_CAPACITY, DEVICE_LIST_SIZE, DEVICE_SERIAL_CAPACITY, GPIO_INVALID_ARGUMENT,
    PORT_CHAIN_CAPACITY,
};
#[allow(unused_imports)]
use crate::config::is_acceptable;
use crate::config::ValidatedConfig;
use crate::identity::UsbDescriptor;
use crate::topology::UsbPortPath;
#[allow(unused_imports)]
use crate::topology::UsbTopology;

verus! {

/// A device report as mathematical values.
#[verifier::ext_equal]
pub struct DeviceInfoView {
    pub struct_size: u32,
    pub abi_version: u32,
    pub present: u32,
    pub vendor_id: u16,
    pub product_id: u16,
    pub usb_bus: u32,
    pub usb_port_number_count: u32,
    pub usb_port_numbers: Seq<u8>,
    pub serial: Seq<u8>,
}

impl View for DeviceInfo {
    type V = DeviceInfoView;

    open spec fn view(&self) -> DeviceInfoView {
        DeviceInfoView {
            struct_size: self.struct_size,
            abi_version: self.abi_version,
            present: self.present,
            vendor_id: self.vendor_id,
            product_id: self.product_id,
            usb_bus: self.usb_bus,
            usb_port_number_count: self.usb_port_number_count,
            usb_port_numbers: self.usb_port_numbers@,
            serial: self.serial@,
        }
    }
}

/// `count` zero bytes.
pub open spec fn zeros(count: nat) -> Seq<u8> {
    Seq::new(count, |index: int| 0u8)
}

impl DeviceInfoView {
    /// Whether the caller has room for the serial number.
    pub open spec fn has_serial(self) -> bool {
        self.struct_size >= DEVICE_INFO_SIZE
    }

    /// The complete report of no device.
    pub open spec fn empty() -> Self {
        DeviceInfoView {
            struct_size: DEVICE_INFO_SIZE,
            abi_version: ABI_VERSION,
            present: 0,
            vendor_id: 0,
            product_id: 0,
            usb_bus: 0,
            usb_port_number_count: 0,
            usb_port_numbers: zeros(7),
            serial: zeros(128),
        }
    }

    /// The report with every field the caller has room for reset.
    pub open spec fn cleared(self) -> Self {
        DeviceInfoView {
            struct_size: self.struct_size,
            serial: if self.has_serial() {
                zeros(128)
            } else {
                self.serial
            },
            ..Self::empty()
        }
    }

    /// The report of one matching device.
    pub open spec fn filled(
        self,
        topology: UsbTopology,
        descriptor: UsbDescriptor,
        serial: Seq<u8>,
    ) -> Self {
        DeviceInfoView {
            struct_size: self.struct_size,
            abi_version: ABI_VERSION,
            present: 1,
            vendor_id: descriptor.id_vendor,
            product_id: descriptor.id_product,
            usb_bus: topology.bus as u32,
            usb_port_number_count: topology.ports.len() as u32,
            usb_port_numbers: Seq::new(
                7,
                |index: int|
                    if index < topology.ports.len() {
                        topology.ports[index]
                    } else {
                        0
                    },
            ),
            serial: if self.has_serial() {
                serial
            } else {
                self.serial
            },
        }
    }
}

/// Construct one empty complete device report.
pub fn empty_device_info() -> (info: DeviceInfo)
    ensures
        info@ == DeviceInfoView::empty(),
{
    let info = DeviceInfo {
        struct_size: DEVICE_INFO_SIZE,
        abi_version: ABI_VERSION,
        present: 0,
        vendor_id: 0,
        product_id: 0,
        usb_bus: 0,
        usb_port_number_count: 0,
        usb_port_numbers: [0; PORT_CHAIN_CAPACITY],
        serial: [0; DEVICE_SERIAL_CAPACITY],
    };
    assert(info@ =~= DeviceInfoView::empty());
    info
}

/// Reset the fields that the caller has room for.
pub fn clear_device_info(info: &mut DeviceInfo)
    ensures
        final(info)@ == old(info)@.cleared(),
{
    info.abi_version = ABI_VERSION;
    info.present = 0;
    info.vendor_id = 0;
    info.product_id = 0;
    info.usb_bus = 0;
    info.usb_port_number_count = 0;
    info.usb_port_numbers = [0; PORT_CHAIN_CAPACITY];
    if info.struct_size >= DEVICE_INFO_SIZE {
        info.serial = [0; DEVICE_SERIAL_CAPACITY];
    }
    assert(info@ =~= old(info)@.cleared());
}

/// Report one matching device.
pub fn fill_device_info(
    info: &mut DeviceInfo,
    topology: &UsbPortPath,
    descriptor: UsbDescriptor,
    serial: [u8; DEVICE_SERIAL_CAPACITY],
)
    requires
        topology@.ports.len() <= PORT_CHAIN_CAPACITY,
    ensures
        final(info)@ == old(info)@.filled(topology@, descriptor, serial@),
{
    clear_device_info(info);
    info.present = 1;
    info.vendor_id = descriptor.id_vendor;
    info.product_id = descriptor.id_product;
    info.usb_bus = topology.bus as u32;
    info.usb_port_number_count = topology.ports.len() as u32;
    let ghost target = old(info)@.filled(topology@, descriptor, serial@);
    let ghost reset = *info;
    let mut index: usize = 0;
    while index < topology.ports.len()
        invariant
            index <= topology.ports@.len() <= 7,
            target == old(info)@.filled(topology@, descriptor, serial@),
            forall|done: int|
                0 <= done < index ==> #[trigger] info.usb_port_numbers@[done]
                    == topology.ports@[done],
            forall|rest: int|
                index <= rest < 7 ==> #[trigger] info.usb_port_numbers@[rest] == 0,
            info@ == (DeviceInfoView { usb_port_numbers: info.usb_port_numbers@, ..reset@ }),
        decreases topology.ports@.len() - index,
    {
        info.usb_port_numbers[index] = topology.ports[index];
        index += 1;
    }
    if info.struct_size >= DEVICE_INFO_SIZE {
        info.serial = serial;
    }
    assert(info@ =~= target);
}

/// The serial field for a string of `count` bytes; nothing is copied where there is none.
pub open spec fn serial_text(count: i32, bytes: Seq<u8>) -> Seq<u8> {
    Seq::new(
        128,
        |index: int|
            if index < count && index < 127 {
                bytes[index]
            } else {
                0
            },
    )
}

/// Form the serial field from a string descriptor and the length that came with it.
pub fn device_serial(count: i32, bytes: &[u8; 127]) -> (serial: [u8; DEVICE_SERIAL_CAPACITY])
    ensures
        serial@ == serial_text(count, bytes@),
{
    let mut serial: [u8; DEVICE_SERIAL_CAPACITY] = [0; DEVICE_SERIAL_CAPACITY];
    if count > 0 {
        let length: usize = if count as usize > 127 {
            127
        } else {
            count as usize
        };
        let mut index: usize = 0;
        while index < length
            invariant
                index <= length <= 127,
                forall|done: int| 0 <= done < index ==> #[trigger] serial@[done] == bytes@[done],
                forall|rest: int| index <= rest < 128 ==> #[trigger] serial@[rest] == 0,
            decreases length - index,
        {
            serial[index] = bytes[index];
            index += 1;
        }
    }
    assert(serial@ =~= serial_text(count, bytes@));
    serial
}

/// A discovery snapshot as mathematical values.
#[verifier::ext_equal]
pub struct DeviceListView {
    pub struct_size: u32,
    pub abi_version: u32,
    pub matching_device_count: u32,
    pub returned_device_count: u32,
    pub devices: Seq<DeviceInfoView>,
}

impl View for DeviceList {
    type V = DeviceListView;

    open spec fn view(&self) -> DeviceListView {
        DeviceListView {
            struct_size: self.struct_size,
            abi_version: self.abi_version,
            matching_device_count: self.matching_device_count,
            returned_device_count: self.returned_device_count,
            devices: Seq::new(16, |index: int| self.devices@[index]@),
        }
    }
}

impl DeviceListView {
    /// The snapshot before any device was seen.
    pub open spec fn cleared(self) -> Self {
        DeviceListView {
            struct_size: self.struct_size,
            abi_version: ABI_VERSION,
            matching_device_count: 0,
            returned_device_count: 0,
            devices: Seq::new(16, |index: int| DeviceInfoView::empty()),
        }
    }

    /// The snapshot with one more matching device counted.
    pub open spec fn counted(self) -> Self {
        DeviceListView {
            matching_device_count: if self.matching_device_count == u32::MAX {
                u32::MAX
            } else {
                (self.matching_device_count + 1) as u32
            },
            ..self
        }
    }

    /// Whether another device fits.
    pub open spec fn has_room(self) -> bool {
        self.returned_device_count < DEVICE_LIST_CAPACITY
    }

    /// The snapshot with one more device reported.
    pub open spec fn added(
        self,
        topology: UsbTopology,
        descriptor: UsbDescriptor,
        serial: Seq<u8>,
    ) -> Self {
        let slot = self.returned_device_count as int;
        DeviceListView {
            returned_device_count: (slot + 1) as u32,
            devices: self.devices.update(
                slot,
                self.devices[slot].filled(topology, descriptor, serial),
            ),
            ..self
        }
    }
}

/// Count one more matching device.
pub fn count_device(list: &mut DeviceList)
    ensures
        final(list)@ == old(list)@.counted(),
{
    list.matching_device_count = list.matching_device_count.saturating_add(1);
    assert(list@ =~= old(list)@.counted());
}

/// Report one more device.
pub fn add_device(
    list: &mut DeviceList,
    topology: &UsbPortPath,
    descriptor: UsbDescriptor,
    serial: [u8; DEVICE_SERIAL_CAPACITY],
)
    requires
        old(list)@.has_room(),
        topology@.ports.len() <= PORT_CHAIN_CAPACITY,
    ensures
        final(list)@ == old(list)@.added(topology@, descriptor, serial@),
{
    let slot: usize = list.returned_device_count as usize;
    let mut info: DeviceInfo = list.devices[slot];
    fill_device_info(&mut info, topology, descriptor, serial);
    list.devices[slot] = info;
    list.returned_device_count += 1;
    assert(list@ =~= old(list)@.added(topology@, descriptor, serial@));
}

/// Prepare a probe: reset the caller's report and validate its selection.
pub fn prepare_probe(info: &mut DeviceInfo, config: Option<&DeviceConfig>) -> (prepared: Result<
    ValidatedConfig,
    i32,
>)
    ensures
        old(info).struct_size < DEVICE_INFO_PREFIX_SIZE ==> prepared
            == Err::<ValidatedConfig, i32>(GPIO_INVALID_ARGUMENT) && final(info)@ == old(info)@,
        old(info).struct_size >= DEVICE_INFO_PREFIX_SIZE ==> final(info)@ == old(info)@.cleared(),
        prepared is Ok <==> old(info).struct_size >= DEVICE_INFO_PREFIX_SIZE && (config matches Some(
            selection,
        ) && is_acceptable(*selection)),
        prepared matches Ok(setup) ==> setup.well_formed() && setup.is_setup_of(*config->0),
        prepared matches Err(code) ==> code == GPIO_INVALID_ARGUMENT,
{
    if info.struct_size < DEVICE_INFO_PREFIX_SIZE {
        return Err(GPIO_INVALID_ARGUMENT);
    }
    clear_device_info(info);
    match ValidatedConfig::from_ffi(config) {
        Some(setup) => Ok(setup),
        None => Err(GPIO_INVALID_ARGUMENT),
    }
}

/// Prepare a discovery: reset the caller's snapshot.
pub fn prepare_discovery(list: &mut DeviceList) -> (prepared: Result<(), i32>)
    ensures
        old(list).struct_size >= DEVICE_LIST_SIZE ==> prepared == Ok::<(), i32>(()) && final(list)@
            == old(list)@.cleared(),
        old(list).struct_size < DEVICE_LIST_SIZE ==> prepared == Err::<(), i32>(
            GPIO_INVALID_ARGUMENT,
        ) && final(list)@ == old(list)@,
{
    if list.struct_size < DEVICE_LIST_SIZE {
        return Err(GPIO_INVALID_ARGUMENT);
    }
    list.abi_version = ABI_VERSION;
    list.matching_device_count = 0;
    list.returned_device_count = 0;
    let ghost header = *list;
    let mut index: usize = 0;
    while index < DEVICE_LIST_CAPACITY
        invariant
            index <= 16,
            list.struct_size == header.struct_size,
            list.abi_version == header.abi_version,
            list.matching_device_count == header.matching_device_count,
            list.returned_device_count == header.returned_device_count,
            forall|done: int|
                0 <= done < index ==> (#[trigger] list.devices@[done])@ == DeviceInfoView::empty(),
        decreases 16 - index,
    {
        list.devices[index] = empty_device_info();
        index += 1;
    }
    assert(list@ =~= old(list)@.cleared());
    Ok(())
}

} // verus!

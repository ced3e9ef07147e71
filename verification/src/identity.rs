//! Which USB devices are supported CM108/CM119 adapters.

use vstd::prelude::*;

verus! {

/// C-Media USB vendor selected by an omitted explicit vendor ID.
pub const CMEDIA_VENDOR_ID: u16 = 0x0d8c;

/// CM108AH product whose HOOK input is exposed as logical GPIO2.
pub const CM108AH_PRODUCT_ID: u16 = 0x013c;

/// High byte of N1KDO's compatible vendor-defined CM119 product range.
pub const N1KDO_PRODUCT_FAMILY: u16 = 0x6a00;

/// What the adapter reads of one USB device descriptor.
#[derive(Clone, Copy, Debug)]
pub struct UsbDescriptor {
    /// USB vendor identifier.
    pub id_vendor: u16,
    /// USB product identifier.
    pub id_product: u16,
    /// Index of the serial-number string, or zero.
    pub i_serial_number: u8,
}

/// Whether a product uses the four-byte CM108/CM119 HID report protocol.
pub open spec fn is_family_product(product: u16) -> bool {
    ||| product == 0x0008
    ||| product == 0x000c
    ||| product == 0x0012
    ||| product == 0x0013
    ||| product == 0x013a
    ||| product == 0x013c
    ||| product & 0xff00 == N1KDO_PRODUCT_FAMILY
}

/// Whether a product is the requested one, or any of the family when none was requested.
pub open spec fn is_requested_product(requested: Option<u16>, actual: u16) -> bool {
    match requested {
        Some(product) => product == actual,
        None => is_family_product(actual),
    }
}

/// Whether a descriptor belongs to the supported C-Media HID family.
pub open spec fn is_supported(descriptor: UsbDescriptor) -> bool {
    descriptor.id_vendor == CMEDIA_VENDOR_ID && is_family_product(descriptor.id_product)
}

/// Accept an explicit product or any known CM108/CM119 HID product.
pub fn product_matches(requested: Option<u16>, actual: u16) -> (matching: bool)
    ensures
        matching == is_requested_product(requested, actual),
{
    match requested {
        Some(product) => product == actual,
        None => matches!(actual, 0x0008 | 0x000c | 0x0012 | 0x0013 | 0x013a | 0x013c) || actual
            & 0xff00 == N1KDO_PRODUCT_FAMILY,
    }
}

/// Return whether a descriptor belongs to the supported C-Media HID family.
pub fn supported_cm119_descriptor(descriptor: UsbDescriptor) -> (supported: bool)
    ensures
        supported == is_supported(descriptor),
{
    descriptor.id_vendor == CMEDIA_VENDOR_ID && product_matches(None, descriptor.id_product)
}

} // verus!

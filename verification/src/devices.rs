//! Device descriptors: building the display names and the derived
//! `"VVVV:PPPP"` device id from the raw vendor and product ids.

use vstd::prelude::*;
use crate::text::{hex4, push_char, push_hex4};
use vstd::string::StringExecFns;

verus! {

/// One enumerated USB device, built fresh per enumeration call.
pub struct UsbDeviceInfo {
    pub vendor_id: u16,
    pub product_id: u16,
    pub vendor_name: String,
    pub product_name: String,
    pub device_id: String,
}

/// Placeholder vendor display name: `Vendor 0x` and the four hex digits.
pub open spec fn vendor_name_spec(vendor_id: u16) -> Seq<char> {
    "Vendor 0x"@ + hex4(vendor_id)
}

/// Placeholder product display name: `Product 0x` and the four hex digits.
pub open spec fn product_name_spec(product_id: u16) -> Seq<char> {
    "Product 0x"@ + hex4(product_id)
}

/// The derived device id: the hexadecimal `VVVV:PPPP` pairing of the ids.
pub open spec fn device_id_spec(vendor_id: u16, product_id: u16) -> Seq<char> {
    hex4(vendor_id) + seq![':'] + hex4(product_id)
}

/// Builds the descriptor for a device with the given raw ids.
pub fn device_info_from_ids(vendor_id: u16, product_id: u16) -> (d: UsbDeviceInfo)
    ensures
        d.vendor_id == vendor_id,
        d.product_id == product_id,
        d.vendor_name@ == vendor_name_spec(vendor_id),
        d.product_name@ == product_name_spec(product_id),
        d.device_id@ == device_id_spec(vendor_id, product_id),
{
    let mut vendor_name = String::new();
    vendor_name.append("Vendor 0x");
    push_hex4(&mut vendor_name, vendor_id);
    assert(vendor_name@ =~= vendor_name_spec(vendor_id));

    let mut product_name = String::new();
    product_name.append("Product 0x");
    push_hex4(&mut product_name, product_id);
    assert(product_name@ =~= product_name_spec(product_id));

    let mut device_id = String::new();
    push_hex4(&mut device_id, vendor_id);
    push_char(&mut device_id, ':');
    push_hex4(&mut device_id, product_id);
    assert(device_id@ =~= device_id_spec(vendor_id, product_id));

    UsbDeviceInfo { vendor_id, product_id, vendor_name, product_name, device_id }
}

} // verus!

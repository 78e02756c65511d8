use vstd::prelude::*;

verus! {

/// USB vendor ID the device enumerates with.
pub const VENDOR_ID: u16 = 0x16c0;

/// USB product ID the device enumerates with.
pub const PRODUCT_ID: u16 = 0x27dd;

/// Device class code: Communications Device Class.
pub const DEVICE_CLASS: u8 = 2;

/// Manufacturer string descriptor.
pub fn manufacturer() -> (r: &'static str)
    ensures
        r@ == "Fake company"@,
{
    "Fake company"
}

/// Product string descriptor.
pub fn product() -> (r: &'static str)
    ensures
        r@ == "Serial port"@,
{
    "Serial port"
}

/// Serial number string descriptor.
pub fn serial_number() -> (r: &'static str)
    ensures
        r@ == "TEST"@,
{
    "TEST"
}

} // verus!

//! Identification of the target peripheral.
use vstd::prelude::*;

verus! {

/// USB vendor id of the mouse.
pub const VENDOR_ID: u16 = 4152;

/// Product id that the mouse reports while it is connected by cable.
pub const WIRED_PRODUCT_ID: u16 = 5931;

/// Product id that the mouse reports through its wireless receiver.
pub const WIRELESS_PRODUCT_ID: u16 = 5926;

/// Number of the HID interface that answers the battery query.
pub const BATTERY_INTERFACE: i32 = 0;

/// One attached HID interface, as far as the locator looks at it.
#[derive(Clone, Copy, Debug, PartialEq, Eq, Structural)]
pub struct AttachedDevice {
    pub vendor_id: u16,
    pub product_id: u16,
    pub interface_number: i32,
}

/// The identifier triple of one variant of the peripheral.
#[derive(Clone, Copy, Debug, PartialEq, Eq, Structural)]
pub struct InterfaceId {
    pub vendor_id: u16,
    pub product_id: u16,
    pub interface_number: i32,
}

impl InterfaceId {
    /// A device is identified when all three numbers agree.
    pub open spec fn identifies(self, device: AttachedDevice) -> bool {
        &&& device.vendor_id == self.vendor_id
        &&& device.product_id == self.product_id
        &&& device.interface_number == self.interface_number
    }

    /// Tells whether `device` carries exactly this identifier.
    pub fn is_id_of(&self, device: &AttachedDevice) -> (r: bool)
        ensures
            r == self.identifies(*device),
    {
        device.vendor_id == self.vendor_id && device.product_id == self.product_id
            && device.interface_number == self.interface_number
    }
}

/// The identifiers of the peripheral in order of preference: the wired
/// variant first, the wireless one as fallback.
#[derive(Clone, Copy, Debug, PartialEq, Eq, Structural)]
pub struct PeripheralDescriptor {
    pub wired: InterfaceId,
    pub wireless: InterfaceId,
}

/// The descriptor of the Rival 650.
pub open spec fn rival650() -> PeripheralDescriptor {
    PeripheralDescriptor {
        wired: InterfaceId {
            vendor_id: VENDOR_ID,
            product_id: WIRED_PRODUCT_ID,
            interface_number: BATTERY_INTERFACE,
        },
        wireless: InterfaceId {
            vendor_id: VENDOR_ID,
            product_id: WIRELESS_PRODUCT_ID,
            interface_number: BATTERY_INTERFACE,
        },
    }
}

impl PeripheralDescriptor {
    /// The one descriptor this crate works with.
    pub fn rival650() -> (d: PeripheralDescriptor)
        ensures
            d == rival650(),
            d.wired.vendor_id == 4152 && d.wired.product_id == 5931 && d.wired.interface_number == 0,
            d.wireless.vendor_id == 4152 && d.wireless.product_id == 5926
                && d.wireless.interface_number == 0,
    {
        PeripheralDescriptor {
            wired: InterfaceId {
                vendor_id: VENDOR_ID,
                product_id: WIRED_PRODUCT_ID,
                interface_number: BATTERY_INTERFACE,
            },
            wireless: InterfaceId {
                vendor_id: VENDOR_ID,
                product_id: WIRELESS_PRODUCT_ID,
                interface_number: BATTERY_INTERFACE,
            },
        }
    }
}

} // verus!

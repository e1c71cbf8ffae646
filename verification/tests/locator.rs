use rival650_battery::descriptor::{
    AttachedDevice, InterfaceId, PeripheralDescriptor, BATTERY_INTERFACE, VENDOR_ID,
    WIRED_PRODUCT_ID, WIRELESS_PRODUCT_ID,
};
use rival650_battery::locator::{find_first, locate};

fn device(vendor_id: u16, product_id: u16, interface_number: i32) -> AttachedDevice {
    AttachedDevice { vendor_id, product_id, interface_number }
}

fn wired() -> AttachedDevice {
    device(4152, 5931, 0)
}

fn wireless() -> AttachedDevice {
    device(4152, 5926, 0)
}

fn keyboard() -> AttachedDevice {
    device(1133, 49948, 1)
}

#[test]
fn descriptor_holds_the_published_identifiers() {
    let d = PeripheralDescriptor::rival650();
    assert_eq!(d.wired, InterfaceId { vendor_id: 4152, product_id: 5931, interface_number: 0 });
    assert_eq!(d.wireless, InterfaceId { vendor_id: 4152, product_id: 5926, interface_number: 0 });
    assert_eq!(VENDOR_ID, 4152);
    assert_eq!(WIRED_PRODUCT_ID, 5931);
    assert_eq!(WIRELESS_PRODUCT_ID, 5926);
    assert_eq!(BATTERY_INTERFACE, 0);
}

#[test]
fn identifier_needs_all_three_numbers() {
    let id = PeripheralDescriptor::rival650().wired;
    assert!(id.is_id_of(&wired()));
    assert!(!id.is_id_of(&wireless()));
    assert!(!id.is_id_of(&device(4153, 5931, 0)));
    assert!(!id.is_id_of(&device(4152, 5931, 1)));
    assert!(!id.is_id_of(&device(4152, 5931, -1)));
}

#[test]
fn wired_wins_over_wireless() {
    let d = PeripheralDescriptor::rival650();
    assert_eq!(locate(&[wired(), wireless()], &d), Some(0));
    assert_eq!(locate(&[wireless(), wired()], &d), Some(1));
    assert_eq!(locate(&[keyboard(), wireless(), keyboard(), wired()], &d), Some(3));
}

#[test]
fn wireless_alone_is_selected() {
    let d = PeripheralDescriptor::rival650();
    assert_eq!(locate(&[wireless()], &d), Some(0));
    assert_eq!(locate(&[keyboard(), keyboard(), wireless()], &d), Some(2));
}

#[test]
fn no_match_is_not_found() {
    let d = PeripheralDescriptor::rival650();
    assert_eq!(locate(&[], &d), None);
    assert_eq!(locate(&[keyboard()], &d), None);
    assert_eq!(locate(&[device(4152, 5931, 1), device(4152, 5926, 2)], &d), None);
    assert_eq!(locate(&[device(4151, 5931, 0), device(4152, 5930, 0)], &d), None);
}

#[test]
fn first_of_several_units_is_selected() {
    let d = PeripheralDescriptor::rival650();
    assert_eq!(locate(&[keyboard(), wired(), wired()], &d), Some(1));
    assert_eq!(locate(&[wireless(), keyboard(), wireless()], &d), Some(0));
}

#[test]
fn other_interfaces_of_the_mouse_are_passed_over() {
    let d = PeripheralDescriptor::rival650();
    let snapshot = [device(4152, 5931, 2), device(4152, 5931, 1), device(4152, 5931, 0)];
    assert_eq!(locate(&snapshot, &d), Some(2));
}

#[test]
fn find_first_gives_the_earliest_position() {
    let id = PeripheralDescriptor::rival650().wireless;
    assert_eq!(find_first(&[wired(), wireless(), wireless()], &id), Some(1));
    assert_eq!(find_first(&[wired(), keyboard()], &id), None);
    assert_eq!(find_first(&[], &id), None);
}

#[test]
fn locate_follows_the_descriptor_it_is_given() {
    let other = PeripheralDescriptor {
        wired: InterfaceId { vendor_id: 1133, product_id: 49948, interface_number: 1 },
        wireless: InterfaceId { vendor_id: 4152, product_id: 5931, interface_number: 0 },
    };
    assert_eq!(locate(&[wired(), keyboard()], &other), Some(1));
    assert_eq!(locate(&[wired(), wireless()], &other), Some(0));
    assert_eq!(locate(&[wireless()], &other), None);
}

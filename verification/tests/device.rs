use evdi::device::{Device, DeviceStatus};
use evdi::device_node::{DeviceNode, EVDI_STATUS_NOT_PRESENT, EVDI_STATUS_UNRECOGNIZED};

#[test]
fn device_default_device_is_not_evdi() {
    let status = Device::new(0).status(EVDI_STATUS_UNRECOGNIZED);
    assert_eq!(status, DeviceStatus::Unrecognized);
}

#[test]
fn device_nonexistent_device_has_proper_status() {
    let status = Device::new(4200).status(EVDI_STATUS_NOT_PRESENT);
    assert_eq!(status, DeviceStatus::NotPresent);
}

#[test]
fn device_add_fails_without_superuser() {
    let result = Device::add(0);
    assert_eq!(result, false);
    assert!(Device::add(1));
}

#[test]
fn device_list_available_contains_at_least_one_device() {
    let results = Device::list_available(&vec![
        (Device::new(3), DeviceStatus::Available),
        (Device::new(0), DeviceStatus::Unrecognized),
        (Device::new(1), DeviceStatus::Available),
        (Device::new(2), DeviceStatus::NotPresent),
    ]);
    assert!(!results.is_empty());
    assert_eq!(results, vec![Device::new(1), Device::new(3)]);
}

#[test]
fn device_get_returns_a_device() {
    let result = Device::get(Ok::<_, ()>(vec![Device::new(1), Device::new(3)]));
    assert!(result.is_some());
    assert_eq!(result, Some(Device::new(3)));
    assert_eq!(Device::get(Ok::<_, ()>(vec![])), None);
    assert_eq!(Device::get(Err(())), None);
}

#[test]
fn device_can_open() {
    let device = Device::get(Ok::<_, ()>(vec![Device::new(1)])).unwrap();
    let handle = device.open(0x7000);
    assert_eq!(handle.device, DeviceNode::new(1));
    assert_eq!(handle.sys, 0x7000);
}

#[test]
fn devices_are_found_by_their_names() {
    let names = vec!["card1".to_string(), "controlD64".to_string(), "card0".to_string()];
    assert_eq!(Device::from_card_names(&names), vec![Device::new(1), Device::new(0)]);
}

#[test]
fn devices_are_ordered_by_number() {
    assert!(Device::new(2) < Device::new(10));
    assert!(!(Device::new(4) < Device::new(4)));
    assert!(Device::new(5) > Device::new(4));
}

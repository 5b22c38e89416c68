use evdi::device_node::{
    DeviceNode, DeviceNodeStatus, OpenDeviceError, OpenStep, DEVICE_CARDS_DIR,
    EVDI_STATUS_AVAILABLE, EVDI_STATUS_NOT_PRESENT, EVDI_STATUS_UNRECOGNIZED, REMOVE_ALL_FILE,
    REMOVE_ALL_REQUEST,
};
use evdi::{check_kernel_mod, KernelModStatus, KernelModVersion, LibVersion};

/// The handle that `evdi_open` returns in these tests.
const OPENED: usize = 0x5000;

fn names(names: &[&str]) -> Vec<String> {
    names.iter().map(|name| name.to_string()).collect()
}

fn listed(cards: &[(i32, DeviceNodeStatus)]) -> Vec<DeviceNode> {
    let cards: Vec<(DeviceNode, DeviceNodeStatus)> =
        cards.iter().map(|(id, status)| (DeviceNode::new(*id), *status)).collect();
    DeviceNode::list_available(&cards)
}

#[test]
fn device_node_default_device_is_not_evdi() {
    let status = DeviceNode::new(0).status(EVDI_STATUS_UNRECOGNIZED);
    assert_eq!(status, DeviceNodeStatus::Unrecognized);
}

#[test]
fn device_node_nonexistent_device_has_proper_status() {
    let status = DeviceNode::new(4200).status(EVDI_STATUS_NOT_PRESENT);
    assert_eq!(status, DeviceNodeStatus::NotPresent);
}

#[test]
fn available_device_has_proper_status() {
    let status = DeviceNode::new(1).status(EVDI_STATUS_AVAILABLE);
    assert_eq!(status, DeviceNodeStatus::Available);
    assert_eq!(DeviceNodeStatus::from(0), DeviceNodeStatus::Available);
    assert_eq!(DeviceNodeStatus::from(1), DeviceNodeStatus::Unrecognized);
    assert_eq!(DeviceNodeStatus::from(2), DeviceNodeStatus::NotPresent);
}

#[test]
fn device_node_add_fails_without_superuser() {
    let result = DeviceNode::add(0);
    assert_eq!(result, false);
}

#[test]
fn device_node_add_succeeds_only_with_positive_status() {
    assert!(DeviceNode::add(1));
    assert!(DeviceNode::add(17));
    assert!(!DeviceNode::add(-1));
}

#[test]
fn device_node_list_available_contains_at_least_one_device() {
    let results = listed(&[
        (0, DeviceNodeStatus::Unrecognized),
        (1, DeviceNodeStatus::Available),
    ]);
    assert!(!results.is_empty());
    assert_eq!(results, vec![DeviceNode::new(1)]);
}

#[test]
fn device_node_get_returns_a_device() {
    let result = DeviceNode::get(Ok::<_, ()>(listed(&[(1, DeviceNodeStatus::Available)])));
    assert!(result.is_some());
    assert_eq!(result, Some(DeviceNode::new(1)));
}

#[test]
fn get_returns_nothing_without_devices() {
    assert_eq!(DeviceNode::get(Ok::<_, ()>(vec![])), None);
    assert_eq!(DeviceNode::get(Err("no such directory")), None);
}

#[test]
fn get_returns_the_available_device_with_the_greatest_number() {
    let available = listed(&[
        (9, DeviceNodeStatus::NotPresent),
        (3, DeviceNodeStatus::Available),
        (8, DeviceNodeStatus::Unrecognized),
        (7, DeviceNodeStatus::Available),
        (5, DeviceNodeStatus::Available),
    ]);
    assert_eq!(DeviceNode::get(Ok::<_, ()>(available)), Some(DeviceNode::new(7)));
}

#[test]
fn list_available_is_stable() {
    let one_way = listed(&[
        (10, DeviceNodeStatus::Available),
        (2, DeviceNodeStatus::Available),
        (4, DeviceNodeStatus::NotPresent),
        (2, DeviceNodeStatus::Available),
        (1, DeviceNodeStatus::Available),
    ]);
    let other_way = listed(&[
        (1, DeviceNodeStatus::Available),
        (2, DeviceNodeStatus::Available),
        (2, DeviceNodeStatus::Available),
        (4, DeviceNodeStatus::NotPresent),
        (10, DeviceNodeStatus::Available),
    ]);
    assert_eq!(one_way, other_way);
    let ids: Vec<i32> = one_way.iter().map(|node| node.id).collect();
    assert_eq!(ids, vec![1, 2, 2, 10]);
}

#[test]
fn card_names_are_recognized() {
    assert_eq!(DeviceNode::from_card_name("card0"), Some(DeviceNode::new(0)));
    assert_eq!(DeviceNode::from_card_name("card42"), Some(DeviceNode::new(42)));
    assert_eq!(DeviceNode::from_card_name("card007"), Some(DeviceNode::new(7)));
    assert_eq!(DeviceNode::from_card_name("card2147483647"), Some(DeviceNode::new(i32::MAX)));
    assert_eq!(DeviceNode::from_card_name("card2147483648"), None);
    assert_eq!(DeviceNode::from_card_name("card99999999999999999999999"), None);
    assert_eq!(DeviceNode::from_card_name("card"), None);
    assert_eq!(DeviceNode::from_card_name("card-1"), None);
    assert_eq!(DeviceNode::from_card_name("card1 "), None);
    assert_eq!(DeviceNode::from_card_name("card1\n"), None);
    assert_eq!(DeviceNode::from_card_name("xcard1"), None);
    assert_eq!(DeviceNode::from_card_name("Card1"), None);
    assert_eq!(DeviceNode::from_card_name("card\u{661}"), None);
    assert_eq!(DeviceNode::from_card_name("renderD128"), None);
    assert_eq!(DeviceNode::from_card_name(""), None);
}

#[test]
fn card_name_round_trips() {
    for id in [0, 1, 9, 10, 99, 100, 4200, i32::MAX] {
        let name = format!("card{}", id);
        assert_eq!(DeviceNode::from_card_name(&name), Some(DeviceNode::new(id)));
    }
}

#[test]
fn card_names_keep_their_order() {
    let nodes = DeviceNode::from_card_names(&names(&[
        "by-path",
        "card1",
        "renderD128",
        "card0",
        "card1",
    ]));
    assert_eq!(
        nodes,
        vec![DeviceNode::new(1), DeviceNode::new(0), DeviceNode::new(1)]
    );
}

#[test]
fn device_node_can_open() {
    let device = DeviceNode::get(Ok::<_, ()>(listed(&[(1, DeviceNodeStatus::Available)]))).unwrap();
    match device.open(DeviceNodeStatus::Available, KernelModStatus::Compatible, None) {
        OpenStep::CallOpen(id) => assert_eq!(id, 1),
        OpenStep::Done(_) => panic!(),
    }
    match device.open(DeviceNodeStatus::Available, KernelModStatus::Compatible, Some(OPENED)) {
        OpenStep::Done(Ok(handle)) => {
            assert_eq!(handle.device, device);
            assert_eq!(handle.sys, OPENED);
        }
        _ => panic!(),
    }
}

#[test]
fn opening_nonexistent_device_fails() {
    let device = DeviceNode::new(4200);
    match device.open(
        device.status(EVDI_STATUS_NOT_PRESENT),
        KernelModStatus::Compatible,
        None,
    ) {
        OpenStep::Done(Err(OpenDeviceError::NonexistentDevice)) => (),
        _ => panic!(),
    }
}

#[test]
fn opening_non_evdi_device_fails() {
    let device = DeviceNode::new(0);
    match device.open(
        device.status(EVDI_STATUS_UNRECOGNIZED),
        KernelModStatus::Compatible,
        None,
    ) {
        OpenStep::Done(Err(OpenDeviceError::NotEvdiDevice)) => (),
        _ => panic!(),
    }
}

#[test]
fn failed_call_is_an_unknown_error() {
    match DeviceNode::new(1).open(DeviceNodeStatus::Available, KernelModStatus::Compatible, Some(0)) {
        OpenStep::Done(Err(OpenDeviceError::Unknown)) => (),
        _ => panic!(),
    }
}

#[test]
fn open_errors_have_messages() {
    assert_eq!(
        OpenDeviceError::NonexistentDevice.message(),
        "The device node does not exist"
    );
    assert_eq!(
        OpenDeviceError::NotEvdiDevice.message(),
        "The device node is not an evdi device node"
    );
    assert_eq!(
        OpenDeviceError::Unknown.message(),
        "The call to the c library failed. Maybe the device node is an incompatible version?"
    );
}

#[test]
fn device_nodes_are_ordered_by_number() {
    assert!(DeviceNode::new(2) < DeviceNode::new(10));
    assert!(DeviceNode::new(-1) < DeviceNode::new(0));
    assert!(!(DeviceNode::new(3) < DeviceNode::new(3)));
    assert!(DeviceNode::new(3) <= DeviceNode::new(3));
    assert_eq!(
        DeviceNode::new(2).cmp(&DeviceNode::new(10)),
        std::cmp::Ordering::Less
    );
}

#[test]
fn paths_of_the_kernel_module() {
    assert_eq!(DEVICE_CARDS_DIR, "/dev/dri");
    assert_eq!(REMOVE_ALL_FILE, "/sys/devices/evdi/remove_all");
    assert_eq!(REMOVE_ALL_REQUEST, "1");
}

#[test]
fn listing_does_not_depend_on_the_order_of_the_names() {
    let status = |node: DeviceNode| {
        if node.id == 2 {
            DeviceNodeStatus::Unrecognized
        } else {
            DeviceNodeStatus::Available
        }
    };
    let listing = |found: &[&str]| {
        let cards: Vec<(DeviceNode, DeviceNodeStatus)> = DeviceNode::from_card_names(&names(found))
            .into_iter()
            .map(|node| (node, status(node)))
            .collect();
        DeviceNode::list_available(&cards)
    };
    let one_way = listing(&["card10", "by-path", "card2", "card1", "renderD128"]);
    let other_way = listing(&["card1", "renderD128", "card10", "card2", "by-path"]);
    assert_eq!(one_way, other_way);
    assert_eq!(one_way, vec![DeviceNode::new(1), DeviceNode::new(10)]);
}

#[test]
fn no_handle_comes_out_of_an_incompatible_module() {
    let lib_version = LibVersion {
        major: 1,
        minor: 9,
        patch: 1,
        compatible_mod_major: 1,
        compatible_mod_minor: 9,
    };
    let outdated = KernelModVersion::get("1.8.0");
    assert!(outdated.is_some());
    for mod_version in [outdated, None] {
        let module = check_kernel_mod(mod_version, &lib_version);
        assert_ne!(module, KernelModStatus::Compatible);
        for opened in [None, Some(0), Some(OPENED)] {
            let node = DeviceNode::new(1);
            assert!(matches!(
                node.open(DeviceNodeStatus::Available, module, opened),
                OpenStep::Done(Err(OpenDeviceError::Unknown))
            ));
            assert!(matches!(
                node.open(DeviceNodeStatus::Unrecognized, module, opened),
                OpenStep::Done(Err(OpenDeviceError::NotEvdiDevice))
            ));
            assert!(matches!(
                node.open(DeviceNodeStatus::NotPresent, module, opened),
                OpenStep::Done(Err(OpenDeviceError::NonexistentDevice))
            ));
        }
    }
}

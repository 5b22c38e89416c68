//! Devices (`/dev/dri/card*`), for those who open a device without a look at its status.
//!
//! See [`crate::device_node`] for the device nodes behind them.
use std::cmp::Ordering;

use vstd::prelude::*;

use crate::device_node::{DeviceNode, DeviceNodeStatus};
use crate::handle::UnconnectedHandle;

verus! {

/// Represents a /dev/dri/card*.
#[derive(Debug, Clone, Copy, PartialEq, Eq, Ord, Structural)]
pub struct Device {
    pub id: i32,
}

/// Status of a [Device]
#[derive(Debug, Clone, Copy, PartialEq, Eq, Structural)]
pub enum DeviceStatus {
    Available,
    Unrecognized,
    NotPresent,
}

/// The device node that a device stands for.
pub open spec fn node_of(device: Device) -> DeviceNode {
    DeviceNode { id: device.id }
}

/// The status of a device node as that of a device.
pub open spec fn device_status_of(status: DeviceNodeStatus) -> DeviceStatus {
    match status {
        DeviceNodeStatus::Available => DeviceStatus::Available,
        DeviceNodeStatus::Unrecognized => DeviceStatus::Unrecognized,
        DeviceNodeStatus::NotPresent => DeviceStatus::NotPresent,
    }
}

/// The status of a device as that of a device node.
pub open spec fn node_status_of(status: DeviceStatus) -> DeviceNodeStatus {
    match status {
        DeviceStatus::Available => DeviceNodeStatus::Available,
        DeviceStatus::Unrecognized => DeviceNodeStatus::Unrecognized,
        DeviceStatus::NotPresent => DeviceNodeStatus::NotPresent,
    }
}

/// The device nodes that some devices stand for.
pub open spec fn nodes_of(devices: Seq<Device>) -> Seq<DeviceNode> {
    devices.map_values(|device: Device| node_of(device))
}

/// The device nodes that some devices stand for, with the status of each.
pub open spec fn cards_of(devices: Seq<(Device, DeviceStatus)>) -> Seq<
    (DeviceNode, DeviceNodeStatus),
> {
    devices.map_values(|card: (Device, DeviceStatus)| (node_of(card.0), node_status_of(card.1)))
}

/// The devices of some device nodes.
fn devices_of(nodes: &Vec<DeviceNode>) -> (devices: Vec<Device>)
    ensures
        nodes_of(devices@) == nodes@,
{
    let mut devices: Vec<Device> = vec![];
    let count: usize = nodes.len();
    let mut i: usize = 0;
    while i < count
        invariant
            i <= count,
            count == nodes@.len(),
            devices@.len() == i,
            forall|j: int| 0 <= j < i ==> node_of(devices@[j]) == nodes@[j],
        decreases count - i,
    {
        devices.push(Device::new(nodes[i].id));
        i += 1;
    }
    proof {
        assert(nodes_of(devices@) =~= nodes@);
    }
    devices
}

impl Device {
    /// Returns a device if one is available.
    ///
    /// * `listed` - the devices of [`Device::list_available`], or why they could not be listed.
    ///
    /// If no device is available you will need to add one with superuser permissions.
    pub fn get<E>(listed: Result<Vec<Self>, E>) -> (device: Option<Self>)
        ensures
            device == (match listed {
                Ok(devices) => if devices@.len() > 0 {
                    Some(devices@.last())
                } else {
                    None
                },
                Err(_) => None,
            }),
    {
        if let Ok(mut devices) = listed {
            devices.pop()
        } else {
            None
        }
    }

    /// Get the status of a device.
    ///
    /// * `sys` - what `evdi_check_device` returns for the number of the device.
    pub fn status(&self, sys: u32) -> (status: DeviceStatus)
        requires
            crate::device_node::is_status(sys),
        ensures
            status == device_status_of(crate::device_node::status_of(sys)),
    {
        DeviceStatus::from(sys)
    }

    /// Open a device.
    ///
    /// * `sys` - the handle that `evdi_open` returned for the number of the device.
    pub fn open(&self, sys: usize) -> (handle: UnconnectedHandle)
        ensures
            handle == (UnconnectedHandle { device: node_of(*self), sys }),
    {
        UnconnectedHandle::new(DeviceNode::new(self.id), sys)
    }

    /// The devices among what stands in [`crate::device_node::DEVICE_CARDS_DIR`].
    pub fn from_card_names(names: &Vec<String>) -> (devices: Vec<Self>)
        ensures
            nodes_of(devices@) == crate::device_node::nodes_named(
                names@.map_values(|name: String| name@),
            ),
    {
        devices_of(&DeviceNode::from_card_names(names))
    }

    /// List all devices that have available status in a stable order
    ///
    /// * `devices` - the devices that there are, with the status of each.
    pub fn list_available(devices: &Vec<(Self, DeviceStatus)>) -> (available: Vec<Self>)
        ensures
            crate::device_node::is_listing(nodes_of(available@), cards_of(devices@)),
    {
        let mut cards: Vec<(DeviceNode, DeviceNodeStatus)> = vec![];
        let count: usize = devices.len();
        let mut i: usize = 0;
        while i < count
            invariant
                i <= count,
                count == devices@.len(),
                cards@ == cards_of(devices@).take(i as int),
            decreases count - i,
        {
            let (device, status) = devices[i];
            let node_status = match status {
                DeviceStatus::Available => DeviceNodeStatus::Available,
                DeviceStatus::Unrecognized => DeviceNodeStatus::Unrecognized,
                DeviceStatus::NotPresent => DeviceNodeStatus::NotPresent,
            };
            cards.push((DeviceNode::new(device.id), node_status));
            i += 1;
            proof {
                assert(cards@ =~= cards_of(devices@).take(i as int));
            }
        }
        proof {
            assert(cards_of(devices@).take(count as int) =~= cards_of(devices@));
        }
        devices_of(&DeviceNode::list_available(&cards))
    }

    /// Whether the kernel module created a new device.
    ///
    /// * `status` - what `evdi_add_device` returned. It requires superuser permissions.
    pub fn add(status: i32) -> (added: bool)
        ensures
            added == (status > 0),
    {
        status > 0
    }

    /// Create a struct representing /dev/dri/card{id}.
    ///
    /// This does not create the device or check if the device exists.
    pub fn new(id: i32) -> (device: Self)
        ensures
            device == (Device { id }),
    {
        Device { id }
    }
}

/// A device stands for the node of its own number, and the devices of some nodes are as many as
/// the nodes and in their order.
pub proof fn devices_stand_for_nodes(devices: Seq<Device>, device: Device)
    ensures
        node_of(device).id == device.id,
        nodes_of(devices).len() == devices.len(),
        forall|i: int| 0 <= i < devices.len() ==> #[trigger] nodes_of(devices)[i].id == devices[i].id,
{
}

/// Devices with their statuses are as many nodes with statuses, in the same order: each node has the
/// number of its device, and is available exactly if its device is.
pub proof fn cards_are_those_of_devices(devices: Seq<(Device, DeviceStatus)>)
    ensures
        cards_of(devices).len() == devices.len(),
        forall|i: int|
            0 <= i < devices.len() ==> {
                let card = #[trigger] cards_of(devices)[i];
                &&& card.0.id == devices[i].0.id
                &&& card.1 is Available <==> devices[i].1 is Available
                &&& card.1 is Unrecognized <==> devices[i].1 is Unrecognized
                &&& card.1 is NotPresent <==> devices[i].1 is NotPresent
            },
{
}

/// The status of a device and the status of its node give each other back.
pub proof fn statuses_give_each_other_back(status: DeviceStatus, node_status: DeviceNodeStatus)
    ensures
        device_status_of(node_status_of(status)) == status,
        node_status_of(device_status_of(node_status)) == node_status,
{
}

/// A device is available exactly if its node is, is not recognised exactly if its node is not, and
/// is not present exactly if its node is not.
pub proof fn device_has_status_of_its_node(sys: u32)
    requires
        crate::device_node::is_status(sys),
    ensures
        ({
            let status = device_status_of(crate::device_node::status_of(sys));
            &&& status is Available <==> sys == 0
            &&& status is Unrecognized <==> sys == 1
            &&& status is NotPresent <==> sys == 2
        }),
        ({
            let node_status = crate::device_node::status_of(sys);
            let status = device_status_of(node_status);
            &&& status is Available <==> node_status is Available
            &&& status is Unrecognized <==> node_status is Unrecognized
            &&& status is NotPresent <==> node_status is NotPresent
        }),
{
}

/// A listing of devices holds those that were found with the status available, and no others, in
/// the order of their numbers.
pub proof fn device_listing_holds_available(
    devices: Seq<(Device, DeviceStatus)>,
    listing: Seq<Device>,
    device: Device,
)
    requires
        crate::device_node::is_listing(nodes_of(listing), cards_of(devices)),
    ensures
        listing.contains(device) <==> devices.contains((device, DeviceStatus::Available)),
        forall|i: int, j: int| 0 <= i <= j < listing.len() ==> listing[i].id <= listing[j].id,
{
    let (nodes, cards) = (nodes_of(listing), cards_of(devices));
    let card = (node_of(device), DeviceNodeStatus::Available);
    crate::device_node::listing_holds_available(cards, nodes, node_of(device));
    crate::device_node::listing_is_ordered(cards, nodes);
    if listing.contains(device) {
        let i = choose|i: int| 0 <= i < listing.len() && listing[i] == device;
        assert(nodes[i] == node_of(device));
        let k = choose|k: int| 0 <= k < cards.len() && cards[k] == card;
        assert(devices[k] == (device, DeviceStatus::Available));
    }
    if devices.contains((device, DeviceStatus::Available)) {
        let k = choose|k: int|
            0 <= k < devices.len() && devices[k] == (device, DeviceStatus::Available);
        assert(cards[k] == card);
        let i = choose|i: int| 0 <= i < nodes.len() && nodes[i] == node_of(device);
        assert(listing[i] == device);
    }
    assert forall|i: int, j: int| 0 <= i <= j < listing.len() implies listing[i].id
        <= listing[j].id by {
        assert(nodes[i].id <= nodes[j].id);
    }
}

/// Devices are ordered as their numbers are.
pub proof fn devices_are_ordered_by_number(a: Device, b: Device)
    ensures
        vstd::std_specs::cmp::PartialOrdSpec::partial_cmp_spec(&a, &b) == Some(Ordering::Less)
            <==> a.id < b.id,
        vstd::std_specs::cmp::PartialOrdSpec::partial_cmp_spec(&a, &b) == Some(Ordering::Greater)
            <==> b.id < a.id,
        vstd::std_specs::cmp::PartialOrdSpec::partial_cmp_spec(&a, &b) == Some(Ordering::Equal)
            <==> a.id == b.id,
{
}

impl vstd::std_specs::cmp::PartialOrdSpecImpl for Device {
    open spec fn obeys_partial_cmp_spec() -> bool {
        true
    }

    open spec fn partial_cmp_spec(&self, other: &Self) -> Option<Ordering> {
        if self.id < other.id {
            Some(Ordering::Less)
        } else if self.id > other.id {
            Some(Ordering::Greater)
        } else {
            Some(Ordering::Equal)
        }
    }
}

impl PartialOrd for Device {
    fn partial_cmp(&self, other: &Self) -> (order: Option<Ordering>) {
        if self.id < other.id {
            Some(Ordering::Less)
        } else if self.id > other.id {
            Some(Ordering::Greater)
        } else {
            Some(Ordering::Equal)
        }
    }
}

impl DeviceStatus {
    /// * `sys` - evdi_device_status
    pub fn from(sys: u32) -> (status: Self)
        requires
            crate::device_node::is_status(sys),
        ensures
            status == device_status_of(crate::device_node::status_of(sys)),
    {
        match DeviceNodeStatus::from(sys) {
            DeviceNodeStatus::Available => DeviceStatus::Available,
            DeviceNodeStatus::Unrecognized => DeviceStatus::Unrecognized,
            DeviceNodeStatus::NotPresent => DeviceStatus::NotPresent,
        }
    }
}

} // verus!

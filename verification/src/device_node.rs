//! Device node (`/dev/dri/card*`)
use std::cmp::Ordering;

use vstd::multiset::Multiset;
use vstd::prelude::*;
use vstd::string::*;

use crate::handle::UnconnectedHandle;
use crate::text::{captures, parse_decimal, CARD_PATTERN};
use crate::{KernelModStatus, KernelModVersion, LibVersion};

verus! {

/// Where device nodes are.
pub const DEVICE_CARDS_DIR: &'static str = "/dev/dri";

/// What [`REMOVE_ALL_REQUEST`] is written to so that all evdi device nodes are removed.
pub const REMOVE_ALL_FILE: &'static str = "/sys/devices/evdi/remove_all";

pub const REMOVE_ALL_REQUEST: &'static str = "1";

/// `evdi_device_status` of a node that is EVDI and can be used.
pub const EVDI_STATUS_AVAILABLE: u32 = 0;

/// `evdi_device_status` of a node that the evdi kernel module has not made.
pub const EVDI_STATUS_UNRECOGNIZED: u32 = 1;

/// `evdi_device_status` of a node that is not there.
pub const EVDI_STATUS_NOT_PRESENT: u32 = 2;

/// Represents a device node (`/dev/dri/card*`).
#[derive(Debug, Clone, Copy, PartialEq, Eq, Ord, Structural)]
pub struct DeviceNode {
    pub id: i32,
}

/// Status of a [`DeviceNode`]
#[derive(Debug, Clone, Copy, PartialEq, Eq, Structural)]
pub enum DeviceNodeStatus {
    Available,
    Unrecognized,
    NotPresent,
}

#[derive(Debug, Clone, Copy, PartialEq, Eq, Structural)]
pub enum OpenDeviceError {
    NonexistentDevice,
    NotEvdiDevice,
    Unknown,
}

/// What is to be done to open a device node.
#[derive(Debug)]
pub enum OpenStep {
    /// Call `evdi_open` with this number, and come back with the handle that it returns.
    CallOpen(i32),
    Done(Result<UnconnectedHandle, OpenDeviceError>),
}

/// The number in the name of a device node. A number that is too large for a node names none.
pub open spec fn card_number(name: Seq<char>) -> Option<i32> {
    if crate::text::is_card_name(name) && crate::text::decimal_value(name.skip(4)) <= i32::MAX {
        Some(crate::text::decimal_value(name.skip(4)) as i32)
    } else {
        None
    }
}

/// The device nodes among some names, in the order of the names.
pub open spec fn nodes_named(names: Seq<Seq<char>>) -> Seq<DeviceNode>
    decreases names.len(),
{
    if names.len() == 0 {
        Seq::empty()
    } else {
        match card_number(names.last()) {
            Some(id) => nodes_named(names.drop_last()).push(DeviceNode { id }),
            None => nodes_named(names.drop_last()),
        }
    }
}

/// The available ones of some device nodes, in their order.
pub open spec fn available_nodes(cards: Seq<(DeviceNode, DeviceNodeStatus)>) -> Seq<DeviceNode>
    decreases cards.len(),
{
    if cards.len() == 0 {
        Seq::empty()
    } else if cards.last().1 is Available {
        available_nodes(cards.drop_last()).push(cards.last().0)
    } else {
        available_nodes(cards.drop_last())
    }
}

/// Device nodes in the order of their numbers.
pub open spec fn ordered(nodes: Seq<DeviceNode>) -> bool {
    forall|i: int, j: int| 0 <= i <= j < nodes.len() ==> nodes[i].id <= nodes[j].id
}

/// `nodes` are the available ones of `cards`, each as often as it occurs there, in the order of
/// their numbers.
pub open spec fn is_listing(
    nodes: Seq<DeviceNode>,
    cards: Seq<(DeviceNode, DeviceNodeStatus)>,
) -> bool {
    ordered(nodes) && nodes.to_multiset() == available_nodes(cards).to_multiset()
}

/// A status that libevdi gives.
pub open spec fn is_status(sys: u32) -> bool {
    sys == EVDI_STATUS_AVAILABLE || sys == EVDI_STATUS_UNRECOGNIZED || sys
        == EVDI_STATUS_NOT_PRESENT
}

/// What a status that libevdi gives stands for.
pub open spec fn status_of(sys: u32) -> DeviceNodeStatus {
    if sys == EVDI_STATUS_AVAILABLE {
        DeviceNodeStatus::Available
    } else if sys == EVDI_STATUS_UNRECOGNIZED {
        DeviceNodeStatus::Unrecognized
    } else {
        DeviceNodeStatus::NotPresent
    }
}

/// What is to be done to open a device node of some status, where the kernel module is of some
/// status too, before and after `evdi_open` was called.
pub open spec fn open_step(
    node: DeviceNode,
    status: DeviceNodeStatus,
    module: KernelModStatus,
    opened: Option<usize>,
) -> OpenStep {
    match status {
        DeviceNodeStatus::Unrecognized => OpenStep::Done(Err(OpenDeviceError::NotEvdiDevice)),
        DeviceNodeStatus::NotPresent => OpenStep::Done(Err(OpenDeviceError::NonexistentDevice)),
        DeviceNodeStatus::Available => match (module, opened) {
            (KernelModStatus::Compatible, None) => OpenStep::CallOpen(node.id),
            (KernelModStatus::Compatible, Some(sys)) => if sys != 0 {
                OpenStep::Done(Ok(UnconnectedHandle { device: node, sys }))
            } else {
                OpenStep::Done(Err(OpenDeviceError::Unknown))
            },
            _ => OpenStep::Done(Err(OpenDeviceError::Unknown)),
        },
    }
}

/// The device nodes among some names, with the status of each.
pub open spec fn cards_named(
    names: Seq<Seq<char>>,
    status: spec_fn(DeviceNode) -> DeviceNodeStatus,
) -> Seq<(DeviceNode, DeviceNodeStatus)> {
    nodes_named(names).map_values(|node: DeviceNode| (node, status(node)))
}

impl DeviceNode {
    /// Returns an evdi device node if one is available.
    ///
    /// * `listed` - the nodes of [`DeviceNode::list_available`], or why they could not be listed.
    ///
    /// If no device is available you will need to add one with superuser permissions.
    pub fn get<E>(listed: Result<Vec<Self>, E>) -> (node: Option<Self>)
        ensures
            node == (match listed {
                Ok(nodes) => if nodes@.len() > 0 {
                    Some(nodes@.last())
                } else {
                    None
                },
                Err(_) => None,
            }),
    {
        if let Ok(mut nodes) = listed {
            nodes.pop()
        } else {
            None
        }
    }

    /// Check if a device node is an evdi device node, is a different device node, or doesn't exist.
    ///
    /// * `sys` - what `evdi_check_device` returns for the number of the node.
    pub fn status(&self, sys: u32) -> (status: DeviceNodeStatus)
        requires
            is_status(sys),
        ensures
            status == status_of(sys),
    {
        DeviceNodeStatus::from(sys)
    }

    /// Open an evdi device node.
    ///
    /// * `status` - the status of the node. Opening invalid devices can be very slow, so only an
    ///   available node is opened.
    /// * `module` - the status of the kernel module, from [`crate::check_kernel_mod`]. Only on a
    ///   compatible module a node is opened.
    /// * `opened` - the handle that `evdi_open` returned, once it was called. 0 stands for the
    ///   invalid handle.
    pub fn open(
        &self,
        status: DeviceNodeStatus,
        module: KernelModStatus,
        opened: Option<usize>,
    ) -> (step: OpenStep)
        ensures
            step == open_step(*self, status, module, opened),
    {
        match status {
            DeviceNodeStatus::Unrecognized => OpenStep::Done(Err(OpenDeviceError::NotEvdiDevice)),
            DeviceNodeStatus::NotPresent => OpenStep::Done(Err(OpenDeviceError::NonexistentDevice)),
            DeviceNodeStatus::Available => {
                if module != KernelModStatus::Compatible {
                    return OpenStep::Done(Err(OpenDeviceError::Unknown));
                }
                match opened {
                    None => OpenStep::CallOpen(self.id),
                    Some(sys) => {
                        if sys != 0 {
                            OpenStep::Done(Ok(UnconnectedHandle::new(*self, sys)))
                        } else {
                            OpenStep::Done(Err(OpenDeviceError::Unknown))
                        }
                    },
                }
            },
        }
    }

    /// The node that is called `name` in [`DEVICE_CARDS_DIR`], where that is a name of a device
    /// node.
    pub fn from_card_name(name: &str) -> (node: Option<Self>)
        ensures
            node == (match card_number(name@) {
                Some(id) => Some(DeviceNode { id }),
                None => None,
            }),
    {
        match captures(CARD_PATTERN, name) {
            Some(groups) => {
                proof {
                    let texts = groups@.map_values(|group: String| group@);
                    assert(texts.len() == 2);
                    assert(texts[1] == groups@[1]@);
                }
                match parse_decimal(groups[1].as_str(), i32::MAX as u32) {
                    Some(id) => Some(DeviceNode::new(id as i32)),
                    None => None,
                }
            },
            None => None,
        }
    }

    /// The nodes among what stands in [`DEVICE_CARDS_DIR`].
    pub fn from_card_names(names: &Vec<String>) -> (nodes: Vec<Self>)
        ensures
            nodes@ == nodes_named(names@.map_values(|name: String| name@)),
    {
        let ghost texts = names@.map_values(|name: String| name@);
        let mut nodes: Vec<DeviceNode> = vec![];
        let count: usize = names.len();
        let mut i: usize = 0;
        while i < count
            invariant
                i <= count,
                count == names@.len(),
                texts == names@.map_values(|name: String| name@),
                nodes@ == nodes_named(texts.take(i as int)),
            decreases count - i,
        {
            proof {
                assert(texts.take(i + 1).drop_last() =~= texts.take(i as int));
            }
            if let Some(node) = DeviceNode::from_card_name(names[i].as_str()) {
                nodes.push(node);
            }
            i += 1;
        }
        proof {
            assert(texts.take(count as int) =~= texts);
        }
        nodes
    }

    /// List all evdi device nodes that have available status in a stable order
    ///
    /// * `cards` - the device nodes that there are, with the status of each.
    pub fn list_available(cards: &Vec<(Self, DeviceNodeStatus)>) -> (available: Vec<Self>)
        ensures
            is_listing(available@, cards@),
    {
        let mut available: Vec<DeviceNode> = vec![];
        let count: usize = cards.len();
        let mut i: usize = 0;
        while i < count
            invariant
                i <= count,
                count == cards@.len(),
                available@ == available_nodes(cards@.take(i as int)),
            decreases count - i,
        {
            proof {
                assert(cards@.take(i + 1).drop_last() =~= cards@.take(i as int));
            }
            let (node, status) = cards[i];
            if status == DeviceNodeStatus::Available {
                available.push(node);
            }
            i += 1;
        }
        proof {
            assert(cards@.take(count as int) =~= cards@);
        }
        sort(&mut available);
        available
    }

    /// Whether the kernel module created a new evdi device node.
    ///
    /// * `status` - what `evdi_add_device` returned. It requires superuser permissions.
    pub fn add(status: i32) -> (added: bool)
        ensures
            added == (status > 0),
    {
        status > 0
    }

    /// Create a struct representing /dev/dri/card{id}.
    ///
    /// This does not create the device or check if the device exists.
    pub fn new(id: i32) -> (node: Self)
        ensures
            node == (DeviceNode { id }),
    {
        DeviceNode { id }
    }
}

proof fn swap_keeps_elements(nodes: Seq<DeviceNode>, i: int, j: int)
    requires
        0 <= i < nodes.len(),
        0 <= j < nodes.len(),
    ensures
        nodes.update(i, nodes[j]).update(j, nodes[i]).to_multiset() == nodes.to_multiset(),
{
    broadcast use vstd::multiset::group_multiset_axioms;

    let half = nodes.update(i, nodes[j]);
    vstd::seq_lib::to_multiset_update(nodes, i, nodes[j]);
    vstd::seq_lib::to_multiset_update(half, j, nodes[i]);
    vstd::seq_lib::to_multiset_contains(nodes, nodes[i]);
    vstd::seq_lib::to_multiset_contains(nodes, nodes[j]);
    vstd::seq_lib::to_multiset_contains(half, half[j]);
    assert(half.update(j, nodes[i]).to_multiset() =~= nodes.to_multiset());
}

/// Puts device nodes into the order of their numbers.
fn sort(nodes: &mut Vec<DeviceNode>)
    ensures
        ordered(final(nodes)@),
        final(nodes)@.to_multiset() == old(nodes)@.to_multiset(),
{
    let len: usize = nodes.len();
    let mut done: usize = 0;
    while done < len
        invariant
            done <= len,
            len == nodes@.len(),
            forall|j: int, k: int| 0 <= j <= k < done ==> nodes@[j].id <= nodes@[k].id,
            nodes@.to_multiset() == old(nodes)@.to_multiset(),
        decreases len - done,
    {
        let mut i: usize = done;
        while i > 0 && nodes[i].id < nodes[i - 1].id
            invariant
                i <= done,
                done < len,
                len == nodes@.len(),
                nodes@.to_multiset() == old(nodes)@.to_multiset(),
                forall|j: int, k: int|
                    0 <= j <= k <= done && j != i && k != i ==> nodes@[j].id <= nodes@[k].id,
                forall|k: int| i < k <= done ==> nodes@[i as int].id <= nodes@[k].id,
            decreases i,
        {
            let ghost before = nodes@;
            let node = nodes[i];
            let other = nodes[i - 1];
            nodes.set(i, other);
            nodes.set(i - 1, node);
            proof {
                swap_keeps_elements(before, i as int, i - 1);
            }
            i -= 1;
        }
        done += 1;
    }
}

/// A node is among the available ones as often as it is among all of them with that status.
proof fn available_count(cards: Seq<(DeviceNode, DeviceNodeStatus)>, node: DeviceNode)
    ensures
        available_nodes(cards).to_multiset().count(node) == cards.to_multiset().count(
            (node, DeviceNodeStatus::Available),
        ),
    decreases cards.len(),
{
    broadcast use {
        vstd::multiset::group_multiset_axioms,
        vstd::seq_lib::group_to_multiset_ensures,
    };

    if cards.len() > 0 {
        available_count(cards.drop_last(), node);
        assert(cards =~= cards.drop_last().push(cards.last()));
        vstd::seq_lib::to_multiset_build(cards.drop_last(), cards.last());
        if cards.last().1 is Available {
            vstd::seq_lib::to_multiset_build(
                available_nodes(cards.drop_last()),
                cards.last().0,
            );
        }
    }
}

/// The order in which the device nodes are found makes no difference to their listing.
pub proof fn listing_is_stable(
    cards: Seq<(DeviceNode, DeviceNodeStatus)>,
    others: Seq<(DeviceNode, DeviceNodeStatus)>,
    listing: Seq<DeviceNode>,
    other_listing: Seq<DeviceNode>,
)
    requires
        cards.to_multiset() == others.to_multiset(),
        is_listing(listing, cards),
        is_listing(other_listing, others),
    ensures
        listing == other_listing,
{
    broadcast use vstd::multiset::group_multiset_axioms;

    assert forall|node: DeviceNode|
        #[trigger] available_nodes(cards).to_multiset().count(node) == available_nodes(
            others,
        ).to_multiset().count(node) by {
        available_count(cards, node);
        available_count(others, node);
    }
    assert(listing.to_multiset() =~= other_listing.to_multiset());
    vstd::seq_lib::lemma_sorted_unique(
        listing,
        other_listing,
        |a: DeviceNode, b: DeviceNode| a.id <= b.id,
    );
}

/// What one name adds to the device nodes.
spec fn nodes_of_name(name: Seq<char>) -> Multiset<DeviceNode> {
    match card_number(name) {
        Some(id) => Multiset::singleton(DeviceNode { id }),
        None => Multiset::empty(),
    }
}

/// A name adds the same to the device nodes wherever it stands among the names.
proof fn nodes_without_name(names: Seq<Seq<char>>, k: int)
    requires
        0 <= k < names.len(),
    ensures
        nodes_named(names).to_multiset() == nodes_named(names.remove(k)).to_multiset().add(
            nodes_of_name(names[k]),
        ),
    decreases names.len(),
{
    broadcast use vstd::multiset::group_multiset_axioms;

    let before = names.drop_last();
    let last = names.len() - 1;
    if let Some(id) = card_number(names.last()) {
        vstd::seq_lib::to_multiset_build(nodes_named(before), DeviceNode { id });
        vstd::seq_lib::to_multiset_build(nodes_named(before.remove(k)), DeviceNode { id });
    }
    if k == last {
        assert(names.remove(k) =~= before);
    } else {
        nodes_without_name(before, k);
        assert(names.remove(k).drop_last() =~= before.remove(k));
        assert(names.remove(k).last() == names.last());
    }
    assert(nodes_named(names).to_multiset() =~= nodes_named(names.remove(k)).to_multiset().add(
        nodes_of_name(names[k]),
    ));
}

/// The same names in another order are names of the same device nodes.
proof fn nodes_of_permuted_names(names: Seq<Seq<char>>, others: Seq<Seq<char>>)
    requires
        names.to_multiset() == others.to_multiset(),
    ensures
        nodes_named(names).to_multiset() == nodes_named(others).to_multiset(),
    decreases names.len(),
{
    broadcast use vstd::multiset::group_multiset_axioms;

    vstd::seq_lib::to_multiset_len(names);
    vstd::seq_lib::to_multiset_len(others);
    if names.len() == 0 {
        assert(names =~= others);
    } else {
        let last = names.len() - 1;
        assert(names[last] == names.last());
        vstd::seq_lib::to_multiset_contains(names, names.last());
        vstd::seq_lib::to_multiset_contains(others, names.last());
        let k = choose|k: int| 0 <= k < others.len() && others[k] == names.last();
        vstd::seq_lib::to_multiset_remove(names, last);
        vstd::seq_lib::to_multiset_remove(others, k);
        nodes_of_permuted_names(names.remove(last), others.remove(k));
        nodes_without_name(names, last);
        nodes_without_name(others, k);
    }
}

/// A node is found with its own status as often as it is found, and with no other status.
proof fn card_count(
    nodes: Seq<DeviceNode>,
    status: spec_fn(DeviceNode) -> DeviceNodeStatus,
    card: (DeviceNode, DeviceNodeStatus),
)
    ensures
        nodes.map_values(|node: DeviceNode| (node, status(node))).to_multiset().count(card) == (
        if status(card.0) == card.1 {
            nodes.to_multiset().count(card.0)
        } else {
            0
        }),
    decreases nodes.len(),
{
    broadcast use vstd::multiset::group_multiset_axioms;

    let with_status = |node: DeviceNode| (node, status(node));
    let cards = nodes.map_values(with_status);
    vstd::seq_lib::to_multiset_len(nodes);
    vstd::seq_lib::to_multiset_len(cards);
    if nodes.len() == 0 {
        vstd::seq_lib::to_multiset_contains(nodes, card.0);
        vstd::seq_lib::to_multiset_contains(cards, card);
    } else {
        let before = nodes.drop_last();
        card_count(before, status, card);
        assert(cards =~= before.map_values(with_status).push(with_status(nodes.last())));
        assert(nodes =~= before.push(nodes.last()));
        vstd::seq_lib::to_multiset_build(before, nodes.last());
        vstd::seq_lib::to_multiset_build(
            before.map_values(with_status),
            with_status(nodes.last()),
        );
    }
}

/// The order in which [`DEVICE_CARDS_DIR`] is read makes no difference to the listing of the
/// device nodes in it, as long as each node has the same status.
pub proof fn listing_of_names_is_stable(
    names: Seq<Seq<char>>,
    others: Seq<Seq<char>>,
    status: spec_fn(DeviceNode) -> DeviceNodeStatus,
    listing: Seq<DeviceNode>,
    other_listing: Seq<DeviceNode>,
)
    requires
        names.to_multiset() == others.to_multiset(),
        is_listing(listing, cards_named(names, status)),
        is_listing(other_listing, cards_named(others, status)),
    ensures
        listing == other_listing,
{
    broadcast use vstd::multiset::group_multiset_axioms;

    let cards = cards_named(names, status);
    let other_cards = cards_named(others, status);
    nodes_of_permuted_names(names, others);
    assert forall|card: (DeviceNode, DeviceNodeStatus)|
        #[trigger] cards.to_multiset().count(card) == other_cards.to_multiset().count(card) by {
        card_count(nodes_named(names), status, card);
        card_count(nodes_named(others), status, card);
    }
    assert(cards.to_multiset() =~= other_cards.to_multiset());
    listing_is_stable(cards, other_cards, listing, other_listing);
}

/// A listing holds the nodes that were found with the status available, and no others.
pub proof fn listing_holds_available(
    cards: Seq<(DeviceNode, DeviceNodeStatus)>,
    listing: Seq<DeviceNode>,
    node: DeviceNode,
)
    requires
        is_listing(listing, cards),
    ensures
        listing.contains(node) <==> cards.contains((node, DeviceNodeStatus::Available)),
{
    available_count(cards, node);
    vstd::seq_lib::to_multiset_contains(listing, node);
    vstd::seq_lib::to_multiset_contains(cards, (node, DeviceNodeStatus::Available));
}

/// A listing is in the order of the nodes' numbers.
pub proof fn listing_is_ordered(
    cards: Seq<(DeviceNode, DeviceNodeStatus)>,
    listing: Seq<DeviceNode>,
)
    requires
        is_listing(listing, cards),
    ensures
        forall|i: int, j: int| 0 <= i <= j < listing.len() ==> listing[i].id <= listing[j].id,
{
}

/// A listing holds a node as often as it was found with the status available.
pub proof fn listing_holds_each_as_often(
    cards: Seq<(DeviceNode, DeviceNodeStatus)>,
    listing: Seq<DeviceNode>,
    node: DeviceNode,
)
    requires
        is_listing(listing, cards),
    ensures
        listing.to_multiset().count(node) == cards.to_multiset().count(
            (node, DeviceNodeStatus::Available),
        ),
{
    available_count(cards, node);
}

/// Nodes in the order of their numbers that hold each node as often as it was found with the
/// status available are a listing.
pub proof fn listing_is_known_by_its_nodes(
    cards: Seq<(DeviceNode, DeviceNodeStatus)>,
    listing: Seq<DeviceNode>,
)
    requires
        forall|i: int, j: int| 0 <= i <= j < listing.len() ==> listing[i].id <= listing[j].id,
        forall|node: DeviceNode|
            #[trigger] listing.to_multiset().count(node) == cards.to_multiset().count(
                (node, DeviceNodeStatus::Available),
            ),
    ensures
        is_listing(listing, cards),
{
    broadcast use vstd::multiset::group_multiset_axioms;

    assert forall|node: DeviceNode|
        #[trigger] listing.to_multiset().count(node) == available_nodes(cards).to_multiset().count(
            node,
        ) by {
        available_count(cards, node);
    }
    assert(listing.to_multiset() =~= available_nodes(cards).to_multiset());
}

/// The node that is picked out of a listing, its last one, is an available one, and no available
/// node has a greater number. If there is an available node, one is picked.
pub proof fn picked_node_is_available(
    cards: Seq<(DeviceNode, DeviceNodeStatus)>,
    listing: Seq<DeviceNode>,
    node: DeviceNode,
)
    requires
        is_listing(listing, cards),
    ensures
        cards.contains((node, DeviceNodeStatus::Available)) ==> listing.len() > 0 && node.id
            <= listing.last().id,
        listing.len() > 0 ==> cards.contains((listing.last(), DeviceNodeStatus::Available)),
{
    listing_holds_available(cards, listing, node);
    if listing.contains(node) {
        let i = choose|i: int| 0 <= i < listing.len() && listing[i] == node;
        assert(listing[i].id <= listing[listing.len() - 1].id);
    }
    if listing.len() > 0 {
        listing_holds_available(cards, listing, listing.last());
        assert(listing[listing.len() - 1] == listing.last());
    }
}

/// The device nodes among some names are those that one of the names is the name of.
pub proof fn nodes_are_named(names: Seq<Seq<char>>, node: DeviceNode)
    ensures
        nodes_named(names).contains(node) <==> exists|i: int|
            0 <= i < names.len() && card_number(#[trigger] names[i]) == Some(node.id),
    decreases names.len(),
{
    if names.len() > 0 {
        let before = names.drop_last();
        nodes_are_named(before, node);
        let found = nodes_named(before);
        let named = exists|i: int|
            0 <= i < names.len() && card_number(#[trigger] names[i]) == Some(node.id);
        if found.contains(node) {
            let i = choose|i: int|
                0 <= i < before.len() && card_number(#[trigger] before[i]) == Some(node.id);
            assert(names[i] == before[i]);
        }
        if named {
            let i = choose|i: int|
                0 <= i < names.len() && card_number(#[trigger] names[i]) == Some(node.id);
            if i < before.len() {
                assert(before[i] == names[i]);
            }
        }
        match card_number(names.last()) {
            Some(id) => {
                let all = found.push(DeviceNode { id });
                assert(all[found.len() as int] == DeviceNode { id });
                if found.contains(node) {
                    let k = choose|k: int| 0 <= k < found.len() && found[k] == node;
                    assert(all[k] == node);
                }
                if all.contains(node) && id != node.id {
                    let k = choose|k: int| 0 <= k < all.len() && all[k] == node;
                    assert(found[k] == node);
                }
                if id == node.id {
                    assert(names[names.len() - 1] == names.last());
                }
            },
            None => {},
        }
    }
}

/// The names of two directories, one after the other, give the nodes of the first and then those of
/// the second, and a single name gives its own node, if it is the name of one.
pub proof fn nodes_follow_their_names(names: Seq<Seq<char>>, more: Seq<Seq<char>>, name: Seq<char>)
    ensures
        nodes_named(names + more) == nodes_named(names) + nodes_named(more),
        nodes_named(seq![name]) == (match card_number(name) {
            Some(id) => seq![DeviceNode { id }],
            None => Seq::empty(),
        }),
    decreases more.len(),
{
    reveal_with_fuel(nodes_named, 2);
    assert(seq![name].drop_last() =~= Seq::<Seq<char>>::empty());
    assert(nodes_named(seq![name]) =~= (match card_number(name) {
        Some(id) => seq![DeviceNode { id }],
        None => Seq::empty(),
    }));
    if more.len() == 0 {
        assert(names + more =~= names);
        assert(nodes_named(names + more) =~= nodes_named(names) + nodes_named(more));
    } else {
        nodes_follow_their_names(names, more.drop_last(), name);
        assert((names + more).drop_last() =~= names + more.drop_last());
        assert((names + more).last() == more.last());
        assert(nodes_named(names + more) =~= nodes_named(names) + nodes_named(more));
    }
}

/// The name of a device node is `card` and then digits, and its number is the one that the digits
/// stand for. Every such name whose number is not too large for a node is the name of one.
pub proof fn node_names_are_card_and_digits(name: Seq<char>, digits: Seq<char>)
    ensures
        card_number(name) matches Some(id) ==> id >= 0 && name == seq!['c', 'a', 'r', 'd']
            + name.skip(4) && name.len() > 4 && crate::text::decimal_value(name.skip(4)) == id && (
        forall|i: int| 4 <= i < name.len() ==> '0' <= #[trigger] name[i] <= '9'),
        crate::text::is_digits(digits) && crate::text::decimal_value(digits) <= 0x7fff_ffff
            ==> card_number(seq!['c', 'a', 'r', 'd'] + digits) == Some(
            crate::text::decimal_value(digits) as i32,
        ),
        crate::text::is_digits(digits) && crate::text::decimal_value(digits) > 0x7fff_ffff
            ==> card_number(seq!['c', 'a', 'r', 'd'] + digits) is None,
{
    let built = seq!['c', 'a', 'r', 'd'] + digits;
    assert(built.take(4) =~= seq!['c', 'a', 'r', 'd']);
    assert(built.skip(4) =~= digits);
    if card_number(name) is Some {
        assert(name =~= name.take(4) + name.skip(4));
        assert forall|i: int| 4 <= i < name.len() implies '0' <= #[trigger] name[i] <= '9' by {
            assert(name.skip(4)[i - 4] == name[i]);
        }
    }
}

/// libevdi has three statuses, 0 for an available node, 1 for one that is not recognised and 2 for
/// one that is not present.
pub proof fn statuses_are_told_apart(sys: u32)
    ensures
        is_status(sys) <==> sys <= 2,
        is_status(sys) ==> (status_of(sys) is Available <==> sys == 0),
        is_status(sys) ==> (status_of(sys) is Unrecognized <==> sys == 1),
        is_status(sys) ==> (status_of(sys) is NotPresent <==> sys == 2),
{
}

/// Opening an available node fails as unknown exactly if `evdi_open` gave no valid handle or the
/// kernel module is not compatible.
pub proof fn available_node_fails_as_unknown(
    node: DeviceNode,
    module: KernelModStatus,
    opened: Option<usize>,
)
    ensures
        open_step(node, DeviceNodeStatus::Available, module, opened) == OpenStep::Done(
            Err(OpenDeviceError::Unknown),
        ) <==> module !is Compatible || opened == Some(0usize),
{
}

/// The name of the device node `/dev/dri/card{id}` is read as the number of that node.
pub proof fn card_name_round_trip(id: i32)
    requires
        id >= 0,
    ensures
        card_number(seq!['c', 'a', 'r', 'd'] + crate::text::decimal(id as nat)) == Some(id),
{
    let name = seq!['c', 'a', 'r', 'd'] + crate::text::decimal(id as nat);
    crate::text::decimal_round_trip(id as nat);
    assert(name.take(4) =~= seq!['c', 'a', 'r', 'd']);
    assert(name.skip(4) =~= crate::text::decimal(id as nat));
}

/// A device node is opened only if libevdi calls it available: for every other status
/// `evdi_open` is not called, and the error says why.
pub proof fn unavailable_node_is_not_opened(
    node: DeviceNode,
    sys: u32,
    module: KernelModStatus,
    opened: Option<usize>,
)
    requires
        is_status(sys),
        sys != EVDI_STATUS_AVAILABLE,
    ensures
        open_step(node, status_of(sys), module, opened) == OpenStep::Done(
            Err(
                if sys == EVDI_STATUS_NOT_PRESENT {
                    OpenDeviceError::NonexistentDevice
                } else {
                    OpenDeviceError::NotEvdiDevice
                },
            ),
        ),
{
}

/// A handle that was opened stands for the node that was to be opened, and is valid.
pub proof fn opened_handle_is_valid(
    node: DeviceNode,
    status: DeviceNodeStatus,
    module: KernelModStatus,
    opened: Option<usize>,
)
    ensures
        open_step(node, status, module, opened) matches OpenStep::Done(Ok(handle)) ==> status
            is Available && module is Compatible && handle.device == node && handle.sys != 0
            && opened == Some(handle.sys),
{
}

/// Opening makes the check of the kernel module too: where the module is not installed or is
/// outdated, it ends in an error, whatever the status of the node and whatever handle there is.
pub proof fn incompatible_module_is_not_opened(
    mod_version: Option<KernelModVersion>,
    lib_version: LibVersion,
    node: DeviceNode,
    status: DeviceNodeStatus,
    opened: Option<usize>,
)
    requires
        crate::kernel_mod_status(mod_version, lib_version) !is Compatible,
    ensures
        open_step(
            node,
            status,
            crate::kernel_mod_status(mod_version, lib_version),
            opened,
        ) matches OpenStep::Done(Err(_)),
{
}

/// An available node is opened if the kernel module is compatible and `evdi_open` returns a valid
/// handle.
pub proof fn available_node_is_opened(node: DeviceNode, sys: usize)
    requires
        sys != 0,
    ensures
        open_step(node, DeviceNodeStatus::Available, KernelModStatus::Compatible, None)
            == OpenStep::CallOpen(node.id),
        open_step(node, DeviceNodeStatus::Available, KernelModStatus::Compatible, Some(sys))
            == OpenStep::Done(Ok(UnconnectedHandle { device: node, sys })),
{
}

/// Device nodes are ordered as their numbers are.
pub proof fn nodes_are_ordered_by_number(a: DeviceNode, b: DeviceNode)
    ensures
        vstd::std_specs::cmp::PartialOrdSpec::partial_cmp_spec(&a, &b) == Some(Ordering::Less)
            <==> a.id < b.id,
        vstd::std_specs::cmp::PartialOrdSpec::partial_cmp_spec(&a, &b) == Some(Ordering::Greater)
            <==> b.id < a.id,
        vstd::std_specs::cmp::PartialOrdSpec::partial_cmp_spec(&a, &b) == Some(Ordering::Equal)
            <==> a.id == b.id,
{
}

impl vstd::std_specs::cmp::PartialOrdSpecImpl for DeviceNode {
    open spec fn obeys_partial_cmp_spec() -> bool {
        true
    }

    open spec fn partial_cmp_spec(&self, other: &Self) -> Option<Ordering> {
        if self.id < other.id {
            Some(Ordering::Less)
        } else if self.id > other.id {
            Some(Ordering::Greater)
        } else {
            Some(Ordering::Equal)
        }
    }
}

impl PartialOrd for DeviceNode {
    fn partial_cmp(&self, other: &Self) -> (order: Option<Ordering>) {
        if self.id < other.id {
            Some(Ordering::Less)
        } else if self.id > other.id {
            Some(Ordering::Greater)
        } else {
            Some(Ordering::Equal)
        }
    }
}

impl DeviceNodeStatus {
    /// * `sys` - evdi_device_status
    pub fn from(sys: u32) -> (status: Self)
        requires
            is_status(sys),
        ensures
            status == status_of(sys),
    {
        if sys == EVDI_STATUS_AVAILABLE {
            DeviceNodeStatus::Available
        } else if sys == EVDI_STATUS_UNRECOGNIZED {
            DeviceNodeStatus::Unrecognized
        } else {
            DeviceNodeStatus::NotPresent
        }
    }
}

impl OpenDeviceError {
    /// What to tell a user.
    pub fn message(&self) -> (message: &'static str)
        ensures
            message@ == (match self {
                OpenDeviceError::NonexistentDevice => "The device node does not exist"@,
                OpenDeviceError::NotEvdiDevice => "The device node is not an evdi device node"@,
                OpenDeviceError::Unknown =>
                    "The call to the c library failed. Maybe the device node is an incompatible version?"@,
            }),
    {
        match self {
            OpenDeviceError::NonexistentDevice => "The device node does not exist",
            OpenDeviceError::NotEvdiDevice => "The device node is not an evdi device node",
            OpenDeviceError::Unknown =>
                "The call to the c library failed. Maybe the device node is an incompatible version?",
        }
    }
}

} // verus!

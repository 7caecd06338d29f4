//! The choice of probe targets from the nodes of a device tree.

use vstd::prelude::*;
use vstd::string::*;

verus! {

/// One range of a node's `reg` property.
#[derive(Clone, Debug, PartialEq, Eq)]
pub struct MemoryRegion {
    /// The physical address at which the range starts.
    pub starting_address: usize,
    /// The size of the range in bytes, where the node gives one.
    pub size: Option<usize>,
}

/// What discovery reads of one node of a device tree.
#[derive(Clone, Debug, PartialEq, Eq)]
pub struct DeviceTreeNode {
    /// The name of the node.
    pub name: String,
    /// The entries of the node's compatibility list, in their order; empty
    /// for a node without one.
    pub compatible: Vec<String>,
    /// The node's register ranges, in their order; empty for a node without any.
    pub reg: Vec<MemoryRegion>,
}

/// A VirtIO MMIO device that a node declares, as far as the node tells.
#[derive(Clone, Debug, PartialEq, Eq)]
pub struct DiscoveredDevice {
    /// The physical address of the device's registers.
    pub paddr: usize,
    /// The size of the device's register window in bytes.
    pub size: usize,
    /// The first entry of the node's compatibility list, if it has one.
    pub compatible: Option<String>,
    /// The name of the node.
    pub name: String,
}

/// The compatibility string that marks a VirtIO MMIO device.
pub open spec fn virtio_mmio_marker() -> Seq<char> {
    "virtio,mmio"@
}

impl DeviceTreeNode {
    /// Whether the compatibility list holds the VirtIO MMIO marker.
    pub open spec fn spec_is_virtio_mmio(&self) -> bool {
        exists|i: int|
            0 <= i < self.compatible@.len() && (#[trigger] self.compatible@[i])@
                == virtio_mmio_marker()
    }

    /// Tells whether the compatibility list holds the VirtIO MMIO marker.
    #[verifier::when_used_as_spec(spec_is_virtio_mmio)]
    pub fn is_virtio_mmio(&self) -> (found: bool)
        ensures
            found == self.spec_is_virtio_mmio(),
    {
        let marker = String::from_str("virtio,mmio");
        let mut i: usize = 0;
        while i < self.compatible.len()
            invariant
                i <= self.compatible@.len(),
                marker@ == virtio_mmio_marker(),
                forall|j: int|
                    0 <= j < i ==> (#[trigger] self.compatible@[j])@ != virtio_mmio_marker(),
            decreases self.compatible@.len() - i,
        {
            if self.compatible[i] == marker {
                return true;
            }
            i += 1;
        }
        false
    }

    /// Whether the node can be probed: if it has a register range, the first
    /// one has a size.
    pub open spec fn spec_first_range_is_sized(&self) -> bool {
        self.reg@.len() > 0 ==> self.reg@[0].size is Some
    }

    /// Tells whether the node can be probed: if it has a register range, the
    /// first one has a size.
    #[verifier::when_used_as_spec(spec_first_range_is_sized)]
    pub fn first_range_is_sized(&self) -> (sized: bool)
        ensures
            sized == self.spec_first_range_is_sized(),
    {
        self.reg.len() == 0 || self.reg[0].size.is_some()
    }

    /// The device at the node's first register range; `None` for a node
    /// without register ranges.
    pub open spec fn device(&self) -> Option<DiscoveredDevice> {
        if self.reg@.len() > 0 {
            Some(
                DiscoveredDevice {
                    paddr: self.reg@[0].starting_address,
                    size: self.reg@[0].size->Some_0,
                    compatible: if self.compatible@.len() > 0 {
                        Some(self.compatible@[0])
                    } else {
                        None
                    },
                    name: self.name,
                },
            )
        } else {
            None
        }
    }

    /// The device that discovery probes at this node: the one at its first
    /// register range, if the node carries the marker.
    pub open spec fn probed(&self) -> Option<DiscoveredDevice> {
        if self.is_virtio_mmio() {
            self.device()
        } else {
            None
        }
    }
}

/// The devices to probe for a sequence of nodes: one for each node that
/// carries the marker and has a register range, in the order of the nodes.
pub open spec fn discovered(nodes: Seq<DeviceTreeNode>) -> Seq<DiscoveredDevice> {
    nodes.filter_map(|node: DeviceTreeNode| node.probed())
}

/// Reads the device that a node declares at its first register range.
///
/// A first range without a size cannot be probed.
pub fn virtio_probe(node: &DeviceTreeNode) -> (device: Option<DiscoveredDevice>)
    requires
        node.first_range_is_sized(),
    ensures
        device == node.device(),
        device is Some <==> node.reg@.len() > 0,
{
    if node.reg.len() > 0 {
        let size = node.reg[0].size.unwrap();
        let compatible = if node.compatible.len() > 0 {
            Some(node.compatible[0].clone())
        } else {
            None
        };
        Some(
            DiscoveredDevice {
                paddr: node.reg[0].starting_address,
                size,
                compatible,
                name: node.name.clone(),
            },
        )
    } else {
        None
    }
}

/// Walks the nodes in their order and collects the device of each node that
/// carries the VirtIO MMIO marker and has a register range.
pub fn walk_dt(nodes: &Vec<DeviceTreeNode>) -> (devices: Vec<DiscoveredDevice>)
    requires
        forall|i: int|
            0 <= i < nodes@.len() && (#[trigger] nodes@[i]).is_virtio_mmio()
                ==> nodes@[i].first_range_is_sized(),
    ensures
        devices@ == discovered(nodes@),
{
    let mut devices: Vec<DiscoveredDevice> = Vec::new();
    let mut i: usize = 0;
    while i < nodes.len()
        invariant
            i <= nodes@.len(),
            devices@ == discovered(nodes@.take(i as int)),
            forall|j: int|
                0 <= j < nodes@.len() && (#[trigger] nodes@[j]).is_virtio_mmio()
                    ==> nodes@[j].first_range_is_sized(),
        decreases nodes@.len() - i,
    {
        proof {
            nodes@.lemma_filter_map_take_succ(|node: DeviceTreeNode| node.probed(), i as int);
        }
        if nodes[i].is_virtio_mmio() {
            if let Some(device) = virtio_probe(&nodes[i]) {
                devices.push(device);
            }
        }
        i += 1;
    }
    assert(nodes@.take(nodes@.len() as int) =~= nodes@);
    devices
}

/// Discovery goes node by node: the devices of two runs of nodes, one after
/// the other, are the devices of the first run followed by those of the
/// second. So the devices come in the order of their nodes.
pub proof fn lemma_discovery_keeps_order(first: Seq<DeviceTreeNode>, second: Seq<DeviceTreeNode>)
    ensures
        discovered(first + second) == discovered(first) + discovered(second),
    decreases second.len(),
{
    if second.len() == 0 {
        assert(first + second =~= first);
        assert(discovered(first) + discovered(second) =~= discovered(first));
    } else {
        lemma_discovery_keeps_order(first, second.drop_last());
        assert((first + second).drop_last() =~= first + second.drop_last());
        assert((first + second).last() == second.last());
        assert(discovered(first + second) =~= discovered(first) + discovered(second));
    }
}

/// A node is probed at most once, and only if it carries the marker: there
/// are never more devices than nodes, and none where no node carries the marker.
pub proof fn lemma_discovery_is_bounded(nodes: Seq<DeviceTreeNode>)
    ensures
        discovered(nodes).len() <= nodes.len(),
        (forall|i: int| 0 <= i < nodes.len() ==> !(#[trigger] nodes[i]).is_virtio_mmio())
            ==> discovered(nodes).len() == 0,
    decreases nodes.len(),
{
    if nodes.len() > 0 {
        lemma_discovery_is_bounded(nodes.drop_last());
        assert(nodes.drop_last().len() == nodes.len() - 1);
        assert(forall|i: int|
            0 <= i < nodes.drop_last().len() ==> nodes.drop_last()[i] == nodes[i]);
        assert(nodes.last() == nodes[nodes.len() - 1]);
    }
}

} // verus!

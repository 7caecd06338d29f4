//! Discovery of VirtIO devices on bare metal: the PCI configuration access
//! mechanisms and the sweep over the slots of a bus, the choice of probe
//! targets from a device tree, and the routing of a device to its driver class.

pub mod bus;
pub mod cam;
pub mod device_tree;
pub mod dispatch;
pub mod header;
pub mod text;

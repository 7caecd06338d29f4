//! The routing of a device to the class of driver that serves it.

use vstd::prelude::*;

verus! {

/// The kind of device that a transport reports.
#[derive(Copy, Clone, Debug, PartialEq, Eq, Structural)]
pub enum DeviceType {
    /// A block device.
    Block,
    /// A graphics device.
    GPU,
    /// An input device.
    Input,
    /// A network device.
    Network,
    /// A sound device.
    Sound,
    /// Any other kind, with the tag as the transport reported it.
    Other(u32),
}

/// A class of device driver.
#[derive(Copy, Clone, Debug, PartialEq, Eq, Structural)]
pub enum DriverClass {
    /// The block driver.
    Block,
    /// The graphics driver.
    Gpu,
    /// The input driver.
    Input,
    /// The network driver.
    Network,
    /// The sound driver.
    Sound,
}

impl DeviceType {
    /// The driver class that serves this kind of device, if there is one.
    pub open spec fn driver(self) -> Option<DriverClass> {
        match self {
            DeviceType::Block => Some(DriverClass::Block),
            DeviceType::GPU => Some(DriverClass::Gpu),
            DeviceType::Input => Some(DriverClass::Input),
            DeviceType::Network => Some(DriverClass::Network),
            DeviceType::Sound => Some(DriverClass::Sound),
            DeviceType::Other(_) => None,
        }
    }
}

/// Chooses the one driver class to hand a transport to, from the device
/// type that the transport reports. `None` stands for a device that no
/// driver here serves: the transport is then dropped and discovery goes on.
pub fn virtio_device(device_type: DeviceType) -> (driver: Option<DriverClass>)
    ensures
        driver == device_type.driver(),
        driver is None <==> device_type is Other,
{
    match device_type {
        DeviceType::Block => Some(DriverClass::Block),
        DeviceType::GPU => Some(DriverClass::Gpu),
        DeviceType::Input => Some(DriverClass::Input),
        DeviceType::Network => Some(DriverClass::Network),
        DeviceType::Sound => Some(DriverClass::Sound),
        DeviceType::Other(_) => None,
    }
}

/// No driver class serves two kinds of device: from the class chosen, the
/// device type can be told.
pub proof fn lemma_driver_tells_device_type(first: DeviceType, second: DeviceType)
    requires
        first.driver() is Some,
        first.driver() == second.driver(),
    ensures
        first == second,
{
}

} // verus!

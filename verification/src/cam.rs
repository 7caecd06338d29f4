//! Slot identifiers, the two PCI configuration access mechanisms, and the
//! arithmetic that turns a slot and a register into an offset in the mapped
//! configuration window.

use vstd::prelude::*;

verus! {

/// Size in bytes of the configuration window of the memory-mapped CAM (16 MiB).
pub const MMIO_CAM_WINDOW_SIZE: u32 = 0x1000000;

/// Size in bytes of the configuration window of the enhanced CAM (256 MiB).
pub const ECAM_WINDOW_SIZE: u32 = 0x10000000;

/// The maximum number of devices on a bus.
pub const MAX_DEVICES: u8 = 32;

/// The maximum number of functions on a device.
pub const MAX_FUNCTIONS: u8 = 8;

/// An identifier for a PCI bus, device and function.
#[derive(Copy, Clone, Debug, PartialEq, Eq, Structural)]
pub struct DeviceFunction {
    /// The PCI bus number, between 0 and 255.
    pub bus: u8,
    /// The device number on the bus, between 0 and 31.
    pub device: u8,
    /// The function number of the device, between 0 and 7.
    pub function: u8,
}

impl DeviceFunction {
    /// Whether the device and function numbers are within their ranges, so
    /// that the identifier names one slot of its bus.
    pub open spec fn valid(self) -> bool {
        self.device < MAX_DEVICES && self.function < MAX_FUNCTIONS
    }

    /// The identifier packed into one number: the bus above bit 8, the device
    /// above bit 3, the function in the low bits.
    pub open spec fn bdf(self) -> u32 {
        (self.bus as u32) << 8 | (self.device as u32) << 3 | self.function as u32
    }

    /// The place of the slot in the order in which a bus is swept: devices
    /// ascending, and the functions of each device ascending.
    pub open spec fn position(self) -> int {
        self.device * MAX_FUNCTIONS + self.function
    }

    /// The slot of `bus` that is swept at `position`.
    pub open spec fn at(bus: u8, position: int) -> DeviceFunction {
        DeviceFunction {
            bus,
            device: (position / MAX_FUNCTIONS as int) as u8,
            function: (position % MAX_FUNCTIONS as int) as u8,
        }
    }
}

/// A PCI Configuration Access Mechanism.
#[derive(Copy, Clone, Debug, PartialEq, Eq, Structural)]
pub enum Cam {
    /// The PCI memory-mapped Configuration Access Mechanism.
    ///
    /// This provides access to 256 bytes of configuration space per device function.
    MmioCam,
    /// The PCIe memory-mapped Enhanced Configuration Access Mechanism.
    ///
    /// This provides access to 4 KiB of configuration space per device function.
    Ecam,
}

impl Cam {
    /// Size in bytes of the whole configuration window.
    pub open spec fn spec_window_size(self) -> u32 {
        match self {
            Cam::MmioCam => MMIO_CAM_WINDOW_SIZE,
            Cam::Ecam => ECAM_WINDOW_SIZE,
        }
    }

    /// Size in bytes of the whole configuration window.
    #[verifier::when_used_as_spec(spec_window_size)]
    pub fn window_size(self) -> (size: u32)
        ensures
            size == self.spec_window_size(),
    {
        match self {
            Cam::MmioCam => MMIO_CAM_WINDOW_SIZE,
            Cam::Ecam => ECAM_WINDOW_SIZE,
        }
    }

    /// Number of 32-bit words in the configuration window.
    pub open spec fn spec_window_words(self) -> u32 {
        (self.spec_window_size() / 4) as u32
    }

    /// Number of 32-bit words in the configuration window.
    #[verifier::when_used_as_spec(spec_window_words)]
    pub fn window_words(self) -> (words: u32)
        ensures
            words == self.spec_window_words(),
    {
        self.window_size() / 4
    }

    /// Size in bytes of the configuration space of one function.
    pub open spec fn function_size(self) -> u32 {
        match self {
            Cam::MmioCam => 0x100,
            Cam::Ecam => 0x1000,
        }
    }

    /// The byte offset in the window that the mechanism assigns to a register
    /// of a function, whether or not it may be accessed.
    pub open spec fn address(self, device_function: DeviceFunction, register_offset: u32) -> u32 {
        match self {
            Cam::MmioCam => device_function.bdf() << 8 | register_offset,
            Cam::Ecam => device_function.bdf() << 12 | register_offset,
        }
    }

    /// Whether the register may be accessed: its address lies inside the
    /// window and on a word boundary.
    pub open spec fn addressable(self, device_function: DeviceFunction, register_offset: u32) -> bool {
        &&& self.address(device_function, register_offset) < self.window_size()
        &&& self.address(device_function, register_offset) % 4 == 0
    }
}

/// Why a register has no place in the configuration window.
#[derive(Copy, Clone, Debug, PartialEq, Eq, Structural)]
pub enum AddressError {
    /// The address lies at or beyond the end of the window.
    OutOfRange,
    /// The address lies inside the window but not on a word boundary.
    Misaligned,
}

proof fn lemma_mmio_cam_address(bus: u8, device: u8, function: u8, register_offset: u32)
    by (bit_vector)
    requires
        device < 32,
        function < 8,
        register_offset < 0x100,
    ensures
        (((bus as u32) << 8 | (device as u32) << 3 | function as u32) << 8 | register_offset) == (
        bus as u32 * 256 + device as u32 * 8 + function as u32) * 0x100 + register_offset,
{
}

proof fn lemma_ecam_address(bus: u8, device: u8, function: u8, register_offset: u32)
    by (bit_vector)
    requires
        device < 32,
        function < 8,
        register_offset < 0x1000,
    ensures
        (((bus as u32) << 8 | (device as u32) << 3 | function as u32) << 12 | register_offset) == (
        bus as u32 * 256 + device as u32 * 8 + function as u32) * 0x1000 + register_offset,
{
}

proof fn lemma_mmio_cam_in_window(bus: u8, device: u8, function: u8, register_offset: u32)
    by (bit_vector)
    requires
        register_offset < 0x100,
    ensures
        (((bus as u32) << 8 | (device as u32) << 3 | function as u32) << 8 | register_offset)
            < 0x1000000,
        (((bus as u32) << 8 | (device as u32) << 3 | function as u32) << 8 | register_offset) % 4
            == register_offset % 4,
{
}

proof fn lemma_ecam_in_window(bus: u8, device: u8, function: u8, register_offset: u32)
    by (bit_vector)
    requires
        register_offset < 0x1000,
    ensures
        (((bus as u32) << 8 | (device as u32) << 3 | function as u32) << 12 | register_offset)
            < 0x10000000,
        (((bus as u32) << 8 | (device as u32) << 3 | function as u32) << 12 | register_offset) % 4
            == register_offset % 4,
{
}

/// The sweep goes by device first and by function second, and passes each
/// slot of a bus once: positions order the slots as their device numbers do
/// and, within a device, as their function numbers do; each position from 0
/// to 255 is that of one slot.
pub proof fn lemma_sweep_order(first: DeviceFunction, second: DeviceFunction, position: int)
    requires
        first.valid(),
        second.valid(),
    ensures
        0 <= first.position() < 256,
        DeviceFunction::at(first.bus, first.position()) == first,
        first.position() < second.position() <==> first.device < second.device || (first.device
            == second.device && first.function < second.function),
        0 <= position < 256 ==> DeviceFunction::at(first.bus, position).valid()
            && DeviceFunction::at(first.bus, position).position() == position,
{
}

/// For a slot whose numbers are in range and a register inside the
/// function's configuration space, the address is the slot's number on the
/// whole bus hierarchy times the size of one function's space, plus the
/// register offset: the spaces of the functions lie side by side in the
/// window, in the order bus, device, function.
pub proof fn lemma_address_is_linear(cam: Cam, device_function: DeviceFunction, register_offset: u32)
    requires
        device_function.valid(),
        register_offset < cam.function_size(),
    ensures
        cam.address(device_function, register_offset) == (device_function.bus * 256
            + device_function.position()) * cam.function_size() + register_offset,
{
    match cam {
        Cam::MmioCam => lemma_mmio_cam_address(
            device_function.bus,
            device_function.device,
            device_function.function,
            register_offset,
        ),
        Cam::Ecam => lemma_ecam_address(
            device_function.bus,
            device_function.device,
            device_function.function,
            register_offset,
        ),
    }
}

/// Every word-aligned register inside a function's configuration space may be
/// accessed, whatever the slot.
pub proof fn lemma_register_is_addressable(
    cam: Cam,
    device_function: DeviceFunction,
    register_offset: u32,
)
    requires
        register_offset < cam.function_size(),
        register_offset % 4 == 0,
    ensures
        cam.addressable(device_function, register_offset),
{
    match cam {
        Cam::MmioCam => lemma_mmio_cam_in_window(
            device_function.bus,
            device_function.device,
            device_function.function,
            register_offset,
        ),
        Cam::Ecam => lemma_ecam_in_window(
            device_function.bus,
            device_function.device,
            device_function.function,
            register_offset,
        ),
    }
}

/// Two registers of slots whose numbers are in range share an address only
/// if they are the same register of the same slot.
pub proof fn lemma_address_is_injective(
    cam: Cam,
    first: DeviceFunction,
    first_offset: u32,
    second: DeviceFunction,
    second_offset: u32,
)
    requires
        first.valid(),
        second.valid(),
        first_offset < cam.function_size(),
        second_offset < cam.function_size(),
        cam.address(first, first_offset) == cam.address(second, second_offset),
    ensures
        first == second,
        first_offset == second_offset,
{
    lemma_address_is_linear(cam, first, first_offset);
    lemma_address_is_linear(cam, second, second_offset);
    let size = cam.function_size() as int;
    let a = first.bus * 256 + first.position();
    let b = second.bus * 256 + second.position();
    assert(a == b && first_offset == second_offset) by (nonlinear_arith)
        requires
            a * size + first_offset == b * size + second_offset,
            0 <= first_offset < size,
            0 <= second_offset < size,
    ;
}

} // verus!

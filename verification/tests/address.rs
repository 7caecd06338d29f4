use virtio_discovery::bus::PciRoot;
use virtio_discovery::cam::{AddressError, Cam, DeviceFunction};

fn absent(_index: u32) -> u32 {
    0xffff_ffff
}

fn root(cam: Cam) -> PciRoot<fn(u32) -> u32> {
    PciRoot::new(absent, cam)
}

fn slot(bus: u8, device: u8, function: u8) -> DeviceFunction {
    DeviceFunction { bus, device, function }
}

#[test]
fn mmio_cam_offset_of_bus_1_device_1_function_3() {
    let address = root(Cam::MmioCam).cam_offset(slot(1, 1, 3), 16);
    assert_eq!(address, 68368);
    assert_eq!(address, 0x10B10);
    assert_eq!(address, (267 << 8) | 16);
    assert_eq!(address % 4, 0);
}

#[test]
fn ecam_offset_of_bus_1_device_1_function_3() {
    let address = root(Cam::Ecam).cam_offset(slot(1, 1, 3), 16);
    assert_eq!(address, 1093648);
    assert_eq!(address, 0x10B010);
    assert_eq!(address, (267 << 12) | 16);
    assert_eq!(address % 4, 0);
}

#[test]
fn mmio_cam_offset_of_bus_1_device_2_function_3() {
    let address = root(Cam::MmioCam).cam_offset(slot(1, 2, 3), 16);
    assert_eq!(address, 70416);
    assert_eq!(address, 0x11310);
    assert_eq!(address, ((1 << 8 | 2 << 3 | 3) << 8) | 16);
    assert_eq!(address % 4, 0);
}

#[test]
fn ecam_offset_of_bus_1_device_2_function_3() {
    let address = root(Cam::Ecam).cam_offset(slot(1, 2, 3), 16);
    assert_eq!(address, 1126416);
    assert_eq!(address, 0x113010);
    assert_eq!(address, ((1 << 8 | 2 << 3 | 3) << 12) | 16);
    assert_eq!(address % 4, 0);
}

#[test]
fn checked_offset_agrees_with_offset_where_it_succeeds() {
    for cam in [Cam::MmioCam, Cam::Ecam] {
        let root = root(cam);
        for (bus, device, function, register) in
            [(0u8, 0u8, 0u8, 0u32), (1, 2, 3, 16), (255, 31, 7, 252), (17, 9, 4, 12), (0, 1, 3, 8)]
        {
            let device_function = slot(bus, device, function);
            assert_eq!(
                root.checked_cam_offset(device_function, register),
                Ok(root.cam_offset(device_function, register))
            );
        }
    }
}

#[test]
fn first_register_of_first_slot_is_at_the_base() {
    assert_eq!(root(Cam::MmioCam).cam_offset(slot(0, 0, 0), 0), 0);
    assert_eq!(root(Cam::Ecam).cam_offset(slot(0, 0, 0), 0), 0);
}

#[test]
fn last_word_of_each_window_is_addressable() {
    assert_eq!(root(Cam::MmioCam).checked_cam_offset(slot(255, 31, 7), 0xfc), Ok(0xff_fffc));
    assert_eq!(root(Cam::Ecam).checked_cam_offset(slot(255, 31, 7), 0xffc), Ok(0xfff_fffc));
}

#[test]
fn functions_lie_side_by_side() {
    let mmio = root(Cam::MmioCam);
    assert_eq!(mmio.cam_offset(slot(0, 0, 1), 0), 0x100);
    assert_eq!(mmio.cam_offset(slot(0, 1, 0), 0), 0x800);
    assert_eq!(mmio.cam_offset(slot(1, 0, 0), 0), 0x1_0000);
    let ecam = root(Cam::Ecam);
    assert_eq!(ecam.cam_offset(slot(0, 0, 1), 0), 0x1000);
    assert_eq!(ecam.cam_offset(slot(0, 1, 0), 0), 0x8000);
    assert_eq!(ecam.cam_offset(slot(1, 0, 0), 0), 0x10_0000);
}

#[test]
fn offset_beyond_the_mmio_cam_window_is_rejected() {
    let root = root(Cam::MmioCam);
    assert_eq!(root.checked_cam_offset(slot(0, 0, 0), 0x100_0000), Err(AddressError::OutOfRange));
    assert_eq!(root.checked_cam_offset(slot(1, 2, 3), 0x100_0010), Err(AddressError::OutOfRange));
    assert_eq!(root.checked_cam_offset(slot(0, 0, 0), 0xffff_ffff), Err(AddressError::OutOfRange));
    assert_eq!(root.checked_cam_offset(slot(0, 0, 0), 0xff_fffc), Ok(0xff_fffc));
}

#[test]
fn offset_beyond_the_ecam_window_is_rejected() {
    let root = root(Cam::Ecam);
    assert_eq!(root.checked_cam_offset(slot(0, 0, 0), 0x1000_0000), Err(AddressError::OutOfRange));
    assert_eq!(root.checked_cam_offset(slot(1, 2, 3), 0x1000_0010), Err(AddressError::OutOfRange));
    assert_eq!(root.checked_cam_offset(slot(0, 0, 0), 0xffff_fffc), Err(AddressError::OutOfRange));
    assert_eq!(root.checked_cam_offset(slot(0, 0, 0), 0x100_0000), Ok(0x100_0000));
    assert_eq!(root.checked_cam_offset(slot(0, 0, 0), 0xfff_fffc), Ok(0xfff_fffc));
}

#[test]
fn out_of_range_comes_before_misaligned() {
    assert_eq!(
        root(Cam::MmioCam).checked_cam_offset(slot(0, 0, 0), 0x100_0001),
        Err(AddressError::OutOfRange)
    );
    assert_eq!(
        root(Cam::Ecam).checked_cam_offset(slot(0, 0, 0), 0x1000_0003),
        Err(AddressError::OutOfRange)
    );
}

#[test]
fn register_off_a_word_boundary_is_rejected() {
    for cam in [Cam::MmioCam, Cam::Ecam] {
        let root = root(cam);
        for register in [1u32, 2, 3, 5, 14, 255] {
            assert_eq!(
                root.checked_cam_offset(slot(1, 2, 3), register),
                Err(AddressError::Misaligned)
            );
        }
    }
}

#[test]
fn window_sizes() {
    assert_eq!(Cam::MmioCam.window_size(), 16 * 1024 * 1024);
    assert_eq!(Cam::Ecam.window_size(), 256 * 1024 * 1024);
    assert_eq!(Cam::MmioCam.window_words(), 4 * 1024 * 1024);
    assert_eq!(Cam::Ecam.window_words(), 64 * 1024 * 1024);
}

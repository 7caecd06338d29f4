use virtio_discovery::header::{DeviceFunctionInfo, HeaderType, INVALID_READ};

#[test]
fn header_type_from_raw_values() {
    assert_eq!(HeaderType::from(0x00), HeaderType::Standard);
    assert_eq!(HeaderType::from(0x01), HeaderType::PciPciBridge);
    assert_eq!(HeaderType::from(0x02), HeaderType::PciCardbusBridge);
    assert_eq!(HeaderType::from(0x7f), HeaderType::Unrecognised(0x7f));
}

#[test]
fn header_type_keeps_every_raw_value_it_does_not_know() {
    for raw in 3..=255u8 {
        assert_eq!(HeaderType::from(raw), HeaderType::Unrecognised(raw));
    }
}

#[test]
fn decode_splits_the_words_into_fields() {
    let info = DeviceFunctionInfo::decode(0x1042_1af4, 0x0200_0001, 0x0000_0000);
    assert_eq!(
        info,
        DeviceFunctionInfo {
            vendor_id: 0x1af4,
            device_id: 0x1042,
            class: 0x02,
            subclass: 0x00,
            prog_if: 0x00,
            revision: 0x01,
            header_type: HeaderType::Standard,
        }
    );
}

#[test]
fn decode_takes_each_byte_of_the_class_word() {
    let info = DeviceFunctionInfo::decode(0, 0xa1b2_c3d4, 0);
    assert_eq!(info.class, 0xa1);
    assert_eq!(info.subclass, 0xb2);
    assert_eq!(info.prog_if, 0xc3);
    assert_eq!(info.revision, 0xd4);
}

#[test]
fn ids_are_the_halves_of_the_header_word() {
    for word in [0u32, 1, 0xffff, 0x1_0000, 0x1234_5678, 0x8000_0001, 0xfffe_ffff, 0xffff_fffe] {
        let info = DeviceFunctionInfo::decode(word, 0, 0);
        assert_eq!(info.vendor_id as u32, word & 0xffff);
        assert_eq!(info.device_id as u32, word >> 16);
        assert_eq!((info.device_id as u32) << 16 | info.vendor_id as u32, word);
    }
}

#[test]
fn header_type_is_read_from_bits_16_to_22() {
    assert_eq!(DeviceFunctionInfo::decode(0, 0, 0x0001_0000).header_type, HeaderType::PciPciBridge);
    assert_eq!(
        DeviceFunctionInfo::decode(0, 0, 0x0002_0000).header_type,
        HeaderType::PciCardbusBridge
    );
    assert_eq!(
        DeviceFunctionInfo::decode(0, 0, 0x007f_0000).header_type,
        HeaderType::Unrecognised(0x7f)
    );
    assert_eq!(DeviceFunctionInfo::decode(0, 0, 0xff00_ffff).header_type, HeaderType::Standard);
}

#[test]
fn multi_function_flag_does_not_reach_the_header_type() {
    for raw in 0..0x80u32 {
        let without = DeviceFunctionInfo::decode(0, 0, raw << 16).header_type;
        let with = DeviceFunctionInfo::decode(0, 0, (raw | 0x80) << 16).header_type;
        assert_eq!(with, without);
        assert_eq!(with, HeaderType::from(raw as u8));
    }
    assert_eq!(DeviceFunctionInfo::decode(0, 0, 0x0080_0000).header_type, HeaderType::Standard);
    assert_eq!(DeviceFunctionInfo::decode(0, 0, 0x0081_0000).header_type, HeaderType::PciPciBridge);
    assert_eq!(
        DeviceFunctionInfo::decode(0, 0, 0x00ff_0000).header_type,
        HeaderType::Unrecognised(0x7f)
    );
}

#[test]
fn absent_marker_is_all_ones() {
    assert_eq!(INVALID_READ, 0xffff_ffff);
    assert_eq!(INVALID_READ, u32::MAX);
}

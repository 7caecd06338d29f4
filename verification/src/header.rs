//! The fields of a function's configuration header and their decoding from
//! the words read out of configuration space.

use vstd::prelude::*;

verus! {

/// The value that a load from the configuration space of an absent function yields.
pub const INVALID_READ: u32 = 0xffffffff;

/// The type of a PCI device function header.
#[derive(Copy, Clone, Debug, PartialEq, Eq, Structural)]
pub enum HeaderType {
    /// A normal PCI device.
    Standard,
    /// A PCI to PCI bridge.
    PciPciBridge,
    /// A PCI to CardBus bridge.
    PciCardbusBridge,
    /// Unrecognised header type.
    Unrecognised(u8),
}

impl HeaderType {
    /// The header type that a raw value stands for. Values without a meaning
    /// of their own are kept as they are.
    pub open spec fn of(value: u8) -> HeaderType {
        if value == 0x00 {
            HeaderType::Standard
        } else if value == 0x01 {
            HeaderType::PciPciBridge
        } else if value == 0x02 {
            HeaderType::PciCardbusBridge
        } else {
            HeaderType::Unrecognised(value)
        }
    }
}

impl From<u8> for HeaderType {
    fn from(value: u8) -> (header_type: Self)
        ensures
            header_type == HeaderType::of(value),
    {
        match value {
            0x00 => Self::Standard,
            0x01 => Self::PciPciBridge,
            0x02 => Self::PciCardbusBridge,
            _ => Self::Unrecognised(value),
        }
    }
}

impl vstd::std_specs::convert::FromSpecImpl<u8> for HeaderType {
    open spec fn obeys_from_spec() -> bool {
        true
    }

    open spec fn from_spec(value: u8) -> Self {
        HeaderType::of(value)
    }
}

/// Information about a PCI device function.
#[derive(Clone, Debug, PartialEq, Eq, Structural)]
pub struct DeviceFunctionInfo {
    /// The PCI vendor ID.
    pub vendor_id: u16,
    /// The PCI device ID.
    pub device_id: u16,
    /// The PCI class.
    pub class: u8,
    /// The PCI subclass.
    pub subclass: u8,
    /// The PCI programming interface byte.
    pub prog_if: u8,
    /// The PCI revision ID.
    pub revision: u8,
    /// The type of PCI device.
    pub header_type: HeaderType,
}

/// Whether a word read at register 0 of a slot shows a function there.
pub open spec fn is_present(device_vendor: u32) -> bool {
    device_vendor != INVALID_READ
}

/// The header type held in the word at register 12: the seven bits from bit
/// 16 up. Bit 23, the multi-function flag, is left out.
pub open spec fn header_type_of(bist_type_latency_cache: u32) -> HeaderType {
    HeaderType::of(((bist_type_latency_cache / 0x10000) % 0x80) as u8)
}

impl DeviceFunctionInfo {
    /// The header fields held in the words at registers 0, 8 and 12 of a
    /// function's configuration space.
    pub open spec fn of(
        device_vendor: u32,
        class_revision: u32,
        bist_type_latency_cache: u32,
    ) -> DeviceFunctionInfo {
        DeviceFunctionInfo {
            vendor_id: (device_vendor % 0x10000) as u16,
            device_id: (device_vendor / 0x10000) as u16,
            class: (class_revision / 0x1000000) as u8,
            subclass: ((class_revision / 0x10000) % 0x100) as u8,
            prog_if: ((class_revision / 0x100) % 0x100) as u8,
            revision: (class_revision % 0x100) as u8,
            header_type: header_type_of(bist_type_latency_cache),
        }
    }

    /// Decodes the words read at registers 0, 8 and 12 of a function's
    /// configuration space.
    pub fn decode(
        device_vendor: u32,
        class_revision: u32,
        bist_type_latency_cache: u32,
    ) -> (info: DeviceFunctionInfo)
        ensures
            info == DeviceFunctionInfo::of(device_vendor, class_revision, bist_type_latency_cache),
    {
        let device_id = (device_vendor >> 16) as u16;
        let vendor_id = device_vendor as u16;
        let class = (class_revision >> 24) as u8;
        let subclass = (class_revision >> 16) as u8;
        let prog_if = (class_revision >> 8) as u8;
        let revision = class_revision as u8;
        let raw_type = (bist_type_latency_cache >> 16) as u8 & 0x7f;
        assert(device_id == device_vendor / 0x10000 && vendor_id == device_vendor % 0x10000)
            by (bit_vector)
            requires
                device_id == (device_vendor >> 16) as u16,
                vendor_id == device_vendor as u16,
        ;
        assert(class == class_revision / 0x1000000 && subclass == (class_revision / 0x10000) % 0x100
            && prog_if == (class_revision / 0x100) % 0x100 && revision == class_revision % 0x100)
            by (bit_vector)
            requires
                class == (class_revision >> 24) as u8,
                subclass == (class_revision >> 16) as u8,
                prog_if == (class_revision >> 8) as u8,
                revision == class_revision as u8,
        ;
        assert(raw_type == (bist_type_latency_cache / 0x10000) % 0x80) by (bit_vector)
            requires
                raw_type == (bist_type_latency_cache >> 16) as u8 & 0x7f,
        ;
        DeviceFunctionInfo {
            vendor_id,
            device_id,
            class,
            subclass,
            prog_if,
            revision,
            header_type: HeaderType::from(raw_type),
        }
    }
}

/// The vendor and device ids are the two halves of the word at register 0:
/// putting the device id above the vendor id gives the word back.
pub proof fn lemma_ids_make_up_header_word(
    device_vendor: u32,
    class_revision: u32,
    bist_type_latency_cache: u32,
)
    ensures
        ({
            let info = DeviceFunctionInfo::of(device_vendor, class_revision, bist_type_latency_cache);
            &&& info.vendor_id == device_vendor % 0x10000
            &&& info.device_id == device_vendor / 0x10000
            &&& info.device_id * 0x10000 + info.vendor_id == device_vendor
        }),
{
}

/// The four fields of the word at register 8 make it up: class, subclass,
/// programming interface and revision, from the high byte down.
pub proof fn lemma_class_fields_make_up_word(
    device_vendor: u32,
    class_revision: u32,
    bist_type_latency_cache: u32,
)
    ensures
        ({
            let info = DeviceFunctionInfo::of(device_vendor, class_revision, bist_type_latency_cache);
            info.class * 0x1000000 + info.subclass * 0x10000 + info.prog_if * 0x100 + info.revision
                == class_revision
        }),
{
}

/// The multi-function flag has no part in the header type: two words that
/// differ in bit 23 alone hold the same header type.
pub proof fn lemma_multi_function_flag_is_ignored(bist_type_latency_cache: u32)
    ensures
        header_type_of(bist_type_latency_cache | 0x800000) == header_type_of(bist_type_latency_cache),
        header_type_of(bist_type_latency_cache & !0x800000u32) == header_type_of(
            bist_type_latency_cache,
        ),
        header_type_of(bist_type_latency_cache ^ 0x800000) == header_type_of(bist_type_latency_cache),
{
    let word = bist_type_latency_cache;
    assert(((word | 0x800000) / 0x10000) % 0x80 == (word / 0x10000) % 0x80) by (bit_vector);
    assert(((word & !0x800000u32) / 0x10000) % 0x80 == (word / 0x10000) % 0x80) by (bit_vector);
    assert(((word ^ 0x800000) / 0x10000) % 0x80 == (word / 0x10000) % 0x80) by (bit_vector);
}

/// A header type decoded from a word is never one of the values from 0x80
/// up: the field is seven bits wide.
pub proof fn lemma_header_type_is_seven_bits(bist_type_latency_cache: u32)
    ensures
        header_type_of(bist_type_latency_cache) matches HeaderType::Unrecognised(raw) ==> 3 <= raw
            < 0x80,
{
}

} // verus!

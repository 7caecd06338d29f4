//! The textual forms of slot identifiers and of header information.

use vstd::prelude::*;
use vstd::string::*;
use crate::cam::DeviceFunction;
use crate::header::{DeviceFunctionInfo, HeaderType};

verus! {

/// The digit for a value below 16: `0` to `9`, then `a` to `f`.
pub open spec fn digit(value: int) -> char
    recommends
        0 <= value < 16,
{
    seq!['0', '1', '2', '3', '4', '5', '6', '7', '8', '9', 'a', 'b', 'c', 'd', 'e', 'f'][value]
}

/// A byte as two hexadecimal digits.
pub open spec fn hex_byte(value: u8) -> Seq<char> {
    seq![digit(value as int / 16), digit(value as int % 16)]
}

/// A 16-bit value as four hexadecimal digits.
pub open spec fn hex_word(value: u16) -> Seq<char> {
    hex_byte((value / 256) as u8) + hex_byte((value % 256) as u8)
}

/// A number in decimal, without leading zeros.
pub open spec fn decimal(value: nat) -> Seq<char>
    decreases value,
{
    if value < 10 {
        seq![digit(value as int)]
    } else {
        decimal(value / 10).push(digit((value % 10) as int))
    }
}

fn push_digit(text: &mut String, value: u8)
    requires
        value < 16,
    ensures
        final(text)@ == old(text)@.push(digit(value as int)),
{
    let literal = match value {
        0 => "0",
        1 => "1",
        2 => "2",
        3 => "3",
        4 => "4",
        5 => "5",
        6 => "6",
        7 => "7",
        8 => "8",
        9 => "9",
        10 => "a",
        11 => "b",
        12 => "c",
        13 => "d",
        14 => "e",
        _ => "f",
    };
    proof {
        reveal_strlit("0");
        reveal_strlit("1");
        reveal_strlit("2");
        reveal_strlit("3");
        reveal_strlit("4");
        reveal_strlit("5");
        reveal_strlit("6");
        reveal_strlit("7");
        reveal_strlit("8");
        reveal_strlit("9");
        reveal_strlit("a");
        reveal_strlit("b");
        reveal_strlit("c");
        reveal_strlit("d");
        reveal_strlit("e");
        reveal_strlit("f");
        assert(literal@ =~= seq![digit(value as int)]);
    }
    text.append(literal);
    assert(text@ =~= old(text)@.push(digit(value as int)));
}

fn push_hex_byte(text: &mut String, value: u8)
    ensures
        final(text)@ == old(text)@ + hex_byte(value),
{
    push_digit(text, value / 16);
    push_digit(text, value % 16);
    assert(text@ =~= old(text)@ + hex_byte(value));
}

fn push_hex_word(text: &mut String, value: u16)
    ensures
        final(text)@ == old(text)@ + hex_word(value),
{
    push_hex_byte(text, (value / 256) as u8);
    push_hex_byte(text, (value % 256) as u8);
    assert(text@ =~= old(text)@ + hex_word(value));
}

fn push_decimal(text: &mut String, value: u8)
    ensures
        final(text)@ == old(text)@ + decimal(value as nat),
{
    reveal_with_fuel(decimal, 3);
    if value >= 100 {
        push_digit(text, value / 100);
    }
    if value >= 10 {
        push_digit(text, (value / 10) % 10);
    }
    push_digit(text, value % 10);
    assert(text@ =~= old(text)@ + decimal(value as nat));
}

impl DeviceFunction {
    /// The identifier as text: the bus and the device as two hexadecimal
    /// digits each, then the function in decimal.
    pub open spec fn text(self) -> Seq<char> {
        hex_byte(self.bus) + ":"@ + hex_byte(self.device) + "."@ + decimal(self.function as nat)
    }

    /// Writes the identifier as `bus:device.function`.
    pub fn to_string(&self) -> (text: String)
        ensures
            text@ == self.text(),
    {
        let mut text = String::new();
        push_hex_byte(&mut text, self.bus);
        text.append(":");
        push_hex_byte(&mut text, self.device);
        text.append(".");
        push_decimal(&mut text, self.function);
        assert(text@ =~= self.text());
        text
    }
}

impl HeaderType {
    /// The name of the header type, with the raw value in decimal after the
    /// name of an unrecognised one.
    pub open spec fn text(self) -> Seq<char> {
        match self {
            HeaderType::Standard => "Standard"@,
            HeaderType::PciPciBridge => "PciPciBridge"@,
            HeaderType::PciCardbusBridge => "PciCardbusBridge"@,
            HeaderType::Unrecognised(raw) => "Unrecognised("@ + decimal(raw as nat) + ")"@,
        }
    }
}

fn push_header_type(text: &mut String, header_type: HeaderType)
    ensures
        final(text)@ == old(text)@ + header_type.text(),
{
    match header_type {
        HeaderType::Standard => text.append("Standard"),
        HeaderType::PciPciBridge => text.append("PciPciBridge"),
        HeaderType::PciCardbusBridge => text.append("PciCardbusBridge"),
        HeaderType::Unrecognised(raw) => {
            text.append("Unrecognised(");
            push_decimal(text, raw);
            text.append(")");
        },
    }
    assert(text@ =~= old(text)@ + header_type.text());
}

impl DeviceFunctionInfo {
    /// The information as text: the vendor and device ids as four
    /// hexadecimal digits each, the class, subclass and revision as two, and
    /// the name of the header type.
    pub open spec fn text(self) -> Seq<char> {
        hex_word(self.vendor_id) + ":"@ + hex_word(self.device_id) + " (class "@ + hex_byte(
            self.class,
        ) + "."@ + hex_byte(self.subclass) + ", rev "@ + hex_byte(self.revision) + ") "@
            + self.header_type.text()
    }

    /// Writes the information as `vendor:device (class class.subclass, rev revision) type`.
    pub fn to_string(&self) -> (text: String)
        ensures
            text@ == self.text(),
    {
        let mut text = String::new();
        push_hex_word(&mut text, self.vendor_id);
        text.append(":");
        push_hex_word(&mut text, self.device_id);
        text.append(" (class ");
        push_hex_byte(&mut text, self.class);
        text.append(".");
        push_hex_byte(&mut text, self.subclass);
        text.append(", rev ");
        push_hex_byte(&mut text, self.revision);
        text.append(") ");
        push_header_type(&mut text, self.header_type);
        assert(text@ =~= self.text());
        text
    }
}

} // verus!

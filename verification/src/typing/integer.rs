//! Integers of one, two, four or eight bytes.

use vstd::arithmetic::power2::{lemma2_to64, lemma2_to64_rest, pow2};
use vstd::prelude::*;
use vstd::std_specs::convert::{FromSpecImpl, TryFromSpecImpl};
use crate::typing::bytes::{read_unsigned, signed_value, unsigned_value};
use crate::typing::render::{decimal_text, hex_string, hex_text, signed_string, unsigned_string};
use crate::typing::{ConversionError, DataType, Endianness};

verus! {

/// Width of an integer.
#[derive(Copy, Clone, Debug, PartialEq, Eq, Structural)]
pub enum IntSize {
    Integer8,
    Integer16,
    Integer32,
    Integer64,
}

impl IntSize {
    /// Bytes in an integer of this width.
    pub open spec fn bytes(self) -> nat {
        match self {
            IntSize::Integer8 => 1,
            IntSize::Integer16 => 2,
            IntSize::Integer32 => 4,
            IntSize::Integer64 => 8,
        }
    }

    /// The width of `n` bytes, where there is one.
    pub open spec fn of_bytes(n: nat) -> Option<IntSize> {
        if n == 1 {
            Some(IntSize::Integer8)
        } else if n == 2 {
            Some(IntSize::Integer16)
        } else if n == 4 {
            Some(IntSize::Integer32)
        } else if n == 8 {
            Some(IntSize::Integer64)
        } else {
            None
        }
    }
}

impl Default for IntSize {
    fn default() -> (r: IntSize)
        ensures
            r == IntSize::Integer32,
    {
        IntSize::Integer32
    }
}

impl From<IntSize> for usize {
    fn from(val: IntSize) -> (n: usize) {
        match val {
            IntSize::Integer8 => 1,
            IntSize::Integer16 => 2,
            IntSize::Integer32 => 4,
            IntSize::Integer64 => 8,
        }
    }
}

impl FromSpecImpl<IntSize> for usize {
    open spec fn obeys_from_spec() -> bool {
        true
    }

    open spec fn from_spec(val: IntSize) -> usize {
        val.bytes() as usize
    }
}

impl TryFrom<usize> for IntSize {
    type Error = &'static str;

    fn try_from(value: usize) -> (r: Result<IntSize, &'static str>) {
        match value {
            1 => Ok(IntSize::Integer8),
            2 => Ok(IntSize::Integer16),
            4 => Ok(IntSize::Integer32),
            8 => Ok(IntSize::Integer64),
            _ => Err("That size is not valid, can only be powers of 2 between 1 and 8."),
        }
    }
}

impl TryFromSpecImpl<usize> for IntSize {
    open spec fn obeys_try_from_spec() -> bool {
        true
    }

    open spec fn try_from_spec(value: usize) -> Result<IntSize, &'static str> {
        match IntSize::of_bytes(value as nat) {
            Some(size) => Ok(size),
            None => Err("That size is not valid, can only be powers of 2 between 1 and 8."),
        }
    }
}

/// What an integer descriptor holds.
pub struct IntegerView {
    pub size: IntSize,
    pub signed: bool,
    pub hex: bool,
    pub endianness: Endianness,
}

/// Describes an integer: its width, whether it is read as two's complement,
/// whether it is shown in hexadecimal, and its byte order.
#[derive(Debug)]
pub struct IntegerDataType {
    size: IntSize,
    signed: bool,
    hex: bool,
    endianness: Endianness,
}

impl View for IntegerDataType {
    type V = IntegerView;

    closed spec fn view(&self) -> IntegerView {
        IntegerView {
            size: self.size,
            signed: self.signed,
            hex: self.hex,
            endianness: self.endianness,
        }
    }
}

impl Clone for IntegerDataType {
    fn clone(&self) -> (r: IntegerDataType)
        ensures
            r == *self,
    {
        IntegerDataType {
            size: self.size,
            signed: self.signed,
            hex: self.hex,
            endianness: self.endianness,
        }
    }
}

/// The text shown for the bytes of an integer: hexadecimal of the unsigned
/// value when `hex` is set, whatever the signedness; else the decimal of the
/// two's complement reading at the width of the data when `signed` is set;
/// else the decimal of the unsigned value.
pub open spec fn integer_text(v: IntegerView, data: Seq<u8>) -> Seq<char> {
    let raw = unsigned_value(v.endianness, data);
    if v.hex {
        hex_text(raw)
    } else if v.signed {
        decimal_text(signed_value(raw, 8 * data.len()))
    } else {
        decimal_text(raw as int)
    }
}

impl Default for IntegerDataType {
    fn default() -> (r: IntegerDataType)
        ensures
            r@ == (IntegerView {
                size: IntSize::Integer32,
                signed: false,
                hex: false,
                endianness: Endianness::Little,
            }),
    {
        IntegerDataType {
            size: IntSize::Integer32,
            signed: false,
            hex: false,
            endianness: Endianness::Little,
        }
    }
}

/// Reads the unsigned number `val`, which fits the width `size`, as two's
/// complement at that width.
fn sign_extend(val: u64, size: IntSize) -> (r: i64)
    requires
        val < pow2(8 * size.bytes()),
    ensures
        r == signed_value(val as nat, 8 * size.bytes()),
{
    proof {
        lemma2_to64();
        lemma2_to64_rest();
    }
    match size {
        IntSize::Integer8 => if val >= 0x80 {
            val as i64 - 0x100
        } else {
            val as i64
        },
        IntSize::Integer16 => if val >= 0x8000 {
            val as i64 - 0x1_0000
        } else {
            val as i64
        },
        IntSize::Integer32 => if val >= 0x8000_0000 {
            val as i64 - 0x1_0000_0000
        } else {
            val as i64
        },
        IntSize::Integer64 => if val >= 0x8000_0000_0000_0000 {
            (val - 0x8000_0000_0000_0000) as i64 + i64::MIN
        } else {
            val as i64
        },
    }
}

impl DataType for IntegerDataType {
    open spec fn size_spec(&self) -> nat {
        self@.size.bytes()
    }

    open spec fn name_spec(&self) -> Seq<char> {
        "Integer"@
    }

    open spec fn decode_spec(&self, data: Seq<u8>) -> Result<Seq<char>, ConversionError> {
        Ok(integer_text(self@, data))
    }

    fn get_size(&self) -> (n: usize) {
        self.size.into()
    }

    fn get_name(&self) -> (s: String) {
        "Integer".to_owned()
    }

    /// A slice of exactly the integer's width always decodes.
    fn bytes_to_string(&self, data: &[u8]) -> (r: Result<String, ConversionError>)
        ensures
            data@.len() == self@.size.bytes() ==> r is Ok,
    {
        if data.len() != self.get_size() {
            return Err(ConversionError::SizeError);
        }
        let val: u64 = match self.size {
            IntSize::Integer8 => {
                proof {
                    lemma_single_byte(self.endianness, data@);
                    lemma2_to64();
                }
                data[0] as u64
            },
            _ => read_unsigned(self.endianness, data),
        };
        let s = if self.hex {
            hex_string(val)
        } else if self.signed {
            signed_string(sign_extend(val, self.size))
        } else {
            unsigned_string(val)
        };
        Ok(s)
    }
}

/// An integer is one, two, four or eight bytes wide, and decoding a slice
/// of exactly its width succeeds, with the text of that integer.
pub proof fn integer_always_decodes(
    dt: &IntegerDataType,
    data: &[u8],
    r: Result<String, ConversionError>,
)
    requires
        call_ensures(<IntegerDataType as DataType>::bytes_to_string, (dt, data), r),
        data@.len() == dt.size_spec(),
    ensures
        data@.len() == 1 || data@.len() == 2 || data@.len() == 4 || data@.len() == 8,
        r matches Ok(s) && s@ == integer_text(dt@, data@),
{
}

/// One byte stands for itself in either byte order.
pub proof fn lemma_single_byte(order: Endianness, data: Seq<u8>)
    requires
        data.len() == 1,
    ensures
        unsigned_value(order, data) == data[0],
{
    reveal_with_fuel(crate::typing::bytes::le_value, 2);
    reveal_with_fuel(crate::typing::bytes::be_value, 2);
}

impl IntegerDataType {
    pub fn int_size(&self) -> (size: IntSize)
        ensures
            size == self@.size,
    {
        self.size
    }

    pub fn is_signed(&self) -> (signed: bool)
        ensures
            signed == self@.signed,
    {
        self.signed
    }

    pub fn is_hex(&self) -> (hex: bool)
        ensures
            hex == self@.hex,
    {
        self.hex
    }

    pub fn endianness(&self) -> (endianness: Endianness)
        ensures
            endianness == self@.endianness,
    {
        self.endianness
    }

    pub fn set_hex(&mut self, hex: bool)
        ensures
            final(self)@ == (IntegerView { hex, ..old(self)@ }),
    {
        self.hex = hex;
    }

    pub fn toggle_hex(&mut self)
        ensures
            final(self)@ == (IntegerView { hex: !old(self)@.hex, ..old(self)@ }),
    {
        self.set_hex(!self.hex);
    }

    pub fn with_hex(self, hex: bool) -> (r: IntegerDataType)
        ensures
            r@ == (IntegerView { hex, ..self@ }),
    {
        let mut r = self;
        r.set_hex(hex);
        r
    }

    pub fn set_signed(&mut self, signed: bool)
        ensures
            final(self)@ == (IntegerView { signed, ..old(self)@ }),
    {
        self.signed = signed;
    }

    pub fn toggle_signed(&mut self)
        ensures
            final(self)@ == (IntegerView { signed: !old(self)@.signed, ..old(self)@ }),
    {
        self.set_signed(!self.signed);
    }

    pub fn with_signed(self, signed: bool) -> (r: IntegerDataType)
        ensures
            r@ == (IntegerView { signed, ..self@ }),
    {
        let mut r = self;
        r.set_signed(signed);
        r
    }

    pub fn set_endianness(&mut self, endianness: Endianness)
        ensures
            final(self)@ == (IntegerView { endianness, ..old(self)@ }),
    {
        self.endianness = endianness;
    }

    pub fn toggle_endianness(&mut self)
        ensures
            final(self)@ == (IntegerView {
                endianness: old(self)@.endianness.flipped(),
                ..old(self)@
            }),
    {
        self.set_endianness(self.endianness.toggle());
    }

    pub fn with_endianness(self, endianness: Endianness) -> (r: IntegerDataType)
        ensures
            r@ == (IntegerView { endianness, ..self@ }),
    {
        let mut r = self;
        r.set_endianness(endianness);
        r
    }

    pub fn set_size(&mut self, size: IntSize)
        ensures
            final(self)@ == (IntegerView { size, ..old(self)@ }),
    {
        self.size = size;
    }

    pub fn with_size(self, size: IntSize) -> (r: IntegerDataType)
        ensures
            r@ == (IntegerView { size, ..self@ }),
    {
        let mut r = self;
        r.set_size(size);
        r
    }
}

} // verus!

//! IEEE-754 numbers in single and double precision.

use byteorder::{BigEndian, ByteOrder, LittleEndian};
use vstd::prelude::*;
use crate::typing::bytes::{be_value, le_value, unsigned_value};
use crate::typing::{ConversionError, DataType, Endianness};

verus! {

/// Precision of a floating-point number.
#[derive(Copy, Clone, Debug, PartialEq, PartialOrd, Structural)]
pub enum FloatPrecision {
    Simple,
    Double,
}

impl FloatPrecision {
    /// Bytes in a number of this precision.
    pub open spec fn bytes(self) -> nat {
        match self {
            FloatPrecision::Simple => 4,
            FloatPrecision::Double => 8,
        }
    }

    /// The other precision.
    pub open spec fn flipped(self) -> FloatPrecision {
        match self {
            FloatPrecision::Simple => FloatPrecision::Double,
            FloatPrecision::Double => FloatPrecision::Simple,
        }
    }

    /// Switches to the other precision.
    pub fn toggle(&self) -> (r: FloatPrecision)
        ensures
            r == self.flipped(),
    {
        match self {
            FloatPrecision::Simple => FloatPrecision::Double,
            FloatPrecision::Double => FloatPrecision::Simple,
        }
    }
}

impl Default for FloatPrecision {
    fn default() -> (r: FloatPrecision)
        ensures
            r == FloatPrecision::Simple,
    {
        FloatPrecision::Simple
    }
}

/// What a floating-point descriptor holds.
pub struct FloatView {
    pub endianness: Endianness,
    pub precision: FloatPrecision,
}

/// Describes a floating-point number: its precision and byte order.
#[derive(Debug)]
pub struct FloatDataType {
    endianness: Endianness,
    precision: FloatPrecision,
}

impl View for FloatDataType {
    type V = FloatView;

    closed spec fn view(&self) -> FloatView {
        FloatView { endianness: self.endianness, precision: self.precision }
    }
}

impl Clone for FloatDataType {
    fn clone(&self) -> (r: FloatDataType)
        ensures
            r == *self,
    {
        FloatDataType { endianness: self.endianness, precision: self.precision }
    }
}

impl Default for FloatDataType {
    fn default() -> (r: FloatDataType)
        ensures
            r@ == (FloatView {
                endianness: Endianness::Little,
                precision: FloatPrecision::Simple,
            }),
    {
        FloatDataType { endianness: Endianness::Little, precision: FloatPrecision::Simple }
    }
}

/// The text that the standard formatter gives, with exactly three digits
/// after the decimal point, for the single-precision number whose IEEE-754
/// bit pattern is `bits`.
pub uninterp spec fn single_text(bits: u32) -> Seq<char>;

/// The text that the standard formatter gives, with exactly three digits
/// after the decimal point, for the double-precision number whose IEEE-754
/// bit pattern is `bits`.
pub uninterp spec fn double_text(bits: u64) -> Seq<char>;

/// The text shown for the bytes of a floating-point number.
pub open spec fn float_text(v: FloatView, data: Seq<u8>) -> Seq<char> {
    match v.precision {
        FloatPrecision::Simple => single_text(unsigned_value(v.endianness, data) as u32),
        FloatPrecision::Double => double_text(unsigned_value(v.endianness, data) as u64),
    }
}

/// Calls `byteorder::BigEndian::read_f32`, which takes the first four bytes
/// of the buffer as the big-endian bit pattern of a single-precision number
/// and panics on a shorter buffer, then formats that number with three
/// digits after the decimal point.
#[verifier::external_body]
fn single_be_string(data: &[u8]) -> (s: String)
    requires
        data@.len() >= 4,
    ensures
        s@ == single_text(be_value(data@.subrange(0, 4)) as u32),
{
    let val = BigEndian::read_f32(data);
    format!("{val:.3}")
}

/// Calls `byteorder::LittleEndian::read_f32`, which takes the first four
/// bytes of the buffer as the little-endian bit pattern of a
/// single-precision number and panics on a shorter buffer, then formats that
/// number with three digits after the decimal point.
#[verifier::external_body]
fn single_le_string(data: &[u8]) -> (s: String)
    requires
        data@.len() >= 4,
    ensures
        s@ == single_text(le_value(data@.subrange(0, 4)) as u32),
{
    let val = LittleEndian::read_f32(data);
    format!("{val:.3}")
}

/// Calls `byteorder::BigEndian::read_f64`, which takes the first eight bytes
/// of the buffer as the big-endian bit pattern of a double-precision number
/// and panics on a shorter buffer, then formats that number with three
/// digits after the decimal point.
#[verifier::external_body]
fn double_be_string(data: &[u8]) -> (s: String)
    requires
        data@.len() >= 8,
    ensures
        s@ == double_text(be_value(data@.subrange(0, 8)) as u64),
{
    let val = BigEndian::read_f64(data);
    format!("{val:.3}")
}

/// Calls `byteorder::LittleEndian::read_f64`, which takes the first eight
/// bytes of the buffer as the little-endian bit pattern of a
/// double-precision number and panics on a shorter buffer, then formats that
/// number with three digits after the decimal point.
#[verifier::external_body]
fn double_le_string(data: &[u8]) -> (s: String)
    requires
        data@.len() >= 8,
    ensures
        s@ == double_text(le_value(data@.subrange(0, 8)) as u64),
{
    let val = LittleEndian::read_f64(data);
    format!("{val:.3}")
}

impl DataType for FloatDataType {
    open spec fn size_spec(&self) -> nat {
        self@.precision.bytes()
    }

    open spec fn name_spec(&self) -> Seq<char> {
        "Float"@
    }

    open spec fn decode_spec(&self, data: Seq<u8>) -> Result<Seq<char>, ConversionError> {
        Ok(float_text(self@, data))
    }

    fn get_size(&self) -> (n: usize) {
        match self.precision {
            FloatPrecision::Simple => 4,
            FloatPrecision::Double => 8,
        }
    }

    fn get_name(&self) -> (s: String) {
        "Float".to_owned()
    }

    /// A slice of exactly the number's width always decodes.
    fn bytes_to_string(&self, data: &[u8]) -> (r: Result<String, ConversionError>)
        ensures
            data@.len() == self@.precision.bytes() ==> r is Ok,
    {
        if data.len() != self.get_size() {
            return Err(ConversionError::SizeError);
        }
        proof {
            assert(data@.subrange(0, data@.len() as int) == data@);
        }
        match self.precision {
            FloatPrecision::Simple => {
                let s = match self.endianness {
                    Endianness::Big => single_be_string(data),
                    Endianness::Little => single_le_string(data),
                };
                Ok(s)
            },
            FloatPrecision::Double => {
                let s = match self.endianness {
                    Endianness::Big => double_be_string(data),
                    Endianness::Little => double_le_string(data),
                };
                Ok(s)
            },
        }
    }
}

impl FloatDataType {
    pub fn precision(&self) -> (precision: FloatPrecision)
        ensures
            precision == self@.precision,
    {
        self.precision
    }

    pub fn endianness(&self) -> (endianness: Endianness)
        ensures
            endianness == self@.endianness,
    {
        self.endianness
    }

    pub fn set_precision(&mut self, precision: FloatPrecision)
        ensures
            final(self)@ == (FloatView { precision, ..old(self)@ }),
    {
        self.precision = precision;
    }

    pub fn toggle_precision(&mut self)
        ensures
            final(self)@ == (FloatView {
                precision: old(self)@.precision.flipped(),
                ..old(self)@
            }),
    {
        self.set_precision(self.precision.toggle());
    }

    pub fn with_precision(self, precision: FloatPrecision) -> (r: FloatDataType)
        ensures
            r@ == (FloatView { precision, ..self@ }),
    {
        let mut r = self;
        r.set_precision(precision);
        r
    }

    pub fn set_endianness(&mut self, endianness: Endianness)
        ensures
            final(self)@ == (FloatView { endianness, ..old(self)@ }),
    {
        self.endianness = endianness;
    }

    pub fn toggle_endianness(&mut self)
        ensures
            final(self)@ == (FloatView {
                endianness: old(self)@.endianness.flipped(),
                ..old(self)@
            }),
    {
        self.set_endianness(self.endianness.toggle());
    }

    pub fn with_endianness(self, endianness: Endianness) -> (r: FloatDataType)
        ensures
            r@ == (FloatView { endianness, ..self@ }),
    {
        let mut r = self;
        r.set_endianness(endianness);
        r
    }
}

} // verus!

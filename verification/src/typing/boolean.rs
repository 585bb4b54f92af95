//! Booleans of any width: true when any byte is set.

use vstd::prelude::*;
use crate::typing::{ConversionError, DataType};

verus! {

/// What a boolean descriptor holds: its width in bytes.
pub struct BooleanView {
    pub size: nat,
}

/// Describes a boolean that occupies `size` bytes.
#[derive(Debug)]
pub struct BooleanDataType {
    size: usize,
}

impl View for BooleanDataType {
    type V = BooleanView;

    closed spec fn view(&self) -> BooleanView {
        BooleanView { size: self.size as nat }
    }
}

impl Clone for BooleanDataType {
    fn clone(&self) -> (r: BooleanDataType)
        ensures
            r == *self,
    {
        BooleanDataType { size: self.size }
    }
}

impl Default for BooleanDataType {
    fn default() -> (r: BooleanDataType)
        ensures
            r@ == (BooleanView { size: 1 }),
    {
        BooleanDataType { size: 1 }
    }
}

/// Whether some byte of `data` is not zero.
pub open spec fn any_nonzero(data: Seq<u8>) -> bool {
    exists|i: int| 0 <= i < data.len() && data[i] != 0
}

/// The text shown for the bytes of a boolean.
pub open spec fn boolean_text(data: Seq<u8>) -> Seq<char> {
    if any_nonzero(data) {
        "true"@
    } else {
        "false"@
    }
}

impl DataType for BooleanDataType {
    open spec fn size_spec(&self) -> nat {
        self@.size
    }

    open spec fn name_spec(&self) -> Seq<char> {
        "Boolean"@
    }

    open spec fn decode_spec(&self, data: Seq<u8>) -> Result<Seq<char>, ConversionError> {
        Ok(boolean_text(data))
    }

    fn get_size(&self) -> (n: usize) {
        self.size
    }

    fn get_name(&self) -> (s: String) {
        "Boolean".to_owned()
    }

    fn bytes_to_string(&self, data: &[u8]) -> (r: Result<String, ConversionError>) {
        if data.len() != self.size {
            return Err(ConversionError::SizeError);
        }
        let mut b = false;
        let mut i: usize = 0;
        while i < data.len()
            invariant
                i <= data@.len(),
                b <==> exists|j: int| 0 <= j < i && data@[j] != 0,
            decreases data@.len() - i,
        {
            if data[i] != 0u8 {
                b = true;
            }
            i = i + 1;
        }
        if b {
            Ok("true".to_owned())
        } else {
            Ok("false".to_owned())
        }
    }
}

impl BooleanDataType {
    pub fn set_size(&mut self, size: usize)
        ensures
            final(self)@ == (BooleanView { size: size as nat }),
    {
        self.size = size;
    }

    pub fn with_size(self, size: usize) -> (r: BooleanDataType)
        ensures
            r@ == (BooleanView { size: size as nat }),
    {
        let mut r = self;
        r.set_size(size);
        r
    }
}

} // verus!

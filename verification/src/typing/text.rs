//! Strings that end at a zero byte within a fixed capacity.

use vstd::prelude::*;
use vstd::slice::slice_subrange;
use vstd::utf8::{decode_utf8, valid_utf8};
use crate::typing::{ConversionError, DataType};

verus! {

/// What a string descriptor holds: its capacity in bytes.
pub struct StrView {
    pub size: nat,
}

/// Describes a string of at most `size` bytes, the terminating zero
/// included.
#[derive(Debug)]
pub struct StrDataType {
    size: usize,
}

impl View for StrDataType {
    type V = StrView;

    closed spec fn view(&self) -> StrView {
        StrView { size: self.size as nat }
    }
}

impl Clone for StrDataType {
    fn clone(&self) -> (r: StrDataType)
        ensures
            r == *self,
    {
        StrDataType { size: self.size }
    }
}

impl Default for StrDataType {
    fn default() -> (r: StrDataType)
        ensures
            r@ == (StrView { size: 0 }),
    {
        StrDataType { size: 0 }
    }
}

/// How many bytes of `data` come before its first zero byte; the length of
/// `data` where it holds none.
pub open spec fn terminator_position(data: Seq<u8>) -> nat
    decreases data.len(),
{
    if data.len() == 0 || data[0] == 0 {
        0
    } else {
        1 + terminator_position(data.drop_first())
    }
}

/// The text that lossy UTF-8 decoding gives for `bytes`: each ill-formed
/// sequence is replaced by U+FFFD.
pub uninterp spec fn lossy_text(bytes: Seq<u8>) -> Seq<char>;

/// The bytes of `data` that come before its first zero byte.
pub open spec fn text_bytes(data: Seq<u8>) -> Seq<u8> {
    data.subrange(0, terminator_position(data) as int)
}

/// What decoding a string gives for `data`: the lossy text of the bytes
/// before the first zero byte, or an error where there is no zero byte.
pub open spec fn terminated_text(data: Seq<u8>) -> Result<Seq<char>, ConversionError> {
    if terminator_position(data) == data.len() {
        Err(ConversionError::CStrUntilNullError)
    } else {
        Ok(lossy_text(text_bytes(data)))
    }
}

/// The terminator position is at most the length, no byte before it is
/// zero, and the byte at it, if there is one, is zero.
pub proof fn lemma_terminator_position(data: Seq<u8>)
    ensures
        terminator_position(data) <= data.len(),
        forall|i: int| 0 <= i < terminator_position(data) ==> data[i] != 0,
        terminator_position(data) < data.len() ==> data[terminator_position(data) as int] == 0,
    decreases data.len(),
{
    if data.len() != 0 && data[0] != 0 {
        let rest = data.drop_first();
        lemma_terminator_position(rest);
        assert forall|i: int| 0 <= i < terminator_position(data) implies data[i] != 0 by {
            if i > 0 {
                assert(data[i] == rest[i - 1]);
            }
        }
    }
}

/// A position that holds zero, with no zero before it, is the terminator
/// position.
pub proof fn lemma_terminator_found(data: Seq<u8>, end: int)
    requires
        0 <= end <= data.len(),
        forall|i: int| 0 <= i < end ==> data[i] != 0,
        end < data.len() ==> data[end] == 0,
    ensures
        terminator_position(data) == end,
{
    lemma_terminator_position(data);
    let found = terminator_position(data) as int;
    if found < end {
        assert(data[found] == 0);
    } else if end < found {
        assert(data[end] != 0);
    }
}

/// Calls `String::from_utf8_lossy`, which decodes well-formed UTF-8 as it
/// stands and puts U+FFFD in place of each ill-formed sequence, and takes
/// the result as an owned string.
#[verifier::external_body]
fn lossy_string(bytes: &[u8]) -> (s: String)
    ensures
        s@ == lossy_text(bytes@),
        valid_utf8(bytes@) ==> s@ == decode_utf8(bytes@),
{
    String::from_utf8_lossy(bytes).into_owned()
}

impl DataType for StrDataType {
    open spec fn size_spec(&self) -> nat {
        self@.size
    }

    open spec fn name_spec(&self) -> Seq<char> {
        "Null terminated string"@
    }

    open spec fn decode_spec(&self, data: Seq<u8>) -> Result<Seq<char>, ConversionError> {
        terminated_text(data)
    }

    fn get_size(&self) -> (n: usize) {
        self.size
    }

    fn get_name(&self) -> (s: String) {
        "Null terminated string".to_owned()
    }

    /// Well-formed UTF-8 before the zero byte is decoded as it stands.
    fn bytes_to_string(&self, data: &[u8]) -> (r: Result<String, ConversionError>)
        ensures
            r matches Ok(s) ==> (valid_utf8(text_bytes(data@)) ==> s@ == decode_utf8(
                text_bytes(data@),
            )),
    {
        if data.len() != self.get_size() {
            return Err(ConversionError::SizeError);
        }
        let mut end: usize = 0;
        while end < data.len() && data[end] != 0u8
            invariant
                end <= data@.len(),
                forall|i: int| 0 <= i < end ==> data@[i] != 0,
            decreases data@.len() - end,
        {
            end = end + 1;
        }
        proof {
            lemma_terminator_found(data@, end as int);
        }
        if end == data.len() {
            return Err(ConversionError::CStrUntilNullError);
        }
        Ok(lossy_string(slice_subrange(data, 0, end)))
    }
}

impl StrDataType {
    pub fn set_size(&mut self, size: usize)
        ensures
            final(self)@ == (StrView { size: size as nat }),
    {
        self.size = size;
    }

    pub fn with_size(self, size: usize) -> (r: StrDataType)
        ensures
            r@ == (StrView { size: size as nat }),
    {
        let mut r = self;
        r.set_size(size);
        r
    }
}

} // verus!

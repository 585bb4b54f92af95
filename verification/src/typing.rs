//! The type model: descriptors that report a byte size and a label, and that
//! decode a byte slice of exactly that size into display text.

pub mod boolean;
pub mod bytes;
pub mod float;
pub mod integer;
pub mod render;
pub mod structure;
pub mod text;

pub use boolean::{BooleanDataType, BooleanView};
pub use float::{FloatDataType, FloatPrecision, FloatView};
pub use integer::{IntSize, IntegerDataType, IntegerView};
pub use structure::{EntryView, StructDataType, StructEntry, StructView};
pub use text::{StrDataType, StrView};

use vstd::prelude::*;
use vstd::std_specs::convert::FromSpecImpl;
use vstd::string::StringExecFns;
use structure::entries_size;

verus! {

/// Byte order used when assembling a multi-byte number.
#[derive(Copy, Clone, Debug, PartialEq, Eq, Structural)]
pub enum Endianness {
    Big,
    Little,
}

impl Endianness {
    /// The other byte order.
    pub open spec fn flipped(self) -> Endianness {
        match self {
            Endianness::Little => Endianness::Big,
            Endianness::Big => Endianness::Little,
        }
    }

    /// Switches to the other byte order.
    pub fn toggle(self) -> (r: Endianness)
        ensures
            r == self.flipped(),
    {
        match self {
            Endianness::Little => Endianness::Big,
            Endianness::Big => Endianness::Little,
        }
    }
}

impl Default for Endianness {
    fn default() -> (r: Endianness)
        ensures
            r == Endianness::Little,
    {
        Endianness::Little
    }
}

/// Width of an address in the inspected process.
#[derive(Copy, Clone, Debug, PartialEq, Eq, Structural)]
pub enum ArchSize {
    Arch32,
    Arch64,
}

impl ArchSize {
    /// Bytes in one address.
    pub open spec fn width(self) -> nat {
        match self {
            ArchSize::Arch32 => 4,
            ArchSize::Arch64 => 8,
        }
    }

    /// Bytes in one address.
    pub fn get_size(&self) -> (n: usize)
        ensures
            n == self.width(),
    {
        match self {
            ArchSize::Arch32 => 4,
            ArchSize::Arch64 => 8,
        }
    }
}

impl Default for ArchSize {
    fn default() -> (r: ArchSize)
        ensures
            r == ArchSize::Arch32,
    {
        ArchSize::Arch32
    }
}

/// Why a byte slice could not be turned into display text.
#[derive(Copy, Clone, Debug, PartialEq, Eq, Structural)]
pub enum ConversionError {
    /// The slice is not exactly as long as the descriptor's size.
    SizeError,
    /// The slice holds no zero byte to end the string.
    CStrUntilNullError,
    /// The descriptor has no scalar text form.
    NotConvertibleError,
}

impl ConversionError {
    /// The sentence shown for this error.
    pub open spec fn message_spec(self) -> Seq<char> {
        match self {
            ConversionError::SizeError => "Provided size does not match with the size of the datatype."@,
            ConversionError::CStrUntilNullError => "The data does not contain a null terminating byte."@,
            ConversionError::NotConvertibleError => "This datatype cannot be converted to string."@,
        }
    }

    /// The sentence shown for this error.
    pub fn message(&self) -> (s: String)
        ensures
            s@ == self.message_spec(),
    {
        let txt = match self {
            ConversionError::SizeError => "Provided size does not match with the size of the datatype.",
            ConversionError::CStrUntilNullError => "The data does not contain a null terminating byte.",
            ConversionError::NotConvertibleError => "This datatype cannot be converted to string.",
        };
        txt.to_owned()
    }
}

/// What a decoding result says, with the text taken by its characters.
pub open spec fn text_of(r: Result<String, ConversionError>) -> Result<Seq<char>, ConversionError> {
    match r {
        Ok(s) => Ok(s@),
        Err(e) => Err(e),
    }
}

/// The contract every descriptor meets: a size and a label that depend on
/// the descriptor alone, and a decoding of slices of exactly that size.
pub trait DataType {
    /// Bytes that a value of this type occupies.
    spec fn size_spec(&self) -> nat;

    /// The label of this type.
    spec fn name_spec(&self) -> Seq<char>;

    /// What decoding gives for a slice of exactly `size_spec()` bytes.
    spec fn decode_spec(&self, data: Seq<u8>) -> Result<Seq<char>, ConversionError>;

    /// Bytes that a value of this type occupies.
    fn get_size(&self) -> (n: usize)
        ensures
            n == self.size_spec(),
    ;

    /// The label of this type.
    fn get_name(&self) -> (s: String)
        ensures
            s@ == self.name_spec(),
    ;

    /// Decodes `data` into display text. A slice of any other length than
    /// the size is refused with `SizeError`, whatever the type.
    fn bytes_to_string(&self, data: &[u8]) -> (r: Result<String, ConversionError>)
        ensures
            data@.len() != self.size_spec() ==> r == Err::<String, ConversionError>(
                ConversionError::SizeError,
            ),
            data@.len() == self.size_spec() ==> text_of(r) == self.decode_spec(data@),
    ;
}

/// Any descriptor of the type model.
#[derive(Debug)]
pub enum DataTypeEnum {
    IntegerDataType(IntegerDataType),
    BooleanDataType(BooleanDataType),
    FloatDataType(FloatDataType),
    StrDataType(StrDataType),
    StructDataType(StructDataType),
    PointerDataType(PointerDataType),
    ArrayDataType(ArrayDataType),
}

/// What a pointer descriptor holds.
pub struct PointerView {
    pub pointee: DataTypeEnum,
    pub arch: ArchSize,
}

/// Describes an address of a value of another type. Its size is the address
/// width it was made for.
#[derive(Debug)]
pub struct PointerDataType {
    pub(crate) pointed_datatype: Box<DataTypeEnum>,
    pub(crate) arch: ArchSize,
}

impl View for PointerDataType {
    type V = PointerView;

    open(crate) spec fn view(&self) -> PointerView {
        PointerView { pointee: *self.pointed_datatype, arch: self.arch }
    }
}

/// What an array descriptor holds.
pub struct ArrayView {
    pub element: DataTypeEnum,
    pub count: nat,
}

/// Describes `count` values of one element type, laid out one after
/// another. The size of the whole always fits a `usize`.
#[derive(Debug)]
pub struct ArrayDataType {
    pub(crate) element_datatype: Box<DataTypeEnum>,
    pub(crate) size: usize,
}

impl View for ArrayDataType {
    type V = ArrayView;

    open(crate) spec fn view(&self) -> ArrayView {
        ArrayView { element: *self.element_datatype, count: self.size as nat }
    }
}

/// Bytes that a value described by `dt` occupies: a function of the
/// descriptor alone.
pub open spec fn size_of(dt: DataTypeEnum) -> nat
    decreases dt,
{
    match dt {
        DataTypeEnum::IntegerDataType(t) => t@.size.bytes(),
        DataTypeEnum::BooleanDataType(t) => t@.size,
        DataTypeEnum::FloatDataType(t) => t@.precision.bytes(),
        DataTypeEnum::StrDataType(t) => t@.size,
        DataTypeEnum::StructDataType(t) => entries_size(t@.entries),
        DataTypeEnum::PointerDataType(t) => t@.arch.width(),
        DataTypeEnum::ArrayDataType(t) => size_of(t@.element) * t@.count,
    }
}

/// The label of the type described by `dt`.
pub open spec fn name_of(dt: DataTypeEnum) -> Seq<char>
    decreases dt,
{
    match dt {
        DataTypeEnum::IntegerDataType(t) => "Integer"@,
        DataTypeEnum::BooleanDataType(t) => "Boolean"@,
        DataTypeEnum::FloatDataType(t) => "Float"@,
        DataTypeEnum::StrDataType(t) => "Null terminated string"@,
        DataTypeEnum::StructDataType(t) => t@.name,
        DataTypeEnum::PointerDataType(t) => "Pointer to "@ + name_of(t@.pointee),
        DataTypeEnum::ArrayDataType(t) => "Array of "@ + name_of(t@.element),
    }
}

/// Whether two descriptors describe the same type: they are of the same
/// kind with the same settings, and their parts are alike in turn. The
/// entries of two structures that are alike agree in name, size and offset.
pub open spec fn alike(a: DataTypeEnum, b: DataTypeEnum) -> bool
    decreases a,
{
    match (a, b) {
        (DataTypeEnum::IntegerDataType(x), DataTypeEnum::IntegerDataType(y)) => x@ == y@,
        (DataTypeEnum::BooleanDataType(x), DataTypeEnum::BooleanDataType(y)) => x@ == y@,
        (DataTypeEnum::FloatDataType(x), DataTypeEnum::FloatDataType(y)) => x@ == y@,
        (DataTypeEnum::StrDataType(x), DataTypeEnum::StrDataType(y)) => x@ == y@,
        (DataTypeEnum::StructDataType(x), DataTypeEnum::StructDataType(y)) => {
            &&& x@.name == y@.name
            &&& x@.entries.len() == y@.entries.len()
            &&& forall|i: int|
                0 <= i < x@.entries.len() ==> {
                    &&& (#[trigger] x@.entries[i])@.name == y@.entries[i]@.name
                    &&& x@.entries[i]@.size == y@.entries[i]@.size
                    &&& x@.entries[i]@.offset == y@.entries[i]@.offset
                    &&& alike(x@.entries[i]@.datatype, y@.entries[i]@.datatype)
                }
        },
        (DataTypeEnum::PointerDataType(x), DataTypeEnum::PointerDataType(y)) => {
            &&& x@.arch == y@.arch
            &&& alike(x@.pointee, y@.pointee)
        },
        (DataTypeEnum::ArrayDataType(x), DataTypeEnum::ArrayDataType(y)) => {
            &&& x@.count == y@.count
            &&& alike(x@.element, y@.element)
        },
        _ => false,
    }
}

/// Descriptors that are alike have the same size and the same label, and
/// decode every slice to the same result.
pub proof fn lemma_alike(a: DataTypeEnum, b: DataTypeEnum)
    requires
        alike(a, b),
    ensures
        size_of(a) == size_of(b),
        name_of(a) == name_of(b),
        forall|data: Seq<u8>| a.decode_spec(data) == b.decode_spec(data),
    decreases a,
{
    match (a, b) {
        (DataTypeEnum::StructDataType(x), DataTypeEnum::StructDataType(y)) => {
            structure::lemma_same_sizes(x@.entries, y@.entries, x@.entries.len() as int);
            assert(x@.entries.take(x@.entries.len() as int) == x@.entries);
            assert(y@.entries.take(x@.entries.len() as int) == y@.entries);
        },
        (DataTypeEnum::PointerDataType(x), DataTypeEnum::PointerDataType(y)) => {
            lemma_alike(x@.pointee, y@.pointee);
        },
        (DataTypeEnum::ArrayDataType(x), DataTypeEnum::ArrayDataType(y)) => {
            lemma_alike(x@.element, y@.element);
        },
        _ => {},
    }
}

/// Every descriptor is alike to itself.
pub proof fn alike_is_reflexive(a: DataTypeEnum)
    ensures
        alike(a, a),
    decreases a,
{
    match a {
        DataTypeEnum::StructDataType(x) => {
            assert forall|i: int| 0 <= i < x@.entries.len() implies alike(
                (#[trigger] x@.entries[i])@.datatype,
                x@.entries[i]@.datatype,
            ) by {
                alike_is_reflexive(x@.entries[i]@.datatype);
            }
        },
        DataTypeEnum::PointerDataType(x) => {
            alike_is_reflexive(x@.pointee);
        },
        DataTypeEnum::ArrayDataType(x) => {
            alike_is_reflexive(x@.element);
        },
        _ => {},
    }
}

impl PointerDataType {
    /// A pointer to values described by `pointee`, in a process whose
    /// addresses have the width `arch`.
    pub fn new(pointee: DataTypeEnum, arch: ArchSize) -> (r: PointerDataType)
        ensures
            r@ == (PointerView { pointee, arch }),
    {
        PointerDataType { pointed_datatype: Box::new(pointee), arch }
    }

    /// The descriptor of the values pointed to.
    pub fn pointee(&self) -> (pointee: &DataTypeEnum)
        ensures
            *pointee == self@.pointee,
    {
        &*self.pointed_datatype
    }

    /// The address width that the pointer was made for.
    pub fn arch(&self) -> (arch: ArchSize)
        ensures
            arch == self@.arch,
    {
        self.arch
    }
}

impl Clone for PointerDataType {
    /// The copy is alike to what it was made from.
    fn clone(&self) -> (r: PointerDataType)
        ensures
            alike(DataTypeEnum::PointerDataType(*self), DataTypeEnum::PointerDataType(r)),
        decreases self,
    {
        PointerDataType {
            pointed_datatype: Box::new((*self.pointed_datatype).clone()),
            arch: self.arch,
        }
    }
}

impl DataType for PointerDataType {
    open spec fn size_spec(&self) -> nat {
        self@.arch.width()
    }

    open spec fn name_spec(&self) -> Seq<char> {
        "Pointer to "@ + name_of(self@.pointee)
    }

    open spec fn decode_spec(&self, data: Seq<u8>) -> Result<Seq<char>, ConversionError> {
        Err(ConversionError::NotConvertibleError)
    }

    fn get_size(&self) -> (n: usize) {
        self.arch.get_size()
    }

    fn get_name(&self) -> (s: String)
        decreases self,
    {
        let inner = self.pointed_datatype.get_name();
        "Pointer to ".to_owned().concat(inner.as_str())
    }

    fn bytes_to_string(&self, data: &[u8]) -> (r: Result<String, ConversionError>) {
        if data.len() != self.get_size() {
            return Err(ConversionError::SizeError);
        }
        Err(ConversionError::NotConvertibleError)
    }
}

impl ArrayDataType {
    #[verifier::type_invariant]
    spec fn fits(&self) -> bool {
        size_of(*self.element_datatype) * self.size <= usize::MAX
    }

    /// An array of `count` values described by `element`, where the size of
    /// the whole fits a `usize`; `None` where it does not.
    pub fn new(element: DataTypeEnum, count: usize) -> (r: Option<ArrayDataType>)
        ensures
            r is Some <==> size_of(element) * count <= usize::MAX,
            r matches Some(a) ==> a@ == (ArrayView { element, count: count as nat }),
    {
        let width = element.get_size();
        match width.checked_mul(count) {
            Some(_) => Some(ArrayDataType { element_datatype: Box::new(element), size: count }),
            None => None,
        }
    }

    /// The descriptor of one element.
    pub fn element(&self) -> (element: &DataTypeEnum)
        ensures
            *element == self@.element,
    {
        &*self.element_datatype
    }

    /// The number of elements.
    pub fn count(&self) -> (count: usize)
        ensures
            count == self@.count,
    {
        self.size
    }
}

impl Clone for ArrayDataType {
    /// The copy is alike to what it was made from.
    fn clone(&self) -> (r: ArrayDataType)
        ensures
            alike(DataTypeEnum::ArrayDataType(*self), DataTypeEnum::ArrayDataType(r)),
        decreases self,
    {
        proof {
            use_type_invariant(self);
        }
        let element = (*self.element_datatype).clone();
        proof {
            lemma_alike(*self.element_datatype, element);
        }
        ArrayDataType { element_datatype: Box::new(element), size: self.size }
    }
}

impl DataType for ArrayDataType {
    open spec fn size_spec(&self) -> nat {
        size_of(self@.element) * self@.count
    }

    open spec fn name_spec(&self) -> Seq<char> {
        "Array of "@ + name_of(self@.element)
    }

    open spec fn decode_spec(&self, data: Seq<u8>) -> Result<Seq<char>, ConversionError> {
        Err(ConversionError::NotConvertibleError)
    }

    fn get_size(&self) -> (n: usize)
        decreases self,
    {
        proof {
            use_type_invariant(self);
        }
        self.element_datatype.get_size() * self.size
    }

    fn get_name(&self) -> (s: String)
        decreases self,
    {
        let inner = self.element_datatype.get_name();
        "Array of ".to_owned().concat(inner.as_str())
    }

    fn bytes_to_string(&self, data: &[u8]) -> (r: Result<String, ConversionError>) {
        if data.len() != self.get_size() {
            return Err(ConversionError::SizeError);
        }
        Err(ConversionError::NotConvertibleError)
    }
}

impl Clone for DataTypeEnum {
    /// The copy is alike to what it was made from.
    fn clone(&self) -> (r: DataTypeEnum)
        ensures
            alike(*self, r),
        decreases self,
    {
        match self {
            DataTypeEnum::IntegerDataType(t) => DataTypeEnum::IntegerDataType(t.clone()),
            DataTypeEnum::BooleanDataType(t) => DataTypeEnum::BooleanDataType(t.clone()),
            DataTypeEnum::FloatDataType(t) => DataTypeEnum::FloatDataType(t.clone()),
            DataTypeEnum::StrDataType(t) => DataTypeEnum::StrDataType(t.clone()),
            DataTypeEnum::StructDataType(t) => DataTypeEnum::StructDataType(t.clone()),
            DataTypeEnum::PointerDataType(t) => DataTypeEnum::PointerDataType(t.clone()),
            DataTypeEnum::ArrayDataType(t) => DataTypeEnum::ArrayDataType(t.clone()),
        }
    }
}

impl DataType for DataTypeEnum {
    open spec fn size_spec(&self) -> nat {
        size_of(*self)
    }

    open spec fn name_spec(&self) -> Seq<char> {
        name_of(*self)
    }

    open spec fn decode_spec(&self, data: Seq<u8>) -> Result<Seq<char>, ConversionError> {
        match *self {
            DataTypeEnum::IntegerDataType(t) => t.decode_spec(data),
            DataTypeEnum::BooleanDataType(t) => t.decode_spec(data),
            DataTypeEnum::FloatDataType(t) => t.decode_spec(data),
            DataTypeEnum::StrDataType(t) => t.decode_spec(data),
            DataTypeEnum::StructDataType(t) => t.decode_spec(data),
            DataTypeEnum::PointerDataType(t) => t.decode_spec(data),
            DataTypeEnum::ArrayDataType(t) => t.decode_spec(data),
        }
    }

    fn get_size(&self) -> (n: usize)
        decreases self,
    {
        match self {
            DataTypeEnum::IntegerDataType(t) => t.get_size(),
            DataTypeEnum::BooleanDataType(t) => t.get_size(),
            DataTypeEnum::FloatDataType(t) => t.get_size(),
            DataTypeEnum::StrDataType(t) => t.get_size(),
            DataTypeEnum::StructDataType(t) => t.get_size(),
            DataTypeEnum::PointerDataType(t) => t.get_size(),
            DataTypeEnum::ArrayDataType(t) => t.get_size(),
        }
    }

    fn get_name(&self) -> (s: String)
        decreases self,
    {
        match self {
            DataTypeEnum::IntegerDataType(t) => t.get_name(),
            DataTypeEnum::BooleanDataType(t) => t.get_name(),
            DataTypeEnum::FloatDataType(t) => t.get_name(),
            DataTypeEnum::StrDataType(t) => t.get_name(),
            DataTypeEnum::StructDataType(t) => t.get_name(),
            DataTypeEnum::PointerDataType(t) => t.get_name(),
            DataTypeEnum::ArrayDataType(t) => t.get_name(),
        }
    }

    fn bytes_to_string(&self, data: &[u8]) -> (r: Result<String, ConversionError>) {
        match self {
            DataTypeEnum::IntegerDataType(t) => t.bytes_to_string(data),
            DataTypeEnum::BooleanDataType(t) => t.bytes_to_string(data),
            DataTypeEnum::FloatDataType(t) => t.bytes_to_string(data),
            DataTypeEnum::StrDataType(t) => t.bytes_to_string(data),
            DataTypeEnum::StructDataType(t) => t.bytes_to_string(data),
            DataTypeEnum::PointerDataType(t) => t.bytes_to_string(data),
            DataTypeEnum::ArrayDataType(t) => t.bytes_to_string(data),
        }
    }
}

/// Asking a descriptor for its size twice, with nothing changed in
/// between, gives the same number both times.
pub proof fn size_is_repeatable<T: DataType>(dt: &T, first: usize, second: usize)
    requires
        call_ensures(T::get_size, (dt,), first),
        call_ensures(T::get_size, (dt,), second),
    ensures
        first == second,
{
}

/// Asking a descriptor for its label twice, with nothing changed in
/// between, gives the same text both times.
pub proof fn name_is_repeatable<T: DataType>(dt: &T, first: String, second: String)
    requires
        call_ensures(T::get_name, (dt,), first),
        call_ensures(T::get_name, (dt,), second),
    ensures
        first@ == second@,
{
}

/// Whatever the descriptor, decoding a slice of another length than its
/// size reports `SizeError`.
pub proof fn wrong_length_is_refused<T: DataType>(
    dt: &T,
    data: &[u8],
    r: Result<String, ConversionError>,
)
    requires
        call_ensures(T::bytes_to_string, (dt, data), r),
        data@.len() != dt.size_spec(),
    ensures
        r == Err::<String, ConversionError>(ConversionError::SizeError),
{
}

/// The size that an array reports is the size of its element times the
/// number of elements, so an array of no elements reports zero.
pub proof fn array_size_is_product(array: &ArrayDataType, n: usize)
    requires
        call_ensures(<ArrayDataType as DataType>::get_size, (array,), n),
    ensures
        n == size_of(array@.element) * array@.count,
        array@.count == 0 ==> n == 0,
{
}

impl From<IntegerDataType> for DataTypeEnum {
    fn from(v: IntegerDataType) -> (r: DataTypeEnum) {
        DataTypeEnum::IntegerDataType(v)
    }
}

impl FromSpecImpl<IntegerDataType> for DataTypeEnum {
    open spec fn obeys_from_spec() -> bool {
        true
    }

    open spec fn from_spec(v: IntegerDataType) -> DataTypeEnum {
        DataTypeEnum::IntegerDataType(v)
    }
}

impl From<BooleanDataType> for DataTypeEnum {
    fn from(v: BooleanDataType) -> (r: DataTypeEnum) {
        DataTypeEnum::BooleanDataType(v)
    }
}

impl FromSpecImpl<BooleanDataType> for DataTypeEnum {
    open spec fn obeys_from_spec() -> bool {
        true
    }

    open spec fn from_spec(v: BooleanDataType) -> DataTypeEnum {
        DataTypeEnum::BooleanDataType(v)
    }
}

impl From<FloatDataType> for DataTypeEnum {
    fn from(v: FloatDataType) -> (r: DataTypeEnum) {
        DataTypeEnum::FloatDataType(v)
    }
}

impl FromSpecImpl<FloatDataType> for DataTypeEnum {
    open spec fn obeys_from_spec() -> bool {
        true
    }

    open spec fn from_spec(v: FloatDataType) -> DataTypeEnum {
        DataTypeEnum::FloatDataType(v)
    }
}

impl From<StrDataType> for DataTypeEnum {
    fn from(v: StrDataType) -> (r: DataTypeEnum) {
        DataTypeEnum::StrDataType(v)
    }
}

impl FromSpecImpl<StrDataType> for DataTypeEnum {
    open spec fn obeys_from_spec() -> bool {
        true
    }

    open spec fn from_spec(v: StrDataType) -> DataTypeEnum {
        DataTypeEnum::StrDataType(v)
    }
}

impl From<StructDataType> for DataTypeEnum {
    fn from(v: StructDataType) -> (r: DataTypeEnum) {
        DataTypeEnum::StructDataType(v)
    }
}

impl FromSpecImpl<StructDataType> for DataTypeEnum {
    open spec fn obeys_from_spec() -> bool {
        true
    }

    open spec fn from_spec(v: StructDataType) -> DataTypeEnum {
        DataTypeEnum::StructDataType(v)
    }
}

impl From<PointerDataType> for DataTypeEnum {
    fn from(v: PointerDataType) -> (r: DataTypeEnum) {
        DataTypeEnum::PointerDataType(v)
    }
}

impl FromSpecImpl<PointerDataType> for DataTypeEnum {
    open spec fn obeys_from_spec() -> bool {
        true
    }

    open spec fn from_spec(v: PointerDataType) -> DataTypeEnum {
        DataTypeEnum::PointerDataType(v)
    }
}

impl From<ArrayDataType> for DataTypeEnum {
    fn from(v: ArrayDataType) -> (r: DataTypeEnum) {
        DataTypeEnum::ArrayDataType(v)
    }
}

impl FromSpecImpl<ArrayDataType> for DataTypeEnum {
    open spec fn obeys_from_spec() -> bool {
        true
    }

    open spec fn from_spec(v: ArrayDataType) -> DataTypeEnum {
        DataTypeEnum::ArrayDataType(v)
    }
}

} // verus!

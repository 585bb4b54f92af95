//! Structures: named entries laid out one after another.

use vstd::prelude::*;
use crate::typing::{alike, lemma_alike, size_of, ConversionError, DataType, DataTypeEnum};

verus! {

/// What an entry holds.
pub struct EntryView {
    pub name: Seq<char>,
    pub size: nat,
    pub offset: nat,
    pub datatype: DataTypeEnum,
}

/// A named slot of a structure. Its size is always the size of its
/// descriptor.
#[derive(Debug)]
pub struct StructEntry {
    pub(crate) name: String,
    pub(crate) size: usize,
    pub(crate) offset: usize,
    pub(crate) datatype: DataTypeEnum,
}

impl View for StructEntry {
    type V = EntryView;

    open(crate) spec fn view(&self) -> EntryView {
        EntryView {
            name: self.name@,
            size: self.size as nat,
            offset: self.offset as nat,
            datatype: self.datatype,
        }
    }
}

/// The sizes of `entries`, added up.
pub open spec fn entries_size(entries: Seq<StructEntry>) -> nat
    decreases entries.len(),
{
    if entries.len() == 0 {
        0
    } else {
        entries_size(entries.drop_last()) + entries.last()@.size
    }
}

/// What a structure holds.
pub struct StructView {
    pub name: Seq<char>,
    pub entries: Seq<StructEntry>,
}

/// A named sequence of entries.
#[derive(Debug)]
pub struct StructDataType {
    pub(crate) name: String,
    pub(crate) entries: Vec<StructEntry>,
}

impl View for StructDataType {
    type V = StructView;

    open(crate) spec fn view(&self) -> StructView {
        StructView { name: self.name@, entries: self.entries@ }
    }
}

/// Whether each entry starts where the entries before it end.
pub open spec fn laid_out(entries: Seq<StructEntry>) -> bool {
    forall|i: int|
        0 <= i < entries.len() ==> (#[trigger] entries[i])@.offset == entries_size(entries.take(i))
}

/// A run of entries from the start is no larger than the whole.
pub proof fn lemma_prefix_size(entries: Seq<StructEntry>, i: int)
    requires
        0 <= i <= entries.len(),
    ensures
        entries_size(entries.take(i)) <= entries_size(entries),
    decreases entries.len(),
{
    if i < entries.len() {
        assert(entries.drop_last().take(i) == entries.take(i));
        lemma_prefix_size(entries.drop_last(), i);
    } else {
        assert(entries.take(i) == entries);
    }
}

/// Two runs of entries of the same sizes, one by one, have the same size.
pub proof fn lemma_same_sizes(a: Seq<StructEntry>, b: Seq<StructEntry>, n: int)
    requires
        0 <= n <= a.len(),
        n <= b.len(),
        forall|i: int| 0 <= i < n ==> (#[trigger] a[i])@.size == b[i]@.size,
    ensures
        entries_size(a.take(n)) == entries_size(b.take(n)),
    decreases n,
{
    if n > 0 {
        lemma_same_sizes(a, b, n - 1);
        assert(a.take(n).drop_last() == a.take(n - 1));
        assert(b.take(n).drop_last() == b.take(n - 1));
    }
}

/// Entries with the sizes and the offsets of entries that are laid out are
/// laid out too, and have the same size in all.
pub proof fn lemma_same_layout(a: Seq<StructEntry>, b: Seq<StructEntry>)
    requires
        laid_out(a),
        a.len() == b.len(),
        forall|i: int|
            0 <= i < a.len() ==> (#[trigger] a[i])@.size == b[i]@.size && a[i]@.offset
                == b[i]@.offset,
    ensures
        laid_out(b),
        entries_size(b) == entries_size(a),
{
    assert forall|k: int| 0 <= k <= a.len() implies entries_size(a.take(k)) == entries_size(
        b.take(k),
    ) by {
        lemma_same_sizes(a, b, k);
    }
    assert(a.take(a.len() as int) == a);
    assert(b.take(a.len() as int) == b);
    assert forall|k: int| 0 <= k < b.len() implies (#[trigger] b[k])@.offset == entries_size(
        b.take(k),
    ) by {
        assert(a[k]@.offset == b[k]@.offset);
    }
}

impl StructDataType {
    #[verifier::type_invariant]
    spec fn well_formed(&self) -> bool {
        &&& laid_out(self.entries@)
        &&& entries_size(self.entries@) <= usize::MAX
    }
}

impl StructEntry {
    #[verifier::type_invariant]
    spec fn in_sync(&self) -> bool {
        self.size == size_of(self.datatype)
    }

    /// An entry for a value described by `datatype`, at offset zero.
    pub fn new(name: String, datatype: DataTypeEnum) -> (r: StructEntry)
        ensures
            r@ == (EntryView { name: name@, size: size_of(datatype), offset: 0, datatype }),
    {
        StructEntry { name, size: datatype.get_size(), offset: 0usize, datatype }
    }

    pub fn set_name(&mut self, name: String)
        ensures
            final(self)@ == (EntryView { name: name@, ..old(self)@ }),
    {
        proof {
            use_type_invariant(&*self);
        }
        self.name = name;
    }

    pub fn get_name(&self) -> (name: &String)
        ensures
            name@ == self@.name,
    {
        &self.name
    }

    pub fn get_datatype(&self) -> (datatype: &DataTypeEnum)
        ensures
            *datatype == self@.datatype,
    {
        &self.datatype
    }

    /// Replaces the descriptor, and the size with it. The offset stays.
    pub fn set_dataype(&mut self, datatype: DataTypeEnum)
        ensures
            final(self)@ == (EntryView { size: size_of(datatype), datatype, ..old(self)@ }),
    {
        proof {
            use_type_invariant(&*self);
        }
        let mut name = String::new();
        core::mem::swap(&mut self.name, &mut name);
        *self = StructEntry { name, size: datatype.get_size(), offset: self.offset, datatype };
    }

    /// The size of the entry, which is the size of its descriptor.
    pub fn get_size(&self) -> (n: usize)
        ensures
            n == self@.size,
            n == size_of(self@.datatype),
    {
        proof {
            use_type_invariant(self);
        }
        self.size
    }

    /// Where the entry starts within its structure.
    pub fn get_offset(&self) -> (n: usize)
        ensures
            n == self@.offset,
    {
        self.offset
    }

    fn place(&mut self, offset: usize)
        ensures
            final(self)@ == (EntryView { offset: offset as nat, ..old(self)@ }),
    {
        proof {
            use_type_invariant(&*self);
        }
        self.offset = offset;
    }
}

/// Whether `placed` holds the entries of `given`, in their order, each moved
/// to where the entries before it end.
pub open spec fn repositioned(given: Seq<StructEntry>, placed: Seq<StructEntry>) -> bool {
    &&& placed.len() == given.len()
    &&& forall|i: int|
        0 <= i < given.len() ==> (#[trigger] placed[i])@ == (EntryView {
            offset: entries_size(given.take(i)),
            ..given[i]@
        })
}

/// Entries that were moved to where those before them end are laid out, and
/// have the size that they had.
pub proof fn lemma_repositioned(given: Seq<StructEntry>, placed: Seq<StructEntry>)
    requires
        repositioned(given, placed),
    ensures
        laid_out(placed),
        entries_size(placed) == entries_size(given),
{
    assert forall|i: int| 0 <= i <= placed.len() implies entries_size(placed.take(i))
        == entries_size(given.take(i)) by {
        lemma_same_sizes(placed, given, i);
    }
    assert(placed.take(placed.len() as int) == placed);
    assert(given.take(given.len() as int) == given);
}

/// Moves each entry to where the entries before it end.
fn lay_out(entries: &mut Vec<StructEntry>)
    requires
        entries_size(old(entries)@) <= usize::MAX,
    ensures
        repositioned(old(entries)@, final(entries)@),
{
    let mut next: usize = 0;
    let mut i: usize = 0;
    while i < entries.len()
        invariant
            i <= entries@.len(),
            entries@.len() == old(entries)@.len(),
            next == entries_size(old(entries)@.take(i as int)),
            entries_size(old(entries)@) <= usize::MAX,
            forall|j: int|
                0 <= j < i ==> (#[trigger] entries@[j])@ == (EntryView {
                    offset: entries_size(old(entries)@.take(j)),
                    ..old(entries)@[j]@
                }),
            forall|j: int| i <= j < entries@.len() ==> entries@[j] == old(entries)@[j],
        decreases entries@.len() - i,
    {
        proof {
            assert(old(entries)@.take(i + 1).drop_last() == old(entries)@.take(i as int));
            lemma_prefix_size(old(entries)@, i + 1);
        }
        entries[i].place(next);
        next = next + entries[i].size;
        i = i + 1;
    }
}

impl Default for StructDataType {
    fn default() -> (r: StructDataType)
        ensures
            r@ == (StructView { name: "STRUCT"@, entries: Seq::empty() }),
    {
        StructDataType { name: "STRUCT".to_owned(), entries: Vec::new() }
    }
}

impl StructDataType {
    /// A structure of the given entries, in their order, each moved to
    /// where the entries before it end.
    pub fn new(name: String, entries: Vec<StructEntry>) -> (r: StructDataType)
        requires
            entries_size(entries@) <= usize::MAX,
        ensures
            r@.name == name@,
            repositioned(entries@, r@.entries),
            laid_out(r@.entries),
            r.size_spec() == entries_size(entries@),
    {
        let mut placed = entries;
        lay_out(&mut placed);
        proof {
            lemma_repositioned(entries@, placed@);
        }
        StructDataType { name, entries: placed }
    }

    /// The entries, each of which starts where the entries before it end.
    pub fn get_entries(&self) -> (entries: &Vec<StructEntry>)
        ensures
            entries@ == self@.entries,
            laid_out(entries@),
            entries_size(entries@) <= usize::MAX,
    {
        proof {
            use_type_invariant(self);
        }
        &self.entries
    }

    /// Appends `e`, moved to where the entries so far end.
    pub fn push_entry(&mut self, e: StructEntry)
        requires
            entries_size(old(self)@.entries) + e@.size <= usize::MAX,
        ensures
            final(self)@.name == old(self)@.name,
            final(self)@.entries.len() == old(self)@.entries.len() + 1,
            final(self)@.entries.drop_last() == old(self)@.entries,
            final(self)@.entries.last()@ == (EntryView {
                offset: entries_size(old(self)@.entries),
                ..e@
            }),
            final(self).size_spec() == old(self).size_spec() + e@.size,
            laid_out(final(self)@.entries),
    {
        proof {
            use_type_invariant(&*self);
        }
        let mut e = e;
        let mut entries: Vec<StructEntry> = Vec::new();
        core::mem::swap(&mut self.entries, &mut entries);
        let count = entries.len();
        let offset = if count == 0 {
            0
        } else {
            proof {
                assert(entries@.take(count as int) == entries@);
                assert(entries@.take(count as int).drop_last() == entries@.take(count - 1));
            }
            entries[count - 1].offset + entries[count - 1].size
        };
        e.place(offset);
        entries.push(e);
        proof {
            assert(entries@.drop_last() == old(self).entries@);
            assert forall|i: int| 0 <= i < entries@.len() implies (#[trigger] entries@[i])@.offset
                == entries_size(entries@.take(i)) by {
                if i < count {
                    assert(entries@.take(i) == old(self).entries@.take(i));
                } else {
                    assert(entries@.take(i) == old(self).entries@);
                }
            }
        }
        core::mem::swap(&mut self.entries, &mut entries);
    }

    /// Puts `e` before the entry at `idx`, or at the end where `idx` is the
    /// number of entries, and moves every entry to where the entries before
    /// it end.
    pub fn insert_entry(&mut self, idx: usize, e: StructEntry)
        requires
            idx <= old(self)@.entries.len(),
            entries_size(old(self)@.entries) + e@.size <= usize::MAX,
        ensures
            final(self)@.name == old(self)@.name,
            repositioned(old(self)@.entries.insert(idx as int, e), final(self)@.entries),
            final(self).size_spec() == old(self).size_spec() + e@.size,
            laid_out(final(self)@.entries),
    {
        proof {
            use_type_invariant(&*self);
        }
        let mut entries: Vec<StructEntry> = Vec::new();
        core::mem::swap(&mut self.entries, &mut entries);
        entries.insert(idx, e);
        let ghost inserted = entries@;
        proof {
            lemma_insert_size(old(self).entries@, idx as int, e);
        }
        lay_out(&mut entries);
        proof {
            lemma_repositioned(inserted, entries@);
        }
        core::mem::swap(&mut self.entries, &mut entries);
    }
}

/// In a laid-out run of entries, an entry ends no later than where any
/// later entry starts, and no later than where the whole ends: no two
/// entries overlap.
pub proof fn entries_do_not_overlap(entries: Seq<StructEntry>, i: int, j: int)
    requires
        laid_out(entries),
        0 <= i < j < entries.len(),
    ensures
        entries[i]@.offset + entries[i]@.size <= entries[j]@.offset,
        entries[j]@.offset + entries[j]@.size <= entries_size(entries),
{
    assert(entries.take(i + 1).drop_last() == entries.take(i));
    assert(entries.take(j).take(i + 1) == entries.take(i + 1));
    lemma_prefix_size(entries.take(j), i + 1);
    assert(entries.take(j + 1).drop_last() == entries.take(j));
    lemma_prefix_size(entries, j + 1);
}

/// An entry put into a run of entries adds its size to theirs.
pub proof fn lemma_insert_size(entries: Seq<StructEntry>, idx: int, e: StructEntry)
    requires
        0 <= idx <= entries.len(),
    ensures
        entries_size(entries.insert(idx, e)) == entries_size(entries) + e@.size,
    decreases entries.len() - idx,
{
    let inserted = entries.insert(idx, e);
    if idx == entries.len() {
        assert(inserted.drop_last() == entries);
    } else {
        lemma_insert_size(entries.drop_last(), idx, e);
        assert(inserted.drop_last() == entries.drop_last().insert(idx, e));
    }
}

impl Clone for StructEntry {
    /// The copy has the same name, size and offset, and a descriptor that
    /// is alike.
    fn clone(&self) -> (r: StructEntry)
        ensures
            r@.name == self@.name,
            r@.size == self@.size,
            r@.offset == self@.offset,
            alike(self@.datatype, r@.datatype),
        decreases self,
    {
        proof {
            use_type_invariant(self);
        }
        let datatype = self.datatype.clone();
        proof {
            lemma_alike(self.datatype, datatype);
        }
        StructEntry { name: self.name.clone(), size: self.size, offset: self.offset, datatype }
    }
}

impl Clone for StructDataType {
    /// The copy is alike to what it was made from.
    fn clone(&self) -> (r: StructDataType)
        ensures
            alike(DataTypeEnum::StructDataType(*self), DataTypeEnum::StructDataType(r)),
        decreases self,
    {
        proof {
            use_type_invariant(self);
        }
        let mut entries: Vec<StructEntry> = Vec::new();
        let mut i: usize = 0;
        while i < self.entries.len()
            invariant
                i <= self.entries@.len(),
                entries@.len() == i,
                forall|j: int|
                    0 <= j < i ==> {
                        &&& (#[trigger] self.entries@[j])@.name == entries@[j]@.name
                        &&& self.entries@[j]@.size == entries@[j]@.size
                        &&& self.entries@[j]@.offset == entries@[j]@.offset
                        &&& alike(self.entries@[j]@.datatype, entries@[j]@.datatype)
                    },
            decreases self.entries@.len() - i,
        {
            entries.push(self.entries[i].clone());
            i = i + 1;
        }
        proof {
            lemma_same_layout(self.entries@, entries@);
        }
        StructDataType { name: self.name.clone(), entries }
    }
}

impl DataType for StructDataType {
    open spec fn size_spec(&self) -> nat {
        entries_size(self@.entries)
    }

    open spec fn name_spec(&self) -> Seq<char> {
        self@.name
    }

    open spec fn decode_spec(&self, data: Seq<u8>) -> Result<Seq<char>, ConversionError> {
        Err(ConversionError::NotConvertibleError)
    }

    fn get_size(&self) -> (n: usize) {
        proof {
            use_type_invariant(self);
        }
        let mut sum: usize = 0;
        let mut i: usize = 0;
        while i < self.entries.len()
            invariant
                i <= self.entries@.len(),
                sum == entries_size(self.entries@.take(i as int)),
                entries_size(self.entries@) <= usize::MAX,
            decreases self.entries@.len() - i,
        {
            proof {
                assert(self.entries@.take(i + 1).drop_last() == self.entries@.take(i as int));
                lemma_prefix_size(self.entries@, i + 1);
            }
            sum = sum + self.entries[i].size;
            i = i + 1;
        }
        proof {
            assert(self.entries@.take(i as int) == self.entries@);
        }
        sum
    }

    fn get_name(&self) -> (s: String) {
        self.name.clone()
    }

    fn bytes_to_string(&self, data: &[u8]) -> (r: Result<String, ConversionError>) {
        if data.len() != self.get_size() {
            return Err(ConversionError::SizeError);
        }
        Err(ConversionError::NotConvertibleError)
    }
}

} // verus!

//! Untyped document values.
//!
//! A document reaches this crate as a [`RawValue`]: a scalar, a list
//! of values, or a mapping from string keys to values in document
//! order. The decoder commits to a shape by inspecting which keys are
//! present and which scalar kind a value has; nothing here carries a
//! discriminator tag.

use vstd::prelude::*;

verus! {

broadcast use vstd::std_specs::vec::group_vec_axioms;

/// A floating value held as plain data: its bit pattern and its
/// rendered decimal text. Bit-pattern equality gives a fixed total
/// equivalence over floating values, so the wrapper is usable as a
/// set or map key; the text is fixed at construction, where the
/// producer of the value renders it.
#[derive(Debug, PartialEq, Eq, Hash, PartialOrd, Ord)]
pub struct DoubleValue {
    /// The bit pattern of the floating value.
    pub bits: u64,
    /// The rendered decimal text of the floating value.
    pub text: String,
}

/// The mathematical content of a [`DoubleValue`].
#[verifier::ext_equal]
pub struct DoubleValueView {
    pub bits: u64,
    pub text: Seq<char>,
}

impl View for DoubleValue {
    type V = DoubleValueView;

    open spec fn view(&self) -> DoubleValueView {
        DoubleValueView { bits: self.bits, text: self.text@ }
    }
}

impl DeepView for DoubleValue {
    type V = DoubleValueView;

    open spec fn deep_view(&self) -> DoubleValueView {
        self.view()
    }
}

impl Clone for DoubleValue {
    /// Clones the wrapper; the copy equals the original.
    fn clone(&self) -> (res: Self)
        ensures
            res == *self,
    {
        DoubleValue { bits: self.bits, text: self.text.clone() }
    }
}

impl DoubleValue {
    /// Wraps a bit pattern together with its rendered decimal text.
    pub fn new(bits: u64, text: String) -> (d: DoubleValue)
        ensures
            d@.bits == bits,
            d@.text == text@,
    {
        DoubleValue { bits, text }
    }
}

/// One `key: value` entry of a document mapping.
#[derive(Debug, PartialEq)]
pub struct RawEntry {
    /// The entry's key.
    pub key: String,
    /// The entry's value.
    pub value: RawValue,
}

/// An untyped document value: a scalar, a list, or a mapping whose
/// entries keep their document order.
#[derive(Debug, PartialEq)]
pub enum RawValue {
    /// A boolean scalar.
    Bool(bool),
    /// An integer scalar.
    Int(i64),
    /// A floating scalar.
    Double(DoubleValue),
    /// A string scalar.
    Text(String),
    /// A list of values.
    List(Vec<RawValue>),
    /// A mapping from keys to values, in document order.
    Mapping(Vec<RawEntry>),
}

/// The value under the first entry of `entries` whose key reads `key`,
/// if one is present.
pub open spec fn spec_lookup(entries: Seq<RawEntry>, key: Seq<char>) -> Option<RawValue>
    decreases entries.len(),
{
    if entries.len() == 0 {
        None
    } else if entries[0].key@ == key {
        Some(entries[0].value)
    } else {
        spec_lookup(entries.drop_first(), key)
    }
}

/// Whether some entry of `entries` carries the key `key`.
pub open spec fn spec_has_key(entries: Seq<RawEntry>, key: Seq<char>) -> bool {
    spec_lookup(entries, key) is Some
}

proof fn lemma_lookup_prefix(entries: Seq<RawEntry>, key: Seq<char>, i: int)
    requires
        0 <= i <= entries.len(),
        forall|j: int| 0 <= j < i ==> entries[j].key@ != key,
    ensures
        spec_lookup(entries, key) == spec_lookup(entries.skip(i), key),
    decreases i,
{
    if i > 0 {
        lemma_lookup_prefix(entries, key, i - 1);
        assert(entries.skip(i - 1).drop_first() =~= entries.skip(i));
        assert(entries.skip(i - 1)[0] == entries[i - 1]);
    } else {
        assert(entries.skip(0) =~= entries);
    }
}

/// Finds the first entry of `entries` whose key reads `key` and
/// returns a reference to its value.
pub fn lookup<'a>(entries: &'a Vec<RawEntry>, key: &str) -> (r: Option<&'a RawValue>)
    ensures
        match r {
            Some(v) => spec_lookup(entries@, key@) == Some(*v),
            None => spec_lookup(entries@, key@) is None,
        },
{
    let k = String::from_str(key);
    let mut i: usize = 0;
    while i < entries.len()
        invariant
            i <= entries@.len(),
            k@ == key@,
            forall|j: int| 0 <= j < i ==> entries@[j].key@ != key@,
        decreases entries@.len() - i,
    {
        if entries[i].key == k {
            proof {
                lemma_lookup_prefix(entries@, key@, i as int);
                assert(entries@.skip(i as int)[0] == entries@[i as int]);
            }
            return Some(&entries[i].value);
        }
        i = i + 1;
    }
    proof {
        lemma_lookup_prefix(entries@, key@, entries@.len() as int);
        assert(entries@.skip(entries@.len() as int) =~= Seq::<RawEntry>::empty());
    }
    None
}

/// Finds the position of the first entry of `entries` whose key reads
/// `key`.
pub fn lookup_index(entries: &Vec<RawEntry>, key: &str) -> (r: Option<usize>)
    ensures
        match r {
            Some(i) => i < entries@.len() && entries@[i as int].key@ == key@
                && spec_lookup(entries@, key@) == Some(entries@[i as int].value),
            None => spec_lookup(entries@, key@) is None,
        },
{
    let k = String::from_str(key);
    let mut i: usize = 0;
    while i < entries.len()
        invariant
            i <= entries@.len(),
            k@ == key@,
            forall|j: int| 0 <= j < i ==> entries@[j].key@ != key@,
        decreases entries@.len() - i,
    {
        if entries[i].key == k {
            proof {
                lemma_lookup_prefix(entries@, key@, i as int);
                assert(entries@.skip(i as int)[0] == entries@[i as int]);
            }
            return Some(i);
        }
        i = i + 1;
    }
    proof {
        lemma_lookup_prefix(entries@, key@, entries@.len() as int);
        assert(entries@.skip(entries@.len() as int) =~= Seq::<RawEntry>::empty());
    }
    None
}

/// Whether the key of `entry` reads as one of `allowed`.
pub open spec fn spec_key_allowed(entry: RawEntry, allowed: Seq<Seq<char>>) -> bool {
    exists|m: int| 0 <= m < allowed.len() && entry.key@ == allowed[m]
}

/// The key of the first entry of `entries` that is not among
/// `allowed`, if one is present.
pub open spec fn spec_first_unknown_key(
    entries: Seq<RawEntry>,
    allowed: Seq<Seq<char>>,
) -> Option<Seq<char>>
    decreases entries.len(),
{
    if entries.len() == 0 {
        None
    } else if !spec_key_allowed(entries[0], allowed) {
        Some(entries[0].key@)
    } else {
        spec_first_unknown_key(entries.drop_first(), allowed)
    }
}

proof fn lemma_unknown_prefix(entries: Seq<RawEntry>, allowed: Seq<Seq<char>>, i: int)
    requires
        0 <= i <= entries.len(),
        forall|j: int| 0 <= j < i ==> spec_key_allowed(entries[j], allowed),
    ensures
        spec_first_unknown_key(entries, allowed) == spec_first_unknown_key(
            entries.skip(i),
            allowed,
        ),
    decreases i,
{
    if i > 0 {
        lemma_unknown_prefix(entries, allowed, i - 1);
        assert(entries.skip(i - 1).drop_first() =~= entries.skip(i));
        assert(entries.skip(i - 1)[0] == entries[i - 1]);
    } else {
        assert(entries.skip(0) =~= entries);
    }
}

/// Scans `entries` for a key that is not among `allowed` and returns
/// the first such key. `allowed` lists the recognized field names of
/// the shape being decoded.
pub fn first_unknown_key(entries: &Vec<RawEntry>, allowed: &Vec<&str>) -> (r: Option<String>)
    ensures
        match r {
            Some(k) => spec_first_unknown_key(entries@, allowed.deep_view()) == Some(k@),
            None => spec_first_unknown_key(entries@, allowed.deep_view()) is None,
        },
{
    let ghost names = allowed.deep_view();
    let mut i: usize = 0;
    while i < entries.len()
        invariant
            i <= entries@.len(),
            names == allowed.deep_view(),
            forall|j: int| 0 <= j < i ==> spec_key_allowed(entries@[j], names),
        decreases entries@.len() - i,
    {
        let mut ok = false;
        let mut m: usize = 0;
        while m < allowed.len()
            invariant
                m <= allowed@.len(),
                names == allowed.deep_view(),
                i < entries@.len(),
                ok <==> exists|n: int| 0 <= n < m && entries@[i as int].key@ == names[n],
            decreases allowed@.len() - m,
        {
            let cand = String::from_str(allowed[m]);
            proof {
                assert(names[m as int] == allowed@[m as int]@);
            }
            if entries[i].key == cand {
                ok = true;
            }
            m = m + 1;
        }
        if !ok {
            proof {
                lemma_unknown_prefix(entries@, names, i as int);
                assert(entries@.skip(i as int)[0] == entries@[i as int]);
                assert(!spec_key_allowed(entries@[i as int], names));
            }
            return Some(entries[i].key.clone());
        }
        i = i + 1;
    }
    proof {
        lemma_unknown_prefix(entries@, names, entries@.len() as int);
        assert(entries@.skip(entries@.len() as int) =~= Seq::<RawEntry>::empty());
    }
    None
}

} // verus!

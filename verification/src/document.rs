//! The configuration document: an order-irrelevant mapping from string keys
//! to values, where a value is a boolean, an integer, a string, or a nested
//! document.
//!
//! A document is represented as a vector of key/value entries in insertion
//! order; a later entry under the same key shadows an earlier one. Its
//! mathematical content, and the only basis on which two documents should be
//! compared, is the map returned by `view` (written `d@` in specifications).

use vstd::prelude::*;

verus! {

/// A value stored under a key of a [`ConfigDocument`].
#[derive(Debug, PartialEq, Eq)]
pub enum ConfigValue {
    Bool(bool),
    Int(i64),
    Str(String),
    Doc(ConfigDocument),
}

/// A configuration document: a finite mapping from string keys to
/// [`ConfigValue`]s, built by inserting one entry at a time.
#[derive(Debug, PartialEq, Eq)]
pub struct ConfigDocument {
    entries: Vec<(String, ConfigValue)>,
}

/// The mathematical content of a [`ConfigValue`]: integers widen to `int`,
/// strings become character sequences, and a nested document becomes the
/// map it denotes.
pub enum SpecValue {
    Bool(bool),
    Int(int),
    Str(Seq<char>),
    Doc(Map<Seq<char>, SpecValue>),
}

/// The map denoted by a sequence of entries: each entry is inserted in
/// order, so an entry under a key shadows every earlier entry under it.
spec fn entries_map(s: Seq<(String, ConfigValue)>) -> Map<Seq<char>, SpecValue>
    decreases s,
{
    if s.len() == 0 {
        Map::empty()
    } else {
        entries_map(s.drop_last()).insert(s.last().0@, s.last().1.value_view())
    }
}

impl ConfigValue {
    /// The mathematical content of this value.
    pub open spec fn value_view(self) -> SpecValue
        decreases self,
    {
        match self {
            ConfigValue::Bool(b) => SpecValue::Bool(b),
            ConfigValue::Int(i) => SpecValue::Int(i as int),
            ConfigValue::Str(s) => SpecValue::Str(s@),
            ConfigValue::Doc(d) => SpecValue::Doc(d.doc_map()),
        }
    }
}

impl ConfigDocument {
    /// The map this document denotes.
    pub closed spec fn doc_map(self) -> Map<Seq<char>, SpecValue>
        decreases self,
    {
        entries_map(self.entries@)
    }
}

/// The map denoted by a sequence of key/value pairs: each pair is inserted
/// in order, so a pair under a key shadows every earlier pair under it.
pub open spec fn pairs_map(s: Seq<(Seq<char>, SpecValue)>) -> Map<Seq<char>, SpecValue>
    decreases s,
{
    if s.len() == 0 {
        Map::empty()
    } else {
        pairs_map(s.drop_last()).insert(s.last().0, s.last().1)
    }
}

impl View for ConfigValue {
    type V = SpecValue;

    open spec fn view(&self) -> SpecValue {
        (*self).value_view()
    }
}

impl View for ConfigDocument {
    type V = Map<Seq<char>, SpecValue>;

    open spec fn view(&self) -> Map<Seq<char>, SpecValue> {
        (*self).doc_map()
    }
}

proof fn lemma_entries_map_as_pairs(s: Seq<(String, ConfigValue)>, p: Seq<(Seq<char>, SpecValue)>)
    requires
        p.len() == s.len(),
        forall|i: int| 0 <= i < s.len() ==> p[i] == (s[i].0@, s[i].1.value_view()),
    ensures
        entries_map(s) == pairs_map(p),
    decreases s.len(),
{
    if s.len() > 0 {
        lemma_entries_map_as_pairs(s.drop_last(), p.drop_last());
        assert(p.last() == (s.last().0@, s.last().1.value_view()));
    }
}

proof fn lemma_entries_map_push(s: Seq<(String, ConfigValue)>, e: (String, ConfigValue))
    ensures
        entries_map(s.push(e)) == entries_map(s).insert(e.0@, e.1.value_view()),
{
    let t = s.push(e);
    assert(t.drop_last() =~= s);
    assert(t.last() == e);
}

impl ConfigDocument {
    /// The document with no entries.
    pub fn empty() -> (r: ConfigDocument)
        ensures
            r@ == Map::<Seq<char>, SpecValue>::empty(),
            r.entry_seq() == Seq::<(Seq<char>, SpecValue)>::empty(),
    {
        let r = ConfigDocument { entries: Vec::new() };
        proof {
            assert(r.entry_seq() =~= Seq::<(Seq<char>, SpecValue)>::empty());
        }
        r
    }

    /// Returns this document extended with one entry; an entry already
    /// present under the same key is shadowed.
    pub fn insert(self, key: String, value: ConfigValue) -> (r: ConfigDocument)
        ensures
            r@ == self@.insert(key@, value@),
            r.entry_seq() == self.entry_seq().push((key@, value@)),
    {
        let ghost old_entries = self.entries@;
        let ghost entry = (key, value);
        let mut entries = self.entries;
        entries.push((key, value));
        proof {
            lemma_entries_map_push(old_entries, entry);
        }
        let r = ConfigDocument { entries };
        proof {
            assert(r.entry_seq() =~= self.entry_seq().push((key@, value@)));
        }
        r
    }

    /// The entries of this document as key/value pairs, in insertion order.
    /// The map the document denotes is these pairs folded in order; see
    /// [`ConfigDocument::lemma_view_entries`].
    pub closed spec fn entry_seq(self) -> Seq<(Seq<char>, SpecValue)> {
        Seq::new(
            self.entries@.len(),
            |i: int| (self.entries@[i].0@, self.entries@[i].1.value_view()),
        )
    }

    /// The map a document denotes is its entry sequence folded in insertion
    /// order, a later entry shadowing an earlier one under the same key.
    pub proof fn lemma_view_entries(self)
        ensures
            self@ == pairs_map(self.entry_seq()),
    {
        lemma_entries_map_as_pairs(self.entries@, self.entry_seq());
    }

    /// The number of entries of this document.
    pub fn len(&self) -> (n: usize)
        ensures
            n == self.entry_seq().len(),
    {
        self.entries.len()
    }

    /// The key of the entry at position `i` in insertion order.
    pub fn key_at(&self, i: usize) -> (k: &String)
        requires
            i < self.entry_seq().len(),
        ensures
            k@ == self.entry_seq()[i as int].0,
    {
        &self.entries[i].0
    }

    /// The value of the entry at position `i` in insertion order.
    pub fn value_at(&self, i: usize) -> (v: &ConfigValue)
        requires
            i < self.entry_seq().len(),
        ensures
            v@ == self.entry_seq()[i as int].1,
    {
        &self.entries[i].1
    }
}

} // verus!

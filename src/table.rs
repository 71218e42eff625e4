//! A table from names to entries, looked up by exact name first and by the
//! ASCII-lowercased name second.
use vstd::prelude::*;
use crate::entry::{EntryModel, IconEntry};
use crate::text::{ascii_lower, to_ascii_lower};

verus! {

/// One key and the entry bound to it.
#[derive(Clone, Debug, PartialEq)]
pub struct Binding {
    key: String,
    entry: IconEntry,
}

/// Keys bound to entries. Bindings are kept in the order they were made; a
/// later binding of a key replaces an earlier one.
///
/// The bindings sit in a `Vec` searched from the end, not in a `HashMap`:
/// vstd specifies `HashMap` only for key types known to obey its key model
/// (integers, `bool` and boxes of them), and nothing can establish that for
/// `String` keys without an assumption, so no lookup in a `String`-keyed
/// `HashMap` could be proved. A lookup here takes time linear in the number
/// of bindings, and building a table quadratic time.
#[derive(Clone, Debug, PartialEq)]
pub struct IconTable {
    slots: Vec<Binding>,
}

/// The map that a list of bindings stands for: later bindings win.
pub closed spec fn bindings_map(s: Seq<Binding>) -> Map<Seq<char>, EntryModel>
    decreases s.len(),
{
    if s.len() == 0 {
        Map::empty()
    } else {
        bindings_map(s.drop_last()).insert(s.last().key@, s.last().entry@)
    }
}

impl View for IconTable {
    type V = Map<Seq<char>, EntryModel>;

    closed spec fn view(&self) -> Map<Seq<char>, EntryModel> {
        bindings_map(self.slots@)
    }
}

/// A lookup in a table: an empty name finds nothing; otherwise the exact name
/// is tried, then its ASCII-lowercased form.
pub open spec fn lookup_spec(m: Map<Seq<char>, EntryModel>, name: Seq<char>) -> Option<EntryModel> {
    if name.len() == 0 {
        None
    } else if m.contains_key(name) {
        Some(m[name])
    } else if m.contains_key(ascii_lower(name)) {
        Some(m[ascii_lower(name)])
    } else {
        None
    }
}

proof fn lemma_bindings_last(s: Seq<Binding>, k: Seq<char>, i: int)
    requires
        0 <= i < s.len(),
        s[i].key@ == k,
        forall|j: int| i < j < s.len() ==> (#[trigger] s[j]).key@ != k,
    ensures
        bindings_map(s).contains_key(k),
        bindings_map(s)[k] == s[i].entry@,
    decreases s.len(),
{
    if i < s.len() - 1 {
        assert(s[s.len() - 1].key@ != k);
        let t = s.drop_last();
        assert forall|j: int| i < j < t.len() implies (#[trigger] t[j]).key@ != k by {
            assert(t[j] == s[j]);
        }
        lemma_bindings_last(t, k, i);
    }
}

proof fn lemma_bindings_absent(s: Seq<Binding>, k: Seq<char>)
    requires
        forall|j: int| 0 <= j < s.len() ==> (#[trigger] s[j]).key@ != k,
    ensures
        !bindings_map(s).contains_key(k),
    decreases s.len(),
{
    if s.len() > 0 {
        assert(s[s.len() - 1].key@ != k);
        let t = s.drop_last();
        assert forall|j: int| 0 <= j < t.len() implies (#[trigger] t[j]).key@ != k by {
            assert(t[j] == s[j]);
        }
        lemma_bindings_absent(t, k);
    }
}

impl IconTable {
    /// A table with no keys.
    pub fn new() -> (r: IconTable)
        ensures
            r@ == Map::<Seq<char>, EntryModel>::empty(),
    {
        IconTable { slots: Vec::new() }
    }

    /// The entry bound to exactly `key`, if any.
    pub fn get(&self, key: &str) -> (r: Option<&IconEntry>)
        ensures
            match r {
                Some(e) => self@.contains_key(key@) && self@[key@] == e@,
                None => !self@.contains_key(key@),
            },
    {
        let mut i: usize = self.slots.len();
        while i > 0
            invariant
                i <= self.slots@.len(),
                forall|j: int| i <= j < self.slots@.len() ==> (#[trigger] self.slots@[j]).key@ != key@,
            decreases i,
        {
            let b = &self.slots[i - 1];
            if b.key.as_str().eq(key) {
                proof {
                    lemma_bindings_last(self.slots@, key@, i - 1);
                }
                return Some(&b.entry);
            }
            i = i - 1;
        }
        proof {
            lemma_bindings_absent(self.slots@, key@);
        }
        None
    }

    /// Binds `key` to `entry`, replacing what it was bound to.
    pub fn insert(&mut self, key: String, entry: IconEntry)
        ensures
            final(self)@ == old(self)@.insert(key@, entry@),
    {
        let ghost before = self.slots@;
        self.slots.push(Binding { key, entry });
        assert(self.slots@.drop_last() =~= before);
    }

    /// Binds `key` to `entry` unless `key` is bound already.
    pub fn insert_if_absent(&mut self, key: String, entry: IconEntry)
        ensures
            final(self)@ == (if old(self)@.contains_key(key@) {
                old(self)@
            } else {
                old(self)@.insert(key@, entry@)
            }),
    {
        if self.get(key.as_str()).is_none() {
            self.insert(key, entry);
        }
    }

    /// The entry for `name`: none for an empty name, else the entry of the
    /// exact name, else that of its ASCII-lowercased form.
    pub fn lookup_name(&self, name: &str) -> (r: Option<&IconEntry>)
        ensures
            match r {
                Some(e) => lookup_spec(self@, name@) == Some(e@),
                None => lookup_spec(self@, name@) is None,
            },
    {
        if name.unicode_len() == 0 {
            return None;
        }
        match self.get(name) {
            Some(e) => Some(e),
            None => {
                let lower = to_ascii_lower(name);
                self.get(lower.as_str())
            },
        }
    }
}

} // verus!

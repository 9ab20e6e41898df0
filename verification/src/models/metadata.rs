//! Caller-supplied metadata: a small map from text to text that keeps the
//! order in which its keys arrived.

use crate::wire::{Field, Wire, WireFields, WireValue};
use vstd::prelude::*;

verus! {

/// No key occurs twice.
pub open spec fn distinct_keys(entries: Seq<(Seq<char>, Seq<char>)>) -> bool {
    forall|i: int, j: int|
        0 <= i < j < entries.len() ==> (#[trigger] entries[i]).0 != (#[trigger] entries[j]).0
}

/// No entry has this key.
pub open spec fn lacks_key(entries: Seq<(Seq<char>, Seq<char>)>, key: Seq<char>) -> bool {
    forall|i: int| 0 <= i < entries.len() ==> (#[trigger] entries[i]).0 != key
}

/// Some entry is this pair.
pub open spec fn has_entry(
    entries: Seq<(Seq<char>, Seq<char>)>,
    entry: (Seq<char>, Seq<char>),
) -> bool {
    exists|j: int| 0 <= j < entries.len() && #[trigger] entries[j] == entry
}

/// As many entries on both sides, and every entry of the first is one of the
/// second: for maps, the same keys with the same values, in whatever order.
pub open spec fn same_entries(
    first: Seq<(Seq<char>, Seq<char>)>,
    second: Seq<(Seq<char>, Seq<char>)>,
) -> bool {
    &&& first.len() == second.len()
    &&& forall|i: int| 0 <= i < first.len() ==> has_entry(second, #[trigger] first[i])
}

/// Between maps the comparison does not depend on the side: where no key
/// occurs twice on either side, the same entries one way are the same entries
/// the other way.
pub proof fn lemma_same_entries_symmetric(
    first: Seq<(Seq<char>, Seq<char>)>,
    second: Seq<(Seq<char>, Seq<char>)>,
)
    requires
        distinct_keys(first),
        distinct_keys(second),
        same_entries(first, second),
    ensures
        same_entries(second, first),
    decreases first.len(),
{
    if first.len() > 0 {
        let n = first.len() - 1;
        let j = choose|j: int| 0 <= j < second.len() && #[trigger] second[j] == first[n];
        assert(has_entry(second, first[n]));
        let front = first.drop_last();
        let rest = second.remove(j);
        assert forall|i: int| 0 <= i < front.len() implies has_entry(
            rest,
            #[trigger] front[i],
        ) by {
            assert(has_entry(second, first[i]));
            let k = choose|k: int| 0 <= k < second.len() && #[trigger] second[k] == first[i];
            assert(first[i].0 != first[n].0);
            if k < j {
                assert(rest[k] == front[i]);
            } else {
                assert(rest[k - 1] == front[i]);
            }
        }
        assert(distinct_keys(front)) by {
            assert forall|x: int, y: int| 0 <= x < y < front.len() implies (#[trigger] front[x]).0
                != (#[trigger] front[y]).0 by {
                assert(front[x] == first[x] && front[y] == first[y]);
            }
        }
        assert(distinct_keys(rest)) by {
            assert forall|x: int, y: int| 0 <= x < y < rest.len() implies (#[trigger] rest[x]).0
                != (#[trigger] rest[y]).0 by {
                let sx = if x < j { x } else { x + 1 };
                let sy = if y < j { y } else { y + 1 };
                assert(rest[x] == second[sx] && rest[y] == second[sy]);
            }
        }
        lemma_same_entries_symmetric(front, rest);
        assert forall|k: int| 0 <= k < second.len() implies has_entry(
            first,
            #[trigger] second[k],
        ) by {
            if k == j {
                assert(first[n] == second[k]);
            } else {
                let at = if k < j { k } else { k - 1 };
                assert(rest[at] == second[k]);
                assert(has_entry(front, rest[at]));
                let i = choose|i: int| 0 <= i < front.len() && #[trigger] front[i] == rest[at];
                assert(first[i] == second[k]);
            }
        }
    }
}

/// Metadata that travels with one request of a bulk call and comes back with
/// its answer. It maps each key to one value.
#[derive(Clone, Debug, Eq)]
pub struct PersonMetadata {
    entries: Vec<(String, String)>,
}

impl View for PersonMetadata {
    type V = Seq<(Seq<char>, Seq<char>)>;

    closed spec fn view(&self) -> Seq<(Seq<char>, Seq<char>)> {
        self.entries.deep_view()
    }
}

impl PartialEq for PersonMetadata {
    /// Two values are equal when they hold the same entries; the order in
    /// which the keys arrived does not count.
    fn eq(&self, other: &Self) -> (r: bool) {
        if self.entries.len() != other.entries.len() {
            return false;
        }
        let mut i: usize = 0;
        while i < self.entries.len()
            invariant
                i <= self.entries.len(),
                self.entries.len() == other.entries.len(),
                forall|k: int| 0 <= k < i ==> has_entry(other@, #[trigger] self@[k]),
            decreases self.entries.len() - i,
        {
            if !other.holds(&self.entries[i].0, &self.entries[i].1) {
                assert(!has_entry(other@, self@[i as int]));
                return false;
            }
            i += 1;
        }
        true
    }
}

impl vstd::std_specs::cmp::PartialEqSpecImpl for PersonMetadata {
    open spec fn obeys_eq_spec() -> bool {
        true
    }

    open spec fn eq_spec(&self, other: &Self) -> bool {
        same_entries(self@, other@)
    }
}

impl PersonMetadata {
    /// Well-formed metadata maps each key once.
    pub open spec fn wf(&self) -> bool {
        distinct_keys(self@)
    }

    /// Empty metadata.
    pub fn new() -> (r: Self)
        ensures
            r.wf(),
            r@ == Seq::<(Seq<char>, Seq<char>)>::empty(),
    {
        let r = PersonMetadata { entries: Vec::new() };
        assert(r.entries.deep_view() =~= Seq::<(Seq<char>, Seq<char>)>::empty());
        r
    }

    /// The number of entries.
    pub fn len(&self) -> (r: usize)
        ensures
            r == self@.len(),
    {
        self.entries.len()
    }

    /// Whether there is no entry.
    pub fn is_empty(&self) -> (r: bool)
        ensures
            r == (self@.len() == 0),
    {
        self.entries.len() == 0
    }

    fn position(&self, key: &String) -> (r: Option<usize>)
        ensures
            match r {
                Some(i) => i < self@.len() && self@[i as int].0 == key@,
                None => lacks_key(self@, key@),
            },
    {
        let mut i: usize = 0;
        while i < self.entries.len()
            invariant
                i <= self.entries.len(),
                forall|k: int| 0 <= k < i ==> (#[trigger] self.entries.deep_view()[k]).0 != key@,
            decreases self.entries.len() - i,
        {
            if self.entries[i].0 == *key {
                return Some(i);
            }
            i += 1;
        }
        None
    }

    /// Whether the key is there with this value.
    pub fn holds(&self, key: &String, value: &String) -> (r: bool)
        ensures
            r == has_entry(self@, (key@, value@)),
    {
        let mut i: usize = 0;
        while i < self.entries.len()
            invariant
                i <= self.entries.len(),
                forall|k: int| 0 <= k < i ==> (#[trigger] self@[k]) != (key@, value@),
            decreases self.entries.len() - i,
        {
            if self.entries[i].0 == *key && self.entries[i].1 == *value {
                assert(self@[i as int] == (key@, value@));
                return true;
            }
            i += 1;
        }
        false
    }

    /// The value of a key, where the key is there.
    pub fn get(&self, key: &str) -> (r: Option<&String>)
        ensures
            match r {
                Some(value) => exists|i: int|
                    0 <= i < self@.len() && #[trigger] self@[i] == (key@, value@),
                None => lacks_key(self@, key@),
            },
    {
        let wanted = String::from_str(key);
        match self.position(&wanted) {
            Some(i) => {
                assert(self@[i as int] == (key@, self.entries[i as int].1@));
                Some(&self.entries[i].1)
            },
            None => None,
        }
    }

    /// Maps the key to the value. A key that was there keeps its place and
    /// hands back its earlier value; a new key goes to the end.
    pub fn insert(&mut self, key: String, value: String) -> (r: Option<String>)
        ensures
            old(self).wf() ==> final(self).wf(),
            match r {
                Some(earlier) => exists|i: int|
                    0 <= i < old(self)@.len() && #[trigger] old(self)@[i] == (key@, earlier@)
                        && final(self)@ == old(self)@.update(i, (key@, value@)),
                None => lacks_key(old(self)@, key@) && final(self)@ == old(self)@.push(
                    (key@, value@),
                ),
            },
    {
        let ghost before = self.entries.deep_view();
        match self.position(&key) {
            Some(i) => {
                let earlier = self.entries.remove(i);
                assert(self.entries.deep_view() =~= before.remove(i as int));
                self.entries.insert(i, (key, value));
                assert(self.entries.deep_view() =~= before.update(i as int, (key@, value@)));
                assert(before[i as int] == (key@, earlier.1@));
                Some(earlier.1)
            },
            None => {
                self.entries.push((key, value));
                assert(self.entries.deep_view() =~= before.push((key@, value@)));
                None
            },
        }
    }

    /// The entries, in order.
    pub fn pairs(&self) -> (r: Vec<(String, String)>)
        ensures
            r.deep_view() == self@,
    {
        let mut out: Vec<(String, String)> = Vec::new();
        let mut i: usize = 0;
        while i < self.entries.len()
            invariant
                i <= self.entries.len(),
                out.len() == i,
                forall|k: int|
                    0 <= k < i ==> (#[trigger] out[k]).deep_view() == self.entries[k].deep_view(),
            decreases self.entries.len() - i,
        {
            out.push((self.entries[i].0.clone(), self.entries[i].1.clone()));
            i += 1;
        }
        assert(out.deep_view() =~= self@);
        out
    }

    /// The entries as text fields, in order.
    pub open spec fn wire(&self) -> WireFields {
        Seq::new(self@.len(), |i: int| (self@[i].0, Wire::Text(self@[i].1)))
    }

    /// Collects the entries as text fields.
    pub fn fields(&self) -> (r: Vec<Field>)
        ensures
            r.deep_view() == self.wire(),
    {
        let mut out: Vec<Field> = Vec::new();
        let mut i: usize = 0;
        while i < self.entries.len()
            invariant
                i <= self.entries.len(),
                out.len() == i,
                forall|k: int|
                    0 <= k < i ==> (#[trigger] out[k]).deep_view() == (
                        self.entries[k].0@,
                        Wire::Text(self.entries[k].1@),
                    ),
            decreases self.entries.len() - i,
        {
            out.push((self.entries[i].0.clone(), WireValue::Text(self.entries[i].1.clone())));
            i += 1;
        }
        assert(out.deep_view() =~= self.wire());
        out
    }
}

} // verus!

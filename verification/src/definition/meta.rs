//! Building and reading metadata mappings.

use crate::definition::view::has_key;
use crate::definition::view::key_index;
use crate::definition::view::meta_entries_view;
use crate::definition::view::meta_insert;
use crate::definition::view::MetaView;
use crate::definition::view::keys_distinct;
use crate::definition::view::meta_values_view;
use crate::definition::view::MetaValueView;
use crate::definition::Meta;
use crate::definition::MetaValue;
use crate::definition::Pandoc;
use crate::text::str_eq;
use vstd::prelude::*;

verus! {

/// Putting a value under a key keeps the keys distinct. The mapping that
/// the entries stand for then has the value under the key, and under every
/// other key what it had.
pub proof fn law_meta_insert(
    entries: Seq<(Seq<char>, MetaValueView)>,
    key: Seq<char>,
    value: MetaValueView,
)
    requires
        keys_distinct(entries),
    ensures
        keys_distinct(meta_insert(entries, key, value)),
        (MetaView { entries: meta_insert(entries, key, value) }).as_map() == (MetaView {
            entries,
        }).as_map().insert(key, value),
{
    let after = meta_insert(entries, key, value);
    let m0 = (MetaView { entries }).as_map();
    let m1 = (MetaView { entries: after }).as_map();
    let i = if has_key(entries, key) {
        key_index(entries, key)
    } else {
        entries.len() as int
    };
    assert(after[i] == (key, value));
    assert forall|x: int| 0 <= x < after.len() && x != i implies #[trigger] after[x]
        == entries[x] by {}
    assert forall|k: Seq<char>| #[trigger] has_key(after, k) == (k == key || has_key(entries, k)) by {
        if has_key(after, k) {
            let x = choose|x: int| 0 <= x < after.len() && (#[trigger] after[x]).0 == k;
            if x != i {
                assert(entries[x].0 == k);
            }
        }
        if k == key {
            assert(after[i].0 == k);
        }
        if has_key(entries, k) {
            let x = choose|x: int| 0 <= x < entries.len() && (#[trigger] entries[x]).0 == k;
            assert(after[x].0 == k);
        }
    }
    assert forall|k: Seq<char>| #[trigger] m1.dom().contains(k) implies m1[k] == m0.insert(
        key,
        value,
    )[k] by {
        let x = key_index(after, k);
        assert(after[x].0 == k);
        if k == key {
            assert(x == i);
        } else {
            assert(x != i);
            let y = key_index(entries, k);
            assert(has_key(entries, k));
            assert(entries[y].0 == k);
            assert(entries[x].0 == k);
            assert(x == y);
        }
    }
    assert(m1 =~= m0.insert(key, value));
}

impl Meta {
    /// The mapping without entries.
    pub fn new() -> (m: Meta)
        ensures
            m@.entries == Seq::<(Seq<char>, MetaValueView)>::empty(),
            m@.wf(),
    {
        let m = Meta { entries: Vec::new() };
        proof {
            assert(m@.entries =~= Seq::empty());
        }
        m
    }

    /// The number of entries.
    pub fn len(&self) -> (n: usize)
        ensures
            n == self@.entries.len(),
    {
        self.entries.len()
    }

    /// The place of the first entry under `key`, if there is one.
    pub fn position(&self, key: &str) -> (r: Option<usize>)
        ensures
            match r {
                Some(i) => has_key(self@.entries, key@) && i == key_index(self@.entries, key@)
                    && i < self.entries@.len(),
                None => !has_key(self@.entries, key@),
            },
    {
        let mut i: usize = 0;
        while i < self.entries.len()
            invariant
                i <= self.entries.len(),
                forall|k: int| 0 <= k < i ==> (#[trigger] self@.entries[k]).0 != key@,
            decreases self.entries.len() - i,
        {
            if str_eq(self.entries[i].0.as_str(), key) {
                proof {
                    assert(self@.entries[i as int].0 == key@);
                }
                return Some(i);
            }
            i += 1;
        }
        None
    }

    /// The value under `key`, if there is one.
    pub fn get(&self, key: &str) -> (r: Option<&MetaValue>)
        ensures
            match r {
                Some(v) => has_key(self@.entries, key@) && v@ == self@.entries[key_index(
                    self@.entries,
                    key@,
                )].1,
                None => !has_key(self@.entries, key@),
            },
    {
        match self.position(key) {
            Some(i) => Some(&self.entries[i].1),
            None => None,
        }
    }

    /// Puts `value` under `key`: in place of the value that was there, or
    /// as a new entry at the end. A mapping without repeated keys stays so.
    pub fn insert(&mut self, key: String, value: MetaValue)
        ensures
            final(self)@.entries == meta_insert(old(self)@.entries, key@, value@),
            old(self)@.wf() && value@.wf() ==> final(self)@.wf(),
    {
        proof {
            if old(self)@.wf() && value@.wf() {
                let before = old(self)@.entries;
                let after = meta_insert(before, key@, value@);
                law_meta_insert(before, key@, value@);
                let i = if has_key(before, key@) {
                    key_index(before, key@)
                } else {
                    before.len() as int
                };
                assert forall|k: int| 0 <= k < after.len() implies (#[trigger] after[k]).1.wf() by {
                    if k != i {
                        assert(after[k] == before[k]);
                    }
                }
            }
        }
        match self.position(key.as_str()) {
            Some(i) => {
                self.entries[i] = (key, value);
                proof {
                    assert(final(self)@.entries =~= meta_insert(
                        old(self)@.entries,
                        key@,
                        value@,
                    ));
                }
            },
            None => {
                self.entries.push((key, value));
                proof {
                    assert(final(self)@.entries =~= meta_insert(
                        old(self)@.entries,
                        key@,
                        value@,
                    ));
                }
            },
        }
    }
}

/// Whether no two entries have the same key.
pub fn keys_are_distinct(entries: &Vec<(String, MetaValue)>) -> (r: bool)
    ensures
        r == keys_distinct(meta_entries_view(entries@)),
{
    let ghost all = meta_entries_view(entries@);
    let mut b: usize = 0;
    while b < entries.len()
        invariant
            b <= entries.len(),
            all == meta_entries_view(entries@),
            forall|x: int, y: int| 0 <= x < y < b ==> (#[trigger] all[x]).0 != (#[trigger] all[y]).0,
        decreases entries.len() - b,
    {
        let mut a: usize = 0;
        while a < b
            invariant
                a <= b,
                b < entries.len(),
                all == meta_entries_view(entries@),
                forall|x: int| 0 <= x < a ==> (#[trigger] all[x]).0 != all[b as int].0,
            decreases b - a,
        {
            if str_eq(entries[a].0.as_str(), entries[b].0.as_str()) {
                proof {
                    assert(all[a as int].0 == all[b as int].0);
                }
                return false;
            }
            a += 1;
        }
        b += 1;
    }
    true
}

/// Whether no metadata mapping inside the value has a key twice.
pub fn meta_value_is_well_formed(v: &MetaValue) -> (r: bool)
    ensures
        r == v@.wf(),
    decreases v,
{
    match v {
        MetaValue::MetaMap(m) => meta_is_well_formed(m),
        MetaValue::MetaList(l) => {
            let ghost all = meta_values_view(l@);
            let mut i: usize = 0;
            while i < l.len()
                invariant
                    i <= l.len(),
                    decreases_to!(v => l),
                    all == meta_values_view(l@),
                    v@ == MetaValueView::MetaList(all),
                    forall|k: int| 0 <= k < i ==> (#[trigger] all[k]).wf(),
                decreases l.len() - i,
            {
                if !meta_value_is_well_formed(&l[i]) {
                    proof {
                        assert(all[i as int] == l@[i as int]@);
                        assert(!all[i as int].wf());
                        assert(0 <= i < all.len());
                        assert(!(v@->MetaList_0[i as int]).wf());
                    }
                    return false;
                }
                i += 1;
            }
            true
        },
        _ => true,
    }
}

/// Whether no key occurs twice, in the mapping or in a mapping further
/// down.
pub fn meta_is_well_formed(m: &Meta) -> (r: bool)
    ensures
        r == m@.wf(),
    decreases m,
{
    if !keys_are_distinct(&m.entries) {
        return false;
    }
    let ghost all = meta_entries_view(m.entries@);
    let mut i: usize = 0;
    while i < m.entries.len()
        invariant
            i <= m.entries.len(),
            all == meta_entries_view(m.entries@),
            all == m@.entries,
            keys_distinct(all),
            forall|k: int| 0 <= k < i ==> (#[trigger] all[k]).1.wf(),
        decreases m.entries.len() - i,
    {
        if !meta_value_is_well_formed(&m.entries[i].1) {
            proof {
                assert(!all[i as int].1.wf());
            }
            return false;
        }
        i += 1;
    }
    true
}

impl Meta {
    /// Whether no key occurs twice, here or in a mapping further down.
    pub fn is_well_formed(&self) -> (r: bool)
        ensures
            r == self@.wf(),
    {
        meta_is_well_formed(self)
    }
}

impl Pandoc {
    /// Whether the metadata has no key twice. A document that was read
    /// from JSON, or whose metadata was built by [`Meta::insert`] alone,
    /// is well formed.
    pub fn is_well_formed(&self) -> (r: bool)
        ensures
            r == self@.wf(),
    {
        meta_is_well_formed(&self.meta)
    }
}

} // verus!

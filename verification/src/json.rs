//! JSON values, the form in which a document crosses the wire.
//!
//! A value is a tree of plain data. An object keeps its members as a list of
//! key and value pairs in the order they were written, so a key that was
//! written twice is still seen twice by whoever reads the value.

use crate::text::str_eq;
use vstd::prelude::*;
use vstd::std_specs::cmp::PartialEqSpecImpl;

verus! {

/// A JSON number. An integer is held exactly. Any other number is held as
/// the bit pattern of the IEEE 754 double that stands for it.
#[derive(Debug, Clone, Copy, PartialEq, Eq, Structural)]
pub enum Number {
    Int(i128),
    Double(u64),
}

/// The kinds of JSON value, with integers told apart from other numbers.
#[derive(Debug, Clone, Copy, PartialEq, Eq, Structural)]
pub enum JsonKind {
    Null,
    Bool,
    Integer,
    Double,
    String,
    Array,
    Object,
}

/// A JSON value.
#[derive(Debug, Eq)]
pub enum Json {
    Null,
    Bool(bool),
    Number(Number),
    String(String),
    Array(Vec<Json>),
    Object(Vec<(String, Json)>),
}

/// The mathematical model of a [`Json`] value.
pub ghost enum JsonView {
    Null,
    Bool(bool),
    Number(Number),
    String(Seq<char>),
    Array(Seq<JsonView>),
    Object(Seq<(Seq<char>, JsonView)>),
}

/// What a search for a key among the members of an object finds.
#[derive(Debug, PartialEq, Eq)]
pub enum Lookup<T> {
    /// No member has the key.
    Absent,
    /// Exactly one member has the key; this is its value.
    Present(T),
    /// More than one member has the key.
    Repeated,
}

/// The model of a JSON value.
pub open spec fn json_view(j: Json) -> JsonView
    decreases j,
{
    match j {
        Json::Null => JsonView::Null,
        Json::Bool(b) => JsonView::Bool(b),
        Json::Number(n) => JsonView::Number(n),
        Json::String(s) => JsonView::String(s@),
        Json::Array(items) => JsonView::Array(json_seq_view(items@)),
        Json::Object(members) => JsonView::Object(json_members_view(members@)),
    }
}

/// The model of a list of JSON values.
pub open spec fn json_seq_view(items: Seq<Json>) -> Seq<JsonView>
    decreases items,
{
    Seq::new(
        items.len(),
        |k: int|
            if 0 <= k < items.len() {
                json_view(items[k])
            } else {
                JsonView::Null
            },
    )
}

/// The model of the members of an object.
pub open spec fn json_members_view(members: Seq<(String, Json)>) -> Seq<(Seq<char>, JsonView)>
    decreases members,
{
    Seq::new(
        members.len(),
        |k: int|
            if 0 <= k < members.len() {
                (members[k].0@, json_view(members[k].1))
            } else {
                (Seq::empty(), JsonView::Null)
            },
    )
}

impl View for Json {
    type V = JsonView;

    open spec fn view(&self) -> JsonView {
        json_view(*self)
    }
}

impl JsonView {
    /// The kind of the value.
    pub open spec fn kind(self) -> JsonKind {
        match self {
            JsonView::Null => JsonKind::Null,
            JsonView::Bool(_) => JsonKind::Bool,
            JsonView::Number(Number::Int(_)) => JsonKind::Integer,
            JsonView::Number(Number::Double(_)) => JsonKind::Double,
            JsonView::String(_) => JsonKind::String,
            JsonView::Array(_) => JsonKind::Array,
            JsonView::Object(_) => JsonKind::Object,
        }
    }
}

/// The value found under `key` among `members`, each member counted.
pub open spec fn lookup(members: Seq<(Seq<char>, JsonView)>, key: Seq<char>) -> Lookup<JsonView>
    decreases members.len(),
{
    if members.len() == 0 {
        Lookup::Absent
    } else {
        let before = lookup(members.drop_last(), key);
        if members.last().0 == key {
            match before {
                Lookup::Absent => Lookup::Present(members.last().1),
                _ => Lookup::Repeated,
            }
        } else {
            before
        }
    }
}

/// A value found by [`lookup`] is one of the members' values, and so is
/// smaller than the list of members.
pub proof fn lemma_lookup_present(members: Seq<(Seq<char>, JsonView)>, key: Seq<char>)
    ensures
        lookup(members, key) matches Lookup::Present(v) ==> exists|i: int|
            0 <= i < members.len() && members[i].0 == key && #[trigger] members[i].1 == v,
        lookup(members, key) matches Lookup::Present(v) ==> decreases_to!(members => v),
    decreases members.len(),
{
    if members.len() > 0 {
        let front = members.drop_last();
        lemma_lookup_present(front, key);
        match lookup(members, key) {
            Lookup::Present(v) => {
                if members.last().0 == key {
                    assert(members[members.len() - 1].1 == v);
                } else {
                    let i = choose|i: int|
                        0 <= i < front.len() && front[i].0 == key && #[trigger] front[i].1 == v;
                    assert(members[i].1 == v);
                }
            },
            _ => {},
        }
    }
}

/// Where exactly one member has the key, its value is what is found.
pub proof fn lemma_lookup_unique(members: Seq<(Seq<char>, JsonView)>, key: Seq<char>, i: int)
    requires
        0 <= i < members.len(),
        members[i].0 == key,
        forall|k: int| 0 <= k < members.len() && k != i ==> (#[trigger] members[k]).0 != key,
    ensures
        lookup(members, key) == Lookup::Present(members[i].1),
    decreases members.len(),
{
    let front = members.drop_last();
    if i == members.len() - 1 {
        lemma_lookup_absent(front, key);
    } else {
        lemma_lookup_unique(front, key, i);
    }
}

/// Where no member has the key, nothing is found.
pub proof fn lemma_lookup_absent(members: Seq<(Seq<char>, JsonView)>, key: Seq<char>)
    requires
        forall|k: int| 0 <= k < members.len() ==> (#[trigger] members[k]).0 != key,
    ensures
        lookup(members, key) == Lookup::<JsonView>::Absent,
    decreases members.len(),
{
    if members.len() > 0 {
        lemma_lookup_absent(members.drop_last(), key);
    }
}

impl Json {
    /// The kind of this value.
    pub fn kind(&self) -> (k: JsonKind)
        ensures
            k == self@.kind(),
    {
        match self {
            Json::Null => JsonKind::Null,
            Json::Bool(_) => JsonKind::Bool,
            Json::Number(Number::Int(_)) => JsonKind::Integer,
            Json::Number(Number::Double(_)) => JsonKind::Double,
            Json::String(_) => JsonKind::String,
            Json::Array(_) => JsonKind::Array,
            Json::Object(_) => JsonKind::Object,
        }
    }
}

/// Searches the members of an object for `key`, reading every member.
pub fn find_member<'a>(members: &'a Vec<(String, Json)>, key: &str) -> (r: Lookup<&'a Json>)
    ensures
        match r {
            Lookup::Absent => lookup(json_members_view(members@), key@) == Lookup::<
                JsonView,
            >::Absent,
            Lookup::Present(v) => lookup(json_members_view(members@), key@) == Lookup::Present(v@)
                && decreases_to!(members => v),
            Lookup::Repeated => lookup(json_members_view(members@), key@) == Lookup::<
                JsonView,
            >::Repeated,
        },
{
    let mut found: Lookup<&Json> = Lookup::Absent;
    let mut i: usize = 0;
    let ghost all = json_members_view(members@);
    while i < members.len()
        invariant
            i <= members.len(),
            all == json_members_view(members@),
            match found {
                Lookup::Absent => lookup(all.subrange(0, i as int), key@) == Lookup::<
                    JsonView,
                >::Absent,
                Lookup::Present(v) => lookup(all.subrange(0, i as int), key@) == Lookup::Present(
                    v@,
                ) && decreases_to!(members => v),
                Lookup::Repeated => lookup(all.subrange(0, i as int), key@) == Lookup::<
                    JsonView,
                >::Repeated,
            },
        decreases members.len() - i,
    {
        proof {
            assert(all.subrange(0, i + 1).drop_last() =~= all.subrange(0, i as int));
            assert(all.subrange(0, i + 1).last() == all[i as int]);
        }
        if str_eq(members[i].0.as_str(), key) {
            found =
            match found {
                Lookup::Absent => Lookup::Present(&members[i].1),
                _ => Lookup::Repeated,
            };
        }
        i += 1;
    }
    proof {
        assert(all.subrange(0, i as int) =~= all);
    }
    found
}

/// A copy of a JSON value.
pub fn clone_json(j: &Json) -> (r: Json)
    ensures
        r@ == j@,
    decreases j,
{
    match j {
        Json::Null => Json::Null,
        Json::Bool(b) => Json::Bool(*b),
        Json::Number(n) => Json::Number(*n),
        Json::String(s) => Json::String(s.clone()),
        Json::Array(items) => {
            let mut out: Vec<Json> = Vec::new();
            let mut i: usize = 0;
            while i < items.len()
                invariant
                    i <= items.len(),
                    decreases_to!(j => items),
                    out@.len() == i,
                    forall|k: int| 0 <= k < i ==> (#[trigger] out@[k])@ == items@[k]@,
                decreases items.len() - i,
            {
                let item = clone_json(&items[i]);
                out.push(item);
                i += 1;
            }
            proof {
                assert(json_seq_view(out@) =~= json_seq_view(items@));
            }
            Json::Array(out)
        },
        Json::Object(members) => {
            let mut out: Vec<(String, Json)> = Vec::new();
            let mut i: usize = 0;
            while i < members.len()
                invariant
                    i <= members.len(),
                    decreases_to!(j => members),
                    out@.len() == i,
                    forall|k: int|
                        0 <= k < i ==> (#[trigger] out@[k]).0@ == members@[k].0@ && out@[k].1@
                            == members@[k].1@,
                decreases members.len() - i,
            {
                let key = members[i].0.clone();
                let value = clone_json(&members[i].1);
                out.push((key, value));
                i += 1;
            }
            proof {
                assert(json_members_view(out@) =~= json_members_view(members@));
            }
            Json::Object(out)
        },
    }
}

impl Clone for Json {
    /// A copy with the same model.
    fn clone(&self) -> (r: Json)
        ensures
            r@ == self@,
    {
        clone_json(self)
    }
}

/// Whether two JSON values are equal: of the same kind, with equal
/// contents in the same order.
pub fn eq_json(a: &Json, b: &Json) -> (r: bool)
    ensures
        r == (a@ == b@),
    decreases a,
{
    match (a, b) {
        (Json::Null, Json::Null) => true,
        (Json::Bool(x), Json::Bool(y)) => *x == *y,
        (Json::Number(x), Json::Number(y)) => *x == *y,
        (Json::String(x), Json::String(y)) => str_eq(x.as_str(), y.as_str()),
        (Json::Array(x), Json::Array(y)) => {
            if x.len() != y.len() {
                proof {
                    assert(json_seq_view(x@).len() != json_seq_view(y@).len());
                }
                return false;
            }
            let mut i: usize = 0;
            while i < x.len()
                invariant
                    i <= x.len(),
                    x.len() == y.len(),
                    decreases_to!(a => x),
                    a@ == JsonView::Array(json_seq_view(x@)),
                    b@ == JsonView::Array(json_seq_view(y@)),
                    forall|k: int| 0 <= k < i ==> (#[trigger] x@[k])@ == y@[k]@,
                decreases x.len() - i,
            {
                if !eq_json(&x[i], &y[i]) {
                    proof {
                        assert(json_seq_view(x@)[i as int] != json_seq_view(y@)[i as int]);
                    }
                    return false;
                }
                i += 1;
            }
            proof {
                assert(json_seq_view(x@) =~= json_seq_view(y@));
            }
            true
        },
        (Json::Object(x), Json::Object(y)) => {
            if x.len() != y.len() {
                proof {
                    assert(json_members_view(x@).len() != json_members_view(y@).len());
                }
                return false;
            }
            let mut i: usize = 0;
            while i < x.len()
                invariant
                    i <= x.len(),
                    x.len() == y.len(),
                    decreases_to!(a => x),
                    a@ == JsonView::Object(json_members_view(x@)),
                    b@ == JsonView::Object(json_members_view(y@)),
                    forall|k: int|
                        0 <= k < i ==> (#[trigger] x@[k]).0@ == y@[k].0@ && x@[k].1@ == y@[k].1@,
                decreases x.len() - i,
            {
                if !(str_eq(x[i].0.as_str(), y[i].0.as_str()) && eq_json(&x[i].1, &y[i].1)) {
                    proof {
                        assert(json_members_view(x@)[i as int] != json_members_view(y@)[i as int]);
                    }
                    return false;
                }
                i += 1;
            }
            proof {
                assert(json_members_view(x@) =~= json_members_view(y@));
            }
            true
        },
        _ => false,
    }
}

impl PartialEq for Json {
    fn eq(&self, other: &Json) -> (r: bool) {
        eq_json(self, other)
    }
}

impl PartialEqSpecImpl for Json {
    open spec fn obeys_eq_spec() -> bool {
        true
    }

    open spec fn eq_spec(&self, other: &Json) -> bool {
        self@ == other@
    }
}

} // verus!

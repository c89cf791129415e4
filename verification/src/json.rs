//! Structured values: the data that the execution context stores and that
//! configuration documents are made of.
//!
//! A [`Json`] value is a tree. Its view, [`JsonView`], is the same tree over
//! mathematical sequences; every contract that speaks of a value speaks of
//! its view.
use vstd::prelude::*;
use crate::text::{
    last_index, lemma_last_index, lemma_last_index_is, lemma_last_index_none, same_text,
};

verus! {

#[verifier::external_type_specification]
#[verifier::external_body]
pub struct ExNumber(serde_json::Number);

/// A structured, dynamically typed value.
///
/// An object is an ordered list of entries. Where a key occurs more than
/// once, the last entry with that key is the one that counts, as it is when a
/// document with a repeated key is read.
#[derive(Debug, PartialEq)]
pub enum Json {
    Null,
    Bool(bool),
    Number(serde_json::Number),
    String(String),
    Array(Vec<Json>),
    Object(Vec<Member>),
}

/// One entry of an object: a key and the value under it.
#[derive(Debug, PartialEq)]
pub struct Member {
    pub key: String,
    pub value: Json,
}

/// The mathematical model of a [`Member`].
pub struct MemberView {
    pub key: Seq<char>,
    pub value: JsonView,
}

/// The mathematical model of a [`Json`] value.
pub enum JsonView {
    Null,
    Bool(bool),
    Number(serde_json::Number),
    String(Seq<char>),
    Array(Seq<JsonView>),
    Object(Seq<MemberView>),
}

/// The entries of an object, as the contracts see them.
pub type Entries = Seq<MemberView>;

impl View for Json {
    type V = JsonView;

    open spec fn view(&self) -> JsonView
        decreases self,
    {
        match self {
            Json::Null => JsonView::Null,
            Json::Bool(b) => JsonView::Bool(*b),
            Json::Number(n) => JsonView::Number(*n),
            Json::String(s) => JsonView::String(s@),
            Json::Array(items) => JsonView::Array(
                Seq::new(
                    items@.len(),
                    |i: int|
                        if 0 <= i < items@.len() {
                            items@[i].view()
                        } else {
                            JsonView::Null
                        },
                ),
            ),
            Json::Object(entries) => JsonView::Object(
                Seq::new(
                    entries@.len(),
                    |i: int|
                        if 0 <= i < entries@.len() {
                            MemberView { key: entries@[i].key@, value: entries@[i].value.view() }
                        } else {
                            MemberView { key: Seq::empty(), value: JsonView::Null }
                        },
                ),
            ),
        }
    }
}

/// The views of a list of values, item by item.
pub open spec fn views_of(items: Seq<Json>) -> Seq<JsonView> {
    Seq::new(items.len(), |i: int| items[i]@)
}

/// The views of a list of entries, entry by entry.
pub open spec fn entries_of(entries: Seq<Member>) -> Entries {
    Seq::new(entries.len(), |i: int| MemberView { key: entries[i].key@, value: entries[i].value@ })
}

/// The view of an array is the list of its items' views.
pub proof fn lemma_array_view(items: Vec<Json>)
    ensures
        Json::Array(items)@ == JsonView::Array(views_of(items@)),
{
    assert(Json::Array(items)@->Array_0 =~= views_of(items@));
}

/// The view of an object is the list of its entries' views.
pub proof fn lemma_object_view(entries: Vec<Member>)
    ensures
        Json::Object(entries)@ == JsonView::Object(entries_of(entries@)),
{
    assert(Json::Object(entries)@->Object_0 =~= entries_of(entries@));
}

/// The keys of a list of entries, entry by entry.
pub open spec fn keys_of(entries: Entries) -> Seq<Seq<char>> {
    Seq::new(entries.len(), |i: int| entries[i].key)
}

/// The position of the last entry of `entries` whose key is `key`, if there
/// is one.
pub open spec fn last_position(entries: Entries, key: Seq<char>) -> Option<int> {
    last_index(keys_of(entries), key)
}

/// The value that `entries` gives to `key`: that of the last entry with that
/// key.
pub open spec fn lookup(entries: Entries, key: Seq<char>) -> Option<JsonView> {
    match last_position(entries, key) {
        Some(i) => Some(entries[i].value),
        None => None,
    }
}

/// `entries` with `key` set to `value`: the entry that counted for `key` is
/// overwritten in place, and a key that was absent is added at the end.
pub open spec fn put(entries: Entries, key: Seq<char>, value: JsonView) -> Entries {
    match last_position(entries, key) {
        Some(i) => entries.update(i, MemberView { key, value }),
        None => entries.push(MemberView { key, value }),
    }
}

/// The mapping that a list of entries stands for: each key that occurs, with
/// the value that `lookup` gives it.
pub open spec fn entries_map(entries: Entries) -> Map<Seq<char>, JsonView> {
    Map::new(
        |key: Seq<char>| lookup(entries, key) is Some,
        |key: Seq<char>| lookup(entries, key)->Some_0,
    )
}

/// `put` on a list of entries is `insert` on the mapping it stands for.
pub proof fn lemma_put_is_insert(entries: Entries, key: Seq<char>, value: JsonView)
    ensures
        entries_map(put(entries, key, value)) == entries_map(entries).insert(key, value),
{
    let after = entries_map(put(entries, key, value));
    let expected = entries_map(entries).insert(key, value);
    lemma_put_then_lookup(entries, key, value);
    assert forall|k: Seq<char>| #[trigger] after.contains_key(k) == expected.contains_key(k) by {
        if k != key {
            lemma_put_keeps_others(entries, key, value, k);
        }
    }
    assert forall|k: Seq<char>| #[trigger] after.contains_key(k) implies after[k] == expected[k] by {
        if k != key {
            lemma_put_keeps_others(entries, key, value, k);
        }
    }
    assert(after =~= expected);
}

/// The keys after `put`: the same keys where the key was there, and the key
/// added at the end where it was not.
pub proof fn lemma_keys_after_put(entries: Entries, key: Seq<char>, value: JsonView)
    ensures
        keys_of(put(entries, key, value)) == match last_position(entries, key) {
            Some(i) => keys_of(entries),
            None => keys_of(entries).push(key),
        },
{
    lemma_last_index(keys_of(entries), key);
    let after = keys_of(put(entries, key, value));
    match last_position(entries, key) {
        Some(i) => {
            assert(after =~= keys_of(entries));
        },
        None => {
            assert(after =~= keys_of(entries).push(key));
        },
    }
}

/// Reading a key back after `put` gives the value that was put.
pub proof fn lemma_put_then_lookup(entries: Entries, key: Seq<char>, value: JsonView)
    ensures
        lookup(put(entries, key, value), key) == Some(value),
{
    lemma_last_index(keys_of(entries), key);
    lemma_keys_after_put(entries, key, value);
    let after = put(entries, key, value);
    match last_position(entries, key) {
        Some(i) => {
            lemma_last_index_is(keys_of(after), key, i);
        },
        None => {
            lemma_last_index_is(keys_of(after), key, entries.len() as int);
        },
    }
}

/// `put` leaves every other key as it was.
pub proof fn lemma_put_keeps_others(
    entries: Entries,
    key: Seq<char>,
    value: JsonView,
    other: Seq<char>,
)
    requires
        other != key,
    ensures
        lookup(put(entries, key, value), other) == lookup(entries, other),
{
    lemma_last_index(keys_of(entries), key);
    lemma_last_index(keys_of(entries), other);
    lemma_keys_after_put(entries, key, value);
    let after = put(entries, key, value);
    match last_position(entries, other) {
        Some(j) => {
            lemma_last_index_is(keys_of(after), other, j);
        },
        None => {
            lemma_last_index_none(keys_of(after), other);
        },
    }
}

/// A copy of a number.
///
/// Trusted: `Clone::clone` of `serde_json::Number`, which hands back a number
/// equal to the one it was given.
#[verifier::external_body]
fn copy_number(n: &serde_json::Number) -> (r: serde_json::Number)
    ensures
        r == *n,
{
    n.clone()
}

impl Clone for Json {
    /// A deep copy: the same tree, in storage of its own.
    fn clone(&self) -> (r: Json)
        ensures
            r@ == self@,
        decreases self,
    {
        match self {
            Json::Null => Json::Null,
            Json::Bool(b) => Json::Bool(*b),
            Json::Number(n) => Json::Number(copy_number(n)),
            Json::String(s) => Json::String(s.clone()),
            Json::Array(items) => {
                let mut out: Vec<Json> = Vec::new();
                let mut i: usize = 0;
                while i < items.len()
                    invariant
                        i <= items.len(),
                        out@.len() == i,
                        self is Array,
                        self->Array_0 == *items,
                        forall|j: int| 0 <= j < i ==> out@[j]@ == items@[j]@,
                    decreases items.len() - i,
                {
                    proof {
                        vstd::std_specs::vec::axiom_vec_index_decreases(*items, i as int);
                    }
                    let item = items[i].clone();
                    out.push(item);
                    i = i + 1;
                }
                proof {
                    lemma_array_view(*items);
                    lemma_array_view(out);
                    assert(views_of(out@) =~= views_of(items@));
                }
                Json::Array(out)
            },
            Json::Object(entries) => {
                let mut out: Vec<Member> = Vec::new();
                let mut i: usize = 0;
                while i < entries.len()
                    invariant
                        i <= entries.len(),
                        out@.len() == i,
                        self is Object,
                        self->Object_0 == *entries,
                        forall|j: int|
                            0 <= j < i ==> out@[j].key@ == entries@[j].key@ && out@[j].value@
                                == entries@[j].value@,
                    decreases entries.len() - i,
                {
                    proof {
                        vstd::std_specs::vec::axiom_vec_index_decreases(*entries, i as int);
                    }
                    let value = entries[i].value.clone();
                    out.push(Member { key: entries[i].key.clone(), value });
                    i = i + 1;
                }
                proof {
                    lemma_object_view(*entries);
                    lemma_object_view(out);
                    assert(entries_of(out@) =~= entries_of(entries@));
                }
                Json::Object(out)
            },
        }
    }
}

impl Json {
    /// True exactly for an object.
    pub fn is_object(&self) -> (r: bool)
        ensures
            r == (self@ is Object),
    {
        match self {
            Json::Object(_) => true,
            _ => false,
        }
    }

    /// The text of a string value; `None` for every other kind of value.
    pub fn as_str(&self) -> (r: Option<&str>)
        ensures
            match self@ {
                JsonView::String(s) => r matches Some(t) && t@ == s,
                _ => r is None,
            },
    {
        match self {
            Json::String(s) => Some(s.as_str()),
            _ => None,
        }
    }

    /// A string value holding the characters of `s`.
    pub fn text(s: &str) -> (r: Json)
        ensures
            r@ == JsonView::String(s@),
    {
        Json::String(s.to_owned())
    }

    /// The value under `key` in an object: that of the last entry with that
    /// key. `None` where no entry has the key, and for anything but an object.
    pub fn get(&self, key: &str) -> (r: Option<&Json>)
        ensures
            match self@ {
                JsonView::Object(entries) => match lookup(entries, key@) {
                    Some(v) => r matches Some(found) && found@ == v,
                    None => r is None,
                },
                _ => r is None,
            },
    {
        match self {
            Json::Object(entries) => {
                proof {
                    lemma_object_view(*entries);
                }
                let mut i: usize = entries.len();
                while i > 0
                    invariant
                        i <= entries.len(),
                        self@ == JsonView::Object(entries_of(entries@)),
                        forall|j: int| i <= j < entries.len() ==> entries@[j].key@ != key@,
                    decreases i,
                {
                    i = i - 1;
                    if same_text(entries[i].key.as_str(), key) {
                        proof {
                            lemma_last_index_is(keys_of(entries_of(entries@)), key@, i as int);
                        }
                        return Some(&entries[i].value);
                    }
                }
                proof {
                    lemma_last_index_none(keys_of(entries_of(entries@)), key@);
                }
                None
            },
            _ => None,
        }
    }

    /// Sets `key` to `value` in an object, as [`put`] says. Anything but an
    /// object is handed back unchanged.
    pub fn with_member(self, key: String, value: Json) -> (r: Json)
        ensures
            match self@ {
                JsonView::Object(entries) => r@ == JsonView::Object(put(entries, key@, value@)),
                _ => r@ == self@,
            },
    {
        match self {
            Json::Object(entries) => {
                let mut entries = entries;
                let ghost before = entries_of(entries@);
                proof {
                    lemma_object_view(entries);
                }
                let mut i: usize = entries.len();
                while i > 0
                    invariant
                        i <= entries.len(),
                        entries_of(entries@) == before,
                        self@ == JsonView::Object(before),
                        forall|j: int| i <= j < entries.len() ==> entries@[j].key@ != key@,
                    decreases i,
                {
                    i = i - 1;
                    if same_text(entries[i].key.as_str(), key.as_str()) {
                        proof {
                            lemma_last_index_is(keys_of(before), key@, i as int);
                        }
                        entries.set(i, Member { key, value });
                        proof {
                            lemma_object_view(entries);
                            assert(entries_of(entries@) =~= put(before, key@, value@));
                        }
                        return Json::Object(entries);
                    }
                }
                proof {
                    lemma_last_index_none(keys_of(before), key@);
                }
                entries.push(Member { key, value });
                proof {
                    lemma_object_view(entries);
                    assert(entries_of(entries@) =~= put(before, key@, value@));
                }
                Json::Object(entries)
            },
            other => other,
        }
    }
}

} // verus!

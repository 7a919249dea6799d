//! A map from text to text with its keys in order, and its rendering as JSON.
//!
//! The map keeps its entries in a vector, sorted by key and with no key
//! twice. Turning a map into JSON text is serde_json's work; written to a
//! vector of bytes, with texts for keys, it does not fail.

use vstd::prelude::*;
use std::collections::BTreeMap;
use crate::errors::FeedError;
use crate::util::text::{
    lemma_text_before_strict, lemma_text_before_transitive, text_before, text_of, text_rank, Rank,
};

verus! {

#[verifier::external_type_specification]
#[verifier::external_body]
pub struct ExJsonError(serde_json::Error);

/// The text that serde_json's `to_string` writes for a map from text to text
/// with these entries.
pub uninterp spec fn json_object_text(entries: Map<Seq<char>, Seq<char>>) -> Seq<char>;

/// The text that serde_json's `to_string` writes for a map whose one entry
/// leads from `key` to the number `number`.
pub uninterp spec fn json_number_entry_text(key: Seq<char>, number: i64) -> Seq<char>;

/// The text that serde_json's `to_string` writes for a map whose one entry
/// leads from `key` to a map from text to text with the entries `inner`.
pub uninterp spec fn json_nested_entry_text(
    key: Seq<char>,
    inner: Map<Seq<char>, Seq<char>>,
) -> Seq<char>;

/// What is owed by a function that writes JSON text: it succeeds, and the
/// text is the one given.
pub open spec fn json_result(r: Result<String, FeedError>, text: Seq<char>) -> bool {
    match r {
        Ok(t) => t@ == text,
        Err(_) => false,
    }
}

/// The map that a list of entries stands for; of two entries with one key the later counts.
pub open spec fn entries_of(list: Seq<(String, String)>) -> Map<Seq<char>, Seq<char>>
    decreases list.len(),
{
    if list.len() == 0 {
        Map::empty()
    } else {
        entries_of(list.drop_last()).insert(list.last().0@, list.last().1@)
    }
}

/// Whether the keys of a list of entries stand in strictly ascending order of their UTF-8 bytes.
pub open spec fn ascending(list: Seq<(String, String)>) -> bool {
    forall|i: int, j: int| 0 <= i < j < list.len() ==> text_before(list[i].0@, list[j].0@)
}

/// A map from text to text that hands out its keys in ascending order.
#[derive(Debug)]
pub struct JsonMap {
    entries: Vec<(String, String)>,
}

impl View for JsonMap {
    type V = Map<Seq<char>, Seq<char>>;

    closed spec fn view(&self) -> Map<Seq<char>, Seq<char>> {
        entries_of(self.entries@)
    }
}

proof fn lemma_entries_domain(list: Seq<(String, String)>, key: Seq<char>)
    ensures
        entries_of(list).dom().contains(key) <==> exists|i: int|
            0 <= i < list.len() && #[trigger] list[i].0@ == key,
    decreases list.len(),
{
    if list.len() > 0 {
        let head = list.drop_last();
        lemma_entries_domain(head, key);
        if entries_of(list).dom().contains(key) {
            if list.last().0@ == key {
                assert(list[list.len() - 1].0@ == key);
            } else {
                let i = choose|i: int| 0 <= i < head.len() && #[trigger] head[i].0@ == key;
                assert(list[i].0@ == key);
            }
        } else {
            assert forall|i: int| 0 <= i < list.len() implies #[trigger] list[i].0@ != key by {
                if i < list.len() - 1 {
                    assert(head[i].0@ == list[i].0@);
                }
            }
        }
    }
}

proof fn lemma_entries_finite(list: Seq<(String, String)>)
    ensures
        entries_of(list).dom().finite(),
    decreases list.len(),
{
    if list.len() > 0 {
        lemma_entries_finite(list.drop_last());
    }
}

proof fn lemma_entries_value(list: Seq<(String, String)>, i: int)
    requires
        ascending(list),
        0 <= i < list.len(),
    ensures
        entries_of(list).dom().contains(list[i].0@),
        entries_of(list)[list[i].0@] == list[i].1@,
    decreases list.len(),
{
    let head = list.drop_last();
    if i < list.len() - 1 {
        assert(ascending(head)) by {
            assert forall|a: int, b: int| 0 <= a < b < head.len() implies text_before(
                head[a].0@,
                head[b].0@,
            ) by {
                assert(head[a] == list[a] && head[b] == list[b]);
            }
        }
        assert(head[i] == list[i]);
        lemma_entries_value(head, i);
        lemma_text_before_strict(list[i].0@, list.last().0@);
    }
}

/// Putting an entry with a new key at its place leaves the map with that entry added.
proof fn lemma_entries_insert(list: Seq<(String, String)>, at: int, entry: (String, String))
    requires
        0 <= at <= list.len(),
        forall|i: int| 0 <= i < list.len() ==> #[trigger] list[i].0@ != entry.0@,
    ensures
        entries_of(list.insert(at, entry)) == entries_of(list).insert(entry.0@, entry.1@),
    decreases list.len(),
{
    let grown = list.insert(at, entry);
    if at == list.len() {
        assert(grown.drop_last() =~= list);
    } else {
        let head = list.drop_last();
        assert(grown.drop_last() =~= head.insert(at, entry));
        assert(grown.last() == list.last());
        assert forall|i: int| 0 <= i < head.len() implies #[trigger] head[i].0@ != entry.0@ by {
            assert(head[i] == list[i]);
        }
        lemma_entries_insert(head, at, entry);
        assert(list[list.len() - 1].0@ != entry.0@);
        assert(entries_of(grown) =~= entries_of(list).insert(entry.0@, entry.1@));
    }
}

/// Replacing the entry of a key leaves the map with that key's value changed.
proof fn lemma_entries_update(list: Seq<(String, String)>, at: int, entry: (String, String))
    requires
        ascending(list),
        0 <= at < list.len(),
        list[at].0@ == entry.0@,
    ensures
        entries_of(list.update(at, entry)) == entries_of(list).insert(entry.0@, entry.1@),
    decreases list.len(),
{
    let changed = list.update(at, entry);
    let head = list.drop_last();
    if at == list.len() - 1 {
        assert(changed.drop_last() =~= head);
        assert(entries_of(changed) =~= entries_of(list).insert(entry.0@, entry.1@));
    } else {
        assert(changed.drop_last() =~= head.update(at, entry));
        assert(changed.last() == list.last());
        assert(ascending(head)) by {
            assert forall|a: int, b: int| 0 <= a < b < head.len() implies text_before(
                head[a].0@,
                head[b].0@,
            ) by {
                assert(head[a] == list[a] && head[b] == list[b]);
            }
        }
        assert(head[at] == list[at]);
        lemma_entries_update(head, at, entry);
        lemma_text_before_strict(list[at].0@, list.last().0@);
        assert(entries_of(changed) =~= entries_of(list).insert(entry.0@, entry.1@));
    }
}

/// Calls serde_json's `to_string` on a `BTreeMap` from text to text that
/// holds the map's entries. The contract gives the text its name.
/// `to_string` fails only where the writer under it does or where a key is
/// no text; it writes to a vector of bytes, and the keys are texts: so the
/// result is `Ok`.
#[verifier::external_body]
fn text_map_to_json(map: &JsonMap) -> (r: Result<String, serde_json::Error>)
    ensures
        r is Ok,
        r->Ok_0@ == json_object_text(map@),
{
    let entries: BTreeMap<&str, &str> =
        map.entries.iter().map(|e| (e.0.as_str(), e.1.as_str())).collect();
    serde_json::to_string(&entries)
}

/// Calls serde_json's `to_string` on a `BTreeMap` from text to `i64` with
/// the one entry given. The contract gives the text its name; the result is
/// `Ok`, as for a map from text to text.
#[verifier::external_body]
fn number_entry_to_json(key: &str, number: i64) -> (r: Result<String, serde_json::Error>)
    ensures
        r is Ok,
        r->Ok_0@ == json_number_entry_text(key@, number),
{
    let entries: BTreeMap<&str, i64> = BTreeMap::from([(key, number)]);
    serde_json::to_string(&entries)
}

/// Calls serde_json's `to_string` on a `BTreeMap` whose one entry leads from
/// `key` to a `BTreeMap` from text to text that holds the entries of `inner`.
/// The contract gives the text its name; the result is `Ok`, as for a map
/// from text to text.
#[verifier::external_body]
fn nested_entry_to_json(key: &str, inner: &JsonMap) -> (r: Result<String, serde_json::Error>)
    ensures
        r is Ok,
        r->Ok_0@ == json_nested_entry_text(key@, inner@),
{
    let entries: BTreeMap<&str, &str> =
        inner.entries.iter().map(|e| (e.0.as_str(), e.1.as_str())).collect();
    serde_json::to_string(&BTreeMap::from([(key, entries)]))
}

/// Sets the value of `key` in a list of entries with ascending keys: in
/// place of the entry that the key has, or where a new entry belongs.
fn put(entries: &mut Vec<(String, String)>, key: &str, value: String)
    requires
        ascending(old(entries)@),
    ensures
        ascending(final(entries)@),
        entries_of(final(entries)@) == entries_of(old(entries)@).insert(key@, value@),
{
    let mut at: usize = 0;
    while at < entries.len()
        invariant
            at <= entries.len(),
            entries@ == old(entries)@,
            ascending(entries@),
            forall|i: int| 0 <= i < at ==> text_before(#[trigger] entries@[i].0@, key@),
        decreases entries.len() - at,
    {
        match text_rank(entries[at].0.as_str(), key) {
            Rank::Before => {
                at += 1;
            },
            Rank::Same => {
                let entry = (text_of(key), value);
                proof {
                    lemma_entries_update(entries@, at as int, entry);
                    let list = entries@;
                    let changed = list.update(at as int, entry);
                    assert forall|i: int, j: int| 0 <= i < j < changed.len() implies text_before(
                        changed[i].0@,
                        changed[j].0@,
                    ) by {
                        assert(changed[i].0@ == list[i].0@ && changed[j].0@ == list[j].0@);
                    }
                }
                entries.set(at, entry);
                return ;
            },
            Rank::After => {
                proof {
                    let list = entries@;
                    lemma_text_before_strict(list[at as int].0@, key@);
                    assert forall|i: int| at <= i < list.len() implies text_before(
                        key@,
                        #[trigger] list[i].0@,
                    ) by {
                        if i > at {
                            lemma_text_before_transitive(key@, list[at as int].0@, list[i].0@);
                        }
                    }
                }
                place(entries, at, key, value);
                return ;
            },
        }
    }
    place(entries, at, key, value);
}

/// Puts a new entry at the index `at`, where its key belongs.
fn place(entries: &mut Vec<(String, String)>, at: usize, key: &str, value: String)
    requires
        ascending(old(entries)@),
        at <= old(entries)@.len(),
        forall|i: int| 0 <= i < at ==> text_before(#[trigger] old(entries)@[i].0@, key@),
        forall|i: int|
            at <= i < old(entries)@.len() ==> text_before(
                key@,
                #[trigger] old(entries)@[i].0@,
            ),
    ensures
        ascending(final(entries)@),
        entries_of(final(entries)@) == entries_of(old(entries)@).insert(key@, value@),
{
    let entry = (text_of(key), value);
    proof {
        let list = entries@;
        assert forall|i: int| 0 <= i < list.len() implies #[trigger] list[i].0@ != key@ by {
            lemma_text_before_strict(list[i].0@, key@);
            lemma_text_before_strict(key@, list[i].0@);
        }
        lemma_entries_insert(list, at as int, entry);
        let grown = list.insert(at as int, entry);
        assert forall|i: int, j: int| 0 <= i < j < grown.len() implies text_before(
            grown[i].0@,
            grown[j].0@,
        ) by {
            let a = if i < at { i } else { i - 1 };
            let b = if j < at { j } else { j - 1 };
            if i != at && j != at {
                assert(grown[i] == list[a] && grown[j] == list[b]);
            }
        }
    }
    entries.insert(at, entry);
}

impl JsonMap {
    /// Every map has its keys in strictly ascending order, so none occurs twice.
    #[verifier::type_invariant]
    pub closed spec fn wf(self) -> bool {
        ascending(self.entries@)
    }

    /// The keys in the order in which the map hands them out.
    pub closed spec fn key_order(self) -> Seq<Seq<char>> {
        Seq::new(self.entries@.len(), |i: int| self.entries@[i].0@)
    }

    /// The keys of a map stand in strictly ascending order of their UTF-8
    /// bytes, and they are the keys that the map has a value for, each once.
    /// `wf` holds of every map that there is.
    pub proof fn lemma_keys_ascend(self)
        requires
            self.wf(),
        ensures
            forall|i: int, j: int|
                0 <= i < j < self.key_order().len() ==> text_before(
                    #[trigger] self.key_order()[i],
                    #[trigger] self.key_order()[j],
                ),
            forall|i: int, j: int|
                0 <= i < j < self.key_order().len() ==> self.key_order()[i] != self.key_order()[j],
            forall|k: Seq<char>| self@.dom().contains(k) <==> self.key_order().contains(k),
    {
        let keys = self.key_order();
        assert forall|i: int, j: int| 0 <= i < j < keys.len() implies keys[i] != keys[j] by {
            lemma_text_before_strict(keys[i], keys[j]);
        }
        assert forall|k: Seq<char>| self@.dom().contains(k) <==> keys.contains(k) by {
            lemma_entries_domain(self.entries@, k);
            if self@.dom().contains(k) {
                let i = choose|i: int|
                    0 <= i < self.entries@.len() && #[trigger] self.entries@[i].0@ == k;
                assert(keys[i] == k);
            }
            if keys.contains(k) {
                let i = choose|i: int| 0 <= i < keys.len() && keys[i] == k;
                assert(self.entries@[i].0@ == k);
            }
        }
    }

    /// An empty map.
    pub fn new() -> (r: JsonMap)
        ensures
            r@ == Map::<Seq<char>, Seq<char>>::empty(),
    {
        JsonMap { entries: Vec::new() }
    }

    /// The number of entries.
    pub fn len(&self) -> (r: usize)
        ensures
            r == self.key_order().len(),
    {
        self.entries.len()
    }

    /// Sets the value of `key`, in place of the value that the key had, if it had one.
    pub fn insert(&mut self, key: &str, value: String)
        ensures
            final(self)@ == old(self)@.insert(key@, value@),
    {
        proof {
            use_type_invariant(&*self);
        }
        let mut entries: Vec<(String, String)> = Vec::new();
        core::mem::swap(&mut self.entries, &mut entries);
        put(&mut entries, key, value);
        self.entries = entries;
    }

    /// The value of `key`, if the map has one.
    pub fn get(&self, key: &str) -> (r: Option<String>)
        ensures
            r is Some <==> self@.dom().contains(key@),
            r matches Some(v) ==> v@ == self@[key@],
    {
        proof {
            use_type_invariant(self);
            lemma_entries_domain(self.entries@, key@);
        }
        let mut at: usize = 0;
        while at < self.entries.len()
            invariant
                at <= self.entries.len(),
                ascending(self.entries@),
                forall|i: int| 0 <= i < at ==> #[trigger] self.entries@[i].0@ != key@,
            decreases self.entries.len() - at,
        {
            if let Rank::Same = text_rank(self.entries[at].0.as_str(), key) {
                proof {
                    lemma_entries_value(self.entries@, at as int);
                }
                return Some(self.entries[at].1.clone());
            }
            at += 1;
        }
        None
    }

    /// The keys, in the order in which the map hands them out: strictly
    /// ascending by their UTF-8 bytes, each key of the map once.
    pub fn keys(&self) -> (r: Vec<String>)
        ensures
            r.deep_view() == self.key_order(),
            forall|i: int, j: int|
                0 <= i < j < r.len() ==> text_before(#[trigger] r[i]@, #[trigger] r[j]@),
            forall|k: Seq<char>| self@.dom().contains(k) <==> r.deep_view().contains(k),
    {
        proof {
            use_type_invariant(self);
        }
        let mut out: Vec<String> = Vec::new();
        let mut at: usize = 0;
        while at < self.entries.len()
            invariant
                at <= self.entries.len(),
                out.len() == at,
                forall|i: int| 0 <= i < at ==> #[trigger] out[i]@ == self.entries@[i].0@,
            decreases self.entries.len() - at,
        {
            out.push(self.entries[at].0.clone());
            at += 1;
        }
        proof {
            assert(out.deep_view() =~= self.key_order());
            assert forall|k: Seq<char>| self@.dom().contains(k) <==> out.deep_view().contains(
                k,
            ) by {
                lemma_entries_domain(self.entries@, k);
                if self@.dom().contains(k) {
                    let i = choose|i: int|
                        0 <= i < self.entries@.len() && #[trigger] self.entries@[i].0@ == k;
                    assert(out.deep_view()[i] == k);
                }
                if out.deep_view().contains(k) {
                    let i = choose|i: int| 0 <= i < out.deep_view().len() && out.deep_view()[i] == k;
                    assert(self.entries@[i].0@ == k);
                }
            }
        }
        out
    }

    /// The map as JSON text: an object with the keys in ascending order.
    ///
    /// Always succeeds. `JsonToString`, holding `name`, is what a failure of
    /// serde_json would be reported with; on a map from text to text it has
    /// none.
    pub fn to_json(&self, name: &str) -> (r: Result<String, FeedError>)
        ensures
            json_result(r, json_object_text(self@)),
    {
        match text_map_to_json(self) {
            Ok(text) => Ok(text),
            Err(_) => Err(FeedError::JsonToString(text_of(name))),
        }
    }
}

/// The JSON text of an object with one entry, from `key` to a number.
/// Always succeeds.
pub fn number_entry_json(key: &str, number: i64) -> (r: Result<String, FeedError>)
    ensures
        json_result(r, json_number_entry_text(key@, number)),
{
    match number_entry_to_json(key, number) {
        Ok(text) => Ok(text),
        Err(_) => Err(FeedError::JsonToString(text_of(key))),
    }
}

/// The JSON text of an object with one entry, from `key` to the object of
/// `inner`. Always succeeds.
pub fn nested_entry_json(key: &str, inner: &JsonMap) -> (r: Result<String, FeedError>)
    ensures
        json_result(r, json_nested_entry_text(key@, inner@)),
{
    match nested_entry_to_json(key, inner) {
        Ok(text) => Ok(text),
        Err(_) => Err(FeedError::JsonToString(text_of(key))),
    }
}

} // verus!

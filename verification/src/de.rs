//! Adapters for collections that the platform sends as dictionaries.
//!
//! Some collections arrive as a JSON object keyed by decimal IDs rather than
//! as an array. A decoder hands the entries over in the order in which the
//! object listed them; the adapters here turn them into sequences. One keeps
//! the values, the other keeps the keys.
use vstd::prelude::*;
use vstd::utf8::encode_utf8;
use crate::decimal::{parse_i32, parse_i32_spec};
use crate::error::Error;

verus! {

/// The values that are present, in the order of their entries.
pub open spec fn present_values<T>(entries: Seq<(String, Option<T>)>) -> Seq<T> {
    entries.filter_map(|entry: (String, Option<T>)| entry.1)
}

/// Keeps the values of a dictionary and drops its keys.
///
/// Each entry carries the outcome of decoding its value: `Some` where the
/// value has the expected shape, `None` where it has not (the platform uses
/// placeholders for "no further data"). Entries without a value are skipped;
/// the others keep their order.
pub fn dict_value_to_vec<T>(entries: Vec<(String, Option<T>)>) -> (values: Vec<T>)
    ensures
        values@ == present_values(entries@),
{
    let ghost all = entries@;
    let mut values: Vec<T> = Vec::new();
    for entry in it: entries
        invariant
            it.seq() == all,
            values@ == present_values(all.take(it.index() as int)),
    {
        proof {
            all.lemma_filter_map_take_succ(|e: (String, Option<T>)| e.1, it.index() as int);
        }
        match entry.1 {
            Some(value) => {
                values.push(value);
            },
            None => {},
        }
    }
    assert(all.take(all.len() as int) =~= all);
    values
}

/// The ID that a key denotes, if the key is a decimal numeral that fits in
/// 32 bits.
pub open spec fn key_id(key: String) -> Option<i32> {
    parse_i32_spec(encode_utf8(key@))
}

/// Every key denotes an ID.
pub open spec fn all_keys_numeric<V>(entries: Seq<(String, V)>) -> bool {
    forall|i: int| 0 <= i < entries.len() ==> key_id(#[trigger] entries[i].0) is Some
}

/// The IDs that the keys denote, in the order of their entries.
pub open spec fn key_ids<V>(entries: Seq<(String, V)>) -> Seq<i32> {
    Seq::new(entries.len(), |i: int| key_id(entries[i].0)->0)
}

/// Entry `i` is the first whose key denotes no ID.
pub open spec fn first_invalid_key<V>(entries: Seq<(String, V)>, i: int) -> bool {
    &&& 0 <= i < entries.len()
    &&& key_id(entries[i].0) is None
    &&& forall|j: int| 0 <= j < i ==> key_id(#[trigger] entries[j].0) is Some
}

/// Keeps the keys of a dictionary, read as IDs, and drops its values.
///
/// The keys are the backbone of the collection, so one key that is not a
/// 32-bit decimal integer fails the whole call; the error names the first
/// such key. The IDs keep the order of their entries.
pub fn dict_key_to_vec<V>(entries: &Vec<(String, V)>) -> (result: Result<Vec<i32>, Error>)
    ensures
        result is Ok <==> all_keys_numeric(entries@),
        match result {
            Ok(ids) => ids@ == key_ids(entries@),
            Err(e) => exists|i: int| #[trigger]
                first_invalid_key(entries@, i) && e == Error::InvalidKey(entries@[i].0),
        },
{
    let mut ids: Vec<i32> = Vec::new();
    let mut i: usize = 0;
    while i < entries.len()
        invariant
            i <= entries.len(),
            ids@.len() == i,
            forall|j: int| 0 <= j < i ==> key_id(#[trigger] entries@[j].0) == Some(ids@[j]),
        decreases entries.len() - i,
    {
        match parse_i32(entries[i].0.as_str()) {
            Some(id) => {
                ids.push(id);
            },
            None => {
                assert(first_invalid_key(entries@, i as int));
                return Err(Error::InvalidKey(entries[i].0.clone()));
            },
        }
        i = i + 1;
    }
    assert(ids@ =~= key_ids(entries@));
    Ok(ids)
}

/// One more entry at the end adds its value at the end, if it has one, and
/// changes nothing else: entries are taken one by one, in their order.
pub proof fn lemma_present_values_push<T>(
    entries: Seq<(String, Option<T>)>,
    key: String,
    value: Option<T>,
)
    ensures
        present_values(entries.push((key, value))) == match value {
            Some(v) => present_values(entries).push(v),
            None => present_values(entries),
        },
{
    let longer = entries.push((key, value));
    assert(longer.drop_last() =~= entries);
    assert(longer.last() == (key, value));
    match value {
        Some(v) => {
            assert(present_values(entries) + seq![v] =~= present_values(entries).push(v));
        },
        None => {},
    }
}

/// A dictionary without entries has no values to keep.
pub proof fn lemma_no_entries_no_values<T>()
    ensures
        present_values(Seq::<(String, Option<T>)>::empty()) == Seq::<T>::empty(),
{
}

/// A dictionary without entries has no key that could be refused, and no
/// IDs to keep.
pub proof fn lemma_no_entries_no_ids<V>()
    ensures
        all_keys_numeric(Seq::<(String, V)>::empty()),
        key_ids(Seq::<(String, V)>::empty()) == Seq::<i32>::empty(),
{
}

} // verus!

//! A JSON value as the library reads it from on-chain asset metadata.

use vstd::prelude::*;
use crate::text::same_text;

verus! {

/// A JSON document: the metadata that BlockFrost returns, held as plain values.
#[derive(Debug)]
pub enum JsonValue {
    /// `null`
    Null,
    /// `true` or `false`
    Bool(bool),
    /// A number, kept as the text that denotes it.
    Number(String),
    /// A string.
    String(String),
    /// An array of values, in order.
    Array(Vec<JsonValue>),
    /// An object: its keys and values in order, each key once.
    Object(Vec<(String, JsonValue)>),
}

/// The value stored under `key` in the entries of an object (the first entry
/// with that key), if any.
pub open spec fn spec_object_get(entries: Seq<(String, JsonValue)>, key: Seq<char>) -> Option<JsonValue>
    decreases entries.len(),
{
    if entries.len() == 0 {
        None
    } else if entries[0].0@ == key {
        Some(entries[0].1)
    } else {
        spec_object_get(entries.drop_first(), key)
    }
}

/// The lookup finds the first entry whose key is `key`, and nothing when no
/// entry has that key.
pub proof fn lemma_object_get_finds_first(entries: Seq<(String, JsonValue)>, key: Seq<char>)
    ensures
        spec_object_get(entries, key) is None <==> forall|i: int| 0 <= i < entries.len() ==> (#[trigger] entries[i]).0@ != key,
        forall|i: int| 0 <= i < entries.len() && (#[trigger] entries[i]).0@ == key
            && (forall|j: int| 0 <= j < i ==> entries[j].0@ != key)
            ==> spec_object_get(entries, key) == Some(entries[i].1),
    decreases entries.len(),
{
    if entries.len() > 0 {
        let rest = entries.drop_first();
        lemma_object_get_finds_first(rest, key);
        assert forall|i: int| 0 <= i < rest.len() implies #[trigger] rest[i] == entries[i + 1] by {}
        if entries[0].0@ != key {
            assert forall|i: int| 0 <= i < entries.len() && (#[trigger] entries[i]).0@ == key
                && (forall|j: int| 0 <= j < i ==> entries[j].0@ != key)
                implies spec_object_get(entries, key) == Some(entries[i].1) by {
                assert(i > 0);
                assert(rest[i - 1] == entries[i]);
                assert forall|j: int| 0 <= j < i - 1 implies rest[j].0@ != key by {
                    assert(rest[j] == entries[j + 1]);
                }
            }
            if forall|i: int| 0 <= i < rest.len() ==> (#[trigger] rest[i]).0@ != key {
                assert forall|i: int| 0 <= i < entries.len() implies (#[trigger] entries[i]).0@ != key by {
                    if i > 0 { assert(rest[i - 1] == entries[i]); }
                }
            } else {
                let i = choose|i: int| 0 <= i < rest.len() && (#[trigger] rest[i]).0@ == key;
                assert(entries[i + 1] == rest[i]);
            }
        }
    }
}

/// Looks up `key` in the entries of an object.
pub fn object_get<'a>(entries: &'a Vec<(String, JsonValue)>, key: &str) -> (found: Option<&'a JsonValue>)
    ensures
        match found {
            Some(v) => spec_object_get(entries@, key@) == Some(*v),
            None => spec_object_get(entries@, key@) is None,
        },
{
    let mut i: usize = 0;
    assert(entries@.skip(0) =~= entries@);
    while i < entries.len()
        invariant
            i <= entries@.len(),
            spec_object_get(entries@, key@) == spec_object_get(entries@.skip(i as int), key@),
        decreases entries@.len() - i,
    {
        assert(entries@.skip(i as int).drop_first() =~= entries@.skip(i + 1));
        if same_text(entries[i].0.as_str(), key) {
            return Some(&entries[i].1);
        }
        i = i + 1;
    }
    None
}

} // verus!

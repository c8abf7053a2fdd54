//! The collections that the book.io API lists, and the valid collection ids
//! taken from them.

use vstd::prelude::*;
use std::collections::HashSet;
use crate::text::same_text;

verus! {

/// The top level response of the collections endpoint.
pub struct CollectionResponse {
    /// Should always be set to "success" if the request succeeded
    pub response_type: String,
    /// The collections whose ids are valid `policy_id`/`collection_id`s
    pub data: Vec<Collection>,
}

/// A collection of books on the given blockchain and network, whose
/// `collection_id` is a valid `policy_id` there.
pub struct Collection {
    /// A unique identifier that doubles as a `policy_id` on the blockchain.
    pub collection_id: String,
    /// A short human-readable description of the collection.
    pub description: String,
    /// The blockchain (i.e. `cardano`) where this collection is hosted.
    pub blockchain: String,
    /// The network (i.e. `mainnet`, `testnet`, etc) of the blockchain.
    pub network: String,
}

/// The texts of the strings that a set of strings holds.
pub open spec fn texts_of(set: HashSet<String>) -> Set<Seq<char>> {
    set@.map(|k: String| k@)
}

/// Calls `HashSet::insert`. vstd's contract for it holds only where
/// `obeys_key_model::<String>()` holds, which vstd does not state; this one
/// claims what the std documentation gives, over the strings' characters:
/// afterwards the set holds a string with the text of `text` besides what it
/// held before (where it already held one, that one stays).
#[verifier::external_body]
fn insert_text(set: &mut HashSet<String>, text: String)
    ensures
        texts_of(*final(set)) == texts_of(*old(set)).insert(text@),
{
    set.insert(text);
}

/// Calls `HashSet::contains` with a `&str` key. vstd's contract for it holds
/// only where `obeys_key_model::<String>()` holds, which vstd does not state;
/// this one claims what the std documentation gives: the set holds a string
/// equal to `text`, that is, one with the same characters.
#[verifier::external_body]
pub(crate) fn contains_text(set: &HashSet<String>, text: &str) -> (found: bool)
    ensures
        found == texts_of(*set).contains(text@),
{
    set.contains(text)
}

/// Tells whether a set of strings is empty.
pub fn set_is_empty(set: &HashSet<String>) -> (empty: bool)
    ensures
        empty == (texts_of(*set) == Set::<Seq<char>>::empty()),
{
    let empty = set.is_empty();
    if empty {
        assert(texts_of(*set) =~= Set::<Seq<char>>::empty());
    } else {
        proof {
            let k = set@.choose();
            assert(set@.contains(k));
            assert(texts_of(*set).contains(k@));
        }
    }
    empty
}

/// The collection is hosted on Cardano.
pub open spec fn is_cardano(c: Collection) -> bool {
    c.blockchain@ == "cardano"@
}

/// The ids of the Cardano collections among `data`.
pub open spec fn cardano_ids(data: Seq<Collection>) -> Set<Seq<char>> {
    Set::new(|t: Seq<char>| exists|i: int| 0 <= i < data.len() && is_cardano(#[trigger] data[i]) && data[i].collection_id@ == t)
}

/// The ids of the collections hosted on Cardano, as a set.
pub fn cardano_collection_ids(data: &Vec<Collection>) -> (ids: HashSet<String>)
    ensures
        texts_of(ids) == cardano_ids(data@),
{
    let mut ids: HashSet<String> = HashSet::new();
    assert(texts_of(ids) =~= cardano_ids(data@.take(0)));
    let mut i: usize = 0;
    while i < data.len()
        invariant
            i <= data@.len(),
            texts_of(ids) == cardano_ids(data@.take(i as int)),
        decreases data@.len() - i,
    {
        let c = &data[i];
        let ghost before = texts_of(ids);
        if same_text(c.blockchain.as_str(), "cardano") {
            insert_text(&mut ids, c.collection_id.clone());
        }
        proof {
            let t = data@.take(i + 1);
            let p = data@.take(i as int);
            assert forall|x: Seq<char>| cardano_ids(t).contains(x) <==> (cardano_ids(p).contains(x)
                || (is_cardano(data@[i as int]) && data@[i as int].collection_id@ == x)) by {
                if cardano_ids(t).contains(x) {
                    let m = choose|m: int| 0 <= m < i + 1 && is_cardano(#[trigger] t[m]) && t[m].collection_id@ == x;
                    if m < i {
                        assert(p[m] == t[m]);
                    }
                }
                if cardano_ids(p).contains(x) {
                    let m = choose|m: int| 0 <= m < i && is_cardano(#[trigger] p[m]) && p[m].collection_id@ == x;
                    assert(t[m] == p[m]);
                }
                if is_cardano(data@[i as int]) && data@[i as int].collection_id@ == x {
                    assert(t[i as int] == data@[i as int]);
                }
            }
            assert(texts_of(ids) =~= cardano_ids(t));
        }
        i = i + 1;
    }
    assert(data@.take(data@.len() as int) =~= data@);
    ids
}

/// The valid ids taken from a response are exactly the ids of its
/// collections hosted on Cardano, whatever network each is on: every
/// collection whose blockchain is `cardano` makes its id valid, and every
/// valid id is the id of such a collection.
pub proof fn lemma_valid_ids_are_cardano_collections(data: Seq<Collection>)
    ensures
        forall|i: int| 0 <= i < data.len() && (#[trigger] data[i]).blockchain@ == "cardano"@
            ==> cardano_ids(data).contains(data[i].collection_id@),
        forall|t: Seq<char>| #[trigger] cardano_ids(data).contains(t) ==>
            exists|i: int| 0 <= i < data.len() && (#[trigger] data[i]).blockchain@ == "cardano"@ && data[i].collection_id@ == t,
{
    assert forall|i: int| 0 <= i < data.len() && (#[trigger] data[i]).blockchain@ == "cardano"@
        implies cardano_ids(data).contains(data[i].collection_id@) by {
        assert(is_cardano(data[i]));
    }
    assert forall|t: Seq<char>| #[trigger] cardano_ids(data).contains(t) implies
        exists|i: int| 0 <= i < data.len() && (#[trigger] data[i]).blockchain@ == "cardano"@ && data[i].collection_id@ == t by {
        let i = choose|i: int| 0 <= i < data.len() && is_cardano(#[trigger] data[i]) && data[i].collection_id@ == t;
        assert(data[i].blockchain@ == "cardano"@);
    }
}

} // verus!

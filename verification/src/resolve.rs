//! The identifier resolver: mapping a user token (literal title or
//! display index) to a server identifier, against one enumeration
//! snapshot.
//!
//! A display index is only meaningful relative to the enumeration it
//! was computed from, so callers must resolve every token of a batch
//! against a single freshly fetched enumeration before mutating
//! anything; the batch module enforces that protocol.

use vstd::prelude::*;

use crate::digits::parse_index;
use crate::digits::parse_index_spec;
use crate::model::Error;
use crate::model::Item;

verus! {

/// Whether the item at position `idx` of an enumeration matches a
/// token: the token equals its title literally, or the token denotes
/// exactly that index. No syntax distinguishes the two readings; the
/// scan takes the first item matching either, in enumeration order.
pub open spec fn item_matches(token: Seq<char>, item: Item, idx: int) -> bool {
    item.title@ == token || parse_index_spec(token) == Some(idx)
}

/// The position of the first matching item at or after position `i`.
pub open spec fn first_match_from(token: Seq<char>, items: Seq<Item>, i: int) -> Option<int>
    decreases items.len() - i,
{
    if i < 0 || i >= items.len() {
        None
    } else if item_matches(token, items[i], i) {
        Some(i)
    } else {
        first_match_from(token, items, i + 1)
    }
}

/// What resolution returns: the identifier of the first item of the
/// enumeration, in order, whose title equals the token or whose
/// position the token denotes; nothing when no item matches.
pub open spec fn resolve_spec(token: Seq<char>, items: Seq<Item>) -> Option<Seq<char>> {
    match first_match_from(token, items, 0) {
        Some(k) => Some(items[k].id@),
        None => None,
    }
}

/// Resolve a token against a display enumeration, reporting "no match"
/// as `None` where a caller needs to distinguish it from a hard error.
pub fn resolve_optional(token: &String, items: &Vec<Item>) -> (r: Option<String>)
    ensures
        match r {
            Some(id) => resolve_spec(token@, items@) == Some(id@),
            None => resolve_spec(token@, items@) is None,
        },
{
    let parsed = parse_index(token.as_str());
    let n = items.len();
    let mut i: usize = 0;
    while i < n
        invariant
            i <= n,
            n == items@.len(),
            match parsed {
                Some(v) => parse_index_spec(token@) == Some(v as int),
                None => parse_index_spec(token@) is None,
            },
            first_match_from(token@, items@, 0) == first_match_from(token@, items@, i as int),
        decreases n - i,
    {
        let title_eq = items[i].title == *token;
        let idx_eq = match parsed {
            Some(v) => v == i,
            None => false,
        };
        if title_eq || idx_eq {
            proof {
                assert(item_matches(token@, items@[i as int], i as int));
            }
            return Some(items[i].id.clone());
        }
        proof {
            assert(!item_matches(token@, items@[i as int], i as int));
        }
        i = i + 1;
    }
    None
}

/// Resolve a token against a display enumeration: the identifier of
/// the first matching item, or `IdentifierNotFound` naming the token.
pub fn resolve(token: &String, items: &Vec<Item>) -> (r: Result<String, Error>)
    ensures
        match r {
            Ok(id) => resolve_spec(token@, items@) == Some(id@),
            Err(e) => resolve_spec(token@, items@) is None && match e {
                Error::IdentifierNotFound { token: t } => t@ == token@,
                _ => false,
            },
        },
{
    match resolve_optional(token, items) {
        Some(id) => Ok(id),
        None => Err(Error::IdentifierNotFound { token: token.clone() }),
    }
}

/// Whether `ids` is the resolution of every token of `tokens` against
/// the enumeration `items`, in input order.
pub open spec fn batch_resolved(tokens: Seq<String>, items: Seq<Item>, ids: Seq<String>) -> bool {
    &&& ids.len() == tokens.len()
    &&& forall|i: int|
        0 <= i < tokens.len() ==> resolve_spec(#[trigger] tokens[i]@, items) == Some(ids[i]@)
}

/// Resolve every token of a batch against one enumeration snapshot.
/// On success the identifiers come back in input order; otherwise the
/// position of the first token with no match is returned, every token
/// before it having resolved.
pub fn resolve_all(tokens: &Vec<String>, items: &Vec<Item>) -> (r: Result<Vec<String>, usize>)
    ensures
        match r {
            Ok(ids) => batch_resolved(tokens@, items@, ids@),
            Err(k) => k < tokens@.len() && resolve_spec(tokens@[k as int]@, items@) is None
                && forall|j: int|
                0 <= j < k ==> resolve_spec(#[trigger] tokens@[j]@, items@) is Some,
        },
{
    let mut ids: Vec<String> = Vec::new();
    let n = tokens.len();
    let mut i: usize = 0;
    while i < n
        invariant
            i <= n,
            n == tokens@.len(),
            ids@.len() == i,
            forall|j: int|
                0 <= j < i ==> resolve_spec(#[trigger] tokens@[j]@, items@) == Some(ids@[j]@),
        decreases n - i,
    {
        match resolve_optional(&tokens[i], items) {
            Some(id) => ids.push(id),
            None => {
                return Err(i);
            },
        }
        i = i + 1;
    }
    Ok(ids)
}

proof fn lemma_first_match_from_exact(token: Seq<char>, items: Seq<Item>, s: int, m: int)
    requires
        0 <= s <= m < items.len(),
        item_matches(token, items[m], m),
        forall|j: int| s <= j < m ==> !item_matches(token, #[trigger] items[j], j),
    ensures
        first_match_from(token, items, s) == Some(m),
    decreases m - s,
{
    if s < m {
        lemma_first_match_from_exact(token, items, s + 1, m);
    }
}

proof fn lemma_first_match_from_none(token: Seq<char>, items: Seq<Item>, s: int)
    requires
        0 <= s,
        forall|j: int| s <= j < items.len() ==> !item_matches(token, #[trigger] items[j], j),
    ensures
        first_match_from(token, items, s) is None,
    decreases items.len() - s,
{
    if s < items.len() {
        lemma_first_match_from_none(token, items, s + 1);
    }
}

/// Law: a token equal to some item's title resolves to the first item
/// bearing that title in enumeration order. The law holds provided the
/// token does not also denote the index of a strictly earlier item: a
/// token that names one item and indexes an earlier one binds to the
/// earlier one, since the scan takes the first match of either kind.
pub proof fn lemma_resolve_by_title(token: Seq<char>, items: Seq<Item>, k: int)
    requires
        0 <= k < items.len(),
        items[k].title@ == token,
        forall|j: int| 0 <= j < k ==> #[trigger] items[j].title@ != token,
        parse_index_spec(token) is Some ==> parse_index_spec(token)->Some_0 >= k,
    ensures
        resolve_spec(token, items) == Some(items[k].id@),
{
    assert forall|j: int| 0 <= j < k implies !item_matches(token, #[trigger] items[j], j) by {
        assert(items[j].title@ != token);
    }
    lemma_first_match_from_exact(token, items, 0, k);
}

/// Law: a token that denotes an index within the enumeration and
/// equals no item's title resolves to the identifier of the item at
/// that position.
pub proof fn lemma_resolve_by_index(token: Seq<char>, items: Seq<Item>, i: int)
    requires
        parse_index_spec(token) == Some(i),
        0 <= i < items.len(),
        forall|j: int| 0 <= j < items.len() ==> #[trigger] items[j].title@ != token,
    ensures
        resolve_spec(token, items) == Some(items[i].id@),
{
    assert forall|j: int| 0 <= j < i implies !item_matches(token, #[trigger] items[j], j) by {
        assert(items[j].title@ != token);
    }
    lemma_first_match_from_exact(token, items, 0, i);
}

/// Law: a token that equals no item's title and denotes no index
/// within the enumeration does not resolve.
pub proof fn lemma_resolve_not_found(token: Seq<char>, items: Seq<Item>)
    requires
        forall|j: int| 0 <= j < items.len() ==> #[trigger] items[j].title@ != token,
        parse_index_spec(token) is Some ==> !(0 <= parse_index_spec(token)->Some_0
            < items.len()),
    ensures
        resolve_spec(token, items) is None,
{
    assert forall|j: int| 0 <= j < items.len() implies !item_matches(
        token,
        #[trigger] items[j],
        j,
    ) by {
        assert(items[j].title@ != token);
    }
    lemma_first_match_from_none(token, items, 0);
}

} // verus!

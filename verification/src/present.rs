//! The compute half of the presentation layer: a display enumeration
//! as rows of display index and title. Rendering the rows as a table
//! is outside the library.

use vstd::prelude::*;

use crate::digits::dec_rep;
use crate::digits::format_index;
use crate::digits::lemma_parse_of_dec_rep;
use crate::model::Item;
use crate::resolve::lemma_resolve_by_index;
use crate::resolve::resolve_spec;

verus! {

/// One row of a displayed collection: the display index, exactly as
/// the user may type it back as a token, and the title.
#[derive(Debug)]
pub struct Row {
    pub index: String,
    pub title: String,
}

/// The rows a display enumeration is shown as: the decimal position
/// and the title of each item, in enumeration order.
pub fn display_rows(items: &Vec<Item>) -> (rows: Vec<Row>)
    ensures
        rows@.len() == items@.len(),
        forall|i: int|
            0 <= i < items@.len() ==> (#[trigger] rows@[i]).index@ == dec_rep(i)
                && rows@[i].title@ == items@[i].title@,
{
    let mut rows: Vec<Row> = Vec::new();
    let n = items.len();
    let mut i: usize = 0;
    while i < n
        invariant
            i <= n,
            n == items@.len(),
            rows@.len() == i,
            forall|j: int|
                0 <= j < i ==> (#[trigger] rows@[j]).index@ == dec_rep(j) && rows@[j].title@
                    == items@[j].title@,
        decreases n - i,
    {
        let index = format_index(i);
        rows.push(Row { index, title: items[i].title.clone() });
        i = i + 1;
    }
    rows
}

/// Law: the display index shown beside an item resolves back to that
/// item's identifier against the same enumeration, as long as no
/// item's title spells that same index. (A title that does spell it
/// can shadow the index: the resolver takes the first match in
/// enumeration order.)
pub proof fn lemma_display_index_resolves(items: Seq<Item>, i: int)
    requires
        0 <= i < items.len(),
        items.len() <= usize::MAX,
        forall|j: int| 0 <= j < items.len() ==> #[trigger] items[j].title@ != dec_rep(i),
    ensures
        resolve_spec(dec_rep(i), items) == Some(items[i].id@),
{
    lemma_parse_of_dec_rep(i);
    lemma_resolve_by_index(dec_rep(i), items, i);
}

} // verus!

//! Cell references: from text such as `B7` to a column and a row.

use vstd::prelude::*;
use umya_spreadsheet::helper::coordinate::index_from_coordinate;

verus! {

/// What `str::to_uppercase` makes of a text.
pub uninterp spec fn uppercase(text: Seq<char>) -> Seq<char>;

/// The column and the row that `index_from_coordinate` reads at the start of
/// a text, each absent where the text does not give it.
pub uninterp spec fn coordinate_index(text: Seq<char>) -> (Option<u32>, Option<u32>);

/// The cell that a reference names: the column and row of its upper-case
/// form, if it gives both. A reference that lacks either is invalid.
pub open spec fn coordinate(text: Seq<char>) -> Option<(u32, u32)> {
    match coordinate_index(uppercase(text)) {
        (Some(col), Some(row)) => Some((col, row)),
        _ => None,
    }
}

/// `str::to_uppercase`. The contract names the result and claims nothing
/// else of it.
#[verifier::external_body]
fn to_upper(text: &str) -> (r: String)
    ensures
        r@ == uppercase(text@),
{
    text.to_uppercase()
}

/// `umya_spreadsheet::helper::coordinate::index_from_coordinate`, without the
/// two lock flags that it also returns. It matches an optional `$`, up to
/// three letters `A`-`Z`, an optional `$` and decimal digits at the start of
/// the text, and does not fail: a part that is missing, or a row beyond
/// `u32`, comes back as `None`. The contract names the result and claims
/// nothing else of it.
#[verifier::external_body]
fn column_and_row(text: &str) -> (r: (Option<u32>, Option<u32>))
    ensures
        r == coordinate_index(text@),
{
    let (col, row, _, _) = index_from_coordinate(text);
    (col, row)
}

/// Resolves a cell reference, or finds it invalid.
pub fn resolve(text: &str) -> (r: Option<(u32, u32)>)
    ensures
        r == coordinate(text@),
{
    let upper = to_upper(text);
    match column_and_row(upper.as_str()) {
        (Some(col), Some(row)) => Some((col, row)),
        _ => None,
    }
}

} // verus!

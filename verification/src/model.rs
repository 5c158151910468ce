//! The mathematical model of a document tree, and what each operation
//! computes on it.
//!
//! A tree is a sequence of sheets. A sheet is a pair: its title, and a map
//! from the (column, row) of each cell that exists to the text of that cell.
//! Sheets are found by title, the first match winning; cells by column and
//! row. A cell whose text is empty reads as absent.

use vstd::prelude::*;
use crate::book::stored_text;
use crate::coordinate::coordinate;
use crate::error::Error;

verus! {

/// One sheet: its title, and the text of each of its cells by (column, row).
pub type Sheet = (Seq<char>, Map<(u32, u32), Seq<char>>);

/// Sheet `i` carries the title `name`, and no sheet before it does.
pub open spec fn is_first_titled(sheets: Seq<Sheet>, name: Seq<char>, i: int) -> bool {
    &&& 0 <= i < sheets.len()
    &&& sheets[i].0 == name
    &&& forall|j: int| 0 <= j < i ==> sheets[j].0 != name
}

/// The position of the first sheet with the title `name`, if there is one.
pub open spec fn first_titled(sheets: Seq<Sheet>, name: Seq<char>) -> Option<int> {
    if exists|i: int| is_first_titled(sheets, name, i) {
        Some(choose|i: int| is_first_titled(sheets, name, i))
    } else {
        None
    }
}

/// The title of the sheet at a position, if the position is in range.
pub open spec fn title_at(sheets: Seq<Sheet>, index: int) -> Option<Seq<char>> {
    if 0 <= index < sheets.len() {
        Some(sheets[index].0)
    } else {
        None
    }
}

/// A cell's text as a caller sees it: the empty text is absence.
pub open spec fn present(text: Seq<char>) -> Option<Seq<char>> {
    if text.len() == 0 {
        None
    } else {
        Some(text)
    }
}

/// Whether a cell exists at a reference on the sheet titled `name`.
/// A missing sheet is an error; an invalid reference names no cell.
pub open spec fn cell_exists(sheets: Seq<Sheet>, name: Seq<char>, reference: Seq<char>) -> Result<
    bool,
    Error,
> {
    match first_titled(sheets, name) {
        None => Err(Error::SheetNotFound),
        Some(i) => match coordinate(reference) {
            None => Ok(false),
            Some(at) => Ok(sheets[i].1.contains_key(at)),
        },
    }
}

/// What reading a reference through a sheet gives. A missing sheet is an
/// error; an invalid reference, a cell that does not exist and a cell with
/// empty text are all absence.
pub open spec fn sheet_value(sheets: Seq<Sheet>, name: Seq<char>, reference: Seq<char>) -> Result<
    Option<Seq<char>>,
    Error,
> {
    match first_titled(sheets, name) {
        None => Err(Error::SheetNotFound),
        Some(i) => match coordinate(reference) {
            None => Ok(None),
            Some(at) => if sheets[i].1.contains_key(at) {
                Ok(present(sheets[i].1[at]))
            } else {
                Ok(None)
            },
        },
    }
}

/// What reading through a cell handle gives. A missing sheet and a missing
/// cell are errors, the sheet first; a cell with empty text is absence.
pub open spec fn cell_value(sheets: Seq<Sheet>, name: Seq<char>, reference: Seq<char>) -> Result<
    Option<Seq<char>>,
    Error,
> {
    match first_titled(sheets, name) {
        None => Err(Error::SheetNotFound),
        Some(i) => match coordinate(reference) {
            None => Err(Error::CellNotFound),
            Some(at) => if sheets[i].1.contains_key(at) {
                Ok(present(sheets[i].1[at]))
            } else {
                Err(Error::CellNotFound)
            },
        },
    }
}

/// The tree after a value is written at a cell of the sheet titled `name`:
/// that cell exists afterwards and holds the text stored for the value;
/// nothing else changes. Without such a sheet the tree stays as it is.
pub open spec fn with_cell(
    sheets: Seq<Sheet>,
    name: Seq<char>,
    at: (u32, u32),
    value: Seq<char>,
) -> Seq<Sheet> {
    match first_titled(sheets, name) {
        None => sheets,
        Some(i) => sheets.update(i, (sheets[i].0, sheets[i].1.insert(at, stored_text(value)))),
    }
}

/// The tree after a value is written at a reference. An invalid reference
/// names no cell, and the tree stays as it is.
pub open spec fn with_value(
    sheets: Seq<Sheet>,
    name: Seq<char>,
    reference: Seq<char>,
    value: Seq<char>,
) -> Seq<Sheet> {
    match coordinate(reference) {
        None => sheets,
        Some(at) => with_cell(sheets, name, at, value),
    }
}

/// What a write at a reference of the sheet titled `name` reports. A missing
/// sheet is an error. Otherwise the write is done wherever the reference is
/// valid, whether or not the cell existed, and `true` says so; an invalid
/// reference names no cell to write to, and `false` says so.
pub open spec fn write_outcome(sheets: Seq<Sheet>, name: Seq<char>, reference: Seq<char>) -> Result<
    bool,
    Error,
> {
    match first_titled(sheets, name) {
        None => Err(Error::SheetNotFound),
        Some(_) => Ok(coordinate(reference) is Some),
    }
}

/// A result that carries text, with the text as a sequence of characters.
pub open spec fn text_of(r: Result<Option<String>, Error>) -> Result<Option<Seq<char>>, Error> {
    match r {
        Ok(Some(text)) => Ok(Some(text@)),
        Ok(None) => Ok(None),
        Err(e) => Err(e),
    }
}

/// At most one position is the first with a given title.
pub proof fn lemma_first_titled_unique(sheets: Seq<Sheet>, name: Seq<char>, i: int, j: int)
    requires
        is_first_titled(sheets, name, i),
        is_first_titled(sheets, name, j),
    ensures
        i == j,
{
    if i < j {
        assert(sheets[i].0 != name);
    } else if j < i {
        assert(sheets[j].0 != name);
    }
}

/// `first_titled` finds the position that is first with the title.
pub proof fn lemma_first_titled_is(sheets: Seq<Sheet>, name: Seq<char>, i: int)
    requires
        is_first_titled(sheets, name, i),
    ensures
        first_titled(sheets, name) == Some(i),
{
    let found = choose|k: int| is_first_titled(sheets, name, k);
    lemma_first_titled_unique(sheets, name, i, found);
}

/// Where some sheet carries a title, `first_titled` finds one, at or before
/// that sheet.
pub proof fn lemma_titled_has_first(sheets: Seq<Sheet>, name: Seq<char>, k: int)
    requires
        0 <= k < sheets.len(),
        sheets[k].0 == name,
    ensures
        first_titled(sheets, name) is Some,
        first_titled(sheets, name).unwrap() <= k,
        is_first_titled(sheets, name, first_titled(sheets, name).unwrap()),
    decreases k,
{
    if forall|j: int| 0 <= j < k ==> sheets[j].0 != name {
        assert(is_first_titled(sheets, name, k));
        lemma_first_titled_is(sheets, name, k);
    } else {
        let j = choose|j: int| 0 <= j < k && sheets[j].0 == name;
        lemma_titled_has_first(sheets, name, j);
    }
}

/// Without a sheet of that title, `first_titled` finds none.
pub proof fn lemma_untitled_has_none(sheets: Seq<Sheet>, name: Seq<char>)
    requires
        forall|i: int| 0 <= i < sheets.len() ==> sheets[i].0 != name,
    ensures
        first_titled(sheets, name) is None,
{
}

/// Two trees with the same titles in the same order find the same sheet.
pub proof fn lemma_same_titles(a: Seq<Sheet>, b: Seq<Sheet>, name: Seq<char>)
    requires
        a.len() == b.len(),
        forall|i: int| 0 <= i < a.len() ==> a[i].0 == b[i].0,
    ensures
        first_titled(a, name) == first_titled(b, name),
{
    assert forall|i: int| is_first_titled(a, name, i) == is_first_titled(b, name, i) by {
        if is_first_titled(a, name, i) {
            assert(is_first_titled(b, name, i));
        }
        if is_first_titled(b, name, i) {
            assert(is_first_titled(a, name, i));
        }
    }
    if exists|i: int| is_first_titled(a, name, i) {
        let i = choose|i: int| is_first_titled(a, name, i);
        assert(is_first_titled(b, name, i));
        lemma_first_titled_is(b, name, i);
    } else {
        assert(first_titled(b, name) is None);
    }
}

} // verus!

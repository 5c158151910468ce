//! What holds of the operations taken together.
//!
//! The laws are stated over the model: over the trees that the operations of
//! [`crate::tree::DocumentTree`] are specified by. A tree operation on its
//! own contract, and a handle operation on the tree it finds under the lock,
//! behave as the laws say.

use vstd::prelude::*;
use crate::book::stored_text;
use crate::coordinate::coordinate;
use crate::error::Error;
use crate::model::cell_exists;
use crate::model::cell_value;
use crate::model::first_titled;
use crate::model::is_first_titled;
use crate::model::lemma_first_titled_is;
use crate::model::lemma_same_titles;
use crate::model::lemma_titled_has_first;
use crate::model::lemma_untitled_has_none;
use crate::model::present;
use crate::model::sheet_value;
use crate::model::with_value;
use crate::model::write_outcome;
use crate::model::Sheet;

verus! {

/// A title is found exactly where some sheet carries it, and then at the
/// first sheet that does.
pub proof fn lemma_found_iff_titled(tree: Seq<Sheet>, name: Seq<char>)
    ensures
        first_titled(tree, name) is Some <==> exists|i: int|
            0 <= i < tree.len() && #[trigger] tree[i].0 == name,
        first_titled(tree, name) matches Some(i) ==> is_first_titled(tree, name, i),
{
    if exists|i: int| 0 <= i < tree.len() && #[trigger] tree[i].0 == name {
        let k = choose|i: int| 0 <= i < tree.len() && #[trigger] tree[i].0 == name;
        lemma_titled_has_first(tree, name, k);
    } else {
        lemma_untitled_has_none(tree, name);
    }
    if first_titled(tree, name) is Some {
        let i = first_titled(tree, name).unwrap();
        assert(is_first_titled(tree, name, i));
    }
}

/// A write changes no title and moves no sheet: every title is found where
/// it was found before.
pub proof fn lemma_write_keeps_sheets(
    tree: Seq<Sheet>,
    name: Seq<char>,
    reference: Seq<char>,
    value: Seq<char>,
    other: Seq<char>,
)
    ensures
        with_value(tree, name, reference, value).len() == tree.len(),
        first_titled(with_value(tree, name, reference, value), other) == first_titled(tree, other),
{
    let after = with_value(tree, name, reference, value);
    if first_titled(tree, name) is Some {
        let i = first_titled(tree, name).unwrap();
        assert(is_first_titled(tree, name, i));
    }
    lemma_same_titles(tree, after, other);
}

/// A write to a sheet that exists succeeds, whether or not the cell existed,
/// and the cell exists afterwards. Reading the same reference then gives the
/// text that the spreadsheet library stores for the value, or absence where
/// that text is empty, through a worksheet handle and through a cell handle
/// alike.
pub proof fn lemma_read_after_write(
    tree: Seq<Sheet>,
    name: Seq<char>,
    reference: Seq<char>,
    value: Seq<char>,
)
    requires
        first_titled(tree, name) is Some,
        coordinate(reference) is Some,
    ensures
        write_outcome(tree, name, reference) == Ok::<bool, Error>(true),
        cell_exists(with_value(tree, name, reference, value), name, reference) == Ok::<bool, Error>(
            true,
        ),
        sheet_value(with_value(tree, name, reference, value), name, reference) == Ok::<
            Option<Seq<char>>,
            Error,
        >(present(stored_text(value))),
        cell_value(with_value(tree, name, reference, value), name, reference) == Ok::<
            Option<Seq<char>>,
            Error,
        >(present(stored_text(value))),
{
    let i = first_titled(tree, name).unwrap();
    assert(is_first_titled(tree, name, i));
    lemma_write_keeps_sheets(tree, name, reference, value, name);
}

/// Round trip: a value that is not empty and that the spreadsheet library
/// stores as it stands reads back as itself after it was written at a valid
/// reference.
pub proof fn lemma_round_trip(
    tree: Seq<Sheet>,
    name: Seq<char>,
    reference: Seq<char>,
    value: Seq<char>,
)
    requires
        first_titled(tree, name) is Some,
        coordinate(reference) is Some,
        value.len() > 0,
        stored_text(value) == value,
    ensures
        sheet_value(with_value(tree, name, reference, value), name, reference) == Ok::<
            Option<Seq<char>>,
            Error,
        >(Some(value)),
        cell_value(with_value(tree, name, reference, value), name, reference) == Ok::<
            Option<Seq<char>>,
            Error,
        >(Some(value)),
{
    lemma_read_after_write(tree, name, reference, value);
}

/// The two ways of reading differ only in how they report a cell that does
/// not exist. Where the cell exists both give the same; where it does not,
/// reading through a worksheet handle gives absence and reading through a
/// cell handle gives `CellNotFound`; a missing sheet is `SheetNotFound` for
/// both.
pub proof fn lemma_reads_agree_on_existing_cells(
    tree: Seq<Sheet>,
    name: Seq<char>,
    reference: Seq<char>,
)
    ensures
        cell_exists(tree, name, reference) == Ok::<bool, Error>(true) ==> cell_value(
            tree,
            name,
            reference,
        ) == sheet_value(tree, name, reference),
        cell_exists(tree, name, reference) == Ok::<bool, Error>(false) ==> {
            &&& sheet_value(tree, name, reference) == Ok::<Option<Seq<char>>, Error>(None)
            &&& cell_value(tree, name, reference) == Err::<Option<Seq<char>>, Error>(
                Error::CellNotFound,
            )
        },
        cell_exists(tree, name, reference) is Err ==> {
            &&& sheet_value(tree, name, reference) == Err::<Option<Seq<char>>, Error>(
                Error::SheetNotFound,
            )
            &&& cell_value(tree, name, reference) == Err::<Option<Seq<char>>, Error>(
                Error::SheetNotFound,
            )
        },
{
}

/// A reference at which no cell exists reads as absence through a worksheet
/// handle: not as an error and not as the empty text.
pub proof fn lemma_unset_reads_absent(tree: Seq<Sheet>, name: Seq<char>, reference: Seq<char>)
    requires
        cell_exists(tree, name, reference) == Ok::<bool, Error>(false),
    ensures
        sheet_value(tree, name, reference) == Ok::<Option<Seq<char>>, Error>(None),
{
}

/// After the empty value was written to a cell, the cell reads as absence.
pub proof fn lemma_empty_value_reads_absent(
    tree: Seq<Sheet>,
    name: Seq<char>,
    reference: Seq<char>,
)
    requires
        first_titled(tree, name) is Some,
    ensures
        sheet_value(with_value(tree, name, reference, Seq::<char>::empty()), name, reference)
            == Ok::<Option<Seq<char>>, Error>(None),
        coordinate(reference) is Some ==> cell_value(
            with_value(tree, name, reference, Seq::<char>::empty()),
            name,
            reference,
        ) == Ok::<Option<Seq<char>>, Error>(None),
{
    lemma_write_keeps_sheets(tree, name, reference, Seq::<char>::empty(), name);
    if coordinate(reference) is Some {
        lemma_read_after_write(tree, name, reference, Seq::<char>::empty());
    }
}

/// The tree after the sheet at a position was given another title.
pub open spec fn retitled(tree: Seq<Sheet>, i: int, title: Seq<char>) -> Seq<Sheet> {
    tree.update(i, (title, tree[i].1))
}

/// A handle goes stale when its sheet is renamed. Where the only sheet with
/// a title is given another title, every operation that looks the old title
/// up reports `SheetNotFound`: it does not find the renamed sheet, and a
/// write changes nothing.
pub proof fn lemma_renamed_sheet_is_not_found(
    tree: Seq<Sheet>,
    i: int,
    title: Seq<char>,
    reference: Seq<char>,
    value: Seq<char>,
)
    requires
        0 <= i < tree.len(),
        title != tree[i].0,
        forall|j: int| 0 <= j < tree.len() && j != i ==> tree[j].0 != tree[i].0,
    ensures
        first_titled(tree, tree[i].0) == Some(i),
        first_titled(retitled(tree, i, title), tree[i].0) is None,
        cell_exists(retitled(tree, i, title), tree[i].0, reference) == Err::<bool, Error>(
            Error::SheetNotFound,
        ),
        sheet_value(retitled(tree, i, title), tree[i].0, reference) == Err::<
            Option<Seq<char>>,
            Error,
        >(Error::SheetNotFound),
        cell_value(retitled(tree, i, title), tree[i].0, reference) == Err::<
            Option<Seq<char>>,
            Error,
        >(Error::SheetNotFound),
        write_outcome(retitled(tree, i, title), tree[i].0, reference) == Err::<bool, Error>(
            Error::SheetNotFound,
        ),
        with_value(retitled(tree, i, title), tree[i].0, reference, value) == retitled(
            tree,
            i,
            title,
        ),
{
    assert(is_first_titled(tree, tree[i].0, i));
    lemma_first_titled_is(tree, tree[i].0, i);
    lemma_untitled_has_none(retitled(tree, i, title), tree[i].0);
}

/// Of two writes to the same cell the later one stays.
pub proof fn lemma_last_write_wins(
    tree: Seq<Sheet>,
    name: Seq<char>,
    reference: Seq<char>,
    earlier: Seq<char>,
    later: Seq<char>,
)
    ensures
        with_value(with_value(tree, name, reference, earlier), name, reference, later)
            == with_value(tree, name, reference, later),
{
    let first = with_value(tree, name, reference, earlier);
    lemma_write_keeps_sheets(tree, name, reference, earlier, name);
    if first_titled(tree, name) is Some && coordinate(reference) is Some {
        let i = first_titled(tree, name).unwrap();
        assert(is_first_titled(tree, name, i));
        let twice = with_value(first, name, reference, later);
        let once = with_value(tree, name, reference, later);
        assert(twice[i].1 =~= once[i].1);
        assert(twice =~= once);
    }
}

/// No update is lost. Two writes to different cells, of one sheet or of two,
/// leave the same tree in either order, and in it each cell holds what was
/// written to it.
pub proof fn lemma_writes_to_distinct_cells(
    tree: Seq<Sheet>,
    name1: Seq<char>,
    reference1: Seq<char>,
    value1: Seq<char>,
    name2: Seq<char>,
    reference2: Seq<char>,
    value2: Seq<char>,
)
    requires
        first_titled(tree, name1) is Some,
        first_titled(tree, name2) is Some,
        coordinate(reference1) is Some,
        coordinate(reference2) is Some,
        first_titled(tree, name1) != first_titled(tree, name2) || coordinate(reference1)
            != coordinate(reference2),
    ensures
        with_value(with_value(tree, name1, reference1, value1), name2, reference2, value2)
            == with_value(with_value(tree, name2, reference2, value2), name1, reference1, value1),
        sheet_value(
            with_value(with_value(tree, name1, reference1, value1), name2, reference2, value2),
            name1,
            reference1,
        ) == Ok::<Option<Seq<char>>, Error>(present(stored_text(value1))),
        sheet_value(
            with_value(with_value(tree, name1, reference1, value1), name2, reference2, value2),
            name2,
            reference2,
        ) == Ok::<Option<Seq<char>>, Error>(present(stored_text(value2))),
{
    let i1 = first_titled(tree, name1).unwrap();
    let i2 = first_titled(tree, name2).unwrap();
    assert(is_first_titled(tree, name1, i1));
    assert(is_first_titled(tree, name2, i2));
    let first = with_value(tree, name1, reference1, value1);
    let second = with_value(tree, name2, reference2, value2);
    lemma_write_keeps_sheets(tree, name1, reference1, value1, name1);
    lemma_write_keeps_sheets(tree, name1, reference1, value1, name2);
    lemma_write_keeps_sheets(tree, name2, reference2, value2, name1);
    lemma_write_keeps_sheets(tree, name2, reference2, value2, name2);
    let both = with_value(first, name2, reference2, value2);
    let other = with_value(second, name1, reference1, value1);
    lemma_write_keeps_sheets(first, name2, reference2, value2, name1);
    lemma_write_keeps_sheets(first, name2, reference2, value2, name2);
    assert(both.len() == other.len());
    assert forall|k: int| 0 <= k < both.len() implies both[k] == other[k] by {
        if i1 == i2 {
            assert(both[k].1 =~= other[k].1);
        }
    }
    assert(both =~= other);
}

} // verus!

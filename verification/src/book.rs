//! The boundary to the spreadsheet library: its tree types, what they hold,
//! and one wrapper for each of its functions that this library calls.
//!
//! Nothing in this file is proved. Each contract restates, over the names
//! declared here, what `umya_spreadsheet` does.

use vstd::prelude::*;
use umya_spreadsheet::structs::Cell;
use umya_spreadsheet::structs::Spreadsheet;
use umya_spreadsheet::structs::Worksheet;
use umya_spreadsheet::writer::xlsx::write_writer;
use umya_spreadsheet::writer::xlsx::XlsxError;
use crate::model::first_titled;
use crate::model::Sheet;

verus! {

/// `umya_spreadsheet::structs::Spreadsheet`, a whole document.
#[verifier::external_type_specification]
#[verifier::external_body]
pub struct ExSpreadsheet(Spreadsheet);

/// `umya_spreadsheet::structs::Worksheet`, one sheet of a document.
#[verifier::external_type_specification]
#[verifier::external_body]
pub struct ExWorksheet(Worksheet);

/// `umya_spreadsheet::structs::Cell`, one cell of a sheet.
#[verifier::external_type_specification]
#[verifier::external_body]
pub struct ExCell(Cell);

/// The spreadsheet writer's error, `umya_spreadsheet::writer::xlsx::XlsxError`.
#[verifier::external_type_specification]
#[verifier::external_body]
pub struct ExWriteError(XlsxError);

/// The sheets of a document in their order, each as its title and the text
/// of its cells.
pub uninterp spec fn sheets(book: Spreadsheet) -> Seq<Sheet>;

/// Whether every sheet of a document has been read in full, none being left
/// as raw data to be read on first use.
pub uninterp spec fn fully_read(book: Spreadsheet) -> bool;

/// The title of a sheet, as `Worksheet::get_name` gives it.
pub uninterp spec fn title(sheet: Worksheet) -> Seq<char>;

/// The cells of a sheet: for the (column, row) of each cell that exists, the
/// text of that cell.
pub uninterp spec fn cells(sheet: Worksheet) -> Map<(u32, u32), Seq<char>>;

/// Whether a sheet has been read in full.
pub uninterp spec fn is_read(sheet: Worksheet) -> bool;

/// The text of a cell, as `Cell::get_value` gives it.
pub uninterp spec fn text(cell: Cell) -> Seq<char>;

/// The text that a cell holds after `Cell::set_value` was given a value that
/// is not empty. `set_value` guesses a type for the value and keeps it in
/// that type's form, so the text may differ from the value: `1.0` is kept
/// as `1`, and `true` as `TRUE`.
pub uninterp spec fn typed_text(value: Seq<char>) -> Seq<char>;

/// The text that a cell holds after `Cell::set_value`: empty for the empty
/// value, else the typed form of the value.
pub open spec fn stored_text(value: Seq<char>) -> Seq<char> {
    if value.len() == 0 {
        value
    } else {
        typed_text(value)
    }
}

/// `Spreadsheet::get_sheet`: the sheet at a position, if the position is in
/// range. It panics on a sheet that is not read, hence the `requires`.
#[verifier::external_body]
pub(crate) fn sheet_at<'a>(book: &'a Spreadsheet, index: usize) -> (r: Option<&'a Worksheet>)
    requires
        fully_read(*book),
    ensures
        r is Some <==> index < sheets(*book).len(),
        r matches Some(sheet) ==> (title(*sheet), cells(*sheet)) == sheets(*book)[index as int],
{
    book.get_sheet(&index)
}

/// `Spreadsheet::get_sheet_by_name`: the first sheet with a title, if any.
/// It panics on a sheet that is not read, hence the `requires`.
#[verifier::external_body]
pub(crate) fn find_sheet<'a>(book: &'a Spreadsheet, name: &str) -> (r: Option<&'a Worksheet>)
    requires
        fully_read(*book),
    ensures
        r is Some <==> first_titled(sheets(*book), name@) is Some,
        r matches Some(sheet) ==> (title(*sheet), cells(*sheet)) == sheets(*book)[first_titled(
            sheets(*book),
            name@,
        ).unwrap()],
{
    book.get_sheet_by_name(name)
}

/// `Spreadsheet::get_sheet_by_name_mut`: the first sheet with a title, to be
/// changed in place. On a document that is read in full it does not panic
/// and changes nothing itself: the document afterwards is the old one with
/// that sheet as the caller left it.
#[verifier::external_body]
pub(crate) fn find_sheet_mut<'a>(book: &'a mut Spreadsheet, name: &str) -> (r: Option<
    &'a mut Worksheet,
>)
    requires
        fully_read(*old(book)),
    ensures
        r is Some <==> first_titled(sheets(*old(book)), name@) is Some,
        r is None ==> sheets(*final(book)) == sheets(*old(book)) && fully_read(*final(book)),
        r matches Some(sheet) ==> {
            let i = first_titled(sheets(*old(book)), name@).unwrap();
            &&& (title(*sheet), cells(*sheet)) == sheets(*old(book))[i]
            &&& is_read(*sheet)
            &&& sheets(*final(book)) == sheets(*old(book)).update(
                i,
                (title(*final(sheet)), cells(*final(sheet))),
            )
            &&& is_read(*final(sheet)) ==> fully_read(*final(book))
        },
    no_unwind
{
    book.get_sheet_by_name_mut(name)
}

/// `Worksheet::get_name`.
#[verifier::external_body]
pub(crate) fn sheet_title<'a>(sheet: &'a Worksheet) -> (r: &'a str)
    ensures
        r@ == title(*sheet),
{
    sheet.get_name()
}

/// `Worksheet::get_cell`, by column and row: the cell there, if one exists.
#[verifier::external_body]
pub(crate) fn find_cell<'a>(sheet: &'a Worksheet, col: u32, row: u32) -> (r: Option<&'a Cell>)
    ensures
        r is Some <==> cells(*sheet).contains_key((col, row)),
        r matches Some(cell) ==> text(*cell) == cells(*sheet)[(col, row)],
{
    sheet.get_cell((col, row))
}

/// `Worksheet::get_cell_mut`, by column and row: the cell there, to be
/// changed in place. A cell that did not exist is made. It does not panic.
/// The sheet afterwards is the old one with that cell holding what the
/// caller left in it.
#[verifier::external_body]
pub(crate) fn cell_mut<'a>(sheet: &'a mut Worksheet, col: u32, row: u32) -> (r: &'a mut Cell)
    ensures
        title(*final(sheet)) == title(*old(sheet)),
        cells(*final(sheet)) == cells(*old(sheet)).insert((col, row), text(*final(r))),
        is_read(*final(sheet)) == is_read(*old(sheet)),
    no_unwind
{
    sheet.get_cell_mut((col, row))
}

/// `Cell::get_value`.
#[verifier::external_body]
pub(crate) fn cell_text(cell: &Cell) -> (r: String)
    ensures
        r@ == text(*cell),
{
    cell.get_value().into_owned()
}

/// `Cell::set_value`: the cell then holds the text stored for the value.
/// The empty value is kept as it is; for any other the contract names the
/// text and claims nothing else of it. It does not panic.
#[verifier::external_body]
pub(crate) fn set_text(cell: &mut Cell, value: &str)
    ensures
        value@.len() == 0 ==> text(*final(cell)) == value@,
        value@.len() != 0 ==> text(*final(cell)) == typed_text(value@),
    no_unwind
{
    cell.set_value(value);
}

/// `umya_spreadsheet::writer::xlsx::write_writer`, into memory: the document
/// as the bytes of a spreadsheet file, or the writer's error. Nothing is
/// claimed of the bytes. The contract covers documents that are read in
/// full.
#[verifier::external_body]
pub(crate) fn serialize(book: &Spreadsheet) -> (r: Result<Vec<u8>, XlsxError>)
    requires
        fully_read(*book),
{
    let mut bytes = Vec::new();
    write_writer(book, &mut bytes).map(|_| bytes)
}

/// The writer's error as text, by its `Display`. Nothing is claimed of the
/// text.
#[verifier::external_body]
pub(crate) fn write_error_text(err: &XlsxError) -> (r: String) {
    format!("{}", err)
}

} // verus!

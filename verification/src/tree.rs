//! The document tree and the operations on it, each with an exact contract
//! over the tree's model.

use vstd::prelude::*;
use umya_spreadsheet::structs::Spreadsheet;
use umya_spreadsheet::writer::xlsx::XlsxError;
use crate::book::cell_mut;
use crate::book::cell_text;
use crate::book::find_cell;
use crate::book::find_sheet;
use crate::book::find_sheet_mut;
use crate::book::fully_read;
use crate::book::serialize;
use crate::book::set_text;
use crate::book::sheet_at;
use crate::book::sheet_title;
use crate::book::sheets;
use crate::book::write_error_text;
use crate::coordinate::resolve;
use crate::error::Error;
use crate::model::cell_exists;
use crate::model::cell_value;
use crate::model::first_titled;
use crate::model::sheet_value;
use crate::model::text_of;
use crate::model::title_at;
use crate::model::with_cell;
use crate::model::with_value;
use crate::model::write_outcome;
use crate::model::Sheet;

verus! {

/// A parsed spreadsheet document, every sheet of it read in full.
pub struct DocumentTree {
    book: Spreadsheet,
}

impl View for DocumentTree {
    type V = Seq<Sheet>;

    /// The sheets of the document in their order.
    closed spec fn view(&self) -> Seq<Sheet> {
        sheets(self.book)
    }
}

/// Writes a value at a column and row of the first sheet with a title, and
/// says whether there was such a sheet.
fn put(book: &mut Spreadsheet, name: &str, col: u32, row: u32, value: &str) -> (found: bool)
    requires
        fully_read(*old(book)),
    ensures
        fully_read(*final(book)),
        found == first_titled(sheets(*old(book)), name@) is Some,
        sheets(*final(book)) == with_cell(sheets(*old(book)), name@, (col, row), value@),
    no_unwind
{
    match find_sheet_mut(book, name) {
        None => false,
        Some(sheet) => {
            let cell = cell_mut(sheet, col, row);
            set_text(cell, value);
            true
        },
    }
}

/// What saving reports for what the spreadsheet writer returned: the bytes
/// as they came, or `SaveFailure` carrying the writer's own words for its
/// error.
pub fn save_outcome(written: Result<Vec<u8>, XlsxError>) -> (r: Result<Vec<u8>, Error>)
    ensures
        match written {
            Ok(bytes) => r == Ok::<Vec<u8>, Error>(bytes),
            Err(_) => r matches Err(e) && e is SaveFailure,
        },
{
    match written {
        Ok(bytes) => Ok(bytes),
        Err(e) => Err(Error::SaveFailure(write_error_text(&e))),
    }
}

impl DocumentTree {
    #[verifier::type_invariant]
    spec fn read_in_full(self) -> bool {
        fully_read(self.book)
    }

    /// Takes charge of a parsed document. Every sheet of it must have been
    /// read in full, as in a document that `reader::xlsx::read` or `new_file`
    /// returned; a document from `lazy_read` is not, until
    /// `read_sheet_collection` was called on it.
    pub fn new(book: Spreadsheet) -> (tree: DocumentTree)
        requires
            fully_read(book),
        ensures
            tree@ == sheets(book),
    {
        DocumentTree { book }
    }

    /// Gives the parsed document back.
    pub fn into_book(self) -> (book: Spreadsheet)
        ensures
            sheets(book) == self@,
            fully_read(book),
    {
        proof {
            use_type_invariant(&self);
        }
        self.book
    }

    /// The title of the sheet at a zero-based position, or `None` where the
    /// position is out of range.
    pub fn sheet_name_at(&self, index: usize) -> (r: Option<String>)
        ensures
            match r {
                Some(name) => title_at(self@, index as int) == Some(name@),
                None => title_at(self@, index as int) is None,
            },
    {
        proof {
            use_type_invariant(self);
        }
        match sheet_at(&self.book, index) {
            None => None,
            Some(sheet) => Some(String::from_str(sheet_title(sheet))),
        }
    }

    /// Whether a sheet carries the title.
    pub fn has_sheet(&self, name: &str) -> (r: bool)
        ensures
            r == first_titled(self@, name@) is Some,
    {
        proof {
            use_type_invariant(self);
        }
        find_sheet(&self.book, name).is_some()
    }

    /// Whether a cell exists at a reference on the sheet with a title.
    /// `Err(SheetNotFound)` where no sheet has the title; `Ok(false)` for an
    /// invalid reference.
    pub fn has_cell(&self, name: &str, reference: &str) -> (r: Result<bool, Error>)
        ensures
            r == cell_exists(self@, name@, reference@),
    {
        proof {
            use_type_invariant(self);
        }
        match find_sheet(&self.book, name) {
            None => Err(Error::SheetNotFound),
            Some(sheet) => match resolve(reference) {
                None => Ok(false),
                Some((col, row)) => Ok(find_cell(sheet, col, row).is_some()),
            },
        }
    }

    /// The value at a reference on the sheet with a title.
    /// `Err(SheetNotFound)` where no sheet has the title; `Ok(None)` for an
    /// invalid reference, for a cell that does not exist and for one with
    /// empty text.
    pub fn value_by_sheet(&self, name: &str, reference: &str) -> (r: Result<Option<String>, Error>)
        ensures
            text_of(r) == sheet_value(self@, name@, reference@),
    {
        proof {
            use_type_invariant(self);
        }
        match find_sheet(&self.book, name) {
            None => Err(Error::SheetNotFound),
            Some(sheet) => match resolve(reference) {
                None => Ok(None),
                Some((col, row)) => match find_cell(sheet, col, row) {
                    None => Ok(None),
                    Some(cell) => {
                        let value = cell_text(cell);
                        if value.as_str().is_empty() {
                            Ok(None)
                        } else {
                            Ok(Some(value))
                        }
                    },
                },
            },
        }
    }

    /// The value of the cell that a cell handle stands for.
    /// `Err(SheetNotFound)` where no sheet has the title, else
    /// `Err(CellNotFound)` where no cell exists at the reference; `Ok(None)`
    /// for a cell with empty text.
    pub fn value_by_cell(&self, name: &str, reference: &str) -> (r: Result<Option<String>, Error>)
        ensures
            text_of(r) == cell_value(self@, name@, reference@),
    {
        proof {
            use_type_invariant(self);
        }
        match find_sheet(&self.book, name) {
            None => Err(Error::SheetNotFound),
            Some(sheet) => match resolve(reference) {
                None => Err(Error::CellNotFound),
                Some((col, row)) => match find_cell(sheet, col, row) {
                    None => Err(Error::CellNotFound),
                    Some(cell) => {
                        let value = cell_text(cell);
                        if value.as_str().is_empty() {
                            Ok(None)
                        } else {
                            Ok(Some(value))
                        }
                    },
                },
            },
        }
    }

    /// Writes a value at a reference on the sheet with a title, making the
    /// cell where it does not exist. `Err(SheetNotFound)` where no sheet has
    /// the title. `Ok(false)` for an invalid reference, which names no cell
    /// to write to. `Ok(true)` in every other case, whether or not the cell
    /// existed. Only a write that was done changes the tree.
    pub fn set_value(&mut self, name: &str, reference: &str, value: &str) -> (r: Result<
        bool,
        Error,
    >)
        ensures
            r == write_outcome(old(self)@, name@, reference@),
            final(self)@ == with_value(old(self)@, name@, reference@, value@),
    {
        proof {
            use_type_invariant(&*self);
        }
        match resolve(reference) {
            None => {
                if self.has_sheet(name) {
                    Ok(false)
                } else {
                    Err(Error::SheetNotFound)
                }
            },
            Some((col, row)) => {
                if put(&mut self.book, name, col, row, value) {
                    Ok(true)
                } else {
                    Err(Error::SheetNotFound)
                }
            },
        }
    }

    /// The document as the bytes of a spreadsheet file. The tree is not
    /// changed. A failure of the writer comes back as `SaveFailure` with the
    /// writer's own words. The bytes are the writer's, and they are not the
    /// same from one call to the next: the writer counts, in the file, the
    /// strings that every write so far has handed it.
    pub fn to_bytes(&self) -> (r: Result<Vec<u8>, Error>)
        ensures
            r matches Err(e) ==> e is SaveFailure,
    {
        proof {
            use_type_invariant(self);
        }
        save_outcome(serialize(&self.book))
    }
}

} // verus!

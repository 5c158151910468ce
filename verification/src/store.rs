//! The document store and the handles onto it.
//!
//! A document is a tree behind one mutex, shared by reference counting
//! between the document handle and every worksheet and cell handle made
//! from it. The tree lives as long as the longest-lived handle. Each
//! operation takes the lock once, for that call only, and never while it
//! already holds it; no handle keeps the lock between calls.
//!
//! What an operation finds depends on what other holders of the document
//! have done before it took the lock, so no contract here can say which tree
//! the operation ran on. Each says what holds of every outcome: a handle that
//! comes back shares the document and holds what it was asked for; an error
//! is one that the operation can give; a value or a report is what the
//! matching operation of [`DocumentTree`] gives on some tree, or is
//! `LockFailure`.

use vstd::prelude::*;
use std::sync::Arc;
use std::sync::Mutex;
use std::sync::MutexGuard;
use std::sync::PoisonError;
use umya_spreadsheet::reader::xlsx::XlsxError;
use umya_spreadsheet::structs::Spreadsheet;
use crate::book::fully_read;
use crate::book::sheets;
use crate::coordinate::coordinate;
use crate::error::classify;
use crate::error::failure_kind;
use crate::error::load_error;
use crate::error::Error;
use crate::model::cell_exists;
use crate::model::cell_value;
use crate::model::sheet_value;
use crate::model::text_of;
use crate::model::write_outcome;
use crate::model::Sheet;
use crate::tree::DocumentTree;

verus! {

/// `std::sync::Mutex`.
#[verifier::external_type_specification]
#[verifier::external_body]
#[verifier::reject_recursive_types(T)]
pub struct ExMutex<T: ?Sized>(Mutex<T>);

/// `std::sync::MutexGuard`.
#[verifier::external_type_specification]
#[verifier::external_body]
#[verifier::reject_recursive_types(T)]
pub struct ExMutexGuard<'a, T: ?Sized + 'a>(MutexGuard<'a, T>);

/// `std::sync::PoisonError`, which stands for a lock whose holder panicked.
#[verifier::external_type_specification]
#[verifier::external_body]
#[verifier::reject_recursive_types(T)]
pub struct ExPoisonError<T>(PoisonError<T>);

/// The tree that a mutex was made around.
pub uninterp spec fn made_around(lock: Mutex<DocumentTree>) -> DocumentTree;

/// `Mutex::new`: a mutex around a tree, unlocked.
#[verifier::external_body]
fn lock_around(tree: DocumentTree) -> (lock: Mutex<DocumentTree>)
    ensures
        made_around(lock) == tree,
{
    Mutex::new(tree)
}

/// `Arc::clone`: one more share of the same mutex.
#[verifier::external_body]
fn share(shared: &Arc<Mutex<DocumentTree>>) -> (r: Arc<Mutex<DocumentTree>>)
    ensures
        r == *shared,
{
    Arc::clone(shared)
}

/// `Mutex::lock`: blocks until the lock is free and takes it; an error where
/// the mutex is poisoned because a holder panicked. Dropping the guard, or
/// the error, gives the lock back. A thread must not call this while it
/// holds the guard of the same mutex: every caller in this file drops its
/// guard before it returns and takes no second one.
#[verifier::external_body]
fn acquire<'a>(shared: &'a Arc<Mutex<DocumentTree>>) -> (r: Result<
    MutexGuard<'a, DocumentTree>,
    PoisonError<MutexGuard<'a, DocumentTree>>,
>) {
    shared.lock()
}

/// The guard's `Deref`: the tree under the lock, to be read.
#[verifier::external_body]
fn held<'a, 'b>(guard: &'a MutexGuard<'b, DocumentTree>) -> (r: &'a DocumentTree) {
    &**guard
}

/// The guard's `DerefMut`: the tree under the lock, to be changed in place.
#[verifier::external_body]
fn held_mut<'a, 'b>(guard: &'a mut MutexGuard<'b, DocumentTree>) -> (r: &'a mut DocumentTree) {
    &mut **guard
}

/// A handle on a whole document.
pub struct Document {
    shared: Arc<Mutex<DocumentTree>>,
}

/// A handle on one sheet of a document: the document, and the title that the
/// sheet had when the handle was made. Every use looks the sheet up by that
/// title again.
pub struct WorksheetHandle {
    shared: Arc<Mutex<DocumentTree>>,
    sheet_name: String,
}

/// A handle on one cell: the document, a sheet title and a valid cell
/// reference. The cell existed when the handle was made; every use looks
/// sheet and cell up again.
pub struct CellHandle {
    shared: Arc<Mutex<DocumentTree>>,
    sheet_name: String,
    cell_ref: String,
}

impl Document {
    /// The lock-guarded tree that the handle shares.
    pub closed spec fn store(self) -> Arc<Mutex<DocumentTree>> {
        self.shared
    }

    /// The sheets that the document was opened with.
    pub closed spec fn opened_with(self) -> Seq<Sheet> {
        made_around(*self.shared)@
    }

    /// Puts a tree behind a lock of its own.
    pub fn new(tree: DocumentTree) -> (document: Document)
        ensures
            document.opened_with() == tree@,
    {
        Document { shared: Arc::new(lock_around(tree)) }
    }

    /// One more share of the lock-guarded tree, for code that embeds the
    /// library and works on the tree itself.
    pub fn shared(&self) -> (r: Arc<Mutex<DocumentTree>>)
        ensures
            r == self.store(),
    {
        share(&self.shared)
    }
}

impl WorksheetHandle {
    /// The lock-guarded tree that the handle shares.
    pub closed spec fn store(self) -> Arc<Mutex<DocumentTree>> {
        self.shared
    }

    /// The sheet title that the handle holds.
    pub closed spec fn name(self) -> Seq<char> {
        self.sheet_name@
    }

    /// The sheet title that the handle holds.
    pub fn sheet_name(&self) -> (r: &str)
        ensures
            r@ == self.name(),
    {
        self.sheet_name.as_str()
    }
}

impl CellHandle {
    #[verifier::type_invariant]
    spec fn reference_is_valid(self) -> bool {
        coordinate(self.cell_ref@) is Some
    }

    /// The lock-guarded tree that the handle shares.
    pub closed spec fn store(self) -> Arc<Mutex<DocumentTree>> {
        self.shared
    }

    /// The sheet title that the handle holds.
    pub closed spec fn name(self) -> Seq<char> {
        self.sheet_name@
    }

    /// The cell reference that the handle holds.
    pub closed spec fn reference(self) -> Seq<char> {
        self.cell_ref@
    }

    /// The sheet title that the handle holds.
    pub fn sheet_name(&self) -> (r: &str)
        ensures
            r@ == self.name(),
    {
        self.sheet_name.as_str()
    }

    /// The cell reference that the handle holds. It is valid.
    pub fn cell_ref(&self) -> (r: &str)
        ensures
            r@ == self.reference(),
            coordinate(r@) is Some,
    {
        proof {
            use_type_invariant(self);
        }
        self.cell_ref.as_str()
    }
}

/// Makes a document of what the parser returned: a handle on the parsed
/// tree, or the parser's failure under its category, and then no document.
/// A parsed tree must have every sheet read in full, as
/// [`DocumentTree::new`] asks.
pub fn read(parsed: Result<Spreadsheet, XlsxError>) -> (r: Result<Document, Error>)
    requires
        parsed matches Ok(book) ==> fully_read(book),
    ensures
        match parsed {
            Ok(book) => r matches Ok(document) && document.opened_with() == sheets(book),
            Err(err) => r matches Err(e) && e == load_error(failure_kind(err)),
        },
{
    match parsed {
        Ok(book) => Ok(Document::new(DocumentTree::new(book))),
        Err(err) => Err(Error::from_load_failure(classify(&err))),
    }
}

/// A handle on the sheet at a zero-based position, or `None` where the
/// position is out of range when the call is made. The handle holds the
/// title that the sheet then has.
pub fn get_sheet(spreadsheet: &Document, index: usize) -> (r: Result<
    Option<WorksheetHandle>,
    Error,
>)
    ensures
        r matches Ok(Some(handle)) ==> handle.store() == spreadsheet.store(),
        r matches Err(e) ==> e == Error::LockFailure,
{
    let found = match acquire(&spreadsheet.shared) {
        Err(_) => {
            return Err(Error::LockFailure);
        },
        Ok(guard) => held(&guard).sheet_name_at(index),
    };
    match found {
        None => Ok(None),
        Some(sheet_name) => Ok(
            Some(WorksheetHandle { shared: share(&spreadsheet.shared), sheet_name }),
        ),
    }
}

/// A handle on the sheet with a title, or `None` where no sheet has it when
/// the call is made.
pub fn get_sheet_by_name(spreadsheet: &Document, name: String) -> (r: Result<
    Option<WorksheetHandle>,
    Error,
>)
    ensures
        r matches Ok(Some(handle)) ==> handle.store() == spreadsheet.store() && handle.name()
            == name@,
        r matches Err(e) ==> e == Error::LockFailure,
{
    let exists = match acquire(&spreadsheet.shared) {
        Err(_) => {
            return Err(Error::LockFailure);
        },
        Ok(guard) => held(&guard).has_sheet(name.as_str()),
    };
    if exists {
        Ok(Some(WorksheetHandle { shared: share(&spreadsheet.shared), sheet_name: name }))
    } else {
        Ok(None)
    }
}

/// Whether a cell was found, read off the result of [`get_cell`].
pub open spec fn presence(r: Result<Option<CellHandle>, Error>) -> Result<bool, Error> {
    match r {
        Ok(Some(_)) => Ok(true),
        Ok(None) => Ok(false),
        Err(e) => Err(e),
    }
}

/// A handle on the cell at a reference, or `None` where the reference is
/// invalid or no cell exists there when the call is made. The sheet is
/// looked up by the title that the worksheet handle holds:
/// `Err(SheetNotFound)` where no sheet has it any more.
pub fn get_cell(worksheet: &WorksheetHandle, cell_ref: String) -> (r: Result<
    Option<CellHandle>,
    Error,
>)
    ensures
        r matches Ok(Some(cell)) ==> {
            &&& cell.store() == worksheet.store()
            &&& cell.name() == worksheet.name()
            &&& cell.reference() == cell_ref@
        },
        r matches Err(Error::LockFailure) || exists|tree: Seq<Sheet>|
            #[trigger] cell_exists(tree, worksheet.name(), cell_ref@) == presence(r),
{
    let ghost seen: Seq<Sheet>;
    let found = match acquire(&worksheet.shared) {
        Err(_) => {
            return Err(Error::LockFailure);
        },
        Ok(guard) => {
            let tree = held(&guard);
            proof {
                seen = tree@;
            }
            tree.has_cell(worksheet.sheet_name.as_str(), cell_ref.as_str())
        },
    };
    assert(found == cell_exists(seen, worksheet.name(), cell_ref@));
    match found {
        Err(e) => Err(e),
        Ok(false) => Ok(None),
        Ok(true) => Ok(
            Some(
                CellHandle {
                    shared: share(&worksheet.shared),
                    sheet_name: worksheet.sheet_name.clone(),
                    cell_ref,
                },
            ),
        ),
    }
}

/// The value of the cell that a cell handle stands for. Sheet and cell are
/// looked up again: `Err(SheetNotFound)` where no sheet has the handle's
/// title any more, else `Err(CellNotFound)` where the cell is gone. A cell
/// with empty text gives `Ok(None)`, never the empty text.
pub fn get_cell_value_by_cell(cell: &CellHandle) -> (r: Result<Option<String>, Error>)
    ensures
        r matches Err(Error::LockFailure) || exists|tree: Seq<Sheet>|
            #[trigger] cell_value(tree, cell.name(), cell.reference()) == text_of(r),
{
    let ghost seen: Seq<Sheet>;
    let value = match acquire(&cell.shared) {
        Err(_) => {
            return Err(Error::LockFailure);
        },
        Ok(guard) => {
            let tree = held(&guard);
            proof {
                seen = tree@;
            }
            tree.value_by_cell(cell.sheet_name.as_str(), cell.cell_ref.as_str())
        },
    };
    assert(text_of(value) == cell_value(seen, cell.name(), cell.reference()));
    value
}

/// The value at a reference on the sheet that a worksheet handle stands for.
/// `Err(SheetNotFound)` where no sheet has the handle's title any more. An
/// invalid reference, a cell that was never set and a cell with empty text
/// all give `Ok(None)`: absence, not an error and not the empty text.
pub fn get_cell_value_by_sheet(worksheet: &WorksheetHandle, cell_ref: String) -> (r: Result<
    Option<String>,
    Error,
>)
    ensures
        r matches Err(Error::LockFailure) || exists|tree: Seq<Sheet>|
            #[trigger] sheet_value(tree, worksheet.name(), cell_ref@) == text_of(r),
{
    let ghost seen: Seq<Sheet>;
    let value = match acquire(&worksheet.shared) {
        Err(_) => {
            return Err(Error::LockFailure);
        },
        Ok(guard) => {
            let tree = held(&guard);
            proof {
                seen = tree@;
            }
            tree.value_by_sheet(worksheet.sheet_name.as_str(), cell_ref.as_str())
        },
    };
    assert(text_of(value) == sheet_value(seen, worksheet.name(), cell_ref@));
    value
}

/// The report of a write through a cell handle, as a write to a tree gives
/// it: the handle's reference is valid, so a write that succeeds is done.
pub open spec fn done(r: Result<(), Error>) -> Result<bool, Error> {
    match r {
        Ok(()) => Ok(true),
        Err(e) => Err(e),
    }
}

/// Writes a value to the cell that a cell handle stands for, making the cell
/// again where it is gone. `Err(SheetNotFound)` where no sheet has the
/// handle's title any more; that the cell was empty or missing is no
/// failure.
pub fn set_cell_value_by_cell(cell: &CellHandle, value: String) -> (r: Result<(), Error>)
    ensures
        r matches Err(Error::LockFailure) || exists|tree: Seq<Sheet>|
            #[trigger] write_outcome(tree, cell.name(), cell.reference()) == done(r),
{
    proof {
        use_type_invariant(cell);
    }
    match acquire(&cell.shared) {
        Err(_) => Err(Error::LockFailure),
        Ok(mut guard) => {
            let tree = held_mut(&mut guard);
            let ghost before = tree@;
            let written = tree.set_value(
                cell.sheet_name.as_str(),
                cell.cell_ref.as_str(),
                value.as_str(),
            );
            assert(written == write_outcome(before, cell.name(), cell.reference()));
            match written {
                Ok(_) => Ok(()),
                Err(e) => Err(e),
            }
        },
    }
}

/// Writes a value at a reference on the sheet that a worksheet handle stands
/// for, making the cell where it does not exist. `Err(SheetNotFound)` where
/// no sheet has the handle's title any more. `Ok(false)`, with nothing
/// written, for an invalid reference. `Ok(true)` in every other case: that
/// the cell was empty or missing is no failure.
pub fn set_cell_value_by_sheet(worksheet: &WorksheetHandle, cell_ref: String, value: String) -> (r:
    Result<bool, Error>)
    ensures
        r matches Err(Error::LockFailure) || exists|tree: Seq<Sheet>|
            #[trigger] write_outcome(tree, worksheet.name(), cell_ref@) == r,
{
    match acquire(&worksheet.shared) {
        Err(_) => Err(Error::LockFailure),
        Ok(mut guard) => {
            let tree = held_mut(&mut guard);
            let ghost before = tree@;
            let written = tree.set_value(
                worksheet.sheet_name.as_str(),
                cell_ref.as_str(),
                value.as_str(),
            );
            assert(written == write_outcome(before, worksheet.name(), cell_ref@));
            written
        },
    }
}

/// The document as the bytes of a spreadsheet file, for the caller to write
/// out. The lock is held while the tree is serialised, so that no write
/// falls into the middle of it; the document is not changed. A failure of
/// the writer comes back as `SaveFailure` with the writer's own words.
pub fn save(spreadsheet: &Document) -> (r: Result<Vec<u8>, Error>)
    ensures
        r matches Err(e) ==> e == Error::LockFailure || e is SaveFailure,
{
    match acquire(&spreadsheet.shared) {
        Err(_) => Err(Error::LockFailure),
        Ok(guard) => held(&guard).to_bytes(),
    }
}

} // verus!

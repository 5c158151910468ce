//! A spreadsheet document shared behind one lock, reached through handles.
//!
//! A [`Document`] owns a parsed spreadsheet tree behind a reference-counted
//! mutex. A [`WorksheetHandle`] and a [`CellHandle`] hold a share of that
//! mutex together with a sheet title (and a cell reference). They never hold
//! the lock between calls, and they look their target up anew on every use:
//! a handle whose sheet was renamed or removed reports `SheetNotFound`.
//!
//! The operations on the tree itself are the methods of
//! [`tree::DocumentTree`], each with an exact contract over the tree's
//! mathematical view ([`model`]). The operations on handles ([`store`]) take
//! the lock for one call and run the matching tree operation on whatever the
//! tree then holds. What holds of the operations taken together is proved in
//! [`laws`].
//!
//! Reading and writing files is left to the caller: [`read`] takes what the
//! spreadsheet parser returned, and [`save`] returns the bytes to write.

pub mod book;
pub mod coordinate;
pub mod error;
pub mod laws;
pub mod model;
pub mod store;
pub mod tree;

pub use crate::error::xlsx_error_to_str;
pub use crate::error::Error;
pub use crate::error::LoadFailure;
pub use crate::store::get_cell;
pub use crate::store::get_cell_value_by_cell;
pub use crate::store::get_cell_value_by_sheet;
pub use crate::store::get_sheet;
pub use crate::store::get_sheet_by_name;
pub use crate::store::read;
pub use crate::store::save;
pub use crate::store::set_cell_value_by_cell;
pub use crate::store::set_cell_value_by_sheet;
pub use crate::store::CellHandle;
pub use crate::store::Document;
pub use crate::store::WorksheetHandle;
pub use crate::tree::DocumentTree;

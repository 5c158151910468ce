//! The closed set of errors that this library reports, and their wire text.

use vstd::prelude::*;
use umya_spreadsheet::reader::xlsx::XlsxError;

verus! {

/// The spreadsheet reader's error, `umya_spreadsheet::reader::xlsx::XlsxError`.
#[verifier::external_type_specification]
#[verifier::external_body]
pub struct ExReadError(XlsxError);

/// The ways in which the spreadsheet reader can fail.
#[derive(Clone, Copy, Debug, PartialEq, Eq, Structural)]
pub enum LoadFailure {
    /// The file could not be read.
    Io,
    /// The archive holds markup that does not parse.
    Xml,
    /// The file is not a well-formed archive.
    Zip,
    /// Text in the archive is not valid UTF-8.
    Utf8,
}

/// Every error that an operation of this library can return.
#[derive(Debug, PartialEq, Eq)]
pub enum Error {
    /// The underlying file could not be read or written.
    IoError,
    /// The file holds malformed markup.
    MalformedMarkupError,
    /// The file is not a well-formed archive.
    MalformedArchiveError,
    /// The file holds text in an invalid encoding.
    BadEncodingError,
    /// The document's lock could not be acquired.
    LockFailure,
    /// No sheet carries the name that a handle holds.
    SheetNotFound,
    /// No cell exists at the reference that a cell handle holds.
    CellNotFound,
    /// Serialising or writing the document failed, with the cause.
    SaveFailure(String),
}

/// Which of its four variants a reader error is.
pub uninterp spec fn failure_kind(err: XlsxError) -> LoadFailure;

/// The error that stands for a failure of the reader.
pub open spec fn load_error(kind: LoadFailure) -> Error {
    match kind {
        LoadFailure::Io => Error::IoError,
        LoadFailure::Xml => Error::MalformedMarkupError,
        LoadFailure::Zip => Error::MalformedArchiveError,
        LoadFailure::Utf8 => Error::BadEncodingError,
    }
}

/// Tells the variants of `umya_spreadsheet::reader::xlsx::XlsxError` apart.
/// The contract gives the variant a name and claims nothing else.
#[verifier::external_body]
pub(crate) fn classify(err: &XlsxError) -> (kind: LoadFailure)
    ensures
        kind == failure_kind(*err),
{
    match err {
        XlsxError::Io(_) => LoadFailure::Io,
        XlsxError::Xml(_) => LoadFailure::Xml,
        XlsxError::Zip(_) => LoadFailure::Zip,
        XlsxError::Uft8(_) => LoadFailure::Utf8,
    }
}

impl Error {
    /// The text under which the error travels to the host.
    pub open spec fn text(self) -> Seq<char> {
        match self {
            Error::IoError => "io_error"@,
            Error::MalformedMarkupError => "xml_error"@,
            Error::MalformedArchiveError => "zip_error"@,
            Error::BadEncodingError => "uft8_error"@,
            Error::LockFailure => "lock_failed"@,
            Error::SheetNotFound => "sheet_not_found"@,
            Error::CellNotFound => "cell_not_found"@,
            Error::SaveFailure(cause) => "save_failed: "@ + cause@,
        }
    }

    /// Categorises a failure of the reader.
    pub fn from_load_failure(kind: LoadFailure) -> (e: Error)
        ensures
            e == load_error(kind),
    {
        match kind {
            LoadFailure::Io => Error::IoError,
            LoadFailure::Xml => Error::MalformedMarkupError,
            LoadFailure::Zip => Error::MalformedArchiveError,
            LoadFailure::Utf8 => Error::BadEncodingError,
        }
    }

    /// Renders the error as the host receives it.
    pub fn message(&self) -> (r: String)
        ensures
            r@ == self.text(),
    {
        match self {
            Error::IoError => String::from_str("io_error"),
            Error::MalformedMarkupError => String::from_str("xml_error"),
            Error::MalformedArchiveError => String::from_str("zip_error"),
            Error::BadEncodingError => String::from_str("uft8_error"),
            Error::LockFailure => String::from_str("lock_failed"),
            Error::SheetNotFound => String::from_str("sheet_not_found"),
            Error::CellNotFound => String::from_str("cell_not_found"),
            Error::SaveFailure(cause) => String::from_str("save_failed: ").concat(cause.as_str()),
        }
    }
}

/// The host-side text for a failure of the reader.
pub fn xlsx_error_to_str(err: XlsxError) -> (r: String)
    ensures
        r@ == load_error(failure_kind(err)).text(),
{
    Error::from_load_failure(classify(&err)).message()
}

} // verus!

use excelixir_rustler::error::Error;
use excelixir_rustler::tree::save_outcome;
use excelixir_rustler::tree::DocumentTree;
use std::io::Cursor;

fn fresh() -> DocumentTree {
    DocumentTree::new(umya_spreadsheet::new_file())
}

#[test]
fn sheet_name_at_gives_the_title_in_range() {
    let tree = fresh();
    assert_eq!(tree.sheet_name_at(0), Some("Sheet1".to_string()));
}

#[test]
fn sheet_name_at_is_absent_out_of_range() {
    let tree = fresh();
    assert_eq!(tree.sheet_name_at(1), None);
    assert_eq!(tree.sheet_name_at(usize::MAX), None);
}

#[test]
fn sheet_name_at_follows_the_order_of_sheets() {
    let mut book = umya_spreadsheet::new_file();
    book.new_sheet("Second").unwrap();
    book.new_sheet("Third").unwrap();
    let tree = DocumentTree::new(book);
    assert_eq!(tree.sheet_name_at(0), Some("Sheet1".to_string()));
    assert_eq!(tree.sheet_name_at(1), Some("Second".to_string()));
    assert_eq!(tree.sheet_name_at(2), Some("Third".to_string()));
    assert_eq!(tree.sheet_name_at(3), None);
}

#[test]
fn has_sheet_looks_titles_up_exactly() {
    let tree = fresh();
    assert!(tree.has_sheet("Sheet1"));
    assert!(!tree.has_sheet("sheet1"));
    assert!(!tree.has_sheet("Sheet2"));
    assert!(!tree.has_sheet(""));
}

#[test]
fn a_written_value_reads_back() {
    let mut tree = fresh();
    assert_eq!(tree.set_value("Sheet1", "B7", "hello"), Ok(true));
    assert_eq!(tree.value_by_sheet("Sheet1", "B7"), Ok(Some("hello".to_string())));
    assert_eq!(tree.value_by_cell("Sheet1", "B7"), Ok(Some("hello".to_string())));
}

#[test]
fn a_write_creates_the_cell() {
    let mut tree = fresh();
    assert_eq!(tree.has_cell("Sheet1", "Z99"), Ok(false));
    assert_eq!(tree.set_value("Sheet1", "Z99", "hello"), Ok(true));
    assert_eq!(tree.has_cell("Sheet1", "Z99"), Ok(true));
    assert_eq!(tree.value_by_sheet("Sheet1", "Z99"), Ok(Some("hello".to_string())));
}

#[test]
fn a_write_replaces_the_value() {
    let mut tree = fresh();
    assert_eq!(tree.set_value("Sheet1", "C3", "first"), Ok(true));
    assert_eq!(tree.set_value("Sheet1", "C3", "second"), Ok(true));
    assert_eq!(tree.value_by_sheet("Sheet1", "C3"), Ok(Some("second".to_string())));
}

#[test]
fn an_unset_cell_reads_as_absent() {
    let tree = fresh();
    assert_eq!(tree.value_by_sheet("Sheet1", "D4"), Ok(None));
    assert_eq!(tree.value_by_sheet("Sheet1", "XFD1048576"), Ok(None));
}

#[test]
fn an_unset_cell_is_an_error_through_a_cell_reference() {
    let tree = fresh();
    assert_eq!(tree.value_by_cell("Sheet1", "D4"), Err(Error::CellNotFound));
}

#[test]
fn the_empty_value_reads_as_absent() {
    let mut tree = fresh();
    assert_eq!(tree.set_value("Sheet1", "A1", "kept"), Ok(true));
    assert_eq!(tree.set_value("Sheet1", "A1", ""), Ok(true));
    assert_eq!(tree.value_by_sheet("Sheet1", "A1"), Ok(None));
    assert_eq!(tree.value_by_cell("Sheet1", "A1"), Ok(None));
    assert_eq!(tree.has_cell("Sheet1", "A1"), Ok(true));
}

#[test]
fn a_missing_sheet_is_reported_by_every_operation() {
    let mut tree = fresh();
    assert_eq!(tree.has_cell("Gone", "A1"), Err(Error::SheetNotFound));
    assert_eq!(tree.value_by_sheet("Gone", "A1"), Err(Error::SheetNotFound));
    assert_eq!(tree.value_by_cell("Gone", "A1"), Err(Error::SheetNotFound));
    assert_eq!(tree.set_value("Gone", "A1", "x"), Err(Error::SheetNotFound));
}

#[test]
fn a_missing_sheet_comes_before_an_invalid_reference() {
    let tree = fresh();
    assert_eq!(tree.has_cell("Gone", "??"), Err(Error::SheetNotFound));
    assert_eq!(tree.value_by_sheet("Gone", "??"), Err(Error::SheetNotFound));
    assert_eq!(tree.value_by_cell("Gone", "??"), Err(Error::SheetNotFound));
    let mut tree = tree;
    assert_eq!(tree.set_value("Gone", "??", "x"), Err(Error::SheetNotFound));
}

#[test]
fn a_failed_write_changes_nothing() {
    let mut tree = fresh();
    assert_eq!(tree.set_value("Sheet1", "A1", "kept"), Ok(true));
    assert_eq!(tree.set_value("Gone", "A1", "lost"), Err(Error::SheetNotFound));
    assert_eq!(tree.value_by_sheet("Sheet1", "A1"), Ok(Some("kept".to_string())));
    assert_eq!(tree.sheet_name_at(1), None);
}

#[test]
fn an_invalid_reference_names_no_cell() {
    let mut tree = fresh();
    assert_eq!(tree.set_value("Sheet1", "A1", "kept"), Ok(true));
    for reference in ["", "A", "7", "$A", "?", "1A", "-A1", " A1", "ABCD1", "A99999999999"] {
        assert_eq!(tree.has_cell("Sheet1", reference), Ok(false));
        assert_eq!(tree.value_by_sheet("Sheet1", reference), Ok(None));
        assert_eq!(tree.value_by_cell("Sheet1", reference), Err(Error::CellNotFound));
    }
}

#[test]
fn a_write_at_an_invalid_reference_is_not_done() {
    let mut tree = fresh();
    assert_eq!(tree.set_value("Sheet1", "A1", "kept"), Ok(true));
    for reference in ["", "A", "7", "$A", "?", "1A", "ABCD1", "A99999999999"] {
        assert_eq!(tree.set_value("Sheet1", reference, "lost"), Ok(false));
    }
    assert_eq!(tree.value_by_sheet("Sheet1", "A1"), Ok(Some("kept".to_string())));
    let book = tree.into_book();
    assert_eq!(book.get_sheet(&0).unwrap().get_cell_collection().len(), 1);
}

#[test]
fn a_reference_is_read_in_upper_case() {
    let mut tree = fresh();
    assert_eq!(tree.set_value("Sheet1", "b2", "lower"), Ok(true));
    assert_eq!(tree.value_by_sheet("Sheet1", "B2"), Ok(Some("lower".to_string())));
    assert_eq!(tree.value_by_sheet("Sheet1", "b2"), Ok(Some("lower".to_string())));
    assert_eq!(tree.has_cell("Sheet1", "b2"), Ok(true));
}

#[test]
fn a_reference_may_carry_lock_signs() {
    let mut tree = fresh();
    assert_eq!(tree.set_value("Sheet1", "$C$5", "locked"), Ok(true));
    assert_eq!(tree.value_by_sheet("Sheet1", "C5"), Ok(Some("locked".to_string())));
    assert_eq!(tree.value_by_sheet("Sheet1", "$C5"), Ok(Some("locked".to_string())));
    assert_eq!(tree.value_by_sheet("Sheet1", "C$5"), Ok(Some("locked".to_string())));
}

#[test]
fn a_reference_names_column_and_row() {
    let mut tree = fresh();
    assert_eq!(tree.set_value("Sheet1", "AB12", "here"), Ok(true));
    let book = tree.into_book();
    let sheet = book.get_sheet(&0).unwrap();
    assert_eq!(sheet.get_value((28, 12)), "here");
    assert_eq!(sheet.get_value((12, 28)), "");
}

#[test]
fn a_number_is_stored_in_its_own_form() {
    let mut tree = fresh();
    assert_eq!(tree.set_value("Sheet1", "A1", "1.0"), Ok(true));
    assert_eq!(tree.value_by_sheet("Sheet1", "A1"), Ok(Some("1".to_string())));
    assert_eq!(tree.set_value("Sheet1", "A2", "42"), Ok(true));
    assert_eq!(tree.value_by_sheet("Sheet1", "A2"), Ok(Some("42".to_string())));
}

#[test]
fn a_truth_value_is_stored_in_upper_case() {
    let mut tree = fresh();
    assert_eq!(tree.set_value("Sheet1", "A1", "true"), Ok(true));
    assert_eq!(tree.value_by_sheet("Sheet1", "A1"), Ok(Some("TRUE".to_string())));
}

#[test]
fn the_null_word_is_stored_as_nothing() {
    let mut tree = fresh();
    assert_eq!(tree.set_value("Sheet1", "A1", "NULL"), Ok(true));
    assert_eq!(tree.value_by_sheet("Sheet1", "A1"), Ok(None));
}

#[test]
fn writes_to_distinct_cells_are_both_kept() {
    let mut one = fresh();
    assert_eq!(one.set_value("Sheet1", "A1", "left"), Ok(true));
    assert_eq!(one.set_value("Sheet1", "B1", "right"), Ok(true));
    let mut other = fresh();
    assert_eq!(other.set_value("Sheet1", "B1", "right"), Ok(true));
    assert_eq!(other.set_value("Sheet1", "A1", "left"), Ok(true));
    for tree in [&one, &other] {
        assert_eq!(tree.value_by_sheet("Sheet1", "A1"), Ok(Some("left".to_string())));
        assert_eq!(tree.value_by_sheet("Sheet1", "B1"), Ok(Some("right".to_string())));
    }
}

#[test]
fn writes_to_the_same_cell_of_two_sheets_are_both_kept() {
    let mut book = umya_spreadsheet::new_file();
    book.new_sheet("Other").unwrap();
    let mut tree = DocumentTree::new(book);
    assert_eq!(tree.set_value("Sheet1", "A1", "one"), Ok(true));
    assert_eq!(tree.set_value("Other", "A1", "two"), Ok(true));
    assert_eq!(tree.value_by_sheet("Sheet1", "A1"), Ok(Some("one".to_string())));
    assert_eq!(tree.value_by_sheet("Other", "A1"), Ok(Some("two".to_string())));
}

#[test]
fn a_renamed_sheet_is_not_found_under_its_old_title() {
    let mut tree = fresh();
    assert_eq!(tree.set_value("Sheet1", "A1", "kept"), Ok(true));
    let mut book = tree.into_book();
    book.get_sheet_by_name_mut("Sheet1").unwrap().set_name("Renamed");
    let mut tree = DocumentTree::new(book);
    assert!(!tree.has_sheet("Sheet1"));
    assert_eq!(tree.has_cell("Sheet1", "A1"), Err(Error::SheetNotFound));
    assert_eq!(tree.value_by_sheet("Sheet1", "A1"), Err(Error::SheetNotFound));
    assert_eq!(tree.value_by_cell("Sheet1", "A1"), Err(Error::SheetNotFound));
    assert_eq!(tree.set_value("Sheet1", "A1", "lost"), Err(Error::SheetNotFound));
    assert_eq!(tree.value_by_sheet("Renamed", "A1"), Ok(Some("kept".to_string())));
}

#[test]
fn the_first_sheet_with_a_title_is_the_one_found() {
    let mut book = umya_spreadsheet::new_file();
    book.new_sheet("Second").unwrap();
    book.get_sheet_mut(&1).unwrap().set_name("Sheet1");
    let mut tree = DocumentTree::new(book);
    assert_eq!(tree.set_value("Sheet1", "A1", "first"), Ok(true));
    let book = tree.into_book();
    assert_eq!(book.get_sheet(&0).unwrap().get_value((1, 1)), "first");
    assert!(book.get_sheet(&1).unwrap().get_cell((1, 1)).is_none());
}

#[test]
fn into_book_gives_the_document_back() {
    let mut tree = fresh();
    assert_eq!(tree.set_value("Sheet1", "A1", "kept"), Ok(true));
    let book = tree.into_book();
    assert_eq!(book.get_sheet_count(), 1);
    assert_eq!(book.get_sheet_by_name("Sheet1").unwrap().get_value("A1"), "kept");
}

#[test]
fn to_bytes_gives_a_file_that_reads_again() {
    let mut tree = fresh();
    assert_eq!(tree.set_value("Sheet1", "A1", "kept"), Ok(true));
    assert_eq!(tree.set_value("Sheet1", "Z99", "far"), Ok(true));
    let bytes = tree.to_bytes().unwrap();
    assert!(!bytes.is_empty());
    let book = umya_spreadsheet::reader::xlsx::read_reader(Cursor::new(bytes), true).unwrap();
    let again = DocumentTree::new(book);
    assert_eq!(again.sheet_name_at(0), Some("Sheet1".to_string()));
    assert_eq!(again.value_by_sheet("Sheet1", "A1"), Ok(Some("kept".to_string())));
    assert_eq!(again.value_by_sheet("Sheet1", "Z99"), Ok(Some("far".to_string())));
    assert_eq!(again.value_by_sheet("Sheet1", "B2"), Ok(None));
}

#[test]
fn to_bytes_leaves_the_tree_as_it_is() {
    let mut tree = fresh();
    assert_eq!(tree.set_value("Sheet1", "A1", "kept"), Ok(true));
    assert!(tree.to_bytes().is_ok());
    assert_eq!(tree.value_by_sheet("Sheet1", "A1"), Ok(Some("kept".to_string())));
    assert_eq!(tree.set_value("Sheet1", "A2", "more"), Ok(true));
    assert_eq!(tree.value_by_sheet("Sheet1", "A2"), Ok(Some("more".to_string())));
}

#[test]
fn a_write_leaves_titles_order_and_other_cells_alone() {
    let mut book = umya_spreadsheet::new_file();
    book.new_sheet("Second").unwrap();
    book.get_sheet_by_name_mut("Second").unwrap().get_cell_mut("C3").set_value("theirs");
    let mut tree = DocumentTree::new(book);
    assert_eq!(tree.set_value("Sheet1", "A1", "mine"), Ok(true));
    assert_eq!(tree.set_value("Second", "A1", "ours"), Ok(true));
    assert_eq!(tree.sheet_name_at(0), Some("Sheet1".to_string()));
    assert_eq!(tree.sheet_name_at(1), Some("Second".to_string()));
    assert_eq!(tree.sheet_name_at(2), None);
    assert_eq!(tree.value_by_sheet("Second", "C3"), Ok(Some("theirs".to_string())));
    assert_eq!(tree.value_by_sheet("Sheet1", "C3"), Ok(None));
    let book = tree.into_book();
    assert_eq!(book.get_sheet(&0).unwrap().get_cell_collection().len(), 1);
    assert_eq!(book.get_sheet(&1).unwrap().get_cell_collection().len(), 2);
}

#[test]
fn the_bytes_of_the_writer_are_handed_on_as_they_came() {
    assert_eq!(save_outcome(Ok(vec![80, 75, 3, 4])), Ok(vec![80, 75, 3, 4]));
    assert_eq!(save_outcome(Ok(Vec::new())), Ok(Vec::new()));
}

#[test]
fn a_failure_of_the_writer_is_a_save_failure_in_its_own_words() {
    let cause = std::io::Error::new(std::io::ErrorKind::Other, "disk full");
    let failed = save_outcome(Err(umya_spreadsheet::writer::xlsx::XlsxError::Io(cause)));
    assert_eq!(failed, Err(Error::SaveFailure("IoError: disk full".to_string())));
    assert_eq!(failed.unwrap_err().message(), "save_failed: IoError: disk full");
}

#[test]
fn two_writes_of_one_tree_differ_and_both_read_again() {
    let mut tree = fresh();
    assert_eq!(tree.set_value("Sheet1", "A1", "kept"), Ok(true));
    let first = tree.to_bytes().unwrap();
    let second = tree.to_bytes().unwrap();
    assert_ne!(first, second);
    for bytes in [first, second] {
        let book = umya_spreadsheet::reader::xlsx::read_reader(Cursor::new(bytes), true).unwrap();
        let again = DocumentTree::new(book);
        assert_eq!(again.value_by_sheet("Sheet1", "A1"), Ok(Some("kept".to_string())));
    }
}

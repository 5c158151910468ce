use excelixir_rustler::get_cell;
use excelixir_rustler::get_cell_value_by_cell;
use excelixir_rustler::get_cell_value_by_sheet;
use excelixir_rustler::get_sheet;
use excelixir_rustler::get_sheet_by_name;
use excelixir_rustler::read;
use excelixir_rustler::save;
use excelixir_rustler::set_cell_value_by_cell;
use excelixir_rustler::set_cell_value_by_sheet;
use excelixir_rustler::Error;

#[test]
fn a_document_is_walked_from_sheet_to_cell_to_value() {
    let document = read(Ok(umya_spreadsheet::new_file())).unwrap();
    let by_position = get_sheet(&document, 0).unwrap().unwrap();
    let by_title = get_sheet_by_name(&document, "Sheet1".to_string()).unwrap().unwrap();
    assert_eq!(by_position.sheet_name(), by_title.sheet_name());
    assert_eq!(
        set_cell_value_by_sheet(&by_position, "B3".to_string(), "first".to_string()),
        Ok(true)
    );
    let cell = get_cell(&by_title, "B3".to_string()).unwrap().unwrap();
    assert_eq!(get_cell_value_by_cell(&cell), Ok(Some("first".to_string())));
    assert_eq!(set_cell_value_by_cell(&cell, "second".to_string()), Ok(()));
    assert_eq!(
        get_cell_value_by_sheet(&by_position, "B3".to_string()),
        Ok(Some("second".to_string()))
    );
    assert!(save(&document).is_ok());
}

#[test]
fn absence_is_not_an_error() {
    let document = read(Ok(umya_spreadsheet::new_file())).unwrap();
    assert!(matches!(get_sheet(&document, 5), Ok(None)));
    assert!(matches!(get_sheet_by_name(&document, "None".to_string()), Ok(None)));
    let sheet = get_sheet(&document, 0).unwrap().unwrap();
    assert!(matches!(get_cell(&sheet, "A1".to_string()), Ok(None)));
    assert_eq!(get_cell_value_by_sheet(&sheet, "A1".to_string()), Ok(None));
    assert_ne!(get_cell_value_by_sheet(&sheet, "A1".to_string()), Ok(Some(String::new())));
    assert_ne!(get_cell_value_by_sheet(&sheet, "A1".to_string()), Err(Error::CellNotFound));
}

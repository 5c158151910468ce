use excelixir_rustler::coordinate::resolve;

#[test]
fn resolve_reads_column_letters_and_row_number() {
    assert_eq!(resolve("A1"), Some((1, 1)));
    assert_eq!(resolve("Z99"), Some((26, 99)));
    assert_eq!(resolve("AA91"), Some((27, 91)));
    assert_eq!(resolve("XFD1048576"), Some((16384, 1048576)));
}

#[test]
fn resolve_takes_lower_case_letters() {
    assert_eq!(resolve("a1"), Some((1, 1)));
    assert_eq!(resolve("xfd12"), Some((16384, 12)));
}

#[test]
fn resolve_takes_lock_signs() {
    assert_eq!(resolve("$A$4"), Some((1, 4)));
    assert_eq!(resolve("$A4"), Some((1, 4)));
    assert_eq!(resolve("A$4"), Some((1, 4)));
}

#[test]
fn resolve_refuses_a_reference_without_column_or_row() {
    assert_eq!(resolve(""), None);
    assert_eq!(resolve("A"), None);
    assert_eq!(resolve("$A"), None);
    assert_eq!(resolve("5"), None);
    assert_eq!(resolve("$5"), None);
    assert_eq!(resolve("hello"), None);
    assert_eq!(resolve("!"), None);
}

#[test]
fn resolve_refuses_a_row_beyond_the_number_range() {
    assert_eq!(resolve("A4294967295"), Some((1, 4294967295)));
    assert_eq!(resolve("A4294967296"), None);
}

#[test]
fn resolve_reads_only_the_start_of_the_text() {
    assert_eq!(resolve("B2:C3"), Some((2, 2)));
    assert_eq!(resolve("ABCD1"), None);
}

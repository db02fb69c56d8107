use graliffer::{byte_index_from_char_index, Cell, GralifferError};

#[test]
fn new_accepts_up_to_three_graphemes() {
    let cell = Cell::new("100").unwrap();
    assert_eq!(cell.content(), "100");
    assert_eq!(
        Cell::new("ABCD").unwrap_err(),
        GralifferError::CellTooLong
    );
    assert_eq!(Cell::new("").unwrap().content(), "");
    assert!(Cell::new("abc").is_ok());
}

#[test]
fn new_counts_graphemes_not_chars() {
    // Three clusters of two characters each: accepted although six chars.
    let text = "e\u{301}e\u{301}e\u{301}";
    let cell = Cell::new(text).unwrap();
    assert_eq!(cell.content(), text);
    // Four clusters: rejected.
    assert!(Cell::new("a\u{310}e\u{301}o\u{308}\u{332}x").is_err());
}

#[test]
fn new_trim_truncates_to_three_graphemes() {
    assert_eq!(Cell::new_trim("ABCDE").content(), "ABC");
    assert_eq!(Cell::new_trim("xy").content(), "xy");
    assert_eq!(Cell::new_trim("").content(), "");
    // Flag pairs are one cluster of two chars each: the cut keeps whole
    // clusters, not a prefix of three characters.
    let flags = "\u{1F1F7}\u{1F1FA}\u{1F1F8}\u{1F1F9}zz";
    assert_eq!(
        Cell::new_trim(flags).content(),
        "\u{1F1F7}\u{1F1FA}\u{1F1F8}\u{1F1F9}z"
    );
}

#[test]
fn insert_at_reports_characters_inserted() {
    let mut cell = Cell::new("ac").unwrap();
    assert_eq!(cell.insert_at("b", 1).unwrap(), 1);
    assert_eq!(cell.content(), "abc");
}

#[test]
fn insert_at_beyond_length_appends() {
    let mut cell = Cell::new("a").unwrap();
    assert_eq!(cell.insert_at("b", 99).unwrap(), 1);
    assert_eq!(cell.content(), "ab");
}

#[test]
fn insert_at_overflow_is_atomic() {
    let mut cell = Cell::new("abc").unwrap();
    assert_eq!(
        cell.insert_at("d", 3).unwrap_err(),
        GralifferError::CellTooLong
    );
    // The cell is byte-for-byte unchanged, and 0 characters went in.
    assert_eq!(cell.insert_at("d", 3).unwrap_or(0), 0);
    assert_eq!(cell.content(), "abc");
    let mut cell = Cell::new("ab").unwrap();
    assert_eq!(
        cell.insert_at("cd", 0).unwrap_err(),
        GralifferError::CellTooLong
    );
    assert_eq!(cell.content(), "ab");
}

#[test]
fn delete_char_range_reports_characters_removed() {
    let mut cell = Cell::new("abc").unwrap();
    assert_eq!(cell.delete_char_range(1..2).unwrap(), 1);
    assert_eq!(cell.content(), "ac");
    let mut cell = Cell::new("abc").unwrap();
    assert_eq!(cell.delete_char_range(0..3).unwrap(), 3);
    assert_eq!(cell.content(), "");
    let mut cell = Cell::new("abc").unwrap();
    assert_eq!(cell.delete_char_range(2..9).unwrap(), 1);
    assert_eq!(cell.content(), "ab");
}

#[test]
fn clear_set_and_accessors() {
    let mut cell = Cell::new("ab").unwrap();
    assert!(!cell.is_empty());
    cell.clear();
    assert!(cell.is_empty());
    assert_eq!(cell.content(), "");

    cell.set("xyz").unwrap();
    assert_eq!(cell.content(), "xyz");
    assert_eq!(
        cell.set("wxyz").unwrap_err(),
        GralifferError::CellTooLong
    );
    assert_eq!(cell.content(), "xyz");

    assert_eq!(cell.len(), 3);
    assert_eq!(Cell::new("é").unwrap().len(), 2);
    assert_eq!(cell.get_content_range(1..3), "yz");
    assert_eq!(cell.get_content_range(0..99), "xyz");
}

#[test]
fn cell_equality_compares_text() {
    assert_eq!(Cell::new("ab").unwrap(), Cell::new("ab").unwrap());
    assert_ne!(Cell::new("ab").unwrap(), Cell::new("ba").unwrap());
    assert_eq!(Cell::default(), Cell::new("").unwrap());
    assert_eq!(Cell::new("ab").unwrap().clone().content(), "ab");
}

#[test]
fn byte_index_follows_utf8_widths() {
    assert_eq!(byte_index_from_char_index("abc", 0), 0);
    assert_eq!(byte_index_from_char_index("abc", 2), 2);
    assert_eq!(byte_index_from_char_index("abc", 9), 3);
    // 'é' as one code point is two bytes wide.
    assert_eq!(byte_index_from_char_index("\u{e9}bc", 1), 2);
    assert_eq!(byte_index_from_char_index("\u{e9}bc", 2), 3);
}

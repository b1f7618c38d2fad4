use hhead::{hex_cells, offset_label, text_column};

#[test]
fn hex_cells_full_row() {
    let first = " 48 65 6c 6c 6f 2c 20 57".to_string() + " ";
    let second = " 6f 72 6c 64 21".to_string() + &"   ".repeat(3) + " ";
    assert_eq!(hex_cells(b"Hello, World!", 16), first + &second);
}

#[test]
fn hex_cells_blank_groups() {
    let blank_group = "   ".repeat(8) + " ";
    assert_eq!(hex_cells(b"", 8), blank_group);
    let first = " 00 ff".to_string() + &"   ".repeat(6) + " ";
    assert_eq!(hex_cells(b"\x00\xff", 10), first + &blank_group);
    assert_eq!(hex_cells(b"", 0), "");
}

#[test]
fn text_column_ascii() {
    assert_eq!(text_column(b"Hi\x00\x7f~", 8, false), "Hi..~   ");
    assert_eq!(text_column(b"Test", 2, false), "Test");
}

#[test]
fn text_column_utf8() {
    let data = "Hello, 世界!".as_bytes();
    assert_eq!(text_column(data, 16, true), "Hello, 世界!      ");
    assert_eq!(text_column(b"a\tb\xff", 5, true), "a.b\u{FFFD} ");
    assert_eq!(text_column("\u{85}x".as_bytes(), 2, true), ".x");
}

#[test]
fn offset_labels() {
    assert_eq!(offset_label(0), "00000000");
    assert_eq!(offset_label(0x1f0), "000001f0");
    assert_eq!(offset_label(0x1234567890), "1234567890");
}

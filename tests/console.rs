use micecoreos::vga::{cursor_port_writes, Color, ColorCode, ScreenChar, Writer, BUFFER_WIDTH};

fn row_text(w: &Writer, row: usize, len: usize) -> Vec<u8> {
    (0..len).map(|c| w.char_at(row, c).ascii_char).collect()
}

#[test]
fn foo() {}

#[test]
fn color_code_packs_background_high() {
    assert_eq!(ColorCode::new(Color::LightGreen, Color::Black), ColorCode(0x0a));
    assert_eq!(ColorCode::new(Color::White, Color::Blue), ColorCode(0x1f));
    assert_eq!(ColorCode::new(Color::Black, Color::White), ColorCode(0xf0));
}

#[test]
fn new_writer_is_blank_at_origin() {
    let w = Writer::new();
    assert_eq!(w.row_position(), 0);
    assert_eq!(w.column_position(), 0);
    assert_eq!(w.cursor_position(), 0);
    assert_eq!(
        w.char_at(24, 79),
        ScreenChar { ascii_char: b' ', color_code: ColorCode(0x0a) }
    );
}

#[test]
fn write_string_places_glyphs_and_syncs_cursor() {
    let mut w = Writer::new();
    w.write_string("Hi!");
    assert_eq!(row_text(&w, 0, 3), b"Hi!".to_vec());
    assert_eq!(w.char_at(0, 0).color_code, ColorCode(0x0a));
    assert_eq!(w.column_position(), 3);
    assert_eq!(w.cursor_position(), 3);
    w.write_string("\nx");
    assert_eq!(w.row_position(), 1);
    assert_eq!(w.column_position(), 1);
    assert_eq!(w.cursor_position(), 81);
}

#[test]
fn column_never_exceeds_width() {
    let mut w = Writer::new();
    for i in 0..300u32 {
        let b = [b'a' + (i % 26) as u8];
        w.write_string(std::str::from_utf8(&b).unwrap());
        assert!(w.column_position() <= BUFFER_WIDTH);
    }
    // 300 bytes: three full rows, then 60 more on the fourth
    assert_eq!(w.row_position(), 3);
    assert_eq!(w.column_position(), 60);
}

#[test]
fn full_row_then_one_byte_wraps() {
    let mut w = Writer::new();
    let row: String = std::iter::repeat('a').take(80).collect();
    w.write_string(&row);
    assert_eq!(w.row_position(), 0);
    assert_eq!(w.column_position(), 80);
    w.write_string("b");
    assert_eq!(w.row_position(), 1);
    assert_eq!(w.column_position(), 1);
    assert_eq!(w.char_at(1, 0).ascii_char, b'b');
    assert_eq!(w.char_at(0, 79).ascii_char, b'a');
}

#[test]
fn scrolling_keeps_top_two_rows() {
    let mut w = Writer::new();
    for r in 0..25u8 {
        if r > 0 {
            w.write_string("\n");
        }
        let line = [b'A' + r];
        w.write_string(std::str::from_utf8(&line).unwrap());
    }
    assert_eq!(w.row_position(), 24);
    w.write_string("\n");
    assert_eq!(w.row_position(), 24);
    assert_eq!(w.column_position(), 0);
    assert_eq!(w.char_at(0, 0).ascii_char, b'A');
    assert_eq!(w.char_at(1, 0).ascii_char, b'B');
    assert_eq!(w.char_at(2, 0).ascii_char, b'D');
    assert_eq!(w.char_at(23, 0).ascii_char, b'Y');
    assert_eq!(w.char_at(24, 0).ascii_char, b' ');
}

#[test]
fn backspace_at_column_one_wraps_up() {
    let mut w = Writer::new();
    w.write_string("ab\nc");
    assert_eq!((w.row_position(), w.column_position()), (1, 1));
    w.write_string("\x08");
    assert_eq!(w.row_position(), 0);
    assert_eq!(w.column_position(), 80);
    assert_eq!(w.char_at(0, 79).ascii_char, b' ');
    assert_eq!(w.char_at(1, 0).ascii_char, b'c');
    assert_eq!(row_text(&w, 0, 2), b"ab".to_vec());
}

#[test]
fn backspace_on_first_row_is_noop() {
    let mut w = Writer::new();
    w.write_string("ab");
    w.backspace();
    assert_eq!(w.column_position(), 2);
    assert_eq!(row_text(&w, 0, 2), b"ab".to_vec());
}

#[test]
fn backspace_mid_row_erases_previous() {
    let mut w = Writer::new();
    w.write_string("x\nabc");
    w.write_string("\x08");
    assert_eq!((w.row_position(), w.column_position()), (1, 2));
    assert_eq!(row_text(&w, 1, 3), b"ab ".to_vec());
}

#[test]
fn backspace_at_column_zero_erases_end_of_previous_row() {
    let mut w = Writer::new();
    let row: String = std::iter::repeat('z').take(80).collect();
    w.write_string(&row);
    w.write_string("\n");
    assert_eq!((w.row_position(), w.column_position()), (1, 0));
    w.write_string("\x08");
    assert_eq!((w.row_position(), w.column_position()), (0, 80));
    assert_eq!(w.char_at(0, 79).ascii_char, b' ');
    assert_eq!(w.char_at(0, 78).ascii_char, b'z');
}

#[test]
fn unprintable_bytes_become_substitute() {
    let mut w = Writer::new();
    w.write_string("\x01\x7f\té");
    // 'é' is two bytes in UTF-8, each shown as the substitute glyph
    assert_eq!(row_text(&w, 0, 5), vec![0xfe, 0xfe, 0xfe, 0xfe, 0xfe]);
    assert_eq!(w.column_position(), 5);
}

#[test]
fn write_char_encodes_utf8() {
    let mut w = Writer::new();
    w.write_char('q');
    w.write_char('€');
    assert_eq!(row_text(&w, 0, 4), vec![b'q', 0xfe, 0xfe, 0xfe]);
    assert_eq!(w.cursor_position(), 4);
}

#[test]
fn clear_and_new_line() {
    let mut w = Writer::new();
    w.write_string("abc");
    w.clear_row(0);
    assert_eq!(row_text(&w, 0, 3), b"   ".to_vec());
    w.new_line();
    assert_eq!((w.row_position(), w.column_position()), (1, 0));
    w.write_byte(b'k');
    assert_eq!(w.char_at(1, 0).ascii_char, b'k');
}

#[test]
fn cursor_ports_low_then_high() {
    assert_eq!(
        cursor_port_writes(0x123),
        vec![(0x3D4, 0x0F), (0x3D5, 0x23), (0x3D4, 0x0E), (0x3D5, 0x01)]
    );
    assert_eq!(
        cursor_port_writes(2000),
        vec![(0x3D4, 0x0F), (0x3D5, 0xD0), (0x3D4, 0x0E), (0x3D5, 0x07)]
    );
}

#[test]
fn backspace_after_newline_and_char_keeps_char() {
    let mut w = Writer::new();
    w.write_string("\nx\x08");
    assert_eq!((w.row_position(), w.column_position()), (0, 80));
    assert_eq!(
        w.char_at(0, 79),
        ScreenChar { ascii_char: b' ', color_code: ColorCode(0x0a) }
    );
    assert_eq!(w.char_at(1, 0).ascii_char, b'x');
    assert_eq!(w.cursor_position(), 80);
}

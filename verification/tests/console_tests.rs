use vga_console::color::{Color, ColorCode, ScreenChar};
use vga_console::print::{_error, _error_nl, _print, _println, write_error_prefix};
use vga_console::console::{
    render, BUFFER_HEIGHT, BUFFER_WIDTH, LAST_ROW, LINE_FEED, PLACEHOLDER, SPACE,
};
use vga_console::surface::Surface;
use vga_console::writer::Writer;
use volatile::Volatile;

const LAST: usize = LAST_ROW;

fn surface_of(character: u8, attribute: u8) -> &'static mut Surface {
    let surface: Surface = std::array::from_fn(|_| {
        std::array::from_fn(|_| [Volatile::new(character), Volatile::new(attribute)])
    });
    Box::leak(Box::new(surface))
}

fn white_on_black() -> ColorCode {
    ColorCode::new(Color::White, Color::Black)
}

fn empty_display() -> Writer {
    Writer::new(surface_of(b' ', white_on_black().0))
}

fn cell(character_value: u8, color_code: ColorCode) -> ScreenChar {
    ScreenChar { character_value, color_code }
}

fn row_text(writer: &Writer, row: usize) -> String {
    (0..BUFFER_WIDTH).map(|col| writer.read_cell(row, col).character_value as char).collect()
}

fn row_is_blank(writer: &Writer, row: usize, color: ColorCode) -> bool {
    (0..BUFFER_WIDTH).all(|col| writer.read_cell(row, col) == cell(b' ', color))
}

fn snapshot(writer: &Writer) -> Vec<Vec<ScreenChar>> {
    (0..BUFFER_HEIGHT)
        .map(|row| (0..BUFFER_WIDTH).map(|col| writer.read_cell(row, col)).collect())
        .collect()
}

fn is_displayable(byte: u8) -> bool {
    (0x20..=0x7e).contains(&byte) || byte == b'\n'
}

#[test]
fn palette_indices_run_from_black_to_white() {
    let palette = [
        Color::Black,
        Color::Blue,
        Color::Green,
        Color::Cyan,
        Color::Red,
        Color::Magenta,
        Color::Brown,
        Color::LightGray,
        Color::DarkGray,
        Color::LightBlue,
        Color::LightGreen,
        Color::LightCyan,
        Color::LightRed,
        Color::Pink,
        Color::Yellow,
        Color::White,
    ];
    for (place, color) in palette.iter().enumerate() {
        assert_eq!(color.index() as usize, place);
    }
}

#[test]
fn color_code_packs_background_high_foreground_low() {
    assert_eq!(ColorCode::new(Color::White, Color::Black), ColorCode(0x0f));
    assert_eq!(ColorCode::new(Color::Red, Color::Black), ColorCode(0x04));
    assert_eq!(ColorCode::new(Color::Yellow, Color::Blue), ColorCode(0x1e));
    assert_eq!(ColorCode::new(Color::Black, Color::White), ColorCode(0xf0));
    assert_eq!(ColorCode::new(Color::White, Color::White), ColorCode(0xff));
    assert_eq!(ColorCode::new(Color::Black, Color::Black), ColorCode(0x00));
    assert_eq!(ColorCode::new(Color::LightGray, Color::DarkGray), ColorCode(0x87));
}

#[test]
fn new_writer_starts_at_column_zero_white_on_black() {
    let writer = Writer::new(surface_of(b'#', 0x2a));
    assert_eq!(writer.column_position(), 0);
    assert_eq!(writer.color_code(), ColorCode(0x0f));
    for row in 0..BUFFER_HEIGHT {
        for col in 0..BUFFER_WIDTH {
            assert_eq!(writer.read_cell(row, col), cell(b'#', ColorCode(0x2a)));
        }
    }
}

#[test]
fn written_cell_is_read_back_from_the_surface() {
    let mut writer = Writer::new(surface_of(0, 0));
    let color = ColorCode::new(Color::Green, Color::Blue);
    writer.write_byte_with_color(b'Z', color);
    assert_eq!(writer.read_cell(LAST, 0), cell(b'Z', color));
    assert_eq!(writer.read_cell(LAST, 1), cell(0, ColorCode(0)));
    assert_eq!(writer.read_cell(LAST - 1, 0), cell(0, ColorCode(0)));
    assert_eq!(writer.column_position(), 1);
}

#[test]
fn write_byte_uses_the_default_color() {
    let mut writer = empty_display();
    writer.write_byte(b'q');
    assert_eq!(writer.read_cell(LAST, 0), cell(b'q', white_on_black()));
    assert_eq!(writer.column_position(), 1);
}

#[test]
fn write_byte_places_in_the_last_row_only() {
    let mut writer = Writer::new(surface_of(b'.', 0x07));
    let before = snapshot(&writer);
    writer.write_byte(b'A');
    writer.write_byte(b'B');
    let after = snapshot(&writer);
    for row in 0..LAST {
        assert_eq!(after[row], before[row]);
    }
    assert_eq!(after[LAST][0], cell(b'A', white_on_black()));
    assert_eq!(after[LAST][1], cell(b'B', white_on_black()));
    assert_eq!(&after[LAST][2..], &before[LAST][2..]);
}

#[test]
fn displayable_bytes_are_written_unchanged() {
    for byte in 0x20u8..=0x7e {
        let mut writer = empty_display();
        writer.write_bytes_with_color(&[byte], ColorCode(0x1e));
        assert_eq!(writer.read_cell(LAST, 0), cell(byte, ColorCode(0x1e)));
        assert_eq!(writer.column_position(), 1);
    }
}

#[test]
fn line_feed_scrolls_once_and_places_nothing() {
    let mut writer = empty_display();
    writer.write_string("ab");
    writer.write_string("\n");
    assert_eq!(writer.column_position(), 0);
    assert_eq!(&row_text(&writer, LAST - 1)[..2], "ab");
    assert!(row_is_blank(&writer, LAST, white_on_black()));
    assert!(row_is_blank(&writer, LAST - 2, white_on_black()));
}

#[test]
fn other_bytes_become_the_placeholder_and_advance() {
    for byte in 0u8..=255 {
        if is_displayable(byte) {
            continue;
        }
        let mut writer = empty_display();
        writer.write_byte(b'>');
        writer.write_bytes_with_color(&[byte], ColorCode(0x4f));
        assert_eq!(writer.read_cell(LAST, 1), cell(0xfe, ColorCode(0x4f)));
        assert_eq!(writer.column_position(), 2);
        assert!(row_is_blank(&writer, LAST - 1, white_on_black()));
    }
}

#[test]
fn byte_ff_renders_as_placeholder_at_the_cursor() {
    let mut writer = empty_display();
    let color = ColorCode::new(Color::Cyan, Color::Black);
    writer.write_bytes_with_color(&[0xff], color);
    assert_eq!(writer.read_cell(LAST, 0), cell(0xfe, color));
    assert_eq!(writer.column_position(), 1);
}

#[test]
fn text_outside_ascii_renders_one_placeholder_per_byte() {
    let mut writer = empty_display();
    writer.write_string("\u{e9}\t");
    assert_eq!(writer.read_cell(LAST, 0), cell(0xfe, white_on_black()));
    assert_eq!(writer.read_cell(LAST, 1), cell(0xfe, white_on_black()));
    assert_eq!(writer.read_cell(LAST, 2), cell(0xfe, white_on_black()));
    assert_eq!(writer.read_cell(LAST, 3), cell(b' ', white_on_black()));
    assert_eq!(writer.column_position(), 3);
}

#[test]
fn ab_newline_c_from_an_empty_display() {
    let mut writer = empty_display();
    writer.write_string("AB");
    assert_eq!(writer.read_cell(LAST, 0), cell(b'A', white_on_black()));
    assert_eq!(writer.read_cell(LAST, 1), cell(b'B', white_on_black()));
    assert_eq!(writer.column_position(), 2);
    writer.write_string("\nC");
    assert_eq!(writer.read_cell(LAST - 1, 0), cell(b'A', white_on_black()));
    assert_eq!(writer.read_cell(LAST - 1, 1), cell(b'B', white_on_black()));
    assert_eq!(writer.read_cell(LAST, 0), cell(b'C', white_on_black()));
    assert_eq!(writer.read_cell(LAST, 1), cell(b' ', white_on_black()));
    assert_eq!(writer.column_position(), 1);
}

#[test]
fn ab_newline_c_in_one_call() {
    let mut writer = empty_display();
    writer.write_string("AB\nC");
    assert_eq!(row_text(&writer, LAST - 1).trim_end(), "AB");
    assert_eq!(row_text(&writer, LAST).trim_end(), "C");
    assert_eq!(writer.column_position(), 1);
    for row in 0..LAST - 1 {
        assert!(row_is_blank(&writer, row, white_on_black()));
    }
}

#[test]
fn a_full_row_does_not_scroll_until_the_next_byte() {
    let mut writer = empty_display();
    writer.write_string("above\n");
    let text: String = (0..BUFFER_WIDTH).map(|i| (b'a' + (i % 26) as u8) as char).collect();
    writer.write_string(&text);
    assert_eq!(writer.column_position(), BUFFER_WIDTH);
    assert_eq!(row_text(&writer, LAST), text);
    assert_eq!(row_text(&writer, LAST - 1).trim_end(), "above");
    writer.write_byte_with_color(b'!', ColorCode(0x0c));
    assert_eq!(writer.column_position(), 1);
    assert_eq!(row_text(&writer, LAST - 2).trim_end(), "above");
    assert_eq!(row_text(&writer, LAST - 1), text);
    assert_eq!(writer.read_cell(LAST, 0), cell(b'!', ColorCode(0x0c)));
    for col in 1..BUFFER_WIDTH {
        assert_eq!(writer.read_cell(LAST, col), cell(b' ', white_on_black()));
    }
}

#[test]
fn long_text_wraps_by_scrolling() {
    let mut writer = empty_display();
    let text: String = (0..BUFFER_WIDTH + 3).map(|i| (b'0' + (i % 10) as u8) as char).collect();
    writer.write_string(&text);
    assert_eq!(row_text(&writer, LAST - 1), &text[..BUFFER_WIDTH]);
    assert_eq!(row_text(&writer, LAST).trim_end(), "012");
    assert_eq!(writer.column_position(), 3);
}

#[test]
fn line_feed_on_a_full_row_scrolls_once() {
    let mut writer = empty_display();
    let text: String = (0..BUFFER_WIDTH).map(|_| 'x').collect();
    writer.write_string(&text);
    writer.write_byte(b'\n');
    assert_eq!(row_text(&writer, LAST - 1), text);
    assert!(row_is_blank(&writer, LAST, white_on_black()));
    assert!(row_is_blank(&writer, LAST - 2, white_on_black()));
    assert_eq!(writer.column_position(), 0);
}

#[test]
fn new_line_moves_every_row_up_by_one() {
    let mut writer = Writer::new(surface_of(0, 0));
    for row in 0..BUFFER_HEIGHT {
        writer.clear_row(row, ColorCode(row as u8 + 1));
    }
    writer.write_byte(b'k');
    writer.new_line();
    for row in 0..LAST - 1 {
        assert!(row_is_blank(&writer, row, ColorCode(row as u8 + 2)));
    }
    assert_eq!(writer.read_cell(LAST - 1, 0), cell(b'k', white_on_black()));
    assert_eq!(writer.read_cell(LAST - 1, 1), cell(b' ', ColorCode(25)));
    assert!(row_is_blank(&writer, LAST, white_on_black()));
    assert_eq!(writer.column_position(), 0);
}

#[test]
fn scrolls_blank_the_display_from_below() {
    let mut writer = Writer::new(surface_of(b'#', 0x70));
    for _ in 0..BUFFER_HEIGHT - 1 {
        writer.new_line();
    }
    for col in 0..BUFFER_WIDTH {
        assert_eq!(writer.read_cell(0, col), cell(b'#', ColorCode(0x70)));
    }
    for row in 1..BUFFER_HEIGHT {
        assert!(row_is_blank(&writer, row, white_on_black()));
    }
    writer.new_line();
    for row in 0..BUFFER_HEIGHT {
        assert!(row_is_blank(&writer, row, white_on_black()));
    }
}

#[test]
fn scrolls_from_a_blank_last_row_blank_every_row() {
    let mut writer = Writer::new(surface_of(b'#', 0x70));
    writer.clear_row(LAST, white_on_black());
    for _ in 0..BUFFER_HEIGHT - 1 {
        writer.new_line();
    }
    for row in 0..BUFFER_HEIGHT {
        assert!(row_is_blank(&writer, row, white_on_black()));
    }
}

#[test]
fn clear_row_fills_one_row_with_spaces() {
    let mut writer = Writer::new(surface_of(b'#', 0x70));
    writer.clear_row(3, ColorCode(0x2f));
    assert!(row_is_blank(&writer, 3, ColorCode(0x2f)));
    for row in (0..BUFFER_HEIGHT).filter(|row| *row != 3) {
        for col in 0..BUFFER_WIDTH {
            assert_eq!(writer.read_cell(row, col), cell(b'#', ColorCode(0x70)));
        }
    }
    assert_eq!(writer.column_position(), 0);
}

#[test]
fn clear_row_on_a_blank_row_changes_nothing() {
    let mut writer = empty_display();
    writer.write_string("kept");
    writer.clear_row(5, white_on_black());
    let before = snapshot(&writer);
    writer.clear_row(5, white_on_black());
    assert_eq!(snapshot(&writer), before);
    assert_eq!(writer.column_position(), 4);
}

#[test]
fn write_string_with_color_keeps_the_call_color() {
    let mut writer = empty_display();
    let color = ColorCode::new(Color::Pink, Color::Blue);
    writer.write_string_with_color("ok\u{7f}", color);
    assert_eq!(writer.read_cell(LAST, 0), cell(b'o', color));
    assert_eq!(writer.read_cell(LAST, 1), cell(b'k', color));
    assert_eq!(writer.read_cell(LAST, 2), cell(0xfe, color));
    assert_eq!(writer.color_code(), white_on_black());
}

#[test]
fn empty_text_changes_nothing() {
    let mut writer = empty_display();
    writer.write_string("x");
    let before = snapshot(&writer);
    writer.write_string("");
    _print(&mut writer, "");
    assert_eq!(snapshot(&writer), before);
    assert_eq!(writer.column_position(), 1);
}

#[test]
fn print_writes_in_the_default_color_without_line_feed() {
    let mut writer = empty_display();
    _print(&mut writer, "Hello");
    assert_eq!(row_text(&writer, LAST).trim_end(), "Hello");
    assert_eq!(writer.read_cell(LAST, 4), cell(b'o', white_on_black()));
    assert_eq!(writer.column_position(), 5);
}

#[test]
fn println_appends_a_line_feed() {
    let mut writer = empty_display();
    _println(&mut writer, "Hello from: Crab OS!");
    assert_eq!(row_text(&writer, LAST - 1).trim_end(), "Hello from: Crab OS!");
    assert!(row_is_blank(&writer, LAST, white_on_black()));
    assert_eq!(writer.column_position(), 0);
}

#[test]
fn error_prefix_is_red_on_black() {
    let mut writer = empty_display();
    write_error_prefix(&mut writer);
    let red = ColorCode::new(Color::Red, Color::Black);
    for (col, byte) in "Error! ".bytes().enumerate() {
        assert_eq!(writer.read_cell(LAST, col), cell(byte, red));
    }
    assert_eq!(writer.column_position(), 7);
    assert_eq!(writer.color_code(), white_on_black());
}

#[test]
fn error_renders_red_prefix_then_message_in_default_color() {
    let mut writer = empty_display();
    _error(&mut writer, "x=5");
    let red = ColorCode(0x04);
    for (col, byte) in "Error! ".bytes().enumerate() {
        assert_eq!(writer.read_cell(LAST, col), cell(byte, red));
    }
    for (col, byte) in "x=5".bytes().enumerate() {
        assert_eq!(writer.read_cell(LAST, 7 + col), cell(byte, white_on_black()));
    }
    assert_eq!(writer.read_cell(LAST, 10), cell(b' ', white_on_black()));
    assert_eq!(writer.column_position(), 10);
    assert!(row_is_blank(&writer, LAST - 1, white_on_black()));
}

#[test]
fn error_nl_appends_a_line_feed() {
    let mut writer = empty_display();
    _error_nl(&mut writer, "x=5");
    assert_eq!(row_text(&writer, LAST - 1).trim_end(), "Error! x=5");
    assert_eq!(writer.read_cell(LAST - 1, 0), cell(b'E', ColorCode(0x04)));
    assert_eq!(writer.read_cell(LAST - 1, 7), cell(b'x', white_on_black()));
    assert!(row_is_blank(&writer, LAST, white_on_black()));
    assert_eq!(writer.column_position(), 0);
}

#[test]
fn display_is_25_rows_of_80_cells() {
    assert_eq!(BUFFER_HEIGHT, 25);
    assert_eq!(BUFFER_WIDTH, 80);
    assert_eq!(LAST_ROW, 24);
    assert_eq!(LINE_FEED, b'\n');
    assert_eq!(SPACE, b' ');
    assert_eq!(PLACEHOLDER, 0xfe);
}

#[test]
fn render_passes_printable_ascii_and_line_feed_only() {
    for byte in 0u8..=255 {
        let expected = if is_displayable(byte) { byte } else { 0xfe };
        assert_eq!(render(byte), expected);
    }
    assert_eq!(render(0x1f), 0xfe);
    assert_eq!(render(0x20), 0x20);
    assert_eq!(render(0x7e), 0x7e);
    assert_eq!(render(0x7f), 0xfe);
    assert_eq!(render(0x0a), 0x0a);
    assert_eq!(render(0x0d), 0xfe);
    assert_eq!(render(0xff), 0xfe);
}

#[test]
fn text_in_two_calls_equals_text_in_one_call() {
    let mut whole = empty_display();
    whole.write_string("Hello, wor\u{0}ld\n!");
    let mut parts = empty_display();
    parts.write_string("Hello, ");
    parts.write_string("wor\u{0}ld\n!");
    assert_eq!(snapshot(&whole), snapshot(&parts));
    assert_eq!(whole.column_position(), parts.column_position());
    assert_eq!(whole.column_position(), 1);
}

#[test]
fn text_never_changes_the_default_color() {
    let mut writer = empty_display();
    writer.write_string_with_color("red\n", ColorCode(0x04));
    assert_eq!(writer.color_code(), white_on_black());
    assert!(row_is_blank(&writer, LAST, white_on_black()));
}

#[test]
fn text_of_placeholders_only_advances_the_cursor() {
    let mut writer = empty_display();
    writer.write_bytes_with_color(&[0x00, 0x07, 0x80, 0xff, 0x7f], ColorCode(0x0f));
    for col in 0..5 {
        assert_eq!(writer.read_cell(LAST, col), cell(0xfe, ColorCode(0x0f)));
    }
    assert_eq!(writer.column_position(), 5);
}

//! What holds of the console's operations, whatever the display shows.

use vstd::prelude::*;
use crate::color::{ColorCode, ScreenChar};
use crate::print::{error_color, error_prefix};
use crate::console::{
    BUFFER_HEIGHT, BUFFER_WIDTH, Console, LAST_ROW, LINE_FEED, PLACEHOLDER, blank_row,
    is_displayable, rendered,
};

verus! {

/// The column at which a byte other than a line feed lands: the cursor, or
/// column 0 where the row is full.
pub open spec fn landing_column(console: Console) -> int {
    if console.column >= BUFFER_WIDTH {
        0
    } else {
        console.column
    }
}

/// A text in two parts gives what the first part and then the second give.
pub proof fn law_text_in_two_parts(
    console: Console,
    first: Seq<u8>,
    second: Seq<u8>,
    color: ColorCode,
)
    ensures
        console.write_bytes(first + second, color) == console.write_bytes(first, color).write_bytes(
            second,
            color,
        ),
    decreases first.len(),
{
    if first.len() == 0 {
        assert(first + second =~= second);
    } else {
        let whole = first + second;
        assert(whole.subrange(1, whole.len() as int) =~= first.subrange(1, first.len() as int)
            + second);
        law_text_in_two_parts(
            console.write_byte_with_color(rendered(first[0]), color),
            first.subrange(1, first.len() as int),
            second,
            color,
        );
    }
}

/// A text of one byte gives what writing that byte, as it is rendered, gives.
pub proof fn law_text_of_one_byte(console: Console, byte: u8, color: ColorCode)
    ensures
        console.write_bytes(seq![byte], color) == console.write_byte_with_color(
            rendered(byte),
            color,
        ),
{
    let text = seq![byte];
    assert(text.subrange(1, text.len() as int).len() == 0);
    reveal_with_fuel(Console::write_bytes, 2);
}

/// A printable byte or a line feed in a text is written as it is: the line
/// feed scrolls once and places nothing, a printable byte lands unchanged at
/// the landing column of the last row.
pub proof fn law_displayable_byte_unchanged(console: Console, byte: u8, color: ColorCode)
    requires
        console.wf(),
        is_displayable(byte),
    ensures
        console.write_bytes(seq![byte], color) == console.write_byte_with_color(byte, color),
        console.write_bytes(seq![byte], color).wf(),
        byte == LINE_FEED ==> console.write_bytes(seq![byte], color) == console.new_line(),
        byte != LINE_FEED ==> console.write_bytes(
            seq![byte],
            color,
        ).rows[LAST_ROW as int][landing_column(console)] == (ScreenChar {
            character_value: byte,
            color_code: color,
        }),
        byte != LINE_FEED ==> console.write_bytes(seq![byte], color).column == landing_column(
            console,
        ) + 1,
{
    law_text_of_one_byte(console, byte, color);
}

/// Any other byte in a text is written as the placeholder glyph, in the
/// colour of the call, and moves the cursor on by one.
pub proof fn law_other_byte_substituted(console: Console, byte: u8, color: ColorCode)
    requires
        console.wf(),
        !is_displayable(byte),
    ensures
        console.write_bytes(seq![byte], color) == console.write_byte_with_color(
            PLACEHOLDER,
            color,
        ),
        console.write_bytes(seq![byte], color).wf(),
        console.write_bytes(
            seq![byte],
            color,
        ).rows[LAST_ROW as int][landing_column(console)] == (ScreenChar {
            character_value: PLACEHOLDER,
            color_code: color,
        }),
        console.write_bytes(seq![byte], color).column == landing_column(console) + 1,
{
    law_text_of_one_byte(console, byte, color);
}

/// Whether every byte of a text is printable ASCII.
pub open spec fn all_printable(bytes: Seq<u8>) -> bool {
    forall|i: int| 0 <= i < bytes.len() ==> 0x20 <= #[trigger] bytes[i] <= 0x7e
}

/// The cell at a column of the last row once a text stands in that row from
/// the cursor on: a byte of the text where the text reaches, else what the
/// row showed.
pub open spec fn text_over_row(
    console: Console,
    bytes: Seq<u8>,
    color: ColorCode,
    col: int,
) -> ScreenChar {
    if console.column <= col < console.column + bytes.len() {
        ScreenChar { character_value: bytes[col - console.column], color_code: color }
    } else {
        console.rows[LAST_ROW as int][col]
    }
}

/// A printable text that fits behind the cursor goes into the last row, byte
/// by byte from the cursor on, without a scroll: the rows above and the cells
/// around the text stay.
pub proof fn law_text_that_fits(console: Console, bytes: Seq<u8>, color: ColorCode)
    requires
        console.wf(),
        all_printable(bytes),
        console.column + bytes.len() <= BUFFER_WIDTH,
    ensures
        console.write_bytes(bytes, color).wf(),
        console.write_bytes(bytes, color).column == console.column + bytes.len(),
        console.write_bytes(bytes, color).default_color == console.default_color,
        forall|row: int|
            0 <= row < LAST_ROW ==> #[trigger] console.write_bytes(bytes, color).rows[row]
                == console.rows[row],
        forall|col: int|
            0 <= col < BUFFER_WIDTH ==> #[trigger] console.write_bytes(
                bytes,
                color,
            ).rows[LAST_ROW as int][col] == text_over_row(console, bytes, color, col),
    decreases bytes.len(),
{
    if bytes.len() > 0 {
        let next = console.write_byte_with_color(bytes[0], color);
        let rest = bytes.subrange(1, bytes.len() as int);
        assert(next == console.place(bytes[0], color));
        assert(forall|i: int| 0 <= i < rest.len() ==> rest[i] == bytes[i + 1]);
        law_text_that_fits(next, rest, color);
        let after = console.write_bytes(bytes, color);
        assert(after == next.write_bytes(rest, color));
        assert forall|col: int| 0 <= col < BUFFER_WIDTH implies #[trigger] after.rows[LAST_ROW
            as int][col] == text_over_row(console, bytes, color, col) by {
            if next.column <= col < next.column + rest.len() {
                assert(rest[col - next.column] == bytes[col - next.column + 1]);
            }
        }
    }
}

/// Exactly one row of printable bytes, written from column 0, fills the last
/// row and scrolls nothing. The byte after it scrolls once: a line feed does
/// no more, any other byte lands at column 0 of the new last row, and the
/// row that was filled stands above it.
pub proof fn law_full_row_then_scroll(
    console: Console,
    bytes: Seq<u8>,
    color: ColorCode,
    next: u8,
    next_color: ColorCode,
)
    requires
        console.wf(),
        console.column == 0,
        bytes.len() == BUFFER_WIDTH,
        all_printable(bytes),
    ensures
        console.write_bytes(bytes, color).column == BUFFER_WIDTH,
        console.write_bytes(bytes, color).rows[LAST_ROW as int] == Seq::new(
            BUFFER_WIDTH as nat,
            |col: int| ScreenChar { character_value: bytes[col], color_code: color },
        ),
        forall|row: int|
            0 <= row < LAST_ROW ==> #[trigger] console.write_bytes(bytes, color).rows[row]
                == console.rows[row],
        next == LINE_FEED ==> console.write_bytes(bytes, color).write_byte_with_color(
            next,
            next_color,
        ) == console.write_bytes(bytes, color).new_line(),
        next != LINE_FEED ==> console.write_bytes(bytes, color).write_byte_with_color(
            next,
            next_color,
        ) == console.write_bytes(bytes, color).new_line().place(next, next_color),
        next != LINE_FEED ==> console.write_bytes(bytes, color).write_byte_with_color(
            next,
            next_color,
        ).column == 1,
        next != LINE_FEED ==> console.write_bytes(bytes, color).write_byte_with_color(
            next,
            next_color,
        ).rows[LAST_ROW as int] == blank_row(console.default_color).update(
            0,
            ScreenChar { character_value: next, color_code: next_color },
        ),
        console.write_bytes(bytes, color).write_byte_with_color(next, next_color).rows[LAST_ROW
            - 1] == console.write_bytes(bytes, color).rows[LAST_ROW as int],
{
    law_text_that_fits(console, bytes, color);
    let filled = console.write_bytes(bytes, color);
    assert(filled.rows[LAST_ROW as int] =~= Seq::new(
        BUFFER_WIDTH as nat,
        |col: int| ScreenChar { character_value: bytes[col], color_code: color },
    ));
}

/// An error whose prefix and printable text fit behind the cursor stands on
/// one line, without a scroll: the prefix from the cursor on, red on black,
/// and right behind it the text in the default colour.
pub proof fn law_error_on_one_line(console: Console, text: Seq<u8>)
    requires
        console.wf(),
        all_printable(text),
        console.column + error_prefix().len() + text.len() <= BUFFER_WIDTH,
    ensures
        ({
            let after = console.write_bytes(error_prefix(), error_color()).write_bytes(
                text,
                console.default_color,
            );
            &&& after.wf()
            &&& after.column == console.column + error_prefix().len() + text.len()
            &&& after.default_color == console.default_color
            &&& forall|row: int|
                0 <= row < LAST_ROW ==> #[trigger] after.rows[row] == console.rows[row]
            &&& forall|i: int|
                0 <= i < error_prefix().len() ==> after.rows[LAST_ROW as int][console.column + i]
                    == (ScreenChar {
                    character_value: #[trigger] error_prefix()[i],
                    color_code: error_color(),
                })
            &&& forall|i: int|
                0 <= i < text.len() ==> after.rows[LAST_ROW as int][console.column
                    + error_prefix().len() + i] == (ScreenChar {
                    character_value: #[trigger] text[i],
                    color_code: console.default_color,
                })
            &&& forall|col: int|
                0 <= col < console.column || console.column + error_prefix().len() + text.len()
                    <= col < BUFFER_WIDTH ==> #[trigger] after.rows[LAST_ROW as int][col]
                    == console.rows[LAST_ROW as int][col]
        }),
{
    let prefix = error_prefix();
    assert(all_printable(prefix));
    law_text_that_fits(console, prefix, error_color());
    let between = console.write_bytes(prefix, error_color());
    law_text_that_fits(between, text, console.default_color);
    let after = between.write_bytes(text, console.default_color);
    assert forall|i: int| 0 <= i < prefix.len() implies after.rows[LAST_ROW as int][console.column
        + i] == (ScreenChar {
        character_value: #[trigger] prefix[i],
        color_code: error_color(),
    }) by {
        let col = console.column + i;
        assert(after.rows[LAST_ROW as int][col] == text_over_row(
            between,
            text,
            console.default_color,
            col,
        ));
        assert(between.rows[LAST_ROW as int][col] == text_over_row(
            console,
            prefix,
            error_color(),
            col,
        ));
    }
    assert forall|i: int| 0 <= i < text.len() implies after.rows[LAST_ROW as int][console.column
        + prefix.len() + i] == (ScreenChar {
        character_value: #[trigger] text[i],
        color_code: console.default_color,
    }) by {
        let col = console.column + prefix.len() + i;
        assert(after.rows[LAST_ROW as int][col] == text_over_row(
            between,
            text,
            console.default_color,
            col,
        ));
    }
    assert forall|col: int|
        0 <= col < console.column || console.column + prefix.len() + text.len() <= col
            < BUFFER_WIDTH implies #[trigger] after.rows[LAST_ROW as int][col]
        == console.rows[LAST_ROW as int][col] by {
        assert(after.rows[LAST_ROW as int][col] == text_over_row(
            between,
            text,
            console.default_color,
            col,
        ));
        assert(between.rows[LAST_ROW as int][col] == text_over_row(
            console,
            prefix,
            error_color(),
            col,
        ));
    }
}

/// One scroll moves every row up by one and loses only the top row: each row
/// but the last shows what the row under it showed, the last row is blank in
/// the default colour, and the cursor is at column 0.
pub proof fn law_scroll_moves_rows_up(console: Console)
    requires
        console.wf(),
    ensures
        console.new_line().wf(),
        console.new_line().column == 0,
        console.new_line().default_color == console.default_color,
        forall|row: int|
            0 <= row < LAST_ROW ==> #[trigger] console.new_line().rows[row] == console.rows[row
                + 1],
        console.new_line().rows[LAST_ROW as int] == blank_row(console.default_color),
{
}

/// After a number of scrolls the rows that are left have moved up by that
/// number, and the rows below them are blank in the default colour.
pub proof fn law_scrolls_blank_from_below(console: Console, count: nat)
    requires
        console.wf(),
    ensures
        console.scrolls(count).wf(),
        console.scrolls(count).column == if count == 0 {
            console.column
        } else {
            0
        },
        console.scrolls(count).default_color == console.default_color,
        forall|row: int|
            0 <= row < BUFFER_HEIGHT - count ==> #[trigger] console.scrolls(count).rows[row]
                == console.rows[row + count],
        forall|row: int|
            0 <= row < BUFFER_HEIGHT && BUFFER_HEIGHT - count <= row ==> #[trigger] console.scrolls(
                count,
            ).rows[row] == blank_row(console.default_color),
    decreases count,
{
    if count > 0 {
        let before = console.scrolls((count - 1) as nat);
        law_scrolls_blank_from_below(console, (count - 1) as nat);
        law_scroll_moves_rows_up(before);
        assert forall|row: int|
            0 <= row < BUFFER_HEIGHT implies #[trigger] before.new_line().rows[row] == if row
            < BUFFER_HEIGHT - count {
            console.rows[row + count]
        } else {
            blank_row(console.default_color)
        } by {
            if row < LAST_ROW {
                assert(before.new_line().rows[row] == before.rows[row + 1]);
            }
        }
    }
}

/// After as many scrolls as there are rows above the last, every row of the
/// display is blank in the default colour, provided the last row was blank
/// at the start; after more scrolls than that, whatever the display showed.
pub proof fn law_enough_scrolls_blank_display(console: Console, count: nat)
    requires
        console.wf(),
        count >= LAST_ROW,
        count == LAST_ROW ==> console.rows[LAST_ROW as int] == blank_row(console.default_color),
    ensures
        forall|row: int|
            0 <= row < BUFFER_HEIGHT ==> #[trigger] console.scrolls(count).rows[row] == blank_row(
                console.default_color,
            ),
{
    law_scrolls_blank_from_below(console, count);
}

/// A text changes the display and the cursor, never the default colour.
pub proof fn law_default_color_stays(console: Console, bytes: Seq<u8>, color: ColorCode)
    ensures
        console.write_bytes(bytes, color).default_color == console.default_color,
    decreases bytes.len(),
{
    if bytes.len() > 0 {
        law_default_color_stays(
            console.write_byte_with_color(rendered(bytes[0]), color),
            bytes.subrange(1, bytes.len() as int),
            color,
        );
    }
}

/// Clearing a row that is already blank in that colour changes nothing.
pub proof fn law_clear_blank_row_changes_nothing(console: Console, row: int, color: ColorCode)
    requires
        0 <= row < console.rows.len(),
        console.rows[row] == blank_row(color),
    ensures
        console.clear_row(row, color) == console,
{
    assert(console.clear_row(row, color).rows =~= console.rows);
}

/// Clearing a row twice in one colour gives what clearing it once gives.
pub proof fn law_clear_row_twice(console: Console, row: int, color: ColorCode)
    requires
        0 <= row < console.rows.len(),
    ensures
        console.clear_row(row, color).clear_row(row, color) == console.clear_row(row, color),
{
    law_clear_blank_row_changes_nothing(console.clear_row(row, color), row, color);
}

} // verus!

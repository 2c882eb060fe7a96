//! What a console is, apart from the memory that shows it: a cursor column, a
//! default colour and 25 rows of 80 cells, with the operations on them.

use vstd::prelude::*;
use crate::color::{ColorCode, ScreenChar};

verus! {

/// The number of rows of the display.
pub const BUFFER_HEIGHT: usize = 25;

/// The number of cells in a row.
pub const BUFFER_WIDTH: usize = 80;

/// The row that text is written to: the last one.
pub const LAST_ROW: usize = BUFFER_HEIGHT - 1;

/// The line-feed byte.
pub const LINE_FEED: u8 = 0x0a;

/// The space, which fills a blank cell.
pub const SPACE: u8 = 0x20;

/// The glyph shown in place of a byte that cannot be displayed.
pub const PLACEHOLDER: u8 = 0xfe;

/// A space in the given colour.
pub open spec fn blank(color: ColorCode) -> ScreenChar {
    ScreenChar { character_value: SPACE, color_code: color }
}

/// A row of spaces in the given colour.
pub open spec fn blank_row(color: ColorCode) -> Seq<ScreenChar> {
    Seq::new(BUFFER_WIDTH as nat, |col: int| blank(color))
}

/// Whether a byte is shown as it is: printable ASCII, or a line feed.
pub open spec fn is_displayable(byte: u8) -> bool {
    (0x20 <= byte <= 0x7e) || byte == LINE_FEED
}

/// The byte that is written for a byte of text: the byte itself where it is
/// displayable, the placeholder glyph otherwise.
pub open spec fn rendered(byte: u8) -> u8 {
    if is_displayable(byte) {
        byte
    } else {
        PLACEHOLDER
    }
}

/// Renders one byte of text: printable ASCII and the line feed pass, any
/// other byte becomes the placeholder glyph.
pub fn render(byte: u8) -> (shown: u8)
    ensures
        shown == rendered(byte),
{
    if (0x20 <= byte && byte <= 0x7e) || byte == LINE_FEED {
        byte
    } else {
        PLACEHOLDER
    }
}

/// The state of a console.
pub struct Console {
    /// The column of the last row at which the next byte is placed.
    pub column: int,
    /// The colour of text written without a colour, and of blanked rows.
    pub default_color: ColorCode,
    /// The rows of the display, top row first.
    pub rows: Seq<Seq<ScreenChar>>,
}

impl Console {
    /// The cursor is within the row or just behind it, and the grid has the
    /// display's height and width.
    pub open spec fn wf(self) -> bool {
        &&& 0 <= self.column <= BUFFER_WIDTH
        &&& self.rows.len() == BUFFER_HEIGHT
        &&& forall|row: int|
            0 <= row < BUFFER_HEIGHT ==> (#[trigger] self.rows[row]).len() == BUFFER_WIDTH
    }

    /// The console with one row overwritten by spaces in the given colour.
    pub open spec fn clear_row(self, row: int, color: ColorCode) -> Console {
        Console { rows: self.rows.update(row, blank_row(color)), ..self }
    }

    /// The console after a scroll: every row has moved up by one, the top row
    /// is gone, the last row is blank in the default colour, and the cursor is
    /// at column 0.
    pub open spec fn new_line(self) -> Console {
        Console {
            column: 0,
            rows: self.rows.subrange(1, BUFFER_HEIGHT as int).push(blank_row(self.default_color)),
            ..self
        }
    }

    /// The console with a cell placed in the last row at the cursor, and the
    /// cursor moved on by one.
    pub open spec fn place(self, byte: u8, color: ColorCode) -> Console {
        Console {
            column: self.column + 1,
            rows: self.rows.update(
                LAST_ROW as int,
                self.rows[LAST_ROW as int].update(
                    self.column,
                    ScreenChar { character_value: byte, color_code: color },
                ),
            ),
            ..self
        }
    }

    /// The console after one byte: a line feed scrolls; any other byte is
    /// placed at the cursor, after a scroll where the row is full.
    pub open spec fn write_byte_with_color(self, byte: u8, color: ColorCode) -> Console {
        if byte == LINE_FEED {
            self.new_line()
        } else if self.column >= BUFFER_WIDTH {
            self.new_line().place(byte, color)
        } else {
            self.place(byte, color)
        }
    }

    /// The console after one byte in the default colour.
    pub open spec fn write_byte(self, byte: u8) -> Console {
        self.write_byte_with_color(byte, self.default_color)
    }

    /// The console after a text, byte by byte, each byte as it is rendered.
    pub open spec fn write_bytes(self, bytes: Seq<u8>, color: ColorCode) -> Console
        decreases bytes.len(),
    {
        if bytes.len() == 0 {
            self
        } else {
            self.write_byte_with_color(rendered(bytes[0]), color).write_bytes(
                bytes.subrange(1, bytes.len() as int),
                color,
            )
        }
    }

    /// The console after a number of scrolls.
    pub open spec fn scrolls(self, count: nat) -> Console
        decreases count,
    {
        if count == 0 {
            self
        } else {
            self.scrolls((count - 1) as nat).new_line()
        }
    }
}

} // verus!

//! The writer: the cursor and the default colour over a display surface.

use vstd::prelude::*;
use vstd::string::StringSliceAdditionalSpecFns;
use crate::color::{Color, ColorCode, ScreenChar};
use crate::console::{
    BUFFER_HEIGHT, BUFFER_WIDTH, Console, LAST_ROW, LINE_FEED, SPACE, blank, blank_row, render,
};
use crate::surface::{Surface, surface_rows, volatile_read, volatile_write};

verus! {

/// Turns bytes of text into cells of the display, at the last row, and moves
/// the rows up when that row is full or a line ends.
pub struct Writer {
    column_position: usize,
    color_code: ColorCode,
    buffer: &'static mut Surface,
}

impl View for Writer {
    type V = Console;

    closed spec fn view(&self) -> Console {
        Console {
            column: self.column_position as int,
            default_color: self.color_code,
            rows: surface_rows(*self.buffer),
        }
    }
}

impl Writer {
    /// The cursor is within the last row or just behind it.
    #[verifier::type_invariant]
    spec fn cursor_in_row(&self) -> bool {
        self.column_position <= BUFFER_WIDTH
    }

    /// A writer over the given surface, with the cursor at column 0 and white
    /// on black as its default colour. What the surface shows stays.
    pub fn new(buffer: &'static mut Surface) -> (writer: Writer)
        ensures
            writer@.wf(),
            writer@.column == 0,
            writer@.default_color == ColorCode::packed(Color::White, Color::Black),
            writer@.rows == surface_rows(*old(buffer)),
    {
        Writer {
            column_position: 0,
            color_code: ColorCode::new(Color::White, Color::Black),
            buffer,
        }
    }

    /// The column at which the next byte is placed.
    pub fn column_position(&self) -> (column: usize)
        ensures
            column == self@.column,
            column <= BUFFER_WIDTH,
            self@.wf(),
    {
        proof {
            use_type_invariant(&*self);
        }
        self.column_position
    }

    /// The colour of text written without a colour.
    pub fn color_code(&self) -> (color: ColorCode)
        ensures
            color == self@.default_color,
    {
        self.color_code
    }

    /// Reads the cell at a row and a column from the display.
    pub fn read_cell(&self, row: usize, col: usize) -> (cell: ScreenChar)
        requires
            row < BUFFER_HEIGHT,
            col < BUFFER_WIDTH,
        ensures
            cell == self@.rows[row as int][col as int],
    {
        let character_value: u8 = volatile_read(&self.buffer[row][col][0]);
        let attribute: u8 = volatile_read(&self.buffer[row][col][1]);
        ScreenChar { character_value, color_code: ColorCode(attribute) }
    }

    /// Writes one cell to the display: the character byte, then the attribute.
    fn write_cell(&mut self, row: usize, col: usize, cell: ScreenChar)
        requires
            row < BUFFER_HEIGHT,
            col < BUFFER_WIDTH,
        ensures
            final(self)@ == (Console {
                rows: old(self)@.rows.update(
                    row as int,
                    old(self)@.rows[row as int].update(col as int, cell),
                ),
                ..old(self)@
            }),
    {
        proof {
            use_type_invariant(&*self);
        }
        volatile_write(&mut self.buffer[row][col][0], cell.character_value);
        volatile_write(&mut self.buffer[row][col][1], cell.color_code.0);
        assert(self@.rows =~~= old(self)@.rows.update(
            row as int,
            old(self)@.rows[row as int].update(col as int, cell),
        ));
    }

    /// Overwrites a whole row with spaces in the given colour.
    pub fn clear_row(&mut self, row: usize, color: ColorCode)
        requires
            row < BUFFER_HEIGHT,
        ensures
            final(self)@.wf(),
            final(self)@ == old(self)@.clear_row(row as int, color),
    {
        proof {
            use_type_invariant(&*self);
        }
        let space = ScreenChar { character_value: SPACE, color_code: color };
        let mut col: usize = 0;
        while col < BUFFER_WIDTH
            invariant
                col <= BUFFER_WIDTH,
                row < BUFFER_HEIGHT,
                self@.wf(),
                space == blank(color),
                self@.column == old(self)@.column,
                self@.default_color == old(self)@.default_color,
                forall|r: int|
                    0 <= r < BUFFER_HEIGHT && r != row ==> self@.rows[r] == old(self)@.rows[r],
                forall|c: int| 0 <= c < col ==> self@.rows[row as int][c] == space,
            decreases BUFFER_WIDTH - col,
        {
            self.write_cell(row, col, space);
            col += 1;
        }
        assert(self@.rows[row as int] =~= blank_row(color));
        assert(self@.rows =~= old(self)@.clear_row(row as int, color).rows);
    }

    /// Scrolls: copies every row but the first into the row above it, blanks
    /// the last row in the default colour and puts the cursor at column 0.
    pub fn new_line(&mut self)
        ensures
            final(self)@.wf(),
            final(self)@ == old(self)@.new_line(),
    {
        proof {
            use_type_invariant(&*self);
        }
        let mut row: usize = 1;
        while row < BUFFER_HEIGHT
            invariant
                1 <= row <= BUFFER_HEIGHT,
                self@.wf(),
                self@.column == old(self)@.column,
                self@.default_color == old(self)@.default_color,
                forall|r: int| 1 <= r < row ==> self@.rows[r - 1] == #[trigger] old(self)@.rows[r],
                forall|r: int|
                    row - 1 <= r < BUFFER_HEIGHT ==> self@.rows[r] == old(self)@.rows[r],
            decreases BUFFER_HEIGHT - row,
        {
            let ghost before = self@;
            assert(before.rows[row as int] == old(self)@.rows[row as int]);
            let mut col: usize = 0;
            while col < BUFFER_WIDTH
                invariant
                    col <= BUFFER_WIDTH,
                    1 <= row < BUFFER_HEIGHT,
                    self@.wf(),
                    self@.column == before.column,
                    self@.default_color == before.default_color,
                    forall|r: int|
                        0 <= r < BUFFER_HEIGHT && r != row - 1 ==> self@.rows[r]
                            == before.rows[r],
                    forall|c: int|
                        0 <= c < col ==> self@.rows[row - 1][c] == before.rows[row as int][c],
                decreases BUFFER_WIDTH - col,
            {
                let character = self.read_cell(row, col);
                self.write_cell(row - 1, col, character);
                col += 1;
            }
            assert(self@.rows[row - 1] =~= before.rows[row as int]);
            row += 1;
        }
        self.clear_row(LAST_ROW, self.color_code);
        self.column_position = 0;
        assert(self@.rows =~= old(self)@.new_line().rows);
    }

    /// Writes one byte in the given colour. A line feed scrolls. Any other
    /// byte is placed in the last row at the cursor, after a scroll where the
    /// row is full, and the cursor moves on by one.
    pub fn write_byte_with_color(&mut self, byte: u8, color: ColorCode)
        ensures
            final(self)@.wf(),
            final(self)@ == old(self)@.write_byte_with_color(byte, color),
    {
        proof {
            use_type_invariant(&*self);
        }
        if byte == LINE_FEED {
            self.new_line();
        } else {
            if self.column_position >= BUFFER_WIDTH {
                self.new_line();
            }
            let col = self.column_position;
            self.write_cell(
                LAST_ROW,
                col,
                ScreenChar { character_value: byte, color_code: color },
            );
            self.column_position += 1;
        }
    }

    /// Writes one byte in the default colour.
    pub fn write_byte(&mut self, byte: u8)
        ensures
            final(self)@.wf(),
            final(self)@ == old(self)@.write_byte(byte),
    {
        self.write_byte_with_color(byte, self.color_code);
    }

    /// Writes the bytes of a text in the given colour: printable ASCII and the
    /// line feed as they are, the placeholder glyph for any other byte.
    pub fn write_bytes_with_color(&mut self, bytes: &[u8], color: ColorCode)
        ensures
            final(self)@.wf(),
            final(self)@ == old(self)@.write_bytes(bytes@, color),
    {
        proof {
            use_type_invariant(&*self);
        }
        let mut i: usize = 0;
        assert(bytes@.subrange(0, bytes@.len() as int) =~= bytes@);
        while i < bytes.len()
            invariant
                i <= bytes.len(),
                self@.wf(),
                self@.write_bytes(bytes@.subrange(i as int, bytes@.len() as int), color) == old(
                    self,
                )@.write_bytes(bytes@, color),
            decreases bytes.len() - i,
        {
            let byte: u8 = bytes[i];
            proof {
                let rest = bytes@.subrange(i as int, bytes@.len() as int);
                assert(rest.subrange(1, rest.len() as int) =~= bytes@.subrange(
                    i + 1,
                    bytes@.len() as int,
                ));
            }
            self.write_byte_with_color(render(byte), color);
            i += 1;
        }
    }

    /// Writes a text in the default colour.
    pub fn write_string(&mut self, s: &str)
        ensures
            final(self)@.wf(),
            final(self)@ == old(self)@.write_bytes(s.spec_bytes(), old(self)@.default_color),
    {
        self.write_bytes_with_color(s.as_bytes(), self.color_code);
    }

    /// Writes a text in the given colour.
    pub fn write_string_with_color(&mut self, s: &str, color: ColorCode)
        ensures
            final(self)@.wf(),
            final(self)@ == old(self)@.write_bytes(s.spec_bytes(), color),
    {
        self.write_bytes_with_color(s.as_bytes(), color);
    }
}

} // verus!

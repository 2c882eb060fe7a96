//! The entry points for text: plain, and as an error behind a red prefix.

use vstd::prelude::*;
use vstd::string::StringSliceAdditionalSpecFns;
use crate::color::{Color, ColorCode};
use crate::console::LINE_FEED;
use crate::laws::{law_default_color_stays, law_text_in_two_parts, law_text_of_one_byte};
use crate::writer::Writer;

verus! {

/// The bytes of the prefix of an error: `Error! `.
pub open spec fn error_prefix() -> Seq<u8> {
    seq![0x45u8, 0x72u8, 0x72u8, 0x6fu8, 0x72u8, 0x21u8, 0x20u8]
}

/// The colour of the prefix of an error: red on black.
pub open spec fn error_color() -> ColorCode {
    ColorCode::packed(Color::Red, Color::Black)
}

/// Writes a text in the writer's default colour.
pub fn _print(writer: &mut Writer, text: &str)
    ensures
        final(writer)@.wf(),
        final(writer)@ == old(writer)@.write_bytes(text.spec_bytes(), old(writer)@.default_color),
{
    writer.write_string(text);
}

/// Writes a text in the writer's default colour, and a line feed after it.
pub fn _println(writer: &mut Writer, text: &str)
    ensures
        final(writer)@.wf(),
        final(writer)@ == old(writer)@.write_bytes(
            text.spec_bytes().push(LINE_FEED),
            old(writer)@.default_color,
        ),
{
    writer.write_string(text);
    writer.write_byte(LINE_FEED);
    proof {
        let color = old(writer)@.default_color;
        law_text_of_one_byte(old(writer)@.write_bytes(text.spec_bytes(), color), LINE_FEED, color);
        law_text_in_two_parts(old(writer)@, text.spec_bytes(), seq![LINE_FEED], color);
        assert(text.spec_bytes() + seq![LINE_FEED] =~= text.spec_bytes().push(LINE_FEED));
    }
}

/// Writes the prefix of an error, red on black.
pub fn write_error_prefix(writer: &mut Writer)
    ensures
        final(writer)@.wf(),
        final(writer)@ == old(writer)@.write_bytes(error_prefix(), error_color()),
{
    let prefix: [u8; 7] = [0x45, 0x72, 0x72, 0x6f, 0x72, 0x21, 0x20];
    assert(prefix@ =~= error_prefix());
    writer.write_bytes_with_color(prefix.as_slice(), ColorCode::new(Color::Red, Color::Black));
}

/// Writes the prefix of an error, red on black, and then a text in the
/// writer's default colour.
pub fn _error(writer: &mut Writer, text: &str)
    ensures
        final(writer)@.wf(),
        final(writer)@ == old(writer)@.write_bytes(error_prefix(), error_color()).write_bytes(
            text.spec_bytes(),
            old(writer)@.default_color,
        ),
{
    proof {
        law_default_color_stays(old(writer)@, error_prefix(), error_color());
    }
    write_error_prefix(writer);
    _print(writer, text);
}

/// Writes the prefix of an error, red on black, then a text in the writer's
/// default colour, and a line feed after it.
pub fn _error_nl(writer: &mut Writer, text: &str)
    ensures
        final(writer)@.wf(),
        final(writer)@ == old(writer)@.write_bytes(error_prefix(), error_color()).write_bytes(
            text.spec_bytes().push(LINE_FEED),
            old(writer)@.default_color,
        ),
{
    proof {
        law_default_color_stays(old(writer)@, error_prefix(), error_color());
    }
    write_error_prefix(writer);
    _println(writer, text);
}

} // verus!

//! The display surface: device memory that is read and written cell by cell,
//! every access reaching memory.

use vstd::prelude::*;
use volatile::Volatile;
use crate::color::{ColorCode, ScreenChar};
use crate::console::{BUFFER_HEIGHT, BUFFER_WIDTH};

verus! {

/// `volatile::Volatile`: a value whose reads and writes are never elided.
#[verifier::external_type_specification]
#[verifier::external_body]
#[verifier::reject_recursive_types(T)]
pub struct ExVolatile<T: Copy>(volatile::Volatile<T>);

/// The display memory as the device lays it out: row after row, cell after
/// cell, and in each cell the character byte, then the attribute byte.
pub type Surface = [[[Volatile<u8>; 2]; BUFFER_WIDTH]; BUFFER_HEIGHT];

/// The byte that a volatile location holds: what `Volatile::read` returns
/// of it, and what the last `Volatile::write` to it wrote.
pub uninterp spec fn stored_byte(location: Volatile<u8>) -> u8;

/// `Volatile::read`: a volatile read of the location, which returns the byte
/// it holds.
#[verifier::external_body]
pub(crate) fn volatile_read(location: &Volatile<u8>) -> (value: u8)
    ensures
        value == stored_byte(*location),
{
    location.read()
}

/// `Volatile::write`: a volatile write to the location, which then holds the
/// byte written. The write never panics.
#[verifier::external_body]
pub(crate) fn volatile_write(location: &mut Volatile<u8>, value: u8)
    ensures
        stored_byte(*final(location)) == value,
    no_unwind
{
    location.write(value)
}

/// The cell that the surface shows at a row and a column.
pub open spec fn surface_cell(surface: Surface, row: int, col: int) -> ScreenChar {
    ScreenChar {
        character_value: stored_byte(surface[row][col][0]),
        color_code: ColorCode(stored_byte(surface[row][col][1])),
    }
}

/// The whole surface as rows of cells, top row first.
pub open spec fn surface_rows(surface: Surface) -> Seq<Seq<ScreenChar>> {
    Seq::new(
        BUFFER_HEIGHT as nat,
        |row: int| Seq::new(BUFFER_WIDTH as nat, |col: int| surface_cell(surface, row, col)),
    )
}

} // verus!

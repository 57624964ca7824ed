//! The surface that a graph is drawn on: a `ratatui` buffer, seen as a map
//! from cell positions to the symbols shown there.

use ratatui::buffer::Buffer;
use vstd::prelude::*;

verus! {

/// A rectangle of cells on a surface: its left column, its top row and its
/// size.
#[derive(Clone, Copy, Debug, PartialEq, Eq, Structural)]
pub struct Area {
    pub x: u16,
    pub y: u16,
    pub width: u16,
    pub height: u16,
}

#[verifier::external_type_specification]
#[verifier::external_body]
pub struct ExBuffer(ratatui::buffer::Buffer);

/// What a buffer shows: for each position `(x, y)` at which it holds a cell,
/// the symbol of that cell.
pub uninterp spec fn buffer_symbols(buf: Buffer) -> Map<(u16, u16), Seq<char>>;

/// Calls `ratatui::buffer::Buffer::cell_mut` with the position `(x, y)` and,
/// on the cell it returns, `ratatui::buffer::Cell::set_symbol`.
///
/// Trusted: `cell_mut` returns a cell exactly for the positions at which the
/// buffer holds one; `set_symbol` replaces the symbol of that cell by the
/// given string, and the symbols of all other cells stay as they were. Where
/// the buffer holds no cell at the position, nothing changes. The result
/// tells whether a cell was found.
#[verifier::external_body]
pub(crate) fn put_symbol(buf: &mut Buffer, x: u16, y: u16, symbol: &str) -> (written: bool)
    ensures
        written == buffer_symbols(*old(buf)).dom().contains((x, y)),
        written ==> buffer_symbols(*final(buf)) == buffer_symbols(*old(buf)).insert(
            (x, y),
            symbol@,
        ),
        !written ==> buffer_symbols(*final(buf)) == buffer_symbols(*old(buf)),
{
    match buf.cell_mut((x, y)) {
        Some(cell) => {
            cell.set_symbol(symbol);
            true
        },
        None => false,
    }
}

} // verus!

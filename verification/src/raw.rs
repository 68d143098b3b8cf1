//! Surface storage seen as packed bytes.

use vstd::prelude::*;
use crate::pixel::Pixel;

verus! {

/// The pixel held by a storage cell: its three bytes are red, green, blue.
pub(crate) open spec fn pixel_of(cell: [u8; 3]) -> Pixel {
    Pixel { r: cell[0], g: cell[1], b: cell[2] }
}

/// The bytes of a run of cells laid end to end: byte `k` is byte `k % 3` of
/// cell `k / 3`.
pub(crate) open spec fn packed(cells: Seq<[u8; 3]>) -> Seq<u8> {
    Seq::new(3 * cells.len(), |k: int| cells[k / 3][k % 3])
}

/// The storage cell of a pixel.
pub(crate) fn cell_of(p: Pixel) -> (cell: [u8; 3])
    ensures
        pixel_of(cell) == p,
{
    [p.r, p.g, p.b]
}

/// Reads a storage cell back as a pixel.
pub(crate) fn read_cell(cell: &[u8; 3]) -> (p: Pixel)
    ensures
        p == pixel_of(*cell),
{
    Pixel { r: cell[0], g: cell[1], b: cell[2] }
}

/// `bytemuck::cast_slice` from three-byte cells to bytes. The cast reinterprets
/// the same memory: a cell has size 3 and alignment 1, so it never fails, the
/// result is three times as long, and the bytes of each cell appear in order.
#[verifier::external_body]
pub(crate) fn cast_cells(cells: &[[u8; 3]]) -> (bytes: &[u8])
    ensures
        bytes@ == packed(cells@),
{
    bytemuck::cast_slice(cells)
}

} // verus!

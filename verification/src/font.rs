//! Fixed 8x8 glyph bitmaps and the rasterizer that draws one glyph into a
//! frame at a given row offset.

use vstd::prelude::*;

use crate::grid::Grid;
use crate::grid::HEIGHT;
use crate::grid::WIDTH;
use crate::grid::GRID_CELLS;
use crate::grid::cell_index;
use crate::grid::in_grid;
use crate::grid::lemma_cell_index_div_mod;
use crate::grid::mirror_col;

verus! {

/// One glyph: 8 bytes, one per glyph column, bit `y` of byte `x` standing
/// for the pixel in glyph row `y`.
pub type SingleDisplayData = [u8; 8];

/// The characters the fixed font knows.
#[derive(Clone, Copy, PartialEq, Eq, Structural)]
pub enum Letter {
    CapB,
    CapC,
    CapD,
    CapE,
    CapI,
    CapL,
    CapM,
    CapO,
    CapP,
    CapS,
    CapT,
    CapU,
    Hash,
}

/// The column bytes of each glyph.
pub open spec fn glyph_seq(letter: Letter) -> Seq<u8> {
    match letter {
        Letter::CapB => seq![0x7fu8, 0x49u8, 0x49u8, 0x49u8, 0x49u8, 0x36u8, 0x00u8, 0x00u8],
        Letter::CapC => seq![0x3eu8, 0x41u8, 0x41u8, 0x41u8, 0x41u8, 0x22u8, 0x00u8, 0x00u8],
        Letter::CapD => seq![0x7fu8, 0x41u8, 0x41u8, 0x41u8, 0x22u8, 0x1cu8, 0x00u8, 0x00u8],
        Letter::CapE => seq![0x7fu8, 0x49u8, 0x49u8, 0x49u8, 0x41u8, 0x41u8, 0x00u8, 0x00u8],
        Letter::CapI => seq![0x00u8, 0x41u8, 0x7fu8, 0x41u8, 0x00u8, 0x00u8, 0x00u8, 0x00u8],
        Letter::CapL => seq![0x7fu8, 0x40u8, 0x40u8, 0x40u8, 0x40u8, 0x40u8, 0x00u8, 0x00u8],
        Letter::CapM => seq![0x7fu8, 0x02u8, 0x04u8, 0x08u8, 0x04u8, 0x02u8, 0x7fu8, 0x00u8],
        Letter::CapO => seq![0x3eu8, 0x41u8, 0x41u8, 0x41u8, 0x41u8, 0x3eu8, 0x00u8, 0x00u8],
        Letter::CapP => seq![0x7fu8, 0x09u8, 0x09u8, 0x09u8, 0x09u8, 0x06u8, 0x00u8, 0x00u8],
        Letter::CapS => seq![0x46u8, 0x49u8, 0x49u8, 0x49u8, 0x49u8, 0x31u8, 0x00u8, 0x00u8],
        Letter::CapT => seq![0x01u8, 0x01u8, 0x7fu8, 0x01u8, 0x01u8, 0x01u8, 0x00u8, 0x00u8],
        Letter::CapU => seq![0x3fu8, 0x40u8, 0x40u8, 0x40u8, 0x40u8, 0x3fu8, 0x00u8, 0x00u8],
        Letter::Hash => seq![0x12u8, 0x3fu8, 0x12u8, 0x3fu8, 0x12u8, 0x00u8, 0x00u8, 0x00u8],
    }
}

/// Look one glyph up by its symbolic name.
pub fn glyph(letter: Letter) -> (r: SingleDisplayData)
    ensures
        r@ == glyph_seq(letter),
{
    let r: [u8; 8] = match letter {
        Letter::CapB => [0x7f, 0x49, 0x49, 0x49, 0x49, 0x36, 0x00, 0x00],
        Letter::CapC => [0x3e, 0x41, 0x41, 0x41, 0x41, 0x22, 0x00, 0x00],
        Letter::CapD => [0x7f, 0x41, 0x41, 0x41, 0x22, 0x1c, 0x00, 0x00],
        Letter::CapE => [0x7f, 0x49, 0x49, 0x49, 0x41, 0x41, 0x00, 0x00],
        Letter::CapI => [0x00, 0x41, 0x7f, 0x41, 0x00, 0x00, 0x00, 0x00],
        Letter::CapL => [0x7f, 0x40, 0x40, 0x40, 0x40, 0x40, 0x00, 0x00],
        Letter::CapM => [0x7f, 0x02, 0x04, 0x08, 0x04, 0x02, 0x7f, 0x00],
        Letter::CapO => [0x3e, 0x41, 0x41, 0x41, 0x41, 0x3e, 0x00, 0x00],
        Letter::CapP => [0x7f, 0x09, 0x09, 0x09, 0x09, 0x06, 0x00, 0x00],
        Letter::CapS => [0x46, 0x49, 0x49, 0x49, 0x49, 0x31, 0x00, 0x00],
        Letter::CapT => [0x01, 0x01, 0x7f, 0x01, 0x01, 0x01, 0x00, 0x00],
        Letter::CapU => [0x3f, 0x40, 0x40, 0x40, 0x40, 0x3f, 0x00, 0x00],
        Letter::Hash => [0x12, 0x3f, 0x12, 0x3f, 0x12, 0x00, 0x00, 0x00],
    };
    proof {
        assert(r@ =~= glyph_seq(letter));
    }
    r
}

/// True when the glyph lights the pixel at glyph column `gx`, row `gy`.
pub open spec fn glyph_bit(glyph: Seq<u8>, gx: int, gy: int) -> bool {
    (glyph[gx] >> (gy as u8)) & 1 == 1
}

/// The frame that drawing a glyph over `cells` at row offset `pos` leaves
/// behind: inside the 8x8 target region every pixel is overwritten (255
/// where the glyph bit is set, 0 where it is clear); outside it the old
/// cells stay. Glyph column `gx` lands on physical column `mirror_col(gx)`,
/// so the region covers physical columns 1 through 8.
pub open spec fn raster(cells: Seq<u8>, pos: int, glyph: Seq<u8>) -> Seq<u8> {
    Seq::new(
        cells.len(),
        |i: int|
            {
                let x = i / (HEIGHT as int);
                let y = i % (HEIGHT as int);
                if 1 <= x < WIDTH && pos <= y < pos + 8 {
                    if glyph_bit(glyph, mirror_col(x), y - pos) {
                        255u8
                    } else {
                        0u8
                    }
                } else {
                    cells[i]
                }
            },
    )
}

/// Reading the 8x8 target region back after rasterizing any glyph at row
/// offset `pos` reproduces the glyph's bit pattern under the documented
/// column mirror: glyph bit `(gx, gy)` decides the pixel at physical
/// `(mirror_col(gx), gy + pos)`.
pub proof fn lemma_glyph_readback(cells: Seq<u8>, pos: int, glyph: Seq<u8>, gx: int, gy: int)
    requires
        cells.len() == GRID_CELLS,
        0 <= pos,
        pos + 8 <= HEIGHT,
        0 <= gx < 8,
        0 <= gy < 8,
    ensures
        raster(cells, pos, glyph)[cell_index(mirror_col(gx), gy + pos)] == (if glyph_bit(
            glyph,
            gx,
            gy,
        ) {
            255u8
        } else {
            0u8
        }),
{
    lemma_cell_index_div_mod(mirror_col(gx), gy + pos);
}

/// Draw one 8x8 glyph into the grid with its top row at row `pos`:
/// bit `gy` of glyph byte `gx` set writes brightness 255 at physical
/// `(mirror_col(gx), gy + pos)`, clear writes 0. Overwrites the whole 8x8
/// target region in place and leaves the rest of the grid as it was.
pub fn display_letter(pos: usize, grid: &mut Grid, letter: SingleDisplayData)
    requires
        old(grid).wf(),
        pos + 8 <= HEIGHT,
    ensures
        final(grid).wf(),
        final(grid)@ == raster(old(grid)@, pos as int, letter@),
{
    for gx in 0..8usize
        invariant
            grid.wf(),
            pos + 8 <= HEIGHT,
            forall|i: int, j: int|
                in_grid(i, j) && WIDTH - gx <= i < WIDTH && pos <= j < pos + 8
                    ==> (#[trigger] grid.pixel(i, j)) == (if glyph_bit(
                    letter@,
                    mirror_col(i),
                    j - pos,
                ) {
                    255u8
                } else {
                    0u8
                }),
            forall|i: int, j: int|
                in_grid(i, j) && !(WIDTH - gx <= i < WIDTH && pos <= j < pos + 8)
                    ==> (#[trigger] grid.pixel(i, j)) == old(grid).pixel(i, j),
    {
        for gy in 0..8usize
            invariant
                grid.wf(),
                gx < 8,
                pos + 8 <= HEIGHT,
                forall|i: int, j: int|
                    in_grid(i, j) && WIDTH - gx <= i < WIDTH && pos <= j < pos + 8
                        ==> (#[trigger] grid.pixel(i, j)) == (if glyph_bit(
                        letter@,
                        mirror_col(i),
                        j - pos,
                    ) {
                        255u8
                    } else {
                        0u8
                    }),
                forall|i: int, j: int|
                    in_grid(i, j) && i == mirror_col(gx as int) && pos <= j < pos + gy
                        ==> (#[trigger] grid.pixel(i, j)) == (if glyph_bit(
                        letter@,
                        gx as int,
                        j - pos,
                    ) {
                        255u8
                    } else {
                        0u8
                    }),
                forall|i: int, j: int|
                    in_grid(i, j) && !(WIDTH - gx <= i < WIDTH && pos <= j < pos + 8) && !(i
                        == mirror_col(gx as int) && pos <= j < pos + gy)
                        ==> (#[trigger] grid.pixel(i, j)) == old(grid).pixel(i, j),
        {
            let val = if (letter[gx] >> (gy as u8)) & 1 == 1 {
                0xFFu8
            } else {
                0x00u8
            };
            grid.set_pixel(WIDTH - 1 - gx, gy + pos, val);
        }
    }
    proof {
        let target = raster(old(grid)@, pos as int, letter@);
        assert forall|i: int| 0 <= i < grid@.len() implies grid@[i] == target[i] by {
            let x = i / (HEIGHT as int);
            let y = i % (HEIGHT as int);
            assert(in_grid(x, y) && cell_index(x, y) == i) by (nonlinear_arith)
                requires
                    0 <= i < 306,
                    x == i / 34,
                    y == i % 34,
            ;
            assert(grid@[i] == grid.pixel(x, y));
            assert(old(grid)@[i] == old(grid).pixel(x, y));
        }
        assert(grid@ =~= target);
    }
}

} // verus!

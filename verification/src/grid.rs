//! The in-memory frame buffer and the bit-packed-frame decoder.

use vstd::prelude::*;

verus! {

/// Number of columns of the physical LED matrix.
pub const WIDTH: usize = 9;

/// Number of rows of the physical LED matrix.
pub const HEIGHT: usize = 34;

/// Cells of a full frame: one brightness byte per pixel, WIDTH * HEIGHT.
pub const GRID_CELLS: usize = 306;

/// Bytes needed to represent all LEDs with a single bit each:
/// ceil(WIDTH * HEIGHT / 8).
pub const DRAW_BYTES: usize = 39;

/// Maximum number of brightness levels.
pub const BRIGHTNESS_LEVELS: u8 = 255;

/// True when `(x, y)` lies on the matrix.
pub open spec fn in_grid(x: int, y: int) -> bool {
    0 <= x < WIDTH && 0 <= y < HEIGHT
}

/// Physical column that logical column `x` lands on: the physical column
/// order is reversed relative to the logical order. The decoder and the
/// glyph rasterizer both go through this one mapping.
pub open spec fn mirror_col(x: int) -> int {
    WIDTH - 1 - x
}

/// Flat cell index of pixel `(x, y)`: cells are stored column-major.
pub open spec fn cell_index(x: int, y: int) -> int {
    x * (HEIGHT as int) + y
}

/// An all-zero frame: every pixel off.
pub open spec fn blank() -> Seq<u8> {
    Seq::new(GRID_CELLS as nat, |i: int| 0u8)
}

/// Column-major flat indexing is injective on the matrix domain.
pub proof fn lemma_cell_index_injective(x1: int, y1: int, x2: int, y2: int)
    requires
        in_grid(x1, y1),
        in_grid(x2, y2),
        cell_index(x1, y1) == cell_index(x2, y2),
    ensures
        x1 == x2 && y1 == y2,
{
    assert(x1 == x2 && y1 == y2) by (nonlinear_arith)
        requires
            0 <= y1 < 34,
            0 <= y2 < 34,
            x1 * 34 + y1 == x2 * 34 + y2,
    ;
}

/// Splitting a flat cell index back into its coordinates undoes
/// `cell_index`.
pub proof fn lemma_cell_index_div_mod(x: int, y: int)
    requires
        in_grid(x, y),
    ensures
        cell_index(x, y) / (HEIGHT as int) == x,
        cell_index(x, y) % (HEIGHT as int) == y,
{
    assert((x * 34 + y) / 34 == x && (x * 34 + y) % 34 == y) by (nonlinear_arith)
        requires
            0 <= x,
            0 <= y < 34,
    ;
}

/// The in-memory frame buffer: one unsigned 8-bit brightness level per
/// pixel (0 = off, 255 = maximum), WIDTH columns by HEIGHT rows.
pub struct Grid {
    pub cells: Vec<u8>,
}

impl View for Grid {
    type V = Seq<u8>;

    open spec fn view(&self) -> Seq<u8> {
        self.cells@
    }
}

impl Grid {
    /// Dimensions are fixed for the life of the value.
    pub open spec fn wf(self) -> bool {
        self@.len() == GRID_CELLS
    }

    /// Brightness of the pixel at physical column `x`, row `y`.
    pub open spec fn pixel(self, x: int, y: int) -> u8 {
        self@[cell_index(x, y)]
    }

    /// Read one pixel.
    pub fn pixel_at(&self, x: usize, y: usize) -> (v: u8)
        requires
            self.wf(),
            x < WIDTH,
            y < HEIGHT,
        ensures
            v == self.pixel(x as int, y as int),
    {
        proof {
            assert(0 <= cell_index(x as int, y as int) < GRID_CELLS) by (nonlinear_arith)
                requires
                    x < 9,
                    y < 34,
            ;
        }
        self.cells[x * HEIGHT + y]
    }

    /// Write one pixel; every other pixel keeps its value.
    pub fn set_pixel(&mut self, x: usize, y: usize, v: u8)
        requires
            old(self).wf(),
            x < WIDTH,
            y < HEIGHT,
        ensures
            final(self).wf(),
            final(self).pixel(x as int, y as int) == v,
            forall|i: int, j: int|
                in_grid(i, j) && !(i == x && j == y)
                    ==> (#[trigger] final(self).pixel(i, j)) == old(self).pixel(i, j),
    {
        proof {
            assert(0 <= cell_index(x as int, y as int) < GRID_CELLS) by (nonlinear_arith)
                requires
                    x < 9,
                    y < 34,
            ;
        }
        self.cells.set(x * HEIGHT + y, v);
        proof {
            assert forall|i: int, j: int|
                in_grid(i, j) && !(i == x && j == y)
                    implies (#[trigger] self.pixel(i, j)) == old(self).pixel(i, j) by {
                if cell_index(i, j) == cell_index(x as int, y as int) {
                    lemma_cell_index_injective(i, j, x as int, y as int);
                }
            }
        }
    }
}

impl Default for Grid {
    /// The default frame is all-zero: every pixel off.
    fn default() -> (g: Grid)
        ensures
            g.wf(),
            g@ == blank(),
    {
        let mut cells: Vec<u8> = Vec::new();
        let mut i: usize = 0;
        while i < GRID_CELLS
            invariant
                i <= GRID_CELLS,
                cells@.len() == i,
                forall|j: int| 0 <= j < i ==> cells@[j] == 0u8,
            decreases GRID_CELLS - i,
        {
            cells.push(0u8);
            i = i + 1;
        }
        let g = Grid { cells };
        proof {
            assert(g@ =~= blank());
        }
        g
    }
}

/// True when bit `i` (least-significant bit first within each byte) of the
/// bit-packed frame is set.
pub open spec fn frame_bit(bytes: Seq<u8>, i: int) -> bool {
    (bytes[i / 8] >> ((i % 8) as u8)) & 1 == 1
}

/// Brightness that decoding a bit-packed frame gives the pixel at physical
/// column `x`, row `y`: bit `x' + WIDTH*y` of the frame, where `x'` is the
/// logical column mirrored onto `x`, lit meaning full brightness.
pub open spec fn decoded_pixel(bytes: Seq<u8>, x: int, y: int) -> u8 {
    if frame_bit(bytes, mirror_col(x) + (WIDTH as int) * y) {
        255u8
    } else {
        0u8
    }
}

/// Decode an externally supplied bit-packed monochrome frame into a Grid.
/// Bit `i` (LSB-first within each byte) of the input stands for the pixel at
/// logical linear index `i = x + WIDTH*y`; a set bit becomes brightness 255,
/// a clear bit 0, and logical column `x` lands on physical column
/// `WIDTH-1-x`.
pub fn draw(bytes: &[u8; DRAW_BYTES]) -> (g: Grid)
    ensures
        g.wf(),
        forall|x: int, y: int| in_grid(x, y) ==> (#[trigger] g.pixel(x, y)) == decoded_pixel(bytes@, x, y),
{
    let mut grid = Grid::default();
    for y in 0..HEIGHT
        invariant
            grid.wf(),
            forall|i: int, j: int|
                in_grid(i, j) && j < y ==> (#[trigger] grid.pixel(i, j)) == decoded_pixel(
                    bytes@,
                    i,
                    j,
                ),
    {
        for x in 0..WIDTH
            invariant
                grid.wf(),
                y < HEIGHT,
                forall|i: int, j: int|
                    in_grid(i, j) && j < y ==> (#[trigger] grid.pixel(i, j)) == decoded_pixel(
                    bytes@,
                    i,
                    j,
                ),
                forall|i: int|
                    (WIDTH - x) <= i < WIDTH
                        ==> (#[trigger] grid.pixel(i, y as int)) == decoded_pixel(
                        bytes@,
                        i,
                        y as int,
                    ),
        {
            let index = x + WIDTH * y;
            proof {
                assert(index == x + 9 * y && index < 306) by (nonlinear_arith)
                    requires
                        x < 9,
                        y < 34,
                        index == x + WIDTH * y,
                ;
            }
            let byte = index / 8;
            let bit = index % 8;
            let val = if (bytes[byte] >> (bit as u8)) & 1 == 1 {
                0xFFu8
            } else {
                0x00u8
            };
            grid.set_pixel(WIDTH - 1 - x, y, val);
            proof {
                assert(mirror_col(mirror_col(x as int)) == x as int);
                assert(grid.pixel(mirror_col(x as int), y as int) == decoded_pixel(
                    bytes@,
                    mirror_col(x as int),
                    y as int,
                ));
            }
        }
    }
    grid
}

/// Overwrite one whole physical column (logical column `col`, mirrored)
/// with the given per-row brightness levels; the rest of the grid keeps its
/// values.
pub fn draw_grey_col(grid: &mut Grid, col: u8, levels: &[u8; HEIGHT])
    requires
        old(grid).wf(),
        col < WIDTH,
    ensures
        final(grid).wf(),
        forall|y: int|
            0 <= y < HEIGHT ==> (#[trigger] final(grid).pixel(mirror_col(col as int), y))
                == levels@[y],
        forall|i: int, j: int|
            in_grid(i, j) && i != mirror_col(col as int)
                ==> (#[trigger] final(grid).pixel(i, j)) == old(grid).pixel(i, j),
{
    for y in 0..HEIGHT
        invariant
            grid.wf(),
            col < WIDTH,
            forall|j: int|
                0 <= j < y ==> (#[trigger] grid.pixel(mirror_col(col as int), j)) == levels@[j],
            forall|i: int, j: int|
                in_grid(i, j) && i != mirror_col(col as int)
                    ==> (#[trigger] grid.pixel(i, j)) == old(grid).pixel(i, j),
    {
        grid.set_pixel(WIDTH - 1 - (col as usize), y, levels[y]);
    }
}

} // verus!

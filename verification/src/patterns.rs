//! Procedural pattern generators: gradients, percentage bar, zigzag,
//! periodic columns, and the glyph-composed status words. Each generator is
//! a pure function returning a freshly built frame.

use vstd::prelude::*;

use crate::font::Letter;
use crate::font::display_letter;
use crate::font::glyph;
use crate::font::glyph_seq;
use crate::font::raster;
use crate::grid::Grid;
use crate::grid::HEIGHT;
use crate::grid::WIDTH;
use crate::grid::blank;
use crate::grid::in_grid;

verus! {

/// Why the device is entering a low-power state; picks which letters the
/// status-glyph generator renders.
#[derive(Clone, Copy, Debug, PartialEq, Eq, Structural)]
pub enum SleepReason {
    Command,
    SleepPin,
    Timeout,
    UsbSuspend,
}

/// Brightness of every pixel in row `y` of the gradient: one level brighter
/// per row from top to bottom, clamped at the maximum level.
pub open spec fn gradient_level(y: int) -> u8 {
    if y + 1 <= 255 {
        (y + 1) as u8
    } else {
        255u8
    }
}

/// Gradient getting brighter from top to bottom, identical across columns.
pub fn gradient() -> (g: Grid)
    ensures
        g.wf(),
        forall|x: int, y: int| in_grid(x, y) ==> (#[trigger] g.pixel(x, y)) == gradient_level(y),
{
    let mut grid = Grid::default();
    for y in 0..HEIGHT
        invariant
            grid.wf(),
            forall|i: int, j: int|
                in_grid(i, j) && j < y ==> (#[trigger] grid.pixel(i, j)) == gradient_level(j),
    {
        for x in 0..WIDTH
            invariant
                grid.wf(),
                y < HEIGHT,
                forall|i: int, j: int|
                    in_grid(i, j) && j < y ==> (#[trigger] grid.pixel(i, j)) == gradient_level(j),
                forall|i: int, j: int|
                    in_grid(i, j) && j == y && i < x ==> (#[trigger] grid.pixel(i, j))
                        == gradient_level(j),
        {
            grid.set_pixel(x, y, (y + 1) as u8);
        }
    }
    grid
}

/// Brightness of every pixel in row `y` of the double gradient: brightest
/// next to the vertical midpoint, dimming row by row toward both edges.
pub open spec fn double_gradient_level(y: int) -> u8 {
    if y < HEIGHT / 2 {
        (y + 1) as u8
    } else {
        (HEIGHT - (y + 1)) as u8
    }
}

/// Double sided gradient, bright in the middle, dim at top and bottom.
pub fn double_gradient() -> (g: Grid)
    ensures
        g.wf(),
        forall|x: int, y: int|
            in_grid(x, y) ==> (#[trigger] g.pixel(x, y)) == double_gradient_level(y),
{
    let mut grid = Grid::default();
    for y in 0..HEIGHT / 2
        invariant
            grid.wf(),
            forall|i: int, j: int|
                in_grid(i, j) && j < y ==> (#[trigger] grid.pixel(i, j)) == double_gradient_level(
                    j,
                ),
    {
        for x in 0..WIDTH
            invariant
                grid.wf(),
                y < HEIGHT / 2,
                forall|i: int, j: int|
                    in_grid(i, j) && j < y ==> (#[trigger] grid.pixel(i, j))
                        == double_gradient_level(j),
                forall|i: int, j: int|
                    in_grid(i, j) && j == y && i < x ==> (#[trigger] grid.pixel(i, j))
                        == double_gradient_level(j),
        {
            grid.set_pixel(x, y, (y + 1) as u8);
        }
    }
    for y in HEIGHT / 2..HEIGHT
        invariant
            grid.wf(),
            forall|i: int, j: int|
                in_grid(i, j) && j < y ==> (#[trigger] grid.pixel(i, j)) == double_gradient_level(
                    j,
                ),
    {
        for x in 0..WIDTH
            invariant
                grid.wf(),
                HEIGHT / 2 <= y < HEIGHT,
                forall|i: int, j: int|
                    in_grid(i, j) && j < y ==> (#[trigger] grid.pixel(i, j))
                        == double_gradient_level(j),
                forall|i: int, j: int|
                    in_grid(i, j) && j == y && i < x ==> (#[trigger] grid.pixel(i, j))
                        == double_gradient_level(j),
        {
            grid.set_pixel(x, y, (HEIGHT - (y + 1)) as u8);
        }
    }
    grid
}

/// The gradient never gets dimmer from one row to a lower one.
pub proof fn lemma_gradient_monotone(y1: int, y2: int)
    requires
        0 <= y1 <= y2 < HEIGHT,
    ensures
        gradient_level(y1) <= gradient_level(y2),
{
}

/// The double gradient peaks next to the vertical midpoint: no row is
/// brighter than row `HEIGHT / 2 - 1`.
pub proof fn lemma_double_gradient_peak(y: int)
    requires
        0 <= y < HEIGHT,
    ensures
        double_gradient_level(y) <= double_gradient_level(HEIGHT / 2 - 1),
{
}

/// Moving from the midpoint toward either edge the double gradient never
/// gets brighter: rows in the top half brighten downward, rows from the
/// midpoint on dim downward.
pub proof fn lemma_double_gradient_monotone(y1: int, y2: int)
    requires
        0 <= y1 <= y2 < HEIGHT,
    ensures
        y2 < HEIGHT / 2 ==> double_gradient_level(y1) <= double_gradient_level(y2),
        y1 >= HEIGHT / 2 ==> double_gradient_level(y1) >= double_gradient_level(y2),
{
}

/// Rows a percentage fill lights: `HEIGHT * pct / 100` rounded to the
/// nearest whole row, halves rounding up.
pub open spec fn filled_rows(pct: int) -> int {
    ((HEIGHT as int) * pct + 50) / 100
}

/// Brightness of every pixel in row `y` of the `pct` percent fill.
pub open spec fn percentage_level(pct: int, y: int) -> u8 {
    if y >= HEIGHT - filled_rows(pct) {
        255u8
    } else {
        0u8
    }
}

/// Fill a percentage of the rows from the bottom up: the bottom
/// `HEIGHT * percentage / 100` rows, rounded to the nearest whole row
/// (halves up), at full brightness, the rest off. Inputs above 100 are a
/// caller contract violation and are excluded rather than clamped.
pub fn percentage(pct: u16) -> (g: Grid)
    requires
        pct <= 100,
    ensures
        g.wf(),
        forall|x: int, y: int|
            in_grid(x, y) ==> (#[trigger] g.pixel(x, y)) == percentage_level(pct as int, y),
{
    let mut grid = Grid::default();
    let first_row = (HEIGHT * (pct as usize) + 50) / 100;
    proof {
        assert(first_row <= HEIGHT) by (nonlinear_arith)
            requires
                first_row == (34 * (pct as int) + 50) / 100,
                pct <= 100,
        ;
    }
    for y in (HEIGHT - first_row)..HEIGHT
        invariant
            grid.wf(),
            first_row == filled_rows(pct as int),
            first_row <= HEIGHT,
            forall|i: int, j: int|
                in_grid(i, j) ==> (#[trigger] grid.pixel(i, j)) == (if HEIGHT - first_row <= j
                    < y {
                    255u8
                } else {
                    0u8
                }),
    {
        for x in 0..WIDTH
            invariant
                grid.wf(),
                HEIGHT - first_row <= y < HEIGHT,
                forall|i: int, j: int|
                    in_grid(i, j) ==> (#[trigger] grid.pixel(i, j)) == (if HEIGHT - first_row <= j
                        < y || (j == y && i < x) {
                        255u8
                    } else {
                        0u8
                    }),
        {
            grid.set_pixel(x, y, 0xFF);
        }
    }
    grid
}

/// True when the fixed decorative zigzag lights the pixel at `(x, y)`: four
/// diagonal segments walked across the grid, plus one extra single-pixel
/// correction for the hardware's exact row count.
pub open spec fn zigzag_on(x: int, y: int) -> bool {
    (0 <= y < WIDTH && x == y) || (WIDTH <= y < 2 * WIDTH && x + y == 2 * WIDTH - 1) || (2 * WIDTH
        <= y < 3 * WIDTH && x == y - 2 * WIDTH) || (3 * WIDTH <= y < HEIGHT && x + y == 4 * WIDTH
        - 1) || (x == 1 && y == HEIGHT - 1)
}

/// Diagonal zigzag line of lit pixels, tied to the concrete grid size.
pub fn zigzag() -> (g: Grid)
    ensures
        g.wf(),
        forall|x: int, y: int|
            in_grid(x, y) ==> (#[trigger] g.pixel(x, y)) == (if zigzag_on(x, y) {
                255u8
            } else {
                0u8
            }),
{
    let mut grid = Grid::default();
    // 1st right to left
    for i in 0..WIDTH
        invariant
            grid.wf(),
            forall|x: int, y: int|
                in_grid(x, y) ==> (#[trigger] grid.pixel(x, y)) == (if x == y && y < i {
                    255u8
                } else {
                    0u8
                }),
    {
        grid.set_pixel(i, i, 0xFF);
    }
    // 1st left to right
    for i in 0..WIDTH
        invariant
            grid.wf(),
            forall|x: int, y: int|
                in_grid(x, y) ==> (#[trigger] grid.pixel(x, y)) == (if (x == y && y < WIDTH) || (x
                    + y == 2 * WIDTH - 1 && WIDTH <= y < WIDTH + i) {
                    255u8
                } else {
                    0u8
                }),
    {
        grid.set_pixel(WIDTH - 1 - i, WIDTH + i, 0xFF);
    }
    // 2nd right to left
    for i in 0..WIDTH
        invariant
            grid.wf(),
            forall|x: int, y: int|
                in_grid(x, y) ==> (#[trigger] grid.pixel(x, y)) == (if (x == y && y < WIDTH) || (x
                    + y == 2 * WIDTH - 1 && WIDTH <= y < 2 * WIDTH) || (x == y - 2 * WIDTH && 2
                    * WIDTH <= y < 2 * WIDTH + i) {
                    255u8
                } else {
                    0u8
                }),
    {
        grid.set_pixel(i, 2 * WIDTH + i, 0xFF);
    }
    // 2nd left to right, stopping at the bottom edge
    for i in 0..WIDTH
        invariant
            grid.wf(),
            forall|x: int, y: int|
                in_grid(x, y) ==> (#[trigger] grid.pixel(x, y)) == (if (x == y && y < WIDTH) || (x
                    + y == 2 * WIDTH - 1 && WIDTH <= y < 2 * WIDTH) || (x == y - 2 * WIDTH && 2
                    * WIDTH <= y < 3 * WIDTH) || (x + y == 4 * WIDTH - 1 && 3 * WIDTH <= y < 3
                    * WIDTH + i && y < HEIGHT) {
                    255u8
                } else {
                    0u8
                }),
    {
        if 3 * WIDTH + i < HEIGHT {
            grid.set_pixel(WIDTH - 1 - i, 3 * WIDTH + i, 0xFF);
        }
    }
    // Finish it off nicely
    grid.set_pixel(1, HEIGHT - 1, 0xFF);
    grid
}

/// Light every column whose index is a multiple of `n`, across all rows.
/// `n == 0` is a caller contract violation (division by zero).
pub fn every_nth_col(n: usize) -> (g: Grid)
    requires
        n >= 1,
    ensures
        g.wf(),
        forall|x: int, y: int|
            in_grid(x, y) ==> (#[trigger] g.pixel(x, y)) == (if x % (n as int) == 0 {
                255u8
            } else {
                0u8
            }),
{
    let mut grid = Grid::default();
    for y in 0..HEIGHT
        invariant
            grid.wf(),
            n >= 1,
            forall|i: int, j: int|
                in_grid(i, j) ==> (#[trigger] grid.pixel(i, j)) == (if i % (n as int) == 0 && j
                    < y {
                    255u8
                } else {
                    0u8
                }),
    {
        for x in 0..WIDTH
            invariant
                grid.wf(),
                n >= 1,
                y < HEIGHT,
                forall|i: int, j: int|
                    in_grid(i, j) ==> (#[trigger] grid.pixel(i, j)) == (if i % (n as int) == 0 && (
                    j < y || (j == y && i < x)) {
                        255u8
                    } else {
                        0u8
                    }),
        {
            if x % n == 0 {
                grid.set_pixel(x, y, 0xFF);
            }
        }
    }
    grid
}

/// The frame that renders a sleep reason as a vertical word: its letters
/// rasterized bottom-up at fixed row offsets over an empty frame.
pub open spec fn sleep_reason_cells(sleep_reason: SleepReason) -> Seq<u8> {
    match sleep_reason {
        SleepReason::Command => raster(
            raster(raster(blank(), 20, glyph_seq(Letter::CapC)), 10, glyph_seq(Letter::CapM)),
            0,
            glyph_seq(Letter::CapD),
        ),
        SleepReason::SleepPin => raster(
            raster(
                raster(raster(blank(), 23, glyph_seq(Letter::CapS)), 13, glyph_seq(Letter::CapL)),
                7,
                glyph_seq(Letter::CapP),
            ),
            0,
            glyph_seq(Letter::Hash),
        ),
        SleepReason::Timeout => raster(
            raster(
                raster(raster(blank(), 24, glyph_seq(Letter::CapT)), 16, glyph_seq(Letter::CapI)),
                8,
                glyph_seq(Letter::CapM),
            ),
            0,
            glyph_seq(Letter::CapE),
        ),
        SleepReason::UsbSuspend => raster(
            raster(raster(blank(), 17, glyph_seq(Letter::CapU)), 10, glyph_seq(Letter::CapS)),
            0,
            glyph_seq(Letter::CapB),
        ),
    }
}

/// Render the reason the device went to sleep as a short vertical word.
pub fn display_sleep_reason(sleep_reason: SleepReason) -> (g: Grid)
    ensures
        g.wf(),
        g@ == sleep_reason_cells(sleep_reason),
{
    let mut grid = Grid::default();
    match sleep_reason {
        SleepReason::Command => {
            display_letter(20, &mut grid, glyph(Letter::CapC));
            display_letter(10, &mut grid, glyph(Letter::CapM));
            display_letter(0, &mut grid, glyph(Letter::CapD));
        },
        SleepReason::SleepPin => {
            display_letter(23, &mut grid, glyph(Letter::CapS));
            display_letter(13, &mut grid, glyph(Letter::CapL));
            display_letter(7, &mut grid, glyph(Letter::CapP));
            display_letter(0, &mut grid, glyph(Letter::Hash));
        },
        SleepReason::Timeout => {
            display_letter(24, &mut grid, glyph(Letter::CapT));
            display_letter(16, &mut grid, glyph(Letter::CapI));
            display_letter(8, &mut grid, glyph(Letter::CapM));
            display_letter(0, &mut grid, glyph(Letter::CapE));
        },
        SleepReason::UsbSuspend => {
            display_letter(17, &mut grid, glyph(Letter::CapU));
            display_letter(10, &mut grid, glyph(Letter::CapS));
            display_letter(0, &mut grid, glyph(Letter::CapB));
        },
    }
    grid
}

/// The frame that spells the vendor word letter by letter.
pub open spec fn lotus_cells() -> Seq<u8> {
    raster(
        raster(
            raster(
                raster(raster(blank(), 26, glyph_seq(Letter::CapL)), 20, glyph_seq(Letter::CapO)),
                12,
                glyph_seq(Letter::CapT),
            ),
            0,
            glyph_seq(Letter::CapS),
        ),
        5,
        glyph_seq(Letter::CapU),
    )
}

/// Spell the vendor word vertically, one glyph at a time.
pub fn display_lotus() -> (g: Grid)
    ensures
        g.wf(),
        g@ == lotus_cells(),
{
    let mut grid = Grid::default();
    display_letter(26, &mut grid, glyph(Letter::CapL));
    display_letter(20, &mut grid, glyph(Letter::CapO));
    display_letter(12, &mut grid, glyph(Letter::CapT));
    display_letter(0, &mut grid, glyph(Letter::CapS));
    display_letter(5, &mut grid, glyph(Letter::CapU));
    grid
}

} // verus!

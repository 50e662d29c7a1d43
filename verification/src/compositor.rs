//! The brightness compositor / batched bus writer: scales the committed
//! frame by the global brightness scalar, maps every pixel to its
//! controller register and page, and lays the result out as the one flat
//! buffer a single bulk bus transaction transmits. The bus itself lives
//! outside this crate: a host layer hands the finished buffer to the
//! device's "write full matrix" capability, so this module is pure
//! computation.

use vstd::prelude::*;

use crate::grid::BRIGHTNESS_LEVELS;
use crate::grid::GRID_CELLS;
use crate::grid::HEIGHT;
use crate::grid::WIDTH;
use crate::grid::cell_index;
use crate::grid::in_grid;
use crate::grid::lemma_cell_index_div_mod;
use crate::state::DisplayState;

verus! {

/// Brightness registers on the controller's first page.
pub const PAGE_REGS: usize = 0xB4;

/// Brightness registers on the controller's second page.
pub const PAGE2_REGS: usize = 0xAB;

/// Total register count across both pages: the size of one batched write.
pub const FRAME_REGS: usize = 0xB4 + 0xAB;

/// A pixel brightness scaled by the global brightness scalar:
/// floor(v * b / 255), exact in integer arithmetic.
pub open spec fn scaled(v: u8, b: u8) -> u8 {
    ((v as int) * (b as int) / (BRIGHTNESS_LEVELS as int)) as u8
}

/// Controller (register, page) address of pixel `(x, y)`: pixels in
/// column-major order fill the first page's registers, then the second
/// page's.
pub open spec fn pixel_register(x: int, y: int) -> (int, int) {
    let i = cell_index(x, y);
    if i < PAGE_REGS {
        (i, 0int)
    } else {
        (i - PAGE_REGS, 1int)
    }
}

/// Flat position of register `reg` of page `page` in the batched write
/// buffer: the second page's registers follow the first page's.
pub open spec fn buffer_index(reg: int, page: int) -> int {
    page * (PAGE_REGS as int) + reg
}

/// The pixel-to-register mapping is total over the grid domain: every pixel
/// lands on a register that exists on its page, and its flat buffer
/// position is exactly its flat cell index.
pub proof fn lemma_pixel_register_maps(x: int, y: int)
    requires
        in_grid(x, y),
    ensures
        ({
            let (reg, page) = pixel_register(x, y);
            &&& page == 0 ==> 0 <= reg < PAGE_REGS
            &&& page == 1 ==> 0 <= reg < PAGE2_REGS
            &&& page == 0 || page == 1
            &&& buffer_index(reg, page) == cell_index(x, y)
        }),
{
    assert(0 <= cell_index(x, y) < GRID_CELLS) by (nonlinear_arith)
        requires
            0 <= x < 9,
            0 <= y < 34,
    ;
}

/// An all-zero batched write buffer.
pub open spec fn blank_buffer() -> Seq<u8> {
    Seq::new(FRAME_REGS as nat, |k: int| 0u8)
}

/// The batched write buffer a display state composes to: each pixel's
/// scaled brightness at that pixel's flat buffer position, zero in the
/// register slots no pixel maps to.
pub open spec fn frame_bytes(s: DisplayState) -> Seq<u8> {
    Seq::new(
        FRAME_REGS as nat,
        |k: int|
            {
                if k < GRID_CELLS {
                    scaled(s.grid.pixel(k / (HEIGHT as int), k % (HEIGHT as int)), s.brightness)
                } else {
                    0u8
                }
            },
    )
}

/// Scale one brightness value by the global scalar, in an intermediate wide
/// enough that the multiplication cannot overflow.
pub fn scale(v: u8, b: u8) -> (r: u8)
    ensures
        r == scaled(v, b),
{
    proof {
        assert((v as int) * (b as int) / 255 <= 255) by (nonlinear_arith)
            requires
                0 <= v <= 255,
                0 <= b <= 255,
        ;
    }
    ((v as u64) * (b as u64) / (BRIGHTNESS_LEVELS as u64)) as u8
}

/// Map pixel `(x, y)` to its controller register and page; pure and total
/// over the full grid domain.
pub fn map_pixel_to_register(x: u8, y: u8) -> (r: (u8, u8))
    requires
        (x as int) < WIDTH,
        (y as int) < HEIGHT,
    ensures
        ({
            let (reg, page) = pixel_register(x as int, y as int);
            r.0 == reg && r.1 == page
        }),
{
    proof {
        lemma_pixel_register_maps(x as int, y as int);
    }
    let i = (x as usize) * HEIGHT + (y as usize);
    if i < PAGE_REGS {
        (i as u8, 0)
    } else {
        ((i - PAGE_REGS) as u8, 1)
    }
}

/// Scale the committed frame by the global brightness and batch it into the
/// flat register buffer that one bulk bus transaction transmits: every
/// pixel's scaled brightness stands at its mapped register slot, every slot
/// no pixel maps to is zero. The buffer is a function of the display state
/// alone, so pushing an unchanged state transmits bit-identical bytes.
pub fn compose_frame(state: &DisplayState) -> (buf: Vec<u8>)
    requires
        state.wf(),
    ensures
        buf@.len() == FRAME_REGS,
        buf@ == frame_bytes(*state),
        forall|x: int, y: int|
            in_grid(x, y) ==> ({
                let (reg, page) = #[trigger] pixel_register(x, y);
                buf@[buffer_index(reg, page)] == scaled(state.grid.pixel(x, y), state.brightness)
            }),
{
    let mut buf: Vec<u8> = Vec::new();
    let mut k: usize = 0;
    while k < FRAME_REGS
        invariant
            k <= FRAME_REGS,
            buf@.len() == k,
            forall|i: int| 0 <= i < k ==> buf@[i] == 0u8,
        decreases FRAME_REGS - k,
    {
        buf.push(0u8);
        k = k + 1;
    }
    for y in 0..HEIGHT
        invariant
            state.wf(),
            buf@.len() == FRAME_REGS,
            forall|i: int|
                0 <= i < FRAME_REGS ==> (#[trigger] buf@[i]) == (if i < GRID_CELLS && i % (
                HEIGHT as int) < y {
                    scaled(
                        state.grid.pixel(i / (HEIGHT as int), i % (HEIGHT as int)),
                        state.brightness,
                    )
                } else {
                    0u8
                }),
    {
        for x in 0..WIDTH
            invariant
                state.wf(),
                y < HEIGHT,
                buf@.len() == FRAME_REGS,
                forall|i: int|
                    0 <= i < FRAME_REGS ==> (#[trigger] buf@[i]) == (if i < GRID_CELLS && (i % (
                    HEIGHT as int) < y || (i % (HEIGHT as int) == y && i / (HEIGHT as int) < x)) {
                        scaled(
                            state.grid.pixel(i / (HEIGHT as int), i % (HEIGHT as int)),
                            state.brightness,
                        )
                    } else {
                        0u8
                    }),
        {
            let (register, page) = map_pixel_to_register(x as u8, y as u8);
            let v = scale(state.grid.pixel_at(x, y), state.brightness);
            proof {
                lemma_pixel_register_maps(x as int, y as int);
                lemma_cell_index_div_mod(x as int, y as int);
            }
            buf.set((page as usize) * PAGE_REGS + (register as usize), v);
        }
    }
    proof {
        assert(buf@ =~= frame_bytes(*state));
        assert forall|x: int, y: int| in_grid(x, y) implies ({
            let (reg, page) = #[trigger] pixel_register(x, y);
            buf@[buffer_index(reg, page)] == scaled(state.grid.pixel(x, y), state.brightness)
        }) by {
            lemma_pixel_register_maps(x, y);
            lemma_cell_index_div_mod(x, y);
        }
    }
    buf
}

/// True when a mapping entry names a register that exists on its page.
pub open spec fn valid_slot(entry: (u8, u8)) -> bool {
    (entry.1 == 0 && (entry.0 as int) < PAGE_REGS) || (entry.1 == 1 && (entry.0 as int)
        < PAGE2_REGS)
}

/// Flat buffer position of a mapping entry's `(register, page)` pair.
pub open spec fn slot_of(entry: (u8, u8)) -> int {
    buffer_index(entry.0 as int, entry.1 as int)
}

/// Compose the batched buffer through a caller-supplied pixel-to-register
/// mapping: one `(register, page)` entry per flat cell index, as a device
/// driver's own address layout reports it. Every entry must name a register
/// that exists on its page, and no two pixels may share a slot. The
/// reference controller's layout is `pixel_register`; `compose_frame` uses
/// it and needs no table.
pub fn compose_frame_with_map(state: &DisplayState, mapping: &Vec<(u8, u8)>) -> (buf: Vec<u8>)
    requires
        state.wf(),
        mapping@.len() == GRID_CELLS,
        forall|i: int| 0 <= i < GRID_CELLS ==> valid_slot(#[trigger] mapping@[i]),
        forall|i: int, j: int|
            0 <= i < GRID_CELLS && 0 <= j < GRID_CELLS && i != j ==> slot_of(#[trigger] mapping@[i])
                != slot_of(#[trigger] mapping@[j]),
    ensures
        buf@.len() == FRAME_REGS,
        forall|x: int, y: int|
            in_grid(x, y) ==> buf@[slot_of(#[trigger] mapping@[cell_index(x, y)])] == scaled(
                state.grid.pixel(x, y),
                state.brightness,
            ),
        forall|k: int|
            0 <= k < FRAME_REGS && (forall|i: int|
                0 <= i < GRID_CELLS ==> slot_of(#[trigger] mapping@[i]) != k) ==> (#[trigger] buf@[
            k]) == 0u8,
{
    let mut buf: Vec<u8> = Vec::new();
    let mut k: usize = 0;
    while k < FRAME_REGS
        invariant
            k <= FRAME_REGS,
            buf@.len() == k,
            forall|i: int| 0 <= i < k ==> buf@[i] == 0u8,
        decreases FRAME_REGS - k,
    {
        buf.push(0u8);
        k = k + 1;
    }
    for c in 0..GRID_CELLS
        invariant
            state.wf(),
            buf@.len() == FRAME_REGS,
            mapping@.len() == GRID_CELLS,
            forall|i: int| 0 <= i < GRID_CELLS ==> valid_slot(#[trigger] mapping@[i]),
            forall|i: int, j: int|
                0 <= i < GRID_CELLS && 0 <= j < GRID_CELLS && i != j ==> slot_of(
                    #[trigger] mapping@[i],
                ) != slot_of(#[trigger] mapping@[j]),
            forall|i: int|
                0 <= i < c ==> buf@[slot_of(#[trigger] mapping@[i])] == scaled(
                    state.grid.pixel(i / (HEIGHT as int), i % (HEIGHT as int)),
                    state.brightness,
                ),
            forall|k: int|
                0 <= k < FRAME_REGS && (forall|i: int|
                    0 <= i < c ==> slot_of(#[trigger] mapping@[i]) != k) ==> (#[trigger] buf@[k])
                    == 0u8,
    {
        proof {
            assert(0 <= c / 34 < 9 && 0 <= c % 34 < 34) by (nonlinear_arith)
                requires
                    0 <= c < 306,
            ;
        }
        let x = c / HEIGHT;
        let y = c % HEIGHT;
        let entry = mapping[c];
        let v = scale(state.grid.pixel_at(x, y), state.brightness);
        buf.set((entry.1 as usize) * PAGE_REGS + (entry.0 as usize), v);
    }
    proof {
        assert forall|x: int, y: int| in_grid(x, y) implies buf@[slot_of(
            #[trigger] mapping@[cell_index(x, y)],
        )] == scaled(state.grid.pixel(x, y), state.brightness) by {
            assert(0 <= cell_index(x, y) < GRID_CELLS) by (nonlinear_arith)
                requires
                    0 <= x < 9,
                    0 <= y < 34,
            ;
            lemma_cell_index_div_mod(x, y);
        }
    }
    buf
}

/// Scaling a fully lit pixel by brightness `b` returns exactly `b`.
pub proof fn lemma_scale_full(b: u8)
    ensures
        scaled(255u8, b) == b,
{
    assert(255int * (b as int) / 255 == b) by (nonlinear_arith)
        requires
            0 <= b <= 255,
    ;
}

/// Scaling any pixel by brightness 0 turns it off.
pub proof fn lemma_scale_zero(v: u8)
    ensures
        scaled(v, 0u8) == 0u8,
{
}

/// A fully lit frame composed at brightness `b` carries the value `b` in
/// every mapped register slot.
pub proof fn lemma_full_frame_scaled(s: DisplayState, x: int, y: int)
    requires
        s.wf(),
        in_grid(x, y),
        forall|i: int, j: int| in_grid(i, j) ==> #[trigger] s.grid.pixel(i, j) == 255u8,
    ensures
        ({
            let (reg, page) = pixel_register(x, y);
            frame_bytes(s)[buffer_index(reg, page)] == s.brightness
        }),
{
    lemma_pixel_register_maps(x, y);
    lemma_cell_index_div_mod(x, y);
    lemma_scale_full(s.brightness);
}

/// Composing at brightness 0 yields an all-zero buffer, whatever the frame
/// holds.
pub proof fn lemma_zero_brightness_blank(s: DisplayState)
    requires
        s.wf(),
        s.brightness == 0,
    ensures
        frame_bytes(s) == blank_buffer(),
{
    assert forall|k: int| 0 <= k < FRAME_REGS implies frame_bytes(s)[k] == blank_buffer()[k] by {
        if k < GRID_CELLS {
            lemma_scale_zero(s.grid.pixel(k / (HEIGHT as int), k % (HEIGHT as int)));
        }
    }
    assert(frame_bytes(s) =~= blank_buffer());
}

/// One display state determines one batched buffer: two pushes of an
/// unchanged state hand the transport bit-identical bytes.
pub proof fn lemma_compose_deterministic(s: DisplayState, b1: Seq<u8>, b2: Seq<u8>)
    requires
        b1 == frame_bytes(s),
        b2 == frame_bytes(s),
    ensures
        b1 == b2,
{
}

} // verus!

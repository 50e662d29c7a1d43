//! Fixed status icons, too irregular to compose from font glyphs: each is
//! immutable artwork held as a bit-packed monochrome frame and run through
//! the verified decoder, so the stored bits pin every pixel of the result.

use vstd::prelude::*;

use crate::grid::DRAW_BYTES;
use crate::grid::Grid;
use crate::grid::decoded_pixel;
use crate::grid::draw;
use crate::grid::in_grid;

verus! {

/// The bit-packed frame of the sleep icon: the word "zzz" drawn along the rows.
pub open spec fn sleep_frame() -> Seq<u8> {
    seq![
        0x7cu8, 0x08u8, 0xf0u8, 0x01u8, 0x02u8, 0x84u8, 0x0fu8, 0x00u8, 0x02u8, 0x04u8, 0x08u8,
        0x10u8, 0x20u8, 0xc0u8, 0x07u8, 0x00u8, 0x1fu8, 0x02u8, 0x7cu8, 0x08u8, 0x10u8, 0xe0u8,
        0x03u8, 0x80u8, 0x0fu8, 0x01u8, 0x3eu8, 0x04u8, 0x08u8, 0xf0u8, 0x01u8, 0xc0u8, 0x87u8,
        0x08u8, 0x1fu8, 0x02u8, 0x04u8, 0x08u8, 0x00u8,
    ]
}

/// Fixed icon shown while the device sleeps.
pub fn display_sleep() -> (g: Grid)
    ensures
        g.wf(),
        forall|x: int, y: int|
            in_grid(x, y) ==> (#[trigger] g.pixel(x, y)) == decoded_pixel(sleep_frame(), x, y),
{
    let bytes: [u8; DRAW_BYTES] = [
        0x7c, 0x08, 0xf0, 0x01, 0x02, 0x84, 0x0f, 0x00, 0x02, 0x04, 0x08, 0x10, 0x20, 0xc0,
        0x07, 0x00, 0x1f, 0x02, 0x7c, 0x08, 0x10, 0xe0, 0x03, 0x80, 0x0f, 0x01, 0x3e, 0x04,
        0x08, 0xf0, 0x01, 0xc0, 0x87, 0x08, 0x1f, 0x02, 0x04, 0x08, 0x00,
    ];
    proof {
        assert(bytes@ =~= sleep_frame());
    }
    draw(&bytes)
}

/// The bit-packed frame of the panic icon: the word "PANIC" drawn along the rows.
pub open spec fn panic_frame() -> Seq<u8> {
    seq![
        0x7cu8, 0x88u8, 0xf0u8, 0x21u8, 0x40u8, 0x80u8, 0x00u8, 0x00u8, 0x3eu8, 0x44u8, 0x88u8,
        0xf0u8, 0x21u8, 0x42u8, 0x04u8, 0x00u8, 0x13u8, 0x26u8, 0x54u8, 0xa8u8, 0x90u8, 0x21u8,
        0x03u8, 0x80u8, 0x0fu8, 0x04u8, 0x08u8, 0x10u8, 0x20u8, 0xf0u8, 0x01u8, 0xc0u8, 0x87u8,
        0x00u8, 0x01u8, 0x02u8, 0x04u8, 0xf8u8, 0x00u8,
    ]
}

/// Fixed icon shown when the firmware panics.
pub fn display_panic() -> (g: Grid)
    ensures
        g.wf(),
        forall|x: int, y: int|
            in_grid(x, y) ==> (#[trigger] g.pixel(x, y)) == decoded_pixel(panic_frame(), x, y),
{
    let bytes: [u8; DRAW_BYTES] = [
        0x7c, 0x88, 0xf0, 0x21, 0x40, 0x80, 0x00, 0x00, 0x3e, 0x44, 0x88, 0xf0, 0x21, 0x42,
        0x04, 0x00, 0x13, 0x26, 0x54, 0xa8, 0x90, 0x21, 0x03, 0x80, 0x0f, 0x04, 0x08, 0x10,
        0x20, 0xf0, 0x01, 0xc0, 0x87, 0x00, 0x01, 0x02, 0x04, 0xf8, 0x00,
    ];
    proof {
        assert(bytes@ =~= panic_frame());
    }
    draw(&bytes)
}

/// The bit-packed frame of the one-piece vendor word artwork.
pub open spec fn lotus2_frame() -> Seq<u8> {
    seq![
        0x04u8, 0x08u8, 0x10u8, 0x20u8, 0x40u8, 0x80u8, 0x0fu8, 0x00u8, 0x3eu8, 0x44u8, 0x88u8,
        0x10u8, 0x21u8, 0xc2u8, 0x07u8, 0x00u8, 0x1fu8, 0x08u8, 0x10u8, 0x20u8, 0x40u8, 0x80u8,
        0x00u8, 0x80u8, 0x08u8, 0x11u8, 0x22u8, 0x44u8, 0x88u8, 0xf0u8, 0x01u8, 0xc0u8, 0x87u8,
        0x00u8, 0x1fu8, 0x20u8, 0x40u8, 0xf8u8, 0x00u8,
    ]
}

/// Fixed vendor word artwork, drawn as one precomputed frame.
pub fn display_lotus2() -> (g: Grid)
    ensures
        g.wf(),
        forall|x: int, y: int|
            in_grid(x, y) ==> (#[trigger] g.pixel(x, y)) == decoded_pixel(lotus2_frame(), x, y),
{
    let bytes: [u8; DRAW_BYTES] = [
        0x04, 0x08, 0x10, 0x20, 0x40, 0x80, 0x0f, 0x00, 0x3e, 0x44, 0x88, 0x10, 0x21, 0xc2,
        0x07, 0x00, 0x1f, 0x08, 0x10, 0x20, 0x40, 0x80, 0x00, 0x80, 0x08, 0x11, 0x22, 0x44,
        0x88, 0xf0, 0x01, 0xc0, 0x87, 0x00, 0x1f, 0x20, 0x40, 0xf8, 0x00,
    ];
    proof {
        assert(bytes@ =~= lotus2_frame());
    }
    draw(&bytes)
}

} // verus!

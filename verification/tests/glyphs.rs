//! The glyph rasterizer and the glyph-composed status words.

use ledmatrix::font::Letter;
use ledmatrix::font::display_letter;
use ledmatrix::font::glyph;
use ledmatrix::grid::Grid;
use ledmatrix::grid::HEIGHT;
use ledmatrix::grid::WIDTH;
use ledmatrix::patterns::SleepReason;
use ledmatrix::patterns::display_lotus;
use ledmatrix::patterns::display_sleep_reason;

#[test]
fn glyph_readback_reproduces_bits_under_mirror() {
    let mut g = Grid::default();
    let c = glyph(Letter::CapC);
    display_letter(0, &mut g, c);
    for gx in 0..8 {
        for gy in 0..8 {
            let expect: u8 = if (c[gx] >> gy) & 1 == 1 { 255 } else { 0 };
            assert_eq!(g.pixel_at(WIDTH - 1 - gx, gy), expect, "glyph bit ({}, {})", gx, gy);
        }
    }
    // Physical column 0 and the rows below the glyph stay untouched.
    for y in 0..HEIGHT {
        assert_eq!(g.pixel_at(0, y), 0);
    }
    for x in 0..WIDTH {
        for y in 8..HEIGHT {
            assert_eq!(g.pixel_at(x, y), 0);
        }
    }
}

#[test]
fn glyph_at_offset_lands_on_its_rows() {
    let mut g = Grid::default();
    let l = glyph(Letter::CapL);
    display_letter(26, &mut g, l);
    for gx in 0..8 {
        for gy in 0..8 {
            let expect: u8 = if (l[gx] >> gy) & 1 == 1 { 255 } else { 0 };
            assert_eq!(g.pixel_at(WIDTH - 1 - gx, 26 + gy), expect);
        }
    }
    for x in 0..WIDTH {
        for y in 0..26 {
            assert_eq!(g.pixel_at(x, y), 0);
        }
    }
}

#[test]
fn glyph_overwrites_with_zero_bits() {
    // A second glyph drawn over the first clears the cells whose bits are
    // clear, rather than merging.
    let mut g = Grid::default();
    display_letter(0, &mut g, glyph(Letter::CapM));
    display_letter(0, &mut g, glyph(Letter::CapI));
    let i = glyph(Letter::CapI);
    for gx in 0..8 {
        for gy in 0..8 {
            let expect: u8 = if (i[gx] >> gy) & 1 == 1 { 255 } else { 0 };
            assert_eq!(g.pixel_at(WIDTH - 1 - gx, gy), expect);
        }
    }
}

fn assert_word(g: &Grid, rows: &[(usize, Letter, usize)]) {
    // rows: (first row, letter, row offset the letter was drawn at) for the
    // letter that owns each row span, spans listed bottom-up and contiguous.
    for span in rows.windows(2) {
        assert!(span[0].0 < span[1].0);
    }
    for (idx, &(start, letter, pos)) in rows.iter().enumerate() {
        let end = if idx + 1 < rows.len() { rows[idx + 1].0 } else { start + 1 };
        let bytes = glyph(letter);
        for y in start..end {
            for gx in 0..8 {
                let gy = y - pos;
                let expect: u8 = if (bytes[gx] >> gy) & 1 == 1 { 255 } else { 0 };
                assert_eq!(g.pixel_at(WIDTH - 1 - gx, y), expect, "row {} col {}", y, gx);
            }
            assert_eq!(g.pixel_at(0, y), 0);
        }
    }
}

#[test]
fn sleep_reason_command_spells_cmd() {
    let g = display_sleep_reason(SleepReason::Command);
    // D at rows 0..8, C..M..D regions are disjoint; rows between stay dark.
    let spans = [
        (0, Letter::CapD, 0),
        (1, Letter::CapD, 0),
        (7, Letter::CapD, 0),
        (10, Letter::CapM, 10),
        (17, Letter::CapM, 10),
        (20, Letter::CapC, 20),
        (27, Letter::CapC, 20),
    ];
    for &(row, letter, pos) in spans.iter() {
        let bytes = glyph(letter);
        for gx in 0..8 {
            let expect: u8 = if (bytes[gx] >> (row - pos)) & 1 == 1 { 255 } else { 0 };
            assert_eq!(g.pixel_at(WIDTH - 1 - gx, row), expect);
        }
    }
    for x in 0..WIDTH {
        for y in [8, 9, 18, 19, 28, 29, 33] {
            assert_eq!(g.pixel_at(x, y), 0);
        }
    }
}

#[test]
fn sleep_reason_pin_draws_later_letters_over_earlier() {
    let g = display_sleep_reason(SleepReason::SleepPin);
    // Draw order S(23) L(13) P(7) #(0): the hash owns rows 0..8, P the rest
    // of 7..15, L the rest of 13..21, S all of 23..31.
    assert_word(
        &g,
        &[
            (0, Letter::Hash, 0),
            (8, Letter::CapP, 7),
            (15, Letter::CapL, 13),
            (20, Letter::CapL, 13),
        ],
    );
    assert_word(&g, &[(23, Letter::CapS, 23), (30, Letter::CapS, 23)]);
    for x in 0..WIDTH {
        for y in [21, 22, 31, 32, 33] {
            assert_eq!(g.pixel_at(x, y), 0);
        }
    }
}

#[test]
fn sleep_reason_timeout_spells_time() {
    let g = display_sleep_reason(SleepReason::Timeout);
    assert_word(
        &g,
        &[
            (0, Letter::CapE, 0),
            (8, Letter::CapM, 8),
            (16, Letter::CapI, 16),
            (24, Letter::CapT, 24),
            (31, Letter::CapT, 24),
        ],
    );
    for x in 0..WIDTH {
        for y in [32, 33] {
            assert_eq!(g.pixel_at(x, y), 0);
        }
    }
}

#[test]
fn sleep_reason_usb_spells_usb() {
    let g = display_sleep_reason(SleepReason::UsbSuspend);
    // Draw order U(17) S(10) B(0): S overwrites the first rows of U.
    assert_word(&g, &[(0, Letter::CapB, 0), (7, Letter::CapB, 0)]);
    assert_word(
        &g,
        &[
            (10, Letter::CapS, 10),
            (17, Letter::CapS, 10),
            (18, Letter::CapU, 17),
            (24, Letter::CapU, 17),
        ],
    );
    for x in 0..WIDTH {
        for y in [8, 9, 25, 26, 33] {
            assert_eq!(g.pixel_at(x, y), 0);
        }
    }
}

#[test]
fn lotus_draws_letters_in_overwrite_order() {
    let g = display_lotus();
    // Draw order L(26) O(20) T(12) S(0) U(5): U owns rows 5..13, S the rows
    // below it, T and O their uncovered rows, L the tail of the word.
    assert_word(
        &g,
        &[
            (0, Letter::CapS, 0),
            (5, Letter::CapU, 5),
            (13, Letter::CapT, 12),
            (20, Letter::CapO, 20),
            (28, Letter::CapL, 26),
            (33, Letter::CapL, 26),
        ],
    );
}

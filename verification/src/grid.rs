//! Character grid derived from the window size.
//!
//! The screen is partitioned into a fixed number of columns
//! ([`crate::AMOUNT_OF_COLUMNS`]). Each cell is square with side
//! `window_width / AMOUNT_OF_COLUMNS` pixels (a rational value; the host
//! converts it for rendering), so the number of rows is the integer part of
//! `window_height / cell_dimension`, which equals
//! `window_height * AMOUNT_OF_COLUMNS / window_width` exactly.

use vstd::prelude::*;
use crate::AMOUNT_OF_COLUMNS;
use vstd::arithmetic::div_mod::lemma_fundamental_div_mod;

verus! {

/// Grid dimensions derived from the latest known window size.
#[derive(Clone, Copy, PartialEq, Eq, Structural, Debug)]
pub struct Grid {
    /// Window width in physical pixels.
    pub window_width: u32,
    /// Window height in physical pixels.
    pub window_height: u32,
    /// Number of rows that fit on screen, saturated at `u16::MAX`.
    pub rows: u16,
}

/// Number of grid rows for a window of the given pixel size: the integer part
/// of `height / (width / AMOUNT_OF_COLUMNS)`, saturated at `u16::MAX`.
pub open spec fn spec_rows(width: u32, height: u32) -> int {
    if width == 0 {
        0
    } else {
        let raw = (height as int * AMOUNT_OF_COLUMNS as int) / (width as int);
        if raw > u16::MAX as int {
            u16::MAX as int
        } else {
            raw
        }
    }
}

/// The grid that `Grid::recompute` derives from the given window size.
pub open spec fn spec_recompute(width: u32, height: u32) -> Grid {
    Grid { window_width: width, window_height: height, rows: spec_rows(width, height) as u16 }
}

impl Grid {
    /// The row count is consistent with the stored window size.
    pub open spec fn wf(self) -> bool {
        self.rows as int == spec_rows(self.window_width, self.window_height)
    }

    /// Derives the grid for a window of the given pixel size. A pure function
    /// of its two inputs, with no other state read.
    pub fn recompute(width: u32, height: u32) -> (g: Grid)
        requires
            width > 0,
            height > 0,
        ensures
            g == spec_recompute(width, height),
            g.wf(),
    {
        let raw: u64 = (height as u64) * (AMOUNT_OF_COLUMNS as u64) / (width as u64);
        let rows: u16 = if raw > 0xFFFF {
            0xFFFF
        } else {
            raw as u16
        };
        proof {
            assert(0 <= spec_rows(width, height) <= u16::MAX as int);
        }
        Grid { window_width: width, window_height: height, rows }
    }
}

/// The grid is a pure function of the window size: two recomputations from
/// the same width and height yield equal grids.
pub proof fn lemma_recompute_deterministic(width: u32, height: u32, a: Grid, b: Grid)
    requires
        a == spec_recompute(width, height),
        b == spec_recompute(width, height),
    ensures
        a == b,
{
}

/// When no saturation occurs, the row count is exactly the floor of
/// `height / cell_dimension` where `cell_dimension = width / AMOUNT_OF_COLUMNS`:
/// `rows` many cells fit in the window height and `rows + 1` do not.
pub proof fn lemma_rows_is_floor(width: u32, height: u32)
    requires
        width > 0,
        (height as int * AMOUNT_OF_COLUMNS as int) / (width as int) <= u16::MAX as int,
    ensures
        spec_rows(width, height) * width <= height as int * AMOUNT_OF_COLUMNS as int,
        (spec_rows(width, height) + 1) * width > height as int * AMOUNT_OF_COLUMNS as int,
{
    let total = height as int * AMOUNT_OF_COLUMNS as int;
    let w = width as int;
    let q = total / w;
    lemma_fundamental_div_mod(total, w);
    assert(total == w * q + total % w);
    assert(0 <= total % w < w);
    assert(q * w <= total < (q + 1) * w) by (nonlinear_arith)
        requires
            total == w * q + total % w,
            0 <= total % w < w,
    ;
}

} // verus!

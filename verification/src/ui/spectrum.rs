//! Where the bars of the spectrum display go.

use vstd::prelude::*;

verus! {

/// The horizontal placement of a row of bars.
#[derive(Debug, Clone, Copy, PartialEq, Eq, Structural)]
pub struct BarLayout {
    /// How many bars are shown
    pub bars: usize,
    /// Column of the first bar
    pub start_x: u16,
    /// Columns from one bar to the next
    pub stride: usize,
}

/// How many bars of `bar_width` columns, `bar_gap` columns apart, are shown
/// for `bands` bands in `width` columns: as many as fit, and no more than
/// there are bands.
pub open spec fn bars_shown(width: u16, bands: usize, bar_width: u16, bar_gap: u16) -> int {
    let fit = width as int / (bar_width + bar_gap);
    if bands <= fit {
        bands as int
    } else {
        fit
    }
}

/// The columns that `bars` bars take up, gaps between them included.
pub open spec fn row_width(bars: int, bar_width: u16, bar_gap: u16) -> int {
    bars * (bar_width + bar_gap) - bar_gap
}

/// Places a row of bars in the middle of an area that begins at column
/// `area_x` and is `area_width` columns wide. Returns `None` where no bar is
/// shown. A bar is taken to be at least one column wide.
pub fn bar_layout(area_x: u16, area_width: u16, bands: usize, bar_width: u16, bar_gap: u16) -> (layout:
    Option<BarLayout>)
    ensures
        ({
            let width = if bar_width == 0 {
                1u16
            } else {
                bar_width
            };
            let bars = bars_shown(area_width, bands, width, bar_gap);
            match layout {
                None => bars == 0,
                Some(placed) => {
                    &&& bars > 0
                    &&& placed.bars == bars
                    &&& placed.stride == width + bar_gap
                    &&& row_width(bars, width, bar_gap) <= area_width
                    &&& placed.start_x == if area_x + (area_width - row_width(
                        bars,
                        width,
                        bar_gap,
                    )) / 2 > u16::MAX {
                        u16::MAX as int
                    } else {
                        area_x + (area_width - row_width(bars, width, bar_gap)) / 2
                    }
                },
            }
        }),
{
    let width: u16 = if bar_width == 0 {
        1
    } else {
        bar_width
    };
    let stride: usize = width as usize + bar_gap as usize;
    let fit: usize = area_width as usize / stride;
    let bars: usize = if bands <= fit {
        bands
    } else {
        fit
    };
    if bars == 0 {
        return None;
    }
    assert(stride <= bars * stride <= fit * stride <= area_width) by (nonlinear_arith)
        requires
            1 <= bars <= fit,
            fit == area_width as usize / stride,
            stride > 0,
    ;
    let row: usize = bars * stride - bar_gap as usize;
    let offset: u16 = ((area_width as usize - row) / 2) as u16;
    let start_x: u16 = if offset > u16::MAX - area_x {
        u16::MAX
    } else {
        area_x + offset
    };
    Some(BarLayout { bars, start_x, stride })
}

} // verus!

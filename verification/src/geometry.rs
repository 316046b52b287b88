use vstd::prelude::*;

verus! {

/// Sum of a sequence of window heights.
pub open spec fn sum_heights(hs: Seq<u32>) -> nat
    decreases hs.len(),
{
    if hs.len() == 0 {
        0
    } else {
        sum_heights(hs.drop_last()) + hs.last() as nat
    }
}

/// Height of a column's content: the windows stacked with a gap above the
/// first, between each pair, and below the last; nothing when it is empty.
pub open spec fn content_height(hs: Seq<u32>, gaps: u32) -> nat {
    if hs.len() == 0 {
        0
    } else {
        sum_heights(hs) + (hs.len() + 1) * (gaps as nat)
    }
}

/// How far a column with content of height `content` can be scrolled in a
/// viewport of height `viewport_height`: the overflow, or zero when it fits.
pub open spec fn scroll_limit(content: nat, viewport_height: int) -> nat {
    if content > viewport_height {
        (content - viewport_height) as nat
    } else {
        0
    }
}

/// Top edge, in content coordinates, of the `index`-th slot of a strip whose
/// slots are `height` pixels high and separated by `gap` pixels.
pub open spec fn slot_top(index: nat, height: nat, gap: nat) -> nat {
    gap + index * (height + gap)
}

/// Width of each of the two columns in a viewport `viewport_width` wide.
pub open spec fn spec_column_width(viewport_width: u32, gaps: u32) -> nat {
    ((viewport_width - gaps) / 2) as nat
}

/// The number of windows a viewport is divided into: the configured count,
/// but at least one.
pub open spec fn visible_count(visible_windows: u32) -> nat {
    if visible_windows >= 1 {
        visible_windows as nat
    } else {
        1
    }
}

/// Whether `visible_windows` windows and their gaps fit the viewport height,
/// so that the fitted height is well defined in 32-bit arithmetic.
pub open spec fn heights_fit(viewport_height: u32, gaps: u32, visible_windows: u32) -> bool {
    &&& visible_count(visible_windows) < u32::MAX
    &&& gaps * (visible_count(visible_windows) + 1) <= viewport_height
}

/// Height of each window when `visible_windows` of them share the viewport
/// height together with their gaps.
pub open spec fn fitted_height(viewport_height: u32, gaps: u32, visible_windows: u32) -> nat {
    ((viewport_height - gaps * (visible_count(visible_windows) + 1)) / (visible_count(
        visible_windows,
    ) as int)) as nat
}

/// Top edge of slot `index` of a strip of `height`-pixel windows with `gap`
/// pixels between them.
pub fn window_slot_top(index: usize, height: u32, gap: u32) -> (y: u128)
    ensures
        y == slot_top(index as nat, height as nat, gap as nat),
{
    let stride: u128 = height as u128 + gap as u128;
    assert(index * stride <= 0xffff_ffff_ffff_ffff * 0x1_ffff_fffe) by (nonlinear_arith)
        requires
            index <= 0xffff_ffff_ffff_ffff,
            stride <= 0x1_ffff_fffe,
    ;
    gap as u128 + index as u128 * stride
}

/// Width of each of the two columns: the viewport width less one gap, halved.
pub fn column_width(viewport_width: u32, gaps: u32) -> (w: u32)
    requires
        gaps <= viewport_width,
    ensures
        w == spec_column_width(viewport_width, gaps),
{
    (viewport_width - gaps) / 2
}

/// Height given to every window of a column so that `visible_windows` of them
/// fill the viewport height with a gap above, between and below them.
pub fn fitted_window_height(viewport_height: u32, gaps: u32, visible_windows: u32) -> (h: u32)
    requires
        heights_fit(viewport_height, gaps, visible_windows),
    ensures
        h == fitted_height(viewport_height, gaps, visible_windows),
{
    let n: u32 = if visible_windows >= 1 {
        visible_windows
    } else {
        1
    };
    let reserved: u32 = gaps * (n + 1);
    (viewport_height - reserved) / n
}

/// Whether `visible_windows` windows and their gaps fit a viewport
/// `viewport_height` high, so that `fitted_window_height` may be asked.
pub fn heights_fit_in(viewport_height: u32, gaps: u32, visible_windows: u32) -> (b: bool)
    ensures
        b == heights_fit(viewport_height, gaps, visible_windows),
{
    let n: u32 = if visible_windows >= 1 {
        visible_windows
    } else {
        1
    };
    if n == u32::MAX {
        return false;
    }
    let slots: u64 = n as u64 + 1;
    assert(gaps * slots <= 0xffff_ffff * 0x1_0000_0000) by (nonlinear_arith)
        requires
            gaps <= 0xffff_ffff,
            slots <= 0x1_0000_0000,
    ;
    gaps as u64 * slots <= viewport_height as u64
}

} // verus!

//! Rectangle arithmetic for widget placement: every dialog and page layout
//! is computed over these plain rectangles.

use vstd::prelude::*;

verus! {

/// A rectangular region of the terminal, in cells.
#[derive(Clone, Copy, Debug, PartialEq, Eq, Structural)]
pub struct Rect {
    pub x: u16,
    pub y: u16,
    pub width: u16,
    pub height: u16,
}

impl Rect {
    /// The rectangle stays inside the addressable coordinate space.
    pub open spec fn wf(self) -> bool {
        self.x + self.width <= u16::MAX && self.y + self.height <= u16::MAX
    }

    /// First column to the right of the rectangle.
    pub open spec fn right(self) -> int {
        self.x + self.width
    }

    /// First row below the rectangle.
    pub open spec fn bottom(self) -> int {
        self.y + self.height
    }

    /// Every cell of `inner` lies inside `self`.
    pub open spec fn covers(self, inner: Rect) -> bool {
        self.x <= inner.x && inner.right() <= self.right() && self.y <= inner.y
            && inner.bottom() <= self.bottom()
    }

    /// The rectangle covers no cell.
    pub open spec fn is_empty(self) -> bool {
        self.width == 0 || self.height == 0
    }

    /// The empty rectangle at the origin.
    pub fn zero() -> (r: Rect)
        ensures
            r == (Rect { x: 0u16, y: 0u16, width: 0u16, height: 0u16 }),
    {
        Rect { x: 0, y: 0, width: 0, height: 0 }
    }

    /// `self` shrunk by `m` cells on every side; a rectangle too small to
    /// have an interior collapses to an empty one at its corner.
    pub open spec fn inner_margin_spec(self, m: u16) -> Rect {
        if self.width >= 2 * m && self.height >= 2 * m {
            Rect {
                x: (self.x + m) as u16,
                y: (self.y + m) as u16,
                width: (self.width - 2 * m) as u16,
                height: (self.height - 2 * m) as u16,
            }
        } else {
            Rect { x: self.x, y: self.y, width: 0u16, height: 0u16 }
        }
    }

    /// Shrink the rectangle by `m` cells on every side.
    pub fn inner_margin(self, m: u16) -> (r: Rect)
        requires
            self.wf(),
        ensures
            r == self.inner_margin_spec(m),
            r.wf(),
            self.covers(r),
    {
        if m <= u16::MAX / 2 && self.width >= 2 * m && self.height >= 2 * m {
            Rect {
                x: self.x + m,
                y: self.y + m,
                width: self.width - 2 * m,
                height: self.height - 2 * m,
            }
        } else {
            Rect { x: self.x, y: self.y, width: 0, height: 0 }
        }
    }
}

/// The smaller of two widths or heights.
pub open spec fn min_u16(a: u16, b: u16) -> u16 {
    if a <= b {
        a
    } else {
        b
    }
}

/// A rectangle of up to `width` by `height` cells centered in `area`, the
/// requested size clamped to what `area` can hold.
pub open spec fn centered_rect_fixed_spec(width: u16, height: u16, area: Rect) -> Rect {
    let w = min_u16(width, area.width);
    let h = min_u16(height, area.height);
    Rect {
        x: (area.x + (area.width - w) / 2) as u16,
        y: (area.y + (area.height - h) / 2) as u16,
        width: w,
        height: h,
    }
}

/// Center a fixed-size rectangle in `area`, clamping the size to fit.
pub fn centered_rect_fixed(width: u16, height: u16, area: Rect) -> (r: Rect)
    requires
        area.wf(),
    ensures
        r == centered_rect_fixed_spec(width, height, area),
        r.wf(),
        area.covers(r),
{
    let w = if width <= area.width {
        width
    } else {
        area.width
    };
    let h = if height <= area.height {
        height
    } else {
        area.height
    };
    Rect {
        x: area.x + (area.width - w) / 2,
        y: area.y + (area.height - h) / 2,
        width: w,
        height: h,
    }
}

/// `area` split into a left pane and a right column of `right_width` cells,
/// the column clamped to the area's width; the left pane gets the rest.
pub open spec fn split_right_column_spec(area: Rect, right_width: u16) -> (Rect, Rect) {
    let bw = min_u16(right_width, area.width);
    let lw = (area.width - bw) as u16;
    (
        Rect { x: area.x, y: area.y, width: lw, height: area.height },
        Rect { x: (area.x + lw) as u16, y: area.y, width: bw, height: area.height },
    )
}

/// Split `area` into a flexible left pane and a right column.
pub fn split_right_column(area: Rect, right_width: u16) -> (r: (Rect, Rect))
    requires
        area.wf(),
    ensures
        r == split_right_column_spec(area, right_width),
        r.0.wf() && r.1.wf(),
        area.covers(r.0) && area.covers(r.1),
{
    let bw = if right_width <= area.width {
        right_width
    } else {
        area.width
    };
    let lw = area.width - bw;
    (
        Rect { x: area.x, y: area.y, width: lw, height: area.height },
        Rect { x: area.x + lw, y: area.y, width: bw, height: area.height },
    )
}

/// `area` split into a left and a right half; the left half takes the odd
/// cell when the width is odd.
pub open spec fn split_halves_spec(area: Rect) -> (Rect, Rect) {
    let half = (area.width / 2) as u16;
    let lw = (area.width - half) as u16;
    (
        Rect { x: area.x, y: area.y, width: lw, height: area.height },
        Rect { x: (area.x + lw) as u16, y: area.y, width: half, height: area.height },
    )
}

/// Split `area` into two horizontal halves.
pub fn split_halves(area: Rect) -> (r: (Rect, Rect))
    requires
        area.wf(),
    ensures
        r == split_halves_spec(area),
        r.0.wf() && r.1.wf(),
        area.covers(r.0) && area.covers(r.1),
{
    let half = area.width / 2;
    let lw = area.width - half;
    (
        Rect { x: area.x, y: area.y, width: lw, height: area.height },
        Rect { x: area.x + lw, y: area.y, width: half, height: area.height },
    )
}

/// The `i`-th slot of height `slot` stacked from the top of `area`, clamped
/// to the space that remains; slots past the bottom are empty.
pub open spec fn stacked_slot_spec(area: Rect, slot: u16, i: int) -> Rect {
    if i * slot <= area.height {
        Rect {
            x: area.x,
            y: (area.y + i * slot) as u16,
            width: area.width,
            height: min_u16(slot, (area.height - i * slot) as u16),
        }
    } else {
        Rect { x: area.x, y: area.y, width: area.width, height: 0u16 }
    }
}

/// Compute the `i`-th stacked slot of height `slot` within `area`.
pub fn stacked_slot(area: Rect, slot: u16, i: usize) -> (r: Rect)
    requires
        area.wf(),
    ensures
        r == stacked_slot_spec(area, slot, i as int),
        r.wf(),
        area.covers(r),
{
    if slot != 0 && i <= (area.height / slot) as usize {
        proof {
            assert(i * slot <= area.height) by (nonlinear_arith)
                requires
                    slot != 0,
                    i <= area.height / slot,
            ;
        }
        let off = (i as u16) * slot;
        let rem = area.height - off;
        let h = if slot <= rem {
            slot
        } else {
            rem
        };
        Rect { x: area.x, y: area.y + off, width: area.width, height: h }
    } else {
        if slot != 0 {
            assert(i * slot > area.height) by (nonlinear_arith)
                requires
                    slot != 0,
                    i > area.height / slot,
            ;
        }
        Rect { x: area.x, y: area.y, width: area.width, height: 0 }
    }
}

} // verus!

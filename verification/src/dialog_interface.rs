use vstd::prelude::*;

verus! {

/// A rectangle on the terminal grid, as plain cell coordinates: what the
/// dialog-placement arithmetic works on. The host converts it to and from
/// its rendering library's own rectangle type.
#[derive(Debug, Eq, PartialEq, Clone, Copy)]
pub struct Rect {
    pub x: u16,
    pub y: u16,
    pub width: u16,
    pub height: u16,
}

/// A side scaled down to a percentage never exceeds the side itself, and
/// neither does the flanking margin.
proof fn lemma_scaled_band_fits(side: int, percent: int)
    requires
        0 <= side,
        0 <= percent <= 100,
    ensures
        side * percent / 100 <= side,
        side * ((100 - percent) / 2) / 100 <= side,
{
    assert(side * percent <= side * 100) by (nonlinear_arith)
        requires 0 <= side && percent <= 100;
    assert(side * ((100 - percent) / 2) <= side * 100) by (nonlinear_arith)
        requires 0 <= side && 0 <= percent <= 100;
    assert(side * 100 / 100 == side);
    assert(side * percent / 100 <= side * 100 / 100) by (nonlinear_arith)
        requires side * percent <= side * 100;
    assert(side * ((100 - percent) / 2) / 100 <= side * 100 / 100) by (nonlinear_arith)
        requires side * ((100 - percent) / 2) <= side * 100;
}

/// Placement arithmetic for dialogs.
pub struct DialogHelpers {}

impl DialogHelpers {
    /// A rectangle of the given percentage size, centered inside `r`: the
    /// band of `percent_y` percent of the height, flanked evenly above and
    /// below, intersected with the band of `percent_x` percent of the width,
    /// flanked evenly left and right.
    pub fn center_rect_perc(percent_x: u16, percent_y: u16, r: Rect) -> (res: Rect)
        requires
            percent_x <= 100,
            percent_y <= 100,
            r.x + r.width <= u16::MAX,
            r.y + r.height <= u16::MAX,
        ensures
            res.width == r.width as int * percent_x as int / 100,
            res.height == r.height as int * percent_y as int / 100,
            res.x == r.x + r.width as int * ((100 - percent_x) as int / 2) / 100,
            res.y == r.y + r.height as int * ((100 - percent_y) as int / 2) / 100,
    {
        proof {
            lemma_scaled_band_fits(r.width as int, percent_x as int);
            lemma_scaled_band_fits(r.height as int, percent_y as int);
        }
        let top = ((r.height as u32 * (((100 - percent_y) / 2) as u32)) / 100) as u16;
        let left = ((r.width as u32 * (((100 - percent_x) / 2) as u32)) / 100) as u16;
        let height = ((r.height as u32 * percent_y as u32) / 100) as u16;
        let width = ((r.width as u32 * percent_x as u32) / 100) as u16;
        Rect { x: r.x + left, y: r.y + top, width, height }
    }

    /// A rectangle of the given absolute size, centered inside `r`.
    pub fn center_rect_size(size_x: u16, size_y: u16, r: Rect) -> (res: Rect)
        requires
            size_x <= r.width,
            size_y <= r.height,
            r.x + r.width <= u16::MAX,
            r.y + r.height <= u16::MAX,
        ensures
            res == (Rect {
                x: (r.x + (r.width - size_x) as int / 2) as u16,
                y: (r.y + (r.height - size_y) as int / 2) as u16,
                width: size_x,
                height: size_y,
            }),
    {
        Rect {
            x: r.x + (r.width - size_x) / 2,
            y: r.y + (r.height - size_y) / 2,
            width: size_x,
            height: size_y,
        }
    }
}

/// What every dialog offers: an opened flag the host toggles as the dialog
/// is shown and dismissed.
pub trait DialogInterface: Sized {
    /// Whether the dialog is currently shown.
    spec fn spec_opened(&self) -> bool;

    fn set_opened(&mut self, opened: bool)
        ensures
            final(self).spec_opened() == opened,
    ;

    fn is_opened(&self) -> (r: bool)
        ensures
            r == self.spec_opened(),
    ;

    fn open(&mut self)
        ensures
            final(self).spec_opened(),
    {
        self.set_opened(true);
    }

    fn close(&mut self)
        ensures
            !final(self).spec_opened(),
    {
        self.set_opened(false);
    }
}

} // verus!

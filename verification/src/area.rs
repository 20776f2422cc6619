//! Rectangles of the terminal, and where the panes and dialogs go.

use ratatui::layout::{Constraint, Layout, Rect};
use vstd::prelude::*;

verus! {

/// A rectangle of terminal cells.
#[derive(Debug, Default, Clone, Copy, PartialEq, Eq, Structural)]
pub struct Area {
    pub x: u16,
    pub y: u16,
    pub width: u16,
    pub height: u16,
}

impl Area {
    /// The edges to the right and below have coordinates of their own.
    pub open spec fn wf(self) -> bool {
        self.x + self.width <= u16::MAX && self.y + self.height <= u16::MAX
    }
}

/// `percent` of `size`, rounded to the nearest cell, halves up.
pub open spec fn share(size: u16, percent: u16) -> int {
    (size * percent + 50) / 100
}

/// `parts` are `area` cut into four slices from top to bottom, each starting where the one before
/// ends. Where there is room, the first is `top` high, the second `percent` of the whole or as
/// much of it as is left, the last `bottom` high, and the third takes the rest. Where `top` and
/// `bottom` do not both fit, the first and the last share the area, neither higher than asked,
/// and the two between them are empty.
pub open spec fn stacked(
    area: Area,
    top: u16,
    percent: u16,
    bottom: u16,
    parts: (Area, Area, Area, Area),
) -> bool {
    let room = area.height - top - bottom;
    let second = if share(area.height, percent) <= room {
        share(area.height, percent)
    } else {
        room
    };
    &&& parts.0.y == area.y
    &&& parts.1.y == parts.0.y + parts.0.height
    &&& parts.2.y == parts.1.y + parts.1.height
    &&& parts.3.y == parts.2.y + parts.2.height
    &&& parts.3.y + parts.3.height == area.y + area.height
    &&& parts.0.height <= top
    &&& parts.3.height <= bottom
    &&& room >= 0 ==> parts.0.height == top && parts.1.height == second && parts.3.height == bottom
    &&& room < 0 ==> parts.1.height == 0 && parts.2.height == 0
}

/// `Layout::vertical` with a length, a percentage, a fill and a length, and `Layout::areas`.
///
/// Every slice has the left edge and the width of `area`, and the slices are as `stacked` says.
/// Where the two lengths do not both fit, they compete with equal strength: how much of the area
/// each gets is left unsaid, since the constraint solver walks its tables in a randomly seeded
/// order.
#[verifier::external_body]
pub(crate) fn split_rows(area: Area, top: u16, percent: u16, fill: u16, bottom: u16) -> (r: (
    Area,
    Area,
    Area,
    Area,
))
    requires
        area.wf(),
        percent <= 100,
    ensures
        r.0.x == area.x && r.0.width == area.width,
        r.1.x == area.x && r.1.width == area.width,
        r.2.x == area.x && r.2.width == area.width,
        r.3.x == area.x && r.3.width == area.width,
        stacked(area, top, percent, bottom, r),
{
    let constraints = [
        Constraint::Length(top),
        Constraint::Percentage(percent),
        Constraint::Fill(fill),
        Constraint::Length(bottom),
    ];
    let whole = Rect { x: area.x, y: area.y, width: area.width, height: area.height };
    let parts: [Rect; 4] = Layout::vertical(constraints).areas(whole);
    let [a, b, c, d] = parts.map(|p| Area { x: p.x, y: p.y, width: p.width, height: p.height });
    (a, b, c, d)
}

/// `Layout::horizontal` with two percentages, and `Layout::areas`: two slices side by side that
/// take their percentages of the width, the edges rounded to the nearest cell, halves up.
#[verifier::external_body]
pub(crate) fn split_columns(area: Area, left: u16, right: u16) -> (r: (Area, Area))
    requires
        area.wf(),
        left + right <= 100,
    ensures
        r.0.y == area.y && r.0.height == area.height,
        r.1.y == area.y && r.1.height == area.height,
        r.0.x == area.x && r.0.width == share(area.width, left),
        r.1.x == area.x + share(area.width, left),
        r.1.x + r.1.width == area.x + share(area.width, (left + right) as u16),
{
    let constraints = [Constraint::Percentage(left), Constraint::Percentage(right)];
    let whole = Rect { x: area.x, y: area.y, width: area.width, height: area.height };
    let parts: [Rect; 2] = Layout::horizontal(constraints).areas(whole);
    let [a, b] = parts.map(|p| Area { x: p.x, y: p.y, width: p.width, height: p.height });
    (a, b)
}

/// Where the search box goes: inside the frame around `area`, three rows high.
pub open spec fn search_area_spec(area: Area) -> Area {
    Area {
        x: (area.x + 1) as u16,
        y: (area.y + 1) as u16,
        width: (area.width - 2) as u16,
        height: 3,
    }
}

/// Where a dialog `height` rows high goes: a quarter into `area` from the left and from the top,
/// and half as wide.
pub open spec fn dialog_area_spec(area: Area, height: u16) -> Area {
    Area {
        x: (area.x + area.width / 4) as u16,
        y: (area.y + area.height / 4) as u16,
        width: area.width / 2,
        height,
    }
}

/// Where the details panel goes: in the middle of the screen, four fifths as wide and as high.
pub open spec fn panel_area_spec(screen: Area) -> Area {
    let width = screen.width * 4 / 5;
    let height = screen.height * 4 / 5;
    Area {
        x: ((screen.width - width) / 2) as u16,
        y: ((screen.height - height) / 2) as u16,
        width: width as u16,
        height: height as u16,
    }
}

/// There is room for the search box in `area`.
pub open spec fn search_fits(area: Area) -> bool {
    area.width >= 2 && area.x < u16::MAX && area.y < u16::MAX
}

/// A dialog in `area` has a corner with coordinates.
pub open spec fn dialog_fits(area: Area) -> bool {
    area.x + area.width / 4 <= u16::MAX && area.y + area.height / 4 <= u16::MAX
}

/// Places the search box.
pub fn search_area(area: Area) -> (r: Area)
    requires
        search_fits(area),
    ensures
        r == search_area_spec(area),
{
    Area { x: area.x + 1, y: area.y + 1, width: area.width - 2, height: 3 }
}

/// Places a dialog.
pub fn dialog_area(area: Area, height: u16) -> (r: Area)
    requires
        dialog_fits(area),
    ensures
        r == dialog_area_spec(area, height),
{
    Area {
        x: area.x + area.width / 4,
        y: area.y + area.height / 4,
        width: area.width / 2,
        height,
    }
}

/// Places the details panel.
pub fn panel_area(screen: Area) -> (r: Area)
    ensures
        r == panel_area_spec(screen),
{
    let width: u16 = (screen.width as u32 * 4 / 5) as u16;
    let height: u16 = (screen.height as u32 * 4 / 5) as u16;
    Area { x: (screen.width - width) / 2, y: (screen.height - height) / 2, width, height }
}

} // verus!

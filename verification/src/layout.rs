//! Geometry of the interface, in terminal cells.
use vstd::prelude::*;

verus! {

/// A rectangle of `percent_x` percent of the width of an area of
/// `area_width` by `area_height` cells and `height` cells high, centred in
/// it: `(x, y, width, height)`.
pub open spec fn centered(percent_x: u16, height: u16, area_width: u16, area_height: u16) -> (int, int, int, int) {
    let w = area_width * percent_x / 100;
    let x = if area_width >= w { (area_width - w) / 2 } else { 0 };
    let y = if area_height >= height { (area_height - height) / 2 } else { 0 };
    (x, y, w, height as int)
}

/// The rectangle of `percent_x` percent of the width of the area and
/// `height` cells high, centred in the area.
pub fn centered_rect(percent_x: u16, height: u16, area_width: u16, area_height: u16) -> (r: (u16, u16, u16, u16))
    requires
        area_width * percent_x <= u16::MAX,
    ensures
        (r.0 as int, r.1 as int, r.2 as int, r.3 as int) == centered(percent_x, height, area_width, area_height),
{
    let popup_width = area_width * percent_x / 100;
    let popup_x = area_width.saturating_sub(popup_width) / 2;
    let popup_y = area_height.saturating_sub(height) / 2;
    (popup_x, popup_y, popup_width, height)
}

} // verus!

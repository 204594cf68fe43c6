//! Choosing the display that a capture region belongs to.
//!
//! The screen-capture collaborator enumerates displays and reads pixels;
//! deciding which display holds the region, and where the region sits
//! relative to that display's origin, is plain arithmetic and is done
//! here.  All coordinates are global physical pixels.

use vstd::prelude::*;
use crate::session::Region;

verus! {

/// Bounds of one display in global physical pixels.
#[derive(Clone, Copy, PartialEq, Eq, Structural, Debug)]
pub struct DisplayBounds {
    pub x: i32,
    pub y: i32,
    pub width: u32,
    pub height: u32,
}

/// The horizontal centre of a region.
pub open spec fn center_x(r: Region) -> int {
    r.x + r.width as int / 2
}

/// The vertical centre of a region.
pub open spec fn center_y(r: Region) -> int {
    r.y + r.height as int / 2
}

/// The point `(px, py)` lies on the display.
pub open spec fn contains(d: DisplayBounds, px: int, py: int) -> bool {
    &&& d.x <= px < d.x + d.width
    &&& d.y <= py < d.y + d.height
}

/// Pick the display to capture from: the first one whose area holds the
/// centre of the region, and the first display at all when none does.
/// `None` only when no display was enumerated.
pub fn display_for_region(displays: &Vec<DisplayBounds>, region: &Region) -> (r: Option<usize>)
    ensures
        r is None <==> displays@.len() == 0,
        r matches Some(i) ==> i < displays@.len(),
        r matches Some(i) ==> (contains(displays@[i as int], center_x(*region), center_y(*region))
            ==> forall|j: int|
            0 <= j < i ==> !contains(displays@[j], center_x(*region), center_y(*region))),
        r matches Some(i) ==> (!contains(displays@[i as int], center_x(*region), center_y(*region))
            ==> i == 0 && forall|j: int|
            0 <= j < displays@.len() ==> !contains(
                displays@[j],
                center_x(*region),
                center_y(*region),
            )),
{
    let cx: i64 = region.x as i64 + ((region.width / 2) as i64);
    let cy: i64 = region.y as i64 + ((region.height / 2) as i64);
    let n: usize = displays.len();
    let mut i: usize = 0;
    while i < n
        invariant
            i <= n,
            n == displays@.len(),
            cx == center_x(*region),
            cy == center_y(*region),
            forall|j: int|
                0 <= j < i ==> !contains(displays@[j], center_x(*region), center_y(*region)),
        decreases n - i,
    {
        let d: &DisplayBounds = &displays[i];
        let inside: bool = (d.x as i64) <= cx && cx < (d.x as i64) + (d.width as i64) && (d.y
            as i64) <= cy && cy < (d.y as i64) + (d.height as i64);
        if inside {
            return Some(i);
        }
        i = i + 1;
    }
    if n > 0 {
        Some(0)
    } else {
        None
    }
}

/// The region's origin relative to a display's origin, for the capture
/// call that addresses pixels within one display.
pub fn relative_origin(d: &DisplayBounds, region: &Region) -> (p: (i64, i64))
    ensures
        p.0 == region.x - d.x,
        p.1 == region.y - d.y,
{
    ((region.x as i64) - (d.x as i64), (region.y as i64) - (d.y as i64))
}

} // verus!

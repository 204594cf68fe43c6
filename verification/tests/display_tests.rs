use scroll_snap::display::{display_for_region, relative_origin, DisplayBounds};
use scroll_snap::session::Region;

fn two_displays() -> Vec<DisplayBounds> {
    vec![
        DisplayBounds { x: 0, y: 0, width: 1920, height: 1080 },
        DisplayBounds { x: 1920, y: 0, width: 1920, height: 1080 },
    ]
}

#[test]
fn region_centre_picks_its_display() {
    let displays = two_displays();
    let on_first = Region { x: 100, y: 100, width: 300, height: 200 };
    assert_eq!(display_for_region(&displays, &on_first), Some(0));

    let on_second = Region { x: 2500, y: 300, width: 300, height: 200 };
    assert_eq!(display_for_region(&displays, &on_second), Some(1));

    // a region straddling the seam goes by its centre
    let straddling = Region { x: 1800, y: 0, width: 400, height: 200 };
    assert_eq!(display_for_region(&displays, &straddling), Some(1));
}

#[test]
fn region_outside_every_display_falls_back_to_the_first() {
    let displays = two_displays();
    let outside = Region { x: -5000, y: -5000, width: 10, height: 10 };
    assert_eq!(display_for_region(&displays, &outside), Some(0));
}

#[test]
fn no_displays_no_choice() {
    let none: Vec<DisplayBounds> = Vec::new();
    let region = Region { x: 0, y: 0, width: 10, height: 10 };
    assert_eq!(display_for_region(&none, &region), None);
}

#[test]
fn relative_origin_subtracts_the_display_origin() {
    let d = DisplayBounds { x: 1920, y: 0, width: 1920, height: 1080 };
    let region = Region { x: 2000, y: 100, width: 300, height: 200 };
    assert_eq!(relative_origin(&d, &region), (80, 100));
}

use scroll_snap::compose::append_image;
use scroll_snap::detect::{OverlapKind, OverlapResult};
use scroll_snap::raster::{CompositeImage, Frame, Raster};

fn solid(width: u32, height: u32, rgba: (u8, u8, u8, u8)) -> Raster {
    let mut data: Vec<u8> = Vec::new();
    for _ in 0..(width as usize) * (height as usize) {
        data.push(rgba.0);
        data.push(rgba.1);
        data.push(rgba.2);
        data.push(rgba.3);
    }
    Raster { width, height, data }
}

fn pixel(c: &Raster, x: u32, y: u32) -> (u8, u8, u8, u8) {
    let i = ((y * c.width + x) * 4) as usize;
    (c.data[i], c.data[i + 1], c.data[i + 2], c.data[i + 3])
}

const A: (u8, u8, u8, u8) = (1, 2, 3, 4);
const B: (u8, u8, u8, u8) = (9, 8, 7, 6);

#[test]
fn append_skips_duplicated_rows() {
    let base = CompositeImage { raster: solid(4, 3, A) };
    let frame = Frame { raster: solid(4, 5, B), timestamp_ms: 0 };
    let overlap = OverlapResult { offset: 2, kind: OverlapKind::Matched };
    let out = append_image(&base, &frame, &overlap);
    assert_eq!(out.raster.width, 4);
    assert_eq!(out.raster.height, 6); // 3 + (5 - 2)
    assert_eq!(pixel(&out.raster, 0, 2), A);
    assert_eq!(pixel(&out.raster, 3, 3), B);
    assert_eq!(pixel(&out.raster, 3, 5), B);
}

#[test]
fn append_with_offset_at_frame_height_returns_base_unchanged() {
    let base = CompositeImage { raster: solid(7, 4, A) };
    let frame = Frame { raster: solid(7, 4, B), timestamp_ms: 0 };
    let overlap = OverlapResult { offset: 4, kind: OverlapKind::Matched };
    let out = append_image(&base, &frame, &overlap);
    assert_eq!(out.raster.width, base.raster.width);
    assert_eq!(out.raster.height, base.raster.height);
    assert_eq!(out.raster.data, base.raster.data);

    // an offset beyond the frame height behaves the same
    let overlap = OverlapResult { offset: 100, kind: OverlapKind::Matched };
    let out = append_image(&base, &frame, &overlap);
    assert_eq!(out.raster.data, base.raster.data);
}

#[test]
fn append_of_wider_frame_pads_base_columns() {
    let base = CompositeImage { raster: solid(2, 2, A) };
    let frame = Frame { raster: solid(4, 3, B), timestamp_ms: 0 };
    let overlap = OverlapResult { offset: 1, kind: OverlapKind::Matched };
    let out = append_image(&base, &frame, &overlap);
    assert_eq!(out.raster.width, 4);
    assert_eq!(out.raster.height, 4); // 2 + (3 - 1)
    // base area kept, columns beyond the base transparent
    assert_eq!(pixel(&out.raster, 1, 1), A);
    assert_eq!(pixel(&out.raster, 2, 0), (0, 0, 0, 0));
    assert_eq!(pixel(&out.raster, 3, 1), (0, 0, 0, 0));
    // appended frame rows cover the full width
    assert_eq!(pixel(&out.raster, 3, 2), B);
}

#[test]
fn append_of_narrower_frame_pads_frame_columns() {
    let base = CompositeImage { raster: solid(4, 2, A) };
    let frame = Frame { raster: solid(2, 3, B), timestamp_ms: 0 };
    let overlap = OverlapResult { offset: 0, kind: OverlapKind::Matched };
    let out = append_image(&base, &frame, &overlap);
    assert_eq!(out.raster.width, 4);
    assert_eq!(out.raster.height, 5);
    assert_eq!(pixel(&out.raster, 3, 1), A);
    assert_eq!(pixel(&out.raster, 1, 3), B);
    assert_eq!(pixel(&out.raster, 2, 3), (0, 0, 0, 0));
}

#[test]
fn composite_height_grows_by_remainder() {
    // heights across a chain of appends are strictly increasing
    let mut composite = CompositeImage { raster: solid(5, 10, A) };
    let mut last_height = composite.raster.height;
    for off in [2u32, 5, 9] {
        let frame = Frame { raster: solid(5, 10, B), timestamp_ms: 0 };
        let overlap = OverlapResult { offset: off, kind: OverlapKind::Matched };
        composite = append_image(&composite, &frame, &overlap);
        assert_eq!(composite.raster.height, last_height + (10 - off));
        assert!(composite.raster.height > last_height);
        last_height = composite.raster.height;
    }
}

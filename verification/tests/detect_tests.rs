use scroll_snap::detect::{calculate_overlap, pixels_are_similar, DetectorConfig, OverlapKind};
use scroll_snap::raster::{CompositeImage, Frame, Raster};

fn solid(width: u32, height: u32, rgba: (u8, u8, u8, u8)) -> Raster {
    let mut data: Vec<u8> = Vec::new();
    for _ in 0..(width as usize) * (height as usize) {
        data.push(rgba.0);
        data.push(rgba.1);
        data.push(rgba.2);
        data.push(rgba.3);
    }
    Raster { width, height, data }
}

fn striped(width: u32, heights_and_colors: &[(u32, (u8, u8, u8, u8))]) -> Raster {
    let mut data: Vec<u8> = Vec::new();
    let mut total: u32 = 0;
    for &(rows, c) in heights_and_colors {
        total += rows;
        for _ in 0..(rows as usize) * (width as usize) {
            data.push(c.0);
            data.push(c.1);
            data.push(c.2);
            data.push(c.3);
        }
    }
    Raster { width, height: total, data }
}

fn frame_of(r: Raster) -> Frame {
    Frame { raster: r, timestamp_ms: 0 }
}

fn composite_of(r: Raster) -> CompositeImage {
    CompositeImage { raster: r }
}

const X: (u8, u8, u8, u8) = (200, 10, 10, 255);
const Y: (u8, u8, u8, u8) = (10, 10, 200, 255);

#[test]
fn similarity_boundary_at_tolerance() {
    // channel differences of exactly the tolerance are similar
    assert!(pixels_are_similar((100, 100, 100), (115, 115, 115), 15));
    assert!(pixels_are_similar((115, 115, 115), (100, 100, 100), 15));
    // one more unit on any single channel is dissimilar
    assert!(!pixels_are_similar((100, 100, 100), (116, 115, 115), 15));
    assert!(!pixels_are_similar((100, 100, 100), (115, 116, 115), 15));
    assert!(!pixels_are_similar((100, 100, 100), (115, 115, 116), 15));
    // alpha plays no part: compared tuples carry no alpha at all
    assert!(pixels_are_similar((0, 0, 0), (0, 0, 0), 0));
    assert!(!pixels_are_similar((0, 0, 0), (1, 0, 0), 0));
}

#[test]
fn identical_solid_frames_are_full_duplicate() {
    let cfg = DetectorConfig::recommended();
    let composite = composite_of(solid(100, 100, X));
    let frame = frame_of(solid(100, 100, X));
    let r = calculate_overlap(&composite, &frame, &cfg);
    assert_eq!(r.kind, OverlapKind::FullDuplicate);
    assert_eq!(r.offset, 100);
}

#[test]
fn frame_equal_to_patterned_tail_is_full_duplicate() {
    // a non-solid composite whose last 12 rows come back as the frame
    let cfg = DetectorConfig::recommended();
    let mut data: Vec<u8> = Vec::new();
    for y in 0..30u32 {
        for _ in 0..10u32 {
            data.extend_from_slice(&[y as u8 * 7, 13, 200u8.wrapping_sub(y as u8), 255]);
        }
    }
    let composite = composite_of(Raster { width: 10, height: 30, data: data.clone() });
    let tail: Vec<u8> = data[(18 * 10 * 4)..].to_vec();
    let frame = frame_of(Raster { width: 10, height: 12, data: tail });
    let r = calculate_overlap(&composite, &frame, &cfg);
    assert_eq!(r.kind, OverlapKind::FullDuplicate);
    assert_eq!(r.offset, 12);
}

#[test]
fn scenario_signature_found_at_offset_fifty() {
    // reference 200 tall, rows 190..200 colour X, the rest Y;
    // frame 200 tall, rows 40..50 colour X, the rest Y
    let cfg = DetectorConfig {
        signature_height: 10,
        column_stride: 5,
        tolerance: 15,
        mismatch_per_mille: 10,
    };
    let composite = composite_of(striped(20, &[(190, Y), (10, X)]));
    let frame = frame_of(striped(20, &[(40, Y), (10, X), (150, Y)]));
    let r = calculate_overlap(&composite, &frame, &cfg);
    assert_eq!(r.kind, OverlapKind::Matched);
    assert_eq!(r.offset, 50);
}

#[test]
fn zero_area_images_give_no_overlap() {
    let cfg = DetectorConfig::recommended();
    let composite = composite_of(solid(10, 10, X));
    let empty_frame = frame_of(Raster { width: 10, height: 0, data: Vec::new() });
    let r = calculate_overlap(&composite, &empty_frame, &cfg);
    assert_eq!(r.kind, OverlapKind::NoOverlap);
    assert_eq!(r.offset, 0);

    let empty_composite = composite_of(Raster { width: 0, height: 10, data: Vec::new() });
    let frame = frame_of(solid(10, 10, X));
    let r = calculate_overlap(&empty_composite, &frame, &cfg);
    assert_eq!(r.kind, OverlapKind::NoOverlap);
}

#[test]
fn narrower_than_stride_gives_no_overlap() {
    // shared width 3 is narrower than the sampling stride 5
    let cfg = DetectorConfig::recommended();
    let composite = composite_of(solid(3, 50, X));
    let frame = frame_of(solid(3, 50, X));
    let r = calculate_overlap(&composite, &frame, &cfg);
    assert_eq!(r.kind, OverlapKind::NoOverlap);
    assert_eq!(r.offset, 0);
}

#[test]
fn frame_shorter_than_signature_gives_no_overlap() {
    let cfg = DetectorConfig::recommended();
    let composite = composite_of(solid(10, 50, X));
    let frame = frame_of(solid(10, 3, X)); // 3 < signature height 5
    let r = calculate_overlap(&composite, &frame, &cfg);
    assert_eq!(r.kind, OverlapKind::NoOverlap);
}

#[test]
fn unrelated_frame_gives_no_overlap() {
    let cfg = DetectorConfig::recommended();
    let composite = composite_of(solid(10, 60, X));
    let frame = frame_of(solid(10, 60, Y));
    let r = calculate_overlap(&composite, &frame, &cfg);
    assert_eq!(r.kind, OverlapKind::NoOverlap);
    assert_eq!(r.offset, 0);
}

#[test]
fn tolerance_wide_noise_still_matches() {
    // the frame tail band is within the per-channel tolerance of the signature
    let cfg = DetectorConfig {
        signature_height: 5,
        column_stride: 2,
        tolerance: 15,
        mismatch_per_mille: 10,
    };
    let composite = composite_of(striped(10, &[(55, Y), (5, X)]));
    let noisy_x = (X.0 - 15, X.1 + 15, X.2, 255);
    let frame = frame_of(striped(10, &[(20, noisy_x), (40, Y)]));
    let r = calculate_overlap(&composite, &frame, &cfg);
    // signature (X) is found at the first frame row despite the noise
    assert_eq!(r.kind, OverlapKind::Matched);
    assert_eq!(r.offset, 5);
}

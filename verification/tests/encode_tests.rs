use scroll_snap::encode::{
    composite_to_data_url, data_url_from_png, data_url_payload, parse_data_url, CodecError,
};
use scroll_snap::raster::{CompositeImage, Raster};

fn patterned(width: u32, height: u32) -> Raster {
    let mut data: Vec<u8> = Vec::new();
    for y in 0..height {
        for x in 0..width {
            data.push((x * 40 + 3) as u8);
            data.push((y * 40 + 5) as u8);
            data.push((x + y) as u8);
            data.push(255);
        }
    }
    Raster { width, height, data }
}

#[test]
fn data_url_round_trips_the_pixels() {
    let composite = CompositeImage { raster: patterned(3, 2) };
    let url = composite_to_data_url(&composite).unwrap();
    assert!(url.starts_with("data:image/png;base64,"));

    let back = parse_data_url(&url).unwrap();
    assert_eq!(back.width, 3);
    assert_eq!(back.height, 2);
    assert_eq!(back.data, composite.raster.data);
}

#[test]
fn zero_area_composite_cannot_be_encoded() {
    let composite = CompositeImage { raster: Raster { width: 0, height: 0, data: Vec::new() } };
    assert_eq!(composite_to_data_url(&composite), Err(CodecError::EncodingFailure));
}

#[test]
fn payload_strips_the_prefix_and_decodes() {
    let r = data_url_payload("data:image/png;base64,aGVsbG8=").unwrap();
    assert_eq!(r, b"hello".to_vec());
}

#[test]
fn bare_base64_payload_is_accepted_whole() {
    let r = data_url_payload("aGVsbG8=").unwrap();
    assert_eq!(r, b"hello".to_vec());
}

#[test]
fn malformed_base64_is_rejected() {
    assert_eq!(data_url_payload("data:image/png;base64,!!!"), Err(CodecError::Base64Failure));
    assert!(matches!(parse_data_url("%%%"), Err(CodecError::Base64Failure)));
}

#[test]
fn valid_base64_of_garbage_is_not_an_image() {
    // decodes as base64, but the bytes are no readable raster
    assert!(matches!(
        parse_data_url("data:image/png;base64,aGVsbG8="),
        Err(CodecError::ImageFailure)
    ));
}

#[test]
fn data_url_wraps_given_png_bytes() {
    // four characters for every three bytes begun, after the prefix
    let url = data_url_from_png(&b"abc".to_vec()).unwrap();
    assert_eq!(url, "data:image/png;base64,YWJj");
    let url = data_url_from_png(&b"abcd".to_vec()).unwrap();
    assert_eq!(url.len(), "data:image/png;base64,".len() + 8);
}

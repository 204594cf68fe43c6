//! The encode/decode edge of the core: a finished composite leaves as a
//! PNG data URL, and the clipboard/file adapters hand data URLs back to
//! be decoded.
//!
//! The PNG and base64 codecs are outside crates; each call goes through
//! one trusted wrapper whose contract names or states its result, and
//! everything around the calls is verified.

use vstd::prelude::*;
use vstd::string::*;
use base64::Engine;
use crate::raster::{CompositeImage, Raster};

verus! {

/// The bytes the PNG encoder produces for a raster: a function of the
/// dimensions and pixel data alone.
pub uninterp spec fn png_bytes(width: u32, height: u32, rgba: Seq<u8>) -> Seq<u8>;

/// Whether the PNG encoder accepts a raster: like its output, a function
/// of the dimensions and pixel data alone (it refuses zero-area rasters).
pub uninterp spec fn png_encode_ok(width: u32, height: u32, rgba: Seq<u8>) -> bool;

/// What decoding a byte stream as an image gives: `None` where the bytes
/// are not a readable image, otherwise the dimensions and RGBA pixels.
pub uninterp spec fn decoded_image(bytes: Seq<u8>) -> Option<(u32, u32, Seq<u8>)>;

/// The standard, padded base64 encoding of a byte string.
pub uninterp spec fn b64_encoded(bytes: Seq<u8>) -> Seq<char>;

/// What standard base64 decoding gives: `None` for a malformed payload.
pub uninterp spec fn b64_decoded(s: Seq<char>) -> Option<Seq<u8>>;

#[verifier::external_type_specification]
#[verifier::external_body]
pub struct ExImageError(image::ImageError);

#[verifier::external_type_specification]
#[verifier::external_body]
pub struct ExB64DecodeError(base64::DecodeError);

/// Failures of the encode/decode edge.
#[derive(Clone, Copy, PartialEq, Eq, Structural, Debug)]
pub enum CodecError {
    /// PNG serialization of the composite failed.
    EncodingFailure,
    /// The base64 payload could not be decoded.
    Base64Failure,
    /// The decoded bytes are not a readable image.
    ImageFailure,
}

/// Relies on the PNG encoder of the image crate, reached through
/// `DynamicImage::write_to`: whether it succeeds and what bytes it
/// produces depend on the dimensions and pixel data alone.  PNG is
/// lossless for RGBA8, so whenever the decoder accepts the produced
/// bytes it returns exactly these pixels; the decoder is not promised to
/// accept them, since it enforces a default 512 MiB allocation cap that
/// a very tall composite can exceed while the encoder has no such cap.
#[verifier::external_body]
fn encode_png(width: u32, height: u32, rgba: &Vec<u8>) -> (r: Result<Vec<u8>, image::ImageError>)
    requires
        rgba@.len() == width * height * 4,
    ensures
        r is Ok <==> png_encode_ok(width, height, rgba@),
        r matches Ok(b) ==> b@ == png_bytes(width, height, rgba@),
        r matches Ok(b) ==> (decoded_image(b@) is Some ==> decoded_image(b@) == Some(
            (width, height, rgba@),
        )),
{
    let img = image::RgbaImage::from_raw(width, height, rgba.clone())
        .expect("buffer length matches the dimensions");
    let mut cur = std::io::Cursor::new(Vec::new());
    match image::DynamicImage::ImageRgba8(img).write_to(&mut cur, image::ImageOutputFormat::Png) {
        Ok(()) => Ok(cur.into_inner()),
        Err(e) => Err(e),
    }
}

/// Relies on `image::load_from_memory` and `DynamicImage::to_rgba8`: the
/// outcome depends on the input bytes alone, and the returned buffer
/// holds four bytes per pixel.
#[verifier::external_body]
fn decode_image(bytes: &Vec<u8>) -> (r: Result<(u32, u32, Vec<u8>), image::ImageError>)
    ensures
        r matches Ok(t) ==> decoded_image(bytes@) == Some((t.0, t.1, t.2@)) && t.2@.len() == t.0
            * t.1 * 4,
        r matches Err(_) ==> decoded_image(bytes@) is None,
{
    match image::load_from_memory(bytes.as_slice()) {
        Ok(img) => {
            let rgba = img.to_rgba8();
            let (w, h) = rgba.dimensions();
            Ok((w, h, rgba.into_raw()))
        },
        Err(e) => Err(e),
    }
}

/// Relies on base64's `STANDARD` engine `encode`: deterministic in its
/// input, inverted exactly by `decode`, and with padding the output holds
/// four characters for every three input bytes begun.  The engine panics
/// when that length overflows `usize`, so such inputs are excluded.
#[verifier::external_body]
fn b64_encode(bytes: &Vec<u8>) -> (r: String)
    requires
        ((bytes@.len() + 2) / 3) * 4 <= usize::MAX,
    ensures
        r@ == b64_encoded(bytes@),
        b64_decoded(r@) == Some(bytes@),
        r@.len() == ((bytes@.len() + 2) / 3) * 4,
{
    base64::engine::general_purpose::STANDARD.encode(bytes)
}

/// Relies on base64's `STANDARD` engine `decode`: deterministic in its
/// input, rejecting exactly the payloads that are not standard padded
/// base64.
#[verifier::external_body]
fn b64_decode(s: &str) -> (r: Result<Vec<u8>, base64::DecodeError>)
    ensures
        r matches Ok(v) ==> b64_decoded(s@) == Some(v@),
        r matches Err(_) ==> b64_decoded(s@) is None,
{
    base64::engine::general_purpose::STANDARD.decode(s)
}

/// The scheme-and-encoding prefix carried by a composite's data URL.
pub open spec fn data_url_prefix() -> Seq<char> {
    "data:image/png;base64,"@
}

fn data_url_prefix_str() -> (s: &'static str)
    ensures
        s@ == data_url_prefix(),
{
    "data:image/png;base64,"
}

/// A data URL with its prefix removed; a string without the prefix is
/// taken as a bare base64 payload and kept whole.
pub open spec fn strip_data_prefix(s: Seq<char>) -> Seq<char> {
    if s.len() >= data_url_prefix().len() && s.subrange(0, data_url_prefix().len() as int)
        == data_url_prefix() {
        s.subrange(data_url_prefix().len() as int, s.len() as int)
    } else {
        s
    }
}

/// Stripping the prefix from a string built as prefix-then-payload gives
/// the payload back.
pub proof fn lemma_strip_prefixed(q: Seq<char>)
    ensures
        strip_data_prefix(data_url_prefix() + q) == q,
{
    let p = data_url_prefix();
    let s = p + q;
    assert(s.subrange(0, p.len() as int) =~= p);
    assert(s.subrange(p.len() as int, s.len() as int) =~= q);
}

/// Remove the data-URL prefix where it is present.
fn strip_prefix_exec<'a>(s: &'a str) -> (t: &'a str)
    ensures
        t@ == strip_data_prefix(s@),
{
    let p: &'static str = data_url_prefix_str();
    let n: usize = s.unicode_len();
    let plen: usize = p.unicode_len();
    if n < plen {
        return s;
    }
    let mut i: usize = 0;
    while i < plen
        invariant
            i <= plen,
            n == s@.len(),
            plen == p@.len(),
            plen <= n,
            p@ == data_url_prefix(),
            forall|j: int| 0 <= j < i ==> s@[j] == p@[j],
        decreases plen - i,
    {
        if s.get_char(i) != p.get_char(i) {
            proof {
                assert(s@.subrange(0, plen as int)[i as int] != data_url_prefix()[i as int]);
            }
            return s;
        }
        i = i + 1;
    }
    proof {
        assert(s@.subrange(0, plen as int) =~= data_url_prefix());
    }
    s.substring_char(plen, n)
}

/// Build the data URL around already encoded PNG bytes: the prefix, then
/// the base64 payload, which decodes back to exactly these bytes.  Fails
/// only where the base64 text would not fit in memory.
pub fn data_url_from_png(png: &Vec<u8>) -> (r: Result<String, CodecError>)
    ensures
        r matches Ok(s) ==> s@ == data_url_prefix() + b64_encoded(png@),
        r matches Ok(s) ==> b64_decoded(strip_data_prefix(s@)) == Some(png@),
        r matches Err(e) ==> e == CodecError::EncodingFailure,
        png@.len() <= usize::MAX / 4 * 3 - 2 ==> r is Ok,
{
    if png.len() > usize::MAX / 4 * 3 - 2 {
        return Err(CodecError::EncodingFailure);
    }
    proof {
        let n = png@.len() as int;
        let q = usize::MAX as int / 4;
        assert(n + 2 <= 3 * q);
        vstd::arithmetic::div_mod::lemma_div_is_ordered(n + 2, 3 * q, 3);
        vstd::arithmetic::div_mod::lemma_div_multiples_vanish(q, 3);
        assert((n + 2) / 3 <= q);
    }
    let b64: String = b64_encode(png);
    let prefix: String = String::from_str(data_url_prefix_str());
    let out: String = prefix.concat(b64.as_str());
    proof {
        lemma_strip_prefixed(b64@);
    }
    Ok(out)
}

/// Encode a finished composite as a PNG data URL: the completion payload
/// of a session.
///
/// Success is owed whenever the PNG encoder accepts the raster and the
/// base64 text fits in memory, and a payload of the produced URL that
/// parses at all parses back to exactly the composite's pixels.
pub fn composite_to_data_url(c: &CompositeImage) -> (r: Result<String, CodecError>)
    requires
        c.wf(),
    ensures
        r matches Ok(s) ==> s@ == data_url_prefix() + b64_encoded(
            png_bytes(c@.width as u32, c@.height as u32, c@.data),
        ),
        r matches Ok(s) ==> b64_decoded(strip_data_prefix(s@)) == Some(
            png_bytes(c@.width as u32, c@.height as u32, c@.data),
        ),
        r matches Ok(s) ==> (parsed_image(s@) is Some ==> parsed_image(s@) == Some(
            (c@.width as u32, c@.height as u32, c@.data),
        )),
        r matches Err(e) ==> e == CodecError::EncodingFailure,
        png_encode_ok(c@.width as u32, c@.height as u32, c@.data) && png_bytes(
            c@.width as u32,
            c@.height as u32,
            c@.data,
        ).len() <= usize::MAX / 4 * 3 - 2 ==> r is Ok,
{
    match encode_png(c.raster.width, c.raster.height, &c.raster.data) {
        Ok(b) => data_url_from_png(&b),
        Err(_) => Err(CodecError::EncodingFailure),
    }
}

/// What parsing a data URL must give: strip the prefix, decode the
/// base64 payload, then decode the bytes as an image.
pub open spec fn parsed_image(s: Seq<char>) -> Option<(u32, u32, Seq<u8>)> {
    match b64_decoded(strip_data_prefix(s)) {
        Some(bytes) => decoded_image(bytes),
        None => None,
    }
}

/// The PNG byte payload of a data URL: what the file adapter writes to
/// disk.
pub fn data_url_payload(s: &str) -> (r: Result<Vec<u8>, CodecError>)
    ensures
        r matches Ok(v) ==> b64_decoded(strip_data_prefix(s@)) == Some(v@),
        r is Ok <==> b64_decoded(strip_data_prefix(s@)) is Some,
        r matches Err(e) ==> e == CodecError::Base64Failure,
{
    let body: &str = strip_prefix_exec(s);
    match b64_decode(body) {
        Ok(v) => Ok(v),
        Err(_) => Err(CodecError::Base64Failure),
    }
}

/// Decode a data URL back to a raster: the inverse edge used by the
/// clipboard adapter.
pub fn parse_data_url(s: &str) -> (r: Result<Raster, CodecError>)
    ensures
        r matches Ok(t) ==> t.wf() && parsed_image(s@) == Some((t.width, t.height, t.data@)),
        r is Ok <==> parsed_image(s@) is Some,
        r == Err::<Raster, CodecError>(CodecError::Base64Failure) <==> b64_decoded(
            strip_data_prefix(s@),
        ) is None,
        r == Err::<Raster, CodecError>(CodecError::ImageFailure) <==> (b64_decoded(
            strip_data_prefix(s@),
        ) is Some && parsed_image(s@) is None),
{
    let bytes: Vec<u8> = match data_url_payload(s) {
        Ok(v) => v,
        Err(_) => {
            return Err(CodecError::Base64Failure);
        },
    };
    match decode_image(&bytes) {
        Ok(t) => Ok(Raster { width: t.0, height: t.1, data: t.2 }),
        Err(_) => Err(CodecError::ImageFailure),
    }
}

} // verus!

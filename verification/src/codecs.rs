//! Trusted boundary to the outside image codecs.
//!
//! The QR symbol generation and the PNG/JPEG/SVG codecs are supplied by the
//! `qrcode-generator` and `image` crates. Each outside call sits behind one
//! wrapper whose contract names its result; everything downstream is verified
//! against those names.

use vstd::prelude::*;

verus! {

/// The error type of `qrcode_generator`, opaque to the verifier.
#[verifier::external_type_specification]
#[verifier::external_body]
pub struct ExQRCodeError(qrcode_generator::QRCodeError);

/// The error type of the `image` codecs, opaque to the verifier.
#[verifier::external_type_specification]
#[verifier::external_body]
pub struct ExImageError(image::ImageError);

/// The PNG rendering of `text` as a QR symbol at low error correction,
/// `size` pixels square; `None` where the generator or the codec fails.
pub uninterp spec fn qr_png_of(text: Seq<char>, size: usize) -> Option<Seq<u8>>;

/// The SVG document (as UTF-8 bytes) rendering `text` as a QR symbol at low
/// error correction, `size` units square; `None` where generation fails.
pub uninterp spec fn qr_svg_of(text: Seq<char>, size: usize) -> Option<Seq<u8>>;

/// The raw grayscale raster (row-major, one byte per pixel) rendering `text`
/// as a QR symbol at low error correction, `size` pixels square; `None`
/// where generation fails.
pub uninterp spec fn qr_raster_of(text: Seq<char>, size: usize) -> Option<Seq<u8>>;

/// The JPEG encoding, at the given quality, of a square grayscale raster of
/// side `side`; `None` where the codec rejects the raster.
pub uninterp spec fn jpeg_of(pixels: Seq<u8>, side: usize, quality: u8) -> Option<Seq<u8>>;

/// The eight-byte signature that opens every PNG stream.
pub open spec fn png_signature(s: Seq<u8>) -> bool {
    &&& s.len() >= 8
    &&& s[0] == 137u8
    &&& s[1] == 80u8
    &&& s[2] == 78u8
    &&& s[3] == 71u8
    &&& s[4] == 13u8
    &&& s[5] == 10u8
    &&& s[6] == 26u8
    &&& s[7] == 10u8
}

/// The two-byte start-of-image marker that opens every JPEG stream.
pub open spec fn jpeg_signature(s: Seq<u8>) -> bool {
    &&& s.len() >= 2
    &&& s[0] == 255u8
    &&& s[1] == 216u8
}

/// The bytes hold an `<svg` tag opener somewhere.
pub open spec fn contains_svg_tag(s: Seq<u8>) -> bool {
    exists|i: int|
        0 <= i && i + 4 <= s.len() && #[trigger] s[i] == 60u8 && s[i + 1] == 115u8 && s[i + 2]
            == 118u8 && s[i + 3] == 103u8
}

/// Relies on `qrcode_generator::to_png_to_vec_from_str`: renders the text as
/// a QR symbol at the low error-correction level and encodes it as a PNG of
/// `size` x `size` pixels. The result depends on the arguments alone, and a
/// successful stream opens with the PNG signature. The size bound keeps the
/// pixel buffer the call allocates modest.
#[verifier::external_body]
pub(crate) fn qr_png(text: &str, size: usize) -> (r: Result<Vec<u8>, qrcode_generator::QRCodeError>)
    requires
        1 <= size <= 4096,
    ensures
        r matches Ok(b) ==> qr_png_of(text@, size) == Some(b@) && png_signature(b@),
        r is Err ==> qr_png_of(text@, size) is None,
{
    qrcode_generator::to_png_to_vec_from_str(text, qrcode_generator::QrCodeEcc::Low, size)
}

/// Relies on `qrcode_generator::to_svg_to_string`: renders the text as a QR
/// symbol at the low error-correction level and writes an SVG document of
/// `size` x `size` units, with no custom description. The result depends on
/// the arguments alone, and a successful document holds an `<svg` tag.
#[verifier::external_body]
pub(crate) fn qr_svg(text: &str, size: usize) -> (r: Result<Vec<u8>, qrcode_generator::QRCodeError>)
    ensures
        r matches Ok(b) ==> qr_svg_of(text@, size) == Some(b@) && contains_svg_tag(b@),
        r is Err ==> qr_svg_of(text@, size) is None,
{
    qrcode_generator::to_svg_to_string(text, qrcode_generator::QrCodeEcc::Low, size, None::<&str>)
        .map(|s| s.into_bytes())
}

/// Relies on `qrcode_generator::to_image`: renders the text as a QR symbol at
/// the low error-correction level into a raw grayscale raster, row-major, one
/// byte per pixel, `size` x `size` pixels. The result depends on the
/// arguments alone. The size bound keeps the allocation modest.
#[verifier::external_body]
pub(crate) fn qr_raster(text: &str, size: usize) -> (r: Result<
    Vec<u8>,
    qrcode_generator::QRCodeError,
>)
    requires
        1 <= size <= 4096,
    ensures
        r matches Ok(p) ==> qr_raster_of(text@, size) == Some(p@) && p@.len() == size * size,
        r is Err ==> qr_raster_of(text@, size) is None,
{
    qrcode_generator::to_image(text, qrcode_generator::QrCodeEcc::Low, size)
}

/// Relies on `image::codecs::jpeg::JpegEncoder::new_with_quality` and
/// `JpegEncoder::encode`: compresses a square grayscale raster to JPEG at the
/// given quality. The result depends on the arguments alone, and a successful
/// stream opens with the JPEG start-of-image marker. `encode` panics when the
/// buffer length does not match the dimensions and rejects sides over 65535,
/// hence the preconditions.
#[verifier::external_body]
pub(crate) fn jpeg_encode_gray(pixels: &Vec<u8>, side: usize, quality: u8) -> (r: Result<
    Vec<u8>,
    image::ImageError,
>)
    requires
        pixels@.len() == side * side,
        1 <= side <= 65535,
    ensures
        r matches Ok(b) ==> jpeg_of(pixels@, side, quality) == Some(b@) && jpeg_signature(b@),
        r is Err ==> jpeg_of(pixels@, side, quality) is None,
{
    let mut bytes: Vec<u8> = Vec::new();
    let mut encoder = image::codecs::jpeg::JpegEncoder::new_with_quality(
        std::io::Cursor::new(&mut bytes),
        quality,
    );
    encoder.encode(pixels, side as u32, side as u32, image::ExtendedColorType::L8)?;
    Ok(bytes)
}

} // verus!

//! Format resolution and QR-code encoding.

use crate::codecs::{
    contains_svg_tag, jpeg_encode_gray, jpeg_of, jpeg_signature, png_signature, qr_png, qr_png_of,
    qr_raster, qr_raster_of, qr_svg, qr_svg_of,
};
use vstd::prelude::*;

verus! {

/// Side length, in pixels (or SVG units), of every rendered image. One
/// uniform size is a deliberate policy: every format and every request style
/// renders at 1024 units square.
pub const QR_RENDER_SIZE: usize = 1024;

/// Fixed quality of the JPEG re-encoding step.
pub const JPEG_QUALITY: u8 = 85;

/// The closed set of output formats. `INVALID` is a sentinel for an
/// unrecognized format token, never a true output format.
#[derive(Clone, Copy, Debug, PartialEq, Eq, Structural)]
pub enum QrCodeFormat {
    INVALID,
    JPG,
    PNG,
    SVG,
}

/// A single encoding request: the text to encode and the resolved format.
#[derive(Clone)]
pub struct QrCodePayload {
    pub text: String,
    pub format: QrCodeFormat,
}

/// How an encoding request fails. Resolution failures and codec failures stay
/// distinguishable so the caller can pick the right response status.
#[derive(Clone, Copy, Debug, PartialEq, Eq, Structural)]
pub enum QrError {
    /// The resolved format was the `INVALID` sentinel.
    UnsupportedFormat,
    /// The QR symbol generator or an image codec failed.
    Encoding,
}

/// A successfully encoded image together with its MIME type.
pub struct EncodedImage {
    pub bytes: Vec<u8>,
    pub mime_type: &'static str,
}

/// Spec-level mapping from a format token to a format.
pub open spec fn resolve_format_spec(token: Seq<char>) -> QrCodeFormat {
    if token == "png"@ {
        QrCodeFormat::PNG
    } else if token == "jpg"@ || token == "jpeg"@ {
        QrCodeFormat::JPG
    } else if token == "svg"@ {
        QrCodeFormat::SVG
    } else {
        QrCodeFormat::INVALID
    }
}

/// Map a format token to a format. Unrecognized tokens (including
/// `"default"` and the empty string) map to `INVALID`; resolution never fails.
pub fn resolve_format(token: &str) -> (r: QrCodeFormat)
    ensures
        r == resolve_format_spec(token@),
{
    if crate::str_eq(token, "png") {
        QrCodeFormat::PNG
    } else if crate::str_eq(token, "jpg") || crate::str_eq(token, "jpeg") {
        QrCodeFormat::JPG
    } else if crate::str_eq(token, "svg") {
        QrCodeFormat::SVG
    } else {
        QrCodeFormat::INVALID
    }
}

/// The MIME type of each true output format. The SVG case deliberately uses
/// `image/svg` rather than the standard `image/svg+xml`, for compatibility
/// with existing callers.
pub open spec fn mime_of(format: QrCodeFormat) -> Seq<char> {
    match format {
        QrCodeFormat::PNG => "image/png"@,
        QrCodeFormat::JPG => "image/jpeg"@,
        QrCodeFormat::SVG => "image/svg"@,
        QrCodeFormat::INVALID => Seq::<char>::empty(),
    }
}

impl QrCodeFormat {
    /// The MIME type matching this format; `None` for the `INVALID` sentinel.
    pub fn mime_type(&self) -> (r: Option<&'static str>)
        ensures
            r matches Some(m) ==> m@ == mime_of(*self),
            r is None <==> *self is INVALID,
    {
        match self {
            QrCodeFormat::PNG => Some("image/png"),
            QrCodeFormat::JPG => Some("image/jpeg"),
            QrCodeFormat::SVG => Some("image/svg"),
            QrCodeFormat::INVALID => None,
        }
    }
}

/// What encoding returns, as a function of the text and the format alone:
/// the bytes of the rendered image, or the classified failure.
pub open spec fn encode_result(text: Seq<char>, format: QrCodeFormat) -> Result<Seq<u8>, QrError> {
    match format {
        QrCodeFormat::PNG => match qr_png_of(text, QR_RENDER_SIZE) {
            Some(b) => Ok(b),
            None => Err(QrError::Encoding),
        },
        QrCodeFormat::SVG => match qr_svg_of(text, QR_RENDER_SIZE) {
            Some(b) => Ok(b),
            None => Err(QrError::Encoding),
        },
        QrCodeFormat::JPG => match qr_raster_of(text, QR_RENDER_SIZE) {
            Some(p) => match jpeg_of(p, QR_RENDER_SIZE, JPEG_QUALITY) {
                Some(b) => Ok(b),
                None => Err(QrError::Encoding),
            },
            None => Err(QrError::Encoding),
        },
        QrCodeFormat::INVALID => Err(QrError::UnsupportedFormat),
    }
}

/// The bytes of an encoding result, at the spec level.
pub open spec fn result_bytes(r: Result<Vec<u8>, QrError>) -> Result<Seq<u8>, QrError> {
    match r {
        Ok(b) => Ok(b@),
        Err(e) => Err(e),
    }
}

/// Encode the payload's text as a QR symbol in the payload's format, at the
/// low error-correction level and `QR_RENDER_SIZE` pixels square. The JPEG
/// path renders an intermediate grayscale raster and re-encodes it at quality
/// `JPEG_QUALITY`, since the symbol generator has no native JPEG emitter.
/// The `INVALID` sentinel is rejected without any encoding work.
pub fn generate_qrcode(payload: QrCodePayload) -> (r: Result<Vec<u8>, QrError>)
    ensures
        result_bytes(r) == encode_result(payload.text@, payload.format),
        r == Err::<Vec<u8>, QrError>(QrError::UnsupportedFormat) <==> payload.format is INVALID,
        r matches Ok(b) ==> b@.len() > 0,
        r matches Ok(b) ==> (payload.format is PNG ==> png_signature(b@)),
        r matches Ok(b) ==> (payload.format is JPG ==> jpeg_signature(b@)),
        r matches Ok(b) ==> (payload.format is SVG ==> contains_svg_tag(b@)),
{
    match payload.format {
        QrCodeFormat::PNG => match qr_png(payload.text.as_str(), QR_RENDER_SIZE) {
            Ok(b) => Ok(b),
            Err(_) => Err(QrError::Encoding),
        },
        QrCodeFormat::SVG => match qr_svg(payload.text.as_str(), QR_RENDER_SIZE) {
            Ok(b) => Ok(b),
            Err(_) => Err(QrError::Encoding),
        },
        QrCodeFormat::JPG => match qr_raster(payload.text.as_str(), QR_RENDER_SIZE) {
            Ok(pixels) => match jpeg_encode_gray(&pixels, QR_RENDER_SIZE, JPEG_QUALITY) {
                Ok(b) => Ok(b),
                Err(_) => Err(QrError::Encoding),
            },
            Err(_) => Err(QrError::Encoding),
        },
        QrCodeFormat::INVALID => Err(QrError::UnsupportedFormat),
    }
}

/// What the request handler returns for a text and a raw format token: the
/// image bytes with their MIME type, or the classified failure.
pub open spec fn handle_result(text: Seq<char>, token: Seq<char>) -> Result<
    (Seq<u8>, Seq<char>),
    QrError,
> {
    let format = resolve_format_spec(token);
    match encode_result(text, format) {
        Ok(b) => Ok((b, mime_of(format))),
        Err(e) => Err(e),
    }
}

/// The view of a handler result, at the spec level.
pub open spec fn image_view(r: Result<EncodedImage, QrError>) -> Result<
    (Seq<u8>, Seq<char>),
    QrError,
> {
    match r {
        Ok(img) => Ok((img.bytes@, img.mime_type@)),
        Err(e) => Err(e),
    }
}

/// Serve one request: resolve the format token, reject unresolvable tokens
/// before any encoding work begins, and otherwise encode the text and pair
/// the bytes with their MIME type.
pub fn handle_get_qrcode_format(text: &str, format_token: &str) -> (r: Result<
    EncodedImage,
    QrError,
>)
    ensures
        image_view(r) == handle_result(text@, format_token@),
        r == Err::<EncodedImage, QrError>(QrError::UnsupportedFormat) <==> resolve_format_spec(
            format_token@,
        ) is INVALID,
        r matches Ok(img) ==> img.bytes@.len() > 0 && img.mime_type@ == mime_of(
            resolve_format_spec(format_token@),
        ),
{
    let format = resolve_format(format_token);
    if matches!(format, QrCodeFormat::INVALID) {
        return Err(QrError::UnsupportedFormat);
    }
    let payload = QrCodePayload { text: text.to_owned(), format };
    let bytes = match generate_qrcode(payload) {
        Ok(b) => b,
        Err(e) => {
            return Err(e);
        },
    };
    match format.mime_type() {
        Some(mime) => Ok(EncodedImage { bytes, mime_type: mime }),
        None => {
            // Unreachable: the sentinel was rejected before any encoding work.
            proof {
                assert(false);
            }
            Err(QrError::UnsupportedFormat)
        },
    }
}

/// Law: each supported token resolves to its format, and every other token,
/// the empty string and `"default"` included, resolves to `INVALID`.
pub proof fn lemma_format_resolution(token: Seq<char>)
    ensures
        token == "png"@ ==> resolve_format_spec(token) is PNG,
        token == "jpg"@ ==> resolve_format_spec(token) is JPG,
        token == "jpeg"@ ==> resolve_format_spec(token) is JPG,
        token == "svg"@ ==> resolve_format_spec(token) is SVG,
        token != "png"@ && token != "jpg"@ && token != "jpeg"@ && token != "svg"@
            ==> resolve_format_spec(token) is INVALID,
{
    reveal_strlit("png");
    reveal_strlit("jpg");
    reveal_strlit("jpeg");
    reveal_strlit("svg");
    assert("png"@.len() == 3 && "jpg"@.len() == 3 && "svg"@.len() == 3 && "jpeg"@.len() == 4);
    assert("png"@[0] == 'p' && "jpg"@[0] == 'j' && "svg"@[0] == 's');
}

/// Law: encoding depends on the text and the format alone, so encoding the
/// same pair twice yields identical results, byte for byte.
pub proof fn lemma_encoding_deterministic(a: QrCodePayload, b: QrCodePayload)
    requires
        a.text@ == b.text@,
        a.format == b.format,
    ensures
        encode_result(a.text@, a.format) == encode_result(b.text@, b.format),
{
}

/// Law: a token that resolves to `INVALID` short-circuits the handler to the
/// format error, whatever the text; no encoding result is ever produced.
pub proof fn lemma_invalid_short_circuit(text: Seq<char>, token: Seq<char>)
    requires
        resolve_format_spec(token) is INVALID,
    ensures
        handle_result(text, token) == Err::<(Seq<u8>, Seq<char>), QrError>(
            QrError::UnsupportedFormat,
        ),
{
}

/// Law: a successful handler result carries exactly the MIME type matching
/// the resolved format.
pub proof fn lemma_success_mime(text: Seq<char>, token: Seq<char>)
    ensures
        handle_result(text, token) matches Ok(img) ==> img.1 == mime_of(
            resolve_format_spec(token),
        ),
{
}

} // verus!

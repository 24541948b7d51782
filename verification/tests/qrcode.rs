use qrcode_service::qrcode::{
    generate_qrcode, handle_get_qrcode_format, resolve_format, QrCodeFormat, QrCodePayload,
    QrError,
};

fn payload(text: &str, format: QrCodeFormat) -> QrCodePayload {
    QrCodePayload { text: text.to_string(), format }
}

#[test]
fn resolves_png() {
    assert!(matches!(resolve_format("png"), QrCodeFormat::PNG));
}

#[test]
fn resolves_jpg() {
    assert!(matches!(resolve_format("jpg"), QrCodeFormat::JPG));
}

#[test]
fn resolves_jpeg() {
    assert!(matches!(resolve_format("jpeg"), QrCodeFormat::JPG));
}

#[test]
fn resolves_svg() {
    assert!(matches!(resolve_format("svg"), QrCodeFormat::SVG));
}

#[test]
fn unknown_tokens_resolve_to_invalid() {
    assert!(matches!(resolve_format("bmp"), QrCodeFormat::INVALID));
    assert!(matches!(resolve_format(""), QrCodeFormat::INVALID));
    assert!(matches!(resolve_format("default"), QrCodeFormat::INVALID));
    assert!(matches!(resolve_format("PNG"), QrCodeFormat::INVALID));
    assert!(matches!(resolve_format("png "), QrCodeFormat::INVALID));
}

#[test]
fn png_bytes_start_with_png_magic() {
    let bytes = generate_qrcode(payload("hello", QrCodeFormat::PNG)).unwrap();
    assert!(bytes.len() > 8);
    assert_eq!(&bytes[0..4], &[0x89, 0x50, 0x4e, 0x47]);
    assert_eq!(&bytes[4..8], &[0x0d, 0x0a, 0x1a, 0x0a]);
}

#[test]
fn jpg_bytes_start_with_jpeg_magic() {
    let bytes = generate_qrcode(payload("hello", QrCodeFormat::JPG)).unwrap();
    assert!(bytes.len() > 2);
    assert_eq!(&bytes[0..2], &[0xff, 0xd8]);
}

#[test]
fn svg_bytes_contain_svg_tag() {
    let bytes = generate_qrcode(payload("hello", QrCodeFormat::SVG)).unwrap();
    let document = String::from_utf8(bytes).unwrap();
    assert!(document.contains("<svg"));
    assert!(document.contains("</svg>"));
}

#[test]
fn png_decodes_to_square_image() {
    let bytes = generate_qrcode(payload("hello", QrCodeFormat::PNG)).unwrap();
    let img = image::load_from_memory(&bytes).unwrap();
    assert_eq!(img.width(), img.height());
    assert_eq!(img.width(), 1024);
}

#[test]
fn jpg_decodes_to_square_image() {
    let bytes = generate_qrcode(payload("hello", QrCodeFormat::JPG)).unwrap();
    let img = image::load_from_memory(&bytes).unwrap();
    assert_eq!(img.width(), img.height());
    assert_eq!(img.width(), 1024);
}

#[test]
fn encoding_is_idempotent() {
    for format in [QrCodeFormat::PNG, QrCodeFormat::JPG, QrCodeFormat::SVG] {
        let first = generate_qrcode(payload("hello world", format)).unwrap();
        let second = generate_qrcode(payload("hello world", format)).unwrap();
        assert_eq!(first, second);
    }
}

#[test]
fn invalid_format_is_rejected_by_encoder() {
    let result = generate_qrcode(payload("hello", QrCodeFormat::INVALID));
    assert_eq!(result, Err(QrError::UnsupportedFormat));
}

#[test]
fn oversized_text_yields_encoding_error() {
    // The largest QR symbol at low error correction holds 2953 bytes.
    let text: String = "x".repeat(5000);
    let result = generate_qrcode(payload(&text, QrCodeFormat::PNG));
    assert_eq!(result, Err(QrError::Encoding));
}

#[test]
fn handler_returns_png_with_mime_type() {
    let img = handle_get_qrcode_format("hello", "png").unwrap();
    assert_eq!(img.mime_type, "image/png");
    assert_eq!(&img.bytes[0..4], &[0x89, 0x50, 0x4e, 0x47]);
}

#[test]
fn handler_returns_jpeg_with_mime_type() {
    let img = handle_get_qrcode_format("hello", "jpeg").unwrap();
    assert_eq!(img.mime_type, "image/jpeg");
    assert_eq!(&img.bytes[0..2], &[0xff, 0xd8]);
}

#[test]
fn handler_returns_svg_with_mime_type() {
    let img = handle_get_qrcode_format("hello", "svg").unwrap();
    assert_eq!(img.mime_type, "image/svg");
    assert!(String::from_utf8(img.bytes).unwrap().contains("<svg"));
}

#[test]
fn handler_rejects_bmp_before_encoding() {
    let result = handle_get_qrcode_format("hello", "bmp");
    assert!(matches!(result, Err(QrError::UnsupportedFormat)));
}

#[test]
fn handler_rejects_default_token() {
    let result = handle_get_qrcode_format("hello", "default");
    assert!(matches!(result, Err(QrError::UnsupportedFormat)));
}

#[test]
fn mime_types_match_formats() {
    assert_eq!(QrCodeFormat::PNG.mime_type(), Some("image/png"));
    assert_eq!(QrCodeFormat::JPG.mime_type(), Some("image/jpeg"));
    assert_eq!(QrCodeFormat::SVG.mime_type(), Some("image/svg"));
    assert_eq!(QrCodeFormat::INVALID.mime_type(), None);
}

#[test]
fn distinct_texts_encode_to_distinct_images() {
    let first = generate_qrcode(payload("hello", QrCodeFormat::PNG)).unwrap();
    let second = generate_qrcode(payload("goodbye", QrCodeFormat::PNG)).unwrap();
    assert_ne!(first, second);
}

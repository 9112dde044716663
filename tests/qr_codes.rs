use tapfer::qrcode::{base64_qr_from_id, qr_from_id, qr_link, random_base64_qr_from_id, render_modules, tiny_qr_from_id};
use tapfer::tapfer_id::TapferId;

fn sample() -> TapferId {
    TapferId::from_id(0x67e5504410b1426f9247bb680e5fe0c8)
}

#[test]
fn qr_link_is_upper_case_page_url() {
    assert_eq!(qr_link(sample(), "tapfer.example"), "TAPFER.EXAMPLE/UPLOADS/67E55044-10B1-426F-9247-BB680E5FE0C8");
}

#[test]
fn qr_png_is_a_png_image() {
    let png = qr_from_id(sample(), "localhost:3000").unwrap();
    assert_eq!(&png[..8], &[0x89, b'P', b'N', b'G', 0x0d, 0x0a, 0x1a, 0x0a]);
}

#[test]
fn qr_base64_encodes_the_png() {
    let b64 = base64_qr_from_id(sample(), "localhost:3000").unwrap();
    assert!(b64.starts_with("iVBORw0KGgo"));
    assert_eq!(b64.len() % 4, 0);
    assert!(random_base64_qr_from_id("localhost:3000").unwrap().starts_with("iVBORw0KGgo"));
}

#[test]
fn half_block_rendering_of_a_small_matrix() {
    let m = vec![vec![true, false], vec![false, true]];
    let text: String = render_modules(m).into_iter().collect();
    assert_eq!(text, "\u{2588}\u{2580}\u{2588}\u{2588}\n\u{2588}\u{2588}\u{2588}\u{2588}");
}

#[test]
fn half_block_rendering_drops_an_unpaired_last_row() {
    let m = vec![vec![false, false, true], vec![true, true, true], vec![false, true, false]];
    let text: String = render_modules(m).into_iter().collect();
    let lines: Vec<&str> = text.split('\n').collect();
    assert_eq!(lines.len(), 3);
    assert_eq!(lines[0], "\u{2588}\u{2588}\u{2588}\u{2580}\u{2588}");
    assert_eq!(lines[1], "\u{2588}\u{2584} \u{2584}\u{2588}");
    assert_eq!(lines[2], "\u{2588}\u{2588}\u{2588}\u{2588}\u{2588}");
}

#[test]
fn tiny_qr_has_bordered_lines() {
    let text = tiny_qr_from_id(sample(), "localhost:3000").unwrap();
    let lines: Vec<&str> = text.split('\n').collect();
    let width = lines[0].chars().count();
    assert!(width > 20);
    for line in &lines {
        assert_eq!(line.chars().count(), width);
        assert!(line.starts_with('\u{2588}'));
        assert!(line.ends_with('\u{2588}'));
    }
    assert!(lines.last().unwrap().chars().all(|c| c == '\u{2588}'));
}

#[test]
fn qr_of_any_text() {
    use_png(&tapfer::qrcode::png_qr("https://localhost:3000?deposit=7").unwrap());
    assert!(tapfer::qrcode::base64_png_qr("https://localhost:3000?deposit=7").unwrap().starts_with("iVBORw0KGgo"));
}

fn use_png(png: &[u8]) {
    assert_eq!(&png[1..4], b"PNG");
}

#[test]
fn text_too_long_for_a_qr_code() {
    let long = "A".repeat(8000);
    assert!(matches!(tapfer::qrcode::png_qr(&long), Err(tapfer::error::TapferError::QrCode)));
    assert!(matches!(tapfer::qrcode::base64_png_qr(&long), Err(tapfer::error::TapferError::QrCode)));
    let host = "h".repeat(8000);
    assert!(matches!(tiny_qr_from_id(sample(), &host), Err(tapfer::error::TapferError::QrCode)));
}

#[test]
fn base64_text_is_the_standard_encoding_of_the_png() {
    use_png(&decode_standard(&tapfer::qrcode::base64_png_qr("abc").unwrap()));
    let png = tapfer::qrcode::png_qr("abc").unwrap();
    assert_eq!(decode_standard(&tapfer::qrcode::base64_png_qr("abc").unwrap()), png);
}

fn decode_standard(text: &str) -> Vec<u8> {
    base64::Engine::decode(&base64::engine::general_purpose::STANDARD, text).unwrap()
}

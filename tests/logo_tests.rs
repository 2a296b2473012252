use headset_battery_indicator::toast::{pad_to_square, square_logo_png};
use image::ImageEncoder;

fn encode(w: u32, h: u32, rgba: &[u8]) -> Vec<u8> {
    let mut out = Vec::new();
    image::codecs::png::PngEncoder::new(&mut out)
        .write_image(rgba, w, h, image::ExtendedColorType::Rgba8)
        .unwrap();
    out
}

#[test]
fn pad_wide_picture() {
    let px: Vec<u8> = (1..=16).collect();
    let sq = pad_to_square(4, 1, &px);
    assert_eq!(sq.len(), 64);
    let mut expected = vec![0u8; 64];
    expected[16..32].copy_from_slice(&px);
    assert_eq!(sq, expected);
}

#[test]
fn pad_tall_picture() {
    let px: Vec<u8> = (1..=24).collect();
    let sq = pad_to_square(1, 3, &px[..12].to_vec());
    assert_eq!(sq.len(), 36);
    let mut expected = vec![0u8; 36];
    expected[4..8].copy_from_slice(&px[0..4]);
    expected[16..20].copy_from_slice(&px[4..8]);
    expected[28..32].copy_from_slice(&px[8..12]);
    assert_eq!(sq, expected);
}

#[test]
fn square_logo_from_png() {
    let px: Vec<u8> = (0..(5 * 2 * 4)).map(|i| (i * 3 + 1) as u8).collect();
    let png = encode(5, 2, &px);
    let logo = square_logo_png(&png).unwrap();
    let img = image::load_from_memory_with_format(&logo, image::ImageFormat::Png)
        .unwrap()
        .to_rgba8();
    assert_eq!(img.dimensions(), (5, 5));
    assert_eq!(img.get_pixel(0, 0).0, [0, 0, 0, 0]);
    assert_eq!(img.get_pixel(0, 1).0, [px[0], px[1], px[2], px[3]]);
    assert_eq!(img.get_pixel(4, 2).0, [px[36], px[37], px[38], px[39]]);
    assert_eq!(img.get_pixel(2, 3).0, [0, 0, 0, 0]);
}

#[test]
fn square_logo_rejects_garbage() {
    assert!(square_logo_png(b"not a png").is_none());
    assert!(square_logo_png(&[]).is_none());
}

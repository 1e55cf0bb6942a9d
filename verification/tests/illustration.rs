use phirlie::illustration::palette_fits;
use image::{ImageFormat, Rgb, RgbImage};
use phirlie::illustration::LoadError;
use phirlie::loading::LoadingScene;
use std::io::Cursor;

fn png_of(img: RgbImage) -> Vec<u8> {
    let mut bytes: Vec<u8> = Vec::new();
    img.write_to(&mut Cursor::new(&mut bytes), ImageFormat::Png).unwrap();
    bytes
}

#[test]
fn load_decodes_and_picks_theme() {
    let bytes = png_of(RgbImage::from_pixel(4, 3, Rgb([200, 30, 40])));
    let loaded = LoadingScene::load(&bytes).unwrap();
    assert_eq!(loaded.width, 4);
    assert_eq!(loaded.height, 3);
    assert_eq!(loaded.rgb.len(), 4 * 3 * 3);
    assert_eq!(loaded.rgba.len(), 4 * 3 * 4);
    assert_eq!(&loaded.rgb[0..3], &[200, 30, 40]);
    assert_eq!(&loaded.rgba[0..4], &[200, 30, 40, 255]);
    let px = loaded.background_pixels();
    assert_eq!(px.len(), 12);
    assert!(px.iter().all(|p| *p == [200, 30, 40]));
    // The palette quantizes to 5 bits per channel; the theme is close to the color.
    let t = loaded.theme;
    assert!((t.r as i32 - 200).abs() <= 8, "{t:?}");
    assert!((t.g as i32 - 30).abs() <= 8, "{t:?}");
    assert!((t.b as i32 - 40).abs() <= 8, "{t:?}");
}

#[test]
fn load_rejects_garbage() {
    assert_eq!(LoadingScene::load(b"not an image").err(), Some(LoadError::Decode));
    assert_eq!(LoadingScene::load(&[]).err(), Some(LoadError::Decode));
}

#[test]
fn load_of_white_image_is_white() {
    let bytes = png_of(RgbImage::from_pixel(8, 8, Rgb([255, 255, 255])));
    let loaded = LoadingScene::load(&bytes).unwrap();
    assert_eq!(loaded.theme, phirlie::pixels::ThemeColor::white());
}

fn decoded() -> phirlie::illustration::DecodedImage {
    phirlie::illustration::DecodedImage {
        width: 1,
        height: 1,
        rgb: vec![1, 2, 3],
        rgba: vec![1, 2, 3, 255],
    }
}

#[test]
fn palette_failure_fails_load() {
    let r = phirlie::illustration::LoadedIllustration::from_decoded(decoded(), Err(color_thief::Error::VBoxCutFailed));
    assert_eq!(r.err(), Some(LoadError::Palette));
}

#[test]
fn theme_is_first_palette_color() {
    let r = phirlie::illustration::LoadedIllustration::from_decoded(decoded(), Ok(vec![(9, 8, 7), (1, 1, 1)]))
        .unwrap();
    assert_eq!(r.theme, phirlie::pixels::ThemeColor { r: 9, g: 8, b: 7 });
    assert_eq!(r.rgb, vec![1, 2, 3]);
    assert_eq!(r.rgba, vec![1, 2, 3, 255]);
}

#[test]
fn palette_size_bound() {
    // 8,521,760 samples of 30 pixels: the last byte count still accepted.
    assert!(palette_fits(766_958_402));
    assert!(!palette_fits(766_958_403));
    assert!(palette_fits(0));
    assert!(palette_fits(800_000_000 / 2));
}

use phirlie::pixels::{pixels_to_rgba, rgb_pixels, use_black_text, ThemeColor};

#[test]
fn white_theme_uses_black_text() {
    assert!(use_black_text(ThemeColor::white()));
}

#[test]
fn luminance_threshold() {
    // 0.299 r + 0.587 g + 0.114 b must exceed 186.
    assert!(!use_black_text(ThemeColor { r: 186, g: 186, b: 186 }));
    assert!(use_black_text(ThemeColor { r: 187, g: 187, b: 187 }));
    assert!(!use_black_text(ThemeColor { r: 255, g: 0, b: 0 }));
    assert!(!use_black_text(ThemeColor { r: 0, g: 0, b: 0 }));
    // 0.299 * 255 + 0.587 * 255 = 225.93
    assert!(use_black_text(ThemeColor { r: 255, g: 255, b: 0 }));
}

#[test]
fn rgb_split_into_pixels() {
    let px = rgb_pixels(&[1, 2, 3, 4, 5, 6, 7], 2);
    assert_eq!(px, vec![[1, 2, 3], [4, 5, 6]]);
    assert_eq!(rgb_pixels(&[1, 2, 3, 4, 5, 6, 7], 1), vec![[1, 2, 3]]);
    assert!(rgb_pixels(&[], 0).is_empty());
}

#[test]
fn pixels_packed_opaque() {
    let rgba = pixels_to_rgba(&[[1, 2, 3], [4, 5, 6]]);
    assert_eq!(rgba, vec![1, 2, 3, 255, 4, 5, 6, 255]);
}

#[test]
fn rgb_to_rgba_round() {
    let rgb = [10u8, 20, 30, 40, 50, 60];
    assert_eq!(pixels_to_rgba(&rgb_pixels(&rgb, 2)), vec![10, 20, 30, 255, 40, 50, 60, 255]);
}

#[test]
fn single_precision_threshold_colors() {
    // Exactly at 186/255, where f32 rounding decides: black for these.
    assert!(use_black_text(ThemeColor { r: 70, g: 248, b: 171 }));
    assert!(use_black_text(ThemeColor { r: 78, g: 228, b: 253 }));
    assert!(use_black_text(ThemeColor { r: 253, g: 161, b: 139 }));
    // Also exactly at the threshold, but f32 keeps it below: white.
    assert!(!use_black_text(ThemeColor { r: 186, g: 186, b: 186 }));
}

#[test]
fn agrees_with_single_precision_near_threshold() {
    let (c299, c587, c114) = (0.299f32, 0.587f32, 0.114f32);
    let thr = 186f32 / 255f32;
    for r in 0..=255u8 {
        for g in 0..=255u8 {
            for b in 0..=255u8 {
                let luma = 299 * r as i32 + 587 * g as i32 + 114 * b as i32;
                if (luma - 186000).abs() > 2000 {
                    continue;
                }
                let (rf, gf, bf) = (r as f32 / 255., g as f32 / 255., b as f32 / 255.);
                let float = rf * c299 + gf * c587 + bf * c114 > thr;
                assert_eq!(use_black_text(ThemeColor { r, g, b }), float, "{r} {g} {b}");
            }
        }
    }
}

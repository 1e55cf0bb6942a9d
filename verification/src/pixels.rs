//! Colors and pixel buffers of a chart illustration.

use vstd::prelude::*;

verus! {

/// An opaque color with 8-bit channels.
#[derive(Clone, Copy, Debug, PartialEq, Eq, Structural)]
pub struct ThemeColor {
    pub r: u8,
    pub g: u8,
    pub b: u8,
}

impl ThemeColor {
    /// Opaque white, the theme color of a chart whose illustration could not be loaded.
    pub fn white() -> (c: ThemeColor)
        ensures
            c == (ThemeColor { r: 255, g: 255, b: 255 }),
    {
        ThemeColor { r: 255, g: 255, b: 255 }
    }
}

/// Perceived brightness of a color, in thousandths of a channel step:
/// `0.299 r + 0.587 g + 0.114 b`, scaled by 1000.
pub open spec fn luminance_milli(c: ThemeColor) -> int {
    299 * c.r + 587 * c.g + 114 * c.b
}

/// The colors whose brightness is exactly 186 of 255 but for which the
/// single-precision evaluation of `0.299 r / 255 + 0.587 g / 255 + 0.114 b / 255`
/// rounds above `186 / 255` (as computed in `f32`, constants and divisions
/// included). For every other color the `f32` comparison agrees with the exact one.
pub open spec fn rounds_above_threshold(c: ThemeColor) -> bool {
    ||| (c.r == 70 && c.g == 248 && c.b == 171)
    ||| (c.r == 78 && c.g == 228 && c.b == 253)
    ||| (c.r == 100 && c.g == 230 && c.b == 185)
    ||| (c.r == 118 && c.g == 242 && c.b == 76)
    ||| (c.r == 126 && c.g == 222 && c.b == 158)
    ||| (c.r == 141 && c.g == 213 && c.b == 165)
    ||| (c.r == 144 && c.g == 234 && c.b == 49)
    ||| (c.r == 167 && c.g == 205 && c.b == 138)
    ||| (c.r == 185 && c.g == 217 && c.b == 29)
    ||| (c.r == 200 && c.g == 208 && c.b == 36)
    ||| (c.r == 208 && c.g == 188 && c.b == 118)
    ||| (c.r == 226 && c.g == 200 && c.b == 9)
    ||| (c.r == 235 && c.g == 149 && c.b == 248)
    ||| (c.r == 242 && c.g == 160 && c.b == 173)
    ||| (c.r == 253 && c.g == 161 && c.b == 139)
}

/// Whether text drawn over the theme color should be black rather than white:
/// the case when the color's brightness, evaluated in single precision,
/// exceeds 186 of 255. That is the exact comparison, except for the few colors
/// exactly at the threshold that `f32` rounding puts above it.
pub open spec fn spec_use_black_text(c: ThemeColor) -> bool {
    luminance_milli(c) > 186000 || (luminance_milli(c) == 186000 && rounds_above_threshold(c))
}

/// Black text exactly above the brightness threshold and white text below it;
/// at the threshold itself, black only where single-precision rounding puts
/// the brightness above it.
pub proof fn law_black_text_threshold(c: ThemeColor)
    ensures
        299 * c.r + 587 * c.g + 114 * c.b > 186000 ==> spec_use_black_text(c),
        299 * c.r + 587 * c.g + 114 * c.b < 186000 ==> !spec_use_black_text(c),
        299 * c.r + 587 * c.g + 114 * c.b == 186000 ==> (spec_use_black_text(c)
            <==> rounds_above_threshold(c)),
{
}

/// Whether text over the theme color `c` should be black: true exactly when
/// `0.299 r / 255 + 0.587 g / 255 + 0.114 b / 255 > 186 / 255` in `f32`.
pub fn use_black_text(c: ThemeColor) -> (r: bool)
    ensures
        r == spec_use_black_text(c),
{
    let lum: u32 = 299 * (c.r as u32) + 587 * (c.g as u32) + 114 * (c.b as u32);
    if lum != 186000 {
        return lum > 186000;
    }
    match (c.r, c.g, c.b) {
        (70, 248, 171) | (78, 228, 253) | (100, 230, 185) | (118, 242, 76) | (126, 222, 158)
        | (141, 213, 165) | (144, 234, 49) | (167, 205, 138) | (185, 217, 29) | (200, 208, 36)
        | (208, 188, 118) | (226, 200, 9) | (235, 149, 248) | (242, 160, 173) | (253, 161, 139) => true,
        _ => false,
    }
}

/// `px` are the first `count` pixels of the packed RGB buffer `rgb`, in order.
pub open spec fn is_pixels_of(px: Seq<[u8; 3]>, rgb: Seq<u8>, count: nat) -> bool {
    &&& px.len() == count
    &&& forall|i: int, k: int| 0 <= i < px.len() && 0 <= k < 3 ==> #[trigger] px[i]@[k] == rgb[3 * i + k]
}

/// `rgba` is the packed RGBA buffer of the pixels `px`, each made fully opaque.
pub open spec fn is_opaque_rgba_of(rgba: Seq<u8>, px: Seq<[u8; 3]>) -> bool {
    &&& rgba.len() == 4 * px.len()
    &&& forall|i: int, k: int| 0 <= i < px.len() && 0 <= k < 3 ==> #[trigger] rgba[4 * i + k] == px[i]@[k]
    &&& forall|i: int| 0 <= i < px.len() ==> #[trigger] rgba[4 * i + 3] == 255
}

/// `rgba` holds the first `count` pixels of the packed RGB buffer `rgb`, each
/// followed by an opaque alpha byte.
pub open spec fn is_opaque_rgba_of_rgb(rgba: Seq<u8>, rgb: Seq<u8>, count: nat) -> bool {
    &&& rgba.len() == 4 * count
    &&& forall|i: int, k: int|
        0 <= i < count && 0 <= k < 3 ==> #[trigger] rgba[4 * i + k] == rgb[3 * i + k]
    &&& forall|i: int| 0 <= i < count ==> #[trigger] rgba[4 * i + 3] == 255
}

/// Splitting an RGB buffer into `count` pixels and packing them again with
/// alpha gives those pixels' bytes with an opaque alpha byte after each, four
/// bytes per pixel: the buffer that the blurred background is uploaded from.
pub proof fn law_rgba_of_rgb_pixels(rgb: Seq<u8>, count: nat, px: Seq<[u8; 3]>, rgba: Seq<u8>)
    requires
        is_pixels_of(px, rgb, count),
        is_opaque_rgba_of(rgba, px),
    ensures
        is_opaque_rgba_of_rgb(rgba, rgb, count),
{
    assert forall|i: int, k: int| 0 <= i < count && 0 <= k < 3 implies #[trigger] rgba[4 * i + k]
        == rgb[3 * i + k] by {
        assert(px[i]@[k] == rgb[3 * i + k]);
    }
}

/// The first `count` pixels of a packed RGB buffer: pixel `i` is bytes `3i`,
/// `3i + 1`, `3i + 2`.
pub fn rgb_pixels(rgb: &[u8], count: usize) -> (px: Vec<[u8; 3]>)
    requires
        3 * count <= rgb.len(),
    ensures
        is_pixels_of(px@, rgb@, count as nat),
{
    let mut px: Vec<[u8; 3]> = Vec::with_capacity(count);
    let mut i: usize = 0;
    while i < count
        invariant
            3 * count <= rgb.len(),
            i <= count,
            px.len() == i,
            forall|j: int, k: int|
                0 <= j < i && 0 <= k < 3 ==> #[trigger] px@[j]@[k] == rgb@[3 * j + k],
        decreases count - i,
    {
        let base = 3 * i;
        let p: [u8; 3] = [rgb[base], rgb[base + 1], rgb[base + 2]];
        px.push(p);
        i = i + 1;
    }
    px
}

/// A packed RGBA buffer of the given pixels, each made fully opaque:
/// bytes `4i` to `4i + 2` are pixel `i`'s channels and byte `4i + 3` is 255.
pub fn pixels_to_rgba(px: &[[u8; 3]]) -> (rgba: Vec<u8>)
    requires
        px.len() * 4 <= usize::MAX,
    ensures
        is_opaque_rgba_of(rgba@, px@),
{
    let mut rgba: Vec<u8> = Vec::with_capacity(px.len() * 4);
    let mut i: usize = 0;
    while i < px.len()
        invariant
            px.len() * 4 <= usize::MAX,
            i <= px.len(),
            rgba.len() == 4 * i,
            forall|j: int, k: int|
                0 <= j < i && 0 <= k < 3 ==> #[trigger] rgba@[4 * j + k] == px@[j]@[k],
            forall|j: int| 0 <= j < i ==> #[trigger] rgba@[4 * j + 3] == 255,
        decreases px.len() - i,
    {
        let p = px[i];
        rgba.push(p[0]);
        rgba.push(p[1]);
        rgba.push(p[2]);
        rgba.push(255);
        i = i + 1;
    }
    rgba
}

} // verus!

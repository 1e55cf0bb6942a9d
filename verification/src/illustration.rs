//! Loading a chart illustration: decoding it, picking its theme color and
//! preparing the buffer that the blurred background is made from.

use vstd::prelude::*;
use crate::pixels::{ThemeColor, rgb_pixels, is_pixels_of};

verus! {

#[verifier::external_type_specification]
#[verifier::external_body]
pub struct ExImageError(image::ImageError);

#[verifier::external_type_specification]
#[verifier::external_body]
pub struct ExPaletteError(color_thief::Error);

/// An image decoded into packed 8-bit buffers.
pub struct DecodedImage {
    pub width: u32,
    pub height: u32,
    /// Three bytes per pixel, red, green and blue.
    pub rgb: Vec<u8>,
    /// Four bytes per pixel, red, green, blue and alpha.
    pub rgba: Vec<u8>,
}

/// What `image::load_from_memory` decodes from the given bytes, taken to 8-bit
/// RGB and RGBA buffers: width, height, RGB bytes and RGBA bytes; `None` when
/// decoding fails.
pub uninterp spec fn decoded_image(bytes: Seq<u8>) -> Option<(u32, u32, Seq<u8>, Seq<u8>)>;

/// The palette that `color_thief::get_palette` computes for a packed RGB buffer
/// with the given quality and color count; `None` when it reports an error.
pub uninterp spec fn rgb_palette(pixels: Seq<u8>, quality: u8, max_colors: u8) -> Option<
    Seq<(u8, u8, u8)>,
>;

/// Decodes an image file held in memory with `image::load_from_memory`, then
/// converts it with `DynamicImage::to_rgb8` and `DynamicImage::into_rgba8`.
/// Trusted: the result is a function of the bytes alone, named `decoded_image`.
/// An `ImageBuffer` holds at least `channels * width * height` samples (the
/// crate checks this whenever one is built), so the RGB buffer has at least
/// three bytes and the RGBA buffer at least four bytes per pixel; nothing more
/// is claimed of the pixels.
#[verifier::external_body]
pub(crate) fn decode_image(bytes: &[u8]) -> (r: Result<DecodedImage, image::ImageError>)
    ensures
        r is Ok <==> decoded_image(bytes@) is Some,
        r matches Ok(img) ==> decoded_image(bytes@) == Some(
            (img.width, img.height, img.rgb@, img.rgba@),
        ),
        r matches Ok(img) ==> img.rgb@.len() >= 3 * (img.width * img.height) && img.rgba@.len() >= 4
            * (img.width * img.height),
{
    let img = image::load_from_memory(bytes)?;
    Ok(
        DecodedImage {
            width: img.width(),
            height: img.height(),
            rgb: img.to_rgb8().into_raw(),
            rgba: img.into_rgba8().into_raw(),
        },
    )
}

/// How many pixels `color_thief::get_palette` samples in a packed RGB buffer of
/// `len` bytes at `quality`: pixels `0, 3q, 6q, ...` of the `len / 3` whole pixels.
pub open spec fn palette_samples(len: int, quality: int) -> int {
    (len / 3 + 3 * quality - 1) / (3 * quality)
}

/// Whether every per-channel sum of the palette computation stays within
/// `i32` whatever the pixels are: at most 252 per sampled pixel.
pub open spec fn palette_sums_fit(len: int, quality: int) -> bool {
    252 * palette_samples(len, quality) <= 2147483647
}

/// The dominant colors of a packed RGB buffer, by `color_thief::get_palette`.
/// Trusted: the result is a function of its arguments, named `rgb_palette`.
/// The crate asserts `1 <= quality <= 10` and `max_colors > 1`, so those are
/// required. It samples every `3 * quality`-th pixel of the buffer and sums,
/// per channel and in an `i32`, `8 * (c >> 3) + 4` for each sample it keeps,
/// i.e. at most 252; so that no content can make a sum overflow (which panics
/// in debug builds), `palette_sums_fit` is required. Its source keeps at least
/// one and at most `max_colors` colors whenever it succeeds.
#[verifier::external_body]
pub(crate) fn get_palette(pixels: &[u8], quality: u8, max_colors: u8) -> (r: Result<
    Vec<(u8, u8, u8)>,
    color_thief::Error,
>)
    requires
        1 <= quality <= 10,
        max_colors >= 2,
        palette_sums_fit(pixels@.len() as int, quality as int),
    ensures
        r is Ok <==> rgb_palette(pixels@, quality, max_colors) is Some,
        r matches Ok(colors) ==> rgb_palette(pixels@, quality, max_colors) == Some(colors@) && 1
            <= colors.len() <= max_colors,
{
    let colors = color_thief::get_palette(pixels, color_thief::ColorFormat::Rgb, quality, max_colors)?;
    Ok(colors.into_iter().map(|c| (c.r, c.g, c.b)).collect())
}

/// Palette quality; color-thief then samples every thirtieth pixel.
pub const PALETTE_QUALITY: u8 = 10;

/// Number of colors asked of the palette; the first one is the theme color.
pub const PALETTE_COLORS: u8 = 2;

/// Whether the palette of an RGB buffer of `len` bytes can be computed at
/// `PALETTE_QUALITY` with no sum overflowing, whatever its pixels: at most
/// 8,521,760 sampled pixels, i.e. up to 766,958,402 bytes.
pub fn palette_fits(len: usize) -> (r: bool)
    ensures
        r == palette_sums_fit(len as int, PALETTE_QUALITY as int),
{
    let samples: usize = (len / 3 + 29) / 30;
    samples <= 8_521_760
}

/// Why an illustration could not be loaded.
#[derive(Clone, Copy, Debug, PartialEq, Eq, Structural)]
pub enum LoadError {
    /// The bytes are not an image that could be decoded.
    Decode,
    /// Computing the palette reported an error.
    Palette,
    /// The image is so large that the palette's sums could overflow,
    /// depending on its pixels: more than 8,521,760 sampled pixels.
    TooLarge,
}

/// A decoded illustration and its theme color.
pub struct LoadedIllustration {
    pub width: u32,
    pub height: u32,
    /// The illustration itself, four bytes per pixel.
    pub rgba: Vec<u8>,
    /// The illustration without alpha, three bytes per pixel; the background is
    /// this buffer blurred.
    pub rgb: Vec<u8>,
    /// The first color of the illustration's palette.
    pub theme: ThemeColor,
}

/// The color that a palette entry stands for.
pub open spec fn palette_color(c: (u8, u8, u8)) -> ThemeColor {
    ThemeColor { r: c.0, g: c.1, b: c.2 }
}

/// A palette entry's color has the entry's red, green and blue channels, in that order.
pub proof fn law_palette_color_channels(c: (u8, u8, u8))
    ensures
        palette_color(c).r == c.0,
        palette_color(c).g == c.1,
        palette_color(c).b == c.2,
{
}

impl LoadedIllustration {
    /// Whether the buffers hold at least three and four bytes per pixel.
    pub open spec fn buffers_fit(&self) -> bool {
        &&& self.rgb@.len() >= 3 * (self.width * self.height)
        &&& self.rgba@.len() >= 4 * (self.width * self.height)
    }

    /// The pixels that the background is blurred from: the first
    /// `width * height` pixels of the RGB buffer.
    pub fn background_pixels(&self) -> (px: Vec<[u8; 3]>)
        requires
            self.buffers_fit(),
        ensures
            is_pixels_of(px@, self.rgb@, (self.width * self.height) as nat),
    {
        let w = self.width as u64;
        let h = self.height as u64;
        assert(w * h <= u32::MAX * u32::MAX) by (nonlinear_arith)
            requires
                w <= u32::MAX,
                h <= u32::MAX,
        ;
        let count: u64 = w * h;
        let ghost (sw, sh) = (self.width, self.height);
        assert(w * h == sw * sh) by (nonlinear_arith)
            requires
                w == sw,
                h == sh,
        ;
        assert(3 * count <= self.rgb@.len());
        let n: usize = self.rgb.len();
        assert(count <= n);
        let c: usize = count as usize;
        assert(c == sw * sh);
        rgb_pixels(self.rgb.as_slice(), c)
    }

    /// The loaded illustration made of a decoded image and what computing the
    /// palette of its RGB buffer gave: the theme color is the palette's first
    /// color; a palette error fails the load.
    pub fn from_decoded(decoded: DecodedImage, palette: Result<Vec<(u8, u8, u8)>, color_thief::Error>) -> (r:
        Result<LoadedIllustration, LoadError>)
        requires
            palette matches Ok(p) ==> p.len() >= 1,
        ensures
            palette is Err <==> r == Err::<LoadedIllustration, LoadError>(LoadError::Palette),
            palette matches Ok(p) ==> (r matches Ok(l) && l.width == decoded.width && l.height
                == decoded.height && l.rgb@ == decoded.rgb@ && l.rgba@ == decoded.rgba@ && l.theme
                == palette_color(p@[0]) && l.theme.r == p@[0].0 && l.theme.g == p@[0].1 && l.theme.b
                == p@[0].2),
    {
        match palette {
            Ok(p) => {
                let first = p[0];
                Ok(
                    LoadedIllustration {
                        width: decoded.width,
                        height: decoded.height,
                        rgba: decoded.rgba,
                        rgb: decoded.rgb,
                        theme: ThemeColor { r: first.0, g: first.1, b: first.2 },
                    },
                )
            },
            Err(_) => Err(LoadError::Palette),
        }
    }
}

} // verus!

use vstd::prelude::*;
use image::GenericImageView;
use crate::crop::{crop_of, crop_rect, output_size, physical_len};
use crate::geometry::{CropRect, ScreenInfo, TotalBounds};

verus! {

#[verifier::external_type_specification]
#[verifier::external_body]
pub struct ExDynamicImage(image::DynamicImage);

#[verifier::external_type_specification]
#[verifier::external_body]
pub struct ExImageError(image::ImageError);

/// JPEG quality of the rendered wallpapers.
pub const JPEG_QUALITY: u8 = 95;

/// What `image::load_from_memory` makes of a byte sequence: the width and
/// height of the decoded image, or none where the bytes do not decode.
///
/// This is a function of the bytes as long as the reader keeps its default
/// limits and no program registers a decoding hook with the image crate;
/// nothing in this crate or its host does.
pub uninterp spec fn decoded_size(bytes: Seq<u8>) -> Option<(u32, u32)>;

/// A decoded image together with its width and height. Only the wrappers
/// below build one, and they read the size from the image itself.
struct SizedImage {
    image: image::DynamicImage,
    width: u32,
    height: u32,
}

/// Relies on image::load_from_memory (with the reader's default limits): the
/// outcome depends on the bytes alone. The size is read with
/// GenericImageView::dimensions.
#[verifier::external_body]
fn decode_image(bytes: &Vec<u8>) -> (r: Result<SizedImage, image::ImageError>)
    ensures
        r is Err <==> decoded_size(bytes@) is None,
        r matches Ok(img) ==> decoded_size(bytes@) == Some((img.width, img.height)),
{
    let image = image::load_from_memory(bytes.as_slice())?;
    let (width, height) = image.dimensions();
    Ok(SizedImage { image, width, height })
}

/// The extent that remains of `len` pixels from `origin` on an axis of `dim`
/// pixels, the origin first moved onto the axis.
pub open spec fn cut_extent(origin: int, len: int, dim: int) -> int {
    let o = if origin <= dim {
        origin
    } else {
        dim
    };
    if len <= dim - o {
        len
    } else {
        dim - o
    }
}

/// Relies on DynamicImage::crop_imm: a copy of the given rectangle, cut at
/// the image edges (the origin is first moved onto the image).
#[verifier::external_body]
fn crop_image(img: &SizedImage, rect: CropRect) -> (r: SizedImage)
    ensures
        r.width as int == cut_extent(rect.x as int, rect.width as int, img.width as int),
        r.height as int == cut_extent(rect.y as int, rect.height as int, img.height as int),
{
    let image = img.image.crop_imm(rect.x, rect.y, rect.width, rect.height);
    let (width, height) = image.dimensions();
    SizedImage { image, width, height }
}

/// Relies on DynamicImage::resize_exact with the Lanczos3 filter: the image
/// resampled to exactly the given size.
#[verifier::external_body]
fn resize_image(img: &SizedImage, width: u32, height: u32) -> (r: SizedImage)
    ensures
        r.width == width,
        r.height == height,
{
    let image = img.image.resize_exact(width, height, image::imageops::FilterType::Lanczos3);
    let (width, height) = image.dimensions();
    SizedImage { image, width, height }
}

/// Relies on DynamicImage::write_with_encoder, with a JpegEncoder of the given
/// quality writing into memory: the JPEG file's bytes. The encoder first
/// converts the pixels to 8-bit grey or RGB, and refuses only sizes outside
/// 1..=65535 on either side; writing into a `Vec` does not fail. A written
/// file starts with the start-of-image marker.
#[verifier::external_body]
fn encode_jpeg(img: &SizedImage, quality: u8) -> (r: Result<Vec<u8>, image::ImageError>)
    ensures
        1 <= img.width <= 65535 && 1 <= img.height <= 65535 ==> r is Ok,
        r matches Ok(bytes) ==> bytes@.len() > 0,
{
    let mut out: Vec<u8> = Vec::new();
    let encoder = image::codecs::jpeg::JpegEncoder::new_with_quality(&mut out, quality);
    img.image.write_with_encoder(encoder)?;
    Ok(out)
}

/// Relies on the Display impl of image::ImageError: a readable message.
#[verifier::external_body]
fn image_error_message(e: &image::ImageError) -> (r: String) {
    e.to_string()
}

/// Why rendering one screen's wallpaper failed.
#[derive(Debug)]
pub enum RenderError {
    /// The source bytes are not an image that can be decoded.
    Decode(String),
    /// The cropped and resized image could not be encoded.
    Encode(String),
}

impl RenderError {
    /// The readable message of the error.
    pub fn message(&self) -> (r: String)
        ensures
            r@ == match self {
                RenderError::Decode(m) => m@,
                RenderError::Encode(m) => m@,
            },
    {
        match self {
            RenderError::Decode(m) => m.clone(),
            RenderError::Encode(m) => m.clone(),
        }
    }
}

/// A wallpaper rendered for one screen, with the rectangle of the source
/// image it shows and its pixel size.
pub struct RenderedWallpaper {
    pub crop: CropRect,
    pub width: u32,
    pub height: u32,
    pub jpeg: Vec<u8>,
}

/// Renders the wallpaper of one screen from the encoded source image: decodes
/// it, cuts out the screen's part of the cover-fitted desktop, resamples that
/// to the screen's physical pixel size and encodes it as JPEG.
///
/// Bytes that do not decode give a decode error. Otherwise the crop is the
/// one [`crop_rect`] gives for the decoded image's size, and rendering
/// succeeds whenever the physical size fits a JPEG (at most 65535 a side).
pub fn render_for_screen(image_bytes: &Vec<u8>, screen: &ScreenInfo, bounds: &TotalBounds) -> (r:
    Result<RenderedWallpaper, RenderError>)
    ensures
        decoded_size(image_bytes@) is None <==> r matches Err(RenderError::Decode(_)),
        r matches Ok(w) ==> {
            &&& decoded_size(image_bytes@) matches Some((iw, ih))
            &&& w.crop == crop_of(*screen, *bounds, iw as int, ih as int)
            &&& w.width as int == physical_len(screen.width as int, screen.scale_permille as int)
            &&& w.height as int == physical_len(screen.height as int, screen.scale_permille as int)
            &&& w.jpeg@.len() > 0
        },
        decoded_size(image_bytes@) is Some && physical_len(
            screen.width as int,
            screen.scale_permille as int,
        ) <= 65535 && physical_len(screen.height as int, screen.scale_permille as int) <= 65535
            ==> r is Ok,
{
    let img = match decode_image(image_bytes) {
        Ok(i) => i,
        Err(e) => {
            return Err(RenderError::Decode(image_error_message(&e)));
        },
    };
    let rect = crop_rect(screen, bounds, img.width, img.height);
    let cropped = crop_image(&img, rect);
    let (ow, oh) = output_size(screen);
    let resized = resize_image(&cropped, ow, oh);
    match encode_jpeg(&resized, JPEG_QUALITY) {
        Ok(jpeg) => Ok(RenderedWallpaper { crop: rect, width: ow, height: oh, jpeg }),
        Err(e) => Err(RenderError::Encode(image_error_message(&e))),
    }
}

} // verus!

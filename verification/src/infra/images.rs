//! Decoded images and their formats.
//!
//! Pixels are kept by the `image` crate. What this crate decides on, the
//! dimensions, is carried next to them as plain numbers.

use vstd::prelude::*;

verus! {

/// The pixels of an image as the `image` crate holds them. Nothing of
/// their inside is seen from here.
#[verifier::external_type_specification]
#[verifier::external_body]
pub struct ExDynamicImage(image::DynamicImage);

/// The formats that images are decoded from and encoded to.
#[derive(Clone, Copy, Debug, PartialEq, Eq, Structural)]
pub enum SourceFormat {
    Png,
    Jpeg,
    Gif,
    WebP,
    Bmp,
}

/// What a hint says of the format of an image.
#[derive(Clone, Copy, Debug, PartialEq, Eq, Structural)]
pub enum DetectedFormat {
    /// A format that images are decoded from.
    Supported(SourceFormat),
    /// A format that the `image` crate knows of, but none of the above.
    Unsupported,
}

/// A decoded image: the pixels and their width and height.
///
/// Only the functions of this module that call the `image` crate make a
/// `DecodedImage`, and each of them reads the two numbers off the pixels it
/// was handed: that the numbers are those of the pixels is taken on trust
/// with them.
pub struct DecodedImage {
    width: u32,
    height: u32,
    pixels: image::DynamicImage,
}

/// Whether an image of `width` by `height` pixels, at the widest pixel
/// layout of 16 bytes, stays within what one allocation can hold.
pub open spec fn has_room(width: u32, height: u32) -> bool {
    16 * width * height <= isize::MAX
}

/// Whether a resize of an image of `width` by `height` to `new_width` by
/// `new_height` needs no buffer beyond one allocation: with its own
/// dimensions the image is only copied; else one buffer of the old width by
/// the new height is filled, and one of the new size.
pub open spec fn resize_has_room(width: u32, height: u32, new_width: u32, new_height: u32) -> bool {
    (new_width, new_height) == (width, height) || (has_room(width, new_height) && has_room(
        new_width,
        new_height,
    ))
}

/// The width and height that the `image` crate reads out of `bytes` as an
/// image of the given format, where it decodes them.
pub uninterp spec fn decoded_size(bytes: Seq<u8>, format: SourceFormat) -> Option<(u32, u32)>;

/// Whether a MIME type names a format that the `image` crate knows of and
/// that images are not decoded from here.
pub open spec fn names_unsupported_format(mime_type: Seq<char>) -> bool {
    ||| mime_type == "image/avif"@
    ||| mime_type == "image/tiff"@
    ||| mime_type == "image/x-targa"@
    ||| mime_type == "image/x-tga"@
    ||| mime_type == "image/vnd-ms.dds"@
    ||| mime_type == "image/x-icon"@
    ||| mime_type == "image/vnd.microsoft.icon"@
    ||| mime_type == "image/vnd.radiance"@
    ||| mime_type == "image/x-exr"@
    ||| mime_type == "image/x-portable-bitmap"@
    ||| mime_type == "image/x-portable-graymap"@
    ||| mime_type == "image/x-portable-pixmap"@
    ||| mime_type == "image/x-portable-anymap"@
    ||| mime_type == "image/x-qoi"@
}

/// What a MIME type says of the format of an image: the format that the
/// `image` crate links with it, if any.
pub open spec fn declared_format(mime_type: Seq<char>) -> Option<DetectedFormat> {
    if mime_type == "image/png"@ {
        Some(DetectedFormat::Supported(SourceFormat::Png))
    } else if mime_type == "image/jpeg"@ {
        Some(DetectedFormat::Supported(SourceFormat::Jpeg))
    } else if mime_type == "image/gif"@ {
        Some(DetectedFormat::Supported(SourceFormat::Gif))
    } else if mime_type == "image/webp"@ {
        Some(DetectedFormat::Supported(SourceFormat::WebP))
    } else if mime_type == "image/bmp"@ {
        Some(DetectedFormat::Supported(SourceFormat::Bmp))
    } else if names_unsupported_format(mime_type) {
        Some(DetectedFormat::Unsupported)
    } else {
        None
    }
}

/// The MIME type of a format.
pub open spec fn mime_type_of(format: SourceFormat) -> Seq<char> {
    match format {
        SourceFormat::Png => "image/png"@,
        SourceFormat::Jpeg => "image/jpeg"@,
        SourceFormat::Gif => "image/gif"@,
        SourceFormat::WebP => "image/webp"@,
        SourceFormat::Bmp => "image/bmp"@,
    }
}

impl DecodedImage {
    /// The width in pixels.
    pub closed spec fn spec_width(&self) -> u32 {
        self.width
    }

    /// The height in pixels.
    pub closed spec fn spec_height(&self) -> u32 {
        self.height
    }

    /// The width in pixels.
    #[verifier::when_used_as_spec(spec_width)]
    pub fn width(&self) -> (w: u32)
        ensures
            w == self.spec_width(),
    {
        self.width
    }

    /// The height in pixels.
    #[verifier::when_used_as_spec(spec_height)]
    pub fn height(&self) -> (h: u32)
        ensures
            h == self.spec_height(),
    {
        self.height
    }

    /// An image of the given size with three 8-bit channels, all zero.
    /// `None` where the size is beyond what one allocation can hold.
    pub fn blank(width: u32, height: u32) -> (r: Option<DecodedImage>)
        ensures
            r is Some <==> has_room(width, height),
            r matches Some(image) ==> image.width() == width && image.height() == height,
    {
        if room_for(width, height) {
            Some(blank_pixels(width, height))
        } else {
            None
        }
    }
}

/// Tells whether an image of this size stays within one allocation.
pub fn room_for(width: u32, height: u32) -> (b: bool)
    ensures
        b == has_room(width, height),
{
    assert(0 <= width * height <= 0xffff_ffff * 0xffff_ffff) by (nonlinear_arith)
        requires
            0 <= width <= 0xffff_ffff,
            0 <= height <= 0xffff_ffff,
    ;
    assert(16 * width * height == 16 * (width * height)) by (nonlinear_arith);
    let area: u128 = (width as u128) * (height as u128);
    let limit: u128 = (usize::MAX / 2) as u128;
    16 * area <= limit
}

/// `DynamicImage::new` with `ColorType::Rgb8`.
///
/// Trusted: the image has the dimensions asked for. The buffer is allocated
/// in one piece, and sizes that cannot be allocated are left out.
#[verifier::external_body]
fn blank_pixels(width: u32, height: u32) -> (image: DecodedImage)
    requires
        has_room(width, height),
    ensures
        image.width() == width,
        image.height() == height,
{
    let pixels = image::DynamicImage::new(width, height, image::ColorType::Rgb8);
    DecodedImage { width: pixels.width(), height: pixels.height(), pixels }
}

/// `DynamicImage::resize_exact` with the `Lanczos3` filter, followed by
/// `DynamicImage::width` and `DynamicImage::height`.
///
/// Trusted: the image that comes back has the width and the height asked
/// for. An image that already has them is copied; for any other the crate
/// fills one buffer of the old width by the new height and one of the new
/// size. Sizes that cannot be allocated are left out, and so is a size of
/// zero on an axis for an image that is not empty on it.
#[verifier::external_body]
pub(crate) fn resize_pixels(image: &DecodedImage, new_width: u32, new_height: u32) -> (r:
    DecodedImage)
    requires
        resize_has_room(image.width(), image.height(), new_width, new_height),
        new_width == 0 ==> image.width() == 0,
        new_height == 0 ==> image.height() == 0,
    ensures
        r.width() == new_width,
        r.height() == new_height,
{
    let pixels = image.pixels.resize_exact(
        new_width,
        new_height,
        image::imageops::FilterType::Lanczos3,
    );
    DecodedImage { width: pixels.width(), height: pixels.height(), pixels }
}

/// `DynamicImage::fliph`.
///
/// Trusted: mirroring keeps the dimensions.
#[verifier::external_body]
pub(crate) fn flip_pixels_horizontally(image: &DecodedImage) -> (r: DecodedImage)
    ensures
        r.width() == image.width(),
        r.height() == image.height(),
{
    let pixels = image.pixels.fliph();
    DecodedImage { width: pixels.width(), height: pixels.height(), pixels }
}

/// `DynamicImage::flipv`.
///
/// Trusted: mirroring keeps the dimensions.
#[verifier::external_body]
pub(crate) fn flip_pixels_vertically(image: &DecodedImage) -> (r: DecodedImage)
    ensures
        r.width() == image.width(),
        r.height() == image.height(),
{
    let pixels = image.pixels.flipv();
    DecodedImage { width: pixels.width(), height: pixels.height(), pixels }
}

/// `ImageFormat::from_mime_type`, and the arm of `DetectedFormat` that
/// the format found falls under.
///
/// Trusted: the outcome is what the crate's table of MIME types gives,
/// which `declared_format` writes out.
#[verifier::external_body]
pub(crate) fn format_from_mime_type(mime_type: &str) -> (format: Option<DetectedFormat>)
    ensures
        format == declared_format(mime_type@),
{
    Some(match image::ImageFormat::from_mime_type(mime_type)? {
        image::ImageFormat::Png => DetectedFormat::Supported(SourceFormat::Png),
        image::ImageFormat::Jpeg => DetectedFormat::Supported(SourceFormat::Jpeg),
        image::ImageFormat::Gif => DetectedFormat::Supported(SourceFormat::Gif),
        image::ImageFormat::WebP => DetectedFormat::Supported(SourceFormat::WebP),
        image::ImageFormat::Bmp => DetectedFormat::Supported(SourceFormat::Bmp),
        _ => DetectedFormat::Unsupported,
    })
}

/// `ImageFormat::from_path`: the format that the extension of a path names.
/// How a path falls into components is the platform's affair, so nothing is
/// stated of the outcome.
#[verifier::external_body]
pub(crate) fn format_from_path(path: &str) -> Option<DetectedFormat> {
    Some(match image::ImageFormat::from_path(path).ok()? {
        image::ImageFormat::Png => DetectedFormat::Supported(SourceFormat::Png),
        image::ImageFormat::Jpeg => DetectedFormat::Supported(SourceFormat::Jpeg),
        image::ImageFormat::Gif => DetectedFormat::Supported(SourceFormat::Gif),
        image::ImageFormat::WebP => DetectedFormat::Supported(SourceFormat::WebP),
        image::ImageFormat::Bmp => DetectedFormat::Supported(SourceFormat::Bmp),
        _ => DetectedFormat::Unsupported,
    })
}

/// `ImageReader::with_guessed_format` and `ImageReader::format` on the
/// bytes: the format that the first bytes give away, if any. The signatures
/// looked for can be extended while the process runs, so nothing is stated of
/// the outcome. An error is the reader's.
#[verifier::external_body]
pub(crate) fn sniff_format(bytes: &[u8]) -> Result<Option<DetectedFormat>, String> {
    let reader = image::ImageReader::new(std::io::Cursor::new(bytes));
    let format = reader.with_guessed_format().map_err(|e| e.to_string())?.format();
    Ok(format.map(|found| match found {
        image::ImageFormat::Png => DetectedFormat::Supported(SourceFormat::Png),
        image::ImageFormat::Jpeg => DetectedFormat::Supported(SourceFormat::Jpeg),
        image::ImageFormat::Gif => DetectedFormat::Supported(SourceFormat::Gif),
        image::ImageFormat::WebP => DetectedFormat::Supported(SourceFormat::WebP),
        image::ImageFormat::Bmp => DetectedFormat::Supported(SourceFormat::Bmp),
        _ => DetectedFormat::Unsupported,
    }))
}

/// `ImageFormat::to_mime_type`.
///
/// Trusted: the MIME type is the one that the crate's table gives for the
/// format.
#[verifier::external_body]
pub(crate) fn format_mime_type(format: SourceFormat) -> (mime_type: String)
    ensures
        mime_type@ == mime_type_of(format),
{
    let format = match format {
        SourceFormat::Png => image::ImageFormat::Png,
        SourceFormat::Jpeg => image::ImageFormat::Jpeg,
        SourceFormat::Gif => image::ImageFormat::Gif,
        SourceFormat::WebP => image::ImageFormat::WebP,
        SourceFormat::Bmp => image::ImageFormat::Bmp,
    };
    format.to_mime_type().to_string()
}

/// `ImageReader::set_format` and `ImageReader::decode` on the bytes,
/// followed by `DynamicImage::width` and `DynamicImage::height`. An error
/// carries the decoder's message.
///
/// Trusted: the width and height of an image that was decoded are a
/// function of the bytes and the format. Of a failure nothing is stated: the
/// decoders also fail where the machine has no memory left for them.
#[verifier::external_body]
pub(crate) fn decode_pixels(bytes: &[u8], format: SourceFormat) -> (r: Result<
    DecodedImage,
    String,
>)
    ensures
        r matches Ok(image) ==> decoded_size(bytes@, format) == Some(
            (image.width(), image.height()),
        ),
{
    let mut reader = image::ImageReader::new(std::io::Cursor::new(bytes));
    reader.set_format(match format {
        SourceFormat::Png => image::ImageFormat::Png,
        SourceFormat::Jpeg => image::ImageFormat::Jpeg,
        SourceFormat::Gif => image::ImageFormat::Gif,
        SourceFormat::WebP => image::ImageFormat::WebP,
        SourceFormat::Bmp => image::ImageFormat::Bmp,
    });
    let pixels = reader.decode().map_err(|e| e.to_string())?;
    Ok(DecodedImage { width: pixels.width(), height: pixels.height(), pixels })
}

/// `DynamicImage::write_to` into a buffer. An error carries the encoder's
/// message. Nothing is stated of the outcome.
#[verifier::external_body]
pub(crate) fn encode_pixels(image: &DecodedImage, format: SourceFormat) -> Result<Vec<u8>, String> {
    let format = match format {
        SourceFormat::Png => image::ImageFormat::Png,
        SourceFormat::Jpeg => image::ImageFormat::Jpeg,
        SourceFormat::Gif => image::ImageFormat::Gif,
        SourceFormat::WebP => image::ImageFormat::WebP,
        SourceFormat::Bmp => image::ImageFormat::Bmp,
    };
    let mut cursor = std::io::Cursor::new(Vec::new());
    image.pixels.write_to(&mut cursor, format).map_err(|e| e.to_string())?;
    Ok(cursor.into_inner())
}

} // verus!

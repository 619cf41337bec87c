//! How a decoded image becomes the bytes of an RGBA texture.

use vstd::prelude::*;

verus! {

/// The pixel layout of a decoded image.
#[derive(Debug, Clone, Copy, PartialEq, Eq, Structural)]
pub enum PixelLayout {
    Luma8,
    LumaA8,
    Rgb8,
    Rgba8,
    /// Any layout with more than 8 bits per channel.
    Other,
}

/// Where the texture's bytes come from.
#[derive(Debug, Clone, Copy, PartialEq, Eq, Structural)]
pub enum PixelSource {
    /// Convert the image to 8-bit RGBA and take those bytes.
    ConvertToRgba8,
    /// Take the image's bytes as they are stored.
    StoredBytes,
}

/// An upload of texture data.
#[derive(Debug, Clone, Copy, PartialEq, Eq, Structural)]
pub struct TextureUpload {
    pub pixels: PixelSource,
    /// Size of the texture in bytes, at four bytes per pixel.
    pub byte_size: u64,
}

/// Why an image cannot become a texture.
#[derive(Debug, Clone, Copy, PartialEq, Eq, Structural)]
pub enum TextureError {
    /// Four bytes per pixel do not fit in `u32`.
    SizeOverflow,
    /// The layout is none of the 8-bit ones.
    UnsupportedLayout,
    /// The image has no pixels.
    Empty,
    /// The image holds fewer bytes than its layout and size call for.
    ShortData,
}

/// The upload that an image of the given layout and size calls for, or the
/// first reason why there is none.
pub open spec fn texture_upload_of(layout: PixelLayout, width: u32, height: u32) -> Result<
    TextureUpload,
    TextureError,
> {
    let bytes = width as int * height as int * 4;
    if bytes > u32::MAX {
        Err(TextureError::SizeOverflow)
    } else if layout is Other {
        Err(TextureError::UnsupportedLayout)
    } else if bytes == 0 {
        Err(TextureError::Empty)
    } else {
        Ok(
            TextureUpload {
                pixels: if layout is Luma8 || layout is Rgb8 {
                    PixelSource::ConvertToRgba8
                } else {
                    PixelSource::StoredBytes
                },
                byte_size: bytes as u64,
            },
        )
    }
}

/// Decides how the bytes of a texture are obtained and how many there are.
pub fn texture_upload(layout: PixelLayout, width: u32, height: u32) -> (r: Result<
    TextureUpload,
    TextureError,
>)
    ensures
        r == texture_upload_of(layout, width, height),
{
    assert(width as int * height as int <= 0xffff_ffff * 0xffff_ffff) by (nonlinear_arith)
        requires
            0 <= width as int <= 0xffff_ffff,
            0 <= height as int <= 0xffff_ffff,
    ;
    let pixels: u64 = width as u64 * height as u64;
    if pixels > 0x3fff_ffff {
        return Err(TextureError::SizeOverflow);
    }
    let byte_size: u64 = pixels * 4;
    let source = match layout {
        PixelLayout::Luma8 | PixelLayout::Rgb8 => PixelSource::ConvertToRgba8,
        PixelLayout::LumaA8 | PixelLayout::Rgba8 => PixelSource::StoredBytes,
        PixelLayout::Other => {
            return Err(TextureError::UnsupportedLayout);
        },
    };
    if byte_size == 0 {
        return Err(TextureError::Empty);
    }
    Ok(TextureUpload { pixels: source, byte_size })
}

/// The bytes of a texture, ready for upload.
#[derive(Debug, Clone, PartialEq, Eq)]
pub struct TextureData {
    pub width: u32,
    pub height: u32,
    /// Size of the texture in bytes, at four bytes per pixel.
    pub byte_size: u64,
    pub bytes: Vec<u8>,
}

/// Bytes per pixel of a layout that gets converted.
pub open spec fn converted_channels(layout: PixelLayout) -> int {
    if layout is Rgb8 {
        3
    } else {
        1
    }
}

/// The first `pixels` grey values of `bytes` as RGBA: each value three times,
/// then full opacity.
pub open spec fn rgba8_of_luma8(bytes: Seq<u8>, pixels: int) -> Seq<u8> {
    Seq::new(
        (pixels * 4) as nat,
        |i: int|
            if i % 4 == 3 {
                255u8
            } else {
                bytes[i / 4]
            },
    )
}

/// The first `pixels` RGB triples of `bytes` as RGBA: each triple, then full
/// opacity.
pub open spec fn rgba8_of_rgb8(bytes: Seq<u8>, pixels: int) -> Seq<u8> {
    Seq::new(
        (pixels * 4) as nat,
        |i: int|
            if i % 4 == 3 {
                255u8
            } else {
                bytes[(i / 4) * 3 + i % 4]
            },
    )
}

/// `image::DynamicImage::to_rgba8` on an 8-bit grey image built from
/// `bytes`, as raw bytes. The contract states the conversion that `image`
/// applies to each pixel: the grey value in all three colours, alpha 255.
#[verifier::external_body]
fn luma8_to_rgba8(width: u32, height: u32, bytes: Vec<u8>) -> (r: Vec<u8>)
    requires
        width * height * 4 <= u32::MAX,
        bytes@.len() >= width * height,
    ensures
        r@ == rgba8_of_luma8(bytes@, width * height),
{
    let grey = image::GrayImage::from_raw(width, height, bytes).unwrap();
    image::DynamicImage::ImageLuma8(grey).to_rgba8().into_raw()
}

/// `image::DynamicImage::to_rgba8` on an 8-bit RGB image built from `bytes`,
/// as raw bytes. The contract states the conversion that `image` applies to
/// each pixel: the three colours unchanged, alpha 255.
#[verifier::external_body]
fn rgb8_to_rgba8(width: u32, height: u32, bytes: Vec<u8>) -> (r: Vec<u8>)
    requires
        width * height * 4 <= u32::MAX,
        bytes@.len() >= width * height * 3,
    ensures
        r@ == rgba8_of_rgb8(bytes@, width * height),
{
    let rgb = image::RgbImage::from_raw(width, height, bytes).unwrap();
    image::DynamicImage::ImageRgb8(rgb).to_rgba8().into_raw()
}

/// The bytes to upload for an image of the given layout and size whose
/// stored bytes are `bytes`, or the first reason why there are none.
/// Layouts with alpha hand their stored bytes on, whatever their number.
pub open spec fn texture_bytes_of(layout: PixelLayout, width: u32, height: u32, bytes: Seq<u8>)
    -> Result<Seq<u8>, TextureError> {
    match texture_upload_of(layout, width, height) {
        Err(e) => Err(e),
        Ok(upload) => match upload.pixels {
            PixelSource::StoredBytes => Ok(bytes),
            PixelSource::ConvertToRgba8 => if bytes.len() < width * height * converted_channels(
                layout,
            ) {
                Err(TextureError::ShortData)
            } else if layout is Rgb8 {
                Ok(rgba8_of_rgb8(bytes, width * height))
            } else {
                Ok(rgba8_of_luma8(bytes, width * height))
            },
        },
    }
}

/// Turns the stored bytes of a decoded image into the bytes of a texture.
pub fn texture_data(layout: PixelLayout, width: u32, height: u32, bytes: Vec<u8>) -> (r: Result<
    TextureData,
    TextureError,
>)
    ensures
        match r {
            Ok(data) => {
                &&& texture_bytes_of(layout, width, height, bytes@) == Ok::<_, TextureError>(
                    data.bytes@,
                )
                &&& data.width == width
                &&& data.height == height
                &&& data.byte_size == width * height * 4
            },
            Err(e) => texture_bytes_of(layout, width, height, bytes@) == Err::<Seq<u8>, _>(e),
        },
{
    let upload = match texture_upload(layout, width, height) {
        Ok(upload) => upload,
        Err(e) => {
            return Err(e);
        },
    };
    let byte_size = upload.byte_size;
    let converted = match upload.pixels {
        PixelSource::StoredBytes => bytes,
        PixelSource::ConvertToRgba8 => {
            let channels: u64 = match layout {
                PixelLayout::Rgb8 => 3,
                _ => 1,
            };
            assert(width * height * 4 == byte_size);
            assert(width * height * converted_channels(layout) == (byte_size / 4) * channels)
                by (nonlinear_arith)
                requires
                    width * height * 4 == byte_size,
                    channels == converted_channels(layout),
            ;
            let needed: u64 = (byte_size / 4) * channels;
            if (bytes.len() as u64) < needed {
                return Err(TextureError::ShortData);
            }
            match layout {
                PixelLayout::Rgb8 => rgb8_to_rgba8(width, height, bytes),
                _ => luma8_to_rgba8(width, height, bytes),
            }
        },
    };
    Ok(TextureData { width, height, byte_size, bytes: converted })
}

/// A converted texture has exactly four bytes for each pixel, the fourth of
/// each always fully opaque.
pub proof fn converted_texture_is_opaque(
    layout: PixelLayout,
    width: u32,
    height: u32,
    bytes: Seq<u8>,
)
    requires
        layout is Luma8 || layout is Rgb8,
        texture_bytes_of(layout, width, height, bytes) is Ok,
    ensures
        ({
            let texture = texture_bytes_of(layout, width, height, bytes)->Ok_0;
            &&& texture.len() == width * height * 4
            &&& forall|p: int| 0 <= p < width * height ==> texture[#[trigger] (p * 4) + 3] == 255
        }),
{
    let texture = texture_bytes_of(layout, width, height, bytes)->Ok_0;
    assert forall|p: int| 0 <= p < width * height implies texture[#[trigger] (p * 4) + 3]
        == 255 by {
        assert((p * 4 + 3) % 4 == 3) by (nonlinear_arith);
        assert(0 <= p * 4 + 3 < width * height * 4) by (nonlinear_arith)
            requires
                0 <= p < width * height,
        ;
    }
}

} // verus!

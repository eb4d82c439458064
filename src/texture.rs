use vstd::prelude::*;

use crate::command::{Command, Filter, PixelFormat, TexParameter, Wrap};

verus! {

/// Pixel layout reported by an image decoder, with its bits per channel.
#[derive(Clone, Copy, Debug, PartialEq, Eq, Structural)]
pub enum ColorModel {
    Gray(u8),
    Rgb(u8),
    Palette(u8),
    GrayAlpha(u8),
    Rgba(u8),
    Bgr(u8),
    Bgra(u8),
}

/// An image as a decoder hands it out: its pixel layout, its size in
/// pixels and its pixel bytes, row after row.
#[derive(Debug)]
pub struct DecodedImage {
    pub color: ColorModel,
    pub width: u32,
    pub height: u32,
    pub pixels: Vec<u8>,
}

/// Pixels ready to be stored in a texture.
#[derive(Debug)]
pub struct TextureImage {
    pub format: PixelFormat,
    pub width: i32,
    pub height: i32,
    pub pixels: Vec<u8>,
}

/// Why an image file cannot become a texture; each names the file.
#[derive(Debug)]
pub enum TextureError {
    /// The file could not be read or decoded.
    Decode { path: String },
    /// Its pixels are neither 8-bit RGB nor 8-bit RGBA.
    UnsupportedFormat { path: String },
    /// It is empty, or too large for the driver.
    Dimensions { path: String },
    /// Its pixel bytes do not fill its width and height.
    PixelData { path: String },
}

/// Sampler state of a texture.
#[derive(Clone, Copy, Debug, PartialEq, Eq, Structural)]
pub struct Sampler {
    pub min_filter: Filter,
    pub mag_filter: Filter,
    pub wrap_s: Wrap,
    pub wrap_t: Wrap,
}

/// Linear filtering both ways, repeating on both axes.
pub open spec fn linear_repeat() -> Sampler {
    Sampler {
        min_filter: Filter::Linear,
        mag_filter: Filter::Linear,
        wrap_s: Wrap::Repeat,
        wrap_t: Wrap::Repeat,
    }
}

impl Default for Sampler {
    /// Linear filtering both ways, repeating on both axes.
    fn default() -> (r: Sampler)
        ensures
            r == linear_repeat(),
    {
        Sampler {
            min_filter: Filter::Linear,
            mag_filter: Filter::Linear,
            wrap_s: Wrap::Repeat,
            wrap_t: Wrap::Repeat,
        }
    }
}

/// The texture format that stores pixels of `color`, if one does.
pub open spec fn format_of(color: ColorModel) -> Option<PixelFormat> {
    match color {
        ColorModel::Rgb(8) => Some(PixelFormat::Rgb),
        ColorModel::Rgba(8) => Some(PixelFormat::Rgba),
        _ => None,
    }
}

/// Bytes per pixel of `format`.
pub open spec fn channels(format: PixelFormat) -> int {
    match format {
        PixelFormat::Rgb => 3,
        PixelFormat::Rgba => 4,
    }
}

/// A size the driver takes: not empty, and each side fits its `i32`.
pub open spec fn dimensions_ok(width: u32, height: u32) -> bool {
    0 < width <= i32::MAX && 0 < height <= i32::MAX
}

/// The file an error is about.
pub open spec fn error_path(e: TextureError) -> Seq<char> {
    match e {
        TextureError::Decode { path } => path@,
        TextureError::UnsupportedFormat { path } => path@,
        TextureError::Dimensions { path } => path@,
        TextureError::PixelData { path } => path@,
    }
}

impl TextureImage {
    /// The pixel bytes fill the size exactly, in the format's layout.
    pub open spec fn wf(&self) -> bool {
        &&& self.width > 0
        &&& self.height > 0
        &&& self.pixels@.len() == self.width * self.height * channels(self.format)
    }
}

impl TextureError {
    /// The file this error is about.
    pub fn path(&self) -> (r: &String)
        ensures
            r@ == error_path(*self),
    {
        match self {
            TextureError::Decode { path } => path,
            TextureError::UnsupportedFormat { path } => path,
            TextureError::Dimensions { path } => path,
            TextureError::PixelData { path } => path,
        }
    }
}

/// The texture format for pixels of `color`: only 8-bit RGB and 8-bit RGBA
/// have one.
pub fn pixel_format(color: ColorModel) -> (r: Option<PixelFormat>)
    ensures
        r == format_of(color),
{
    match color {
        ColorModel::Rgb(8) => Some(PixelFormat::Rgb),
        ColorModel::Rgba(8) => Some(PixelFormat::Rgba),
        _ => None,
    }
}

/// Turns the image decoded from `image_path` (`None` where decoding failed)
/// into pixels a texture can store, or the error, naming the file, that
/// stops the load. Nothing is handed out for a texture unless every check
/// passed.
pub fn tex_image_2d(image_path: String, decoded: Option<DecodedImage>) -> (r: Result<
    TextureImage,
    TextureError,
>)
    ensures
        r matches Err(e) ==> error_path(e) == image_path@,
        decoded is None ==> r matches Err(TextureError::Decode { .. }),
        decoded matches Some(img) ==> match format_of(img.color) {
            None => r matches Err(TextureError::UnsupportedFormat { .. }),
            Some(format) => if !dimensions_ok(img.width, img.height) {
                r matches Err(TextureError::Dimensions { .. })
            } else if img.pixels@.len() != img.width * img.height * channels(format) {
                r matches Err(TextureError::PixelData { .. })
            } else {
                &&& r matches Ok(t)
                &&& t.wf()
                &&& t.format == format
                &&& t.width == img.width
                &&& t.height == img.height
                &&& t.pixels@ == img.pixels@
            },
        },
{
    let img = match decoded {
        None => return Err(TextureError::Decode { path: image_path }),
        Some(img) => img,
    };
    let format = match pixel_format(img.color) {
        None => return Err(TextureError::UnsupportedFormat { path: image_path }),
        Some(format) => format,
    };
    if img.width == 0 || img.height == 0 || img.width > i32::MAX as u32 || img.height
        > i32::MAX as u32 {
        return Err(TextureError::Dimensions { path: image_path });
    }
    let per_pixel: u128 = match format {
        PixelFormat::Rgb => 3,
        PixelFormat::Rgba => 4,
    };
    let w = img.width as u128;
    let h = img.height as u128;
    assert(w * h <= 0x4000_0000_0000_0000) by (nonlinear_arith)
        requires
            w <= 0x7fff_ffff,
            h <= 0x7fff_ffff,
    ;
    assert(w * h * per_pixel <= 0x1_0000_0000_0000_0000) by (nonlinear_arith)
        requires
            w * h <= 0x4000_0000_0000_0000,
            per_pixel <= 4,
    ;
    if img.pixels.len() as u128 != w * h * per_pixel {
        return Err(TextureError::PixelData { path: image_path });
    }
    Ok(
        TextureImage {
            format,
            width: img.width as i32,
            height: img.height as i32,
            pixels: img.pixels,
        },
    )
}

/// Commands that select the first texture unit, bind `texture` to its 2D
/// target and set its sampler state.
pub open spec fn setup_sequence(texture: u32, sampler: Sampler) -> Seq<Command> {
    seq![
        Command::ActiveTexture(0),
        Command::BindTexture2d(texture),
        Command::TexParameter(TexParameter::MinFilter(sampler.min_filter)),
        Command::TexParameter(TexParameter::MagFilter(sampler.mag_filter)),
        Command::TexParameter(TexParameter::WrapS(sampler.wrap_s)),
        Command::TexParameter(TexParameter::WrapT(sampler.wrap_t)),
    ]
}

/// Commands that store `image` in `texture` at level 0 and build the whole
/// mipmap chain from it.
pub open spec fn upload_sequence(texture: u32, image: &TextureImage, sampler: Sampler) -> Seq<
    Command,
> {
    setup_sequence(texture, sampler) + seq![
        Command::TexImage2d {
            level: 0,
            format: image.format,
            width: image.width,
            height: image.height,
            with_pixels: true,
        },
        Command::GenerateMipmap,
    ]
}

/// Commands that prepare `texture` with the sampler state `sampler`.
pub fn sampled_texture(texture: u32, sampler: Sampler) -> (r: Vec<Command>)
    ensures
        r@ == setup_sequence(texture, sampler),
{
    vec![
        Command::ActiveTexture(0),
        Command::BindTexture2d(texture),
        Command::TexParameter(TexParameter::MinFilter(sampler.min_filter)),
        Command::TexParameter(TexParameter::MagFilter(sampler.mag_filter)),
        Command::TexParameter(TexParameter::WrapS(sampler.wrap_s)),
        Command::TexParameter(TexParameter::WrapT(sampler.wrap_t)),
    ]
}

/// Commands that prepare `texture` with linear filtering and repeat
/// wrapping, and unless `empty` give it undefined RGBA storage of `width` by
/// `height` pixels.
pub fn gen_empty_texture(texture: u32, width: i32, height: i32, empty: bool) -> (r: Vec<Command>)
    ensures
        empty ==> r@ == setup_sequence(texture, linear_repeat()),
        !empty ==> r@ == setup_sequence(texture, linear_repeat()).push(
            Command::TexImage2d {
                level: 0,
                format: PixelFormat::Rgba,
                width,
                height,
                with_pixels: false,
            },
        ),
{
    let mut r = sampled_texture(texture, Sampler::default());
    if !empty {
        r.push(
            Command::TexImage2d {
                level: 0,
                format: PixelFormat::Rgba,
                width,
                height,
                with_pixels: false,
            },
        );
    }
    r
}

/// Commands that store `image` in `texture`, whose sampler state becomes
/// `sampler`, and generate its mipmaps.
pub fn upload_texture(texture: u32, image: &TextureImage, sampler: Sampler) -> (r: Vec<Command>)
    ensures
        r@ == upload_sequence(texture, image, sampler),
{
    let mut r = sampled_texture(texture, sampler);
    r.push(
        Command::TexImage2d {
            level: 0,
            format: image.format,
            width: image.width,
            height: image.height,
            with_pixels: true,
        },
    );
    r.push(Command::GenerateMipmap);
    assert(r@ =~= upload_sequence(texture, image, sampler));
    r
}

/// Commands that bind `texture` to texture unit `unit`.
pub fn bind_texture(texture: u32, unit: u32) -> (r: Vec<Command>)
    ensures
        r@ == seq![Command::ActiveTexture(unit), Command::BindTexture2d(texture)],
{
    vec![Command::ActiveTexture(unit), Command::BindTexture2d(texture)]
}

} // verus!

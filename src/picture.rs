use vstd::prelude::*;

verus! {

#[verifier::external_type_specification]
#[verifier::external_body]
pub struct ExDynamicImage(image::DynamicImage);

#[verifier::external_type_specification]
#[verifier::external_body]
pub struct ExImageError(image::ImageError);

/// The eight bytes that open every PNG stream.
pub open spec fn png_signature() -> Seq<u8> {
    seq![137u8, 80u8, 78u8, 71u8, 13u8, 10u8, 26u8, 10u8]
}

/// The unsigned big-endian number held in `b[at..at + 4]`.
pub open spec fn be_u32_at(b: Seq<u8>, at: int) -> int {
    ((b[at] as int * 256 + b[at + 1] as int) * 256 + b[at + 2] as int) * 256 + b[at + 3] as int
}

/// `b` starts as a PNG stream whose header chunk (IHDR, which PNG places
/// first) gives the image `width` columns and `height` rows.
pub open spec fn png_header_gives(b: Seq<u8>, width: int, height: int) -> bool {
    &&& b.len() >= 24
    &&& b.subrange(0, 8) == png_signature()
    &&& b.subrange(12, 16) == seq![73u8, 72u8, 68u8, 82u8]
    &&& be_u32_at(b, 16) == width
    &&& be_u32_at(b, 20) == height
}

/// Resampling a `width` by `height` picture to `new_width` by `new_height`
/// reads source pixels on both axes, so the source must not be empty. It goes
/// through a `width` by `new_height` buffer of four 32-bit channels per pixel,
/// and no pixel of the result takes more than that: both buffers must fit in
/// the address space.
pub open spec fn resample_fits(width: int, height: int, new_width: int, new_height: int) -> bool {
    &&& width > 0
    &&& height > 0
    &&& width * new_height * 16 <= isize::MAX
    &&& new_width * new_height * 16 <= isize::MAX
}

/// A decoded image together with its width and height in pixels, and whether
/// its samples are 32-bit floats.
///
/// Pictures are only made by `Picture::new`, which reads these from the image,
/// and by `resample`, whose image is exactly as large as asked and keeps the
/// sample type of its source, so the fields always describe the pixels held.
pub struct Picture {
    image: image::DynamicImage,
    width: u32,
    height: u32,
    float_samples: bool,
}

/// Relies on the image crate's `GenericImageView::dimensions` for
/// `DynamicImage` to read the width and height of a decoded image.
#[verifier::external_body]
fn dimensions_of(image: &image::DynamicImage) -> (r: (u32, u32)) {
    image::GenericImageView::dimensions(image)
}

/// Relies on `DynamicImage::color` of the image crate to tell the two colour
/// types with 32-bit float samples from the 8- and 16-bit ones.
#[verifier::external_body]
fn float_samples_of(image: &image::DynamicImage) -> (r: bool) {
    matches!(image.color(), image::ColorType::Rgb32F | image::ColorType::Rgba32F)
}

/// Relies on `DynamicImage::resize_exact` of the image crate: the image it
/// returns is exactly `width` by `height`, whatever the source's aspect ratio,
/// and has the same colour type as the source.
#[verifier::external_body]
fn resize_gaussian(source: &Picture, width: u32, height: u32) -> (r: Picture)
    requires
        resample_fits(source.width() as int, source.height() as int, width as int, height as int),
    ensures
        r.width() == width,
        r.height() == height,
        r.float_samples() == source.float_samples(),
{
    Picture {
        image: source.image.resize_exact(width, height, image::imageops::FilterType::Gaussian),
        width,
        height,
        float_samples: source.float_samples,
    }
}

/// Relies on `DynamicImage::write_to` of the image crate with the PNG output
/// format, into memory: on success the bytes begin with the PNG signature and
/// an IHDR chunk holding the image's width and height. The encoder refuses
/// 32-bit float samples and an empty image, and nothing else.
#[verifier::external_body]
fn write_png(picture: &Picture) -> (r: Result<Vec<u8>, image::ImageError>)
    ensures
        r matches Ok(bytes) ==> png_header_gives(bytes@, picture.width() as int, picture.height() as int),
        picture.width() > 0 && picture.height() > 0 && !picture.float_samples() ==> r is Ok,
        picture.float_samples() ==> r is Err,
{
    let mut out = std::io::Cursor::new(Vec::new());
    match picture.image.write_to(&mut out, image::ImageOutputFormat::Png) {
        Ok(()) => Ok(out.into_inner()),
        Err(e) => Err(e),
    }
}

/// Relies on the `Display` impl of the image crate's `ImageError` for the
/// message shown to the user.
#[verifier::external_body]
fn error_message(e: &image::ImageError) -> (r: String) {
    e.to_string()
}

impl Picture {
    /// Width in pixels.
    pub closed spec fn spec_width(&self) -> u32 {
        self.width
    }

    /// Height in pixels.
    pub closed spec fn spec_height(&self) -> u32 {
        self.height
    }

    /// Whether the samples are 32-bit floats.
    pub closed spec fn spec_float_samples(&self) -> bool {
        self.float_samples
    }

    /// Wraps a decoded image, reading its dimensions and sample type.
    pub fn new(image: image::DynamicImage) -> (r: Picture) {
        let (width, height) = dimensions_of(&image);
        let float_samples = float_samples_of(&image);
        Picture { image, width, height, float_samples }
    }

    /// Whether the samples are 32-bit floats, which PNG cannot hold.
    #[verifier::when_used_as_spec(spec_float_samples)]
    pub fn float_samples(&self) -> (r: bool)
        ensures
            r == self.spec_float_samples(),
    {
        self.float_samples
    }

    /// Width in pixels.
    #[verifier::when_used_as_spec(spec_width)]
    pub fn width(&self) -> (r: u32)
        ensures
            r == self.spec_width(),
    {
        self.width
    }

    /// Height in pixels.
    #[verifier::when_used_as_spec(spec_height)]
    pub fn height(&self) -> (r: u32)
        ensures
            r == self.spec_height(),
    {
        self.height
    }

    /// Whether the picture can be resampled to the given dimensions.
    pub fn fits_resample(&self, width: u32, height: u32) -> (r: bool)
        ensures
            r == resample_fits(self.width() as int, self.height() as int, width as int, height as int),
    {
        let limit: u128 = isize::MAX as u128;
        let w: u128 = self.width as u128;
        let h: u128 = self.height as u128;
        let nw: u128 = width as u128;
        let nh: u128 = height as u128;
        proof {
            assert(w * nh <= 0xffff_ffff * 0xffff_ffff) by (nonlinear_arith)
                requires w <= 0xffff_ffff, nh <= 0xffff_ffff;
            assert(nw * nh <= 0xffff_ffff * 0xffff_ffff) by (nonlinear_arith)
                requires nw <= 0xffff_ffff, nh <= 0xffff_ffff;
        }
        w > 0 && h > 0 && w * nh * 16 <= limit && nw * nh * 16 <= limit
    }

    /// Resamples the picture to exactly `width` by `height` with a Gaussian
    /// filter; the two axes are scaled independently.
    pub fn resample(&self, width: u32, height: u32) -> (r: Picture)
        requires
            resample_fits(self.width() as int, self.height() as int, width as int, height as int),
        ensures
            r.width() == width,
            r.height() == height,
            r.float_samples() == self.float_samples(),
    {
        resize_gaussian(self, width, height)
    }

    /// Encodes the picture as a PNG stream; an encoder failure is returned as
    /// its message. A non-empty picture with 8- or 16-bit samples always
    /// encodes; one with 32-bit float samples never does.
    pub fn encode_png(&self) -> (r: Result<Vec<u8>, String>)
        ensures
            r matches Ok(bytes) ==> png_header_gives(bytes@, self.width() as int, self.height() as int),
            self.width() > 0 && self.height() > 0 && !self.float_samples() ==> r is Ok,
            self.float_samples() ==> r is Err,
    {
        match write_png(self) {
            Ok(bytes) => Ok(bytes),
            Err(e) => Err(error_message(&e)),
        }
    }
}

} // verus!

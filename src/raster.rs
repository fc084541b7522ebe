//! RGB images, held as buffers of the `image` crate and seen through their
//! size and their pixels.
use vstd::prelude::*;

verus! {

/// An 8-bit RGB image.
#[verifier::external_body]
pub struct Image {
    buffer: image::RgbImage,
}

/// The width of an image, in pixels.
pub uninterp spec fn image_width(img: Image) -> nat;

/// The height of an image, in pixels.
pub uninterp spec fn image_height(img: Image) -> nat;

/// The pixels of an image, row by row from the top, each row from the left.
pub uninterp spec fn image_pixels(img: Image) -> Seq<(u8, u8, u8)>;

/// The first `n` pixels held in `bytes`, three bytes (red, green, blue) each.
pub open spec fn pixels_of_bytes(bytes: Seq<u8>, n: nat) -> Seq<(u8, u8, u8)> {
    Seq::new(n, |i: int| (bytes[3 * i], bytes[3 * i + 1], bytes[3 * i + 2]))
}

/// The pixel in column `col` and row `row`.
pub open spec fn pixel_at(img: Image, col: int, row: int) -> (u8, u8, u8) {
    image_pixels(img)[row * image_width(img) + col]
}

/// The pixels of the `width` by `height` block of `img` whose top-left pixel
/// is at (`x`, `y`), row by row.
pub open spec fn block_pixels(img: Image, x: int, y: int, width: int, height: int) -> Seq<(u8, u8, u8)> {
    Seq::new((width * height) as nat, |k: int| pixel_at(img, x + k % width, y + k / width))
}

/// `sub` is a copy of the `width` by `height` block of `img` whose top-left
/// pixel is at (`x`, `y`).
pub open spec fn is_sub_image(sub: Image, img: Image, x: int, y: int, width: int, height: int) -> bool {
    &&& image_width(sub) == width
    &&& image_height(sub) == height
    &&& image_pixels(sub) == block_pixels(img, x, y, width, height)
}

/// `a` and `b` hold the same pixels at the same size.
pub open spec fn same_image(a: Image, b: Image) -> bool {
    &&& image_width(a) == image_width(b)
    &&& image_height(a) == image_height(b)
    &&& image_pixels(a) == image_pixels(b)
}

/// Whether `img` can be resampled to `new_width` by `new_height` with every
/// buffer on the way fitting in memory.
pub open spec fn can_resize(img: Image, new_width: nat, new_height: nat) -> bool {
    &&& new_width * new_height * 3 <= usize::MAX
    &&& image_width(img) * new_height * 4 <= usize::MAX
}

/// Relies on `ImageBuffer::from_raw`: a buffer of the given size over `bytes`,
/// made when they hold at least `width * height * 3` bytes, pixel after pixel.
#[verifier::external_body]
fn wrap_raw(width: u32, height: u32, bytes: Vec<u8>) -> (r: Option<Image>)
    requires
        width * height * 3 <= usize::MAX,
        bytes@.len() >= width * height * 3,
    ensures
        r is Some,
        r is Some ==> image_width(r->0) == width && image_height(r->0) == height && image_pixels(r->0)
            == pixels_of_bytes(bytes@, (width * height) as nat),
{
    image::RgbImage::from_raw(width, height, bytes).map(|buffer| Image { buffer })
}

/// Relies on `ImageBuffer::into_raw`: the bytes the buffer holds, pixel after pixel.
#[verifier::external_body]
fn unwrap_raw(img: Image) -> (r: Vec<u8>)
    ensures
        r@.len() >= image_width(img) * image_height(img) * 3,
        pixels_of_bytes(r@, image_width(img) * image_height(img)) == image_pixels(img),
{
    img.buffer.into_raw()
}

/// Relies on `ImageBuffer::dimensions`: the size the buffer was made with. Every
/// buffer holds `width * height * 3` bytes, so that product fits in `usize`.
#[verifier::external_body]
fn buffer_dimensions(img: &Image) -> (r: (u32, u32))
    ensures
        r.0 == image_width(*img),
        r.1 == image_height(*img),
        r.0 * r.1 * 3 <= usize::MAX,
        image_pixels(*img).len() == r.0 * r.1,
{
    img.buffer.dimensions()
}

/// Relies on `imageops::crop_imm` and `SubImage::to_image`: for a block inside
/// the image, a new buffer with a copy of that block's pixels.
#[verifier::external_body]
fn crop_buffer(img: &Image, x: u32, y: u32, width: u32, height: u32) -> (r: Image)
    requires
        x + width <= image_width(*img),
        y + height <= image_height(*img),
    ensures
        is_sub_image(r, *img, x as int, y as int, width as int, height as int),
{
    Image { buffer: image::imageops::crop_imm(&img.buffer, x, y, width, height).to_image() }
}

/// Relies on `imageops::resize` with `FilterType::Lanczos3`: a new buffer of
/// exactly the requested size, also from an empty source. Its pixels come
/// from floating-point arithmetic and are left unstated.
#[verifier::external_body]
fn resize_buffer(img: &Image, new_width: u32, new_height: u32) -> (r: Image)
    requires
        can_resize(*img, new_width as nat, new_height as nat),
    ensures
        image_width(r) == new_width,
        image_height(r) == new_height,
{
    let buffer = image::imageops::resize(
        &img.buffer,
        new_width,
        new_height,
        image::imageops::FilterType::Lanczos3,
    );
    Image { buffer }
}

/// Relies on `Clone` for `ImageBuffer`: a copy of the same size and pixels.
#[verifier::external_body]
fn copy_buffer(img: &Image) -> (r: Image)
    ensures
        same_image(r, *img),
{
    Image { buffer: img.buffer.clone() }
}

impl Image {
    /// An image of the given size over `bytes` (red, green, blue for each
    /// pixel, row by row); `None` when `bytes` is too short for that size.
    pub fn from_raw(width: u32, height: u32, bytes: Vec<u8>) -> (r: Option<Image>)
        ensures
            r is Some <==> width * height * 3 <= usize::MAX && bytes@.len() >= width * height * 3,
            r is Some ==> image_width(r->0) == width && image_height(r->0) == height && image_pixels(r->0)
                == pixels_of_bytes(bytes@, (width * height) as nat),
    {
        assert((width as u64) * (height as u64) <= 0xffff_ffff * 0xffff_ffff) by (nonlinear_arith)
            requires width <= 0xffff_ffff, height <= 0xffff_ffff;
        let area = (width as u64) * (height as u64);
        match area.checked_mul(3) {
            Some(len) => {
                if len <= usize::MAX as u64 && bytes.len() >= len as usize {
                    wrap_raw(width, height, bytes)
                } else {
                    None
                }
            },
            None => None,
        }
    }

    /// The image's bytes: red, green, blue for each pixel, row by row.
    pub fn into_raw(self) -> (r: Vec<u8>)
        ensures
            r@.len() >= image_width(self) * image_height(self) * 3,
            pixels_of_bytes(r@, image_width(self) * image_height(self)) == image_pixels(self),
    {
        unwrap_raw(self)
    }

    /// The width and height of the image, in pixels.
    pub fn dimensions(&self) -> (r: (u32, u32))
        ensures
            r.0 == image_width(*self),
            r.1 == image_height(*self),
            r.0 * r.1 * 3 <= usize::MAX,
    {
        buffer_dimensions(self)
    }

    /// A copy of the `width` by `height` block whose top-left pixel is at (`x`, `y`).
    pub fn crop(&self, x: u32, y: u32, width: u32, height: u32) -> (r: Image)
        requires
            x + width <= image_width(*self),
            y + height <= image_height(*self),
        ensures
            is_sub_image(r, *self, x as int, y as int, width as int, height as int),
    {
        crop_buffer(self, x, y, width, height)
    }

    /// This image resampled with a 3-lobe Lanczos filter to exactly
    /// `new_width` by `new_height`.
    pub fn resize_lanczos3(&self, new_width: u32, new_height: u32) -> (r: Image)
        requires
            can_resize(*self, new_width as nat, new_height as nat),
        ensures
            image_width(r) == new_width,
            image_height(r) == new_height,
    {
        resize_buffer(self, new_width, new_height)
    }

    /// A copy of this image.
    pub fn copy(&self) -> (r: Image)
        ensures
            same_image(r, *self),
    {
        copy_buffer(self)
    }
}

} // verus!

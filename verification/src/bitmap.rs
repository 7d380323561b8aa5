//! The source bitmap: an immutable RGBA raster, four bytes per pixel, rows
//! from top to bottom. Storage and pixel lookup are those of the `image`
//! crate's `ImageBuffer`; everything stated about it goes through the two
//! names `raster_size` and `raster_bytes`.

use vstd::prelude::*;

verus! {

/// An `image::ImageBuffer` of RGBA bytes over a `Vec<u8>`. Its inside is not
/// visible to the verifier; `raster_size` and `raster_bytes` stand for it.
#[verifier::external_body]
pub struct RgbaStore {
    inner: image::ImageBuffer<image::Rgba<u8>, Vec<u8>>,
}

/// The `(width, height)` that an image buffer was made with.
pub uninterp spec fn raster_size(img: RgbaStore) -> (u32, u32);

/// The bytes that an image buffer holds, in storage order.
pub uninterp spec fn raster_bytes(img: RgbaStore) -> Seq<u8>;

/// One row of pixels of this width can be addressed. This is so for every
/// width where addresses have 64 bits.
pub open spec fn row_fits(width: u32) -> bool {
    width * 4 <= usize::MAX
}

/// Number of bytes that one pixel takes.
pub const CHANNELS: usize = 4;

/// Not proved: this states what `image::ImageBuffer::from_raw` does. It
/// multiplies 4 by the width and then by the height, and accepts the buffer
/// exactly when neither product overflows and the buffer holds at least that
/// many bytes; the image then has the given size and holds the buffer as it
/// was.
#[verifier::external_body]
fn raster_from_raw(width: u32, height: u32, buf: Vec<u8>) -> (r: Option<RgbaStore>)
    ensures
        r.is_some() <==> (row_fits(width) && width * height * 4 <= buf@.len()),
        r.is_some() ==> raster_size(r.unwrap()) == (width, height) && raster_bytes(r.unwrap())
            == buf@,
{
    match image::ImageBuffer::from_raw(width, height, buf) {
        Some(inner) => Some(RgbaStore { inner }),
        None => None,
    }
}

/// Not proved: `image::ImageBuffer::width` returns the width the buffer was
/// made with.
#[verifier::external_body]
fn raster_width(img: &RgbaStore) -> (w: u32)
    ensures
        w == raster_size(*img).0,
{
    img.inner.width()
}

/// Not proved: `image::ImageBuffer::height` returns the height the buffer was
/// made with.
#[verifier::external_body]
fn raster_height(img: &RgbaStore) -> (h: u32)
    ensures
        h == raster_size(*img).1,
{
    img.inner.height()
}

/// Not proved: for a position inside the image, `image::ImageBuffer::get_pixel`
/// hands out the four bytes stored from index `4 * (y * width + x)` on.
/// Positions outside the image make it panic and are excluded.
#[verifier::external_body]
fn raster_pixel(img: &RgbaStore, x: u32, y: u32) -> (p: [u8; 4])
    requires
        x < raster_size(*img).0,
        y < raster_size(*img).1,
    ensures
        forall|c: int|
            0 <= c < 4 ==> #[trigger] p@[c] == raster_bytes(*img)[4 * (y * raster_size(*img).0 + x)
                + c],
{
    img.inner.get_pixel(x, y).0
}

/// What a bitmap is: its size and its bytes.
pub ghost struct Raster {
    pub width: nat,
    pub height: nat,
    pub bytes: Seq<u8>,
}

impl Raster {
    /// The byte count matches the size.
    pub open spec fn wf(self) -> bool {
        self.bytes.len() == self.width * self.height * 4
    }

    /// `(x, y)` names a pixel of the raster.
    pub open spec fn contains(self, x: int, y: int) -> bool {
        0 <= x < self.width && 0 <= y < self.height
    }

    /// The four bytes (R, G, B, A) of the pixel at `(x, y)`.
    pub open spec fn pixel(self, x: int, y: int) -> Seq<u8> {
        Seq::new(4, |c: int| self.bytes[4 * (y * self.width + x) + c])
    }
}

/// The captured image. Never changes after construction.
pub struct SourceBitmap {
    raster: RgbaStore,
}

impl View for SourceBitmap {
    type V = Raster;

    closed spec fn view(&self) -> Raster {
        Raster {
            width: raster_size(self.raster).0 as nat,
            height: raster_size(self.raster).1 as nat,
            bytes: raster_bytes(self.raster),
        }
    }
}

impl SourceBitmap {
    /// The bitmap's invariant: exactly `width * height * 4` bytes, and a size
    /// that fits the machine.
    pub open spec fn wf(&self) -> bool {
        &&& self@.wf()
        &&& self@.width <= u32::MAX
        &&& self@.height <= u32::MAX
    }

    /// Builds a bitmap from a raw capture. The capture is accepted exactly
    /// when its length is `width * height * 4` and a row can be addressed.
    pub fn from_raw(width: u32, height: u32, data: Vec<u8>) -> (r: Option<SourceBitmap>)
        ensures
            r.is_some() <==> (data@.len() == width * height * 4 && row_fits(width)),
            r.is_some() ==> r.unwrap().wf() && r.unwrap()@ == (Raster {
                width: width as nat,
                height: height as nat,
                bytes: data@,
            }),
    {
        assert(width * height <= 0xFFFF_FFFF * 0xFFFF_FFFF) by (nonlinear_arith)
            requires
                width <= 0xFFFF_FFFF,
                height <= 0xFFFF_FFFF,
        ;
        let area: u64 = width as u64 * height as u64;
        let len: usize = data.len();
        if area > (usize::MAX / CHANNELS) as u64 || width as u64 > (usize::MAX / CHANNELS) as u64 {
            return None;
        }
        if len != area as usize * CHANNELS {
            return None;
        }
        match raster_from_raw(width, height, data) {
            Some(raster) => Some(SourceBitmap { raster }),
            None => None,
        }
    }

    /// Width in pixels.
    pub fn width(&self) -> (w: u32)
        ensures
            w == self@.width,
    {
        raster_width(&self.raster)
    }

    /// Height in pixels.
    pub fn height(&self) -> (h: u32)
        ensures
            h == self@.height,
    {
        raster_height(&self.raster)
    }

    /// The pixel at `(x, y)`, which must lie inside the bitmap.
    pub fn get_pixel(&self, x: u32, y: u32) -> (p: [u8; 4])
        requires
            self@.contains(x as int, y as int),
        ensures
            p@ == self@.pixel(x as int, y as int),
    {
        let p = raster_pixel(&self.raster, x, y);
        assert(p@ =~= self@.pixel(x as int, y as int));
        p
    }
}

/// The bytes of any pixel inside a well-formed raster lie inside its byte
/// sequence: reading a pixel never reaches past the bitmap.
pub proof fn lemma_pixel_bytes_in_range(r: Raster, x: int, y: int, c: int)
    requires
        r.wf(),
        r.contains(x, y),
        0 <= c < 4,
    ensures
        0 <= 4 * (y * r.width + x) + c < r.bytes.len(),
        r.pixel(x, y)[c] == r.bytes[4 * (y * r.width + x) + c],
{
    let w = r.width as int;
    let h = r.height as int;
    assert(0 <= y * w && y * w + w <= h * w && h * w == w * h) by (nonlinear_arith)
        requires
            0 <= y < h,
            0 <= w,
    ;
}

} // verus!

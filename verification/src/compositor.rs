//! The frame compositor: nearest-neighbour resampling of the source bitmap
//! into a destination buffer of four bytes per pixel.
//!
//! The viewport transform is separable, so it reaches the compositor as two
//! sample maps: for each destination column the source column it falls on,
//! and likewise for rows. An entry is `None` where the source coordinate is
//! negative, and otherwise the coordinate truncated toward zero.

use vstd::prelude::*;
use vstd::arithmetic::div_mod::{
    lemma_div_by_multiple, lemma_div_is_ordered, lemma_fundamental_div_mod_converse,
};
use crate::bitmap::{Raster, SourceBitmap};

verus! {

/// Opaque black, the colour of everything outside the image.
pub open spec fn black() -> Seq<u8> {
    seq![0u8, 0u8, 0u8, 255u8]
}

/// The colour seen through one pair of sample coordinates: the source pixel
/// when both are present and inside the bitmap, black otherwise.
pub open spec fn sampled(src: Raster, col: Option<u32>, row: Option<u32>) -> Seq<u8> {
    if col.is_some() && row.is_some() && src.contains(col.unwrap() as int, row.unwrap() as int) {
        src.pixel(col.unwrap() as int, row.unwrap() as int)
    } else {
        black()
    }
}

/// The colour of destination pixel number `p`, pixels counted row by row in a
/// window `cols.len()` wide and `rows.len()` high. Pixels beyond the window
/// are black.
pub open spec fn composed_pixel(
    src: Raster,
    cols: Seq<Option<u32>>,
    rows: Seq<Option<u32>>,
    p: int,
) -> Seq<u8> {
    let w = cols.len() as int;
    if w > 0 && 0 <= p / w < rows.len() {
        sampled(src, cols[p % w], rows[p / w])
    } else {
        black()
    }
}

/// The composited frame: every whole pixel of the buffer is assigned its
/// colour; up to three trailing bytes that form no pixel stay as they were.
pub open spec fn composed(
    before: Seq<u8>,
    src: Raster,
    cols: Seq<Option<u32>>,
    rows: Seq<Option<u32>>,
) -> Seq<u8> {
    Seq::new(
        before.len(),
        |i: int|
            if i / 4 < before.len() / 4 {
                composed_pixel(src, cols, rows, i / 4)[i % 4]
            } else {
                before[i]
            },
    )
}

/// Looks one pair of sample coordinates up in the bitmap.
pub fn sample(bitmap: &SourceBitmap, col: Option<u32>, row: Option<u32>) -> (px: [u8; 4])
    ensures
        px@ == sampled(bitmap@, col, row),
{
    let background: [u8; 4] = [0u8, 0u8, 0u8, 255u8];
    assert(background@ =~= black());
    match (col, row) {
        (Some(sx), Some(sy)) => {
            if sx < bitmap.width() && sy < bitmap.height() {
                bitmap.get_pixel(sx, sy)
            } else {
                background
            }
        },
        _ => background,
    }
}

/// Fills `frame` from `bitmap` through the two sample maps. The window is
/// `cols.len()` pixels wide and `rows.len()` high. A buffer shorter than the
/// window gets the pixels that fit; in a longer one the surplus is black.
pub fn render(
    frame: &mut Vec<u8>,
    bitmap: &SourceBitmap,
    cols: &Vec<Option<u32>>,
    rows: &Vec<Option<u32>>,
)
    ensures
        final(frame)@.len() == old(frame)@.len(),
        final(frame)@ == composed(old(frame)@, bitmap@, cols@, rows@),
{
    let n: usize = frame.len() / 4;
    let w: usize = cols.len();
    let h: usize = rows.len();
    let mut p: usize = 0;
    let mut x: usize = 0;
    let mut y: usize = 0;
    while p < n
        invariant
            frame@.len() == old(frame)@.len(),
            frame@.len() <= usize::MAX,
            n == frame@.len() / 4,
            w == cols@.len(),
            h == rows@.len(),
            p <= n,
            w > 0 ==> x < w && p == y * w + x,
            forall|i: int|
                0 <= i < 4 * p ==> frame@[i] == composed(old(frame)@, bitmap@, cols@, rows@)[i],
            forall|i: int| 4 * p <= i < frame@.len() ==> frame@[i] == old(frame)@[i],
        decreases n - p,
    {
        proof {
            if w > 0 {
                lemma_fundamental_div_mod_converse(p as int, w as int, y as int, x as int);
            }
        }
        let px = if w > 0 && y < h {
            sample(bitmap, cols[x], rows[y])
        } else {
            let background: [u8; 4] = [0u8, 0u8, 0u8, 255u8];
            assert(background@ =~= black());
            background
        };
        assert(px@ == composed_pixel(bitmap@, cols@, rows@, p as int));
        let base: usize = 4 * p;
        frame.set(base, px[0]);
        frame.set(base + 1, px[1]);
        frame.set(base + 2, px[2]);
        frame.set(base + 3, px[3]);
        if w > 0 {
            assert(y <= y * w && y * w + w == (y + 1) * w) by (nonlinear_arith)
                requires
                    w >= 1,
                    y >= 0,
            ;
            x += 1;
            if x == w {
                x = 0;
                y += 1;
            }
        }
        p += 1;
    }
    assert(frame@ =~= composed(old(frame)@, bitmap@, cols@, rows@));
}

/// Number of bytes in a frame of the given size.
pub open spec fn frame_len(width: u32, height: u32) -> nat {
    (width * height * 4) as nat
}

/// A byte sequence brought to length `len`: what fits is kept, what is new
/// is zero.
pub open spec fn resized(before: Seq<u8>, len: nat) -> Seq<u8> {
    Seq::new(len, |i: int| if i < before.len() { before[i] } else { 0u8 })
}

/// A frame of the given size can be held in a vector.
pub open spec fn frame_fits(width: u32, height: u32) -> bool {
    frame_len(width, height) <= isize::MAX
}

/// Brings `frame` to the length that a `width` by `height` window needs.
/// Returns `false`, with the frame untouched, when no vector can be that
/// long.
pub fn resize_frame(frame: &mut Vec<u8>, width: u32, height: u32) -> (done: bool)
    ensures
        done == frame_fits(width, height),
        done ==> final(frame)@ == resized(old(frame)@, frame_len(width, height)),
        !done ==> final(frame)@ == old(frame)@,
{
    assert(width * height <= 0xFFFF_FFFF * 0xFFFF_FFFF) by (nonlinear_arith)
        requires
            width <= 0xFFFF_FFFF,
            height <= 0xFFFF_FFFF,
    ;
    let area: u64 = width as u64 * height as u64;
    if area > (isize::MAX / 4) as u64 {
        return false;
    }
    let len: usize = area as usize * 4;
    frame.resize(len, 0u8);
    assert(final(frame)@ =~= resized(old(frame)@, frame_len(width, height)));
    true
}

/// In a window `cols.len()` wide, the pixel at column `x` of row `y` shows
/// what the two sample maps select for that column and row, provided the
/// buffer is long enough to hold it.
pub proof fn lemma_pixel_at_position(
    before: Seq<u8>,
    src: Raster,
    cols: Seq<Option<u32>>,
    rows: Seq<Option<u32>>,
    x: int,
    y: int,
    c: int,
)
    requires
        0 <= x < cols.len(),
        0 <= y < rows.len(),
        0 <= c < 4,
        4 * (y * cols.len() + x) + 3 < before.len(),
    ensures
        0 <= 4 * (y * cols.len() + x) + c < before.len(),
        composed(before, src, cols, rows)[4 * (y * cols.len() + x) + c] == sampled(
            src,
            cols[x],
            rows[y],
        )[c],
{
    let w = cols.len() as int;
    let p = y * w + x;
    assert(0 <= y * w) by (nonlinear_arith)
        requires
            0 <= y,
            0 <= w,
    ;
    lemma_fundamental_div_mod_converse(p, w, y, x);
    assert((4 * p + c) / 4 == p && (4 * p + c) % 4 == c);
}

/// Whole pixels of the buffer that lie beyond the window are black.
pub proof fn lemma_beyond_window_black(
    src: Raster,
    cols: Seq<Option<u32>>,
    rows: Seq<Option<u32>>,
    p: int,
)
    requires
        p >= cols.len() * rows.len(),
    ensures
        composed_pixel(src, cols, rows, p) == black(),
{
    let w = cols.len() as int;
    let h = rows.len() as int;
    if w > 0 {
        lemma_div_is_ordered(h * w, p, w);
        lemma_div_by_multiple(h, w);
        assert(w * h == h * w) by (nonlinear_arith);
    }
}

/// Sampling is safe: a composited pixel is either black or the pixel at a
/// position that lies inside the source bitmap.
pub proof fn lemma_pixel_is_black_or_from_source(
    src: Raster,
    cols: Seq<Option<u32>>,
    rows: Seq<Option<u32>>,
    p: int,
)
    ensures
        composed_pixel(src, cols, rows, p) == black() || exists|sx: int, sy: int|
            src.contains(sx, sy) && composed_pixel(src, cols, rows, p) == src.pixel(sx, sy),
{
    let w = cols.len() as int;
    if w > 0 && 0 <= p / w < rows.len() {
        let col = cols[p % w];
        let row = rows[p / w];
        if col.is_some() && row.is_some() && src.contains(
            col.unwrap() as int,
            row.unwrap() as int,
        ) {
            assert(src.contains(col.unwrap() as int, row.unwrap() as int) && composed_pixel(
                src,
                cols,
                rows,
                p,
            ) == src.pixel(col.unwrap() as int, row.unwrap() as int));
        }
    }
}

/// Compositing keeps the buffer's length and does not depend on what the
/// whole pixels of the buffer held before.
pub proof fn lemma_frame_is_overwritten(
    a: Seq<u8>,
    b: Seq<u8>,
    src: Raster,
    cols: Seq<Option<u32>>,
    rows: Seq<Option<u32>>,
)
    requires
        a.len() == b.len(),
        a.len() % 4 == 0,
    ensures
        composed(a, src, cols, rows).len() == a.len(),
        composed(a, src, cols, rows) == composed(b, src, cols, rows),
{
    assert(composed(a, src, cols, rows) =~= composed(b, src, cols, rows));
}

/// Compositing keeps the frame's length.
pub proof fn lemma_compositing_keeps_length(
    before: Seq<u8>,
    src: Raster,
    cols: Seq<Option<u32>>,
    rows: Seq<Option<u32>>,
)
    ensures
        composed(before, src, cols, rows).len() == before.len(),
{
}

} // verus!

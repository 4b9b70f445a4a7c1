//! Geometry of the per-frame work: where a region sits in a frame, and the
//! vertical flip that the cropped rows need before they reach the encoder.

use crate::error::PipelineError;
use crate::types::Region;
use vstd::arithmetic::div_mod::lemma_fundamental_div_mod;
use vstd::arithmetic::div_mod::lemma_fundamental_div_mod_converse;
use vstd::prelude::*;

verus! {

/// Bytes per pixel of the frames handled here (four 8-bit channels).
pub const BYTES_PER_PIXEL: u32 = 4;

/// The half-open pixel rectangle `[start_x, end_x) x [start_y, end_y)` that a
/// capture backend is asked to cut out of a frame.
#[derive(Debug, Clone, Copy, PartialEq, Eq, Structural)]
pub struct CropRect {
    pub start_x: u32,
    pub start_y: u32,
    pub end_x: u32,
    pub end_y: u32,
}

impl Region {
    /// The region has at least one pixel.
    pub open spec fn is_nonempty(&self) -> bool {
        self.width > 0 && self.height > 0
    }

    /// The region lies wholly inside a frame of the given size.
    pub open spec fn fits(&self, frame_width: u32, frame_height: u32) -> bool {
        &&& self.x >= 0
        &&& self.y >= 0
        &&& self.x + self.width <= frame_width
        &&& self.y + self.height <= frame_height
    }

    /// The rectangle that the region denotes, where it fits a frame.
    pub open spec fn rect(&self) -> CropRect {
        CropRect {
            start_x: self.x as u32,
            start_y: self.y as u32,
            end_x: (self.x + self.width) as u32,
            end_y: (self.y + self.height) as u32,
        }
    }

    /// Number of bytes that the region's pixels occupy without row padding.
    pub open spec fn byte_len(&self) -> int {
        frame_bytes(self.width, self.height)
    }

    /// Checks the region against the size of the frame that actually arrived
    /// and gives the rectangle to cut out.
    ///
    /// A region that reaches past the frame, or starts left of or above it, is
    /// refused with `CropOutOfBounds`; one inside the frame but without pixels
    /// with `EmptyRegion`. Nothing outside the frame is ever asked for.
    pub fn crop_rect(&self, frame_width: u32, frame_height: u32) -> (res: Result<
        CropRect,
        PipelineError,
    >)
        ensures
            !self.fits(frame_width, frame_height) ==> res == Err::<CropRect, PipelineError>(
                PipelineError::CropOutOfBounds,
            ),
            self.fits(frame_width, frame_height) && !self.is_nonempty() ==> res == Err::<
                CropRect,
                PipelineError,
            >(PipelineError::EmptyRegion),
            self.fits(frame_width, frame_height) && self.is_nonempty() ==> res == Ok::<
                CropRect,
                PipelineError,
            >(self.rect()),
            res is Ok ==> res->Ok_0.start_x < res->Ok_0.end_x <= frame_width && res->Ok_0.start_y
                < res->Ok_0.end_y <= frame_height,
    {
        if self.x < 0 || self.y < 0 {
            return Err(PipelineError::CropOutOfBounds);
        }
        let end_x: i64 = self.x as i64 + self.width as i64;
        let end_y: i64 = self.y as i64 + self.height as i64;
        if end_x > frame_width as i64 || end_y > frame_height as i64 {
            return Err(PipelineError::CropOutOfBounds);
        }
        if self.width == 0 || self.height == 0 {
            return Err(PipelineError::EmptyRegion);
        }
        Ok(
            CropRect {
                start_x: self.x as u32,
                start_y: self.y as u32,
                end_x: end_x as u32,
                end_y: end_y as u32,
            },
        )
    }
}

/// Bytes in one unpadded row of `width` pixels.
pub open spec fn row_bytes(width: u32) -> int {
    width * BYTES_PER_PIXEL
}

/// Bytes in an unpadded image of `width` by `height` pixels.
pub open spec fn frame_bytes(width: u32, height: u32) -> int {
    row_bytes(width) * height
}

/// The image `buf` of `rows` rows, each `row_len` bytes, turned upside down:
/// row `i` of the result is row `rows - 1 - i` of `buf`, byte for byte.
pub open spec fn flipped(buf: Seq<u8>, row_len: int, rows: int) -> Seq<u8> {
    Seq::new(
        (row_len * rows) as nat,
        |k: int| buf[(rows - 1 - k / row_len) * row_len + k % row_len],
    )
}

/// Where byte `k` of a flipped image comes from lies inside the image, in the
/// mirrored row and the same column.
pub proof fn lemma_flip_source(row_len: int, rows: int, k: int)
    requires
        row_len > 0,
        rows >= 0,
        0 <= k < row_len * rows,
    ensures
        0 <= k / row_len < rows,
        0 <= k % row_len < row_len,
        0 <= (rows - 1 - k / row_len) * row_len + k % row_len < row_len * rows,
        ((rows - 1 - k / row_len) * row_len + k % row_len) / row_len == rows - 1 - k / row_len,
        ((rows - 1 - k / row_len) * row_len + k % row_len) % row_len == k % row_len,
{
    let q = k / row_len;
    let r = k % row_len;
    lemma_fundamental_div_mod(k, row_len);
    assert(0 <= r < row_len);
    assert(0 <= q < rows) by (nonlinear_arith)
        requires
            k == row_len * q + r,
            0 <= r < row_len,
            0 <= k < row_len * rows,
            row_len > 0,
    ;
    let m = rows - 1 - q;
    assert(0 <= m * row_len + r < row_len * rows) by (nonlinear_arith)
        requires
            0 <= m <= rows - 1,
            0 <= r < row_len,
    ;
    lemma_fundamental_div_mod_converse(m * row_len + r, row_len, m, r);
}

/// Row `i` of a flipped image is row `rows - 1 - i` of the image, whole and in
/// its own order.
pub proof fn lemma_flipped_row(buf: Seq<u8>, row_len: int, rows: int, i: int)
    requires
        row_len >= 0,
        0 <= i < rows,
        buf.len() >= row_len * rows,
    ensures
        0 <= i * row_len <= (i + 1) * row_len <= row_len * rows,
        0 <= (rows - 1 - i) * row_len <= (rows - i) * row_len <= row_len * rows,
        flipped(buf, row_len, rows).subrange(i * row_len, (i + 1) * row_len) == buf.subrange(
            (rows - 1 - i) * row_len,
            (rows - i) * row_len,
        ),
{
    let out = flipped(buf, row_len, rows);
    let from = rows - 1 - i;
    assert(0 <= i * row_len <= (i + 1) * row_len <= row_len * rows && (i + 1) * row_len == i
        * row_len + row_len) by (nonlinear_arith)
        requires
            row_len >= 0,
            0 <= i < rows,
    ;
    assert(0 <= from * row_len <= (from + 1) * row_len <= row_len * rows && (from + 1) * row_len
        == from * row_len + row_len) by (nonlinear_arith)
        requires
            row_len >= 0,
            0 <= from < rows,
    ;
    let a = out.subrange(i * row_len, (i + 1) * row_len);
    let b = buf.subrange(from * row_len, (from + 1) * row_len);
    assert forall|j: int| 0 <= j < row_len implies a[j] == b[j] by {
        lemma_fundamental_div_mod_converse(i * row_len + j, row_len, i, j);
    }
    assert(a =~= b);
}

/// Flipping twice gives back the image: every row returns to where it was.
pub proof fn lemma_flip_twice(buf: Seq<u8>, row_len: int, rows: int)
    requires
        row_len >= 0,
        rows >= 0,
        buf.len() >= row_len * rows,
    ensures
        flipped(flipped(buf, row_len, rows), row_len, rows) == buf.subrange(0, row_len * rows),
{
    let once = flipped(buf, row_len, rows);
    let twice = flipped(once, row_len, rows);
    assert(row_len * rows >= 0) by (nonlinear_arith)
        requires
            row_len >= 0,
            rows >= 0,
    ;
    assert forall|k: int| 0 <= k < row_len * rows implies twice[k] == buf[k] by {
        assert(row_len > 0) by (nonlinear_arith)
            requires
                row_len >= 0,
                0 <= k < row_len * rows,
        ;
        lemma_flip_source(row_len, rows, k);
        lemma_fundamental_div_mod(k, row_len);
        let q = k / row_len;
        let r = k % row_len;
        let src = (rows - 1 - q) * row_len + r;
        assert(twice[k] == once[src]);
        assert(once[src] == buf[(rows - 1 - src / row_len) * row_len + src % row_len]);
        assert((rows - 1 - (rows - 1 - q)) * row_len + r == k) by (nonlinear_arith)
            requires
                k == row_len * q + r,
        ;
    }
    assert(twice =~= buf.subrange(0, row_len * rows));
}

/// Turns an unpadded image of `width` by `height` pixels upside down.
///
/// The first `width * height * 4` bytes of `buf` are the image; bytes beyond
/// them are ignored. A buffer with fewer bytes is refused with `ShortBuffer`.
pub fn flip_rows(buf: &[u8], width: u32, height: u32) -> (res: Result<Vec<u8>, PipelineError>)
    ensures
        buf@.len() < frame_bytes(width, height) ==> res == Err::<Vec<u8>, PipelineError>(
            PipelineError::ShortBuffer,
        ),
        buf@.len() >= frame_bytes(width, height) ==> res is Ok && res->Ok_0@ == flipped(
            buf@,
            row_bytes(width),
            height as int,
        ) && res->Ok_0@.len() == frame_bytes(width, height),
{
    let row_wide: u128 = width as u128 * 4;
    assert(row_wide * height <= 0x4_0000_0000 * 0x1_0000_0000) by (nonlinear_arith)
        requires
            0 <= row_wide <= 0x4_0000_0000,
            0 <= height <= 0x1_0000_0000,
    ;
    let needed: u128 = row_wide * (height as u128);
    let len: usize = buf.len();
    if (len as u128) < needed {
        return Err(PipelineError::ShortBuffer);
    }
    let mut out: Vec<u8> = Vec::new();
    if width == 0 || height == 0 {
        assert(frame_bytes(width, height) == 0) by (nonlinear_arith)
            requires
                width == 0 || height == 0,
        ;
        assert(out@ =~= flipped(buf@, row_bytes(width), height as int));
        return Ok(out);
    }
    let rows: usize = height as usize;
    assert(row_bytes(width) <= frame_bytes(width, height)) by (nonlinear_arith)
        requires
            height >= 1,
    ;
    let row_len: usize = width as usize * 4;
    let ghost want = flipped(buf@, row_len as int, rows as int);
    let mut i: usize = 0;
    while i < rows
        invariant
            0 <= i <= rows,
            row_len > 0,
            row_len * rows <= len,
            len == buf@.len(),
            want == flipped(buf@, row_len as int, rows as int),
            want.len() == row_len * rows,
            out@.len() == i * row_len,
            forall|k: int| 0 <= k < out@.len() ==> out@[k] == want[k],
        decreases rows - i,
    {
        let from: usize = rows - 1 - i;
        assert(0 <= from * row_len && from * row_len + row_len <= row_len * rows && (i + 1)
            * row_len <= row_len * rows) by (nonlinear_arith)
            requires
                from == rows - 1 - i,
                0 <= i < rows,
                row_len > 0,
        ;
        let start: usize = from * row_len;
        let mut j: usize = 0;
        while j < row_len
            invariant
                0 <= j <= row_len,
                0 <= i < rows,
                from == rows - 1 - i,
                start == from * row_len,
                start + row_len <= len,
                len == buf@.len(),
                want == flipped(buf@, row_len as int, rows as int),
                want.len() == row_len * rows,
                out@.len() == i * row_len + j,
                (i + 1) * row_len <= row_len * rows,
                forall|k: int| 0 <= k < out@.len() ==> out@[k] == want[k],
            decreases row_len - j,
        {
            proof {
                let k = i * row_len + j;
                lemma_fundamental_div_mod_converse(k, row_len as int, i as int, j as int);
                assert(0 <= k < row_len * rows) by (nonlinear_arith)
                    requires
                        k == i * row_len + j,
                        0 <= i,
                        0 <= j < row_len,
                        (i + 1) * row_len <= row_len * rows,
                ;
                assert(want[k] == buf@[start + j]);
            }
            out.push(buf[start + j]);
            j += 1;
        }
        i += 1;
        assert(out@.len() == i * row_len) by (nonlinear_arith)
            requires
                out@.len() == (i - 1) * row_len + row_len,
        ;
    }
    assert(out@.len() == row_len * rows) by (nonlinear_arith)
        requires
            out@.len() == i * row_len,
            i == rows,
    ;
    assert(out@ =~= want);
    Ok(out)
}

} // verus!

//! The normalized frame model: an owned, geometry-annotated byte buffer
//! with bounds-checked pixel access.

use vstd::prelude::*;

use crate::error::CaptureError;

verus! {

/// One pixel in the fixed logical channel order (alpha, red, green, blue),
/// independent of how a backend physically stores its bytes.
#[derive(Clone, Copy, PartialEq, Eq, Structural, Debug)]
pub struct Pixel {
    pub a: u8,
    pub r: u8,
    pub g: u8,
    pub b: u8,
}

/// Does a byte buffer of length `len` agree with the claimed geometry?
/// Rows may be padded, so the stride may exceed the packed row width, and
/// the buffer must cover every (possibly padded) row.
pub open spec fn frame_geometry_ok(
    len: int,
    width: int,
    height: int,
    row_len: int,
    pixel_width: int,
) -> bool {
    &&& row_len >= width * pixel_width
    &&& len >= row_len * height
}

/// The pixel stored at byte offset `idx` of a buffer whose physical byte
/// order is blue, green, red, alpha.
pub open spec fn spec_pixel_at(s: Seq<u8>, idx: int) -> Pixel {
    Pixel { a: s[idx + 3], r: s[idx + 2], g: s[idx + 1], b: s[idx] }
}

/// One captured still image. Created only by a successful capture,
/// immutable thereafter; all reads are pure over the captured bytes.
pub struct Screenshot {
    data: Vec<u8>,
    height: usize,
    width: usize,
    row_len: usize,
    pixel_width: usize,
}

impl Screenshot {
    /// The captured bytes.
    pub closed spec fn spec_data(&self) -> Seq<u8> {
        self.data@
    }

    /// Height in pixels.
    pub closed spec fn spec_height(&self) -> usize {
        self.height
    }

    /// Width in pixels.
    pub closed spec fn spec_width(&self) -> usize {
        self.width
    }

    /// Bytes per row, padding included.
    pub closed spec fn spec_row_len(&self) -> usize {
        self.row_len
    }

    /// Bytes per pixel.
    pub closed spec fn spec_pixel_width(&self) -> usize {
        self.pixel_width
    }

    /// The frame's geometry agrees with its buffer. Constructors establish
    /// this and every frame keeps it for its whole life.
    pub open spec fn wf(&self) -> bool {
        frame_geometry_ok(
            self.spec_data().len() as int,
            self.spec_width() as int,
            self.spec_height() as int,
            self.spec_row_len() as int,
            self.spec_pixel_width() as int,
        )
    }

    /// Byte offset of the pixel at `(row, col)`.
    pub open spec fn pixel_index(&self, row: int, col: int) -> int {
        row * self.spec_row_len() + col * self.spec_pixel_width()
    }

    /// Wraps captured bytes and their geometry into a frame, rejecting any
    /// combination whose buffer cannot cover the claimed rows.
    pub fn new(
        data: Vec<u8>,
        width: usize,
        height: usize,
        row_len: usize,
        pixel_width: usize,
    ) -> (r: Result<Screenshot, CaptureError>)
        ensures
            frame_geometry_ok(
                data@.len() as int,
                width as int,
                height as int,
                row_len as int,
                pixel_width as int,
            ) ==> (r matches Ok(f) && f.wf() && f.spec_data() == data@
                && f.spec_width() == width && f.spec_height() == height
                && f.spec_row_len() == row_len && f.spec_pixel_width() == pixel_width),
            !frame_geometry_ok(
                data@.len() as int,
                width as int,
                height as int,
                row_len as int,
                pixel_width as int,
            ) ==> r == Err::<Screenshot, CaptureError>(CaptureError::SizeMismatch),
    {
        proof {
            lemma_u64_product_fits(width as int, pixel_width as int);
            lemma_u64_product_fits(row_len as int, height as int);
        }
        let packed = (width as u128) * (pixel_width as u128);
        if (row_len as u128) < packed {
            return Err(CaptureError::SizeMismatch);
        }
        let covered = (row_len as u128) * (height as u128);
        if (data.len() as u128) < covered {
            return Err(CaptureError::SizeMismatch);
        }
        Ok(Screenshot { data, height, width, row_len, pixel_width })
    }

    /// Height of image in pixels.
    pub fn height(&self) -> (r: usize)
        ensures
            r == self.spec_height(),
    {
        self.height
    }

    /// Width of image in pixels.
    pub fn width(&self) -> (r: usize)
        ensures
            r == self.spec_width(),
    {
        self.width
    }

    /// Number of bytes in one row of the bitmap, padding included.
    pub fn row_len(&self) -> (r: usize)
        ensures
            r == self.spec_row_len(),
    {
        self.row_len
    }

    /// Width of one pixel in bytes.
    pub fn pixel_width(&self) -> (r: usize)
        ensures
            r == self.spec_pixel_width(),
    {
        self.pixel_width
    }

    /// Number of bytes in the bitmap.
    pub fn raw_len(&self) -> (r: usize)
        ensures
            r == self.spec_data().len(),
    {
        self.data.len()
    }

    /// Read-only access to the full buffer, for bulk consumers such as
    /// image encoders. Rows are `spec_row_len()` bytes apart; consumers
    /// must use that stride to skip padding.
    pub fn data(&self) -> (r: &Vec<u8>)
        ensures
            r@ == self.spec_data(),
    {
        &self.data
    }

    /// The pixel at `(row, col)`, remapped from the backend's physical
    /// blue-green-red-alpha byte order into the logical `{a, r, g, b}`
    /// order. Reading the four channel bytes needs at least four bytes per
    /// pixel; an out-of-range access is excluded by contract, so a
    /// verified caller can never trip the bounds fault.
    pub fn get_pixel(&self, row: usize, col: usize) -> (p: Pixel)
        requires
            self.wf(),
            row < self.spec_height(),
            col < self.spec_width(),
            self.spec_pixel_width() >= 4,
        ensures
            p == spec_pixel_at(self.spec_data(), self.pixel_index(row as int, col as int)),
    {
        let total = self.data.len();
        proof {
            lemma_pixel_window_in_bounds(
                total as int,
                self.spec_width() as int,
                self.spec_height() as int,
                self.spec_row_len() as int,
                self.spec_pixel_width() as int,
                row as int,
                col as int,
            );
        }
        let idx = row * self.row_len + col * self.pixel_width;
        Pixel {
            b: self.data[idx],
            g: self.data[idx + 1],
            r: self.data[idx + 2],
            a: self.data[idx + 3],
        }
    }

    /// Bounds-checked pixel access: `Some` exactly on the readable
    /// positions, `None` for every `(row, col)` outside the frame and for
    /// frames whose pixels are too narrow to carry the four channels.
    pub fn try_get_pixel(&self, row: usize, col: usize) -> (r: Option<Pixel>)
        requires
            self.wf(),
        ensures
            (row < self.spec_height() && col < self.spec_width()
                && self.spec_pixel_width() >= 4) ==> r == Some(
                spec_pixel_at(self.spec_data(), self.pixel_index(row as int, col as int)),
            ),
            !(row < self.spec_height() && col < self.spec_width()
                && self.spec_pixel_width() >= 4) ==> r is None,
    {
        if row < self.height && col < self.width && self.pixel_width >= 4 {
            Some(self.get_pixel(row, col))
        } else {
            None
        }
    }
}

/// Every captured frame's buffer covers its rows, and every row covers its
/// packed pixels.
pub proof fn lemma_frame_geometry(f: &Screenshot)
    requires
        f.wf(),
    ensures
        f.spec_data().len() >= f.spec_row_len() * f.spec_height(),
        f.spec_row_len() >= f.spec_width() * f.spec_pixel_width(),
{
}

/// Every pixel read from a well-formed frame succeeds with channel
/// values within `[0, 255]`: the channels are single bytes, and
/// `try_get_pixel` returns `Some` on the whole readable range.
pub proof fn lemma_in_range_read_succeeds(f: &Screenshot, row: usize, col: usize)
    requires
        f.wf(),
        row < f.spec_height(),
        col < f.spec_width(),
        f.spec_pixel_width() >= 4,
    ensures
        ({
            let p = spec_pixel_at(f.spec_data(), f.pixel_index(row as int, col as int));
            0 <= p.a <= 255 && 0 <= p.r <= 255 && 0 <= p.g <= 255 && 0 <= p.b <= 255
        }),
{
}

/// A frame is immutable after capture, so two reads of the same
/// `(row, col)` on the same frame yield identical pixels: the contract of
/// `get_pixel` pins each result to the one pixel the buffer stores there.
pub proof fn lemma_pixel_read_idempotent(
    f: &Screenshot,
    row: int,
    col: int,
    first: Pixel,
    second: Pixel,
)
    requires
        first == spec_pixel_at(f.spec_data(), f.pixel_index(row, col)),
        second == spec_pixel_at(f.spec_data(), f.pixel_index(row, col)),
    ensures
        first == second,
{
}

/// The product of two machine-word values fits in a double-wide word.
pub(crate) proof fn lemma_u64_product_fits(a: int, b: int)
    by (nonlinear_arith)
    requires
        0 <= a < 0x1_0000_0000_0000_0000,
        0 <= b < 0x1_0000_0000_0000_0000,
    ensures
        a * b < 0x1_0000_0000_0000_0000_0000_0000_0000_0000,
{
}

/// Inside a well-formed frame, the four channel bytes of every in-range
/// pixel lie inside the buffer.
proof fn lemma_pixel_window_in_bounds(
    len: int,
    width: int,
    height: int,
    row_len: int,
    pw: int,
    row: int,
    col: int,
)
    by (nonlinear_arith)
    requires
        0 <= row < height,
        0 <= col < width,
        4 <= pw,
        0 <= row_len,
        width * pw <= row_len,
        row_len * height <= len,
    ensures
        0 <= row * row_len,
        0 <= col * pw,
        row * row_len + col * pw + 4 <= len,
{
}

} // verus!

//! The windowed-system backend: a session that caches the display
//! connection's screen geometry and pulls full-screen snapshots from the
//! root drawable.
//!
//! The native connection lives outside the library; [`Screener`] is the
//! session's verified core. It is created from the results of resolving
//! the connection and screen, captures only against the geometry cached at
//! creation, and is closed exactly once. This backend's buffers report no
//! usable alpha on many displays, so a frame whose every alpha byte is
//! zero is repaired to fully opaque before it is wrapped.

use vstd::prelude::*;

use crate::error::CaptureError;
use crate::frame::Screenshot;
use crate::frame::frame_geometry_ok;

verus! {

/// Every alpha byte (every fourth byte of packed 4-byte pixels) is zero:
/// the backend reported no alpha information at all.
pub open spec fn alpha_absent(s: Seq<u8>) -> bool {
    forall|i: int| 0 <= i < s.len() && i % 4 == 3 ==> s[i] == 0
}

/// The buffer with every alpha byte forced to fully opaque and every
/// other byte untouched.
pub open spec fn alpha_forced(s: Seq<u8>) -> Seq<u8> {
    Seq::new(s.len(), |i: int| if i % 4 == 3 { 255u8 } else { s[i] })
}

/// What the alpha-repair pass yields: a buffer without any alpha
/// information becomes fully opaque; a buffer with at least one nonzero
/// alpha byte is left as it is.
pub open spec fn alpha_repaired(s: Seq<u8>) -> Seq<u8> {
    if alpha_absent(s) {
        alpha_forced(s)
    } else {
        s
    }
}

/// The alpha-repair pass: scans all pixels, and only when every alpha
/// byte is zero forces each to 255. A buffer with any nonzero alpha byte
/// is returned unmodified.
pub fn repair_alpha(data: &mut Vec<u8>)
    ensures
        final(data)@ == alpha_repaired(old(data)@),
{
    let ghost orig: Seq<u8> = data@;
    let n = data.len();
    let mut has_alpha = false;
    let mut i: usize = 0;
    while i < n
        invariant
            i <= n,
            n == data@.len(),
            data@ == orig,
            has_alpha == exists|j: int| 0 <= j < i && j % 4 == 3 && orig[j] != 0,
        decreases n - i,
    {
        if i % 4 == 3 && data[i] != 0 {
            has_alpha = true;
            proof {
                assert(0 <= i < i + 1 && i as int % 4 == 3 && orig[i as int] != 0);
            }
        }
        i = i + 1;
    }
    if has_alpha {
        proof {
            assert(!alpha_absent(orig));
        }
        return ;
    }
    proof {
        assert(alpha_absent(orig));
    }
    let mut k: usize = 0;
    while k < n
        invariant
            k <= n,
            n == data@.len(),
            data@.len() == orig.len(),
            forall|j: int| 0 <= j < k ==> data@[j] == alpha_forced(orig)[j],
            forall|j: int| k <= j < n ==> data@[j] == orig[j],
        decreases n - k,
    {
        if k % 4 == 3 {
            data.set(k, 255);
        }
        k = k + 1;
    }
    proof {
        assert(data@ =~= alpha_forced(orig));
    }
}

/// One native image snapshot, as the driver read it out of the image
/// descriptor: the pixel bytes, the reported row stride, and the reported
/// bit depth.
pub struct ImageData {
    /// The image's pixel bytes, covering every (possibly padded) row.
    pub data: Vec<u8>,
    /// Bytes per row as the image descriptor reports them.
    pub bytes_per_line: usize,
    /// Bits per pixel as the image descriptor reports them.
    pub bits_per_pixel: usize,
}

/// What a session capture owes for a snapshot with the given geometry: a
/// non-byte-aligned depth is rejected; a buffer that cannot cover the
/// cached screen is rejected; otherwise the frame holds the bytes, with
/// the alpha-repair pass applied exactly when the pixels are 4 bytes wide.
pub open spec fn x11_result_ok(
    width: int,
    height: int,
    row_len: int,
    pixel_bits: int,
    bytes: Seq<u8>,
    r: Result<Screenshot, CaptureError>,
) -> bool {
    if pixel_bits % 8 != 0 {
        r == Err::<Screenshot, CaptureError>(CaptureError::NonBytePixelDepth)
    } else {
        let pw = pixel_bits / 8;
        if frame_geometry_ok(bytes.len() as int, width, height, row_len, pw) {
            r matches Ok(f) && f.wf() && f.spec_width() == width && f.spec_height() == height
                && f.spec_row_len() == row_len && f.spec_pixel_width() == pw && f.spec_data() == (
            if pw == 4 {
                alpha_repaired(bytes)
            } else {
                bytes
            })
        } else {
            r == Err::<Screenshot, CaptureError>(CaptureError::SizeMismatch)
        }
    }
}

/// A long-lived capture session: the cached screen geometry of one display
/// connection, reused across repeated captures so that each frame skips
/// connection and attribute re-resolution. The session does not re-query
/// geometry per frame; a caller that needs to see a resolution change must
/// recreate it.
pub struct Screener {
    width: usize,
    height: usize,
    open: bool,
}

impl Screener {
    /// Cached screen width in pixels.
    pub closed spec fn spec_width(&self) -> usize {
        self.width
    }

    /// Cached screen height in pixels.
    pub closed spec fn spec_height(&self) -> usize {
        self.height
    }

    /// The session's connection has not been released yet.
    pub closed spec fn is_open(&self) -> bool {
        self.open
    }

    /// Opens a session from the results of the connection protocol:
    /// whether the display connection was opened, whether the requested
    /// screen resolved to a root drawable, and the root's attributes. The
    /// geometry cached here is the geometry every later capture uses.
    pub fn new(connected: bool, screen_found: bool, width: usize, height: usize) -> (r: Result<
        Screener,
        CaptureError,
    >)
        ensures
            !connected ==> r == Err::<Screener, CaptureError>(
                CaptureError::DisplayEnumerationFailed,
            ),
            connected && !screen_found ==> r == Err::<Screener, CaptureError>(
                CaptureError::NoSuchDisplay,
            ),
            connected && screen_found ==> (r matches Ok(s) && s.is_open() && s.spec_width() == width
                && s.spec_height() == height),
    {
        if !connected {
            return Err(CaptureError::DisplayEnumerationFailed);
        }
        if !screen_found {
            return Err(CaptureError::NoSuchDisplay);
        }
        Ok(Screener { width, height, open: true })
    }

    /// Cached screen width in pixels.
    pub fn width(&self) -> (r: usize)
        ensures
            r == self.spec_width(),
    {
        self.width
    }

    /// Cached screen height in pixels.
    pub fn height(&self) -> (r: usize)
        ensures
            r == self.spec_height(),
    {
        self.height
    }

    /// Whether the session is still open; a closed session takes no more
    /// captures.
    pub fn active(&self) -> (r: bool)
        ensures
            r == self.is_open(),
    {
        self.open
    }

    /// Wraps one snapshot of the root drawable into a frame against the
    /// cached geometry: rejects a depth that is not a whole number of
    /// bytes, rejects a buffer that cannot cover the cached screen, and
    /// repairs a universally absent alpha channel. Calling this on a
    /// closed session is a programming error and is excluded by contract.
    pub fn get_screenshot(&self, image: ImageData) -> (r: Result<Screenshot, CaptureError>)
        requires
            self.is_open(),
        ensures
            x11_result_ok(
                self.spec_width() as int,
                self.spec_height() as int,
                image.bytes_per_line as int,
                image.bits_per_pixel as int,
                image.data@,
                r,
            ),
    {
        let ImageData { mut data, bytes_per_line, bits_per_pixel } = image;
        if bits_per_pixel % 8 != 0 {
            return Err(CaptureError::NonBytePixelDepth);
        }
        let pixel_width = bits_per_pixel / 8;
        if pixel_width == 4 {
            repair_alpha(&mut data);
        }
        Screenshot::new(data, self.width, self.height, bytes_per_line, pixel_width)
    }

    /// Releases the session: after this the connection and root drawable
    /// are given back, exactly once — the contract forbids a second
    /// close, and every capture demands an open session.
    pub fn close(&mut self)
        requires
            old(self).is_open(),
        ensures
            !final(self).is_open(),
            final(self).spec_width() == old(self).spec_width(),
            final(self).spec_height() == old(self).spec_height(),
    {
        self.open = false;
    }
}

} // verus!

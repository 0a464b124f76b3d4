//! The device-context backend: a block copy of the whole screen into an
//! off-screen bitmap, delivered bottom-up and 32-bit packed.
//!
//! The native calls live outside the library; here stands everything the
//! backend decides. [`GdiCapture`] is the capture protocol as a step
//! machine: the driver performs one native call per returned action and
//! hands the outcome back as an event. Its contract pins the order of the
//! steps, the error reported for each way a step can fail, and — for every
//! path, success or failure — that each native object acquired during the
//! attempt is released exactly once before the attempt finishes.

use vstd::arithmetic::div_mod::lemma_fundamental_div_mod_converse;
use vstd::prelude::*;

use crate::error::CaptureError;
use crate::frame::Screenshot;
use crate::frame::lemma_u64_product_fits;

verus! {

/// Where byte `i` of the flipped buffer comes from: the same column of
/// row `height - 1 - (i's row)` of the original.
pub open spec fn flip_src(height: int, row_len: int, i: int) -> int {
    (height - 1 - i / row_len) * row_len + i % row_len
}

/// The buffer with its rows reordered last-to-first: row `i` of the result
/// is row `height - 1 - i` of the input, moved whole, `row_len` bytes at a
/// time.
pub open spec fn flipped(s: Seq<u8>, height: int, row_len: int) -> Seq<u8> {
    Seq::new(s.len(), |i: int| s[flip_src(height, row_len, i)])
}

/// Reorders the rows of a bottom-up bitmap, last to first, so that row 0
/// of the result is the top of the screen. Rows move as whole `row_len`
/// byte runs; no byte inside a row is touched.
pub fn flip_rows(data: Vec<u8>, height: usize, row_len: usize) -> (r: Vec<u8>)
    requires
        data@.len() == height * row_len,
    ensures
        r@ == flipped(data@, height as int, row_len as int),
{
    let total = data.len();
    let mut out: Vec<u8> = Vec::new();
    let mut row: usize = 0;
    while row < height
        invariant
            row <= height,
            total == data@.len(),
            data@.len() == height * row_len,
            out@.len() == row * row_len,
            forall|i: int|
                0 <= i < out@.len() ==> out@[i] == data@[flip_src(
                    height as int,
                    row_len as int,
                    i,
                )],
        decreases height - row,
    {
        proof {
            assert((height - 1 - row) * row_len + row_len <= height * row_len)
                by (nonlinear_arith)
                requires
                    0 <= row < height,
                    0 <= row_len,
            ;
        }
        let src_base = (height - 1 - row) * row_len;
        let mut j: usize = 0;
        while j < row_len
            invariant
                j <= row_len,
                row < height,
                total == data@.len(),
                data@.len() == height * row_len,
                src_base == (height - 1 - row) * row_len,
                src_base + row_len <= total,
                out@.len() == row * row_len + j,
                forall|i: int|
                    0 <= i < out@.len() ==> out@[i] == data@[flip_src(
                        height as int,
                        row_len as int,
                        i,
                    )],
            decreases row_len - j,
        {
            let byte = data[src_base + j];
            out.push(byte);
            proof {
                let i0: int = row as int * row_len as int + j as int;
                lemma_fundamental_div_mod_converse(i0, row_len as int, row as int, j as int);
                assert(out@[i0] == data@[flip_src(height as int, row_len as int, i0)]);
            }
            j = j + 1;
        }
        proof {
            assert((row + 1) * row_len == row * row_len + row_len) by (nonlinear_arith);
        }
        row = row + 1;
    }
    proof {
        assert(out@ =~= flipped(data@, height as int, row_len as int));
    }
    out
}

/// What the device-context backend owes for a raw bottom-up buffer read
/// back with the claimed geometry: a frame whose rows are the flipped rows
/// of the buffer, or a size-mismatch error when the buffer cannot be a
/// packed `width x height` image of 4-byte pixels.
pub open spec fn gdi_result_ok(
    width: int,
    height: int,
    bytes: Seq<u8>,
    r: Result<Screenshot, CaptureError>,
) -> bool {
    if width * 4 <= usize::MAX && bytes.len() == width * height * 4 {
        r matches Ok(f) && f.wf() && f.spec_width() == width && f.spec_height() == height
            && f.spec_row_len() == width * 4 && f.spec_pixel_width() == 4 && f.spec_data()
            == flipped(bytes, height, width * 4)
    } else {
        r == Err::<Screenshot, CaptureError>(CaptureError::SizeMismatch)
    }
}

/// Builds the frame from the bits pulled out of the off-screen bitmap:
/// validates that the buffer is exactly `width * height` packed 4-byte
/// pixels, undoes the native bottom-up row order, and annotates the
/// result with its geometry.
pub fn gdi_assemble(width: usize, height: usize, data: Vec<u8>) -> (r: Result<
    Screenshot,
    CaptureError,
>)
    ensures
        gdi_result_ok(width as int, height as int, data@, r),
{
    if width > usize::MAX / 4 {
        proof {
            assert(width * 4 > usize::MAX);
        }
        return Err(CaptureError::SizeMismatch);
    }
    let row_len = width * 4;
    let total = data.len();
    proof {
        lemma_u64_product_fits(height as int, row_len as int);
        assert(height * row_len == width * height * 4) by (nonlinear_arith)
            requires
                row_len == width * 4,
        ;
    }
    if (total as u128) != (height as u128) * (row_len as u128) {
        return Err(CaptureError::SizeMismatch);
    }
    let top_down = flip_rows(data, height, row_len);
    proof {
        assert(row_len * height == height * row_len) by (nonlinear_arith);
    }
    match Screenshot::new(top_down, width, height, row_len, 4) {
        Ok(f) => Ok(f),
        Err(_) => Err(CaptureError::SizeMismatch),
    }
}

/// Where the capture protocol stands: which native call is outstanding.
#[derive(Clone, Copy, PartialEq, Eq, Structural, Debug)]
pub enum GdiPhase {
    /// Waiting for the desktop device context and the screen metrics.
    AwaitScreenDc,
    /// Waiting for the compatible off-screen device context.
    AwaitMemDc,
    /// Waiting for the compatible off-screen bitmap.
    AwaitBitmap,
    /// Waiting for the bitmap to be selected into its context.
    AwaitSelect,
    /// Waiting for the block copy from the screen.
    AwaitBlit,
    /// Waiting for the bitmap's bits, read back bottom-up.
    AwaitBits,
    /// The outcome is decided; waiting for the screen context release.
    AwaitScreenDcRelease,
    /// Waiting for the off-screen context release.
    AwaitMemDcRelease,
    /// Waiting for the bitmap release.
    AwaitBitmapRelease,
    /// The attempt is finished; no further event is expected.
    Done,
}

/// The outcome of the native call the driver just performed.
pub enum GdiEvent {
    /// The desktop device context is held; the system reports this screen
    /// size in pixels.
    ScreenDcAcquired { width: i32, height: i32 },
    /// Whether a compatible off-screen device context was created.
    MemDcCreated { ok: bool },
    /// Whether a compatible off-screen bitmap was created.
    BitmapCreated { ok: bool },
    /// Whether the bitmap was selected into the off-screen context.
    BitmapSelected { ok: bool },
    /// Whether the block copy from the screen succeeded.
    Blitted { ok: bool },
    /// The bitmap's bits, as the native side delivered them: bottom-up
    /// rows of packed 4-byte pixels.
    BitsRead { data: Vec<u8> },
    /// The desktop device context was released.
    ScreenDcReleased,
    /// The off-screen device context was deleted.
    MemDcReleased,
    /// The off-screen bitmap was deleted.
    BitmapReleased,
}

/// The next native call the driver must perform.
pub enum GdiAction {
    /// Obtain the desktop device context and read the screen metrics.
    AcquireScreenDc,
    /// Create a device context compatible with the desktop context.
    CreateMemDc,
    /// Create a bitmap compatible with the desktop context.
    CreateBitmap,
    /// Select the bitmap into the off-screen context.
    SelectBitmap,
    /// Block-copy the full screen rectangle into the off-screen bitmap.
    Blit,
    /// Read the bitmap's bits into a `width * height * 4` byte buffer.
    ReadBits,
    /// Release the desktop device context.
    ReleaseScreenDc,
    /// Delete the off-screen device context.
    ReleaseMemDc,
    /// Delete the off-screen bitmap.
    ReleaseBitmap,
    /// The attempt is over; this is its outcome.
    Finish(Result<Screenshot, CaptureError>),
}

/// One capture attempt against the device-context backend, as a step
/// machine. The driver performs each returned action and feeds the
/// outcome back through `step`. The acquisition and release flags record
/// the whole attempt: when the machine finishes, each flag pair is equal,
/// so every native object acquired during the attempt — and only those —
/// was released exactly once.
pub struct GdiCapture {
    /// Which native call is outstanding.
    pub phase: GdiPhase,
    /// Screen width in pixels, once the metrics are known.
    pub width: usize,
    /// Screen height in pixels, once the metrics are known.
    pub height: usize,
    /// The desktop device context was acquired during this attempt.
    pub acquired_screen_dc: bool,
    /// The off-screen device context was created during this attempt.
    pub acquired_mem_dc: bool,
    /// The off-screen bitmap was created during this attempt.
    pub acquired_bitmap: bool,
    /// The desktop device context was released.
    pub released_screen_dc: bool,
    /// The off-screen device context was deleted.
    pub released_mem_dc: bool,
    /// The off-screen bitmap was deleted.
    pub released_bitmap: bool,
    /// The decided outcome, held while the releases run.
    pub pending: Option<Result<Screenshot, CaptureError>>,
}

impl GdiCapture {
    /// The machine's bookkeeping is consistent with its phase: handles are
    /// acquired in protocol order, releases run only after the outcome is
    /// decided, and a finished attempt holds nothing.
    pub open spec fn wf(self) -> bool {
        &&& (self.acquired_bitmap ==> self.acquired_mem_dc)
        &&& (self.acquired_mem_dc ==> self.acquired_screen_dc)
        &&& match self.phase {
            GdiPhase::AwaitScreenDc => !self.acquired_screen_dc && !self.acquired_mem_dc
                && !self.acquired_bitmap && !self.released_screen_dc && !self.released_mem_dc
                && !self.released_bitmap && self.pending is None,
            GdiPhase::AwaitMemDc => self.acquired_screen_dc && !self.acquired_mem_dc
                && !self.acquired_bitmap && !self.released_screen_dc && !self.released_mem_dc
                && !self.released_bitmap && self.pending is None,
            GdiPhase::AwaitBitmap => self.acquired_screen_dc && self.acquired_mem_dc
                && !self.acquired_bitmap && !self.released_screen_dc && !self.released_mem_dc
                && !self.released_bitmap && self.pending is None,
            GdiPhase::AwaitSelect | GdiPhase::AwaitBlit | GdiPhase::AwaitBits => {
                self.acquired_screen_dc && self.acquired_mem_dc && self.acquired_bitmap
                    && !self.released_screen_dc && !self.released_mem_dc && !self.released_bitmap
                    && self.pending is None
            },
            GdiPhase::AwaitScreenDcRelease => self.acquired_screen_dc && !self.released_screen_dc
                && !self.released_mem_dc && !self.released_bitmap && self.pending is Some,
            GdiPhase::AwaitMemDcRelease => self.acquired_screen_dc && self.released_screen_dc
                && self.acquired_mem_dc && !self.released_mem_dc && !self.released_bitmap
                && self.pending is Some,
            GdiPhase::AwaitBitmapRelease => self.acquired_screen_dc && self.released_screen_dc
                && self.acquired_mem_dc && self.released_mem_dc && self.acquired_bitmap
                && !self.released_bitmap && self.pending is Some,
            GdiPhase::Done => self.acquired_screen_dc == self.released_screen_dc
                && self.acquired_mem_dc == self.released_mem_dc && self.acquired_bitmap
                == self.released_bitmap && self.pending is None,
        }
    }

    /// The one event kind each phase can answer with.
    pub open spec fn expects(self, event: GdiEvent) -> bool {
        match self.phase {
            GdiPhase::AwaitScreenDc => event is ScreenDcAcquired,
            GdiPhase::AwaitMemDc => event is MemDcCreated,
            GdiPhase::AwaitBitmap => event is BitmapCreated,
            GdiPhase::AwaitSelect => event is BitmapSelected,
            GdiPhase::AwaitBlit => event is Blitted,
            GdiPhase::AwaitBits => event is BitsRead,
            GdiPhase::AwaitScreenDcRelease => event is ScreenDcReleased,
            GdiPhase::AwaitMemDcRelease => event is MemDcReleased,
            GdiPhase::AwaitBitmapRelease => event is BitmapReleased,
            GdiPhase::Done => false,
        }
    }

    /// Begins a capture attempt: nothing is held yet, and the first thing
    /// the driver must do is obtain the desktop device context.
    pub fn start() -> (r: (GdiCapture, GdiAction))
        ensures
            r.0.wf(),
            r.0.phase is AwaitScreenDc,
            r.1 is AcquireScreenDc,
    {
        let machine = GdiCapture {
            phase: GdiPhase::AwaitScreenDc,
            width: 0,
            height: 0,
            acquired_screen_dc: false,
            acquired_mem_dc: false,
            acquired_bitmap: false,
            released_screen_dc: false,
            released_mem_dc: false,
            released_bitmap: false,
            pending: None,
        };
        (machine, GdiAction::AcquireScreenDc)
    }

    /// Feeds the outcome of the last native call into the machine and
    /// returns the next state and the next action. The clauses pin the
    /// whole protocol: each step's successor, the error reported for each
    /// way a step can fail, the frame built from the bits on success, and
    /// the release bookkeeping on every path.
    pub fn step(self, event: GdiEvent) -> (r: (GdiCapture, GdiAction))
        requires
            self.wf(),
            self.expects(event),
        ensures
            r.0.wf(),
            // Resource release: a finished attempt has released exactly
            // what it acquired, and a release action is issued only for a
            // handle that is held and not yet released.
            r.1 is Finish ==> r.0.phase is Done && r.0.acquired_screen_dc
                == r.0.released_screen_dc && r.0.acquired_mem_dc == r.0.released_mem_dc
                && r.0.acquired_bitmap == r.0.released_bitmap,
            r.1 is ReleaseScreenDc ==> r.0.acquired_screen_dc && !r.0.released_screen_dc,
            r.1 is ReleaseMemDc ==> r.0.acquired_mem_dc && !r.0.released_mem_dc,
            r.1 is ReleaseBitmap ==> r.0.acquired_bitmap && !r.0.released_bitmap,
            // Accounting only ever moves forward.
            self.acquired_screen_dc ==> r.0.acquired_screen_dc,
            self.acquired_mem_dc ==> r.0.acquired_mem_dc,
            self.acquired_bitmap ==> r.0.acquired_bitmap,
            self.released_screen_dc ==> r.0.released_screen_dc,
            self.released_mem_dc ==> r.0.released_mem_dc,
            self.released_bitmap ==> r.0.released_bitmap,
            // The protocol, step by step.
            (self.phase is AwaitScreenDc && event is ScreenDcAcquired
                && event->ScreenDcAcquired_width >= 1 && event->ScreenDcAcquired_height >= 1)
                ==> r.0.acquired_screen_dc && r.0.phase is AwaitMemDc && r.1 is CreateMemDc
                && r.0.width == event->ScreenDcAcquired_width && r.0.height
                == event->ScreenDcAcquired_height,
            (self.phase is AwaitScreenDc && event is ScreenDcAcquired
                && !(event->ScreenDcAcquired_width >= 1 && event->ScreenDcAcquired_height >= 1))
                ==> r.0.acquired_screen_dc && r.0.phase is AwaitScreenDcRelease && r.1
                is ReleaseScreenDc && r.0.pending == Some(
                Err::<Screenshot, CaptureError>(CaptureError::DisplayEnumerationFailed),
            ),
            (self.phase is AwaitMemDc && event is MemDcCreated && event->MemDcCreated_ok)
                ==> r.0.acquired_mem_dc && r.0.phase is AwaitBitmap && r.1 is CreateBitmap,
            (self.phase is AwaitMemDc && event is MemDcCreated && !event->MemDcCreated_ok)
                ==> r.0.phase is AwaitScreenDcRelease && r.1 is ReleaseScreenDc && r.0.pending
                == Some(Err::<Screenshot, CaptureError>(CaptureError::ContextCreationFailed)),
            (self.phase is AwaitBitmap && event is BitmapCreated && event->BitmapCreated_ok)
                ==> r.0.acquired_bitmap && r.0.phase is AwaitSelect && r.1 is SelectBitmap,
            (self.phase is AwaitBitmap && event is BitmapCreated && !event->BitmapCreated_ok)
                ==> r.0.phase is AwaitScreenDcRelease && r.1 is ReleaseScreenDc && r.0.pending
                == Some(Err::<Screenshot, CaptureError>(CaptureError::BitmapCreationFailed)),
            (self.phase is AwaitSelect && event is BitmapSelected && event->BitmapSelected_ok)
                ==> r.0.phase is AwaitBlit && r.1 is Blit,
            (self.phase is AwaitSelect && event is BitmapSelected && !event->BitmapSelected_ok)
                ==> r.0.phase is AwaitScreenDcRelease && r.1 is ReleaseScreenDc && r.0.pending
                == Some(Err::<Screenshot, CaptureError>(CaptureError::BitmapSelectionFailed)),
            (self.phase is AwaitBlit && event is Blitted && event->Blitted_ok) ==> r.0.phase
                is AwaitBits && r.1 is ReadBits,
            (self.phase is AwaitBlit && event is Blitted && !event->Blitted_ok) ==> r.0.phase
                is AwaitScreenDcRelease && r.1 is ReleaseScreenDc && r.0.pending == Some(
                Err::<Screenshot, CaptureError>(CaptureError::CopyFailed),
            ),
            (self.phase is AwaitBits && event is BitsRead) ==> r.0.phase is AwaitScreenDcRelease
                && r.1 is ReleaseScreenDc && r.0.pending is Some && gdi_result_ok(
                self.width as int,
                self.height as int,
                event->BitsRead_data@,
                r.0.pending->0,
            ),
            // The geometry never changes after the metrics arrive.
            !(self.phase is AwaitScreenDc) ==> r.0.width == self.width && r.0.height == self.height,
            // Releases hand the decided outcome through unchanged.
            (self.phase is AwaitScreenDcRelease || self.phase is AwaitMemDcRelease || self.phase
                is AwaitBitmapRelease) && !(r.1 is Finish) ==> r.0.pending == self.pending,
            r.1 is Finish ==> self.pending == Some(r.1->Finish_0),
    {
        let GdiCapture {
            phase,
            width,
            height,
            acquired_screen_dc,
            acquired_mem_dc,
            acquired_bitmap,
            released_screen_dc,
            released_mem_dc,
            released_bitmap,
            pending,
        } = self;
        match (phase, event) {
            (GdiPhase::AwaitScreenDc, GdiEvent::ScreenDcAcquired { width: w, height: h }) => {
                if w >= 1 && h >= 1 {
                    let next = GdiCapture {
                        phase: GdiPhase::AwaitMemDc,
                        width: w as usize,
                        height: h as usize,
                        acquired_screen_dc: true,
                        acquired_mem_dc,
                        acquired_bitmap,
                        released_screen_dc,
                        released_mem_dc,
                        released_bitmap,
                        pending: None,
                    };
                    (next, GdiAction::CreateMemDc)
                } else {
                    let next = GdiCapture {
                        phase: GdiPhase::AwaitScreenDcRelease,
                        width,
                        height,
                        acquired_screen_dc: true,
                        acquired_mem_dc,
                        acquired_bitmap,
                        released_screen_dc,
                        released_mem_dc,
                        released_bitmap,
                        pending: Some(Err(CaptureError::DisplayEnumerationFailed)),
                    };
                    (next, GdiAction::ReleaseScreenDc)
                }
            },
            (GdiPhase::AwaitMemDc, GdiEvent::MemDcCreated { ok }) => {
                if ok {
                    let next = GdiCapture {
                        phase: GdiPhase::AwaitBitmap,
                        width,
                        height,
                        acquired_screen_dc,
                        acquired_mem_dc: true,
                        acquired_bitmap,
                        released_screen_dc,
                        released_mem_dc,
                        released_bitmap,
                        pending: None,
                    };
                    (next, GdiAction::CreateBitmap)
                } else {
                    let next = GdiCapture {
                        phase: GdiPhase::AwaitScreenDcRelease,
                        width,
                        height,
                        acquired_screen_dc,
                        acquired_mem_dc,
                        acquired_bitmap,
                        released_screen_dc,
                        released_mem_dc,
                        released_bitmap,
                        pending: Some(Err(CaptureError::ContextCreationFailed)),
                    };
                    (next, GdiAction::ReleaseScreenDc)
                }
            },
            (GdiPhase::AwaitBitmap, GdiEvent::BitmapCreated { ok }) => {
                if ok {
                    let next = GdiCapture {
                        phase: GdiPhase::AwaitSelect,
                        width,
                        height,
                        acquired_screen_dc,
                        acquired_mem_dc,
                        acquired_bitmap: true,
                        released_screen_dc,
                        released_mem_dc,
                        released_bitmap,
                        pending: None,
                    };
                    (next, GdiAction::SelectBitmap)
                } else {
                    let next = GdiCapture {
                        phase: GdiPhase::AwaitScreenDcRelease,
                        width,
                        height,
                        acquired_screen_dc,
                        acquired_mem_dc,
                        acquired_bitmap,
                        released_screen_dc,
                        released_mem_dc,
                        released_bitmap,
                        pending: Some(Err(CaptureError::BitmapCreationFailed)),
                    };
                    (next, GdiAction::ReleaseScreenDc)
                }
            },
            (GdiPhase::AwaitSelect, GdiEvent::BitmapSelected { ok }) => {
                if ok {
                    let next = GdiCapture {
                        phase: GdiPhase::AwaitBlit,
                        width,
                        height,
                        acquired_screen_dc,
                        acquired_mem_dc,
                        acquired_bitmap,
                        released_screen_dc,
                        released_mem_dc,
                        released_bitmap,
                        pending: None,
                    };
                    (next, GdiAction::Blit)
                } else {
                    let next = GdiCapture {
                        phase: GdiPhase::AwaitScreenDcRelease,
                        width,
                        height,
                        acquired_screen_dc,
                        acquired_mem_dc,
                        acquired_bitmap,
                        released_screen_dc,
                        released_mem_dc,
                        released_bitmap,
                        pending: Some(Err(CaptureError::BitmapSelectionFailed)),
                    };
                    (next, GdiAction::ReleaseScreenDc)
                }
            },
            (GdiPhase::AwaitBlit, GdiEvent::Blitted { ok }) => {
                if ok {
                    let next = GdiCapture {
                        phase: GdiPhase::AwaitBits,
                        width,
                        height,
                        acquired_screen_dc,
                        acquired_mem_dc,
                        acquired_bitmap,
                        released_screen_dc,
                        released_mem_dc,
                        released_bitmap,
                        pending: None,
                    };
                    (next, GdiAction::ReadBits)
                } else {
                    let next = GdiCapture {
                        phase: GdiPhase::AwaitScreenDcRelease,
                        width,
                        height,
                        acquired_screen_dc,
                        acquired_mem_dc,
                        acquired_bitmap,
                        released_screen_dc,
                        released_mem_dc,
                        released_bitmap,
                        pending: Some(Err(CaptureError::CopyFailed)),
                    };
                    (next, GdiAction::ReleaseScreenDc)
                }
            },
            (GdiPhase::AwaitBits, GdiEvent::BitsRead { data }) => {
                let outcome = gdi_assemble(width, height, data);
                let next = GdiCapture {
                    phase: GdiPhase::AwaitScreenDcRelease,
                    width,
                    height,
                    acquired_screen_dc,
                    acquired_mem_dc,
                    acquired_bitmap,
                    released_screen_dc,
                    released_mem_dc,
                    released_bitmap,
                    pending: Some(outcome),
                };
                (next, GdiAction::ReleaseScreenDc)
            },
            (GdiPhase::AwaitScreenDcRelease, GdiEvent::ScreenDcReleased) => {
                if acquired_mem_dc {
                    let next = GdiCapture {
                        phase: GdiPhase::AwaitMemDcRelease,
                        width,
                        height,
                        acquired_screen_dc,
                        acquired_mem_dc,
                        acquired_bitmap,
                        released_screen_dc: true,
                        released_mem_dc,
                        released_bitmap,
                        pending,
                    };
                    (next, GdiAction::ReleaseMemDc)
                } else {
                    let next = GdiCapture {
                        phase: GdiPhase::Done,
                        width,
                        height,
                        acquired_screen_dc,
                        acquired_mem_dc,
                        acquired_bitmap,
                        released_screen_dc: true,
                        released_mem_dc,
                        released_bitmap,
                        pending: None,
                    };
                    match pending {
                        Some(res) => (next, GdiAction::Finish(res)),
                        None => unreached(),
                    }
                }
            },
            (GdiPhase::AwaitMemDcRelease, GdiEvent::MemDcReleased) => {
                if acquired_bitmap {
                    let next = GdiCapture {
                        phase: GdiPhase::AwaitBitmapRelease,
                        width,
                        height,
                        acquired_screen_dc,
                        acquired_mem_dc,
                        acquired_bitmap,
                        released_screen_dc,
                        released_mem_dc: true,
                        released_bitmap,
                        pending,
                    };
                    (next, GdiAction::ReleaseBitmap)
                } else {
                    let next = GdiCapture {
                        phase: GdiPhase::Done,
                        width,
                        height,
                        acquired_screen_dc,
                        acquired_mem_dc,
                        acquired_bitmap,
                        released_screen_dc,
                        released_mem_dc: true,
                        released_bitmap,
                        pending: None,
                    };
                    match pending {
                        Some(res) => (next, GdiAction::Finish(res)),
                        None => unreached(),
                    }
                }
            },
            (GdiPhase::AwaitBitmapRelease, GdiEvent::BitmapReleased) => {
                let next = GdiCapture {
                    phase: GdiPhase::Done,
                    width,
                    height,
                    acquired_screen_dc,
                    acquired_mem_dc,
                    acquired_bitmap,
                    released_screen_dc,
                    released_mem_dc,
                    released_bitmap: true,
                    pending: None,
                };
                match pending {
                    Some(res) => (next, GdiAction::Finish(res)),
                    None => unreached(),
                }
            },
            _ => unreached(),
        }
    }
}

/// For every capture attempt against this backend, however it terminates
/// — success or any failure — a finished machine has released exactly
/// the native objects it acquired: no leak, and no double release, since
/// `step` issues a release action only for a handle that is held and not
/// yet released.
pub proof fn lemma_gdi_attempt_balanced(m: GdiCapture)
    requires
        m.wf(),
        m.phase is Done,
    ensures
        m.acquired_screen_dc == m.released_screen_dc,
        m.acquired_mem_dc == m.released_mem_dc,
        m.acquired_bitmap == m.released_bitmap,
{
}


} // verus!

//! The list-based backend: enumerate the active displays, pick one by
//! index, request a copy of its current image, and copy the provider's
//! bytes into an owned buffer.
//!
//! The native calls live outside the library; [`CgCapture`] is the
//! capture protocol as a step machine. Its contract pins the enumeration
//! order, the defensive bounds check on the requested index, the depth
//! and size validation, and — on success and on every failure path after
//! the image exists — that the native image and data objects are released
//! exactly once before the attempt finishes.

use vstd::arithmetic::div_mod::lemma_fundamental_div_mod;
use vstd::arithmetic::div_mod::lemma_fundamental_div_mod_converse;
use vstd::prelude::*;

use crate::error::CaptureError;
use crate::frame::Screenshot;
use crate::frame::lemma_u64_product_fits;
use crate::frame::frame_geometry_ok;

verus! {

/// Does the copied buffer hold exactly `width * height` pixels of
/// `pixel_bits` bits each? This is the backend's consistency check
/// between the reported geometry and the bytes the provider handed over.
pub fn size_matches(width: usize, height: usize, pixel_bits: usize, raw_len: usize) -> (b: bool)
    ensures
        b == (width * height * pixel_bits == raw_len * 8),
{
    proof {
        lemma_u64_product_fits(width as int, height as int);
    }
    let wh = (width as u128) * (height as u128);
    let len8 = (raw_len as u128) * 8;
    if wh == 0 {
        proof {
            assert(width as int * height as int * (pixel_bits as int) == 0) by (nonlinear_arith)
                requires
                    width as int * height as int == 0,
            ;
        }
        len8 == 0
    } else {
        let quotient = len8 / wh;
        let remainder = len8 % wh;
        let b = remainder == 0 && quotient == (pixel_bits as u128);
        proof {
            if b {
                lemma_fundamental_div_mod(len8 as int, wh as int);
            } else {
                if width as int * height as int * (pixel_bits as int) == raw_len as int * 8 {
                    assert(len8 as int == (pixel_bits as int) * (wh as int)) by (nonlinear_arith)
                        requires
                            wh as int == width as int * height as int,
                            len8 as int == width as int * height as int * (pixel_bits as int),
                    ;
                    lemma_fundamental_div_mod_converse(
                        len8 as int,
                        wh as int,
                        pixel_bits as int,
                        0,
                    );
                    assert(false);
                }
            }
        }
        b
    }
}

/// What the list-based backend owes for a copied buffer with the claimed
/// geometry: a frame holding exactly those bytes, or a size-mismatch
/// error when the buffer disagrees with `width * height * depth` or
/// cannot cover the reported rows.
pub open spec fn cg_result_ok(
    width: int,
    height: int,
    row_len: int,
    pixel_bits: int,
    bytes: Seq<u8>,
    r: Result<Screenshot, CaptureError>,
) -> bool {
    if width * height * pixel_bits == bytes.len() * 8 && frame_geometry_ok(
        bytes.len() as int,
        width,
        height,
        row_len,
        pixel_bits / 8,
    ) {
        r matches Ok(f) && f.wf() && f.spec_width() == width && f.spec_height() == height
            && f.spec_row_len() == row_len && f.spec_pixel_width() == pixel_bits / 8
            && f.spec_data() == bytes
    } else {
        r == Err::<Screenshot, CaptureError>(CaptureError::SizeMismatch)
    }
}

/// Builds the frame from the provider's copied bytes: validates that the
/// buffer length agrees with the reported geometry and wraps it, owned,
/// without reordering anything.
pub fn cg_assemble(
    width: usize,
    height: usize,
    row_len: usize,
    pixel_bits: usize,
    bytes: Vec<u8>,
) -> (r: Result<Screenshot, CaptureError>)
    requires
        pixel_bits % 8 == 0,
    ensures
        cg_result_ok(
            width as int,
            height as int,
            row_len as int,
            pixel_bits as int,
            bytes@,
            r,
        ),
{
    let total = bytes.len();
    if !size_matches(width, height, pixel_bits, total) {
        return Err(CaptureError::SizeMismatch);
    }
    Screenshot::new(bytes, width, height, row_len, pixel_bits / 8)
}

/// Where the capture protocol stands: which native call is outstanding.
#[derive(Clone, Copy, PartialEq, Eq, Structural, Debug)]
pub enum CgPhase {
    /// Waiting for the number of active displays.
    AwaitCount,
    /// Waiting for the list of active display identifiers.
    AwaitList,
    /// Waiting for the copy of the chosen display's current image.
    AwaitImage,
    /// Waiting for the image's geometry and depth.
    AwaitInfo,
    /// Waiting for the data provider's bytes.
    AwaitData,
    /// The outcome is decided; waiting for the image release.
    AwaitImageRelease,
    /// Waiting for the data object release.
    AwaitDataRelease,
    /// The attempt is finished; no further event is expected.
    Done,
}

/// The outcome of the native call the driver just performed.
pub enum CgEvent {
    /// The display-count query returned this status and count.
    CountQueried { err: i32, count: u32 },
    /// The display-list query returned this status and list.
    ListQueried { err: i32, displays: Vec<u32> },
    /// The image copy of the chosen display exists and is held.
    ImageCreated,
    /// The image's reported geometry and depth.
    InfoRead { width: usize, height: usize, row_len: usize, pixel_bits: usize },
    /// The data provider's bytes, copied out, with the data object held.
    DataCopied { bytes: Vec<u8> },
    /// The native image was released.
    ImageReleased,
    /// The native data object was released.
    DataReleased,
}

/// The next native call the driver must perform.
pub enum CgAction {
    /// Query the number of active displays.
    QueryDisplayCount,
    /// Retrieve the identifiers of this many active displays.
    QueryDisplayList { count: u32 },
    /// Request a copy of this display's current image.
    CreateImage { display_id: u32 },
    /// Read the image's geometry and depth from its descriptor.
    ReadImageInfo,
    /// Copy the image's data-provider bytes into an owned buffer.
    CopyImageData,
    /// Release the native image.
    ReleaseImage,
    /// Release the native data object.
    ReleaseData,
    /// The attempt is over; this is its outcome.
    Finish(Result<Screenshot, CaptureError>),
}

/// One capture attempt against the list-based backend, as a step machine.
/// The driver performs each returned action and feeds the outcome back
/// through `step`. The acquisition and release flags record the whole
/// attempt: when the machine finishes, each flag pair is equal, so every
/// native object acquired during the attempt — and only those — was
/// released exactly once, also when the size validation fails after the
/// image and data objects already exist.
pub struct CgCapture {
    /// Which native call is outstanding.
    pub phase: CgPhase,
    /// The display index the caller asked for.
    pub screen: usize,
    /// Image width in pixels, once the descriptor is read.
    pub width: usize,
    /// Image height in pixels, once the descriptor is read.
    pub height: usize,
    /// Bytes per row, once the descriptor is read.
    pub row_len: usize,
    /// Bits per pixel, once the descriptor is read.
    pub pixel_bits: usize,
    /// The native image was acquired during this attempt.
    pub acquired_image: bool,
    /// The native data object was acquired during this attempt.
    pub acquired_data: bool,
    /// The native image was released.
    pub released_image: bool,
    /// The native data object was released.
    pub released_data: bool,
    /// The decided outcome, held while the releases run.
    pub pending: Option<Result<Screenshot, CaptureError>>,
}

impl CgCapture {
    /// The machine's bookkeeping is consistent with its phase: the data
    /// object exists only while the image does, releases run only after
    /// the outcome is decided, and a finished attempt holds nothing.
    pub open spec fn wf(self) -> bool {
        match self.phase {
            CgPhase::AwaitCount | CgPhase::AwaitList | CgPhase::AwaitImage => !self.acquired_image
                && !self.acquired_data && !self.released_image && !self.released_data
                && self.pending is None,
            CgPhase::AwaitInfo => self.acquired_image && !self.acquired_data
                && !self.released_image && !self.released_data && self.pending is None,
            CgPhase::AwaitData => self.acquired_image && !self.acquired_data
                && !self.released_image && !self.released_data && self.pending is None
                && self.pixel_bits % 8 == 0,
            CgPhase::AwaitImageRelease => self.acquired_image && !self.released_image
                && !self.released_data && self.pending is Some,
            CgPhase::AwaitDataRelease => self.acquired_image && self.released_image
                && self.acquired_data && !self.released_data && self.pending is Some,
            CgPhase::Done => self.acquired_image == self.released_image && self.acquired_data
                == self.released_data && self.pending is None,
        }
    }

    /// The one event kind each phase can answer with.
    pub open spec fn expects(self, event: CgEvent) -> bool {
        match self.phase {
            CgPhase::AwaitCount => event is CountQueried,
            CgPhase::AwaitList => event is ListQueried,
            CgPhase::AwaitImage => event is ImageCreated,
            CgPhase::AwaitInfo => event is InfoRead,
            CgPhase::AwaitData => event is DataCopied,
            CgPhase::AwaitImageRelease => event is ImageReleased,
            CgPhase::AwaitDataRelease => event is DataReleased,
            CgPhase::Done => false,
        }
    }

    /// Begins a capture attempt for the given display index: nothing is
    /// held yet, and the first thing the driver must do is query the
    /// number of active displays.
    pub fn start(screen: usize) -> (r: (CgCapture, CgAction))
        ensures
            r.0.wf(),
            r.0.phase is AwaitCount,
            r.0.screen == screen,
            r.1 is QueryDisplayCount,
    {
        let machine = CgCapture {
            phase: CgPhase::AwaitCount,
            screen,
            width: 0,
            height: 0,
            row_len: 0,
            pixel_bits: 0,
            acquired_image: false,
            acquired_data: false,
            released_image: false,
            released_data: false,
            pending: None,
        };
        (machine, CgAction::QueryDisplayCount)
    }

    /// Feeds the outcome of the last native call into the machine and
    /// returns the next state and the next action. The clauses pin the
    /// whole protocol: each query's successor, the error reported when a
    /// query fails or the index is out of range, the exact display
    /// identifier picked from the list, the frame built from the copied
    /// bytes, and the release bookkeeping on every path.
    pub fn step(self, event: CgEvent) -> (r: (CgCapture, CgAction))
        requires
            self.wf(),
            self.expects(event),
        ensures
            r.0.wf(),
            // Resource release: a finished attempt has released exactly
            // what it acquired, and a release action is issued only for a
            // handle that is held and not yet released.
            r.1 is Finish ==> r.0.phase is Done && r.0.acquired_image == r.0.released_image
                && r.0.acquired_data == r.0.released_data,
            r.1 is ReleaseImage ==> r.0.acquired_image && !r.0.released_image,
            r.1 is ReleaseData ==> r.0.acquired_data && !r.0.released_data,
            // Accounting only ever moves forward.
            self.acquired_image ==> r.0.acquired_image,
            self.acquired_data ==> r.0.acquired_data,
            self.released_image ==> r.0.released_image,
            self.released_data ==> r.0.released_data,
            // The protocol, step by step.
            (self.phase is AwaitCount && event is CountQueried && event->CountQueried_err != 0)
                ==> r.0.phase is Done && r.1 == CgAction::Finish(
                Err::<Screenshot, CaptureError>(CaptureError::DisplayEnumerationFailed),
            ),
            (self.phase is AwaitCount && event is CountQueried && event->CountQueried_err == 0)
                ==> r.0.phase is AwaitList && r.1 == (CgAction::QueryDisplayList {
                count: event->CountQueried_count,
            }),
            (self.phase is AwaitList && event is ListQueried && event->ListQueried_err != 0)
                ==> r.0.phase is Done && r.1 == CgAction::Finish(
                Err::<Screenshot, CaptureError>(CaptureError::DisplayEnumerationFailed),
            ),
            (self.phase is AwaitList && event is ListQueried && event->ListQueried_err == 0
                && self.screen >= event->ListQueried_displays@.len()) ==> r.0.phase is Done && r.1
                == CgAction::Finish(Err::<Screenshot, CaptureError>(CaptureError::NoSuchDisplay)),
            (self.phase is AwaitList && event is ListQueried && event->ListQueried_err == 0
                && self.screen < event->ListQueried_displays@.len()) ==> r.0.phase is AwaitImage
                && r.1 == (CgAction::CreateImage {
                display_id: event->ListQueried_displays@[self.screen as int],
            }),
            (self.phase is AwaitImage && event is ImageCreated) ==> r.0.acquired_image
                && r.0.phase is AwaitInfo && r.1 is ReadImageInfo,
            (self.phase is AwaitInfo && event is InfoRead && event->InfoRead_pixel_bits % 8 != 0)
                ==> r.0.phase is AwaitImageRelease && r.1 is ReleaseImage && r.0.pending == Some(
                Err::<Screenshot, CaptureError>(CaptureError::NonBytePixelDepth),
            ),
            (self.phase is AwaitInfo && event is InfoRead && event->InfoRead_pixel_bits % 8 == 0)
                ==> r.0.phase is AwaitData && r.1 is CopyImageData && r.0.width
                == event->InfoRead_width && r.0.height == event->InfoRead_height && r.0.row_len
                == event->InfoRead_row_len && r.0.pixel_bits == event->InfoRead_pixel_bits,
            (self.phase is AwaitData && event is DataCopied) ==> r.0.acquired_data && r.0.phase
                is AwaitImageRelease && r.1 is ReleaseImage && r.0.pending is Some && cg_result_ok(
                self.width as int,
                self.height as int,
                self.row_len as int,
                self.pixel_bits as int,
                event->DataCopied_bytes@,
                r.0.pending->0,
            ),
            // Releases hand the decided outcome through unchanged.
            (self.phase is AwaitImageRelease || self.phase is AwaitDataRelease) && !(r.1
                is Finish) ==> r.0.pending == self.pending,
            r.1 is Finish && self.pending is Some ==> self.pending == Some(r.1->Finish_0),
            // The requested index never changes.
            r.0.screen == self.screen,
    {
        let CgCapture {
            phase,
            screen,
            width,
            height,
            row_len,
            pixel_bits,
            acquired_image,
            acquired_data,
            released_image,
            released_data,
            pending,
        } = self;
        match (phase, event) {
            (CgPhase::AwaitCount, CgEvent::CountQueried { err, count }) => {
                if err != 0 {
                    let next = CgCapture {
                        phase: CgPhase::Done,
                        screen,
                        width,
                        height,
                        row_len,
                        pixel_bits,
                        acquired_image,
                        acquired_data,
                        released_image,
                        released_data,
                        pending: None,
                    };
                    (next, CgAction::Finish(Err(CaptureError::DisplayEnumerationFailed)))
                } else {
                    let next = CgCapture {
                        phase: CgPhase::AwaitList,
                        screen,
                        width,
                        height,
                        row_len,
                        pixel_bits,
                        acquired_image,
                        acquired_data,
                        released_image,
                        released_data,
                        pending: None,
                    };
                    (next, CgAction::QueryDisplayList { count })
                }
            },
            (CgPhase::AwaitList, CgEvent::ListQueried { err, displays }) => {
                if err != 0 {
                    let next = CgCapture {
                        phase: CgPhase::Done,
                        screen,
                        width,
                        height,
                        row_len,
                        pixel_bits,
                        acquired_image,
                        acquired_data,
                        released_image,
                        released_data,
                        pending: None,
                    };
                    (next, CgAction::Finish(Err(CaptureError::DisplayEnumerationFailed)))
                } else if screen >= displays.len() {
                    let next = CgCapture {
                        phase: CgPhase::Done,
                        screen,
                        width,
                        height,
                        row_len,
                        pixel_bits,
                        acquired_image,
                        acquired_data,
                        released_image,
                        released_data,
                        pending: None,
                    };
                    (next, CgAction::Finish(Err(CaptureError::NoSuchDisplay)))
                } else {
                    let display_id = displays[screen];
                    let next = CgCapture {
                        phase: CgPhase::AwaitImage,
                        screen,
                        width,
                        height,
                        row_len,
                        pixel_bits,
                        acquired_image,
                        acquired_data,
                        released_image,
                        released_data,
                        pending: None,
                    };
                    (next, CgAction::CreateImage { display_id })
                }
            },
            (CgPhase::AwaitImage, CgEvent::ImageCreated) => {
                let next = CgCapture {
                    phase: CgPhase::AwaitInfo,
                    screen,
                    width,
                    height,
                    row_len,
                    pixel_bits,
                    acquired_image: true,
                    acquired_data,
                    released_image,
                    released_data,
                    pending: None,
                };
                (next, CgAction::ReadImageInfo)
            },
            (CgPhase::AwaitInfo, CgEvent::InfoRead { width: w, height: h, row_len: rl, pixel_bits: pb }) => {
                if pb % 8 != 0 {
                    let next = CgCapture {
                        phase: CgPhase::AwaitImageRelease,
                        screen,
                        width,
                        height,
                        row_len,
                        pixel_bits,
                        acquired_image,
                        acquired_data,
                        released_image,
                        released_data,
                        pending: Some(Err(CaptureError::NonBytePixelDepth)),
                    };
                    (next, CgAction::ReleaseImage)
                } else {
                    let next = CgCapture {
                        phase: CgPhase::AwaitData,
                        screen,
                        width: w,
                        height: h,
                        row_len: rl,
                        pixel_bits: pb,
                        acquired_image,
                        acquired_data,
                        released_image,
                        released_data,
                        pending: None,
                    };
                    (next, CgAction::CopyImageData)
                }
            },
            (CgPhase::AwaitData, CgEvent::DataCopied { bytes }) => {
                let outcome = cg_assemble(width, height, row_len, pixel_bits, bytes);
                let next = CgCapture {
                    phase: CgPhase::AwaitImageRelease,
                    screen,
                    width,
                    height,
                    row_len,
                    pixel_bits,
                    acquired_image,
                    acquired_data: true,
                    released_image,
                    released_data,
                    pending: Some(outcome),
                };
                (next, CgAction::ReleaseImage)
            },
            (CgPhase::AwaitImageRelease, CgEvent::ImageReleased) => {
                if acquired_data {
                    let next = CgCapture {
                        phase: CgPhase::AwaitDataRelease,
                        screen,
                        width,
                        height,
                        row_len,
                        pixel_bits,
                        acquired_image,
                        acquired_data,
                        released_image: true,
                        released_data,
                        pending,
                    };
                    (next, CgAction::ReleaseData)
                } else {
                    let next = CgCapture {
                        phase: CgPhase::Done,
                        screen,
                        width,
                        height,
                        row_len,
                        pixel_bits,
                        acquired_image,
                        acquired_data,
                        released_image: true,
                        released_data,
                        pending: None,
                    };
                    match pending {
                        Some(res) => (next, CgAction::Finish(res)),
                        None => unreached(),
                    }
                }
            },
            (CgPhase::AwaitDataRelease, CgEvent::DataReleased) => {
                let next = CgCapture {
                    phase: CgPhase::Done,
                    screen,
                    width,
                    height,
                    row_len,
                    pixel_bits,
                    acquired_image,
                    acquired_data,
                    released_image,
                    released_data: true,
                    pending: None,
                };
                match pending {
                    Some(res) => (next, CgAction::Finish(res)),
                    None => unreached(),
                }
            },
            _ => unreached(),
        }
    }
}

/// For every capture attempt against this backend, however it terminates
/// — success or any failure, including a size mismatch found after the
/// image and data objects already exist — a finished machine has
/// released exactly the native objects it acquired: no leak, and no
/// double release, since `step` issues a release action only for a
/// handle that is held and not yet released.
pub proof fn lemma_cg_attempt_balanced(m: CgCapture)
    requires
        m.wf(),
        m.phase is Done,
    ensures
        m.acquired_image == m.released_image,
        m.acquired_data == m.released_data,
{
}


} // verus!

//! Capture of a display's current pixel contents as an in-memory,
//! geometry-annotated byte buffer.
//!
//! The library holds the verified core of a screen-capture tool: the
//! [`Screenshot`] frame model with bounds-checked pixel access, the
//! per-backend validation and normalization logic (row flipping for
//! bottom-up bitmaps, alpha repair for backends that report no alpha),
//! and the capture protocols themselves, modelled as step machines whose
//! contracts guarantee that every native resource acquired during a
//! capture attempt is released exactly once, on success and on every
//! failure path. The native calls that drive the machines live outside
//! the library.

use vstd::prelude::*;

pub mod cg;
pub mod error;
pub mod frame;
pub mod gdi;
pub mod x11;

pub use error::CaptureError;
pub use frame::Pixel;
pub use frame::Screenshot;
pub use x11::Screener;

verus! {

/// Outcome of one capture attempt.
pub type ScreenResult = Result<Screenshot, CaptureError>;

} // verus!

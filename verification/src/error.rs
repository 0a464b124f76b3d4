//! The error taxonomy shared by all capture backends.

use vstd::prelude::*;

verus! {

/// A terminal failure of one capture attempt. None of these is retried
/// internally; retry policy belongs to the caller.
#[derive(Clone, Copy, PartialEq, Eq, Structural, Debug)]
pub enum CaptureError {
    /// Querying the number of active displays, the display list, or the
    /// screen geometry failed.
    DisplayEnumerationFailed,
    /// The requested screen index does not name an enumerated display.
    NoSuchDisplay,
    /// The native pixel depth is not a whole number of bytes.
    NonBytePixelDepth,
    /// The raw buffer length does not agree with the reported geometry.
    SizeMismatch,
    /// A compatible device context could not be created.
    ContextCreationFailed,
    /// An off-screen bitmap could not be created.
    BitmapCreationFailed,
    /// The off-screen bitmap could not be selected into its context.
    BitmapSelectionFailed,
    /// The block copy from the screen into the off-screen bitmap failed.
    CopyFailed,
    /// A pixel access lay outside the frame's geometry.
    BoundsOverflow,
}

impl CaptureError {
    /// A human-readable cause for the failure.
    pub fn message(&self) -> (r: &'static str)
        ensures
            *self is DisplayEnumerationFailed ==> r@ == "Error enumerating displays."@,
            *self is NoSuchDisplay ==> r@ == "No display with the requested index."@,
            *self is NonBytePixelDepth ==> r@ == "Pixels aren't integral bytes."@,
            *self is SizeMismatch ==> r@ == "Image size is inconsistent with W*H*D."@,
            *self is ContextCreationFailed ==> r@ == "Can't get a display context."@,
            *self is BitmapCreationFailed ==> r@ == "Can't create a capture buffer."@,
            *self is BitmapSelectionFailed ==> r@ == "Can't select the capture buffer."@,
            *self is CopyFailed ==> r@ == "Failed to copy screen to the capture buffer."@,
            *self is BoundsOverflow ==> r@ == "Bounds overflow."@,
    {
        match self {
            CaptureError::DisplayEnumerationFailed => "Error enumerating displays.",
            CaptureError::NoSuchDisplay => "No display with the requested index.",
            CaptureError::NonBytePixelDepth => "Pixels aren't integral bytes.",
            CaptureError::SizeMismatch => "Image size is inconsistent with W*H*D.",
            CaptureError::ContextCreationFailed => "Can't get a display context.",
            CaptureError::BitmapCreationFailed => "Can't create a capture buffer.",
            CaptureError::BitmapSelectionFailed => "Can't select the capture buffer.",
            CaptureError::CopyFailed => "Failed to copy screen to the capture buffer.",
            CaptureError::BoundsOverflow => "Bounds overflow.",
        }
    }
}

} // verus!

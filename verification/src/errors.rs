//! The viewer's error vocabulary.

use vstd::prelude::*;

verus! {

/// Everything that can go wrong while setting up or driving the viewer.
/// The window, decode, io and presentation failures are raised by the
/// unverified shell around the library; the library itself raises
/// `ImageError` when pixel data does not form a well-formed image.
#[derive(Debug, Clone, Copy, PartialEq, Eq, Structural)]
pub enum RviError {
    /// Unable to create a window.
    WindowError,
    /// An error occurred while processing the image.
    ImageError,
    /// An error occurred while loading the image.
    IoError,
    /// Unable to create a new presentation surface.
    PixelsError,
    /// Cannot find a primary monitor.
    NoPrimaryMonitor,
}

} // verus!

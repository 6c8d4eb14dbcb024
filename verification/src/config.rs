//! Startup configuration for the viewer.

use vstd::prelude::*;

verus! {

/// What the viewer is asked to do: which file to open, whether a small
/// image may be enlarged to fill the viewport, and whether the
/// presentation backend should prefer a low-power adapter.
pub struct Config {
    /// Name of image to open.
    pub file_name: String,
    /// Whether to scale the image up.
    pub up_scale: bool,
    /// Whether to force the integrated gpu.
    pub low_performance_mode: bool,
}

} // verus!

//! A minimal image-viewer core: fit-to-viewport scale calculation,
//! resampling to a target size, packing RGB samples into an RGBA frame
//! buffer, and debouncing of resize notifications.

pub mod config;
pub mod debounce;
pub mod errors;
pub mod img;
pub mod pack;
pub mod pipeline;
pub mod scale;
pub mod viewer;

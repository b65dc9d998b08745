//! Capture of a rectangular screen region as PNG bytes, written as a
//! sequence of decisions: the host performs the platform work (listing
//! monitors, grabbing pixels, writing files) and this library decides what
//! is done next and what the caller receives.

pub mod error;
pub mod region;
pub mod frame;
pub mod png;
pub mod encode;
pub mod session;
pub mod runs;

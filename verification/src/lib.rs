//! A verified double-buffered pixel pipeline for a small serial display.
//!
//! The library covers the compute side of the pipeline: packing RGB color
//! into the display-native 5-6-5 format, a fixed-capacity frame buffer,
//! pattern generators that redraw a full frame from a small animation state,
//! a transfer engine that tracks single-owner hand-off of a frame buffer to
//! a background transport, and the session loop that ties them together one
//! tick at a time.  The hardware itself (clocks, pins, the DMA and serial
//! peripherals) stays outside: the caller performs the actual transfer and
//! reports its outcome back into the session.

pub mod color;
pub mod engine;
pub mod frame;
pub mod pattern;
pub mod session;

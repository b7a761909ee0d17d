//! Core engine of a terminal dashboard that samples per-core processor
//! utilization, smooths it, and reacts to key events.
//!
//! The crate holds the verified logic: the accent-color palette, the input
//! model, the event type, the exponential smoothing of raw samples, and the
//! application state machine with its driver step. Terminal I/O, the OS
//! metric source, and the actual drawing live outside the library.

pub mod app;
pub mod color;
pub mod event;
pub mod input;
pub mod laws;
pub mod smoothing;

//! Decision and geometry core of a transparent, click-through GPU overlay.
//!
//! The overlay window, the GPU device and the global input hooks live in the
//! application layer; this library holds everything they decide and compute:
//! how raw hook messages become [`events::OverlayEvent`]s and whether the overlay
//! swallows them, how an event is turned back into an injected input record,
//! the vertices that the 2D drawer emits for each shape, the bounded vertex batch
//! and when it must be flushed, and the frame loop's state machine.

pub mod events;
pub mod input;
pub mod geometry;
pub mod batch;
pub mod window;
pub mod runtime;
pub mod text;
pub mod texture;

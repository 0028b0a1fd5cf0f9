//! Core of a one-shot screen-region capture tool.
//!
//! The user drags a rectangle over a transparent full-screen overlay; on
//! release the selected region is captured, written to a timestamped PNG
//! under the pictures directory, and pushed to the clipboard.  This crate
//! holds the verified core: the selection geometry, the drag-state machine,
//! the overlay outline renderer, the filename and path derivation, and the
//! capture-and-persist step machine.  The windowing, screen-capture,
//! filesystem and clipboard substrates stay outside and are driven through
//! the events and actions these types exchange.

pub mod clock;
pub mod draw;
pub mod filename;
pub mod geometry;
pub mod pipeline;
pub mod session;

//! Verified core of a small immediate-mode GUI / OpenGL demo.
//!
//! The library holds the value types and per-frame decision logic of the
//! application: the viewport rectangle and its coordinate-origin flip, the
//! GUI state (tab choice, transform triples, frame timing, derived
//! viewport), and the application driver's phase/event state machine.
//! Window creation, the GL context, and the GUI toolkit itself are platform
//! edges and live outside the library.

pub mod driver;
pub mod gui;
pub mod viewport;

pub use viewport::Viewport;

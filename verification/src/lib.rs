//! Core of a minimal desktop image viewer: a window with an "Open" control
//! that launches a native file picker, and a display area showing either the
//! selected image or a placeholder message.
//!
//! This crate holds the viewer's entire behaviour as verified code: the
//! event-to-action decision, the application of a dialog outcome to the
//! state, the startup state drawn from the argument list, the palette
//! tables, and the pure mapping from state to what the window shows. The
//! host GUI toolkit, the native dialog, and all other I/O live outside this
//! crate and drive it through plain values.

pub mod events;
pub mod render;
pub mod state;
pub mod style;

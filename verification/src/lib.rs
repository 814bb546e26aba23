//! Turns clipboard text into a QR picture for an interactive preview window.
//!
//! The crate holds the rules of the preview: which clipboard source is asked
//! next, how the encoder's bitmap becomes a pixel buffer, and when the one
//! texture of the window is created. Reading the clipboard, talking to the
//! window system and drawing are left to the program around it.

pub mod symbol;
pub mod bitmap;
pub mod clipboard;
pub mod texture;
pub mod viewer;

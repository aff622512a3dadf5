//! Translate Dock: the decisions of a small tray translator, verified.
//!
//! The window, the tray, the HTTP exchange and the operating system's key
//! protection are performed by the program around this library; what they
//! decide is computed and proved here.

pub mod language;
pub mod codec;
pub mod text;
pub mod vault;
pub mod translate;
pub mod dock;

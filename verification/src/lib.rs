//! Verified core of a minimal pan/zoom image viewer.
//!
//! The library holds the viewer's logic: the exact rational algebra of the
//! view transform (`rat`, `transform`), the interpretation of pointer, wheel
//! and keyboard input (`input`), and the window/surface lifecycle state
//! machine (`session`). Decoding files, creating windows and GPU surfaces,
//! and presenting frames are left to an unverified shell that drives this
//! library and performs the actions it decides on.

pub mod input;
pub mod rat;
pub mod session;
pub mod transform;

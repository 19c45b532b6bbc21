//! Ownership and lifetime layer over a native computer-vision library.
//!
//! Native handles are carried here as plain addresses (`usize`, zero for a null
//! handle); the native calls themselves are made by the program around the library.
use vstd::prelude::*;

pub mod primitives;
pub mod highgui;
pub mod image;
pub mod objdetect;
pub mod video;

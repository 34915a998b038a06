//! Handle layer over a native computer-vision library: barcode detection,
//! video super-resolution and shape matching.
//!
//! Every native object is reached through a move-only handle that carries the
//! object's address. The library checks everything that can be checked before a
//! native call is made (null handles, string arguments, enumerated codes) and
//! turns what a native call reports back into a typed `Result`.
#![allow(non_camel_case_types)]
#![allow(non_snake_case)]

pub mod algorithm;
pub mod barcode;
pub mod error;
pub mod marshal;
pub mod shape;
pub mod superres;

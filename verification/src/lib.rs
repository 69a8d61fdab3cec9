//! Verified scenarios for fixed-capacity vectors and strings.
pub mod errors;
pub mod model;
pub mod vec_usize;
pub mod vec_i32;
pub mod vec_bytes;
pub mod vec_owned;
pub mod vec_zst;
pub mod strings;

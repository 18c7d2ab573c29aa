//! Verified building blocks of two image-building tools: an assembler for
//! enclave images, and a vendoring step for Go and Rust sources.

pub mod big_endian;
pub mod checksum;
pub mod eif;
pub mod eif_build_laws;
pub mod eif_laws;
pub mod hex;
pub mod hex_laws;
pub mod path;
pub mod text;
pub mod vendor;

//! Four-byte chunk type codes: validation, case-bit classification and text conversion.

pub mod chunk_type;

pub use crate::chunk_type::{ChunkType, ChunkTypeError};

//! Codec for length-prefixed, type-tagged, CRC-checked data chunks in the
//! layout used by PNG: a four-letter type code with four flag bits, and a
//! chunk that couples a type code with an opaque payload.

pub mod chunk;
pub mod chunk_type;
pub mod text;
pub mod types;

pub use chunk::Chunk;
pub use chunk_type::ChunkType;
pub use types::{assert_or_err, error_from, Error, ErrorKind};

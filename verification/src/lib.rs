//! Typed model and codec for quantum circuit documents.
//!
//! A circuit is held as a [`SerialCircuit`]: commands, each an operation on
//! named places. [`codec::Codec`] decodes a circuit from a document tree,
//! [`json::Json`], and encodes it back. Every shape of the format is stated
//! as a pair of spec functions, and every one is proved to decode what it
//! encodes.

pub mod circuit_json;
pub mod clexpr;
pub mod codec;
pub mod json;
pub mod opbox;
pub mod optype;
pub mod register;

pub use circuit_json::SerialCircuit;
pub use optype::OpType;

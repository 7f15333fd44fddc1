//! Typed access layer over an MDBX-style transactional key/value engine.
//!
//! The library holds the rules of the layer: how keys and values become
//! bytes, which tables a schema has, what a transaction asks of the engine
//! and how it reads the engine's answers. The engine itself is driven by the
//! caller, who performs each request and hands the answer back.

pub mod error;
pub mod env;
pub mod codecs;
pub mod traits;
pub mod portable;
pub mod keys;
pub mod wrapper;
pub mod tables;
pub mod tx;
pub mod cursor;
pub mod provider;

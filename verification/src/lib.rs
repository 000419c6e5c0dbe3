//! Assembles cryptographic witness values, read as plain text lines, into a
//! single `Prover.toml` configuration document with a fixed field order.
//!
//! The library is pure: it works on strings and lists of strings already read
//! from disk, and produces the document text.  Reading the input files and
//! writing the output file is left to the surrounding binary.

pub mod convert;
pub mod render;
pub mod trim;

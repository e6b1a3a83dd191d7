//! What is read from the memory of a tag.

pub mod ndef;
pub mod reader;

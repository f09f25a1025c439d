//! Streaming scan of a Matroska segment through a bounded buffer.
pub mod buffer;
pub mod element;
pub mod slots;
pub mod scanner;
pub mod format;

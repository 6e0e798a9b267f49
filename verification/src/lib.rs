//! Decoding and classification of ELF object files.
//!
//! The crate turns an in-memory byte buffer into typed metadata: the
//! identification block, the file header, the section header table with
//! resolved names, and the dynamic string and library lists. Every decoder is
//! a pure function of its input; nothing here reads files or prints.

pub mod dynamic;
pub mod error;
pub mod header;
pub mod identity;
pub mod mode;
pub mod object;
pub mod section;
pub mod strtab;
pub mod text;
pub mod wire;

//! A minimal binary-executable introspection library.
//!
//! Given the raw bytes of an object file, the library decodes the fixed-size
//! container header, enumerates the file's sections, reads its symbol table,
//! and builds an address-indexed model (`Binary`) that answers queries such as
//! "which section contains virtual address X" and "where is section .text".
//!
//! Only the 64-bit ELF container is decoded; the data model keeps room for
//! other formats and architectures as explicit enumeration variants. All
//! parsing is a pure computation over an in-memory buffer: reading the file
//! and rendering reports are left to callers.

pub mod binary;
pub mod errors;
pub mod header;
pub mod names;
pub mod section;
pub mod section_table;
pub mod symbol;
pub mod symbol_table;
pub mod words;

//! Decoding of the structural layout of ELF64 object files: the file header,
//! the section header table and symbol tables, together with total
//! classification functions for the numeric fields.
pub mod types;
pub mod error;
pub mod bytes;
pub mod classify;
pub mod header;
pub mod section;
pub mod symbol_table;

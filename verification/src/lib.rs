//! Construction of ACPI description tables as exact binary images.
//!
//! The library covers the byte-level logic of a firmware-time table
//! builder: the packed layout of each table kind, the one-byte checksum
//! that makes a table image sum to zero modulo 256, the selection of the
//! authoritative table directory from the root pointer, and the in-place
//! patching of a fixed-size bytecode payload.  Firmware services (memory
//! allocation, the table registry, the variable store) are callers of this
//! library, not part of it.

pub mod builder;
pub mod checksum;
pub mod codec;
pub mod layout;
pub mod patch;
pub mod walker;

//! Verified core of a journal viewer: decoding of structured journal
//! output into log records, decoding of boot-list output into boot
//! sessions, substring filtering over the loaded records, and the
//! construction of the query argument lists handed to the external
//! journal tool.

pub mod boot_info;
pub mod boots;
pub mod decode;
pub mod laws;
pub mod log_entry;
pub mod message;
pub mod query;
pub mod state;
pub mod text;

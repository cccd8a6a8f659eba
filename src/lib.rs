//! Lookups of IP addresses in a MaxMind DB database, with the decoded record
//! handed back as a plain value tree.

pub mod address;
pub mod document;
pub mod error;
pub mod reader;
pub mod value;

pub use reader::DatabaseHandle;
pub use value::GenericValue;

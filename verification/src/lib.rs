//! A verified fetch-or-create core for a single-partition-key lookup table.
//!
//! Given a table name, a JSON-encoded item and the name of its partition-key
//! field, the library parses the item, extracts and maps the key, and decides
//! from the cardinality of a key-equality query whether to insert the item,
//! report the existing record, or fail on a uniqueness violation. The network
//! calls themselves are made by the surrounding program; everything that
//! decides is here, with contracts.

pub mod attr;
pub mod engine;
pub mod errors;
pub mod json;

//! The verified core of a binding to the PoloDB document database: ObjectId
//! text, regular-expression flags, index names, transaction state, query
//! options, storage settings and conversion error messages.
pub mod object_id;
pub mod regex_flags;
pub mod decimal;
pub mod index_name;
pub mod transaction;
pub mod query;
pub mod config;
pub mod conversion;

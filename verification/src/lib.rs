//! Value conversions between Rust types and the values a turso database
//! stores, with the path handling used when connecting.

pub mod error;
pub mod text;
pub mod value;
pub mod param;
pub mod decode;
pub mod row;
pub mod temporal;
pub mod uuids;
pub mod path;
pub mod laws;

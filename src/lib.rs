//! Read side of a message store: stream-address resolution, SQL literal
//! escaping, query planning and decoding of message rows.

pub mod literal;
pub mod address;
pub mod query;
pub mod message;
pub mod directory;
pub mod error;

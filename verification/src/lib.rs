//! Common market-data enums, fixed-layout record types, and the tag-checked
//! protocol for turning raw byte spans into typed record values.

pub mod codec;
pub mod definition;
pub mod enums;
pub mod error;
pub mod market;
pub mod record;
pub mod status;

pub use error::Error;

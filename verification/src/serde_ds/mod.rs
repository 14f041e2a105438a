//! The codec proper: one module per direction, and the shared error type.

pub mod error;
pub mod ser;
pub mod de;
pub mod round_trip;

pub use self::error::{Error, ErrorModel};

//! Error classification for retry-driven code: a wrapper that tags a failure
//! as permanent or transient and optionally carries a caller-mandated delay
//! before the next attempt.

pub mod error;

pub use crate::error::Error;
pub use crate::error::SimpleError;
pub use crate::error::UnderlyingError;

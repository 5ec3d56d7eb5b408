//! Typed field extraction from decoded array frames, and the retry policy of
//! a listener that has to survive transient accept failures.

pub mod accept;
pub mod decimal;
pub mod error;
pub mod frame;
pub mod parse;
pub mod read;
pub mod text;

pub use crate::accept::{Backoff, Retry};
pub use crate::error::ParseError;
pub use crate::frame::Frame;
pub use crate::parse::Parse;

//! A shared prelude: brings both conversion methods into scope without
//! naming the contracts explicitly.

pub use crate::TryFromAsync as _;
pub use crate::TryIntoAsync as _;

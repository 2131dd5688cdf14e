//! Helper for procedural macro authors that duplicate a received function
//! inside its own body, so as to wrap it with a prologue, an epilogue, caching, etc.

pub mod tokens;
pub mod names;
pub mod signature;
pub mod wrap;
pub mod errors;
pub mod expand;
pub mod item;

pub use item::parse_and_func_wrap_with;
pub use wrap::{func_wrap, ImplOrTrait, WrappedFuncCall};

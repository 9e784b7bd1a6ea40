//! Compact owned UTF-8 strings of at most 255 bytes.

pub mod concat;
pub mod rope;
pub mod tiny_str;

pub use concat::str_concat;
pub use tiny_str::{TinyBoxedStr, TooLongError, INLINE_LEN, PREFIX_LEN, SUFFIX_LEN};

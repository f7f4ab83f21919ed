//! Streaming HTML escaping and unescaping of byte sequences.
//!
//! `Escape` replaces the bytes of a fixed set by character references;
//! `Unescape` resolves named, decimal and hexadecimal character references.
//! Both take bytes, so any encoding that extends ASCII will do.
pub mod codepoint;
pub mod escape;
pub mod reference_data;
pub mod round_trip;
pub mod unescape;
pub mod unescape_named;

pub use escape::Escape;
pub use unescape::Unescape;
pub use unescape_named::get_named_ref;

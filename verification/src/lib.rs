//! A safe, value-semantic object model for symbol, type, and lexical
//! information extracted from C/C++ sources by an external compiler
//! front-end.
//!
//! The front-end itself (parsing and semantic analysis) is reached through
//! an opaque, handle-based protocol; this crate holds the ownership-safe
//! query layer: the compilation environment ([`index::Index`]), the type
//! model ([`ty::Type`]), the AST node handle ([`cursor::Cursor`]), the
//! lexical model ([`token::Token`]), and the bridge that turns externally
//! allocated text buffers into owned strings exactly once
//! ([`bridge::bridge_external_text`]).

pub mod bridge;
pub mod cursor;
pub mod error;
pub mod index;
pub mod token;
pub mod ty;

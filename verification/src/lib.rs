//! Decoder for a compiled-bytecode container format: a binary file that
//! describes a single compiled type through a constant table, field and
//! method records, and nested attributes, one of which carries an
//! executable instruction stream.
//!
//! The decoder is a pure function over an immutable byte buffer. Every
//! public parsing function is specified against a mathematical model of
//! the byte-level grammar, and malformed input is rejected with a typed
//! error instead of a panic or an out-of-bounds read.

pub mod attribute;
pub mod bytes;
pub mod classfile;
pub mod constant;
pub mod instruction;
pub mod error;
pub mod text;

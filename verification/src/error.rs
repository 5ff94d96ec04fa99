//! The error taxonomy of the decoder.
//!
//! Every decode step returns either success with the position after the
//! consumed bytes, or one typed failure. Failures are never silently
//! recovered: the first failure aborts the whole decode.

use vstd::prelude::*;

verus! {

/// The kind of the first failure a decode encountered.
#[derive(Clone, Copy, Debug, PartialEq, Eq, Structural)]
pub enum ErrorKind {
    /// The buffer was exhausted in the middle of a read.
    UnexpectedEnd,
    /// The leading four-byte constant was wrong.
    BadMagic,
    /// A constant-table entry carried a tag byte outside the fixed table.
    UnknownConstantTag,
    /// An instruction stream held an opcode outside the fixed table, or an
    /// ill-formed encoding of a known variable-length opcode.
    UnknownOpcode,
    /// An index field points outside the constant table.
    IndexOutOfRange,
    /// A resolved attribute-name index did not refer to a text entry.
    AttributeNameNotUtf8,
    /// A text constant held a malformed multi-byte encoding.
    InvalidText,
    /// An attribute consumed a number of bytes different from its declared
    /// length.
    AttributeLengthMismatch,
    /// Strict-mode check: bytes remained after a structurally complete
    /// decode.
    TrailingData,
}

/// A decode failure: the kind of the first failure, and the approximate
/// byte offset in the input at which it occurred.
///
/// Contracts pin the kind exactly; the offset is a diagnostic and is only
/// guaranteed to lie within the input buffer.
#[derive(Clone, Copy, Debug, PartialEq, Eq, Structural)]
pub struct DecodeError {
    pub kind: ErrorKind,
    pub offset: usize,
}

/// Relates an executable parse result to the grammar model: on success the
/// model returns exactly the deep view of the decoded value and the
/// position after it; on failure it returns exactly the error kind.
pub open spec fn obeys_model<T: DeepView>(
    r: Result<(T, usize), DecodeError>,
    m: Result<(T::V, int), ErrorKind>,
) -> bool {
    match r {
        Ok((v, n)) => m == Ok::<(T::V, int), ErrorKind>((v.deep_view(), n as int)),
        Err(e) => m == Err::<(T::V, int), ErrorKind>(e.kind),
    }
}

} // verus!

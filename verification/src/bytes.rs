//! Positional reads of fixed-width big-endian integers over an immutable
//! byte buffer.
//!
//! Every primitive read either returns the value together with the
//! position after it, or fails with `UnexpectedEnd` when fewer bytes
//! remain than requested; there is no partial read. The buffer is never
//! copied, only indexed.

use vstd::prelude::*;

use crate::error::{obeys_model, DecodeError, ErrorKind};

verus! {

/// The big-endian 16-bit value stored at `pos`.
pub open spec fn be_u16_at(s: Seq<u8>, pos: int) -> u16
    recommends
        0 <= pos,
        pos + 2 <= s.len(),
{
    ((s[pos] as int) * 0x100 + (s[pos + 1] as int)) as u16
}

/// The big-endian 32-bit value stored at `pos`.
pub open spec fn be_u32_at(s: Seq<u8>, pos: int) -> u32
    recommends
        0 <= pos,
        pos + 4 <= s.len(),
{
    ((s[pos] as int) * 0x1000000 + (s[pos + 1] as int) * 0x10000 + (s[pos + 2] as int) * 0x100 + (
    s[pos + 3] as int)) as u32
}

/// Model of a one-byte read at `pos`.
pub open spec fn spec_read_u8(s: Seq<u8>, pos: int) -> Result<(u8, int), ErrorKind> {
    if 0 <= pos && pos + 1 <= s.len() {
        Ok((s[pos], pos + 1))
    } else {
        Err(ErrorKind::UnexpectedEnd)
    }
}

/// Model of a big-endian two-byte read at `pos`.
pub open spec fn spec_read_u16(s: Seq<u8>, pos: int) -> Result<(u16, int), ErrorKind> {
    if 0 <= pos && pos + 2 <= s.len() {
        Ok((be_u16_at(s, pos), pos + 2))
    } else {
        Err(ErrorKind::UnexpectedEnd)
    }
}

/// Model of a big-endian four-byte read at `pos`.
pub open spec fn spec_read_u32(s: Seq<u8>, pos: int) -> Result<(u32, int), ErrorKind> {
    if 0 <= pos && pos + 4 <= s.len() {
        Ok((be_u32_at(s, pos), pos + 4))
    } else {
        Err(ErrorKind::UnexpectedEnd)
    }
}

/// Reads the byte at `pos`, advancing the position by one.
pub fn read_u8(input: &[u8], pos: usize) -> (r: Result<(u8, usize), DecodeError>)
    ensures
        obeys_model(r, spec_read_u8(input@, pos as int)),
        r matches Ok((_, n)) ==> pos < n <= input@.len(),
        r matches Err(e) ==> e.offset == pos,
{
    if pos < input.len() {
        Ok((input[pos], pos + 1))
    } else {
        Err(DecodeError { kind: ErrorKind::UnexpectedEnd, offset: pos })
    }
}

/// Reads a big-endian 16-bit integer at `pos`, advancing the position by
/// two.
pub fn read_u16(input: &[u8], pos: usize) -> (r: Result<(u16, usize), DecodeError>)
    ensures
        obeys_model(r, spec_read_u16(input@, pos as int)),
        r matches Ok((_, n)) ==> pos < n <= input@.len(),
        r matches Err(e) ==> e.offset == pos,
{
    if pos < input.len() && input.len() - pos >= 2 {
        let v: u16 = (input[pos] as u16) * 0x100 + (input[pos + 1] as u16);
        Ok((v, pos + 2))
    } else {
        Err(DecodeError { kind: ErrorKind::UnexpectedEnd, offset: pos })
    }
}

/// Reads a big-endian 32-bit integer at `pos`, advancing the position by
/// four.
pub fn read_u32(input: &[u8], pos: usize) -> (r: Result<(u32, usize), DecodeError>)
    ensures
        obeys_model(r, spec_read_u32(input@, pos as int)),
        r matches Ok((_, n)) ==> pos < n <= input@.len(),
        r matches Err(e) ==> e.offset == pos,
{
    if pos < input.len() && input.len() - pos >= 4 {
        let v: u32 = (input[pos] as u32) * 0x1000000 + (input[pos + 1] as u32) * 0x10000 + (input[
            pos + 2
        ] as u32) * 0x100 + (input[pos + 3] as u32);
        Ok((v, pos + 4))
    } else {
        Err(DecodeError { kind: ErrorKind::UnexpectedEnd, offset: pos })
    }
}

} // verus!

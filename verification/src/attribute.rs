//! Decoder for the name-tagged, length-prefixed, recursively nested
//! attribute records.
//!
//! An attribute starts with a name index that must resolve to a text
//! entry of the already-decoded constant table, followed by a declared
//! byte length. The resolved name selects the layout: the instruction-
//! bearing record, the line-number table, the source-file reference, or
//! an opaque byte payload of exactly the declared length for every other
//! name. The instruction-bearing record holds a nested attribute list and
//! makes the decoder structurally recursive; recursion is bounded only by
//! the input size.

use vstd::prelude::*;

use crate::bytes::{be_u16_at, read_u16, read_u32, spec_read_u16, spec_read_u32};
use crate::constant::{CpEntryV, CpInfo};
use crate::error::{DecodeError, ErrorKind};
use crate::instruction::{read_instructions, spec_parse_instructions, InsV, Instruction};

verus! {

broadcast use vstd::std_specs::vec::group_vec_axioms;

/// One entry of the exception-handler table of an instruction-bearing
/// attribute. Offsets are raw byte offsets into the instruction stream;
/// a catch type of 0 is the catch-all marker.
#[derive(Clone, Copy, Debug, PartialEq, Eq, Structural)]
pub struct ExceptionTableEntry {
    pub start_pc: u16,
    pub end_pc: u16,
    pub handler_pc: u16,
    pub catch_type: u16,
}

impl DeepView for ExceptionTableEntry {
    type V = ExceptionTableEntry;

    open spec fn deep_view(&self) -> ExceptionTableEntry {
        *self
    }
}

/// One pair of a line-number table: a byte offset into the instruction
/// stream and the source line it came from.
#[derive(Clone, Copy, Debug, PartialEq, Eq, Structural)]
pub struct LineNumberTableEntry {
    pub start_pc: u16,
    pub line_number: u16,
}

impl DeepView for LineNumberTableEntry {
    type V = LineNumberTableEntry;

    open spec fn deep_view(&self) -> LineNumberTableEntry {
        *self
    }
}

/// The decoded body of an attribute, selected by its resolved name.
#[derive(Debug, PartialEq, Eq)]
pub enum Attribute {
    Code {
        max_stack: u16,
        max_locals: u16,
        code_length: u32,
        code: Vec<Instruction>,
        exception_table: Vec<ExceptionTableEntry>,
        attributes: Vec<AttributeInfo>,
    },
    LineNumberTable { line_number_table: Vec<LineNumberTableEntry> },
    SourceFile { source_file_index: u16 },
    Unknown { bytes: Vec<u8> },
}

/// One decoded attribute: the raw name index and the decoded body.
#[derive(Debug, PartialEq, Eq)]
pub struct AttributeInfo {
    pub attribute_name_index: u16,
    pub attribute: Attribute,
}

/// The mathematical model of an attribute body.
#[verifier::ext_equal]
pub enum AttrV {
    Code {
        max_stack: u16,
        max_locals: u16,
        code_length: u32,
        code: Seq<InsV>,
        exception_table: Seq<ExceptionTableEntry>,
        attributes: Seq<AttrInfoV>,
    },
    LineNumberTable { line_number_table: Seq<LineNumberTableEntry> },
    SourceFile { source_file_index: u16 },
    Unknown { bytes: Seq<u8> },
}

/// The mathematical model of one attribute.
#[verifier::ext_equal]
pub struct AttrInfoV {
    pub attribute_name_index: u16,
    pub attribute: AttrV,
}

/// The model of a decoded attribute body.
pub open spec fn view_attribute(at: Attribute) -> AttrV
    decreases at,
{
    match at {
        Attribute::Code {
            max_stack,
            max_locals,
            code_length,
            code,
            exception_table,
            attributes,
        } => AttrV::Code {
            max_stack,
            max_locals,
            code_length,
            code: code.deep_view(),
            exception_table: exception_table.deep_view(),
            attributes: view_attr_vec(attributes),
        },
        Attribute::LineNumberTable { line_number_table } => AttrV::LineNumberTable {
            line_number_table: line_number_table.deep_view(),
        },
        Attribute::SourceFile { source_file_index } => AttrV::SourceFile { source_file_index },
        Attribute::Unknown { bytes } => AttrV::Unknown { bytes: bytes@ },
    }
}

/// The models of the attributes a nested list holds, in order.
pub open spec fn view_attr_vec(v: Vec<AttributeInfo>) -> Seq<AttrInfoV>
    decreases v,
{
    view_attr_seq(v@)
}

/// The models of a sequence of decoded attributes, by structural
/// recursion over the sequence.
pub open spec fn view_attr_seq(s: Seq<AttributeInfo>) -> Seq<AttrInfoV>
    decreases s,
{
    if s.len() <= 0 {
        Seq::empty()
    } else {
        seq![view_attr_info(s[0])] + view_attr_seq(s.subrange(1, s.len() as int))
    }
}

/// The model of one decoded attribute.
pub open spec fn view_attr_info(a: AttributeInfo) -> AttrInfoV
    decreases a,
{
    AttrInfoV {
        attribute_name_index: a.attribute_name_index,
        attribute: view_attribute(a.attribute),
    }
}

/// The models of a sequence of decoded attributes, in order.
pub open spec fn view_attr_infos(v: Seq<AttributeInfo>) -> Seq<AttrInfoV> {
    Seq::new(v.len(), |i: int| view_attr_info(v[i]))
}

/// The structural and the pointwise form of the attribute-list view
/// agree.
pub proof fn lemma_view_attr_seq(s: Seq<AttributeInfo>)
    ensures
        view_attr_seq(s) == view_attr_infos(s),
    decreases s,
{
    if s.len() > 0 {
        lemma_view_attr_seq(s.subrange(1, s.len() as int));
        assert(view_attr_seq(s) =~= view_attr_infos(s));
    } else {
        assert(view_attr_seq(s) =~= view_attr_infos(s));
    }
}

impl DeepView for Attribute {
    type V = AttrV;

    open spec fn deep_view(&self) -> AttrV {
        view_attribute(*self)
    }
}

impl DeepView for AttributeInfo {
    type V = AttrInfoV;

    open spec fn deep_view(&self) -> AttrInfoV {
        view_attr_info(*self)
    }
}

/// The resolved name that selects the instruction-bearing layout.
pub open spec fn code_name() -> Seq<char> {
    seq!['C', 'o', 'd', 'e']
}

/// The resolved name that selects the line-number-table layout.
pub open spec fn line_number_table_name() -> Seq<char> {
    seq!['L', 'i', 'n', 'e', 'N', 'u', 'm', 'b', 'e', 'r', 'T', 'a', 'b', 'l', 'e']
}

/// The resolved name that selects the source-file layout.
pub open spec fn source_file_name() -> Seq<char> {
    seq!['S', 'o', 'u', 'r', 'c', 'e', 'F', 'i', 'l', 'e']
}

/// Model of the line-number-table body at `p2`: an entry count, then one
/// offset/line pair per entry.
pub open spec fn spec_parse_line_number_table(s: Seq<u8>, p2: int) -> Result<
    (AttrV, int),
    ErrorKind,
> {
    match spec_read_u16(s, p2) {
        Err(k) => Err(k),
        Ok((n, q1)) => if q1 + 4 * n <= s.len() {
            Ok(
                (
                    AttrV::LineNumberTable {
                        line_number_table: Seq::new(
                            n as nat,
                            |i: int| LineNumberTableEntry {
                                start_pc: be_u16_at(s, q1 + 4 * i),
                                line_number: be_u16_at(s, q1 + 4 * i + 2),
                            },
                        ),
                    },
                    q1 + 4 * n,
                ),
            )
        } else {
            Err(ErrorKind::UnexpectedEnd)
        },
    }
}

/// Model of the instruction-bearing body at `p2`: stack and local sizes,
/// the embedded instruction stream, the exception-handler table, and a
/// nested attribute list decoded through the same attribute grammar.
pub open spec fn spec_parse_code(s: Seq<u8>, pool: Seq<CpEntryV>, p2: int) -> Result<
    (AttrV, int),
    ErrorKind,
>
    decreases s.len() - p2, 0int,
{
    match spec_read_u16(s, p2) {
        Err(k) => Err(k),
        Ok((max_stack, q1)) => match spec_read_u16(s, q1) {
            Err(k) => Err(k),
            Ok((max_locals, q2)) => match spec_read_u32(s, q2) {
                Err(k) => Err(k),
                Ok((code_length, q3)) => if q3 + code_length <= s.len() {
                    match spec_parse_instructions(s.subrange(q3, q3 + code_length), 0) {
                        Err(k) => Err(k),
                        Ok(code) => {
                            let q4 = q3 + code_length;
                            match spec_read_u16(s, q4) {
                                Err(k) => Err(k),
                                Ok((ec, q5)) => if q5 + 8 * ec <= s.len() {
                                    let q6 = q5 + 8 * ec;
                                    match spec_read_u16(s, q6) {
                                        Err(k) => Err(k),
                                        Ok((ac, q7)) => match spec_parse_attr_list(
                                            s,
                                            pool,
                                            q7,
                                            ac as int,
                                        ) {
                                            Err(k) => Err(k),
                                            Ok((attributes, q8)) => Ok(
                                                (
                                                    AttrV::Code {
                                                        max_stack,
                                                        max_locals,
                                                        code_length,
                                                        code,
                                                        exception_table: Seq::new(
                                                            ec as nat,
                                                            |i: int| ExceptionTableEntry {
                                                                start_pc: be_u16_at(s, q5 + 8 * i),
                                                                end_pc: be_u16_at(s, q5 + 8 * i + 2),
                                                                handler_pc: be_u16_at(
                                                                    s,
                                                                    q5 + 8 * i + 4,
                                                                ),
                                                                catch_type: be_u16_at(
                                                                    s,
                                                                    q5 + 8 * i + 6,
                                                                ),
                                                            },
                                                        ),
                                                        attributes,
                                                    },
                                                    q8,
                                                ),
                                            ),
                                        },
                                    }
                                } else {
                                    Err(ErrorKind::UnexpectedEnd)
                                },
                            }
                        },
                    }
                } else {
                    Err(ErrorKind::UnexpectedEnd)
                },
            },
        },
    }
}

/// Model of the decode of one attribute at `pos`: name index, declared
/// length, then the layout the resolved name selects. A name index
/// outside the table fails with `IndexOutOfRange`; one that resolves to
/// anything but a text entry fails with `AttributeNameNotUtf8`.
pub open spec fn spec_parse_attribute(s: Seq<u8>, pool: Seq<CpEntryV>, pos: int) -> Result<
    (AttrInfoV, int),
    ErrorKind,
>
    decreases s.len() - pos, 2int,
{
    match spec_read_u16(s, pos) {
        Err(k) => Err(k),
        Ok((attribute_name_index, p1)) => match spec_read_u32(s, p1) {
            Err(k) => Err(k),
            Ok((length, p2)) => if pool.len() <= attribute_name_index {
                Err(ErrorKind::IndexOutOfRange)
            } else {
                match pool[attribute_name_index as int] {
                    CpEntryV::Utf8 { value } => {
                        if value == code_name() {
                            match spec_parse_code(s, pool, p2) {
                                Err(k) => Err(k),
                                Ok((attribute, p3)) => Ok(
                                    (AttrInfoV { attribute_name_index, attribute }, p3),
                                ),
                            }
                        } else if value == line_number_table_name() {
                            match spec_parse_line_number_table(s, p2) {
                                Err(k) => Err(k),
                                Ok((attribute, p3)) => Ok(
                                    (AttrInfoV { attribute_name_index, attribute }, p3),
                                ),
                            }
                        } else if value == source_file_name() {
                            match spec_read_u16(s, p2) {
                                Err(k) => Err(k),
                                Ok((source_file_index, p3)) => Ok(
                                    (
                                        AttrInfoV {
                                            attribute_name_index,
                                            attribute: AttrV::SourceFile { source_file_index },
                                        },
                                        p3,
                                    ),
                                ),
                            }
                        } else {
                            if p2 + length <= s.len() {
                                Ok(
                                    (
                                        AttrInfoV {
                                            attribute_name_index,
                                            attribute: AttrV::Unknown {
                                                bytes: s.subrange(p2, p2 + length),
                                            },
                                        },
                                        p2 + length,
                                    ),
                                )
                            } else {
                                Err(ErrorKind::UnexpectedEnd)
                            }
                        }
                    },
                    _ => Err(ErrorKind::AttributeNameNotUtf8),
                }
            },
        },
    }
}

/// Model of the caller-facing decode of one attribute at `pos`: the same
/// grammar, with the consumed body length cross-checked against the
/// declared length; a mismatch is `AttributeLengthMismatch`.
pub open spec fn spec_parse_attribute_checked(s: Seq<u8>, pool: Seq<CpEntryV>, pos: int) -> Result<
    (AttrInfoV, int),
    ErrorKind,
> {
    match spec_read_u16(s, pos) {
        Err(k) => Err(k),
        Ok((name_index, p1)) => match spec_read_u32(s, p1) {
            Err(k) => Err(k),
            Ok((length, p2)) => match spec_parse_attribute(s, pool, pos) {
                Err(k) => Err(k),
                Ok((a, n)) => if n - p2 == length {
                    Ok((a, n))
                } else {
                    Err(ErrorKind::AttributeLengthMismatch)
                },
            },
        },
    }
}

/// Model of the decode of `n` consecutive attributes starting at `pos`.
pub open spec fn spec_parse_attr_list(s: Seq<u8>, pool: Seq<CpEntryV>, pos: int, n: int) -> Result<
    (Seq<AttrInfoV>, int),
    ErrorKind,
>
    decreases s.len() - pos, n + 3,
{
    if n <= 0 {
        Ok((Seq::empty(), pos))
    } else {
        match spec_parse_attribute(s, pool, pos) {
            Err(k) => Err(k),
            Ok((a, p2)) => if pos < p2 <= s.len() {
                match spec_parse_attr_list(s, pool, p2, n - 1) {
                    Err(k) => Err(k),
                    Ok((rest, p3)) => Ok((seq![a] + rest, p3)),
                }
            } else {
                Err(ErrorKind::UnexpectedEnd)
            },
        }
    }
}

/// Compares a decoded name with the instruction-bearing layout's name.
fn is_code_name(v: &Vec<char>) -> (r: bool)
    ensures
        r == (v@ == code_name()),
{
    let r = v.len() == 4 && v[0] == 'C' && v[1] == 'o' && v[2] == 'd' && v[3] == 'e';
    proof {
        if r {
            assert(v@ =~= code_name());
        }
    }
    r
}

/// Compares a decoded name with the line-number-table layout's name.
fn is_line_number_table_name(v: &Vec<char>) -> (r: bool)
    ensures
        r == (v@ == line_number_table_name()),
{
    let r = v.len() == 15 && v[0] == 'L' && v[1] == 'i' && v[2] == 'n' && v[3] == 'e' && v[4] == 'N'
        && v[5] == 'u' && v[6] == 'm' && v[7] == 'b' && v[8] == 'e' && v[9] == 'r' && v[10] == 'T'
        && v[11] == 'a' && v[12] == 'b' && v[13] == 'l' && v[14] == 'e';
    proof {
        if r {
            assert(v@ =~= line_number_table_name());
        }
    }
    r
}

/// Compares a decoded name with the source-file layout's name.
fn is_source_file_name(v: &Vec<char>) -> (r: bool)
    ensures
        r == (v@ == source_file_name()),
{
    let r = v.len() == 10 && v[0] == 'S' && v[1] == 'o' && v[2] == 'u' && v[3] == 'r' && v[4] == 'c'
        && v[5] == 'e' && v[6] == 'F' && v[7] == 'i' && v[8] == 'l' && v[9] == 'e';
    proof {
        if r {
            assert(v@ =~= source_file_name());
        }
    }
    r
}

impl AttributeInfo {
    /// Decodes one attribute at `pos`, resolving its name through the
    /// already-decoded constant table. Known names get their specialized
    /// layout; every other name decodes as an opaque payload of exactly
    /// the declared length.
    #[verifier::rlimit(100)]
    pub fn read(input: &[u8], pool: &Vec<CpInfo>, pos: usize) -> (r: Result<
        (AttributeInfo, usize),
        DecodeError,
    >)
        requires
            pos <= input@.len(),
        ensures
            (match r {
                Ok((a, n)) => spec_parse_attribute(input@, pool.deep_view(), pos as int) == Ok::<
                    (AttrInfoV, int),
                    ErrorKind,
                >((view_attr_info(a), n as int)) && pos + 6 <= n <= input@.len(),
                Err(e) => spec_parse_attribute(input@, pool.deep_view(), pos as int) == Err::<
                    (AttrInfoV, int),
                    ErrorKind,
                >(e.kind) && e.offset <= input@.len(),
            }),
        decreases input@.len() - pos, 0int,
    {
        let (attribute_name_index, p1) = match read_u16(input, pos) {
            Ok(x) => x,
            Err(e) => {
                return Err(e);
            },
        };
        let (length, p2) = match read_u32(input, p1) {
            Ok(x) => x,
            Err(e) => {
                return Err(e);
            },
        };
        if attribute_name_index as usize >= pool.len() {
            return Err(DecodeError { kind: ErrorKind::IndexOutOfRange, offset: pos });
        }
        match &pool[attribute_name_index as usize] {
            CpInfo::Utf8 { value } => {
                if is_code_name(value) {
                    let (max_stack, q1) = match read_u16(input, p2) {
                        Ok(x) => x,
                        Err(e) => {
                            return Err(e);
                        },
                    };
                    let (max_locals, q2) = match read_u16(input, q1) {
                        Ok(x) => x,
                        Err(e) => {
                            return Err(e);
                        },
                    };
                    let (code_length, q3) = match read_u32(input, q2) {
                        Ok(x) => x,
                        Err(e) => {
                            return Err(e);
                        },
                    };
                    if input.len() - q3 < code_length as usize {
                        return Err(DecodeError { kind: ErrorKind::UnexpectedEnd, offset: q3 });
                    }
                    let code_end: usize = q3 + code_length as usize;
                    let code = match read_instructions(&input[q3..code_end]) {
                        Ok(v) => v,
                        Err(e) => {
                            return Err(DecodeError { kind: e.kind, offset: q3 + e.offset });
                        },
                    };
                    let (ec, q5) = match read_u16(input, code_end) {
                        Ok(x) => x,
                        Err(e) => {
                            return Err(e);
                        },
                    };
                    if input.len() - q5 < 8 * (ec as usize) {
                        return Err(DecodeError { kind: ErrorKind::UnexpectedEnd, offset: q5 });
                    }
                    let mut exception_table: Vec<ExceptionTableEntry> = Vec::new();
                    let mut j: usize = 0;
                    while j < ec as usize
                        invariant
                            j <= ec as usize,
                            input@.len() <= usize::MAX,
                            q5 + 8 * (ec as int) <= input@.len(),
                            exception_table@.len() == j,
                            forall|k: int|
                                0 <= k < j ==> exception_table@[k] == (ExceptionTableEntry {
                                    start_pc: be_u16_at(input@, q5 + 8 * k),
                                    end_pc: be_u16_at(input@, q5 + 8 * k + 2),
                                    handler_pc: be_u16_at(input@, q5 + 8 * k + 4),
                                    catch_type: be_u16_at(input@, q5 + 8 * k + 6),
                                }),
                        decreases ec as int - j,
                    {
                        let base: usize = q5 + 8 * j;
                        let (start_pc, _) = match read_u16(input, base) {
                            Ok(x) => x,
                            Err(e) => {
                                return Err(e);
                            },
                        };
                        let (end_pc, _) = match read_u16(input, base + 2) {
                            Ok(x) => x,
                            Err(e) => {
                                return Err(e);
                            },
                        };
                        let (handler_pc, _) = match read_u16(input, base + 4) {
                            Ok(x) => x,
                            Err(e) => {
                                return Err(e);
                            },
                        };
                        let (catch_type, _) = match read_u16(input, base + 6) {
                            Ok(x) => x,
                            Err(e) => {
                                return Err(e);
                            },
                        };
                        exception_table.push(
                            ExceptionTableEntry { start_pc, end_pc, handler_pc, catch_type },
                        );
                        j = j + 1;
                    }
                    let q6: usize = q5 + 8 * (ec as usize);
                    let (ac, q7) = match read_u16(input, q6) {
                        Ok(x) => x,
                        Err(e) => {
                            return Err(e);
                        },
                    };
                    let (attributes, q8) = match read_attribute_list(input, pool, q7, ac) {
                        Ok(x) => x,
                        Err(e) => {
                            return Err(e);
                        },
                    };
                    proof {
                        lemma_view_attr_seq(attributes@);
                        assert(exception_table.deep_view() =~= Seq::new(
                            ec as nat,
                            |i: int| ExceptionTableEntry {
                                start_pc: be_u16_at(input@, q5 + 8 * i),
                                end_pc: be_u16_at(input@, q5 + 8 * i + 2),
                                handler_pc: be_u16_at(input@, q5 + 8 * i + 4),
                                catch_type: be_u16_at(input@, q5 + 8 * i + 6),
                            },
                        ));
                    }
                    Ok(
                        (
                            AttributeInfo {
                                attribute_name_index,
                                attribute: Attribute::Code {
                                    max_stack,
                                    max_locals,
                                    code_length,
                                    code,
                                    exception_table,
                                    attributes,
                                },
                            },
                            q8,
                        ),
                    )
                } else if is_line_number_table_name(value) {
                    let (cnt, q1) = match read_u16(input, p2) {
                        Ok(x) => x,
                        Err(e) => {
                            return Err(e);
                        },
                    };
                    if input.len() - q1 < 4 * (cnt as usize) {
                        return Err(DecodeError { kind: ErrorKind::UnexpectedEnd, offset: q1 });
                    }
                    let mut line_number_table: Vec<LineNumberTableEntry> = Vec::new();
                    let mut j: usize = 0;
                    while j < cnt as usize
                        invariant
                            j <= cnt as usize,
                            input@.len() <= usize::MAX,
                            q1 + 4 * (cnt as int) <= input@.len(),
                            line_number_table@.len() == j,
                            forall|k: int|
                                0 <= k < j ==> line_number_table@[k] == (LineNumberTableEntry {
                                    start_pc: be_u16_at(input@, q1 + 4 * k),
                                    line_number: be_u16_at(input@, q1 + 4 * k + 2),
                                }),
                        decreases cnt as int - j,
                    {
                        let base: usize = q1 + 4 * j;
                        let (start_pc, _) = match read_u16(input, base) {
                            Ok(x) => x,
                            Err(e) => {
                                return Err(e);
                            },
                        };
                        let (line_number, _) = match read_u16(input, base + 2) {
                            Ok(x) => x,
                            Err(e) => {
                                return Err(e);
                            },
                        };
                        line_number_table.push(LineNumberTableEntry { start_pc, line_number });
                        j = j + 1;
                    }
                    proof {
                        assert(line_number_table.deep_view() =~= Seq::new(
                            cnt as nat,
                            |i: int| LineNumberTableEntry {
                                start_pc: be_u16_at(input@, q1 + 4 * i),
                                line_number: be_u16_at(input@, q1 + 4 * i + 2),
                            },
                        ));
                    }
                    Ok(
                        (
                            AttributeInfo {
                                attribute_name_index,
                                attribute: Attribute::LineNumberTable { line_number_table },
                            },
                            q1 + 4 * (cnt as usize),
                        ),
                    )
                } else if is_source_file_name(value) {
                    let (source_file_index, p3) = match read_u16(input, p2) {
                        Ok(x) => x,
                        Err(e) => {
                            return Err(e);
                        },
                    };
                    Ok(
                        (
                            AttributeInfo {
                                attribute_name_index,
                                attribute: Attribute::SourceFile { source_file_index },
                            },
                            p3,
                        ),
                    )
                } else {
                    if input.len() - p2 < length as usize {
                        return Err(DecodeError { kind: ErrorKind::UnexpectedEnd, offset: p2 });
                    }
                    let end: usize = p2 + length as usize;
                    let bytes = vstd::slice::slice_to_vec(&input[p2..end]);
                    Ok(
                        (
                            AttributeInfo {
                                attribute_name_index,
                                attribute: Attribute::Unknown { bytes },
                            },
                            end,
                        ),
                    )
                }
            },
            _ => Err(DecodeError { kind: ErrorKind::AttributeNameNotUtf8, offset: pos }),
        }
    }

    /// Decodes one attribute at `pos` and cross-checks the bytes its body
    /// consumed against the declared length, failing with
    /// `AttributeLengthMismatch` when they differ.
    pub fn read_checked(input: &[u8], pool: &Vec<CpInfo>, pos: usize) -> (r: Result<
        (AttributeInfo, usize),
        DecodeError,
    >)
        requires
            pos <= input@.len(),
        ensures
            (match r {
                Ok((a, n)) => spec_parse_attribute_checked(input@, pool.deep_view(), pos as int)
                    == Ok::<(AttrInfoV, int), ErrorKind>((view_attr_info(a), n as int)) && pos < n
                    <= input@.len(),
                Err(e) => spec_parse_attribute_checked(input@, pool.deep_view(), pos as int)
                    == Err::<(AttrInfoV, int), ErrorKind>(e.kind) && e.offset <= input@.len(),
            }),
    {
        let (_, p1) = match read_u16(input, pos) {
            Ok(x) => x,
            Err(e) => {
                return Err(e);
            },
        };
        let (length, p2) = match read_u32(input, p1) {
            Ok(x) => x,
            Err(e) => {
                return Err(e);
            },
        };
        let (a, n) = match Self::read(input, pool, pos) {
            Ok(x) => x,
            Err(e) => {
                return Err(e);
            },
        };
        if n - p2 == length as usize {
            Ok((a, n))
        } else {
            Err(DecodeError { kind: ErrorKind::AttributeLengthMismatch, offset: pos })
        }
    }
}

/// Decodes `count` consecutive attributes starting at `pos`.
pub fn read_attribute_list(input: &[u8], pool: &Vec<CpInfo>, pos: usize, count: u16) -> (r: Result<
    (Vec<AttributeInfo>, usize),
    DecodeError,
>)
    requires
        pos <= input@.len(),
    ensures
        (match r {
            Ok((v, n)) => spec_parse_attr_list(input@, pool.deep_view(), pos as int, count as int)
                == Ok::<(Seq<AttrInfoV>, int), ErrorKind>((view_attr_infos(v@), n as int)) && pos
                <= n <= input@.len() && v@.len() == count,
            Err(e) => spec_parse_attr_list(input@, pool.deep_view(), pos as int, count as int)
                == Err::<(Seq<AttrInfoV>, int), ErrorKind>(e.kind) && e.offset <= input@.len(),
        }),
    decreases input@.len() - pos, 1int,
{
    let mut out: Vec<AttributeInfo> = Vec::new();
    let mut cur: usize = pos;
    let mut i: usize = 0;
    while i < count as usize
        invariant
            i <= count as usize,
            pos <= cur <= input@.len(),
            out@.len() == i,
            spec_parse_attr_list(input@, pool.deep_view(), pos as int, count as int) == (
            match spec_parse_attr_list(input@, pool.deep_view(), cur as int, count - i) {
                Ok((rest, p)) => Ok::<(Seq<AttrInfoV>, int), ErrorKind>(
                    (view_attr_infos(out@) + rest, p),
                ),
                Err(k) => Err::<(Seq<AttrInfoV>, int), ErrorKind>(k),
            }),
        decreases count as int - i,
    {
        let ghost old_views = view_attr_infos(out@);
        match AttributeInfo::read(input, pool, cur) {
            Ok((a, n)) => {
                out.push(a);
                proof {
                    assert(view_attr_infos(out@) =~= old_views.push(view_attr_info(a)));
                    match spec_parse_attr_list(input@, pool.deep_view(), n as int, count - i - 1) {
                        Ok((rest, p)) => {
                            assert(old_views.push(view_attr_info(a)) + rest =~= old_views + (seq![
                                view_attr_info(a),
                            ] + rest));
                        },
                        Err(_) => {},
                    }
                }
                cur = n;
                i = i + 1;
            },
            Err(e) => {
                proof {
                    assert(spec_parse_attr_list(input@, pool.deep_view(), cur as int, count - i)
                        == Err::<(Seq<AttrInfoV>, int), ErrorKind>(e.kind));
                }
                return Err(e);
            },
        }
    }
    proof {
        assert(view_attr_infos(out@) + Seq::<AttrInfoV>::empty() =~= view_attr_infos(out@));
    }
    Ok((out, cur))
}

} // verus!

//! Decoder for the ordered, tag-dispatched constant table.
//!
//! The table is 1-indexed: slot 0 is a reserved placeholder that valid
//! input never references. Entries are decoded one tag byte at a time; a
//! Long or Double entry consumes two consecutive slots, and the second
//! slot holds an unused placeholder. Cross-references between entries are
//! stored raw and resolved lazily by consumers.

use vstd::prelude::*;

use crate::bytes::{read_u16, read_u32, read_u8, spec_read_u16, spec_read_u32, spec_read_u8};
use crate::error::{obeys_model, DecodeError, ErrorKind};
use crate::text::{decode_text, decode_text_from};

verus! {

/// One entry of the constant table. Numeric entries keep the raw bit
/// pattern of the encoded value; index fields are stored unresolved.
#[derive(Clone, Debug, PartialEq, Eq)]
pub enum CpInfo {
    Class { name_index: u16 },
    FieldRef { class_index: u16, name_and_type_index: u16 },
    MethodRef { class_index: u16, name_and_type_index: u16 },
    InterfaceMethodRef { class_index: u16, name_and_type_index: u16 },
    String { string_index: u16 },
    Integer { bytes: u32 },
    Float { bytes: u32 },
    Long { high_bytes: u32, low_bytes: u32 },
    Double { high_bytes: u32, low_bytes: u32 },
    NameAndType { name_index: u16, descriptor_index: u16 },
    Utf8 { value: Vec<char> },
    MethodHandle { reference_kind: u8, reference_index: u16 },
    MethodType { descriptor_index: u16 },
    InvokeDynamic { bootstrap_method_attr_index: u16, name_and_type_index: u16 },
    /// The reserved entry at slot 0, and the unused slot after a Long or
    /// Double entry.
    Placeholder,
}

/// The mathematical model of a constant-table entry: as `CpInfo`, with
/// decoded text as a character sequence.
#[verifier::ext_equal]
pub enum CpEntryV {
    Class { name_index: u16 },
    FieldRef { class_index: u16, name_and_type_index: u16 },
    MethodRef { class_index: u16, name_and_type_index: u16 },
    InterfaceMethodRef { class_index: u16, name_and_type_index: u16 },
    String { string_index: u16 },
    Integer { bytes: u32 },
    Float { bytes: u32 },
    Long { high_bytes: u32, low_bytes: u32 },
    Double { high_bytes: u32, low_bytes: u32 },
    NameAndType { name_index: u16, descriptor_index: u16 },
    Utf8 { value: Seq<char> },
    MethodHandle { reference_kind: u8, reference_index: u16 },
    MethodType { descriptor_index: u16 },
    InvokeDynamic { bootstrap_method_attr_index: u16, name_and_type_index: u16 },
    Placeholder,
}

impl DeepView for CpInfo {
    type V = CpEntryV;

    open spec fn deep_view(&self) -> CpEntryV {
        match self {
            CpInfo::Class { name_index } => CpEntryV::Class { name_index: *name_index },
            CpInfo::FieldRef { class_index, name_and_type_index } => CpEntryV::FieldRef {
                class_index: *class_index,
                name_and_type_index: *name_and_type_index,
            },
            CpInfo::MethodRef { class_index, name_and_type_index } => CpEntryV::MethodRef {
                class_index: *class_index,
                name_and_type_index: *name_and_type_index,
            },
            CpInfo::InterfaceMethodRef {
                class_index,
                name_and_type_index,
            } => CpEntryV::InterfaceMethodRef {
                class_index: *class_index,
                name_and_type_index: *name_and_type_index,
            },
            CpInfo::String { string_index } => CpEntryV::String { string_index: *string_index },
            CpInfo::Integer { bytes } => CpEntryV::Integer { bytes: *bytes },
            CpInfo::Float { bytes } => CpEntryV::Float { bytes: *bytes },
            CpInfo::Long { high_bytes, low_bytes } => CpEntryV::Long {
                high_bytes: *high_bytes,
                low_bytes: *low_bytes,
            },
            CpInfo::Double { high_bytes, low_bytes } => CpEntryV::Double {
                high_bytes: *high_bytes,
                low_bytes: *low_bytes,
            },
            CpInfo::NameAndType { name_index, descriptor_index } => CpEntryV::NameAndType {
                name_index: *name_index,
                descriptor_index: *descriptor_index,
            },
            CpInfo::Utf8 { value } => CpEntryV::Utf8 { value: value@ },
            CpInfo::MethodHandle { reference_kind, reference_index } => CpEntryV::MethodHandle {
                reference_kind: *reference_kind,
                reference_index: *reference_index,
            },
            CpInfo::MethodType { descriptor_index } => CpEntryV::MethodType {
                descriptor_index: *descriptor_index,
            },
            CpInfo::InvokeDynamic {
                bootstrap_method_attr_index,
                name_and_type_index,
            } => CpEntryV::InvokeDynamic {
                bootstrap_method_attr_index: *bootstrap_method_attr_index,
                name_and_type_index: *name_and_type_index,
            },
            CpInfo::Placeholder => CpEntryV::Placeholder,
        }
    }
}

/// A Long or Double entry: it consumes two consecutive table slots.
pub open spec fn is_wide_entry(e: CpEntryV) -> bool {
    e is Long || e is Double
}

/// Model of the decode of one constant-table entry at `pos`: the tag byte
/// selects a fixed layout, an unknown tag fails.
#[verifier::opaque]
pub open spec fn spec_parse_cp_entry(s: Seq<u8>, pos: int) -> Result<(CpEntryV, int), ErrorKind> {
    match spec_read_u8(s, pos) {
        Err(k) => Err(k),
        Ok((tag, p1)) => match tag {
            7 => match spec_read_u16(s, p1) {
                Err(k) => Err(k),
                Ok((name_index, p2)) => Ok((CpEntryV::Class { name_index }, p2)),
            },
            9 => match spec_read_u16(s, p1) {
                Err(k) => Err(k),
                Ok((class_index, p2)) => match spec_read_u16(s, p2) {
                    Err(k) => Err(k),
                    Ok((name_and_type_index, p3)) => Ok(
                        (CpEntryV::FieldRef { class_index, name_and_type_index }, p3),
                    ),
                },
            },
            10 => match spec_read_u16(s, p1) {
                Err(k) => Err(k),
                Ok((class_index, p2)) => match spec_read_u16(s, p2) {
                    Err(k) => Err(k),
                    Ok((name_and_type_index, p3)) => Ok(
                        (CpEntryV::MethodRef { class_index, name_and_type_index }, p3),
                    ),
                },
            },
            11 => match spec_read_u16(s, p1) {
                Err(k) => Err(k),
                Ok((class_index, p2)) => match spec_read_u16(s, p2) {
                    Err(k) => Err(k),
                    Ok((name_and_type_index, p3)) => Ok(
                        (CpEntryV::InterfaceMethodRef { class_index, name_and_type_index }, p3),
                    ),
                },
            },
            8 => match spec_read_u16(s, p1) {
                Err(k) => Err(k),
                Ok((string_index, p2)) => Ok((CpEntryV::String { string_index }, p2)),
            },
            3 => match spec_read_u32(s, p1) {
                Err(k) => Err(k),
                Ok((bytes, p2)) => Ok((CpEntryV::Integer { bytes }, p2)),
            },
            4 => match spec_read_u32(s, p1) {
                Err(k) => Err(k),
                Ok((bytes, p2)) => Ok((CpEntryV::Float { bytes }, p2)),
            },
            5 => match spec_read_u32(s, p1) {
                Err(k) => Err(k),
                Ok((high_bytes, p2)) => match spec_read_u32(s, p2) {
                    Err(k) => Err(k),
                    Ok((low_bytes, p3)) => Ok((CpEntryV::Long { high_bytes, low_bytes }, p3)),
                },
            },
            6 => match spec_read_u32(s, p1) {
                Err(k) => Err(k),
                Ok((high_bytes, p2)) => match spec_read_u32(s, p2) {
                    Err(k) => Err(k),
                    Ok((low_bytes, p3)) => Ok((CpEntryV::Double { high_bytes, low_bytes }, p3)),
                },
            },
            12 => match spec_read_u16(s, p1) {
                Err(k) => Err(k),
                Ok((name_index, p2)) => match spec_read_u16(s, p2) {
                    Err(k) => Err(k),
                    Ok((descriptor_index, p3)) => Ok(
                        (CpEntryV::NameAndType { name_index, descriptor_index }, p3),
                    ),
                },
            },
            1 => match spec_read_u16(s, p1) {
                Err(k) => Err(k),
                Ok((len, p2)) => if p2 + len <= s.len() {
                    match decode_text_from(s.subrange(p2, p2 + len), 0) {
                        Ok(value) => Ok((CpEntryV::Utf8 { value }, p2 + len)),
                        Err(k) => Err(k),
                    }
                } else {
                    Err(ErrorKind::UnexpectedEnd)
                },
            },
            15 => match spec_read_u8(s, p1) {
                Err(k) => Err(k),
                Ok((reference_kind, p2)) => match spec_read_u16(s, p2) {
                    Err(k) => Err(k),
                    Ok((reference_index, p3)) => Ok(
                        (CpEntryV::MethodHandle { reference_kind, reference_index }, p3),
                    ),
                },
            },
            16 => match spec_read_u16(s, p1) {
                Err(k) => Err(k),
                Ok((descriptor_index, p2)) => Ok((CpEntryV::MethodType { descriptor_index }, p2)),
            },
            18 => match spec_read_u16(s, p1) {
                Err(k) => Err(k),
                Ok((bootstrap_method_attr_index, p2)) => match spec_read_u16(s, p2) {
                    Err(k) => Err(k),
                    Ok((name_and_type_index, p3)) => Ok(
                        (
                            CpEntryV::InvokeDynamic {
                                bootstrap_method_attr_index,
                                name_and_type_index,
                            },
                            p3,
                        ),
                    ),
                },
            },
            _ => Err(ErrorKind::UnknownConstantTag),
        },
    }
}

/// Model of the decode of `slots` consecutive table slots starting at
/// `pos`: the decoded entries (a placeholder standing in the slot after
/// each Long or Double entry), and the position after them. A Long or
/// Double entry in the very last slot leaves no room for its placeholder
/// and fails with `IndexOutOfRange`.
pub open spec fn spec_parse_cp_list(s: Seq<u8>, pos: int, slots: int) -> Result<
    (Seq<CpEntryV>, int),
    ErrorKind,
>
    decreases slots,
{
    if slots <= 0 {
        Ok((Seq::empty(), pos))
    } else {
        match spec_parse_cp_entry(s, pos) {
            Err(k) => Err(k),
            Ok((e, p2)) => if is_wide_entry(e) {
                if slots == 1 {
                    Err(ErrorKind::IndexOutOfRange)
                } else {
                    match spec_parse_cp_list(s, p2, slots - 2) {
                        Err(k) => Err(k),
                        Ok((rest, p3)) => Ok((seq![e, CpEntryV::Placeholder] + rest, p3)),
                    }
                }
            } else {
                match spec_parse_cp_list(s, p2, slots - 1) {
                    Err(k) => Err(k),
                    Ok((rest, p3)) => Ok((seq![e] + rest, p3)),
                }
            },
        }
    }
}

/// Model of the decode of a whole constant table declared with count
/// `count`: slot 0 is the reserved placeholder and `count - 1` further
/// slots are filled. A count of zero leaves no room even for slot 0 and
/// fails with `IndexOutOfRange`.
pub open spec fn spec_parse_cp_table(s: Seq<u8>, pos: int, count: int) -> Result<
    (Seq<CpEntryV>, int),
    ErrorKind,
> {
    if count < 1 {
        Err(ErrorKind::IndexOutOfRange)
    } else {
        match spec_parse_cp_list(s, pos, count - 1) {
            Err(k) => Err(k),
            Ok((entries, p)) => Ok((seq![CpEntryV::Placeholder] + entries, p)),
        }
    }
}

impl CpInfo {
    /// Decodes one constant-table entry at `pos`.
    #[verifier::rlimit(60)]
    pub fn read(input: &[u8], pos: usize) -> (r: Result<(CpInfo, usize), DecodeError>)
        ensures
            obeys_model(r, spec_parse_cp_entry(input@, pos as int)),
            r matches Ok((_, n)) ==> pos < n <= input@.len(),
    {
        proof {
            reveal(spec_parse_cp_entry);
        }
        let (tag, p1) = match read_u8(input, pos) {
            Ok(x) => x,
            Err(e) => {
                return Err(e);
            },
        };
        match tag {
            7 => {
                let (name_index, p2) = match read_u16(input, p1) {
                    Ok(x) => x,
                    Err(e) => {
                        return Err(e);
                    },
                };
                Ok((CpInfo::Class { name_index }, p2))
            },
            9 => {
                let (class_index, p2) = match read_u16(input, p1) {
                    Ok(x) => x,
                    Err(e) => {
                        return Err(e);
                    },
                };
                let (name_and_type_index, p3) = match read_u16(input, p2) {
                    Ok(x) => x,
                    Err(e) => {
                        return Err(e);
                    },
                };
                Ok((CpInfo::FieldRef { class_index, name_and_type_index }, p3))
            },
            10 => {
                let (class_index, p2) = match read_u16(input, p1) {
                    Ok(x) => x,
                    Err(e) => {
                        return Err(e);
                    },
                };
                let (name_and_type_index, p3) = match read_u16(input, p2) {
                    Ok(x) => x,
                    Err(e) => {
                        return Err(e);
                    },
                };
                Ok((CpInfo::MethodRef { class_index, name_and_type_index }, p3))
            },
            11 => {
                let (class_index, p2) = match read_u16(input, p1) {
                    Ok(x) => x,
                    Err(e) => {
                        return Err(e);
                    },
                };
                let (name_and_type_index, p3) = match read_u16(input, p2) {
                    Ok(x) => x,
                    Err(e) => {
                        return Err(e);
                    },
                };
                Ok((CpInfo::InterfaceMethodRef { class_index, name_and_type_index }, p3))
            },
            8 => {
                let (string_index, p2) = match read_u16(input, p1) {
                    Ok(x) => x,
                    Err(e) => {
                        return Err(e);
                    },
                };
                Ok((CpInfo::String { string_index }, p2))
            },
            3 => {
                let (bytes, p2) = match read_u32(input, p1) {
                    Ok(x) => x,
                    Err(e) => {
                        return Err(e);
                    },
                };
                Ok((CpInfo::Integer { bytes }, p2))
            },
            4 => {
                let (bytes, p2) = match read_u32(input, p1) {
                    Ok(x) => x,
                    Err(e) => {
                        return Err(e);
                    },
                };
                Ok((CpInfo::Float { bytes }, p2))
            },
            5 => {
                let (high_bytes, p2) = match read_u32(input, p1) {
                    Ok(x) => x,
                    Err(e) => {
                        return Err(e);
                    },
                };
                let (low_bytes, p3) = match read_u32(input, p2) {
                    Ok(x) => x,
                    Err(e) => {
                        return Err(e);
                    },
                };
                Ok((CpInfo::Long { high_bytes, low_bytes }, p3))
            },
            6 => {
                let (high_bytes, p2) = match read_u32(input, p1) {
                    Ok(x) => x,
                    Err(e) => {
                        return Err(e);
                    },
                };
                let (low_bytes, p3) = match read_u32(input, p2) {
                    Ok(x) => x,
                    Err(e) => {
                        return Err(e);
                    },
                };
                Ok((CpInfo::Double { high_bytes, low_bytes }, p3))
            },
            12 => {
                let (name_index, p2) = match read_u16(input, p1) {
                    Ok(x) => x,
                    Err(e) => {
                        return Err(e);
                    },
                };
                let (descriptor_index, p3) = match read_u16(input, p2) {
                    Ok(x) => x,
                    Err(e) => {
                        return Err(e);
                    },
                };
                Ok((CpInfo::NameAndType { name_index, descriptor_index }, p3))
            },
            1 => {
                let (len, p2) = match read_u16(input, p1) {
                    Ok(x) => x,
                    Err(e) => {
                        return Err(e);
                    },
                };
                if input.len() - p2 >= len as usize {
                    let end: usize = p2 + len as usize;
                    match decode_text(&input[p2..end]) {
                        Ok(value) => Ok((CpInfo::Utf8 { value }, end)),
                        Err(e) => Err(
                            DecodeError { kind: e.kind, offset: p2 + e.offset },
                        ),
                    }
                } else {
                    Err(DecodeError { kind: ErrorKind::UnexpectedEnd, offset: p2 })
                }
            },
            15 => {
                let (reference_kind, p2) = match read_u8(input, p1) {
                    Ok(x) => x,
                    Err(e) => {
                        return Err(e);
                    },
                };
                let (reference_index, p3) = match read_u16(input, p2) {
                    Ok(x) => x,
                    Err(e) => {
                        return Err(e);
                    },
                };
                Ok((CpInfo::MethodHandle { reference_kind, reference_index }, p3))
            },
            16 => {
                let (descriptor_index, p2) = match read_u16(input, p1) {
                    Ok(x) => x,
                    Err(e) => {
                        return Err(e);
                    },
                };
                Ok((CpInfo::MethodType { descriptor_index }, p2))
            },
            18 => {
                let (bootstrap_method_attr_index, p2) = match read_u16(input, p1) {
                    Ok(x) => x,
                    Err(e) => {
                        return Err(e);
                    },
                };
                let (name_and_type_index, p3) = match read_u16(input, p2) {
                    Ok(x) => x,
                    Err(e) => {
                        return Err(e);
                    },
                };
                Ok((CpInfo::InvokeDynamic { bootstrap_method_attr_index, name_and_type_index }, p3))
            },
            _ => Err(DecodeError { kind: ErrorKind::UnknownConstantTag, offset: pos }),
        }
    }
}

/// Decodes the whole constant table declared with count `count`.
///
/// The returned table has exactly `count` entries: the reserved
/// placeholder at slot 0, and a placeholder in the slot after each Long
/// or Double entry.
#[verifier::rlimit(60)]
pub fn read_constant_pool(input: &[u8], pos: usize, count: u16) -> (r: Result<
    (Vec<CpInfo>, usize),
    DecodeError,
>)
    requires
        pos <= input@.len(),
    ensures
        obeys_model(r, spec_parse_cp_table(input@, pos as int, count as int)),
        r matches Ok((t, n)) ==> pos <= n <= input@.len() && t@.len() == count,
{
    if count < 1 {
        return Err(DecodeError { kind: ErrorKind::IndexOutOfRange, offset: pos });
    }
    let slots: usize = (count - 1) as usize;
    let mut entries: Vec<CpInfo> = Vec::new();
    let mut filled: usize = 0;
    let mut cur: usize = pos;
    while filled < slots
        invariant
            1 <= count,
            slots == count as int - 1,
            filled <= slots,
            pos <= cur <= input@.len(),
            entries@.len() == filled,
            spec_parse_cp_list(input@, pos as int, slots as int) == (match spec_parse_cp_list(
                input@,
                cur as int,
                slots - filled,
            ) {
                Ok((rest, p)) => Ok::<(Seq<CpEntryV>, int), ErrorKind>(
                    (entries.deep_view() + rest, p),
                ),
                Err(k) => Err::<(Seq<CpEntryV>, int), ErrorKind>(k),
            }),
        decreases slots - filled,
    {
        let entry_start = cur;
        let (e, p2) = match CpInfo::read(input, cur) {
            Ok(x) => x,
            Err(err) => {
                proof {
                    assert(spec_parse_cp_list(input@, cur as int, slots - filled) == Err::<
                        (Seq<CpEntryV>, int),
                        ErrorKind,
                    >(err.kind));
                }
                return Err(err);
            },
        };
        let wide = match e {
            CpInfo::Long { .. } => true,
            CpInfo::Double { .. } => true,
            _ => false,
        };
        let ghost old_dv = entries.deep_view();
        if wide {
            if filled + 1 == slots {
                proof {
                    assert(spec_parse_cp_list(input@, cur as int, slots - filled) == Err::<
                        (Seq<CpEntryV>, int),
                        ErrorKind,
                    >(ErrorKind::IndexOutOfRange));
                }
                return Err(DecodeError { kind: ErrorKind::IndexOutOfRange, offset: entry_start });
            }
            entries.push(e);
            entries.push(CpInfo::Placeholder);
            proof {
                assert(entries.deep_view() =~= old_dv + seq![
                    e.deep_view(),
                    CpEntryV::Placeholder,
                ]);
                match spec_parse_cp_list(input@, p2 as int, slots - filled - 2) {
                    Ok((rest, p)) => {
                        assert(old_dv + (seq![e.deep_view(), CpEntryV::Placeholder] + rest) =~= (
                        old_dv + seq![e.deep_view(), CpEntryV::Placeholder]) + rest);
                    },
                    Err(_) => {},
                }
            }
            filled = filled + 2;
            cur = p2;
        } else {
            entries.push(e);
            proof {
                assert(entries.deep_view() =~= old_dv + seq![e.deep_view()]);
                match spec_parse_cp_list(input@, p2 as int, slots - filled - 1) {
                    Ok((rest, p)) => {
                        assert(old_dv + (seq![e.deep_view()] + rest) =~= (old_dv + seq![
                            e.deep_view(),
                        ]) + rest);
                    },
                    Err(_) => {},
                }
            }
            filled = filled + 1;
            cur = p2;
        }
    }
    let ghost entries_dv = entries.deep_view();
    let mut table: Vec<CpInfo> = Vec::new();
    table.push(CpInfo::Placeholder);
    table.append(&mut entries);
    proof {
        assert(entries_dv + Seq::<CpEntryV>::empty() =~= entries_dv);
        assert(table.deep_view() =~= seq![CpEntryV::Placeholder] + entries_dv);
    }
    Ok((table, cur))
}

/// After a Long or Double entry anywhere in a decoded slot list, the next
/// slot holds the reserved placeholder.
pub proof fn lemma_wide_entry_slot(s: Seq<u8>, pos: int, slots: int, i: int)
    requires
        spec_parse_cp_list(s, pos, slots) matches Ok((entries, _)),
        0 <= i < spec_parse_cp_list(s, pos, slots)->Ok_0.0.len(),
        is_wide_entry(spec_parse_cp_list(s, pos, slots)->Ok_0.0[i]),
    ensures
        i + 1 < spec_parse_cp_list(s, pos, slots)->Ok_0.0.len(),
        spec_parse_cp_list(s, pos, slots)->Ok_0.0[i + 1] is Placeholder,
    decreases slots,
{
    let entries = spec_parse_cp_list(s, pos, slots)->Ok_0.0;
    if slots <= 0 {
        // the list is empty, no such i
    } else {
        let (e, p2) = spec_parse_cp_entry(s, pos)->Ok_0;
        if is_wide_entry(e) {
            let (rest, _) = spec_parse_cp_list(s, p2, slots - 2)->Ok_0;
            if i >= 2 {
                lemma_wide_entry_slot(s, p2, slots - 2, i - 2);
            }
        } else {
            let (rest, _) = spec_parse_cp_list(s, p2, slots - 1)->Ok_0;
            if i >= 1 {
                lemma_wide_entry_slot(s, p2, slots - 1, i - 1);
            }
        }
    }
}

/// Law: in a decoded constant table, the entry that logically follows a
/// Long or Double entry at slot `i` is the reserved placeholder, so the
/// next real entry stands at slot `i + 2`.
pub proof fn lemma_wide_entry_followed_by_placeholder(s: Seq<u8>, pos: int, count: int, i: int)
    requires
        spec_parse_cp_table(s, pos, count) matches Ok((table, _)),
        0 <= i < spec_parse_cp_table(s, pos, count)->Ok_0.0.len(),
        is_wide_entry(spec_parse_cp_table(s, pos, count)->Ok_0.0[i]),
    ensures
        i + 1 < spec_parse_cp_table(s, pos, count)->Ok_0.0.len(),
        spec_parse_cp_table(s, pos, count)->Ok_0.0[i + 1] is Placeholder,
{
    lemma_wide_entry_slot(s, pos, count - 1, i - 1);
}

} // verus!

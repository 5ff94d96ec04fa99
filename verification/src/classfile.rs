//! Member decoders and the top-level assembler.
//!
//! A field or method record is an access-flag word, a name index, a
//! descriptor index and an attribute list; the two differ only in their
//! flag vocabulary. The assembler decodes the whole file in the mandated
//! order: magic, versions, constant table, type flags, this/super
//! indices, interfaces, fields, methods, attributes. No step starts
//! before the constant table exists, since every later step may resolve a
//! name through it.

use vstd::prelude::*;

use crate::attribute::{
    read_attribute_list, spec_parse_attr_list, view_attr_infos, AttrInfoV, AttributeInfo,
};
use crate::bytes::{be_u16_at, read_u16, read_u32, spec_read_u16, spec_read_u32};
use crate::constant::{read_constant_pool, spec_parse_cp_table, CpEntryV, CpInfo};
use crate::error::{DecodeError, ErrorKind};

verus! {

/// The leading four-byte constant every well-formed file starts with.
pub const MAGIC: u32 = 0xCAFE_BABE;

/// Type-access flag: publicly visible.
pub const CLASS_ACC_PUBLIC: u16 = 0x0001;

/// Type-access flag: no subtypes allowed.
pub const CLASS_ACC_FINAL: u16 = 0x0010;

/// Type-access flag: treat superclass methods specially on invocation.
pub const CLASS_ACC_SUPER: u16 = 0x0020;

/// Type-access flag: an interface, not a class.
pub const CLASS_ACC_INTERFACE: u16 = 0x0200;

/// Type-access flag: may not be instantiated.
pub const CLASS_ACC_ABSTRACT: u16 = 0x0400;

/// Type-access flag: not present in the source.
pub const CLASS_ACC_SYNTHETIC: u16 = 0x1000;

/// Type-access flag: an annotation type.
pub const CLASS_ACC_ANNOTATION: u16 = 0x2000;

/// Type-access flag: an enumerated type.
pub const CLASS_ACC_ENUM: u16 = 0x4000;

/// Field-access flag: publicly visible.
pub const FIELD_ACC_PUBLIC: u16 = 0x0001;

/// Field-access flag: visible only to the defining type.
pub const FIELD_ACC_PRIVATE: u16 = 0x0002;

/// Field-access flag: visible to subtypes.
pub const FIELD_ACC_PROTECTED: u16 = 0x0004;

/// Field-access flag: per-type, not per-instance.
pub const FIELD_ACC_STATIC: u16 = 0x0008;

/// Field-access flag: written only once.
pub const FIELD_ACC_FINAL: u16 = 0x0010;

/// Field-access flag: never cached by the executor.
pub const FIELD_ACC_VOLATILE: u16 = 0x0040;

/// Field-access flag: skipped by serialization.
pub const FIELD_ACC_TRANSIENT: u16 = 0x0080;

/// Field-access flag: not present in the source.
pub const FIELD_ACC_SYNTHETIC: u16 = 0x1000;

/// Field-access flag: a member of an enumerated type.
pub const FIELD_ACC_ENUM: u16 = 0x4000;

/// Method-access flag: publicly visible.
pub const METHOD_ACC_PUBLIC: u16 = 0x0001;

/// Method-access flag: visible only to the defining type.
pub const METHOD_ACC_PRIVATE: u16 = 0x0002;

/// Method-access flag: visible to subtypes.
pub const METHOD_ACC_PROTECTED: u16 = 0x0004;

/// Method-access flag: per-type, not per-instance.
pub const METHOD_ACC_STATIC: u16 = 0x0008;

/// Method-access flag: may not be overridden.
pub const METHOD_ACC_FINAL: u16 = 0x0010;

/// Method-access flag: wrapped in a monitor on invocation.
pub const METHOD_ACC_SYNCHRONIZED: u16 = 0x0020;

/// Method-access flag: a bridge method the compiler generated.
pub const METHOD_ACC_BRIDGE: u16 = 0x0040;

/// Method-access flag: takes a variable number of arguments.
pub const METHOD_ACC_VARARGS: u16 = 0x0080;

/// Method-access flag: implemented outside the instruction set.
pub const METHOD_ACC_NATIVE: u16 = 0x0100;

/// Method-access flag: no implementation is provided.
pub const METHOD_ACC_ABSTRACT: u16 = 0x0400;

/// Method-access flag: strict floating-point evaluation.
pub const METHOD_ACC_STRICT: u16 = 0x0800;

/// Method-access flag: not present in the source.
pub const METHOD_ACC_SYNTHETIC: u16 = 0x1000;

/// The access-flag word of the decoded type. A bit mask, not an
/// enumerated value: unknown bits are retained, never rejected.
#[derive(Clone, Copy, Debug, PartialEq, Eq, Structural)]
pub struct ClassAccessFlags {
    pub bits: u16,
}

/// The access-flag word of a field record.
#[derive(Clone, Copy, Debug, PartialEq, Eq, Structural)]
pub struct FieldAccessFlags {
    pub bits: u16,
}

/// The access-flag word of a method record.
#[derive(Clone, Copy, Debug, PartialEq, Eq, Structural)]
pub struct MethodAccessFlags {
    pub bits: u16,
}

impl DeepView for ClassAccessFlags {
    type V = ClassAccessFlags;

    open spec fn deep_view(&self) -> ClassAccessFlags {
        *self
    }
}

impl DeepView for FieldAccessFlags {
    type V = FieldAccessFlags;

    open spec fn deep_view(&self) -> FieldAccessFlags {
        *self
    }
}

impl DeepView for MethodAccessFlags {
    type V = MethodAccessFlags;

    open spec fn deep_view(&self) -> MethodAccessFlags {
        *self
    }
}

impl ClassAccessFlags {
    /// Reads the raw flag word, retaining unknown bits.
    pub fn read(input: &[u8], pos: usize) -> (r: Result<(ClassAccessFlags, usize), DecodeError>)
        ensures
            (match r {
                Ok((f, n)) => spec_read_u16(input@, pos as int) == Ok::<(u16, int), ErrorKind>(
                    (f.bits, n as int),
                ) && pos < n <= input@.len(),
                Err(e) => spec_read_u16(input@, pos as int) == Err::<(u16, int), ErrorKind>(e.kind)
                    && e.offset == pos,
            }),
    {
        match read_u16(input, pos) {
            Ok((bits, n)) => Ok((ClassAccessFlags { bits }, n)),
            Err(e) => Err(e),
        }
    }

    /// Whether every bit of `mask` is set.
    pub fn contains(&self, mask: u16) -> (r: bool)
        ensures
            r == (self.bits & mask == mask),
    {
        self.bits & mask == mask
    }
}

impl FieldAccessFlags {
    /// Reads the raw flag word, retaining unknown bits.
    pub fn read(input: &[u8], pos: usize) -> (r: Result<(FieldAccessFlags, usize), DecodeError>)
        ensures
            (match r {
                Ok((f, n)) => spec_read_u16(input@, pos as int) == Ok::<(u16, int), ErrorKind>(
                    (f.bits, n as int),
                ) && pos < n <= input@.len(),
                Err(e) => spec_read_u16(input@, pos as int) == Err::<(u16, int), ErrorKind>(e.kind)
                    && e.offset == pos,
            }),
    {
        match read_u16(input, pos) {
            Ok((bits, n)) => Ok((FieldAccessFlags { bits }, n)),
            Err(e) => Err(e),
        }
    }

    /// Whether every bit of `mask` is set.
    pub fn contains(&self, mask: u16) -> (r: bool)
        ensures
            r == (self.bits & mask == mask),
    {
        self.bits & mask == mask
    }
}

impl MethodAccessFlags {
    /// Reads the raw flag word, retaining unknown bits.
    pub fn read(input: &[u8], pos: usize) -> (r: Result<(MethodAccessFlags, usize), DecodeError>)
        ensures
            (match r {
                Ok((f, n)) => spec_read_u16(input@, pos as int) == Ok::<(u16, int), ErrorKind>(
                    (f.bits, n as int),
                ) && pos < n <= input@.len(),
                Err(e) => spec_read_u16(input@, pos as int) == Err::<(u16, int), ErrorKind>(e.kind)
                    && e.offset == pos,
            }),
    {
        match read_u16(input, pos) {
            Ok((bits, n)) => Ok((MethodAccessFlags { bits }, n)),
            Err(e) => Err(e),
        }
    }

    /// Whether every bit of `mask` is set.
    pub fn contains(&self, mask: u16) -> (r: bool)
        ensures
            r == (self.bits & mask == mask),
    {
        self.bits & mask == mask
    }
}

/// One decoded field record. Name and descriptor indices are stored raw.
#[derive(Debug, PartialEq, Eq)]
pub struct FieldInfo {
    pub access_flags: FieldAccessFlags,
    pub name_index: u16,
    pub descriptor_index: u16,
    pub attributes: Vec<AttributeInfo>,
}

/// One decoded method record. Name and descriptor indices are stored raw.
#[derive(Debug, PartialEq, Eq)]
pub struct MethodInfo {
    pub access_flags: MethodAccessFlags,
    pub name_index: u16,
    pub descriptor_index: u16,
    pub attributes: Vec<AttributeInfo>,
}

/// The mathematical model of a field record.
#[verifier::ext_equal]
pub struct FieldInfoV {
    pub access_flags: FieldAccessFlags,
    pub name_index: u16,
    pub descriptor_index: u16,
    pub attributes: Seq<AttrInfoV>,
}

/// The mathematical model of a method record.
#[verifier::ext_equal]
pub struct MethodInfoV {
    pub access_flags: MethodAccessFlags,
    pub name_index: u16,
    pub descriptor_index: u16,
    pub attributes: Seq<AttrInfoV>,
}

/// The model of a decoded field record.
pub open spec fn view_field_info(f: FieldInfo) -> FieldInfoV {
    FieldInfoV {
        access_flags: f.access_flags,
        name_index: f.name_index,
        descriptor_index: f.descriptor_index,
        attributes: view_attr_infos(f.attributes@),
    }
}

/// The model of a decoded method record.
pub open spec fn view_method_info(m: MethodInfo) -> MethodInfoV {
    MethodInfoV {
        access_flags: m.access_flags,
        name_index: m.name_index,
        descriptor_index: m.descriptor_index,
        attributes: view_attr_infos(m.attributes@),
    }
}

/// The models of a sequence of field records, in order.
pub open spec fn view_field_infos(s: Seq<FieldInfo>) -> Seq<FieldInfoV> {
    Seq::new(s.len(), |i: int| view_field_info(s[i]))
}

/// The models of a sequence of method records, in order.
pub open spec fn view_method_infos(s: Seq<MethodInfo>) -> Seq<MethodInfoV> {
    Seq::new(s.len(), |i: int| view_method_info(s[i]))
}

impl DeepView for FieldInfo {
    type V = FieldInfoV;

    open spec fn deep_view(&self) -> FieldInfoV {
        view_field_info(*self)
    }
}

impl DeepView for MethodInfo {
    type V = MethodInfoV;

    open spec fn deep_view(&self) -> MethodInfoV {
        view_method_info(*self)
    }
}

/// Model of the decode of one field record at `pos`.
pub open spec fn spec_parse_field(s: Seq<u8>, pool: Seq<CpEntryV>, pos: int) -> Result<
    (FieldInfoV, int),
    ErrorKind,
> {
    match spec_read_u16(s, pos) {
        Err(k) => Err(k),
        Ok((bits, p1)) => match spec_read_u16(s, p1) {
            Err(k) => Err(k),
            Ok((name_index, p2)) => match spec_read_u16(s, p2) {
                Err(k) => Err(k),
                Ok((descriptor_index, p3)) => match spec_read_u16(s, p3) {
                    Err(k) => Err(k),
                    Ok((count, p4)) => match spec_parse_attr_list(s, pool, p4, count as int) {
                        Err(k) => Err(k),
                        Ok((attributes, p5)) => Ok(
                            (
                                FieldInfoV {
                                    access_flags: FieldAccessFlags { bits },
                                    name_index,
                                    descriptor_index,
                                    attributes,
                                },
                                p5,
                            ),
                        ),
                    },
                },
            },
        },
    }
}

/// Model of the decode of one method record at `pos`.
pub open spec fn spec_parse_method(s: Seq<u8>, pool: Seq<CpEntryV>, pos: int) -> Result<
    (MethodInfoV, int),
    ErrorKind,
> {
    match spec_read_u16(s, pos) {
        Err(k) => Err(k),
        Ok((bits, p1)) => match spec_read_u16(s, p1) {
            Err(k) => Err(k),
            Ok((name_index, p2)) => match spec_read_u16(s, p2) {
                Err(k) => Err(k),
                Ok((descriptor_index, p3)) => match spec_read_u16(s, p3) {
                    Err(k) => Err(k),
                    Ok((count, p4)) => match spec_parse_attr_list(s, pool, p4, count as int) {
                        Err(k) => Err(k),
                        Ok((attributes, p5)) => Ok(
                            (
                                MethodInfoV {
                                    access_flags: MethodAccessFlags { bits },
                                    name_index,
                                    descriptor_index,
                                    attributes,
                                },
                                p5,
                            ),
                        ),
                    },
                },
            },
        },
    }
}

/// Model of the decode of `n` consecutive field records at `pos`.
pub open spec fn spec_parse_field_list(s: Seq<u8>, pool: Seq<CpEntryV>, pos: int, n: int) -> Result<
    (Seq<FieldInfoV>, int),
    ErrorKind,
>
    decreases n,
{
    if n <= 0 {
        Ok((Seq::empty(), pos))
    } else {
        match spec_parse_field(s, pool, pos) {
            Err(k) => Err(k),
            Ok((f, p2)) => match spec_parse_field_list(s, pool, p2, n - 1) {
                Err(k) => Err(k),
                Ok((rest, p3)) => Ok((seq![f] + rest, p3)),
            },
        }
    }
}

/// Model of the decode of `n` consecutive method records at `pos`.
pub open spec fn spec_parse_method_list(s: Seq<u8>, pool: Seq<CpEntryV>, pos: int, n: int) -> Result<
    (Seq<MethodInfoV>, int),
    ErrorKind,
>
    decreases n,
{
    if n <= 0 {
        Ok((Seq::empty(), pos))
    } else {
        match spec_parse_method(s, pool, pos) {
            Err(k) => Err(k),
            Ok((m, p2)) => match spec_parse_method_list(s, pool, p2, n - 1) {
                Err(k) => Err(k),
                Ok((rest, p3)) => Ok((seq![m] + rest, p3)),
            },
        }
    }
}

impl FieldInfo {
    /// Decodes one field record at `pos`: flag word, name index,
    /// descriptor index, and the trailing attribute list. No index is
    /// resolved here.
    pub fn read(input: &[u8], pool: &Vec<CpInfo>, pos: usize) -> (r: Result<
        (FieldInfo, usize),
        DecodeError,
    >)
        requires
            pos <= input@.len(),
        ensures
            (match r {
                Ok((f, n)) => spec_parse_field(input@, pool.deep_view(), pos as int) == Ok::<
                    (FieldInfoV, int),
                    ErrorKind,
                >((view_field_info(f), n as int)) && pos < n <= input@.len(),
                Err(e) => spec_parse_field(input@, pool.deep_view(), pos as int) == Err::<
                    (FieldInfoV, int),
                    ErrorKind,
                >(e.kind) && e.offset <= input@.len(),
            }),
    {
        let (access_flags, p1) = match FieldAccessFlags::read(input, pos) {
            Ok(x) => x,
            Err(e) => {
                return Err(e);
            },
        };
        let (name_index, p2) = match read_u16(input, p1) {
            Ok(x) => x,
            Err(e) => {
                return Err(e);
            },
        };
        let (descriptor_index, p3) = match read_u16(input, p2) {
            Ok(x) => x,
            Err(e) => {
                return Err(e);
            },
        };
        let (count, p4) = match read_u16(input, p3) {
            Ok(x) => x,
            Err(e) => {
                return Err(e);
            },
        };
        let (attributes, p5) = match read_attribute_list(input, pool, p4, count) {
            Ok(x) => x,
            Err(e) => {
                return Err(e);
            },
        };
        Ok((FieldInfo { access_flags, name_index, descriptor_index, attributes }, p5))
    }
}

impl MethodInfo {
    /// Decodes one method record at `pos`: flag word, name index,
    /// descriptor index, and the trailing attribute list. No index is
    /// resolved here.
    pub fn read(input: &[u8], pool: &Vec<CpInfo>, pos: usize) -> (r: Result<
        (MethodInfo, usize),
        DecodeError,
    >)
        requires
            pos <= input@.len(),
        ensures
            (match r {
                Ok((m, n)) => spec_parse_method(input@, pool.deep_view(), pos as int) == Ok::<
                    (MethodInfoV, int),
                    ErrorKind,
                >((view_method_info(m), n as int)) && pos < n <= input@.len(),
                Err(e) => spec_parse_method(input@, pool.deep_view(), pos as int) == Err::<
                    (MethodInfoV, int),
                    ErrorKind,
                >(e.kind) && e.offset <= input@.len(),
            }),
    {
        let (access_flags, p1) = match MethodAccessFlags::read(input, pos) {
            Ok(x) => x,
            Err(e) => {
                return Err(e);
            },
        };
        let (name_index, p2) = match read_u16(input, p1) {
            Ok(x) => x,
            Err(e) => {
                return Err(e);
            },
        };
        let (descriptor_index, p3) = match read_u16(input, p2) {
            Ok(x) => x,
            Err(e) => {
                return Err(e);
            },
        };
        let (count, p4) = match read_u16(input, p3) {
            Ok(x) => x,
            Err(e) => {
                return Err(e);
            },
        };
        let (attributes, p5) = match read_attribute_list(input, pool, p4, count) {
            Ok(x) => x,
            Err(e) => {
                return Err(e);
            },
        };
        Ok((MethodInfo { access_flags, name_index, descriptor_index, attributes }, p5))
    }
}

/// Decodes `count` consecutive field records starting at `pos`.
pub fn read_field_list(input: &[u8], pool: &Vec<CpInfo>, pos: usize, count: u16) -> (r: Result<
    (Vec<FieldInfo>, usize),
    DecodeError,
>)
    requires
        pos <= input@.len(),
    ensures
        (match r {
            Ok((v, n)) => spec_parse_field_list(input@, pool.deep_view(), pos as int, count as int)
                == Ok::<(Seq<FieldInfoV>, int), ErrorKind>((view_field_infos(v@), n as int)) && pos
                <= n <= input@.len() && v@.len() == count,
            Err(e) => spec_parse_field_list(input@, pool.deep_view(), pos as int, count as int)
                == Err::<(Seq<FieldInfoV>, int), ErrorKind>(e.kind) && e.offset <= input@.len(),
        }),
{
    let mut out: Vec<FieldInfo> = Vec::new();
    let mut cur: usize = pos;
    let mut i: usize = 0;
    while i < count as usize
        invariant
            i <= count as usize,
            pos <= cur <= input@.len(),
            out@.len() == i,
            spec_parse_field_list(input@, pool.deep_view(), pos as int, count as int) == (
            match spec_parse_field_list(input@, pool.deep_view(), cur as int, count - i) {
                Ok((rest, p)) => Ok::<(Seq<FieldInfoV>, int), ErrorKind>(
                    (view_field_infos(out@) + rest, p),
                ),
                Err(k) => Err::<(Seq<FieldInfoV>, int), ErrorKind>(k),
            }),
        decreases count as int - i,
    {
        let ghost old_views = view_field_infos(out@);
        match FieldInfo::read(input, pool, cur) {
            Ok((f, n)) => {
                out.push(f);
                proof {
                    assert(view_field_infos(out@) =~= old_views.push(view_field_info(f)));
                    match spec_parse_field_list(
                        input@,
                        pool.deep_view(),
                        n as int,
                        count - i - 1,
                    ) {
                        Ok((rest, p)) => {
                            assert(old_views.push(view_field_info(f)) + rest =~= old_views + (seq![
                                view_field_info(f),
                            ] + rest));
                        },
                        Err(_) => {},
                    }
                }
                cur = n;
                i = i + 1;
            },
            Err(e) => {
                proof {
                    assert(spec_parse_field_list(
                        input@,
                        pool.deep_view(),
                        cur as int,
                        count - i,
                    ) == Err::<(Seq<FieldInfoV>, int), ErrorKind>(e.kind));
                }
                return Err(e);
            },
        }
    }
    proof {
        assert(view_field_infos(out@) + Seq::<FieldInfoV>::empty() =~= view_field_infos(out@));
    }
    Ok((out, cur))
}

/// Decodes `count` consecutive method records starting at `pos`.
pub fn read_method_list(input: &[u8], pool: &Vec<CpInfo>, pos: usize, count: u16) -> (r: Result<
    (Vec<MethodInfo>, usize),
    DecodeError,
>)
    requires
        pos <= input@.len(),
    ensures
        (match r {
            Ok((v, n)) => spec_parse_method_list(input@, pool.deep_view(), pos as int, count as int)
                == Ok::<(Seq<MethodInfoV>, int), ErrorKind>((view_method_infos(v@), n as int))
                && pos <= n <= input@.len() && v@.len() == count,
            Err(e) => spec_parse_method_list(input@, pool.deep_view(), pos as int, count as int)
                == Err::<(Seq<MethodInfoV>, int), ErrorKind>(e.kind) && e.offset <= input@.len(),
        }),
{
    let mut out: Vec<MethodInfo> = Vec::new();
    let mut cur: usize = pos;
    let mut i: usize = 0;
    while i < count as usize
        invariant
            i <= count as usize,
            pos <= cur <= input@.len(),
            out@.len() == i,
            spec_parse_method_list(input@, pool.deep_view(), pos as int, count as int) == (
            match spec_parse_method_list(input@, pool.deep_view(), cur as int, count - i) {
                Ok((rest, p)) => Ok::<(Seq<MethodInfoV>, int), ErrorKind>(
                    (view_method_infos(out@) + rest, p),
                ),
                Err(k) => Err::<(Seq<MethodInfoV>, int), ErrorKind>(k),
            }),
        decreases count as int - i,
    {
        let ghost old_views = view_method_infos(out@);
        match MethodInfo::read(input, pool, cur) {
            Ok((m, n)) => {
                out.push(m);
                proof {
                    assert(view_method_infos(out@) =~= old_views.push(view_method_info(m)));
                    match spec_parse_method_list(
                        input@,
                        pool.deep_view(),
                        n as int,
                        count - i - 1,
                    ) {
                        Ok((rest, p)) => {
                            assert(old_views.push(view_method_info(m)) + rest =~= old_views + (
                            seq![view_method_info(m)] + rest));
                        },
                        Err(_) => {},
                    }
                }
                cur = n;
                i = i + 1;
            },
            Err(e) => {
                proof {
                    assert(spec_parse_method_list(
                        input@,
                        pool.deep_view(),
                        cur as int,
                        count - i,
                    ) == Err::<(Seq<MethodInfoV>, int), ErrorKind>(e.kind));
                }
                return Err(e);
            },
        }
    }
    proof {
        assert(view_method_infos(out@) + Seq::<MethodInfoV>::empty() =~= view_method_infos(out@));
    }
    Ok((out, cur))
}

/// The fully decoded file: one record tree, owned exclusively by its
/// holder, never mutated after construction. Index fields are stored
/// raw and validated lazily on resolution.
#[derive(Debug, PartialEq, Eq)]
pub struct ClassFile {
    pub magic: u32,
    pub minor_version: u16,
    pub major_version: u16,
    pub constant_pool_count: u16,
    pub constant_pool: Vec<CpInfo>,
    pub access_flags: ClassAccessFlags,
    pub this_class: u16,
    pub super_class: u16,
    pub interfaces: Vec<u16>,
    pub fields: Vec<FieldInfo>,
    pub methods: Vec<MethodInfo>,
    pub attributes: Vec<AttributeInfo>,
}

/// The mathematical model of a fully decoded file.
#[verifier::ext_equal]
pub struct ClassFileV {
    pub magic: u32,
    pub minor_version: u16,
    pub major_version: u16,
    pub constant_pool_count: u16,
    pub constant_pool: Seq<CpEntryV>,
    pub access_flags: ClassAccessFlags,
    pub this_class: u16,
    pub super_class: u16,
    pub interfaces: Seq<u16>,
    pub fields: Seq<FieldInfoV>,
    pub methods: Seq<MethodInfoV>,
    pub attributes: Seq<AttrInfoV>,
}

/// The model of a fully decoded file.
pub open spec fn view_class_file(cf: ClassFile) -> ClassFileV {
    ClassFileV {
        magic: cf.magic,
        minor_version: cf.minor_version,
        major_version: cf.major_version,
        constant_pool_count: cf.constant_pool_count,
        constant_pool: cf.constant_pool.deep_view(),
        access_flags: cf.access_flags,
        this_class: cf.this_class,
        super_class: cf.super_class,
        interfaces: cf.interfaces@,
        fields: view_field_infos(cf.fields@),
        methods: view_method_infos(cf.methods@),
        attributes: view_attr_infos(cf.attributes@),
    }
}

impl DeepView for ClassFile {
    type V = ClassFileV;

    open spec fn deep_view(&self) -> ClassFileV {
        view_class_file(*self)
    }
}

/// Model of the decode of a whole file from position 0: the fixed
/// sequence magic, versions, constant table, type flags, this/super
/// indices, interface list, field list, method list, attribute list. The
/// result carries the position after the last decoded byte; trailing
/// bytes are not themselves an error.
#[verifier::opaque]
pub open spec fn spec_parse_class_file(s: Seq<u8>) -> Result<(ClassFileV, int), ErrorKind> {
    match spec_read_u32(s, 0) {
        Err(k) => Err(k),
        Ok((magic, p1)) => if magic != MAGIC {
            Err(ErrorKind::BadMagic)
        } else {
            match spec_read_u16(s, p1) {
                Err(k) => Err(k),
                Ok((minor_version, p2)) => match spec_read_u16(s, p2) {
                    Err(k) => Err(k),
                    Ok((major_version, p3)) => match spec_read_u16(s, p3) {
                        Err(k) => Err(k),
                        Ok((constant_pool_count, p4)) => match spec_parse_cp_table(
                            s,
                            p4,
                            constant_pool_count as int,
                        ) {
                            Err(k) => Err(k),
                            Ok((constant_pool, p5)) => match spec_read_u16(s, p5) {
                                Err(k) => Err(k),
                                Ok((bits, p6)) => match spec_read_u16(s, p6) {
                                    Err(k) => Err(k),
                                    Ok((this_class, p7)) => match spec_read_u16(s, p7) {
                                        Err(k) => Err(k),
                                        Ok((super_class, p8)) => match spec_read_u16(s, p8) {
                                            Err(k) => Err(k),
                                            Ok((icount, p9)) => if p9 + 2 * icount <= s.len() {
                                                let interfaces = Seq::new(
                                                    icount as nat,
                                                    |i: int| be_u16_at(s, p9 + 2 * i),
                                                );
                                                let p10 = p9 + 2 * icount;
                                                match spec_read_u16(s, p10) {
                                                    Err(k) => Err(k),
                                                    Ok((fcount, p11)) => match spec_parse_field_list(
                                                        s,
                                                        constant_pool,
                                                        p11,
                                                        fcount as int,
                                                    ) {
                                                        Err(k) => Err(k),
                                                        Ok((fields, p12)) => match spec_read_u16(
                                                            s,
                                                            p12,
                                                        ) {
                                                            Err(k) => Err(k),
                                                            Ok(
                                                                (mcount, p13),
                                                            ) => match spec_parse_method_list(
                                                                s,
                                                                constant_pool,
                                                                p13,
                                                                mcount as int,
                                                            ) {
                                                                Err(k) => Err(k),
                                                                Ok(
                                                                    (methods, p14),
                                                                ) => match spec_read_u16(s, p14) {
                                                                    Err(k) => Err(k),
                                                                    Ok(
                                                                        (acount, p15),
                                                                    ) => match spec_parse_attr_list(
                                                                        s,
                                                                        constant_pool,
                                                                        p15,
                                                                        acount as int,
                                                                    ) {
                                                                        Err(k) => Err(k),
                                                                        Ok((attributes, p16)) => Ok(
                                                                            (
                                                                                ClassFileV {
                                                                                    magic,
                                                                                    minor_version,
                                                                                    major_version,
                                                                                    constant_pool_count,
                                                                                    constant_pool,
                                                                                    access_flags:
                                                                                        ClassAccessFlags {
                                                                                        bits,
                                                                                    },
                                                                                    this_class,
                                                                                    super_class,
                                                                                    interfaces,
                                                                                    fields,
                                                                                    methods,
                                                                                    attributes,
                                                                                },
                                                                                p16,
                                                                            ),
                                                                        ),
                                                                    },
                                                                },
                                                            },
                                                        },
                                                    },
                                                }
                                            } else {
                                                Err(ErrorKind::UnexpectedEnd)
                                            },
                                        },
                                    },
                                },
                            },
                        },
                    },
                },
            }
        },
    }
}

/// Model of the strict decode: as `spec_parse_class_file`, but any
/// trailing bytes after a structurally complete decode are
/// `TrailingData`.
pub open spec fn spec_parse_class_file_strict(s: Seq<u8>) -> Result<ClassFileV, ErrorKind> {
    match spec_parse_class_file(s) {
        Err(k) => Err(k),
        Ok((v, end)) => if end == s.len() {
            Ok(v)
        } else {
            Err(ErrorKind::TrailingData)
        },
    }
}

impl ClassFile {
    /// Decodes a whole file from the start of the buffer. On success the
    /// decoded record is exactly the model's decode of the buffer,
    /// together with the number of unconsumed trailing bytes as a
    /// diagnostic; on failure the model fails with the same kind.
    #[verifier::rlimit(100)]
    pub fn read(input: &[u8]) -> (r: Result<(ClassFile, usize), DecodeError>)
        ensures
            (match r {
                Ok((cf, trailing)) => spec_parse_class_file(input@) == Ok::<
                    (ClassFileV, int),
                    ErrorKind,
                >((cf.deep_view(), input@.len() - trailing as int)) && trailing <= input@.len(),
                Err(e) => spec_parse_class_file(input@) == Err::<(ClassFileV, int), ErrorKind>(
                    e.kind,
                ),
            }),
    {
        proof {
            reveal(spec_parse_class_file);
        }
        let (magic, p1) = match read_u32(input, 0) {
            Ok(x) => x,
            Err(e) => {
                return Err(e);
            },
        };
        if magic != MAGIC {
            return Err(DecodeError { kind: ErrorKind::BadMagic, offset: 0 });
        }
        let (minor_version, p2) = match read_u16(input, p1) {
            Ok(x) => x,
            Err(e) => {
                return Err(e);
            },
        };
        let (major_version, p3) = match read_u16(input, p2) {
            Ok(x) => x,
            Err(e) => {
                return Err(e);
            },
        };
        let (constant_pool_count, p4) = match read_u16(input, p3) {
            Ok(x) => x,
            Err(e) => {
                return Err(e);
            },
        };
        let (constant_pool, p5) = match read_constant_pool(input, p4, constant_pool_count) {
            Ok(x) => x,
            Err(e) => {
                return Err(e);
            },
        };
        let (access_flags, p6) = match ClassAccessFlags::read(input, p5) {
            Ok(x) => x,
            Err(e) => {
                return Err(e);
            },
        };
        let (this_class, p7) = match read_u16(input, p6) {
            Ok(x) => x,
            Err(e) => {
                return Err(e);
            },
        };
        let (super_class, p8) = match read_u16(input, p7) {
            Ok(x) => x,
            Err(e) => {
                return Err(e);
            },
        };
        let (icount, p9) = match read_u16(input, p8) {
            Ok(x) => x,
            Err(e) => {
                return Err(e);
            },
        };
        if input.len() - p9 < 2 * (icount as usize) {
            return Err(DecodeError { kind: ErrorKind::UnexpectedEnd, offset: p9 });
        }
        let mut interfaces: Vec<u16> = Vec::new();
        let mut j: usize = 0;
        while j < icount as usize
            invariant
                j <= icount as usize,
                input@.len() <= usize::MAX,
                p9 + 2 * (icount as int) <= input@.len(),
                interfaces@.len() == j,
                forall|k: int| 0 <= k < j ==> interfaces@[k] == be_u16_at(input@, p9 + 2 * k),
            decreases icount as int - j,
        {
            let (v, _) = match read_u16(input, p9 + 2 * j) {
                Ok(x) => x,
                Err(e) => {
                    return Err(e);
                },
            };
            interfaces.push(v);
            j = j + 1;
        }
        let p10: usize = p9 + 2 * (icount as usize);
        let (fcount, p11) = match read_u16(input, p10) {
            Ok(x) => x,
            Err(e) => {
                return Err(e);
            },
        };
        let (fields, p12) = match read_field_list(input, &constant_pool, p11, fcount) {
            Ok(x) => x,
            Err(e) => {
                return Err(e);
            },
        };
        let (mcount, p13) = match read_u16(input, p12) {
            Ok(x) => x,
            Err(e) => {
                return Err(e);
            },
        };
        let (methods, p14) = match read_method_list(input, &constant_pool, p13, mcount) {
            Ok(x) => x,
            Err(e) => {
                return Err(e);
            },
        };
        let (acount, p15) = match read_u16(input, p14) {
            Ok(x) => x,
            Err(e) => {
                return Err(e);
            },
        };
        let (attributes, p16) = match read_attribute_list(input, &constant_pool, p15, acount) {
            Ok(x) => x,
            Err(e) => {
                return Err(e);
            },
        };
        proof {
            assert(interfaces@ =~= Seq::new(icount as nat, |i: int| be_u16_at(input@, p9 + 2 * i)));
        }
        Ok(
            (
                ClassFile {
                    magic,
                    minor_version,
                    major_version,
                    constant_pool_count,
                    constant_pool,
                    access_flags,
                    this_class,
                    super_class,
                    interfaces,
                    fields,
                    methods,
                    attributes,
                },
                input.len() - p16,
            ),
        )
    }

    /// Decodes a whole file in strict mode: a structurally complete
    /// decode that leaves unconsumed bytes fails with `TrailingData`.
    pub fn read_strict(input: &[u8]) -> (r: Result<ClassFile, DecodeError>)
        ensures
            (match r {
                Ok(cf) => spec_parse_class_file_strict(input@) == Ok::<ClassFileV, ErrorKind>(
                    cf.deep_view(),
                ),
                Err(e) => spec_parse_class_file_strict(input@) == Err::<ClassFileV, ErrorKind>(
                    e.kind,
                ),
            }),
    {
        match Self::read(input) {
            Err(e) => Err(e),
            Ok((cf, trailing)) => if trailing == 0 {
                Ok(cf)
            } else {
                Err(
                    DecodeError {
                        kind: ErrorKind::TrailingData,
                        offset: input.len() - trailing,
                    },
                )
            },
        }
    }
}

/// Law: decoding is a deterministic pure function of the input bytes.
/// Any two decodes of the same buffer that both satisfy the decoder's
/// contract return structurally equal record trees and equal trailing
/// lengths.
pub proof fn lemma_decode_deterministic(s: Seq<u8>, t1: ClassFileV, e1: int, t2: ClassFileV, e2: int)
    requires
        spec_parse_class_file(s) == Ok::<(ClassFileV, int), ErrorKind>((t1, e1)),
        spec_parse_class_file(s) == Ok::<(ClassFileV, int), ErrorKind>((t2, e2)),
    ensures
        t1 == t2,
        e1 == e2,
{
}

} // verus!

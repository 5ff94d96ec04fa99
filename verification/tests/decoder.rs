use cgr::attribute::{Attribute, AttributeInfo, ExceptionTableEntry, LineNumberTableEntry};
use cgr::classfile::ClassFile;
use cgr::constant::{read_constant_pool, CpInfo};
use cgr::error::ErrorKind;
use cgr::instruction::{read_instructions, Instruction, LookupPair};
use cgr::text::decode_text;

fn push_u16(out: &mut Vec<u8>, v: u16) {
    out.extend_from_slice(&v.to_be_bytes());
}

fn push_u32(out: &mut Vec<u8>, v: u32) {
    out.extend_from_slice(&v.to_be_bytes());
}

/// The minimal hand-built file: magic, versions 0/52, a two-entry
/// constant table (placeholder plus one text entry "A"), no interfaces,
/// fields, methods or attributes.
fn minimal_file() -> Vec<u8> {
    let mut b = Vec::new();
    push_u32(&mut b, 0xCAFEBABE);
    push_u16(&mut b, 0); // minor
    push_u16(&mut b, 52); // major
    push_u16(&mut b, 2); // constant table count
    b.push(1); // Utf8 tag
    push_u16(&mut b, 1);
    b.push(b'A');
    push_u16(&mut b, 0x0021); // access flags
    push_u16(&mut b, 1); // this
    push_u16(&mut b, 0); // super
    push_u16(&mut b, 0); // interfaces
    push_u16(&mut b, 0); // fields
    push_u16(&mut b, 0); // methods
    push_u16(&mut b, 0); // attributes
    b
}

fn utf8_entry(name: &str) -> CpInfo {
    CpInfo::Utf8 { value: name.chars().collect() }
}

#[test]
fn minimal_file_round_trip() {
    let bytes = minimal_file();
    let (cf, trailing) = ClassFile::read(&bytes).unwrap();
    assert_eq!(trailing, 0);
    assert_eq!(cf.magic, 0xCAFEBABE);
    assert_eq!(cf.minor_version, 0);
    assert_eq!(cf.major_version, 52);
    assert_eq!(cf.constant_pool_count, 2);
    assert_eq!(cf.constant_pool.len(), 2);
    assert_eq!(cf.constant_pool[0], CpInfo::Placeholder);
    assert_eq!(cf.constant_pool[1], utf8_entry("A"));
    assert_eq!(cf.access_flags.bits, 0x0021);
    assert_eq!(cf.this_class, 1);
    assert_eq!(cf.super_class, 0);
    assert!(cf.interfaces.is_empty());
    assert!(cf.fields.is_empty());
    assert!(cf.methods.is_empty());
    assert!(cf.attributes.is_empty());
}

#[test]
fn decode_is_deterministic() {
    let bytes = minimal_file();
    let r1 = ClassFile::read(&bytes).unwrap();
    let r2 = ClassFile::read(&bytes).unwrap();
    assert_eq!(r1, r2);
}

#[test]
fn truncated_input_fails_with_unexpected_end() {
    let bytes = minimal_file();
    for cut in 0..bytes.len() {
        let err = ClassFile::read(&bytes[..cut]).unwrap_err();
        assert_eq!(err.kind, ErrorKind::UnexpectedEnd, "cut at {cut}");
    }
}

#[test]
fn bad_magic_is_rejected() {
    let mut bytes = minimal_file();
    bytes[0] = 0xCB;
    let err = ClassFile::read(&bytes).unwrap_err();
    assert_eq!(err.kind, ErrorKind::BadMagic);
}

#[test]
fn trailing_data_is_reported() {
    let mut bytes = minimal_file();
    bytes.push(0xEE);
    let (_, trailing) = ClassFile::read(&bytes).unwrap();
    assert_eq!(trailing, 1);
    let err = ClassFile::read_strict(&bytes).unwrap_err();
    assert_eq!(err.kind, ErrorKind::TrailingData);
    let strict = ClassFile::read_strict(&minimal_file()).unwrap();
    assert_eq!(strict.constant_pool.len(), 2);
}

#[test]
fn high_range_lead_byte_is_invalid_text() {
    for b in 0xf8..=0xffu8 {
        let err = decode_text(&[b]).unwrap_err();
        assert_eq!(err.kind, ErrorKind::InvalidText);
        let err = decode_text(&[b'A', b, b'B']).unwrap_err();
        assert_eq!(err.kind, ErrorKind::InvalidText);
    }
}

#[test]
fn text_decoder_accepts_the_four_shapes() {
    assert_eq!(decode_text(b"Az").unwrap(), vec!['A', 'z']);
    // two-byte encoding of the zero scalar, the modified form of NUL
    assert_eq!(decode_text(&[0xC0, 0x80]).unwrap(), vec!['\u{0}']);
    // two-byte: U+00E9
    assert_eq!(decode_text(&[0xC3, 0xA9]).unwrap(), vec!['\u{E9}']);
    // three-byte: U+20AC
    assert_eq!(decode_text(&[0xE2, 0x82, 0xAC]).unwrap(), vec!['\u{20AC}']);
    // six-byte surrogate pair: U+10400
    assert_eq!(
        decode_text(&[0xED, 0xA0, 0x81, 0xED, 0xB0, 0x80]).unwrap(),
        vec!['\u{10400}']
    );
}

#[test]
fn text_decoder_rejects_malformed_shapes() {
    // a plain zero byte is excluded from the single-byte form
    assert_eq!(decode_text(&[0x00]).unwrap_err().kind, ErrorKind::InvalidText);
    // a continuation byte where a leading byte is expected
    assert_eq!(decode_text(&[0x80]).unwrap_err().kind, ErrorKind::InvalidText);
    // cut-off multi-byte runs
    assert_eq!(decode_text(&[0xC3]).unwrap_err().kind, ErrorKind::InvalidText);
    assert_eq!(decode_text(&[0xE2, 0x82]).unwrap_err().kind, ErrorKind::InvalidText);
    assert_eq!(decode_text(&[0xED, 0xA0, 0x81]).unwrap_err().kind, ErrorKind::InvalidText);
    // a three-byte encoding of a surrogate is not a scalar
    assert_eq!(decode_text(&[0xED, 0xB0, 0x80]).unwrap_err().kind, ErrorKind::InvalidText);
    // bad continuation byte
    assert_eq!(decode_text(&[0xC3, 0x29]).unwrap_err().kind, ErrorKind::InvalidText);
    // the four-byte standard form is not part of this encoding
    assert_eq!(
        decode_text(&[0xF0, 0x90, 0x90, 0x80]).unwrap_err().kind,
        ErrorKind::InvalidText
    );
}

#[test]
fn constant_entries_decode_per_tag() {
    assert_eq!(
        CpInfo::read(&[7, 0, 3], 0).unwrap(),
        (CpInfo::Class { name_index: 3 }, 3)
    );
    assert_eq!(
        CpInfo::read(&[9, 0, 1, 0, 2], 0).unwrap(),
        (CpInfo::FieldRef { class_index: 1, name_and_type_index: 2 }, 5)
    );
    assert_eq!(
        CpInfo::read(&[3, 0, 0, 0, 42], 0).unwrap(),
        (CpInfo::Integer { bytes: 42 }, 5)
    );
    assert_eq!(
        CpInfo::read(&[5, 0, 0, 0, 1, 0, 0, 0, 2], 0).unwrap(),
        (CpInfo::Long { high_bytes: 1, low_bytes: 2 }, 9)
    );
    assert_eq!(
        CpInfo::read(&[15, 6, 0, 9], 0).unwrap(),
        (CpInfo::MethodHandle { reference_kind: 6, reference_index: 9 }, 4)
    );
    assert_eq!(
        CpInfo::read(&[1, 0, 1, b'A'], 0).unwrap(),
        (utf8_entry("A"), 4)
    );
    assert_eq!(CpInfo::read(&[2, 0, 0], 0).unwrap_err().kind, ErrorKind::UnknownConstantTag);
    assert_eq!(CpInfo::read(&[7, 0], 0).unwrap_err().kind, ErrorKind::UnexpectedEnd);
}

#[test]
fn wide_constant_entry_takes_two_slots() {
    // count 4: a Long (slots 1 and 2) then a text entry at slot 3
    let mut b = Vec::new();
    b.push(5);
    push_u32(&mut b, 1);
    push_u32(&mut b, 2);
    b.push(1);
    push_u16(&mut b, 1);
    b.push(b'A');
    let (table, n) = read_constant_pool(&b, 0, 4).unwrap();
    assert_eq!(n, b.len());
    assert_eq!(table.len(), 4);
    assert_eq!(table[0], CpInfo::Placeholder);
    assert_eq!(table[1], CpInfo::Long { high_bytes: 1, low_bytes: 2 });
    assert_eq!(table[2], CpInfo::Placeholder);
    assert_eq!(table[3], utf8_entry("A"));
}

#[test]
fn wide_constant_entry_in_last_slot_is_rejected() {
    let mut b = Vec::new();
    b.push(5);
    push_u32(&mut b, 1);
    push_u32(&mut b, 2);
    let err = read_constant_pool(&b, 0, 2).unwrap_err();
    assert_eq!(err.kind, ErrorKind::IndexOutOfRange);
    let err = read_constant_pool(&b, 0, 0).unwrap_err();
    assert_eq!(err.kind, ErrorKind::IndexOutOfRange);
}

#[test]
fn zero_operand_instruction_consumes_one_byte() {
    assert_eq!(Instruction::read(&[0xB1], 0).unwrap(), (Instruction::Return, 1));
    let code = read_instructions(&[0xB1]).unwrap();
    assert_eq!(code, vec![Instruction::Return]);
}

#[test]
fn fixed_operand_instructions_decode() {
    assert_eq!(
        Instruction::read(&[16, 0xFF], 0).unwrap(),
        (Instruction::Bipush { value: -1 }, 2)
    );
    assert_eq!(
        Instruction::read(&[17, 0xFF, 0xFE], 0).unwrap(),
        (Instruction::Sipush { value: -2 }, 3)
    );
    assert_eq!(
        Instruction::read(&[18, 4], 0).unwrap(),
        (Instruction::Ldc { index: 4 }, 2)
    );
    assert_eq!(Instruction::read(&[42], 0).unwrap(), (Instruction::Aload0, 1));
    assert_eq!(Instruction::read(&[44], 0).unwrap(), (Instruction::Aload2, 1));
    assert_eq!(
        Instruction::read(&[183, 0, 7], 0).unwrap(),
        (Instruction::Invokespecial { index: 7 }, 3)
    );
    assert_eq!(
        Instruction::read(&[167, 0xFF, 0xFC], 0).unwrap(),
        (Instruction::Goto { offset: -4 }, 3)
    );
    assert_eq!(
        Instruction::read(&[132, 3, 0xFF], 0).unwrap(),
        (Instruction::Iinc { index: 3, value: -1 }, 3)
    );
    assert_eq!(
        Instruction::read(&[185, 0, 1, 2, 0], 0).unwrap(),
        (Instruction::Invokeinterface { index: 1, count: 2, reserved: 0 }, 5)
    );
    assert_eq!(
        Instruction::read(&[200, 0, 0, 0, 8], 0).unwrap(),
        (Instruction::Gotow { offset: 8 }, 5)
    );
    assert_eq!(
        Instruction::read(&[188, 10], 0).unwrap(),
        (Instruction::Newarray { atype: 10 }, 2)
    );
    assert_eq!(
        Instruction::read(&[197, 0, 2, 3], 0).unwrap(),
        (Instruction::Multianewarray { index: 2, dimensions: 3 }, 4)
    );
}

#[test]
fn wide_form_decodes_and_rejects_bad_targets() {
    assert_eq!(
        Instruction::read(&[196, 132, 0, 5, 0xFF, 0xF6], 0).unwrap(),
        (Instruction::WideIinc { index: 5, value: -10 }, 6)
    );
    assert_eq!(
        Instruction::read(&[196, 21, 1, 0], 0).unwrap(),
        (Instruction::Wide { opcode: 21, index: 256 }, 4)
    );
    assert_eq!(
        Instruction::read(&[196, 0, 0, 0], 0).unwrap_err().kind,
        ErrorKind::UnknownOpcode
    );
}

#[test]
fn aligned_jump_tables_decode() {
    let mut b = vec![170, 0, 0, 0];
    push_u32(&mut b, 10); // default
    push_u32(&mut b, 1); // low
    push_u32(&mut b, 2); // high
    push_u32(&mut b, 20);
    push_u32(&mut b, 30);
    assert_eq!(
        Instruction::read(&b, 0).unwrap(),
        (
            Instruction::Tableswitch { default_offset: 10, low: 1, high: 2, offsets: vec![20, 30] },
            24
        )
    );

    let mut b = vec![171, 0, 0, 0];
    push_u32(&mut b, 5); // default
    push_u32(&mut b, 1); // pair count
    push_u32(&mut b, 7);
    push_u32(&mut b, 9);
    assert_eq!(
        Instruction::read(&b, 0).unwrap(),
        (
            Instruction::Lookupswitch {
                default_offset: 5,
                pairs: vec![LookupPair { match_value: 7, offset: 9 }],
            },
            20
        )
    );

    // an inverted range is an ill-formed encoding
    let mut b = vec![170, 0, 0, 0];
    push_u32(&mut b, 10);
    push_u32(&mut b, 3);
    push_u32(&mut b, 2);
    assert_eq!(Instruction::read(&b, 0).unwrap_err().kind, ErrorKind::UnknownOpcode);
}

#[test]
fn unknown_opcode_is_a_hard_failure() {
    assert_eq!(Instruction::read(&[0xCB], 0).unwrap_err().kind, ErrorKind::UnknownOpcode);
    assert_eq!(read_instructions(&[0xB1, 0xCB]).unwrap_err().kind, ErrorKind::UnknownOpcode);
    assert_eq!(read_instructions(&[183, 0]).unwrap_err().kind, ErrorKind::UnexpectedEnd);
    assert_eq!(
        read_instructions(&[0xB1, 0x00]).unwrap(),
        vec![Instruction::Return, Instruction::Nop]
    );
}

#[test]
fn opaque_attribute_takes_exactly_the_declared_length() {
    let pool = vec![CpInfo::Placeholder, utf8_entry("Whatever")];
    let mut b = Vec::new();
    push_u16(&mut b, 1); // name index
    push_u32(&mut b, 3); // declared length
    b.extend_from_slice(&[9, 8, 7]);
    b.push(0xAA); // unrelated trailing byte
    let (a, n) = AttributeInfo::read(&b, &pool, 0).unwrap();
    assert_eq!(n, 9);
    assert_eq!(a.attribute_name_index, 1);
    assert_eq!(a.attribute, Attribute::Unknown { bytes: vec![9, 8, 7] });
    // the checked form accepts it: consumed equals declared
    let (_, n) = AttributeInfo::read_checked(&b, &pool, 0).unwrap();
    assert_eq!(n, 9);
}

#[test]
fn attribute_name_must_resolve_to_text() {
    let pool = vec![CpInfo::Placeholder, CpInfo::Integer { bytes: 5 }];
    let mut b = Vec::new();
    push_u16(&mut b, 1);
    push_u32(&mut b, 0);
    let err = AttributeInfo::read(&b, &pool, 0).unwrap_err();
    assert_eq!(err.kind, ErrorKind::AttributeNameNotUtf8);

    let mut b = Vec::new();
    push_u16(&mut b, 9); // out of range
    push_u32(&mut b, 0);
    let err = AttributeInfo::read(&b, &pool, 0).unwrap_err();
    assert_eq!(err.kind, ErrorKind::IndexOutOfRange);
}

#[test]
fn declared_length_mismatch_is_flagged_by_the_checked_form() {
    let pool = vec![CpInfo::Placeholder, utf8_entry("SourceFile")];
    let mut b = Vec::new();
    push_u16(&mut b, 1);
    push_u32(&mut b, 5); // the body really takes 2 bytes
    push_u16(&mut b, 1);
    b.extend_from_slice(&[0, 0, 0]);
    let (a, n) = AttributeInfo::read(&b, &pool, 0).unwrap();
    assert_eq!(a.attribute, Attribute::SourceFile { source_file_index: 1 });
    assert_eq!(n, 8);
    let err = AttributeInfo::read_checked(&b, &pool, 0).unwrap_err();
    assert_eq!(err.kind, ErrorKind::AttributeLengthMismatch);
}

#[test]
fn line_number_table_attribute_decodes() {
    let pool = vec![CpInfo::Placeholder, utf8_entry("LineNumberTable")];
    let mut b = Vec::new();
    push_u16(&mut b, 1);
    push_u32(&mut b, 6);
    push_u16(&mut b, 1); // one entry
    push_u16(&mut b, 0); // start_pc
    push_u16(&mut b, 13); // line
    let (a, n) = AttributeInfo::read_checked(&b, &pool, 0).unwrap();
    assert_eq!(n, b.len());
    assert_eq!(
        a.attribute,
        Attribute::LineNumberTable {
            line_number_table: vec![LineNumberTableEntry { start_pc: 0, line_number: 13 }],
        }
    );
}

#[test]
fn code_attribute_decodes_with_nested_parts() {
    let pool = vec![CpInfo::Placeholder, utf8_entry("Code"), utf8_entry("X")];
    let mut b = Vec::new();
    push_u16(&mut b, 1); // name: Code
    push_u32(&mut b, 0); // declared length, not cross-checked here
    push_u16(&mut b, 2); // max_stack
    push_u16(&mut b, 3); // max_locals
    push_u32(&mut b, 1); // code length
    b.push(0xB1);
    push_u16(&mut b, 1); // one exception handler
    push_u16(&mut b, 0);
    push_u16(&mut b, 1);
    push_u16(&mut b, 1);
    push_u16(&mut b, 0);
    push_u16(&mut b, 1); // one nested attribute
    push_u16(&mut b, 2); // name: X
    push_u32(&mut b, 1);
    b.push(0x42);
    let (a, n) = AttributeInfo::read(&b, &pool, 0).unwrap();
    assert_eq!(n, b.len());
    match a.attribute {
        Attribute::Code { max_stack, max_locals, code_length, code, exception_table, attributes } => {
            assert_eq!(max_stack, 2);
            assert_eq!(max_locals, 3);
            assert_eq!(code_length, 1);
            assert_eq!(code, vec![Instruction::Return]);
            assert_eq!(
                exception_table,
                vec![ExceptionTableEntry { start_pc: 0, end_pc: 1, handler_pc: 1, catch_type: 0 }]
            );
            assert_eq!(attributes.len(), 1);
            assert_eq!(attributes[0].attribute, Attribute::Unknown { bytes: vec![0x42] });
        },
        other => panic!("expected an instruction-bearing attribute, got {other:?}"),
    }
}

#[test]
fn method_with_code_attribute_decodes_in_a_whole_file() {
    let mut b = Vec::new();
    push_u32(&mut b, 0xCAFEBABE);
    push_u16(&mut b, 0);
    push_u16(&mut b, 52);
    push_u16(&mut b, 2); // constant table: one real entry
    b.push(1);
    push_u16(&mut b, 4);
    b.extend_from_slice(b"Code");
    push_u16(&mut b, 0x0001);
    push_u16(&mut b, 0);
    push_u16(&mut b, 0);
    push_u16(&mut b, 0); // interfaces
    push_u16(&mut b, 0); // fields
    push_u16(&mut b, 1); // one method
    push_u16(&mut b, 0x0009); // method flags
    push_u16(&mut b, 0); // name index
    push_u16(&mut b, 0); // descriptor index
    push_u16(&mut b, 1); // one attribute
    push_u16(&mut b, 1); // name: Code
    push_u32(&mut b, 13);
    push_u16(&mut b, 1); // max_stack
    push_u16(&mut b, 0); // max_locals
    push_u32(&mut b, 1); // code length
    b.push(0xB1);
    push_u16(&mut b, 0); // exception handlers
    push_u16(&mut b, 0); // nested attributes
    push_u16(&mut b, 0); // file attributes
    let (cf, trailing) = ClassFile::read(&b).unwrap();
    assert_eq!(trailing, 0);
    assert_eq!(cf.methods.len(), 1);
    let m = &cf.methods[0];
    assert_eq!(m.access_flags.bits, 0x0009);
    assert_eq!(m.attributes.len(), 1);
    match &m.attributes[0].attribute {
        Attribute::Code { code, .. } => assert_eq!(code, &vec![Instruction::Return]),
        other => panic!("expected an instruction-bearing attribute, got {other:?}"),
    }
    // removing the final byte truncates the file
    let err = ClassFile::read(&b[..b.len() - 1]).unwrap_err();
    assert_eq!(err.kind, ErrorKind::UnexpectedEnd);
}

#[test]
fn fields_and_interfaces_decode() {
    let mut b = Vec::new();
    push_u32(&mut b, 0xCAFEBABE);
    push_u16(&mut b, 0);
    push_u16(&mut b, 52);
    push_u16(&mut b, 1); // constant table: only the reserved slot
    push_u16(&mut b, 0);
    push_u16(&mut b, 0);
    push_u16(&mut b, 0);
    push_u16(&mut b, 2); // two interfaces
    push_u16(&mut b, 3);
    push_u16(&mut b, 4);
    push_u16(&mut b, 1); // one field
    push_u16(&mut b, 0x0012); // field flags: private final
    push_u16(&mut b, 7);
    push_u16(&mut b, 8);
    push_u16(&mut b, 0); // no field attributes
    push_u16(&mut b, 0); // methods
    push_u16(&mut b, 0); // attributes
    let (cf, trailing) = ClassFile::read(&b).unwrap();
    assert_eq!(trailing, 0);
    assert_eq!(cf.interfaces, vec![3, 4]);
    assert_eq!(cf.fields.len(), 1);
    assert_eq!(cf.fields[0].access_flags.bits, 0x0012);
    assert!(cf.fields[0].access_flags.contains(cgr::classfile::FIELD_ACC_PRIVATE));
    assert!(!cf.fields[0].access_flags.contains(cgr::classfile::FIELD_ACC_PUBLIC));
    assert_eq!(cf.fields[0].name_index, 7);
    assert_eq!(cf.fields[0].descriptor_index, 8);
}

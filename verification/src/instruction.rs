//! Decoder for the variable-length instruction stream stored inside a
//! Code attribute.
//!
//! Each instruction starts with a one-byte opcode followed by the operand
//! bytes that opcode's encoding defines: none, fixed-width values, a
//! two-byte prefix-widened form, or a four-byte-aligned jump table whose
//! size is read from the stream itself. An opcode outside the fixed table,
//! or an ill-formed variable-length encoding, is `UnknownOpcode`; an
//! instruction that would extend past the end of the range is
//! `UnexpectedEnd`.

use vstd::prelude::*;

use crate::bytes::{be_u16_at, be_u32_at, read_u16, read_u32, read_u8, spec_read_u8};
use crate::error::{obeys_model, DecodeError, ErrorKind};

verus! {

/// One match/offset pair of a `Lookupswitch` jump table.
#[derive(Clone, Copy, Debug, PartialEq, Eq, Structural)]
pub struct LookupPair {
    pub match_value: i32,
    pub offset: i32,
}

impl DeepView for LookupPair {
    type V = LookupPair;

    open spec fn deep_view(&self) -> LookupPair {
        *self
    }
}

/// One decoded instruction: a tagged variant per opcode, carrying exactly
/// the operand fields that opcode's encoding defines. Control-transfer
/// operands are raw byte offsets relative to the start of the instruction
/// stream, never resolved further.
#[derive(Clone, Debug, PartialEq, Eq)]
pub enum Instruction {
    Nop,
    Aconstnull,
    Iconstm1,
    Iconst0,
    Iconst1,
    Iconst2,
    Iconst3,
    Iconst4,
    Iconst5,
    Lconst0,
    Lconst1,
    Fconst0,
    Fconst1,
    Fconst2,
    Dconst0,
    Dconst1,
    Bipush { value: i8 },
    Sipush { value: i16 },
    Ldc { index: u8 },
    Ldcw { index: u16 },
    Ldc2w { index: u16 },
    Iload { index: u8 },
    Lload { index: u8 },
    Fload { index: u8 },
    Dload { index: u8 },
    Aload { index: u8 },
    Iload0,
    Iload1,
    Iload2,
    Iload3,
    Lload0,
    Lload1,
    Lload2,
    Lload3,
    Fload0,
    Fload1,
    Fload2,
    Fload3,
    Dload0,
    Dload1,
    Dload2,
    Dload3,
    Aload0,
    Aload1,
    Aload2,
    Aload3,
    Iaload,
    Laload,
    Faload,
    Daload,
    Aaload,
    Baload,
    Caload,
    Saload,
    Istore { index: u8 },
    Lstore { index: u8 },
    Fstore { index: u8 },
    Dstore { index: u8 },
    Astore { index: u8 },
    Istore0,
    Istore1,
    Istore2,
    Istore3,
    Lstore0,
    Lstore1,
    Lstore2,
    Lstore3,
    Fstore0,
    Fstore1,
    Fstore2,
    Fstore3,
    Dstore0,
    Dstore1,
    Dstore2,
    Dstore3,
    Astore0,
    Astore1,
    Astore2,
    Astore3,
    Iastore,
    Lastore,
    Fastore,
    Dastore,
    Aastore,
    Bastore,
    Castore,
    Sastore,
    Pop,
    Pop2,
    Dup,
    Dupx1,
    Dupx2,
    Dup2,
    Dup2x1,
    Dup2x2,
    Swap,
    Iadd,
    Ladd,
    Fadd,
    Dadd,
    Isub,
    Lsub,
    Fsub,
    Dsub,
    Imul,
    Lmul,
    Fmul,
    Dmul,
    Idiv,
    Ldiv,
    Fdiv,
    Ddiv,
    Irem,
    Lrem,
    Frem,
    Drem,
    Ineg,
    Lneg,
    Fneg,
    Dneg,
    Ishl,
    Lshl,
    Ishr,
    Lshr,
    Iushr,
    Lushr,
    Iand,
    Land,
    Ior,
    Lor,
    Ixor,
    Lxor,
    Iinc { index: u8, value: i8 },
    I2l,
    I2f,
    I2d,
    L2i,
    L2f,
    L2d,
    F2i,
    F2l,
    F2d,
    D2i,
    D2l,
    D2f,
    I2b,
    I2c,
    I2s,
    Lcmp,
    Fcmpl,
    Fcmpg,
    Dcmpl,
    Dcmpg,
    Ifeq { offset: i16 },
    Ifne { offset: i16 },
    Iflt { offset: i16 },
    Ifge { offset: i16 },
    Ifgt { offset: i16 },
    Ifle { offset: i16 },
    Ificmpeq { offset: i16 },
    Ificmpne { offset: i16 },
    Ificmplt { offset: i16 },
    Ificmpge { offset: i16 },
    Ificmpgt { offset: i16 },
    Ificmple { offset: i16 },
    Ifacmpeq { offset: i16 },
    Ifacmpne { offset: i16 },
    Goto { offset: i16 },
    Jsr { offset: i16 },
    Ret { index: u8 },
    Tableswitch { default_offset: i32, low: i32, high: i32, offsets: Vec<i32> },
    Lookupswitch { default_offset: i32, pairs: Vec<LookupPair> },
    Ireturn,
    Lreturn,
    Freturn,
    Dreturn,
    Areturn,
    Return,
    Getstatic { index: u16 },
    Putstatic { index: u16 },
    Getfield { index: u16 },
    Putfield { index: u16 },
    Invokevirtual { index: u16 },
    Invokespecial { index: u16 },
    Invokestatic { index: u16 },
    Invokeinterface { index: u16, count: u8, reserved: u8 },
    Invokedynamic { index: u16, reserved1: u8, reserved2: u8 },
    New { index: u16 },
    Newarray { atype: u8 },
    Anewarray { index: u16 },
    Arraylength,
    Athrow,
    Checkcast { index: u16 },
    Instanceof { index: u16 },
    Monitorenter,
    Monitorexit,
    Wide { opcode: u8, index: u16 },
    WideIinc { index: u16, value: i16 },
    Multianewarray { index: u16, dimensions: u8 },
    Ifnull { offset: i16 },
    Ifnonnull { offset: i16 },
    Gotow { offset: i32 },
    Jsrw { offset: i32 },
}

/// The mathematical model of an instruction: as `Instruction`, with jump
/// tables as sequences.
#[verifier::ext_equal]
pub enum InsV {
    Nop,
    Aconstnull,
    Iconstm1,
    Iconst0,
    Iconst1,
    Iconst2,
    Iconst3,
    Iconst4,
    Iconst5,
    Lconst0,
    Lconst1,
    Fconst0,
    Fconst1,
    Fconst2,
    Dconst0,
    Dconst1,
    Bipush { value: i8 },
    Sipush { value: i16 },
    Ldc { index: u8 },
    Ldcw { index: u16 },
    Ldc2w { index: u16 },
    Iload { index: u8 },
    Lload { index: u8 },
    Fload { index: u8 },
    Dload { index: u8 },
    Aload { index: u8 },
    Iload0,
    Iload1,
    Iload2,
    Iload3,
    Lload0,
    Lload1,
    Lload2,
    Lload3,
    Fload0,
    Fload1,
    Fload2,
    Fload3,
    Dload0,
    Dload1,
    Dload2,
    Dload3,
    Aload0,
    Aload1,
    Aload2,
    Aload3,
    Iaload,
    Laload,
    Faload,
    Daload,
    Aaload,
    Baload,
    Caload,
    Saload,
    Istore { index: u8 },
    Lstore { index: u8 },
    Fstore { index: u8 },
    Dstore { index: u8 },
    Astore { index: u8 },
    Istore0,
    Istore1,
    Istore2,
    Istore3,
    Lstore0,
    Lstore1,
    Lstore2,
    Lstore3,
    Fstore0,
    Fstore1,
    Fstore2,
    Fstore3,
    Dstore0,
    Dstore1,
    Dstore2,
    Dstore3,
    Astore0,
    Astore1,
    Astore2,
    Astore3,
    Iastore,
    Lastore,
    Fastore,
    Dastore,
    Aastore,
    Bastore,
    Castore,
    Sastore,
    Pop,
    Pop2,
    Dup,
    Dupx1,
    Dupx2,
    Dup2,
    Dup2x1,
    Dup2x2,
    Swap,
    Iadd,
    Ladd,
    Fadd,
    Dadd,
    Isub,
    Lsub,
    Fsub,
    Dsub,
    Imul,
    Lmul,
    Fmul,
    Dmul,
    Idiv,
    Ldiv,
    Fdiv,
    Ddiv,
    Irem,
    Lrem,
    Frem,
    Drem,
    Ineg,
    Lneg,
    Fneg,
    Dneg,
    Ishl,
    Lshl,
    Ishr,
    Lshr,
    Iushr,
    Lushr,
    Iand,
    Land,
    Ior,
    Lor,
    Ixor,
    Lxor,
    Iinc { index: u8, value: i8 },
    I2l,
    I2f,
    I2d,
    L2i,
    L2f,
    L2d,
    F2i,
    F2l,
    F2d,
    D2i,
    D2l,
    D2f,
    I2b,
    I2c,
    I2s,
    Lcmp,
    Fcmpl,
    Fcmpg,
    Dcmpl,
    Dcmpg,
    Ifeq { offset: i16 },
    Ifne { offset: i16 },
    Iflt { offset: i16 },
    Ifge { offset: i16 },
    Ifgt { offset: i16 },
    Ifle { offset: i16 },
    Ificmpeq { offset: i16 },
    Ificmpne { offset: i16 },
    Ificmplt { offset: i16 },
    Ificmpge { offset: i16 },
    Ificmpgt { offset: i16 },
    Ificmple { offset: i16 },
    Ifacmpeq { offset: i16 },
    Ifacmpne { offset: i16 },
    Goto { offset: i16 },
    Jsr { offset: i16 },
    Ret { index: u8 },
    Tableswitch { default_offset: i32, low: i32, high: i32, offsets: Seq<i32> },
    Lookupswitch { default_offset: i32, pairs: Seq<LookupPair> },
    Ireturn,
    Lreturn,
    Freturn,
    Dreturn,
    Areturn,
    Return,
    Getstatic { index: u16 },
    Putstatic { index: u16 },
    Getfield { index: u16 },
    Putfield { index: u16 },
    Invokevirtual { index: u16 },
    Invokespecial { index: u16 },
    Invokestatic { index: u16 },
    Invokeinterface { index: u16, count: u8, reserved: u8 },
    Invokedynamic { index: u16, reserved1: u8, reserved2: u8 },
    New { index: u16 },
    Newarray { atype: u8 },
    Anewarray { index: u16 },
    Arraylength,
    Athrow,
    Checkcast { index: u16 },
    Instanceof { index: u16 },
    Monitorenter,
    Monitorexit,
    Wide { opcode: u8, index: u16 },
    WideIinc { index: u16, value: i16 },
    Multianewarray { index: u16, dimensions: u8 },
    Ifnull { offset: i16 },
    Ifnonnull { offset: i16 },
    Gotow { offset: i32 },
    Jsrw { offset: i32 },
}

impl DeepView for Instruction {
    type V = InsV;

    open spec fn deep_view(&self) -> InsV {
        match self {
            Instruction::Nop => InsV::Nop,
            Instruction::Aconstnull => InsV::Aconstnull,
            Instruction::Iconstm1 => InsV::Iconstm1,
            Instruction::Iconst0 => InsV::Iconst0,
            Instruction::Iconst1 => InsV::Iconst1,
            Instruction::Iconst2 => InsV::Iconst2,
            Instruction::Iconst3 => InsV::Iconst3,
            Instruction::Iconst4 => InsV::Iconst4,
            Instruction::Iconst5 => InsV::Iconst5,
            Instruction::Lconst0 => InsV::Lconst0,
            Instruction::Lconst1 => InsV::Lconst1,
            Instruction::Fconst0 => InsV::Fconst0,
            Instruction::Fconst1 => InsV::Fconst1,
            Instruction::Fconst2 => InsV::Fconst2,
            Instruction::Dconst0 => InsV::Dconst0,
            Instruction::Dconst1 => InsV::Dconst1,
            Instruction::Bipush { value } => InsV::Bipush { value: *value },
            Instruction::Sipush { value } => InsV::Sipush { value: *value },
            Instruction::Ldc { index } => InsV::Ldc { index: *index },
            Instruction::Ldcw { index } => InsV::Ldcw { index: *index },
            Instruction::Ldc2w { index } => InsV::Ldc2w { index: *index },
            Instruction::Iload { index } => InsV::Iload { index: *index },
            Instruction::Lload { index } => InsV::Lload { index: *index },
            Instruction::Fload { index } => InsV::Fload { index: *index },
            Instruction::Dload { index } => InsV::Dload { index: *index },
            Instruction::Aload { index } => InsV::Aload { index: *index },
            Instruction::Iload0 => InsV::Iload0,
            Instruction::Iload1 => InsV::Iload1,
            Instruction::Iload2 => InsV::Iload2,
            Instruction::Iload3 => InsV::Iload3,
            Instruction::Lload0 => InsV::Lload0,
            Instruction::Lload1 => InsV::Lload1,
            Instruction::Lload2 => InsV::Lload2,
            Instruction::Lload3 => InsV::Lload3,
            Instruction::Fload0 => InsV::Fload0,
            Instruction::Fload1 => InsV::Fload1,
            Instruction::Fload2 => InsV::Fload2,
            Instruction::Fload3 => InsV::Fload3,
            Instruction::Dload0 => InsV::Dload0,
            Instruction::Dload1 => InsV::Dload1,
            Instruction::Dload2 => InsV::Dload2,
            Instruction::Dload3 => InsV::Dload3,
            Instruction::Aload0 => InsV::Aload0,
            Instruction::Aload1 => InsV::Aload1,
            Instruction::Aload2 => InsV::Aload2,
            Instruction::Aload3 => InsV::Aload3,
            Instruction::Iaload => InsV::Iaload,
            Instruction::Laload => InsV::Laload,
            Instruction::Faload => InsV::Faload,
            Instruction::Daload => InsV::Daload,
            Instruction::Aaload => InsV::Aaload,
            Instruction::Baload => InsV::Baload,
            Instruction::Caload => InsV::Caload,
            Instruction::Saload => InsV::Saload,
            Instruction::Istore { index } => InsV::Istore { index: *index },
            Instruction::Lstore { index } => InsV::Lstore { index: *index },
            Instruction::Fstore { index } => InsV::Fstore { index: *index },
            Instruction::Dstore { index } => InsV::Dstore { index: *index },
            Instruction::Astore { index } => InsV::Astore { index: *index },
            Instruction::Istore0 => InsV::Istore0,
            Instruction::Istore1 => InsV::Istore1,
            Instruction::Istore2 => InsV::Istore2,
            Instruction::Istore3 => InsV::Istore3,
            Instruction::Lstore0 => InsV::Lstore0,
            Instruction::Lstore1 => InsV::Lstore1,
            Instruction::Lstore2 => InsV::Lstore2,
            Instruction::Lstore3 => InsV::Lstore3,
            Instruction::Fstore0 => InsV::Fstore0,
            Instruction::Fstore1 => InsV::Fstore1,
            Instruction::Fstore2 => InsV::Fstore2,
            Instruction::Fstore3 => InsV::Fstore3,
            Instruction::Dstore0 => InsV::Dstore0,
            Instruction::Dstore1 => InsV::Dstore1,
            Instruction::Dstore2 => InsV::Dstore2,
            Instruction::Dstore3 => InsV::Dstore3,
            Instruction::Astore0 => InsV::Astore0,
            Instruction::Astore1 => InsV::Astore1,
            Instruction::Astore2 => InsV::Astore2,
            Instruction::Astore3 => InsV::Astore3,
            Instruction::Iastore => InsV::Iastore,
            Instruction::Lastore => InsV::Lastore,
            Instruction::Fastore => InsV::Fastore,
            Instruction::Dastore => InsV::Dastore,
            Instruction::Aastore => InsV::Aastore,
            Instruction::Bastore => InsV::Bastore,
            Instruction::Castore => InsV::Castore,
            Instruction::Sastore => InsV::Sastore,
            Instruction::Pop => InsV::Pop,
            Instruction::Pop2 => InsV::Pop2,
            Instruction::Dup => InsV::Dup,
            Instruction::Dupx1 => InsV::Dupx1,
            Instruction::Dupx2 => InsV::Dupx2,
            Instruction::Dup2 => InsV::Dup2,
            Instruction::Dup2x1 => InsV::Dup2x1,
            Instruction::Dup2x2 => InsV::Dup2x2,
            Instruction::Swap => InsV::Swap,
            Instruction::Iadd => InsV::Iadd,
            Instruction::Ladd => InsV::Ladd,
            Instruction::Fadd => InsV::Fadd,
            Instruction::Dadd => InsV::Dadd,
            Instruction::Isub => InsV::Isub,
            Instruction::Lsub => InsV::Lsub,
            Instruction::Fsub => InsV::Fsub,
            Instruction::Dsub => InsV::Dsub,
            Instruction::Imul => InsV::Imul,
            Instruction::Lmul => InsV::Lmul,
            Instruction::Fmul => InsV::Fmul,
            Instruction::Dmul => InsV::Dmul,
            Instruction::Idiv => InsV::Idiv,
            Instruction::Ldiv => InsV::Ldiv,
            Instruction::Fdiv => InsV::Fdiv,
            Instruction::Ddiv => InsV::Ddiv,
            Instruction::Irem => InsV::Irem,
            Instruction::Lrem => InsV::Lrem,
            Instruction::Frem => InsV::Frem,
            Instruction::Drem => InsV::Drem,
            Instruction::Ineg => InsV::Ineg,
            Instruction::Lneg => InsV::Lneg,
            Instruction::Fneg => InsV::Fneg,
            Instruction::Dneg => InsV::Dneg,
            Instruction::Ishl => InsV::Ishl,
            Instruction::Lshl => InsV::Lshl,
            Instruction::Ishr => InsV::Ishr,
            Instruction::Lshr => InsV::Lshr,
            Instruction::Iushr => InsV::Iushr,
            Instruction::Lushr => InsV::Lushr,
            Instruction::Iand => InsV::Iand,
            Instruction::Land => InsV::Land,
            Instruction::Ior => InsV::Ior,
            Instruction::Lor => InsV::Lor,
            Instruction::Ixor => InsV::Ixor,
            Instruction::Lxor => InsV::Lxor,
            Instruction::Iinc { index, value } => InsV::Iinc { index: *index, value: *value },
            Instruction::I2l => InsV::I2l,
            Instruction::I2f => InsV::I2f,
            Instruction::I2d => InsV::I2d,
            Instruction::L2i => InsV::L2i,
            Instruction::L2f => InsV::L2f,
            Instruction::L2d => InsV::L2d,
            Instruction::F2i => InsV::F2i,
            Instruction::F2l => InsV::F2l,
            Instruction::F2d => InsV::F2d,
            Instruction::D2i => InsV::D2i,
            Instruction::D2l => InsV::D2l,
            Instruction::D2f => InsV::D2f,
            Instruction::I2b => InsV::I2b,
            Instruction::I2c => InsV::I2c,
            Instruction::I2s => InsV::I2s,
            Instruction::Lcmp => InsV::Lcmp,
            Instruction::Fcmpl => InsV::Fcmpl,
            Instruction::Fcmpg => InsV::Fcmpg,
            Instruction::Dcmpl => InsV::Dcmpl,
            Instruction::Dcmpg => InsV::Dcmpg,
            Instruction::Ifeq { offset } => InsV::Ifeq { offset: *offset },
            Instruction::Ifne { offset } => InsV::Ifne { offset: *offset },
            Instruction::Iflt { offset } => InsV::Iflt { offset: *offset },
            Instruction::Ifge { offset } => InsV::Ifge { offset: *offset },
            Instruction::Ifgt { offset } => InsV::Ifgt { offset: *offset },
            Instruction::Ifle { offset } => InsV::Ifle { offset: *offset },
            Instruction::Ificmpeq { offset } => InsV::Ificmpeq { offset: *offset },
            Instruction::Ificmpne { offset } => InsV::Ificmpne { offset: *offset },
            Instruction::Ificmplt { offset } => InsV::Ificmplt { offset: *offset },
            Instruction::Ificmpge { offset } => InsV::Ificmpge { offset: *offset },
            Instruction::Ificmpgt { offset } => InsV::Ificmpgt { offset: *offset },
            Instruction::Ificmple { offset } => InsV::Ificmple { offset: *offset },
            Instruction::Ifacmpeq { offset } => InsV::Ifacmpeq { offset: *offset },
            Instruction::Ifacmpne { offset } => InsV::Ifacmpne { offset: *offset },
            Instruction::Goto { offset } => InsV::Goto { offset: *offset },
            Instruction::Jsr { offset } => InsV::Jsr { offset: *offset },
            Instruction::Ret { index } => InsV::Ret { index: *index },
            Instruction::Tableswitch { default_offset, low, high, offsets } => InsV::Tableswitch {
                default_offset: *default_offset,
                low: *low,
                high: *high,
                offsets: offsets@,
            },
            Instruction::Lookupswitch { default_offset, pairs } => InsV::Lookupswitch {
                default_offset: *default_offset,
                pairs: pairs@,
            },
            Instruction::Ireturn => InsV::Ireturn,
            Instruction::Lreturn => InsV::Lreturn,
            Instruction::Freturn => InsV::Freturn,
            Instruction::Dreturn => InsV::Dreturn,
            Instruction::Areturn => InsV::Areturn,
            Instruction::Return => InsV::Return,
            Instruction::Getstatic { index } => InsV::Getstatic { index: *index },
            Instruction::Putstatic { index } => InsV::Putstatic { index: *index },
            Instruction::Getfield { index } => InsV::Getfield { index: *index },
            Instruction::Putfield { index } => InsV::Putfield { index: *index },
            Instruction::Invokevirtual { index } => InsV::Invokevirtual { index: *index },
            Instruction::Invokespecial { index } => InsV::Invokespecial { index: *index },
            Instruction::Invokestatic { index } => InsV::Invokestatic { index: *index },
            Instruction::Invokeinterface { index, count, reserved } => InsV::Invokeinterface {
                index: *index,
                count: *count,
                reserved: *reserved,
            },
            Instruction::Invokedynamic { index, reserved1, reserved2 } => InsV::Invokedynamic {
                index: *index,
                reserved1: *reserved1,
                reserved2: *reserved2,
            },
            Instruction::New { index } => InsV::New { index: *index },
            Instruction::Newarray { atype } => InsV::Newarray { atype: *atype },
            Instruction::Anewarray { index } => InsV::Anewarray { index: *index },
            Instruction::Arraylength => InsV::Arraylength,
            Instruction::Athrow => InsV::Athrow,
            Instruction::Checkcast { index } => InsV::Checkcast { index: *index },
            Instruction::Instanceof { index } => InsV::Instanceof { index: *index },
            Instruction::Monitorenter => InsV::Monitorenter,
            Instruction::Monitorexit => InsV::Monitorexit,
            Instruction::Wide { opcode, index } => InsV::Wide { opcode: *opcode, index: *index },
            Instruction::WideIinc { index, value } => InsV::WideIinc {
                index: *index,
                value: *value,
            },
            Instruction::Multianewarray { index, dimensions } => InsV::Multianewarray {
                index: *index,
                dimensions: *dimensions,
            },
            Instruction::Ifnull { offset } => InsV::Ifnull { offset: *offset },
            Instruction::Ifnonnull { offset } => InsV::Ifnonnull { offset: *offset },
            Instruction::Gotow { offset } => InsV::Gotow { offset: *offset },
            Instruction::Jsrw { offset } => InsV::Jsrw { offset: *offset },
        }
    }
}

/// The instruction the opcode `op` decodes to when it takes no operand
/// bytes, or `None` when `op` is not such an opcode.
pub open spec fn nullary_op(op: u8) -> Option<InsV> {
    match op {
        0 => Some(InsV::Nop),
        1 => Some(InsV::Aconstnull),
        2 => Some(InsV::Iconstm1),
        3 => Some(InsV::Iconst0),
        4 => Some(InsV::Iconst1),
        5 => Some(InsV::Iconst2),
        6 => Some(InsV::Iconst3),
        7 => Some(InsV::Iconst4),
        8 => Some(InsV::Iconst5),
        9 => Some(InsV::Lconst0),
        10 => Some(InsV::Lconst1),
        11 => Some(InsV::Fconst0),
        12 => Some(InsV::Fconst1),
        13 => Some(InsV::Fconst2),
        14 => Some(InsV::Dconst0),
        15 => Some(InsV::Dconst1),
        26 => Some(InsV::Iload0),
        27 => Some(InsV::Iload1),
        28 => Some(InsV::Iload2),
        29 => Some(InsV::Iload3),
        30 => Some(InsV::Lload0),
        31 => Some(InsV::Lload1),
        32 => Some(InsV::Lload2),
        33 => Some(InsV::Lload3),
        34 => Some(InsV::Fload0),
        35 => Some(InsV::Fload1),
        36 => Some(InsV::Fload2),
        37 => Some(InsV::Fload3),
        38 => Some(InsV::Dload0),
        39 => Some(InsV::Dload1),
        40 => Some(InsV::Dload2),
        41 => Some(InsV::Dload3),
        42 => Some(InsV::Aload0),
        43 => Some(InsV::Aload1),
        44 => Some(InsV::Aload2),
        45 => Some(InsV::Aload3),
        46 => Some(InsV::Iaload),
        47 => Some(InsV::Laload),
        48 => Some(InsV::Faload),
        49 => Some(InsV::Daload),
        50 => Some(InsV::Aaload),
        51 => Some(InsV::Baload),
        52 => Some(InsV::Caload),
        53 => Some(InsV::Saload),
        59 => Some(InsV::Istore0),
        60 => Some(InsV::Istore1),
        61 => Some(InsV::Istore2),
        62 => Some(InsV::Istore3),
        63 => Some(InsV::Lstore0),
        64 => Some(InsV::Lstore1),
        65 => Some(InsV::Lstore2),
        66 => Some(InsV::Lstore3),
        67 => Some(InsV::Fstore0),
        68 => Some(InsV::Fstore1),
        69 => Some(InsV::Fstore2),
        70 => Some(InsV::Fstore3),
        71 => Some(InsV::Dstore0),
        72 => Some(InsV::Dstore1),
        73 => Some(InsV::Dstore2),
        74 => Some(InsV::Dstore3),
        75 => Some(InsV::Astore0),
        76 => Some(InsV::Astore1),
        77 => Some(InsV::Astore2),
        78 => Some(InsV::Astore3),
        79 => Some(InsV::Iastore),
        80 => Some(InsV::Lastore),
        81 => Some(InsV::Fastore),
        82 => Some(InsV::Dastore),
        83 => Some(InsV::Aastore),
        84 => Some(InsV::Bastore),
        85 => Some(InsV::Castore),
        86 => Some(InsV::Sastore),
        87 => Some(InsV::Pop),
        88 => Some(InsV::Pop2),
        89 => Some(InsV::Dup),
        90 => Some(InsV::Dupx1),
        91 => Some(InsV::Dupx2),
        92 => Some(InsV::Dup2),
        93 => Some(InsV::Dup2x1),
        94 => Some(InsV::Dup2x2),
        95 => Some(InsV::Swap),
        96 => Some(InsV::Iadd),
        97 => Some(InsV::Ladd),
        98 => Some(InsV::Fadd),
        99 => Some(InsV::Dadd),
        100 => Some(InsV::Isub),
        101 => Some(InsV::Lsub),
        102 => Some(InsV::Fsub),
        103 => Some(InsV::Dsub),
        104 => Some(InsV::Imul),
        105 => Some(InsV::Lmul),
        106 => Some(InsV::Fmul),
        107 => Some(InsV::Dmul),
        108 => Some(InsV::Idiv),
        109 => Some(InsV::Ldiv),
        110 => Some(InsV::Fdiv),
        111 => Some(InsV::Ddiv),
        112 => Some(InsV::Irem),
        113 => Some(InsV::Lrem),
        114 => Some(InsV::Frem),
        115 => Some(InsV::Drem),
        116 => Some(InsV::Ineg),
        117 => Some(InsV::Lneg),
        118 => Some(InsV::Fneg),
        119 => Some(InsV::Dneg),
        120 => Some(InsV::Ishl),
        121 => Some(InsV::Lshl),
        122 => Some(InsV::Ishr),
        123 => Some(InsV::Lshr),
        124 => Some(InsV::Iushr),
        125 => Some(InsV::Lushr),
        126 => Some(InsV::Iand),
        127 => Some(InsV::Land),
        128 => Some(InsV::Ior),
        129 => Some(InsV::Lor),
        130 => Some(InsV::Ixor),
        131 => Some(InsV::Lxor),
        133 => Some(InsV::I2l),
        134 => Some(InsV::I2f),
        135 => Some(InsV::I2d),
        136 => Some(InsV::L2i),
        137 => Some(InsV::L2f),
        138 => Some(InsV::L2d),
        139 => Some(InsV::F2i),
        140 => Some(InsV::F2l),
        141 => Some(InsV::F2d),
        142 => Some(InsV::D2i),
        143 => Some(InsV::D2l),
        144 => Some(InsV::D2f),
        145 => Some(InsV::I2b),
        146 => Some(InsV::I2c),
        147 => Some(InsV::I2s),
        148 => Some(InsV::Lcmp),
        149 => Some(InsV::Fcmpl),
        150 => Some(InsV::Fcmpg),
        151 => Some(InsV::Dcmpl),
        152 => Some(InsV::Dcmpg),
        172 => Some(InsV::Ireturn),
        173 => Some(InsV::Lreturn),
        174 => Some(InsV::Freturn),
        175 => Some(InsV::Dreturn),
        176 => Some(InsV::Areturn),
        177 => Some(InsV::Return),
        190 => Some(InsV::Arraylength),
        191 => Some(InsV::Athrow),
        194 => Some(InsV::Monitorenter),
        195 => Some(InsV::Monitorexit),
        _ => None,
    }
}

/// An opcode that takes exactly one operand byte.
pub open spec fn is_u8_op(op: u8) -> bool {
    op == 16 || op == 18 || (21 <= op <= 25) || (54 <= op <= 58) || op == 169 || op == 188
}

/// The instruction a one-operand-byte opcode decodes to.
pub open spec fn u8_op(op: u8, b: u8) -> InsV
    recommends
        is_u8_op(op),
{
    match op {
        16 => InsV::Bipush { value: b as i8 },
        18 => InsV::Ldc { index: b },
        21 => InsV::Iload { index: b },
        22 => InsV::Lload { index: b },
        23 => InsV::Fload { index: b },
        24 => InsV::Dload { index: b },
        25 => InsV::Aload { index: b },
        54 => InsV::Istore { index: b },
        55 => InsV::Lstore { index: b },
        56 => InsV::Fstore { index: b },
        57 => InsV::Dstore { index: b },
        58 => InsV::Astore { index: b },
        169 => InsV::Ret { index: b },
        188 => InsV::Newarray { atype: b },
        _ => InsV::Nop,
    }
}

/// An opcode that takes exactly one two-byte big-endian operand.
pub open spec fn is_u16_op(op: u8) -> bool {
    op == 17 || op == 19 || op == 20 || (153 <= op <= 168) || (178 <= op <= 184) || op == 187 || op
        == 189 || op == 192 || op == 193 || op == 198 || op == 199
}

/// The instruction a two-operand-byte opcode decodes to.
pub open spec fn u16_op(op: u8, v: u16) -> InsV
    recommends
        is_u16_op(op),
{
    match op {
        17 => InsV::Sipush { value: v as i16 },
        19 => InsV::Ldcw { index: v },
        20 => InsV::Ldc2w { index: v },
        153 => InsV::Ifeq { offset: v as i16 },
        154 => InsV::Ifne { offset: v as i16 },
        155 => InsV::Iflt { offset: v as i16 },
        156 => InsV::Ifge { offset: v as i16 },
        157 => InsV::Ifgt { offset: v as i16 },
        158 => InsV::Ifle { offset: v as i16 },
        159 => InsV::Ificmpeq { offset: v as i16 },
        160 => InsV::Ificmpne { offset: v as i16 },
        161 => InsV::Ificmplt { offset: v as i16 },
        162 => InsV::Ificmpge { offset: v as i16 },
        163 => InsV::Ificmpgt { offset: v as i16 },
        164 => InsV::Ificmple { offset: v as i16 },
        165 => InsV::Ifacmpeq { offset: v as i16 },
        166 => InsV::Ifacmpne { offset: v as i16 },
        167 => InsV::Goto { offset: v as i16 },
        168 => InsV::Jsr { offset: v as i16 },
        178 => InsV::Getstatic { index: v },
        179 => InsV::Putstatic { index: v },
        180 => InsV::Getfield { index: v },
        181 => InsV::Putfield { index: v },
        182 => InsV::Invokevirtual { index: v },
        183 => InsV::Invokespecial { index: v },
        184 => InsV::Invokestatic { index: v },
        187 => InsV::New { index: v },
        189 => InsV::Anewarray { index: v },
        192 => InsV::Checkcast { index: v },
        193 => InsV::Instanceof { index: v },
        198 => InsV::Ifnull { offset: v as i16 },
        199 => InsV::Ifnonnull { offset: v as i16 },
        _ => InsV::Nop,
    }
}

/// An opcode the prefix-widened form may widen: a one-byte-index load,
/// store or subroutine-return.
pub open spec fn is_wide_target(op: u8) -> bool {
    (21 <= op <= 25) || (54 <= op <= 58) || op == 169
}

/// Model of a four-byte-aligned range-indexed jump table whose opcode
/// stands at `pos`: up to three padding bytes align the table entries to a
/// multiple of four from the start of the stream, then default, low and
/// high bounds, then one offset per value in the range. A range whose low
/// bound exceeds its high bound is an ill-formed encoding.
pub open spec fn spec_parse_tableswitch(s: Seq<u8>, pos: int) -> Result<(InsV, int), ErrorKind> {
    let t = pos + 4 - (pos % 4);
    if t + 12 <= s.len() {
        let default_offset = be_u32_at(s, t) as i32;
        let low = be_u32_at(s, t + 4) as i32;
        let high = be_u32_at(s, t + 8) as i32;
        if low <= high {
            let n = high - low + 1;
            if t + 12 + 4 * n <= s.len() {
                Ok(
                    (
                        InsV::Tableswitch {
                            default_offset,
                            low,
                            high,
                            offsets: Seq::new(n as nat, |j: int| be_u32_at(s, t + 12 + 4 * j) as i32),
                        },
                        t + 12 + 4 * n,
                    ),
                )
            } else {
                Err(ErrorKind::UnexpectedEnd)
            }
        } else {
            Err(ErrorKind::UnknownOpcode)
        }
    } else {
        Err(ErrorKind::UnexpectedEnd)
    }
}

/// Model of a four-byte-aligned match-indexed jump table whose opcode
/// stands at `pos`: padding, then a default offset and a pair count, then
/// one match/offset pair per entry. A negative pair count is an ill-formed
/// encoding.
pub open spec fn spec_parse_lookupswitch(s: Seq<u8>, pos: int) -> Result<(InsV, int), ErrorKind> {
    let t = pos + 4 - (pos % 4);
    if t + 8 <= s.len() {
        let default_offset = be_u32_at(s, t) as i32;
        let npairs = be_u32_at(s, t + 4) as i32;
        if npairs >= 0 {
            let n = npairs as int;
            if t + 8 + 8 * n <= s.len() {
                Ok(
                    (
                        InsV::Lookupswitch {
                            default_offset,
                            pairs: Seq::new(
                                n as nat,
                                |j: int| LookupPair {
                                    match_value: be_u32_at(s, t + 8 + 8 * j) as i32,
                                    offset: be_u32_at(s, t + 8 + 8 * j + 4) as i32,
                                },
                            ),
                        },
                        t + 8 + 8 * n,
                    ),
                )
            } else {
                Err(ErrorKind::UnexpectedEnd)
            }
        } else {
            Err(ErrorKind::UnknownOpcode)
        }
    } else {
        Err(ErrorKind::UnexpectedEnd)
    }
}

/// Model of the prefix-widened form starting after the prefix byte at
/// `p1`: either the two-byte-index increment form, or a widened load,
/// store or subroutine-return. Any other target opcode is ill-formed.
pub open spec fn spec_parse_wide(s: Seq<u8>, p1: int) -> Result<(InsV, int), ErrorKind> {
    match spec_read_u8(s, p1) {
        Err(k) => Err(k),
        Ok((wop, p2)) => if wop == 132 {
            if p2 + 4 <= s.len() {
                Ok(
                    (
                        InsV::WideIinc {
                            index: be_u16_at(s, p2),
                            value: be_u16_at(s, p2 + 2) as i16,
                        },
                        p2 + 4,
                    ),
                )
            } else {
                Err(ErrorKind::UnexpectedEnd)
            }
        } else if is_wide_target(wop) {
            if p2 + 2 <= s.len() {
                Ok((InsV::Wide { opcode: wop, index: be_u16_at(s, p2) }, p2 + 2))
            } else {
                Err(ErrorKind::UnexpectedEnd)
            }
        } else {
            Err(ErrorKind::UnknownOpcode)
        },
    }
}

/// Model of the decode of one instruction whose opcode stands at `pos`.
#[verifier::opaque]
pub open spec fn spec_parse_instruction(s: Seq<u8>, pos: int) -> Result<(InsV, int), ErrorKind> {
    match spec_read_u8(s, pos) {
        Err(k) => Err(k),
        Ok((op, p1)) => if op == 170 {
            spec_parse_tableswitch(s, pos)
        } else if op == 171 {
            spec_parse_lookupswitch(s, pos)
        } else if op == 196 {
            spec_parse_wide(s, p1)
        } else if op == 132 {
            if p1 + 2 <= s.len() {
                Ok((InsV::Iinc { index: s[p1], value: s[p1 + 1] as i8 }, p1 + 2))
            } else {
                Err(ErrorKind::UnexpectedEnd)
            }
        } else if op == 185 {
            if p1 + 4 <= s.len() {
                Ok(
                    (
                        InsV::Invokeinterface {
                            index: be_u16_at(s, p1),
                            count: s[p1 + 2],
                            reserved: s[p1 + 3],
                        },
                        p1 + 4,
                    ),
                )
            } else {
                Err(ErrorKind::UnexpectedEnd)
            }
        } else if op == 186 {
            if p1 + 4 <= s.len() {
                Ok(
                    (
                        InsV::Invokedynamic {
                            index: be_u16_at(s, p1),
                            reserved1: s[p1 + 2],
                            reserved2: s[p1 + 3],
                        },
                        p1 + 4,
                    ),
                )
            } else {
                Err(ErrorKind::UnexpectedEnd)
            }
        } else if op == 197 {
            if p1 + 3 <= s.len() {
                Ok((InsV::Multianewarray { index: be_u16_at(s, p1), dimensions: s[p1 + 2] }, p1 + 3))
            } else {
                Err(ErrorKind::UnexpectedEnd)
            }
        } else if op == 200 {
            if p1 + 4 <= s.len() {
                Ok((InsV::Gotow { offset: be_u32_at(s, p1) as i32 }, p1 + 4))
            } else {
                Err(ErrorKind::UnexpectedEnd)
            }
        } else if op == 201 {
            if p1 + 4 <= s.len() {
                Ok((InsV::Jsrw { offset: be_u32_at(s, p1) as i32 }, p1 + 4))
            } else {
                Err(ErrorKind::UnexpectedEnd)
            }
        } else if is_u8_op(op) {
            if p1 + 1 <= s.len() {
                Ok((u8_op(op, s[p1]), p1 + 1))
            } else {
                Err(ErrorKind::UnexpectedEnd)
            }
        } else if is_u16_op(op) {
            if p1 + 2 <= s.len() {
                Ok((u16_op(op, be_u16_at(s, p1)), p1 + 2))
            } else {
                Err(ErrorKind::UnexpectedEnd)
            }
        } else {
            match nullary_op(op) {
                Some(i) => Ok((i, p1)),
                None => Err(ErrorKind::UnknownOpcode),
            }
        },
    }
}

/// Model of the decode of the whole instruction stream from position `i`
/// to the end of the range: the ordered instruction sequence, or the first
/// failure. Offsets of individual instructions are recoverable by
/// re-summing consumed widths.
pub open spec fn spec_parse_instructions(s: Seq<u8>, i: int) -> Result<Seq<InsV>, ErrorKind>
    decreases s.len() - i,
{
    if i < 0 || i >= s.len() {
        Ok(Seq::empty())
    } else {
        match spec_parse_instruction(s, i) {
            Err(k) => Err(k),
            Ok((ins, p2)) => if i < p2 <= s.len() {
                match spec_parse_instructions(s, p2) {
                    Ok(rest) => Ok(seq![ins] + rest),
                    Err(k) => Err(k),
                }
            } else {
                Err(ErrorKind::UnknownOpcode)
            },
        }
    }
}

/// Builds the instruction of an operand-less opcode, or `None` when the
/// opcode takes operands or is outside the fixed table.
#[verifier::rlimit(100)]
fn nullary_ins(op: u8) -> (r: Option<Instruction>)
    ensures
        r is Some <==> nullary_op(op) is Some,
        r matches Some(i) ==> nullary_op(op) == Some(i.deep_view()),
{
    match op {
        0 => Some(Instruction::Nop),
        1 => Some(Instruction::Aconstnull),
        2 => Some(Instruction::Iconstm1),
        3 => Some(Instruction::Iconst0),
        4 => Some(Instruction::Iconst1),
        5 => Some(Instruction::Iconst2),
        6 => Some(Instruction::Iconst3),
        7 => Some(Instruction::Iconst4),
        8 => Some(Instruction::Iconst5),
        9 => Some(Instruction::Lconst0),
        10 => Some(Instruction::Lconst1),
        11 => Some(Instruction::Fconst0),
        12 => Some(Instruction::Fconst1),
        13 => Some(Instruction::Fconst2),
        14 => Some(Instruction::Dconst0),
        15 => Some(Instruction::Dconst1),
        26 => Some(Instruction::Iload0),
        27 => Some(Instruction::Iload1),
        28 => Some(Instruction::Iload2),
        29 => Some(Instruction::Iload3),
        30 => Some(Instruction::Lload0),
        31 => Some(Instruction::Lload1),
        32 => Some(Instruction::Lload2),
        33 => Some(Instruction::Lload3),
        34 => Some(Instruction::Fload0),
        35 => Some(Instruction::Fload1),
        36 => Some(Instruction::Fload2),
        37 => Some(Instruction::Fload3),
        38 => Some(Instruction::Dload0),
        39 => Some(Instruction::Dload1),
        40 => Some(Instruction::Dload2),
        41 => Some(Instruction::Dload3),
        42 => Some(Instruction::Aload0),
        43 => Some(Instruction::Aload1),
        44 => Some(Instruction::Aload2),
        45 => Some(Instruction::Aload3),
        46 => Some(Instruction::Iaload),
        47 => Some(Instruction::Laload),
        48 => Some(Instruction::Faload),
        49 => Some(Instruction::Daload),
        50 => Some(Instruction::Aaload),
        51 => Some(Instruction::Baload),
        52 => Some(Instruction::Caload),
        53 => Some(Instruction::Saload),
        59 => Some(Instruction::Istore0),
        60 => Some(Instruction::Istore1),
        61 => Some(Instruction::Istore2),
        62 => Some(Instruction::Istore3),
        63 => Some(Instruction::Lstore0),
        64 => Some(Instruction::Lstore1),
        65 => Some(Instruction::Lstore2),
        66 => Some(Instruction::Lstore3),
        67 => Some(Instruction::Fstore0),
        68 => Some(Instruction::Fstore1),
        69 => Some(Instruction::Fstore2),
        70 => Some(Instruction::Fstore3),
        71 => Some(Instruction::Dstore0),
        72 => Some(Instruction::Dstore1),
        73 => Some(Instruction::Dstore2),
        74 => Some(Instruction::Dstore3),
        75 => Some(Instruction::Astore0),
        76 => Some(Instruction::Astore1),
        77 => Some(Instruction::Astore2),
        78 => Some(Instruction::Astore3),
        79 => Some(Instruction::Iastore),
        80 => Some(Instruction::Lastore),
        81 => Some(Instruction::Fastore),
        82 => Some(Instruction::Dastore),
        83 => Some(Instruction::Aastore),
        84 => Some(Instruction::Bastore),
        85 => Some(Instruction::Castore),
        86 => Some(Instruction::Sastore),
        87 => Some(Instruction::Pop),
        88 => Some(Instruction::Pop2),
        89 => Some(Instruction::Dup),
        90 => Some(Instruction::Dupx1),
        91 => Some(Instruction::Dupx2),
        92 => Some(Instruction::Dup2),
        93 => Some(Instruction::Dup2x1),
        94 => Some(Instruction::Dup2x2),
        95 => Some(Instruction::Swap),
        96 => Some(Instruction::Iadd),
        97 => Some(Instruction::Ladd),
        98 => Some(Instruction::Fadd),
        99 => Some(Instruction::Dadd),
        100 => Some(Instruction::Isub),
        101 => Some(Instruction::Lsub),
        102 => Some(Instruction::Fsub),
        103 => Some(Instruction::Dsub),
        104 => Some(Instruction::Imul),
        105 => Some(Instruction::Lmul),
        106 => Some(Instruction::Fmul),
        107 => Some(Instruction::Dmul),
        108 => Some(Instruction::Idiv),
        109 => Some(Instruction::Ldiv),
        110 => Some(Instruction::Fdiv),
        111 => Some(Instruction::Ddiv),
        112 => Some(Instruction::Irem),
        113 => Some(Instruction::Lrem),
        114 => Some(Instruction::Frem),
        115 => Some(Instruction::Drem),
        116 => Some(Instruction::Ineg),
        117 => Some(Instruction::Lneg),
        118 => Some(Instruction::Fneg),
        119 => Some(Instruction::Dneg),
        120 => Some(Instruction::Ishl),
        121 => Some(Instruction::Lshl),
        122 => Some(Instruction::Ishr),
        123 => Some(Instruction::Lshr),
        124 => Some(Instruction::Iushr),
        125 => Some(Instruction::Lushr),
        126 => Some(Instruction::Iand),
        127 => Some(Instruction::Land),
        128 => Some(Instruction::Ior),
        129 => Some(Instruction::Lor),
        130 => Some(Instruction::Ixor),
        131 => Some(Instruction::Lxor),
        133 => Some(Instruction::I2l),
        134 => Some(Instruction::I2f),
        135 => Some(Instruction::I2d),
        136 => Some(Instruction::L2i),
        137 => Some(Instruction::L2f),
        138 => Some(Instruction::L2d),
        139 => Some(Instruction::F2i),
        140 => Some(Instruction::F2l),
        141 => Some(Instruction::F2d),
        142 => Some(Instruction::D2i),
        143 => Some(Instruction::D2l),
        144 => Some(Instruction::D2f),
        145 => Some(Instruction::I2b),
        146 => Some(Instruction::I2c),
        147 => Some(Instruction::I2s),
        148 => Some(Instruction::Lcmp),
        149 => Some(Instruction::Fcmpl),
        150 => Some(Instruction::Fcmpg),
        151 => Some(Instruction::Dcmpl),
        152 => Some(Instruction::Dcmpg),
        172 => Some(Instruction::Ireturn),
        173 => Some(Instruction::Lreturn),
        174 => Some(Instruction::Freturn),
        175 => Some(Instruction::Dreturn),
        176 => Some(Instruction::Areturn),
        177 => Some(Instruction::Return),
        190 => Some(Instruction::Arraylength),
        191 => Some(Instruction::Athrow),
        194 => Some(Instruction::Monitorenter),
        195 => Some(Instruction::Monitorexit),
        _ => None,
    }
}

/// Tests whether the opcode takes exactly one operand byte.
fn takes_u8(op: u8) -> (r: bool)
    ensures
        r == is_u8_op(op),
{
    op == 16 || op == 18 || (21 <= op && op <= 25) || (54 <= op && op <= 58) || op == 169 || op
        == 188
}

/// Builds the instruction of a one-operand-byte opcode.
fn build_u8(op: u8, b: u8) -> (i: Instruction)
    requires
        is_u8_op(op),
    ensures
        i.deep_view() == u8_op(op, b),
{
    match op {
        16 => Instruction::Bipush { value: b as i8 },
        18 => Instruction::Ldc { index: b },
        21 => Instruction::Iload { index: b },
        22 => Instruction::Lload { index: b },
        23 => Instruction::Fload { index: b },
        24 => Instruction::Dload { index: b },
        25 => Instruction::Aload { index: b },
        54 => Instruction::Istore { index: b },
        55 => Instruction::Lstore { index: b },
        56 => Instruction::Fstore { index: b },
        57 => Instruction::Dstore { index: b },
        58 => Instruction::Astore { index: b },
        169 => Instruction::Ret { index: b },
        _ => Instruction::Newarray { atype: b },
    }
}

/// Tests whether the opcode takes exactly one two-byte operand.
fn takes_u16(op: u8) -> (r: bool)
    ensures
        r == is_u16_op(op),
{
    op == 17 || op == 19 || op == 20 || (153 <= op && op <= 168) || (178 <= op && op <= 184) || op
        == 187 || op == 189 || op == 192 || op == 193 || op == 198 || op == 199
}

/// Builds the instruction of a two-operand-byte opcode.
#[verifier::rlimit(60)]
fn build_u16(op: u8, v: u16) -> (i: Instruction)
    requires
        is_u16_op(op),
    ensures
        i.deep_view() == u16_op(op, v),
{
    match op {
        17 => Instruction::Sipush { value: v as i16 },
        19 => Instruction::Ldcw { index: v },
        20 => Instruction::Ldc2w { index: v },
        153 => Instruction::Ifeq { offset: v as i16 },
        154 => Instruction::Ifne { offset: v as i16 },
        155 => Instruction::Iflt { offset: v as i16 },
        156 => Instruction::Ifge { offset: v as i16 },
        157 => Instruction::Ifgt { offset: v as i16 },
        158 => Instruction::Ifle { offset: v as i16 },
        159 => Instruction::Ificmpeq { offset: v as i16 },
        160 => Instruction::Ificmpne { offset: v as i16 },
        161 => Instruction::Ificmplt { offset: v as i16 },
        162 => Instruction::Ificmpge { offset: v as i16 },
        163 => Instruction::Ificmpgt { offset: v as i16 },
        164 => Instruction::Ificmple { offset: v as i16 },
        165 => Instruction::Ifacmpeq { offset: v as i16 },
        166 => Instruction::Ifacmpne { offset: v as i16 },
        167 => Instruction::Goto { offset: v as i16 },
        168 => Instruction::Jsr { offset: v as i16 },
        178 => Instruction::Getstatic { index: v },
        179 => Instruction::Putstatic { index: v },
        180 => Instruction::Getfield { index: v },
        181 => Instruction::Putfield { index: v },
        182 => Instruction::Invokevirtual { index: v },
        183 => Instruction::Invokespecial { index: v },
        184 => Instruction::Invokestatic { index: v },
        187 => Instruction::New { index: v },
        189 => Instruction::Anewarray { index: v },
        192 => Instruction::Checkcast { index: v },
        193 => Instruction::Instanceof { index: v },
        198 => Instruction::Ifnull { offset: v as i16 },
        _ => Instruction::Ifnonnull { offset: v as i16 },
    }
}

/// Decodes a range-indexed jump table whose opcode stands at `pos`.
#[verifier::rlimit(60)]
fn read_tableswitch(code: &[u8], pos: usize) -> (r: Result<(Instruction, usize), DecodeError>)
    requires
        pos < code@.len(),
    ensures
        obeys_model(r, spec_parse_tableswitch(code@, pos as int)),
        r matches Ok((_, n)) ==> pos < n <= code@.len(),
        r matches Err(e) ==> e.offset <= code@.len(),
{
    let err_end = DecodeError { kind: ErrorKind::UnexpectedEnd, offset: pos };
    let pad: usize = 3 - pos % 4;
    if code.len() - (pos + 1) < pad {
        return Err(err_end);
    }
    let t: usize = pos + 1 + pad;
    if code.len() - t < 12 {
        return Err(err_end);
    }
    let default_offset: i32 = match read_u32(code, t) {
        Ok((v, _)) => v as i32,
        Err(e) => {
            return Err(e);
        },
    };
    let low: i32 = match read_u32(code, t + 4) {
        Ok((v, _)) => v as i32,
        Err(e) => {
            return Err(e);
        },
    };
    let high: i32 = match read_u32(code, t + 8) {
        Ok((v, _)) => v as i32,
        Err(e) => {
            return Err(e);
        },
    };
    if low > high {
        return Err(DecodeError { kind: ErrorKind::UnknownOpcode, offset: pos });
    }
    let n64: u64 = (high as i64 - low as i64 + 1) as u64;
    let avail: u64 = (code.len() - (t + 12)) as u64;
    if 4 * n64 > avail {
        return Err(err_end);
    }
    let n: usize = n64 as usize;
    let mut offsets: Vec<i32> = Vec::new();
    let mut j: usize = 0;
    while j < n
        invariant
            j <= n,
            offsets@.len() == j,
            code@.len() <= usize::MAX,
            t + 12 + 4 * n <= code@.len(),
            forall|k: int|
                0 <= k < j ==> offsets@[k] == be_u32_at(code@, t + 12 + 4 * k) as i32,
        decreases n - j,
    {
        let v: i32 = match read_u32(code, t + 12 + 4 * j) {
            Ok((v, _)) => v as i32,
            Err(e) => {
                return Err(e);
            },
        };
        offsets.push(v);
        j = j + 1;
    }
    proof {
        assert(offsets@ =~= Seq::new(
            (high - low + 1) as nat,
            |j: int| be_u32_at(code@, t + 12 + 4 * j) as i32,
        ));
    }
    Ok((Instruction::Tableswitch { default_offset, low, high, offsets }, t + 12 + 4 * n))
}

/// Decodes a match-indexed jump table whose opcode stands at `pos`.
#[verifier::rlimit(60)]
fn read_lookupswitch(code: &[u8], pos: usize) -> (r: Result<(Instruction, usize), DecodeError>)
    requires
        pos < code@.len(),
    ensures
        obeys_model(r, spec_parse_lookupswitch(code@, pos as int)),
        r matches Ok((_, n)) ==> pos < n <= code@.len(),
        r matches Err(e) ==> e.offset <= code@.len(),
{
    let err_end = DecodeError { kind: ErrorKind::UnexpectedEnd, offset: pos };
    let pad: usize = 3 - pos % 4;
    if code.len() - (pos + 1) < pad {
        return Err(err_end);
    }
    let t: usize = pos + 1 + pad;
    if code.len() - t < 8 {
        return Err(err_end);
    }
    let default_offset: i32 = match read_u32(code, t) {
        Ok((v, _)) => v as i32,
        Err(e) => {
            return Err(e);
        },
    };
    let npairs: i32 = match read_u32(code, t + 4) {
        Ok((v, _)) => v as i32,
        Err(e) => {
            return Err(e);
        },
    };
    if npairs < 0 {
        return Err(DecodeError { kind: ErrorKind::UnknownOpcode, offset: pos });
    }
    let n64: u64 = npairs as u64;
    let avail: u64 = (code.len() - (t + 8)) as u64;
    if 8 * n64 > avail {
        return Err(err_end);
    }
    let n: usize = n64 as usize;
    let mut pairs: Vec<LookupPair> = Vec::new();
    let mut j: usize = 0;
    while j < n
        invariant
            j <= n,
            pairs@.len() == j,
            code@.len() <= usize::MAX,
            t + 8 + 8 * n <= code@.len(),
            forall|k: int|
                0 <= k < j ==> pairs@[k] == (LookupPair {
                    match_value: be_u32_at(code@, t + 8 + 8 * k) as i32,
                    offset: be_u32_at(code@, t + 8 + 8 * k + 4) as i32,
                }),
        decreases n - j,
    {
        let m: i32 = match read_u32(code, t + 8 + 8 * j) {
            Ok((v, _)) => v as i32,
            Err(e) => {
                return Err(e);
            },
        };
        let o: i32 = match read_u32(code, t + 8 + 8 * j + 4) {
            Ok((v, _)) => v as i32,
            Err(e) => {
                return Err(e);
            },
        };
        pairs.push(LookupPair { match_value: m, offset: o });
        j = j + 1;
    }
    proof {
        assert(pairs@ =~= Seq::new(
            npairs as nat,
            |j: int| LookupPair {
                match_value: be_u32_at(code@, t + 8 + 8 * j) as i32,
                offset: be_u32_at(code@, t + 8 + 8 * j + 4) as i32,
            },
        ));
        assert(pairs.deep_view() =~= pairs@);
    }
    Ok((Instruction::Lookupswitch { default_offset, pairs }, t + 8 + 8 * n))
}

/// Decodes the prefix-widened form whose prefix byte stands before `p1`.
fn read_wide(code: &[u8], pos: usize, p1: usize) -> (r: Result<(Instruction, usize), DecodeError>)
    requires
        pos < p1 <= code@.len(),
    ensures
        obeys_model(r, spec_parse_wide(code@, p1 as int)),
        r matches Ok((_, n)) ==> pos < n <= code@.len(),
        r matches Err(e) ==> e.offset <= code@.len(),
{
    let (wop, p2) = match read_u8(code, p1) {
        Ok(x) => x,
        Err(e) => {
            return Err(e);
        },
    };
    if wop == 132 {
        let (index, p3) = match read_u16(code, p2) {
            Ok(x) => x,
            Err(e) => {
                return Err(e);
            },
        };
        let (raw, p4) = match read_u16(code, p3) {
            Ok(x) => x,
            Err(e) => {
                return Err(e);
            },
        };
        Ok((Instruction::WideIinc { index, value: raw as i16 }, p4))
    } else if wop == 169 || (21 <= wop && wop <= 25) || (54 <= wop && wop <= 58) {
        let (index, p3) = match read_u16(code, p2) {
            Ok(x) => x,
            Err(e) => {
                return Err(e);
            },
        };
        Ok((Instruction::Wide { opcode: wop, index }, p3))
    } else {
        Err(DecodeError { kind: ErrorKind::UnknownOpcode, offset: pos })
    }
}

impl Instruction {
    /// Decodes one instruction whose opcode stands at `pos`. The position
    /// is relative to the start of the instruction stream; the aligned
    /// jump tables compute their padding from it.
    #[verifier::rlimit(60)]
    pub fn read(code: &[u8], pos: usize) -> (r: Result<(Instruction, usize), DecodeError>)
        requires
            pos <= code@.len(),
        ensures
            obeys_model(r, spec_parse_instruction(code@, pos as int)),
            r matches Ok((_, n)) ==> pos < n <= code@.len(),
            r matches Err(e) ==> e.offset <= code@.len(),
    {
        proof {
            reveal(spec_parse_instruction);
        }
        let (op, p1) = match read_u8(code, pos) {
            Ok(x) => x,
            Err(e) => {
                return Err(e);
            },
        };
        if op == 170 {
            read_tableswitch(code, pos)
        } else if op == 171 {
            read_lookupswitch(code, pos)
        } else if op == 196 {
            read_wide(code, pos, p1)
        } else if op == 132 {
            let (index, p2) = match read_u8(code, p1) {
                Ok(x) => x,
                Err(e) => {
                    return Err(e);
                },
            };
            let (raw, p3) = match read_u8(code, p2) {
                Ok(x) => x,
                Err(e) => {
                    return Err(e);
                },
            };
            Ok((Instruction::Iinc { index, value: raw as i8 }, p3))
        } else if op == 185 {
            let (index, p2) = match read_u16(code, p1) {
                Ok(x) => x,
                Err(e) => {
                    return Err(e);
                },
            };
            let (count, p3) = match read_u8(code, p2) {
                Ok(x) => x,
                Err(e) => {
                    return Err(e);
                },
            };
            let (reserved, p4) = match read_u8(code, p3) {
                Ok(x) => x,
                Err(e) => {
                    return Err(e);
                },
            };
            Ok((Instruction::Invokeinterface { index, count, reserved }, p4))
        } else if op == 186 {
            let (index, p2) = match read_u16(code, p1) {
                Ok(x) => x,
                Err(e) => {
                    return Err(e);
                },
            };
            let (reserved1, p3) = match read_u8(code, p2) {
                Ok(x) => x,
                Err(e) => {
                    return Err(e);
                },
            };
            let (reserved2, p4) = match read_u8(code, p3) {
                Ok(x) => x,
                Err(e) => {
                    return Err(e);
                },
            };
            Ok((Instruction::Invokedynamic { index, reserved1, reserved2 }, p4))
        } else if op == 197 {
            let (index, p2) = match read_u16(code, p1) {
                Ok(x) => x,
                Err(e) => {
                    return Err(e);
                },
            };
            let (dimensions, p3) = match read_u8(code, p2) {
                Ok(x) => x,
                Err(e) => {
                    return Err(e);
                },
            };
            Ok((Instruction::Multianewarray { index, dimensions }, p3))
        } else if op == 200 {
            let (raw, p2) = match read_u32(code, p1) {
                Ok(x) => x,
                Err(e) => {
                    return Err(e);
                },
            };
            Ok((Instruction::Gotow { offset: raw as i32 }, p2))
        } else if op == 201 {
            let (raw, p2) = match read_u32(code, p1) {
                Ok(x) => x,
                Err(e) => {
                    return Err(e);
                },
            };
            Ok((Instruction::Jsrw { offset: raw as i32 }, p2))
        } else if takes_u8(op) {
            let (b, p2) = match read_u8(code, p1) {
                Ok(x) => x,
                Err(e) => {
                    return Err(e);
                },
            };
            Ok((build_u8(op, b), p2))
        } else if takes_u16(op) {
            let (v, p2) = match read_u16(code, p1) {
                Ok(x) => x,
                Err(e) => {
                    return Err(e);
                },
            };
            Ok((build_u16(op, v), p2))
        } else {
            match nullary_ins(op) {
                Some(i) => Ok((i, p1)),
                None => Err(DecodeError { kind: ErrorKind::UnknownOpcode, offset: pos }),
            }
        }
    }
}

/// Decodes a whole instruction stream: every instruction from the start
/// of the range to its end, in order. No instruction may extend past the
/// end of the range, and the range must end exactly on an instruction
/// boundary.
pub fn read_instructions(code: &[u8]) -> (r: Result<Vec<Instruction>, DecodeError>)
    ensures
        match r {
            Ok(v) => spec_parse_instructions(code@, 0) == Ok::<Seq<InsV>, ErrorKind>(v.deep_view()),
            Err(e) => spec_parse_instructions(code@, 0) == Err::<Seq<InsV>, ErrorKind>(e.kind)
                && e.offset <= code@.len(),
        },
{
    let mut out: Vec<Instruction> = Vec::new();
    let mut i: usize = 0;
    while i < code.len()
        invariant
            i <= code@.len(),
            spec_parse_instructions(code@, 0) == (match spec_parse_instructions(code@, i as int) {
                Ok(rest) => Ok::<Seq<InsV>, ErrorKind>(out.deep_view() + rest),
                Err(k) => Err::<Seq<InsV>, ErrorKind>(k),
            }),
        decreases code@.len() - i,
    {
        let ghost old_dv = out.deep_view();
        match Instruction::read(code, i) {
            Ok((ins, n)) => {
                out.push(ins);
                proof {
                    assert(out.deep_view() =~= old_dv.push(ins.deep_view()));
                    match spec_parse_instructions(code@, n as int) {
                        Ok(rest) => {
                            assert(old_dv.push(ins.deep_view()) + rest =~= old_dv + (seq![
                                ins.deep_view(),
                            ] + rest));
                        },
                        Err(_) => {},
                    }
                }
                i = n;
            },
            Err(e) => {
                return Err(e);
            },
        }
    }
    proof {
        assert(out.deep_view() + Seq::<InsV>::empty() =~= out.deep_view());
    }
    Ok(out)
}

} // verus!

//! The binary encoding of types and instructions.
//!
//! Every unsigned LEB128 integer is written in at least `w` bytes, the
//! minimum width of the configuration; signed integers are not widened.

use crate::leb::{write_sleb, write_uleb};
use crate::types::{
    class, BlockType, FuncType, FuncTypeView, GlobalType, Instruction, InstructionClass,
    InstructionView, Limits, MemArg, MemoryType, TableType, ValType,
};
use vstd::prelude::*;

verus! {

/// The byte that stands for a value type.
pub open spec fn val_type_byte(t: ValType) -> u8 {
    match t {
        ValType::I32 => 0x7F,
        ValType::I64 => 0x7E,
        ValType::FuncRef => 0x70,
        ValType::ExternRef => 0x6F,
    }
}

/// The bytes that stand for a list of value types, one each.
pub open spec fn val_types_bytes(ts: Seq<ValType>) -> Seq<u8> {
    Seq::new(ts.len(), |i: int| val_type_byte(ts[i]))
}

/// A list of indices, each as an unsigned integer.
pub open spec fn indices_bytes(xs: Seq<u32>, w: nat) -> Seq<u8>
    decreases xs.len(),
{
    if xs.len() == 0 {
        Seq::empty()
    } else {
        indices_bytes(xs.drop_last(), w) + crate::leb::uleb(xs.last() as nat, w)
    }
}

/// A name: the length of its UTF-8 form, then the form itself.
pub open spec fn name_bytes(name: Seq<char>, w: nat) -> Seq<u8> {
    let utf8 = vstd::utf8::encode_utf8(name);
    crate::leb::uleb(utf8.len(), w) + utf8
}

/// Limits: a flag for the presence of a maximum, the minimum, and the
/// maximum if there is one.
pub open spec fn limits_bytes(l: Limits, w: nat) -> Seq<u8> {
    match l.max {
        Some(max) => seq![0x01u8] + crate::leb::uleb(l.min as nat, w) + crate::leb::uleb(
            max as nat,
            w,
        ),
        None => seq![0x00u8] + crate::leb::uleb(l.min as nat, w),
    }
}

/// A table type: the element type, then the limits.
pub open spec fn table_type_bytes(t: TableType, w: nat) -> Seq<u8> {
    seq![val_type_byte(t.elem_ty)] + limits_bytes(t.limits, w)
}

/// A memory type: its limits.
pub open spec fn memory_type_bytes(t: MemoryType, w: nat) -> Seq<u8> {
    limits_bytes(t.limits, w)
}

/// A global type: the value type, then one for mutable and zero for
/// immutable.
pub open spec fn global_type_bytes(t: GlobalType) -> Seq<u8> {
    seq![val_type_byte(t.val_type), if t.mutable { 1u8 } else { 0u8 }]
}

/// A function type: the marker `0x60`, the parameters and the results,
/// each list behind its length.
pub open spec fn func_type_bytes(t: FuncTypeView, w: nat) -> Seq<u8> {
    seq![0x60u8] + crate::leb::uleb(t.params.len(), w) + val_types_bytes(t.params)
        + crate::leb::uleb(t.results().len(), w) + val_types_bytes(t.results())
}

/// A block type: `0x40` for none, the byte of its one result type, or the
/// index of a function type as a signed integer.
pub open spec fn block_type_bytes(bt: BlockType) -> Seq<u8> {
    match bt {
        BlockType::Empty => seq![0x40u8],
        BlockType::Result(t) => seq![val_type_byte(t)],
        BlockType::FuncType(f) => crate::leb::sleb(f as int),
    }
}

/// The alignment field of an access to a memory other than the first: the
/// alignment with bit six set.
pub open spec fn with_memory_flag(align: u32) -> u32 {
    align | 64
}

/// The immediate of a memory access: alignment and offset, and behind them
/// the memory index unless it is zero.
pub open spec fn mem_arg_bytes(m: MemArg, w: nat) -> Seq<u8> {
    if m.memory_index == 0 {
        crate::leb::uleb(m.align as nat, w) + crate::leb::uleb(m.offset as nat, w)
    } else {
        crate::leb::uleb(with_memory_flag(m.align) as nat, w) + crate::leb::uleb(
            m.offset as nat,
            w,
        ) + crate::leb::uleb(m.memory_index as nat, w)
    }
}

/// An opcode and a block type.
pub open spec fn op_block(op: u8, bt: BlockType) -> Seq<u8> {
    seq![op] + block_type_bytes(bt)
}

/// An opcode and one index.
pub open spec fn op_index(op: u8, x: u32, w: nat) -> Seq<u8> {
    seq![op] + crate::leb::uleb(x as nat, w)
}

/// An opcode and two indices.
pub open spec fn op_index2(op: u8, a: u32, b: u32, w: nat) -> Seq<u8> {
    seq![op] + crate::leb::uleb(a as nat, w) + crate::leb::uleb(b as nat, w)
}

/// An opcode and the immediate of a memory access.
pub open spec fn op_mem(op: u8, m: MemArg, w: nat) -> Seq<u8> {
    seq![op] + mem_arg_bytes(m, w)
}

/// An opcode and a signed integer.
pub open spec fn op_sleb(op: u8, x: int) -> Seq<u8> {
    seq![op] + crate::leb::sleb(x)
}

/// The prefix `0xFC`, a secondary opcode and one index.
pub open spec fn prefixed1(sub: u32, a: u32, w: nat) -> Seq<u8> {
    seq![0xFCu8] + crate::leb::uleb(sub as nat, w) + crate::leb::uleb(a as nat, w)
}

/// The prefix `0xFC`, a secondary opcode and two indices.
pub open spec fn prefixed2(sub: u32, a: u32, b: u32, w: nat) -> Seq<u8> {
    seq![0xFCu8] + crate::leb::uleb(sub as nat, w) + crate::leb::uleb(a as nat, w)
        + crate::leb::uleb(b as nat, w)
}

/// `br_table`: the opcode, the labels behind their count, and the default
/// label.
pub open spec fn br_table_bytes(labels: Seq<u32>, default: u32, w: nat) -> Seq<u8> {
    seq![0x0Eu8] + crate::leb::uleb(labels.len(), w) + indices_bytes(labels, w)
        + crate::leb::uleb(default as nat, w)
}

/// The typed `select`: the opcode and a list of one value type.
pub open spec fn typed_select_bytes(ty: ValType, w: nat) -> Seq<u8> {
    seq![0x1Cu8] + crate::leb::uleb(1, w) + seq![val_type_byte(ty)]
}

/// The encoding of one instruction.
pub open spec fn instr_bytes(i: InstructionView, w: nat) -> Seq<u8> {
    match i {
        InstructionView::Unreachable => seq![0x00u8],
        InstructionView::Nop => seq![0x01u8],
        InstructionView::Block(bt) => op_block(0x02u8, bt),
        InstructionView::Loop(bt) => op_block(0x03u8, bt),
        InstructionView::If(bt) => op_block(0x04u8, bt),
        InstructionView::Else => seq![0x05u8],
        InstructionView::End => seq![0x0Bu8],
        InstructionView::Br(x) => op_index(0x0Cu8, x, w),
        InstructionView::BrIf(x) => op_index(0x0Du8, x, w),
        InstructionView::BrTable(labels, default) => br_table_bytes(labels, default, w),
        InstructionView::Return => seq![0x0Fu8],
        InstructionView::Call(x) => op_index(0x10u8, x, w),
        InstructionView::CallIndirect { ty, table } => op_index2(0x11u8, ty, table, w),
        InstructionView::Drop => seq![0x1Au8],
        InstructionView::Select => seq![0x1Bu8],
        InstructionView::LocalGet(x) => op_index(0x20u8, x, w),
        InstructionView::LocalSet(x) => op_index(0x21u8, x, w),
        InstructionView::LocalTee(x) => op_index(0x22u8, x, w),
        InstructionView::GlobalGet(x) => op_index(0x23u8, x, w),
        InstructionView::GlobalSet(x) => op_index(0x24u8, x, w),
        InstructionView::I32Load(m) => op_mem(0x28u8, m, w),
        InstructionView::I64Load(m) => op_mem(0x29u8, m, w),
        InstructionView::I32Load8_S(m) => op_mem(0x2Cu8, m, w),
        InstructionView::I32Load8_U(m) => op_mem(0x2Du8, m, w),
        InstructionView::I32Load16_S(m) => op_mem(0x2Eu8, m, w),
        InstructionView::I32Load16_U(m) => op_mem(0x2Fu8, m, w),
        InstructionView::I64Load8_S(m) => op_mem(0x30u8, m, w),
        InstructionView::I64Load8_U(m) => op_mem(0x31u8, m, w),
        InstructionView::I64Load16_S(m) => op_mem(0x32u8, m, w),
        InstructionView::I64Load16_U(m) => op_mem(0x33u8, m, w),
        InstructionView::I64Load32_S(m) => op_mem(0x34u8, m, w),
        InstructionView::I64Load32_U(m) => op_mem(0x35u8, m, w),
        InstructionView::I32Store(m) => op_mem(0x36u8, m, w),
        InstructionView::I64Store(m) => op_mem(0x37u8, m, w),
        InstructionView::I32Store8(m) => op_mem(0x3Au8, m, w),
        InstructionView::I32Store16(m) => op_mem(0x3Bu8, m, w),
        InstructionView::I64Store8(m) => op_mem(0x3Cu8, m, w),
        InstructionView::I64Store16(m) => op_mem(0x3Du8, m, w),
        InstructionView::I64Store32(m) => op_mem(0x3Eu8, m, w),
        InstructionView::MemorySize(x) => op_index(0x3Fu8, x, w),
        InstructionView::MemoryGrow(x) => op_index(0x40u8, x, w),
        InstructionView::MemoryInit { mem, data } => prefixed2(8, data, mem, w),
        InstructionView::DataDrop(x) => prefixed1(9, x, w),
        InstructionView::MemoryCopy { src, dst } => prefixed2(10, dst, src, w),
        InstructionView::MemoryFill(x) => prefixed1(11, x, w),
        InstructionView::I32Const(x) => op_sleb(0x41u8, x as int),
        InstructionView::I64Const(x) => op_sleb(0x42u8, x as int),
        InstructionView::I32Eqz => seq![0x45u8],
        InstructionView::I32Eq => seq![0x46u8],
        InstructionView::I32Neq => seq![0x47u8],
        InstructionView::I32LtS => seq![0x48u8],
        InstructionView::I32LtU => seq![0x49u8],
        InstructionView::I32GtS => seq![0x4Au8],
        InstructionView::I32GtU => seq![0x4Bu8],
        InstructionView::I32LeS => seq![0x4Cu8],
        InstructionView::I32LeU => seq![0x4Du8],
        InstructionView::I32GeS => seq![0x4Eu8],
        InstructionView::I32GeU => seq![0x4Fu8],
        InstructionView::I64Eqz => seq![0x50u8],
        InstructionView::I64Eq => seq![0x51u8],
        InstructionView::I64Neq => seq![0x52u8],
        InstructionView::I64LtS => seq![0x53u8],
        InstructionView::I64LtU => seq![0x54u8],
        InstructionView::I64GtS => seq![0x55u8],
        InstructionView::I64GtU => seq![0x56u8],
        InstructionView::I64LeS => seq![0x57u8],
        InstructionView::I64LeU => seq![0x58u8],
        InstructionView::I64GeS => seq![0x59u8],
        InstructionView::I64GeU => seq![0x5Au8],
        InstructionView::I32Clz => seq![0x67u8],
        InstructionView::I32Ctz => seq![0x68u8],
        InstructionView::I32Popcnt => seq![0x69u8],
        InstructionView::I32Add => seq![0x6Au8],
        InstructionView::I32Sub => seq![0x6Bu8],
        InstructionView::I32Mul => seq![0x6Cu8],
        InstructionView::I32DivS => seq![0x6Du8],
        InstructionView::I32DivU => seq![0x6Eu8],
        InstructionView::I32RemS => seq![0x6Fu8],
        InstructionView::I32RemU => seq![0x70u8],
        InstructionView::I32And => seq![0x71u8],
        InstructionView::I32Or => seq![0x72u8],
        InstructionView::I32Xor => seq![0x73u8],
        InstructionView::I32Shl => seq![0x74u8],
        InstructionView::I32ShrS => seq![0x75u8],
        InstructionView::I32ShrU => seq![0x76u8],
        InstructionView::I32Rotl => seq![0x77u8],
        InstructionView::I32Rotr => seq![0x78u8],
        InstructionView::I64Clz => seq![0x79u8],
        InstructionView::I64Ctz => seq![0x7Au8],
        InstructionView::I64Popcnt => seq![0x7Bu8],
        InstructionView::I64Add => seq![0x7Cu8],
        InstructionView::I64Sub => seq![0x7Du8],
        InstructionView::I64Mul => seq![0x7Eu8],
        InstructionView::I64DivS => seq![0x7Fu8],
        InstructionView::I64DivU => seq![0x80u8],
        InstructionView::I64RemS => seq![0x81u8],
        InstructionView::I64RemU => seq![0x82u8],
        InstructionView::I64And => seq![0x83u8],
        InstructionView::I64Or => seq![0x84u8],
        InstructionView::I64Xor => seq![0x85u8],
        InstructionView::I64Shl => seq![0x86u8],
        InstructionView::I64ShrS => seq![0x87u8],
        InstructionView::I64ShrU => seq![0x88u8],
        InstructionView::I64Rotl => seq![0x89u8],
        InstructionView::I64Rotr => seq![0x8Au8],
        InstructionView::I32WrapI64 => seq![0xA7u8],
        InstructionView::I64ExtendI32S => seq![0xACu8],
        InstructionView::I64ExtendI32U => seq![0xADu8],
        InstructionView::I64Extend32S => seq![0xC4u8],
        InstructionView::TypedSelect(ty) => typed_select_bytes(ty, w),
        InstructionView::RefNull(ty) => seq![0xD0u8, val_type_byte(ty)],
        InstructionView::RefIsNull => seq![0xD1u8],
        InstructionView::RefFunc(x) => op_index(0xD2u8, x, w),
        InstructionView::TableInit { segment, table } => prefixed2(12, segment, table, w),
        InstructionView::ElemDrop { segment } => prefixed1(13, segment, w),
        InstructionView::TableFill { table } => prefixed1(17, table, w),
        InstructionView::TableSet { table } => op_index(0x26u8, table, w),
        InstructionView::TableGet { table } => op_index(0x25u8, table, w),
        InstructionView::TableGrow { table } => prefixed1(15, table, w),
        InstructionView::TableSize { table } => prefixed1(16, table, w),
        InstructionView::TableCopy { src, dst } => prefixed2(14, dst, src, w),
    }
}

/// The encodings of a list of instructions, one after the other.
pub open spec fn instrs_bytes(is: Seq<InstructionView>, w: nat) -> Seq<u8>
    decreases is.len(),
{
    if is.len() == 0 {
        Seq::empty()
    } else {
        instrs_bytes(is.drop_last(), w) + instr_bytes(is.last(), w)
    }
}

/// A constant expression of one instruction: the instruction and `end`.
pub open spec fn const_expr_bytes(i: InstructionView, w: nat) -> Seq<u8> {
    instr_bytes(i, w) + seq![0x0Bu8]
}

/// Appends the bytes of a slice.
pub fn put_bytes(out: &mut Vec<u8>, src: &[u8])
    ensures
        final(out)@ == old(out)@ + src@,
{
    let mut i: usize = 0;
    while i < src.len()
        invariant
            i <= src.len(),
            out@ == old(out)@ + src@.take(i as int),
        decreases src.len() - i,
    {
        out.push(src[i]);
        assert(out@ =~= old(out)@ + src@.take(i + 1));
        i += 1;
    }
    assert(src@.take(src.len() as int) =~= src@);
}

/// Appends an unsigned integer of 32 bits.
pub fn put_u32(out: &mut Vec<u8>, x: u32, w: u8)
    ensures
        final(out)@ == old(out)@ + crate::leb::uleb(x as nat, w as nat),
{
    write_uleb(out, x as u128, w);
}

/// Appends a length or a count.
pub fn put_len(out: &mut Vec<u8>, n: usize, w: u8)
    ensures
        final(out)@ == old(out)@ + crate::leb::uleb(n as nat, w as nat),
{
    write_uleb(out, n as u128, w);
}

/// The byte that stands for a value type.
pub fn translate_val_type(t: ValType) -> (b: u8)
    ensures
        b == val_type_byte(t),
{
    match t {
        ValType::I32 => 0x7F,
        ValType::I64 => 0x7E,
        ValType::FuncRef => 0x70,
        ValType::ExternRef => 0x6F,
    }
}

/// Appends the bytes of a list of value types.
pub fn put_val_types(out: &mut Vec<u8>, ts: &Vec<ValType>)
    ensures
        final(out)@ == old(out)@ + val_types_bytes(ts@),
{
    let mut i: usize = 0;
    while i < ts.len()
        invariant
            i <= ts.len(),
            out@ == old(out)@ + val_types_bytes(ts@.take(i as int)),
        decreases ts.len() - i,
    {
        out.push(translate_val_type(ts[i]));
        assert(out@ =~= old(out)@ + val_types_bytes(ts@.take(i + 1)));
        i += 1;
    }
    assert(ts@.take(ts.len() as int) =~= ts@);
}

/// Appends a list of indices.
pub fn put_indices(out: &mut Vec<u8>, xs: &Vec<u32>, w: u8)
    ensures
        final(out)@ == old(out)@ + indices_bytes(xs@, w as nat),
{
    let mut i: usize = 0;
    assert(out@ =~= old(out)@ + indices_bytes(xs@.take(0), w as nat));
    while i < xs.len()
        invariant
            i <= xs.len(),
            out@ == old(out)@ + indices_bytes(xs@.take(i as int), w as nat),
        decreases xs.len() - i,
    {
        put_u32(out, xs[i], w);
        proof {
            assert(xs@.take(i + 1).drop_last() =~= xs@.take(i as int));
            assert(out@ =~= old(out)@ + indices_bytes(xs@.take(i + 1), w as nat));
        }
        i += 1;
    }
    assert(xs@.take(xs.len() as int) =~= xs@);
}

/// Appends a name.
pub fn put_name(out: &mut Vec<u8>, name: &str, w: u8)
    ensures
        final(out)@ == old(out)@ + name_bytes(name@, w as nat),
{
    let utf8: &[u8] = name.as_bytes();
    put_len(out, utf8.len(), w);
    put_bytes(out, utf8);
    assert(out@ =~= old(out)@ + name_bytes(name@, w as nat));
}

/// Appends limits.
pub fn translate_limits(out: &mut Vec<u8>, limits: &Limits, w: u8)
    ensures
        final(out)@ == old(out)@ + limits_bytes(*limits, w as nat),
{
    match limits.max {
        Some(max) => {
            out.push(0x01);
            put_u32(out, limits.min, w);
            put_u32(out, max, w);
        },
        None => {
            out.push(0x00);
            put_u32(out, limits.min, w);
        },
    }
    assert(out@ =~= old(out)@ + limits_bytes(*limits, w as nat));
}

/// Appends a table type.
pub fn translate_table_type(out: &mut Vec<u8>, ty: &TableType, w: u8)
    ensures
        final(out)@ == old(out)@ + table_type_bytes(*ty, w as nat),
{
    out.push(translate_val_type(ty.elem_ty));
    translate_limits(out, &ty.limits, w);
    assert(out@ =~= old(out)@ + table_type_bytes(*ty, w as nat));
}

/// Appends a memory type.
pub fn translate_memory_type(out: &mut Vec<u8>, ty: &MemoryType, w: u8)
    ensures
        final(out)@ == old(out)@ + memory_type_bytes(*ty, w as nat),
{
    translate_limits(out, &ty.limits, w);
}

/// Appends a global type.
pub fn translate_global_type(out: &mut Vec<u8>, ty: &GlobalType)
    ensures
        final(out)@ == old(out)@ + global_type_bytes(*ty),
{
    out.push(translate_val_type(ty.val_type));
    out.push(if ty.mutable { 1 } else { 0 });
    assert(out@ =~= old(out)@ + global_type_bytes(*ty));
}

/// Appends a function type.
pub fn put_func_type(out: &mut Vec<u8>, ty: &FuncType, w: u8)
    ensures
        final(out)@ == old(out)@ + func_type_bytes(ty@, w as nat),
{
    out.push(0x60);
    put_len(out, ty.params.len(), w);
    put_val_types(out, &ty.params);
    match ty.result {
        Some(t) => {
            put_len(out, 1, w);
            out.push(translate_val_type(t));
            assert(val_types_bytes(ty@.results()) =~= seq![val_type_byte(t)]);
        },
        None => {
            put_len(out, 0, w);
            assert(val_types_bytes(ty@.results()) =~= Seq::<u8>::empty());
        },
    }
    assert(out@ =~= old(out)@ + func_type_bytes(ty@, w as nat));
}

/// Appends a block type.
pub fn translate_block_type(out: &mut Vec<u8>, ty: BlockType)
    ensures
        final(out)@ == old(out)@ + block_type_bytes(ty),
{
    match ty {
        BlockType::Empty => {
            out.push(0x40);
            assert(out@ =~= old(out)@ + block_type_bytes(ty));
        },
        BlockType::Result(t) => {
            out.push(translate_val_type(t));
            assert(out@ =~= old(out)@ + block_type_bytes(ty));
        },
        BlockType::FuncType(f) => {
            write_sleb(out, f as i64);
        },
    }
}

/// Appends the immediate of a memory access.
pub fn translate_mem_arg(out: &mut Vec<u8>, m: MemArg, w: u8)
    ensures
        final(out)@ == old(out)@ + mem_arg_bytes(m, w as nat),
{
    if m.memory_index == 0 {
        put_u32(out, m.align, w);
        put_u32(out, m.offset, w);
    } else {
        put_u32(out, m.align | 64, w);
        put_u32(out, m.offset, w);
        put_u32(out, m.memory_index, w);
    }
    assert(out@ =~= old(out)@ + mem_arg_bytes(m, w as nat));
}

fn put_op(out: &mut Vec<u8>, op: u8)
    ensures
        final(out)@ == old(out)@ + seq![op],
{
    out.push(op);
    assert(out@ =~= old(out)@ + seq![op]);
}

fn put_block(out: &mut Vec<u8>, op: u8, bt: BlockType)
    ensures
        final(out)@ == old(out)@ + op_block(op, bt),
{
    out.push(op);
    translate_block_type(out, bt);
    assert(out@ =~= old(out)@ + op_block(op, bt));
}

fn put_index(out: &mut Vec<u8>, op: u8, x: u32, w: u8)
    ensures
        final(out)@ == old(out)@ + op_index(op, x, w as nat),
{
    out.push(op);
    put_u32(out, x, w);
    assert(out@ =~= old(out)@ + op_index(op, x, w as nat));
}

fn put_index2(out: &mut Vec<u8>, op: u8, a: u32, b: u32, w: u8)
    ensures
        final(out)@ == old(out)@ + op_index2(op, a, b, w as nat),
{
    out.push(op);
    put_u32(out, a, w);
    put_u32(out, b, w);
    assert(out@ =~= old(out)@ + op_index2(op, a, b, w as nat));
}

fn put_mem(out: &mut Vec<u8>, op: u8, m: MemArg, w: u8)
    ensures
        final(out)@ == old(out)@ + op_mem(op, m, w as nat),
{
    out.push(op);
    translate_mem_arg(out, m, w);
    assert(out@ =~= old(out)@ + op_mem(op, m, w as nat));
}

fn put_sleb(out: &mut Vec<u8>, op: u8, x: i64)
    ensures
        final(out)@ == old(out)@ + op_sleb(op, x as int),
{
    out.push(op);
    write_sleb(out, x);
    assert(out@ =~= old(out)@ + op_sleb(op, x as int));
}

fn put_prefixed1(out: &mut Vec<u8>, sub: u32, a: u32, w: u8)
    ensures
        final(out)@ == old(out)@ + prefixed1(sub, a, w as nat),
{
    out.push(0xFC);
    put_u32(out, sub, w);
    put_u32(out, a, w);
    assert(out@ =~= old(out)@ + prefixed1(sub, a, w as nat));
}

fn put_prefixed2(out: &mut Vec<u8>, sub: u32, a: u32, b: u32, w: u8)
    ensures
        final(out)@ == old(out)@ + prefixed2(sub, a, b, w as nat),
{
    out.push(0xFC);
    put_u32(out, sub, w);
    put_u32(out, a, w);
    put_u32(out, b, w);
    assert(out@ =~= old(out)@ + prefixed2(sub, a, b, w as nat));
}

fn put_br_table(out: &mut Vec<u8>, labels: &Vec<u32>, default: u32, w: u8)
    ensures
        final(out)@ == old(out)@ + br_table_bytes(labels@, default, w as nat),
{
    out.push(0x0E);
    put_len(out, labels.len(), w);
    put_indices(out, labels, w);
    put_u32(out, default, w);
    assert(out@ =~= old(out)@ + br_table_bytes(labels@, default, w as nat));
}

fn put_typed_select(out: &mut Vec<u8>, ty: ValType, w: u8)
    ensures
        final(out)@ == old(out)@ + typed_select_bytes(ty, w as nat),
{
    out.push(0x1C);
    put_u32(out, 1, w);
    out.push(translate_val_type(ty));
    assert(out@ =~= old(out)@ + typed_select_bytes(ty, w as nat));
}

fn put_ref_null(out: &mut Vec<u8>, ty: ValType)
    ensures
        final(out)@ == old(out)@ + seq![0xD0u8, val_type_byte(ty)],
{
    out.push(0xD0);
    out.push(translate_val_type(ty));
    assert(out@ =~= old(out)@ + seq![0xD0u8, val_type_byte(ty)]);
}

/// Appends the encoding of a control instruction, a call, or a parametric instruction.
#[verifier::rlimit(50)]
fn translate_control(out: &mut Vec<u8>, inst: &Instruction, w: u8)
    requires
        crate::types::class_of(inst@) == InstructionClass::Control,
    ensures
        final(out)@ == old(out)@ + instr_bytes(inst@, w as nat),
{
    match inst {
        Instruction::Unreachable => put_op(out, 0x00),
        Instruction::Nop => put_op(out, 0x01),
        Instruction::Block(bt) => put_block(out, 0x02, *bt),
        Instruction::Loop(bt) => put_block(out, 0x03, *bt),
        Instruction::If(bt) => put_block(out, 0x04, *bt),
        Instruction::Else => put_op(out, 0x05),
        Instruction::End => put_op(out, 0x0B),
        Instruction::Br(x) => put_index(out, 0x0C, *x, w),
        Instruction::BrIf(x) => put_index(out, 0x0D, *x, w),
        Instruction::BrTable(labels, default) => put_br_table(out, labels, *default, w),
        Instruction::Return => put_op(out, 0x0F),
        Instruction::Call(x) => put_index(out, 0x10, *x, w),
        Instruction::CallIndirect { ty, table } => put_index2(out, 0x11, *ty, *table, w),
        Instruction::Drop => put_op(out, 0x1A),
        Instruction::Select => put_op(out, 0x1B),
        _ => {},
    }
}

/// Appends the encoding of an instruction on a local or a global.
#[verifier::rlimit(50)]
fn translate_variable(out: &mut Vec<u8>, inst: &Instruction, w: u8)
    requires
        crate::types::class_of(inst@) == InstructionClass::Variable,
    ensures
        final(out)@ == old(out)@ + instr_bytes(inst@, w as nat),
{
    match inst {
        Instruction::LocalGet(x) => put_index(out, 0x20, *x, w),
        Instruction::LocalSet(x) => put_index(out, 0x21, *x, w),
        Instruction::LocalTee(x) => put_index(out, 0x22, *x, w),
        Instruction::GlobalGet(x) => put_index(out, 0x23, *x, w),
        Instruction::GlobalSet(x) => put_index(out, 0x24, *x, w),
        _ => {},
    }
}

/// Appends the encoding of a memory instruction.
#[verifier::rlimit(50)]
fn translate_memory(out: &mut Vec<u8>, inst: &Instruction, w: u8)
    requires
        crate::types::class_of(inst@) == InstructionClass::Memory,
    ensures
        final(out)@ == old(out)@ + instr_bytes(inst@, w as nat),
{
    match inst {
        Instruction::I32Load(m) => put_mem(out, 0x28, *m, w),
        Instruction::I64Load(m) => put_mem(out, 0x29, *m, w),
        Instruction::I32Load8_S(m) => put_mem(out, 0x2C, *m, w),
        Instruction::I32Load8_U(m) => put_mem(out, 0x2D, *m, w),
        Instruction::I32Load16_S(m) => put_mem(out, 0x2E, *m, w),
        Instruction::I32Load16_U(m) => put_mem(out, 0x2F, *m, w),
        Instruction::I64Load8_S(m) => put_mem(out, 0x30, *m, w),
        Instruction::I64Load8_U(m) => put_mem(out, 0x31, *m, w),
        Instruction::I64Load16_S(m) => put_mem(out, 0x32, *m, w),
        Instruction::I64Load16_U(m) => put_mem(out, 0x33, *m, w),
        Instruction::I64Load32_S(m) => put_mem(out, 0x34, *m, w),
        Instruction::I64Load32_U(m) => put_mem(out, 0x35, *m, w),
        Instruction::I32Store(m) => put_mem(out, 0x36, *m, w),
        Instruction::I64Store(m) => put_mem(out, 0x37, *m, w),
        Instruction::I32Store8(m) => put_mem(out, 0x3A, *m, w),
        Instruction::I32Store16(m) => put_mem(out, 0x3B, *m, w),
        Instruction::I64Store8(m) => put_mem(out, 0x3C, *m, w),
        Instruction::I64Store16(m) => put_mem(out, 0x3D, *m, w),
        Instruction::I64Store32(m) => put_mem(out, 0x3E, *m, w),
        Instruction::MemorySize(x) => put_index(out, 0x3F, *x, w),
        Instruction::MemoryGrow(x) => put_index(out, 0x40, *x, w),
        Instruction::MemoryInit { mem, data } => put_prefixed2(out, 8, *data, *mem, w),
        Instruction::DataDrop(x) => put_prefixed1(out, 9, *x, w),
        Instruction::MemoryCopy { src, dst } => put_prefixed2(out, 10, *dst, *src, w),
        Instruction::MemoryFill(x) => put_prefixed1(out, 11, *x, w),
        _ => {},
    }
}

/// Appends the encoding of an instruction on references.
#[verifier::rlimit(50)]
fn translate_reference(out: &mut Vec<u8>, inst: &Instruction, w: u8)
    requires
        crate::types::class_of(inst@) == InstructionClass::Reference,
    ensures
        final(out)@ == old(out)@ + instr_bytes(inst@, w as nat),
{
    match inst {
        Instruction::TypedSelect(ty) => put_typed_select(out, *ty, w),
        Instruction::RefNull(ty) => put_ref_null(out, *ty),
        Instruction::RefIsNull => put_op(out, 0xD1),
        Instruction::RefFunc(x) => put_index(out, 0xD2, *x, w),
        _ => {},
    }
}

/// Appends the encoding of an instruction on tables or element segments.
#[verifier::rlimit(50)]
fn translate_table(out: &mut Vec<u8>, inst: &Instruction, w: u8)
    requires
        crate::types::class_of(inst@) == InstructionClass::Table,
    ensures
        final(out)@ == old(out)@ + instr_bytes(inst@, w as nat),
{
    match inst {
        Instruction::TableInit { segment, table } => put_prefixed2(out, 12, *segment, *table, w),
        Instruction::ElemDrop { segment } => put_prefixed1(out, 13, *segment, w),
        Instruction::TableFill { table } => put_prefixed1(out, 17, *table, w),
        Instruction::TableSet { table } => put_index(out, 0x26, *table, w),
        Instruction::TableGet { table } => put_index(out, 0x25, *table, w),
        Instruction::TableGrow { table } => put_prefixed1(out, 15, *table, w),
        Instruction::TableSize { table } => put_prefixed1(out, 16, *table, w),
        Instruction::TableCopy { src, dst } => put_prefixed2(out, 14, *dst, *src, w),
        _ => {},
    }
}

/// Appends the encoding of a numeric instruction.
#[verifier::rlimit(50)]
fn translate_numeric(out: &mut Vec<u8>, inst: &Instruction, w: u8)
    requires
        crate::types::class_of(inst@) == InstructionClass::Numeric,
    ensures
        final(out)@ == old(out)@ + instr_bytes(inst@, w as nat),
{
    match inst {
        Instruction::I32Const(x) => put_sleb(out, 0x41, *x as i64),
        Instruction::I64Const(x) => put_sleb(out, 0x42, *x),
        Instruction::I32Eqz => put_op(out, 0x45),
        Instruction::I32Eq => put_op(out, 0x46),
        Instruction::I32Neq => put_op(out, 0x47),
        Instruction::I32LtS => put_op(out, 0x48),
        Instruction::I32LtU => put_op(out, 0x49),
        Instruction::I32GtS => put_op(out, 0x4A),
        Instruction::I32GtU => put_op(out, 0x4B),
        Instruction::I32LeS => put_op(out, 0x4C),
        Instruction::I32LeU => put_op(out, 0x4D),
        Instruction::I32GeS => put_op(out, 0x4E),
        Instruction::I32GeU => put_op(out, 0x4F),
        Instruction::I64Eqz => put_op(out, 0x50),
        Instruction::I64Eq => put_op(out, 0x51),
        Instruction::I64Neq => put_op(out, 0x52),
        Instruction::I64LtS => put_op(out, 0x53),
        Instruction::I64LtU => put_op(out, 0x54),
        Instruction::I64GtS => put_op(out, 0x55),
        Instruction::I64GtU => put_op(out, 0x56),
        Instruction::I64LeS => put_op(out, 0x57),
        Instruction::I64LeU => put_op(out, 0x58),
        Instruction::I64GeS => put_op(out, 0x59),
        Instruction::I64GeU => put_op(out, 0x5A),
        Instruction::I32Clz => put_op(out, 0x67),
        Instruction::I32Ctz => put_op(out, 0x68),
        Instruction::I32Popcnt => put_op(out, 0x69),
        Instruction::I32Add => put_op(out, 0x6A),
        Instruction::I32Sub => put_op(out, 0x6B),
        Instruction::I32Mul => put_op(out, 0x6C),
        Instruction::I32DivS => put_op(out, 0x6D),
        Instruction::I32DivU => put_op(out, 0x6E),
        Instruction::I32RemS => put_op(out, 0x6F),
        Instruction::I32RemU => put_op(out, 0x70),
        Instruction::I32And => put_op(out, 0x71),
        Instruction::I32Or => put_op(out, 0x72),
        Instruction::I32Xor => put_op(out, 0x73),
        Instruction::I32Shl => put_op(out, 0x74),
        Instruction::I32ShrS => put_op(out, 0x75),
        Instruction::I32ShrU => put_op(out, 0x76),
        Instruction::I32Rotl => put_op(out, 0x77),
        Instruction::I32Rotr => put_op(out, 0x78),
        Instruction::I64Clz => put_op(out, 0x79),
        Instruction::I64Ctz => put_op(out, 0x7A),
        Instruction::I64Popcnt => put_op(out, 0x7B),
        Instruction::I64Add => put_op(out, 0x7C),
        Instruction::I64Sub => put_op(out, 0x7D),
        Instruction::I64Mul => put_op(out, 0x7E),
        Instruction::I64DivS => put_op(out, 0x7F),
        Instruction::I64DivU => put_op(out, 0x80),
        Instruction::I64RemS => put_op(out, 0x81),
        Instruction::I64RemU => put_op(out, 0x82),
        Instruction::I64And => put_op(out, 0x83),
        Instruction::I64Or => put_op(out, 0x84),
        Instruction::I64Xor => put_op(out, 0x85),
        Instruction::I64Shl => put_op(out, 0x86),
        Instruction::I64ShrS => put_op(out, 0x87),
        Instruction::I64ShrU => put_op(out, 0x88),
        Instruction::I64Rotl => put_op(out, 0x89),
        Instruction::I64Rotr => put_op(out, 0x8A),
        Instruction::I32WrapI64 => put_op(out, 0xA7),
        Instruction::I64ExtendI32S => put_op(out, 0xAC),
        Instruction::I64ExtendI32U => put_op(out, 0xAD),
        Instruction::I64Extend32S => put_op(out, 0xC4),
        _ => {},
    }
}

/// Appends the encoding of one instruction.
pub fn translate_instruction(out: &mut Vec<u8>, inst: &Instruction, w: u8)
    ensures
        final(out)@ == old(out)@ + instr_bytes(inst@, w as nat),
{
    match class(inst) {
        InstructionClass::Control => translate_control(out, inst, w),
        InstructionClass::Variable => translate_variable(out, inst, w),
        InstructionClass::Memory => translate_memory(out, inst, w),
        InstructionClass::Reference => translate_reference(out, inst, w),
        InstructionClass::Table => translate_table(out, inst, w),
        InstructionClass::Numeric => translate_numeric(out, inst, w),
    }
}

/// Appends the encodings of a list of instructions.
pub fn put_instructions(out: &mut Vec<u8>, instrs: &Vec<Instruction>, w: u8)
    ensures
        final(out)@ == old(out)@ + instrs_bytes(crate::types::seq_view(instrs@), w as nat),
{
    let ghost all = crate::types::seq_view(instrs@);
    let mut i: usize = 0;
    assert(out@ =~= old(out)@ + instrs_bytes(all.take(0), w as nat));
    while i < instrs.len()
        invariant
            i <= instrs.len(),
            all == crate::types::seq_view(instrs@),
            out@ == old(out)@ + instrs_bytes(all.take(i as int), w as nat),
        decreases instrs.len() - i,
    {
        translate_instruction(out, &instrs[i], w);
        proof {
            assert(all.take(i + 1).drop_last() =~= all.take(i as int));
            assert(out@ =~= old(out)@ + instrs_bytes(all.take(i + 1), w as nat));
        }
        i += 1;
    }
    assert(all.take(instrs.len() as int) =~= all);
}

/// Appends a constant expression of one instruction.
pub fn put_const_expr(out: &mut Vec<u8>, inst: &Instruction, w: u8)
    ensures
        final(out)@ == old(out)@ + const_expr_bytes(inst@, w as nat),
{
    translate_instruction(out, inst, w);
    out.push(0x0B);
    assert(out@ =~= old(out)@ + const_expr_bytes(inst@, w as nat));
}

} // verus!

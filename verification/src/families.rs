//! The families of instructions that differ only in their opcode.
//!
//! The instruction selector proposes one member of a family at a time; the
//! members are numbered here.

use crate::types::{Instruction, InstructionView, MemArg};
use vstd::prelude::*;

verus! {

/// The number of instructions in the family: load.
pub const LOAD_COUNT: usize = 12;

/// The load with the number `j` in its family.
pub open spec fn load_view(j: usize, m: MemArg) -> InstructionView {
    match j {
        0 => InstructionView::I32Load(m),
        1 => InstructionView::I64Load(m),
        2 => InstructionView::I32Load8_S(m),
        3 => InstructionView::I32Load8_U(m),
        4 => InstructionView::I32Load16_S(m),
        5 => InstructionView::I32Load16_U(m),
        6 => InstructionView::I64Load8_S(m),
        7 => InstructionView::I64Load8_U(m),
        8 => InstructionView::I64Load16_S(m),
        9 => InstructionView::I64Load16_U(m),
        10 => InstructionView::I64Load32_S(m),
        _ => InstructionView::I64Load32_U(m),
    }
}

/// Executable form of [`load_view`].
pub fn load_op(j: usize, m: MemArg) -> (r: Instruction)
    ensures
        r@ == load_view(j, m),
{
    match j {
        0 => Instruction::I32Load(m),
        1 => Instruction::I64Load(m),
        2 => Instruction::I32Load8_S(m),
        3 => Instruction::I32Load8_U(m),
        4 => Instruction::I32Load16_S(m),
        5 => Instruction::I32Load16_U(m),
        6 => Instruction::I64Load8_S(m),
        7 => Instruction::I64Load8_U(m),
        8 => Instruction::I64Load16_S(m),
        9 => Instruction::I64Load16_U(m),
        10 => Instruction::I64Load32_S(m),
        _ => Instruction::I64Load32_U(m),
    }
}

/// The largest alignment of the load with the number `j`: the logarithm of
/// its width in bytes.
pub open spec fn load_align(j: usize) -> u32 {
    match j {
        0 => 2,
        1 => 3,
        2 => 0,
        3 => 0,
        4 => 1,
        5 => 1,
        6 => 0,
        7 => 0,
        8 => 1,
        9 => 1,
        10 => 2,
        _ => 2,
    }
}

/// Executable form of [`load_align`].
pub fn load_max_align(j: usize) -> (r: u32)
    ensures
        r == load_align(j),
        r <= 3,
{
    match j {
        0 => 2,
        1 => 3,
        2 => 0,
        3 => 0,
        4 => 1,
        5 => 1,
        6 => 0,
        7 => 0,
        8 => 1,
        9 => 1,
        10 => 2,
        _ => 2,
    }
}

/// The number of instructions in the family: store.
pub const STORE_COUNT: usize = 7;

/// The store with the number `j` in its family.
pub open spec fn store_view(j: usize, m: MemArg) -> InstructionView {
    match j {
        0 => InstructionView::I32Store(m),
        1 => InstructionView::I64Store(m),
        2 => InstructionView::I32Store8(m),
        3 => InstructionView::I32Store16(m),
        4 => InstructionView::I64Store8(m),
        5 => InstructionView::I64Store16(m),
        _ => InstructionView::I64Store32(m),
    }
}

/// Executable form of [`store_view`].
pub fn store_op(j: usize, m: MemArg) -> (r: Instruction)
    ensures
        r@ == store_view(j, m),
{
    match j {
        0 => Instruction::I32Store(m),
        1 => Instruction::I64Store(m),
        2 => Instruction::I32Store8(m),
        3 => Instruction::I32Store16(m),
        4 => Instruction::I64Store8(m),
        5 => Instruction::I64Store16(m),
        _ => Instruction::I64Store32(m),
    }
}

/// The largest alignment of the store with the number `j`: the logarithm of
/// its width in bytes.
pub open spec fn store_align(j: usize) -> u32 {
    match j {
        0 => 2,
        1 => 3,
        2 => 0,
        3 => 1,
        4 => 0,
        5 => 1,
        _ => 2,
    }
}

/// Executable form of [`store_align`].
pub fn store_max_align(j: usize) -> (r: u32)
    ensures
        r == store_align(j),
        r <= 3,
{
    match j {
        0 => 2,
        1 => 3,
        2 => 0,
        3 => 1,
        4 => 0,
        5 => 1,
        _ => 2,
    }
}

/// The number of instructions in the family: test or unary operation on `i32`.
pub const I32_UNARY_COUNT: usize = 4;

/// The test or unary operation on `i32` with the number `j` in its family.
pub open spec fn i32_unary_view(j: usize) -> InstructionView {
    match j {
        0 => InstructionView::I32Eqz,
        1 => InstructionView::I32Clz,
        2 => InstructionView::I32Ctz,
        _ => InstructionView::I32Popcnt,
    }
}

/// Executable form of [`i32_unary_view`].
pub fn i32_unary_op(j: usize) -> (r: Instruction)
    ensures
        r@ == i32_unary_view(j),
{
    match j {
        0 => Instruction::I32Eqz,
        1 => Instruction::I32Clz,
        2 => Instruction::I32Ctz,
        _ => Instruction::I32Popcnt,
    }
}

/// The number of instructions in the family: comparison or binary operation on `i32`.
pub const I32_BINARY_COUNT: usize = 25;

/// The comparison or binary operation on `i32` with the number `j` in its family.
pub open spec fn i32_binary_view(j: usize) -> InstructionView {
    match j {
        0 => InstructionView::I32Eq,
        1 => InstructionView::I32Neq,
        2 => InstructionView::I32LtS,
        3 => InstructionView::I32LtU,
        4 => InstructionView::I32GtS,
        5 => InstructionView::I32GtU,
        6 => InstructionView::I32LeS,
        7 => InstructionView::I32LeU,
        8 => InstructionView::I32GeS,
        9 => InstructionView::I32GeU,
        10 => InstructionView::I32Add,
        11 => InstructionView::I32Sub,
        12 => InstructionView::I32Mul,
        13 => InstructionView::I32DivS,
        14 => InstructionView::I32DivU,
        15 => InstructionView::I32RemS,
        16 => InstructionView::I32RemU,
        17 => InstructionView::I32And,
        18 => InstructionView::I32Or,
        19 => InstructionView::I32Xor,
        20 => InstructionView::I32Shl,
        21 => InstructionView::I32ShrS,
        22 => InstructionView::I32ShrU,
        23 => InstructionView::I32Rotl,
        _ => InstructionView::I32Rotr,
    }
}

/// Executable form of [`i32_binary_view`].
pub fn i32_binary_op(j: usize) -> (r: Instruction)
    ensures
        r@ == i32_binary_view(j),
{
    match j {
        0 => Instruction::I32Eq,
        1 => Instruction::I32Neq,
        2 => Instruction::I32LtS,
        3 => Instruction::I32LtU,
        4 => Instruction::I32GtS,
        5 => Instruction::I32GtU,
        6 => Instruction::I32LeS,
        7 => Instruction::I32LeU,
        8 => Instruction::I32GeS,
        9 => Instruction::I32GeU,
        10 => Instruction::I32Add,
        11 => Instruction::I32Sub,
        12 => Instruction::I32Mul,
        13 => Instruction::I32DivS,
        14 => Instruction::I32DivU,
        15 => Instruction::I32RemS,
        16 => Instruction::I32RemU,
        17 => Instruction::I32And,
        18 => Instruction::I32Or,
        19 => Instruction::I32Xor,
        20 => Instruction::I32Shl,
        21 => Instruction::I32ShrS,
        22 => Instruction::I32ShrU,
        23 => Instruction::I32Rotl,
        _ => Instruction::I32Rotr,
    }
}

/// The number of instructions in the family: comparison on `i64`.
pub const I64_COMPARE_COUNT: usize = 10;

/// The comparison on `i64` with the number `j` in its family.
pub open spec fn i64_compare_view(j: usize) -> InstructionView {
    match j {
        0 => InstructionView::I64Eq,
        1 => InstructionView::I64Neq,
        2 => InstructionView::I64LtS,
        3 => InstructionView::I64LtU,
        4 => InstructionView::I64GtS,
        5 => InstructionView::I64GtU,
        6 => InstructionView::I64LeS,
        7 => InstructionView::I64LeU,
        8 => InstructionView::I64GeS,
        _ => InstructionView::I64GeU,
    }
}

/// Executable form of [`i64_compare_view`].
pub fn i64_compare_op(j: usize) -> (r: Instruction)
    ensures
        r@ == i64_compare_view(j),
{
    match j {
        0 => Instruction::I64Eq,
        1 => Instruction::I64Neq,
        2 => Instruction::I64LtS,
        3 => Instruction::I64LtU,
        4 => Instruction::I64GtS,
        5 => Instruction::I64GtU,
        6 => Instruction::I64LeS,
        7 => Instruction::I64LeU,
        8 => Instruction::I64GeS,
        _ => Instruction::I64GeU,
    }
}

/// The number of instructions in the family: unary operation on `i64`.
pub const I64_UNARY_COUNT: usize = 4;

/// The unary operation on `i64` with the number `j` in its family.
pub open spec fn i64_unary_view(j: usize) -> InstructionView {
    match j {
        0 => InstructionView::I64Clz,
        1 => InstructionView::I64Ctz,
        2 => InstructionView::I64Popcnt,
        _ => InstructionView::I64Extend32S,
    }
}

/// Executable form of [`i64_unary_view`].
pub fn i64_unary_op(j: usize) -> (r: Instruction)
    ensures
        r@ == i64_unary_view(j),
{
    match j {
        0 => Instruction::I64Clz,
        1 => Instruction::I64Ctz,
        2 => Instruction::I64Popcnt,
        _ => Instruction::I64Extend32S,
    }
}

/// The number of instructions in the family: binary operation on `i64`.
pub const I64_BINARY_COUNT: usize = 15;

/// The binary operation on `i64` with the number `j` in its family.
pub open spec fn i64_binary_view(j: usize) -> InstructionView {
    match j {
        0 => InstructionView::I64Add,
        1 => InstructionView::I64Sub,
        2 => InstructionView::I64Mul,
        3 => InstructionView::I64DivS,
        4 => InstructionView::I64DivU,
        5 => InstructionView::I64RemS,
        6 => InstructionView::I64RemU,
        7 => InstructionView::I64And,
        8 => InstructionView::I64Or,
        9 => InstructionView::I64Xor,
        10 => InstructionView::I64Shl,
        11 => InstructionView::I64ShrS,
        12 => InstructionView::I64ShrU,
        13 => InstructionView::I64Rotl,
        _ => InstructionView::I64Rotr,
    }
}

/// Executable form of [`i64_binary_view`].
pub fn i64_binary_op(j: usize) -> (r: Instruction)
    ensures
        r@ == i64_binary_view(j),
{
    match j {
        0 => Instruction::I64Add,
        1 => Instruction::I64Sub,
        2 => Instruction::I64Mul,
        3 => Instruction::I64DivS,
        4 => Instruction::I64DivU,
        5 => Instruction::I64RemS,
        6 => Instruction::I64RemU,
        7 => Instruction::I64And,
        8 => Instruction::I64Or,
        9 => Instruction::I64Xor,
        10 => Instruction::I64Shl,
        11 => Instruction::I64ShrS,
        12 => Instruction::I64ShrU,
        13 => Instruction::I64Rotl,
        _ => Instruction::I64Rotr,
    }
}

/// The number of instructions in the family: extension of an `i32` to an `i64`.
pub const I64_EXTEND_COUNT: usize = 2;

/// The extension of an `i32` to an `i64` with the number `j` in its family.
pub open spec fn i64_extend_view(j: usize) -> InstructionView {
    match j {
        0 => InstructionView::I64ExtendI32S,
        _ => InstructionView::I64ExtendI32U,
    }
}

/// Executable form of [`i64_extend_view`].
pub fn i64_extend_op(j: usize) -> (r: Instruction)
    ensures
        r@ == i64_extend_view(j),
{
    match j {
        0 => Instruction::I64ExtendI32S,
        _ => Instruction::I64ExtendI32U,
    }
}

} // verus!

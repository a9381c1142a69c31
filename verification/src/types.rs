//! The value, signature and instruction types of a module description,
//! together with the mathematical view of each.

use vstd::prelude::*;

verus! {

/// The type of a value on the operand stack or in a variable.
#[derive(Clone, Copy, Debug, PartialEq, Eq, Hash, Structural)]
pub enum ValType {
    I32,
    I64,
    FuncRef,
    ExternRef,
}

impl ValType {
    /// Whether this is one of the two reference types.
    pub open spec fn is_ref(self) -> bool {
        self == ValType::FuncRef || self == ValType::ExternRef
    }

    /// Whether this is one of the two integer types.
    pub open spec fn is_num(self) -> bool {
        self == ValType::I32 || self == ValType::I64
    }

    /// Executable form of [`ValType::is_ref`].
    pub fn is_reference(self) -> (r: bool)
        ensures
            r == self.is_ref(),
    {
        match self {
            ValType::FuncRef | ValType::ExternRef => true,
            _ => false,
        }
    }

    /// Executable form of [`ValType::is_num`].
    pub fn is_numeric(self) -> (r: bool)
        ensures
            r == self.is_num(),
    {
        match self {
            ValType::I32 | ValType::I64 => true,
            _ => false,
        }
    }
}

/// A function signature: its parameters in order and at most one result.
#[derive(Debug, PartialEq, Eq, Hash)]
pub struct FuncType {
    pub params: Vec<ValType>,
    pub result: Option<ValType>,
}

/// The view of a [`FuncType`].
pub struct FuncTypeView {
    pub params: Seq<ValType>,
    pub result: Option<ValType>,
}

impl FuncTypeView {
    /// The results as a sequence of length zero or one.
    pub open spec fn results(self) -> Seq<ValType> {
        match self.result {
            Some(t) => seq![t],
            None => Seq::empty(),
        }
    }
}

impl View for FuncType {
    type V = FuncTypeView;

    open spec fn view(&self) -> FuncTypeView {
        FuncTypeView { params: self.params@, result: self.result }
    }
}

impl Clone for FuncType {
    fn clone(&self) -> (r: Self)
        ensures
            r@ == self@,
    {
        FuncType { params: copy_val_types(&self.params), result: self.result }
    }
}

/// A copy of a list of value types.
pub fn copy_val_types(v: &Vec<ValType>) -> (r: Vec<ValType>)
    ensures
        r@ == v@,
{
    let mut r: Vec<ValType> = Vec::new();
    let mut i: usize = 0;
    while i < v.len()
        invariant
            i <= v.len(),
            r@ == v@.take(i as int),
        decreases v.len() - i,
    {
        r.push(v[i]);
        i += 1;
    }
    assert(v@.take(v.len() as int) =~= v@);
    r
}

/// Whether two lists of value types hold the same types in the same order.
pub fn same_val_types(a: &Vec<ValType>, b: &Vec<ValType>) -> (r: bool)
    ensures
        r == (a@ == b@),
{
    if a.len() != b.len() {
        return false;
    }
    let mut i: usize = 0;
    while i < a.len()
        invariant
            i <= a.len(),
            a.len() == b.len(),
            a@.take(i as int) == b@.take(i as int),
        decreases a.len() - i,
    {
        if a[i] != b[i] {
            assert(a@[i as int] != b@[i as int]);
            return false;
        }
        assert(a@.take(i + 1) =~= a@.take(i as int).push(a@[i as int]));
        assert(b@.take(i + 1) =~= b@.take(i as int).push(b@[i as int]));
        i += 1;
    }
    assert(a@.take(a.len() as int) =~= a@);
    assert(b@.take(b.len() as int) =~= b@);
    true
}

/// The size bounds of a table or a memory.
#[derive(Clone, Copy, Debug, PartialEq, Eq, Hash, Structural)]
pub struct Limits {
    pub min: u32,
    pub max: Option<u32>,
}

/// The type of a table.
#[derive(Clone, Copy, Debug, PartialEq, Eq, Hash, Structural)]
pub struct TableType {
    pub elem_ty: ValType,
    pub limits: Limits,
}

/// The type of a linear memory; its limits count pages of 64 KiB.
#[derive(Clone, Copy, Debug, PartialEq, Eq, Hash, Structural)]
pub struct MemoryType {
    pub limits: Limits,
}

/// The type of a global variable.
#[derive(Clone, Copy, Debug, PartialEq, Eq, Hash, Structural)]
pub struct GlobalType {
    pub val_type: ValType,
    pub mutable: bool,
}

/// The type of a block, loop or if.
#[derive(Clone, Copy, Debug, PartialEq, Eq, Hash, Structural)]
pub enum BlockType {
    Empty,
    Result(ValType),
    FuncType(u32),
}

/// The immediate of a memory access.
#[derive(Clone, Copy, Debug, PartialEq, Eq, Hash, Structural)]
pub struct MemArg {
    pub offset: u32,
    pub align: u32,
    pub memory_index: u32,
}

/// What an export refers to, by index into the matching index space.
#[derive(Clone, Copy, Debug, PartialEq, Eq, Hash, Structural)]
pub enum Export {
    Func(u32),
    Table(u32),
    Memory(u32),
    Global(u32),
}

/// What an import provides: a function of the type with the given index.
#[derive(Clone, Copy, Debug, PartialEq, Eq, Hash, Structural)]
pub enum FunctionType {
    Func(u32),
}

impl FunctionType {
    /// The index of the imported function's type.
    pub open spec fn type_index(self) -> u32 {
        match self {
            FunctionType::Func(t) => t,
        }
    }
}

/// One instruction.
#[allow(non_camel_case_types)]
#[derive(Debug, PartialEq, Eq, Hash)]
pub enum Instruction {
    // Control instructions.
    Unreachable,
    Nop,
    Block(BlockType),
    Loop(BlockType),
    If(BlockType),
    Else,
    End,
    Br(u32),
    BrIf(u32),
    BrTable(Vec<u32>, u32),
    Return,
    Call(u32),
    CallIndirect { ty: u32, table: u32 },
    // Parametric instructions.
    Drop,
    Select,
    // Variable instructions.
    LocalGet(u32),
    LocalSet(u32),
    LocalTee(u32),
    GlobalGet(u32),
    GlobalSet(u32),
    // Memory instructions.
    I32Load(MemArg),
    I64Load(MemArg),
    I32Load8_S(MemArg),
    I32Load8_U(MemArg),
    I32Load16_S(MemArg),
    I32Load16_U(MemArg),
    I64Load8_S(MemArg),
    I64Load8_U(MemArg),
    I64Load16_S(MemArg),
    I64Load16_U(MemArg),
    I64Load32_S(MemArg),
    I64Load32_U(MemArg),
    I32Store(MemArg),
    I64Store(MemArg),
    I32Store8(MemArg),
    I32Store16(MemArg),
    I64Store8(MemArg),
    I64Store16(MemArg),
    I64Store32(MemArg),
    MemorySize(u32),
    MemoryGrow(u32),
    MemoryInit { mem: u32, data: u32 },
    DataDrop(u32),
    MemoryCopy { src: u32, dst: u32 },
    MemoryFill(u32),
    // Numeric instructions.
    I32Const(i32),
    I64Const(i64),
    I32Eqz,
    I32Eq,
    I32Neq,
    I32LtS,
    I32LtU,
    I32GtS,
    I32GtU,
    I32LeS,
    I32LeU,
    I32GeS,
    I32GeU,
    I64Eqz,
    I64Eq,
    I64Neq,
    I64LtS,
    I64LtU,
    I64GtS,
    I64GtU,
    I64LeS,
    I64LeU,
    I64GeS,
    I64GeU,
    I32Clz,
    I32Ctz,
    I32Popcnt,
    I32Add,
    I32Sub,
    I32Mul,
    I32DivS,
    I32DivU,
    I32RemS,
    I32RemU,
    I32And,
    I32Or,
    I32Xor,
    I32Shl,
    I32ShrS,
    I32ShrU,
    I32Rotl,
    I32Rotr,
    I64Clz,
    I64Ctz,
    I64Popcnt,
    I64Add,
    I64Sub,
    I64Mul,
    I64DivS,
    I64DivU,
    I64RemS,
    I64RemU,
    I64And,
    I64Or,
    I64Xor,
    I64Shl,
    I64ShrS,
    I64ShrU,
    I64Rotl,
    I64Rotr,
    I32WrapI64,
    I64ExtendI32S,
    I64ExtendI32U,
    I64Extend32S,
    // Reference and table instructions.
    TypedSelect(ValType),
    RefNull(ValType),
    RefIsNull,
    RefFunc(u32),
    TableInit { segment: u32, table: u32 },
    ElemDrop { segment: u32 },
    TableFill { table: u32 },
    TableSet { table: u32 },
    TableGet { table: u32 },
    TableGrow { table: u32 },
    TableSize { table: u32 },
    TableCopy { src: u32, dst: u32 },
}

/// The view of an [`Instruction`]: the same variants, with the label list of
/// `BrTable` as a sequence.
#[allow(non_camel_case_types)]
pub enum InstructionView {
    Unreachable,
    Nop,
    Block(BlockType),
    Loop(BlockType),
    If(BlockType),
    Else,
    End,
    Br(u32),
    BrIf(u32),
    BrTable(Seq<u32>, u32),
    Return,
    Call(u32),
    CallIndirect { ty: u32, table: u32 },
    Drop,
    Select,
    LocalGet(u32),
    LocalSet(u32),
    LocalTee(u32),
    GlobalGet(u32),
    GlobalSet(u32),
    I32Load(MemArg),
    I64Load(MemArg),
    I32Load8_S(MemArg),
    I32Load8_U(MemArg),
    I32Load16_S(MemArg),
    I32Load16_U(MemArg),
    I64Load8_S(MemArg),
    I64Load8_U(MemArg),
    I64Load16_S(MemArg),
    I64Load16_U(MemArg),
    I64Load32_S(MemArg),
    I64Load32_U(MemArg),
    I32Store(MemArg),
    I64Store(MemArg),
    I32Store8(MemArg),
    I32Store16(MemArg),
    I64Store8(MemArg),
    I64Store16(MemArg),
    I64Store32(MemArg),
    MemorySize(u32),
    MemoryGrow(u32),
    MemoryInit { mem: u32, data: u32 },
    DataDrop(u32),
    MemoryCopy { src: u32, dst: u32 },
    MemoryFill(u32),
    I32Const(i32),
    I64Const(i64),
    I32Eqz,
    I32Eq,
    I32Neq,
    I32LtS,
    I32LtU,
    I32GtS,
    I32GtU,
    I32LeS,
    I32LeU,
    I32GeS,
    I32GeU,
    I64Eqz,
    I64Eq,
    I64Neq,
    I64LtS,
    I64LtU,
    I64GtS,
    I64GtU,
    I64LeS,
    I64LeU,
    I64GeS,
    I64GeU,
    I32Clz,
    I32Ctz,
    I32Popcnt,
    I32Add,
    I32Sub,
    I32Mul,
    I32DivS,
    I32DivU,
    I32RemS,
    I32RemU,
    I32And,
    I32Or,
    I32Xor,
    I32Shl,
    I32ShrS,
    I32ShrU,
    I32Rotl,
    I32Rotr,
    I64Clz,
    I64Ctz,
    I64Popcnt,
    I64Add,
    I64Sub,
    I64Mul,
    I64DivS,
    I64DivU,
    I64RemS,
    I64RemU,
    I64And,
    I64Or,
    I64Xor,
    I64Shl,
    I64ShrS,
    I64ShrU,
    I64Rotl,
    I64Rotr,
    I32WrapI64,
    I64ExtendI32S,
    I64ExtendI32U,
    I64Extend32S,
    TypedSelect(ValType),
    RefNull(ValType),
    RefIsNull,
    RefFunc(u32),
    TableInit { segment: u32, table: u32 },
    ElemDrop { segment: u32 },
    TableFill { table: u32 },
    TableSet { table: u32 },
    TableGet { table: u32 },
    TableGrow { table: u32 },
    TableSize { table: u32 },
    TableCopy { src: u32, dst: u32 },
}

impl View for Instruction {
    type V = InstructionView;

    open spec fn view(&self) -> InstructionView {
        match *self {
            Instruction::Unreachable => InstructionView::Unreachable,
            Instruction::Nop => InstructionView::Nop,
            Instruction::Block(bt) => InstructionView::Block(bt),
            Instruction::Loop(bt) => InstructionView::Loop(bt),
            Instruction::If(bt) => InstructionView::If(bt),
            Instruction::Else => InstructionView::Else,
            Instruction::End => InstructionView::End,
            Instruction::Br(x) => InstructionView::Br(x),
            Instruction::BrIf(x) => InstructionView::BrIf(x),
            Instruction::BrTable(labels, default) => InstructionView::BrTable(labels@, default),
            Instruction::Return => InstructionView::Return,
            Instruction::Call(x) => InstructionView::Call(x),
            Instruction::CallIndirect { ty, table } => InstructionView::CallIndirect { ty, table },
            Instruction::Drop => InstructionView::Drop,
            Instruction::Select => InstructionView::Select,
            Instruction::LocalGet(x) => InstructionView::LocalGet(x),
            Instruction::LocalSet(x) => InstructionView::LocalSet(x),
            Instruction::LocalTee(x) => InstructionView::LocalTee(x),
            Instruction::GlobalGet(x) => InstructionView::GlobalGet(x),
            Instruction::GlobalSet(x) => InstructionView::GlobalSet(x),
            Instruction::I32Load(m) => InstructionView::I32Load(m),
            Instruction::I64Load(m) => InstructionView::I64Load(m),
            Instruction::I32Load8_S(m) => InstructionView::I32Load8_S(m),
            Instruction::I32Load8_U(m) => InstructionView::I32Load8_U(m),
            Instruction::I32Load16_S(m) => InstructionView::I32Load16_S(m),
            Instruction::I32Load16_U(m) => InstructionView::I32Load16_U(m),
            Instruction::I64Load8_S(m) => InstructionView::I64Load8_S(m),
            Instruction::I64Load8_U(m) => InstructionView::I64Load8_U(m),
            Instruction::I64Load16_S(m) => InstructionView::I64Load16_S(m),
            Instruction::I64Load16_U(m) => InstructionView::I64Load16_U(m),
            Instruction::I64Load32_S(m) => InstructionView::I64Load32_S(m),
            Instruction::I64Load32_U(m) => InstructionView::I64Load32_U(m),
            Instruction::I32Store(m) => InstructionView::I32Store(m),
            Instruction::I64Store(m) => InstructionView::I64Store(m),
            Instruction::I32Store8(m) => InstructionView::I32Store8(m),
            Instruction::I32Store16(m) => InstructionView::I32Store16(m),
            Instruction::I64Store8(m) => InstructionView::I64Store8(m),
            Instruction::I64Store16(m) => InstructionView::I64Store16(m),
            Instruction::I64Store32(m) => InstructionView::I64Store32(m),
            Instruction::MemorySize(x) => InstructionView::MemorySize(x),
            Instruction::MemoryGrow(x) => InstructionView::MemoryGrow(x),
            Instruction::MemoryInit { mem, data } => InstructionView::MemoryInit { mem, data },
            Instruction::DataDrop(x) => InstructionView::DataDrop(x),
            Instruction::MemoryCopy { src, dst } => InstructionView::MemoryCopy { src, dst },
            Instruction::MemoryFill(x) => InstructionView::MemoryFill(x),
            Instruction::I32Const(x) => InstructionView::I32Const(x),
            Instruction::I64Const(x) => InstructionView::I64Const(x),
            Instruction::I32Eqz => InstructionView::I32Eqz,
            Instruction::I32Eq => InstructionView::I32Eq,
            Instruction::I32Neq => InstructionView::I32Neq,
            Instruction::I32LtS => InstructionView::I32LtS,
            Instruction::I32LtU => InstructionView::I32LtU,
            Instruction::I32GtS => InstructionView::I32GtS,
            Instruction::I32GtU => InstructionView::I32GtU,
            Instruction::I32LeS => InstructionView::I32LeS,
            Instruction::I32LeU => InstructionView::I32LeU,
            Instruction::I32GeS => InstructionView::I32GeS,
            Instruction::I32GeU => InstructionView::I32GeU,
            Instruction::I64Eqz => InstructionView::I64Eqz,
            Instruction::I64Eq => InstructionView::I64Eq,
            Instruction::I64Neq => InstructionView::I64Neq,
            Instruction::I64LtS => InstructionView::I64LtS,
            Instruction::I64LtU => InstructionView::I64LtU,
            Instruction::I64GtS => InstructionView::I64GtS,
            Instruction::I64GtU => InstructionView::I64GtU,
            Instruction::I64LeS => InstructionView::I64LeS,
            Instruction::I64LeU => InstructionView::I64LeU,
            Instruction::I64GeS => InstructionView::I64GeS,
            Instruction::I64GeU => InstructionView::I64GeU,
            Instruction::I32Clz => InstructionView::I32Clz,
            Instruction::I32Ctz => InstructionView::I32Ctz,
            Instruction::I32Popcnt => InstructionView::I32Popcnt,
            Instruction::I32Add => InstructionView::I32Add,
            Instruction::I32Sub => InstructionView::I32Sub,
            Instruction::I32Mul => InstructionView::I32Mul,
            Instruction::I32DivS => InstructionView::I32DivS,
            Instruction::I32DivU => InstructionView::I32DivU,
            Instruction::I32RemS => InstructionView::I32RemS,
            Instruction::I32RemU => InstructionView::I32RemU,
            Instruction::I32And => InstructionView::I32And,
            Instruction::I32Or => InstructionView::I32Or,
            Instruction::I32Xor => InstructionView::I32Xor,
            Instruction::I32Shl => InstructionView::I32Shl,
            Instruction::I32ShrS => InstructionView::I32ShrS,
            Instruction::I32ShrU => InstructionView::I32ShrU,
            Instruction::I32Rotl => InstructionView::I32Rotl,
            Instruction::I32Rotr => InstructionView::I32Rotr,
            Instruction::I64Clz => InstructionView::I64Clz,
            Instruction::I64Ctz => InstructionView::I64Ctz,
            Instruction::I64Popcnt => InstructionView::I64Popcnt,
            Instruction::I64Add => InstructionView::I64Add,
            Instruction::I64Sub => InstructionView::I64Sub,
            Instruction::I64Mul => InstructionView::I64Mul,
            Instruction::I64DivS => InstructionView::I64DivS,
            Instruction::I64DivU => InstructionView::I64DivU,
            Instruction::I64RemS => InstructionView::I64RemS,
            Instruction::I64RemU => InstructionView::I64RemU,
            Instruction::I64And => InstructionView::I64And,
            Instruction::I64Or => InstructionView::I64Or,
            Instruction::I64Xor => InstructionView::I64Xor,
            Instruction::I64Shl => InstructionView::I64Shl,
            Instruction::I64ShrS => InstructionView::I64ShrS,
            Instruction::I64ShrU => InstructionView::I64ShrU,
            Instruction::I64Rotl => InstructionView::I64Rotl,
            Instruction::I64Rotr => InstructionView::I64Rotr,
            Instruction::I32WrapI64 => InstructionView::I32WrapI64,
            Instruction::I64ExtendI32S => InstructionView::I64ExtendI32S,
            Instruction::I64ExtendI32U => InstructionView::I64ExtendI32U,
            Instruction::I64Extend32S => InstructionView::I64Extend32S,
            Instruction::TypedSelect(ty) => InstructionView::TypedSelect(ty),
            Instruction::RefNull(ty) => InstructionView::RefNull(ty),
            Instruction::RefIsNull => InstructionView::RefIsNull,
            Instruction::RefFunc(x) => InstructionView::RefFunc(x),
            Instruction::TableInit { segment, table } => InstructionView::TableInit {
                segment,
                table,
            },
            Instruction::ElemDrop { segment } => InstructionView::ElemDrop { segment },
            Instruction::TableFill { table } => InstructionView::TableFill { table },
            Instruction::TableSet { table } => InstructionView::TableSet { table },
            Instruction::TableGet { table } => InstructionView::TableGet { table },
            Instruction::TableGrow { table } => InstructionView::TableGrow { table },
            Instruction::TableSize { table } => InstructionView::TableSize { table },
            Instruction::TableCopy { src, dst } => InstructionView::TableCopy { src, dst },
        }
    }
}

/// The classes of instructions.
#[derive(Clone, Copy, Debug, PartialEq, Eq, Hash, Structural)]
pub enum InstructionClass {
    Control,
    Variable,
    Memory,
    Reference,
    Table,
    Numeric,
}

/// The class of an instruction.
pub open spec fn class_of(i: InstructionView) -> InstructionClass {
    match i {
        InstructionView::Unreachable | InstructionView::Nop | InstructionView::Block(_)
        | InstructionView::Loop(_) | InstructionView::If(_) | InstructionView::Else
        | InstructionView::End | InstructionView::Br(_) | InstructionView::BrIf(_)
        | InstructionView::BrTable(_, _) | InstructionView::Return | InstructionView::Call(_)
        | InstructionView::CallIndirect { .. } | InstructionView::Drop | InstructionView::Select
        => InstructionClass::Control,
        InstructionView::LocalGet(_) | InstructionView::LocalSet(_)
        | InstructionView::LocalTee(_) | InstructionView::GlobalGet(_)
        | InstructionView::GlobalSet(_) => InstructionClass::Variable,
        InstructionView::I32Load(_) | InstructionView::I64Load(_)
        | InstructionView::I32Load8_S(_) | InstructionView::I32Load8_U(_)
        | InstructionView::I32Load16_S(_) | InstructionView::I32Load16_U(_)
        | InstructionView::I64Load8_S(_) | InstructionView::I64Load8_U(_)
        | InstructionView::I64Load16_S(_) | InstructionView::I64Load16_U(_)
        | InstructionView::I64Load32_S(_) | InstructionView::I64Load32_U(_)
        | InstructionView::I32Store(_) | InstructionView::I64Store(_)
        | InstructionView::I32Store8(_) | InstructionView::I32Store16(_)
        | InstructionView::I64Store8(_) | InstructionView::I64Store16(_)
        | InstructionView::I64Store32(_) | InstructionView::MemorySize(_)
        | InstructionView::MemoryGrow(_) | InstructionView::MemoryInit { .. }
        | InstructionView::DataDrop(_) | InstructionView::MemoryCopy { .. }
        | InstructionView::MemoryFill(_) => InstructionClass::Memory,
        InstructionView::TypedSelect(_) | InstructionView::RefNull(_)
        | InstructionView::RefIsNull | InstructionView::RefFunc(_) => InstructionClass::Reference,
        InstructionView::TableInit { .. } | InstructionView::ElemDrop { .. }
        | InstructionView::TableFill { .. } | InstructionView::TableSet { .. }
        | InstructionView::TableGet { .. } | InstructionView::TableGrow { .. }
        | InstructionView::TableSize { .. } | InstructionView::TableCopy { .. }
        => InstructionClass::Table,
        _ => InstructionClass::Numeric,
    }
}

/// The class of an instruction.
pub fn class(inst: &Instruction) -> (r: InstructionClass)
    ensures
        r == class_of(inst@),
{
    match inst {
        Instruction::Unreachable | Instruction::Nop | Instruction::Block(_)
        | Instruction::Loop(_) | Instruction::If(_) | Instruction::Else | Instruction::End
        | Instruction::Br(_) | Instruction::BrIf(_) | Instruction::BrTable(_, _)
        | Instruction::Return | Instruction::Call(_) | Instruction::CallIndirect { .. }
        | Instruction::Drop | Instruction::Select => InstructionClass::Control,
        Instruction::LocalGet(_) | Instruction::LocalSet(_) | Instruction::LocalTee(_)
        | Instruction::GlobalGet(_) | Instruction::GlobalSet(_) => InstructionClass::Variable,
        Instruction::I32Load(_) | Instruction::I64Load(_) | Instruction::I32Load8_S(_)
        | Instruction::I32Load8_U(_) | Instruction::I32Load16_S(_) | Instruction::I32Load16_U(_)
        | Instruction::I64Load8_S(_) | Instruction::I64Load8_U(_) | Instruction::I64Load16_S(_)
        | Instruction::I64Load16_U(_) | Instruction::I64Load32_S(_)
        | Instruction::I64Load32_U(_) | Instruction::I32Store(_) | Instruction::I64Store(_)
        | Instruction::I32Store8(_) | Instruction::I32Store16(_) | Instruction::I64Store8(_)
        | Instruction::I64Store16(_) | Instruction::I64Store32(_) | Instruction::MemorySize(_)
        | Instruction::MemoryGrow(_) | Instruction::MemoryInit { .. } | Instruction::DataDrop(_)
        | Instruction::MemoryCopy { .. } | Instruction::MemoryFill(_) => InstructionClass::Memory,
        Instruction::TypedSelect(_) | Instruction::RefNull(_) | Instruction::RefIsNull
        | Instruction::RefFunc(_) => InstructionClass::Reference,
        Instruction::TableInit { .. } | Instruction::ElemDrop { .. }
        | Instruction::TableFill { .. } | Instruction::TableSet { .. }
        | Instruction::TableGet { .. } | Instruction::TableGrow { .. }
        | Instruction::TableSize { .. } | Instruction::TableCopy { .. }
        => InstructionClass::Table,
        _ => InstructionClass::Numeric,
    }
}

/// The views of the items of a sequence, in order.
pub open spec fn seq_view<T: View>(s: Seq<T>) -> Seq<T::V> {
    Seq::new(s.len(), |i: int| s[i]@)
}

/// The view of a sequence grows with the sequence.
pub proof fn seq_view_push<T: View>(s: Seq<T>, x: T)
    ensures
        seq_view(s.push(x)) == seq_view(s).push(x@),
{
    assert(seq_view(s.push(x)) =~= seq_view(s).push(x@));
}

} // verus!

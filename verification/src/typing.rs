//! The validator for function bodies.
//!
//! The validator walks the instructions of a body and keeps the types of the
//! operand stack and the open control frames, as validation does. Inside
//! code that cannot be reached the stack is polymorphic: below the values
//! that are there, the innermost frame supplies operands of unknown type.

use crate::types::{
    BlockType, FuncTypeView, GlobalType, InstructionClass, InstructionView, MemArg, MemoryType,
    TableType, ValType,
};
use vstd::prelude::*;

verus! {

/// What opened a control frame.
#[derive(Clone, Copy, Debug, PartialEq, Eq, Hash, Structural)]
pub enum FrameKind {
    /// A block, or the body of the function itself.
    Block,
    Loop,
    If,
    Else,
}

/// The view of a control [`Frame`].
pub struct FrameView {
    pub kind: FrameKind,
    /// The types that the frame starts with.
    pub params: Seq<ValType>,
    /// The types that the frame ends with.
    pub results: Seq<ValType>,
    /// The height of the operand stack where the frame was entered.
    pub height: nat,
    /// Whether the rest of the frame cannot be reached.
    pub unreachable: bool,
}

impl FrameView {
    /// The types that a branch to this frame carries: the start types of a
    /// loop, and the end types of every other frame.
    pub open spec fn label_types(self) -> Seq<ValType> {
        if self.kind is Loop {
            self.params
        } else {
            self.results
        }
    }
}

/// The view of a [`Validator`]: the types on the operand stack, `None` for a
/// type that is not known, and the open frames, the innermost last.
pub struct StackView {
    pub vals: Seq<Option<ValType>>,
    pub frames: Seq<FrameView>,
}

/// Value types as operands of known type.
pub open spec fn known(ts: Seq<ValType>) -> Seq<Option<ValType>> {
    Seq::new(ts.len(), |i: int| Some(ts[i]))
}

/// The type that is `k` places below the last one of `ts`.
pub open spec fn operand(ts: Seq<ValType>, k: int) -> ValType {
    ts[ts.len() - 1 - k]
}

/// Whether what was found on the stack serves as an operand of type `t`.
pub open spec fn fits(found: Option<Option<ValType>>, t: ValType) -> bool {
    match found {
        Some(Some(a)) => a == t,
        Some(None) => true,
        None => false,
    }
}

impl StackView {
    /// The innermost frame.
    pub open spec fn top(self) -> FrameView {
        self.frames.last()
    }

    /// The frame that the label `l` names.
    pub open spec fn frame(self, l: u32) -> FrameView {
        self.frames[self.frames.len() - 1 - l]
    }

    /// The number of values that the innermost frame has on the stack.
    pub open spec fn avail(self) -> int {
        self.vals.len() - self.top().height
    }

    /// The heights of the frames do not decrease, the stack is not below
    /// the innermost frame, and the outermost frame, that of the body, is
    /// not an `if`.
    pub open spec fn wf(self) -> bool {
        &&& forall|i: int, j: int|
            0 <= i <= j < self.frames.len() ==> (#[trigger] self.frames[i]).height <= (
            #[trigger] self.frames[j]).height
        &&& self.frames.len() > 0 ==> self.top().height <= self.vals.len()
        &&& self.frames.len() > 0 ==> !(self.frames[0].kind is If)
    }

    /// The operand `k` places below the top: a value of the innermost
    /// frame, or an operand of unknown type where the values have run out
    /// and the frame cannot be reached, or nothing.
    pub open spec fn peek(self, k: int) -> Option<Option<ValType>> {
        if k < self.avail() {
            Some(self.vals[self.vals.len() - 1 - k])
        } else if self.top().unreachable {
            Some(None)
        } else {
            None
        }
    }

    /// Whether operands of the types `ts` are on the stack below the
    /// topmost `skip` operands, the last type uppermost.
    pub open spec fn has_at(self, skip: int, ts: Seq<ValType>) -> bool {
        forall|k: int|
            0 <= k < ts.len() ==> fits(self.peek(skip + k), #[trigger] operand(ts, k))
    }

    /// Whether operands of the types `ts` are on top of the stack.
    pub open spec fn has(self, ts: Seq<ValType>) -> bool {
        self.has_at(0, ts)
    }

    /// The stack without its topmost `n` operands. Operands that the frame
    /// only supplied leave nothing behind.
    pub open spec fn popped(self, n: int) -> StackView {
        StackView {
            vals: self.vals.take(
                if self.avail() >= n {
                    self.vals.len() - n
                } else {
                    self.top().height as int
                },
            ),
            frames: self.frames,
        }
    }

    /// The stack with values of the types `ts` on top.
    pub open spec fn pushed(self, ts: Seq<ValType>) -> StackView {
        StackView { vals: self.vals + known(ts), frames: self.frames }
    }

    /// The stack after an instruction that does not return: the values of
    /// the innermost frame are gone, and the frame cannot be reached.
    pub open spec fn stopped(self) -> StackView {
        StackView {
            vals: self.vals.take(self.top().height as int),
            frames: self.frames.update(
                self.frames.len() - 1,
                FrameView { unreachable: true, ..self.top() },
            ),
        }
    }

    /// Whether the innermost frame can end here: its end types are on the
    /// stack, and nothing else of the frame is.
    pub open spec fn frame_done(self) -> bool {
        self.has(self.top().results) && self.avail() <= self.top().results.len()
    }
}

/// The view of a [`Context`]: what a function body can refer to.
pub struct ContextView {
    pub types: Seq<FuncTypeView>,
    /// The type index of every function.
    pub funcs: Seq<u32>,
    pub tables: Seq<TableType>,
    pub memories: Seq<MemoryType>,
    pub globals: Seq<GlobalType>,
    /// The type of every element segment.
    pub elems: Seq<ValType>,
    /// The number of data segments.
    pub data: nat,
    /// For every function, whether `ref.func` may name it.
    pub declared: Seq<bool>,
    /// The parameters of the function and its declared locals.
    pub locals: Seq<ValType>,
    /// The result types of the function.
    pub results: Seq<ValType>,
    pub bulk_memory: bool,
    pub reference_types: bool,
}

/// What an instruction does to the stack and the frames.
pub enum Effect {
    /// Takes operands of the types `ins` and leaves values of the types
    /// `outs`.
    Plain { ins: Seq<ValType>, outs: Seq<ValType> },
    Drop,
    Select,
    RefIsNull,
    Unreachable,
    /// Enters a frame; an `If` takes its condition first.
    Enter { kind: FrameKind, ins: Seq<ValType>, outs: Seq<ValType> },
    Else,
    End,
    Br { label: u32 },
    BrIf { label: u32 },
    BrTable { labels: Seq<u32>, default: u32 },
    Return,
}

/// Whether the function index `x` is in range, and so is the index of its
/// type.
pub open spec fn func_ok(c: ContextView, x: u32) -> bool {
    x < c.funcs.len() && c.funcs[x as int] < c.types.len()
}

/// The type of the function `x`.
pub open spec fn func_type(c: ContextView, x: u32) -> FuncTypeView {
    c.types[c.funcs[x as int] as int]
}

/// Whether `table` is the index of a table of function references.
pub open spec fn funcref_table(c: ContextView, table: u32) -> bool {
    table < c.tables.len() && c.tables[table as int].elem_ty == ValType::FuncRef
}

/// Whether a memory access names a memory that is there and is aligned no
/// more than naturally: `max_align` is the logarithm of its width in bytes.
pub open spec fn mem_ok(c: ContextView, m: MemArg, max_align: u32) -> bool {
    m.memory_index < c.memories.len() && m.align <= max_align
}

/// The start and end types of a block type, if it is valid.
pub open spec fn block_sig(c: ContextView, bt: BlockType) -> Option<(Seq<ValType>, Seq<ValType>)> {
    match bt {
        BlockType::Empty => Some((Seq::empty(), Seq::empty())),
        BlockType::Result(t) => Some((Seq::empty(), seq![t])),
        BlockType::FuncType(f) => if f < c.types.len() {
            Some((c.types[f as int].params, c.types[f as int].results()))
        } else {
            None
        },
    }
}

/// The effect of entering a frame of the given kind and block type.
pub open spec fn enter(c: ContextView, kind: FrameKind, bt: BlockType) -> Option<Effect> {
    match block_sig(c, bt) {
        Some(s) => Some(Effect::Enter { kind, ins: s.0, outs: s.1 }),
        None => None,
    }
}

/// The effect of an instruction with fixed operand and result types.
pub open spec fn plain(ins: Seq<ValType>, outs: Seq<ValType>) -> Option<Effect> {
    Some(Effect::Plain { ins, outs })
}

/// The effect of a control instruction, a call, or a parametric instruction; `None` for every other
/// instruction.
pub open spec fn control_effect(c: ContextView, i: InstructionView) -> Option<Effect> {
    match i {
        InstructionView::Unreachable => Some(Effect::Unreachable),
        InstructionView::Nop => plain(Seq::empty(), Seq::empty()),
        InstructionView::Block(bt) => enter(c, FrameKind::Block, bt),
        InstructionView::Loop(bt) => enter(c, FrameKind::Loop, bt),
        InstructionView::If(bt) => enter(c, FrameKind::If, bt),
        InstructionView::Else => Some(Effect::Else),
        InstructionView::End => Some(Effect::End),
        InstructionView::Br(x) => Some(Effect::Br { label: x }),
        InstructionView::BrIf(x) => Some(Effect::BrIf { label: x }),
        InstructionView::BrTable(labels, default) => Some(Effect::BrTable { labels, default }),
        InstructionView::Return => Some(Effect::Return),
        InstructionView::Call(x) => if func_ok(c, x) {
            plain(func_type(c, x).params, func_type(c, x).results())
        } else {
            None
        },
        InstructionView::CallIndirect { ty, table } => {
            if ty < c.types.len() && funcref_table(c, table) {
                plain(c.types[ty as int].params.push(ValType::I32), c.types[ty as int].results())
            } else {
                None
            }
        },
        InstructionView::Drop => Some(Effect::Drop),
        InstructionView::Select => Some(Effect::Select),
        _ => None,
    }
}

/// The effect of an instruction on a local or a global; `None` for every other
/// instruction.
pub open spec fn variable_effect(c: ContextView, i: InstructionView) -> Option<Effect> {
    match i {
        InstructionView::LocalGet(x) => if x < c.locals.len() {
            plain(Seq::empty(), seq![c.locals[x as int]])
        } else {
            None
        },
        InstructionView::LocalSet(x) => if x < c.locals.len() {
            plain(seq![c.locals[x as int]], Seq::empty())
        } else {
            None
        },
        InstructionView::LocalTee(x) => if x < c.locals.len() {
            plain(seq![c.locals[x as int]], seq![c.locals[x as int]])
        } else {
            None
        },
        InstructionView::GlobalGet(x) => if x < c.globals.len() {
            plain(Seq::empty(), seq![c.globals[x as int].val_type])
        } else {
            None
        },
        InstructionView::GlobalSet(x) => if x < c.globals.len() && c.globals[x as int].mutable {
            plain(seq![c.globals[x as int].val_type], Seq::empty())
        } else {
            None
        },
        _ => None,
    }
}

/// The effect of a memory instruction; `None` for every other
/// instruction.
pub open spec fn memory_effect(c: ContextView, i: InstructionView) -> Option<Effect> {
    match i {
        InstructionView::I32Load(m) => if mem_ok(c, m, 2) {
            plain(seq![ValType::I32], seq![ValType::I32])
        } else {
            None
        },
        InstructionView::I64Load(m) => if mem_ok(c, m, 3) {
            plain(seq![ValType::I32], seq![ValType::I64])
        } else {
            None
        },
        InstructionView::I32Load8_S(m) | InstructionView::I32Load8_U(m) => if mem_ok(c, m, 0) {
            plain(seq![ValType::I32], seq![ValType::I32])
        } else {
            None
        },
        InstructionView::I32Load16_S(m) | InstructionView::I32Load16_U(m) => if mem_ok(c, m, 1) {
            plain(seq![ValType::I32], seq![ValType::I32])
        } else {
            None
        },
        InstructionView::I64Load8_S(m) | InstructionView::I64Load8_U(m) => if mem_ok(c, m, 0) {
            plain(seq![ValType::I32], seq![ValType::I64])
        } else {
            None
        },
        InstructionView::I64Load16_S(m) | InstructionView::I64Load16_U(m) => if mem_ok(c, m, 1) {
            plain(seq![ValType::I32], seq![ValType::I64])
        } else {
            None
        },
        InstructionView::I64Load32_S(m) | InstructionView::I64Load32_U(m) => if mem_ok(c, m, 2) {
            plain(seq![ValType::I32], seq![ValType::I64])
        } else {
            None
        },
        InstructionView::I32Store(m) => if mem_ok(c, m, 2) {
            plain(seq![ValType::I32, ValType::I32], Seq::empty())
        } else {
            None
        },
        InstructionView::I64Store(m) => if mem_ok(c, m, 3) {
            plain(seq![ValType::I32, ValType::I64], Seq::empty())
        } else {
            None
        },
        InstructionView::I32Store8(m) => if mem_ok(c, m, 0) {
            plain(seq![ValType::I32, ValType::I32], Seq::empty())
        } else {
            None
        },
        InstructionView::I32Store16(m) => if mem_ok(c, m, 1) {
            plain(seq![ValType::I32, ValType::I32], Seq::empty())
        } else {
            None
        },
        InstructionView::I64Store8(m) => if mem_ok(c, m, 0) {
            plain(seq![ValType::I32, ValType::I64], Seq::empty())
        } else {
            None
        },
        InstructionView::I64Store16(m) => if mem_ok(c, m, 1) {
            plain(seq![ValType::I32, ValType::I64], Seq::empty())
        } else {
            None
        },
        InstructionView::I64Store32(m) => if mem_ok(c, m, 2) {
            plain(seq![ValType::I32, ValType::I64], Seq::empty())
        } else {
            None
        },
        InstructionView::MemorySize(x) => if x < c.memories.len() {
            plain(Seq::empty(), seq![ValType::I32])
        } else {
            None
        },
        InstructionView::MemoryGrow(x) => if x < c.memories.len() {
            plain(seq![ValType::I32], seq![ValType::I32])
        } else {
            None
        },
        InstructionView::MemoryInit { mem, data } => {
            if c.bulk_memory && mem < c.memories.len() && data < c.data {
                plain(seq![ValType::I32, ValType::I32, ValType::I32], Seq::empty())
            } else {
                None
            }
        },
        InstructionView::DataDrop(x) => if c.bulk_memory && x < c.data {
            plain(Seq::empty(), Seq::empty())
        } else {
            None
        },
        InstructionView::MemoryCopy { src, dst } => {
            if c.bulk_memory && src < c.memories.len() && dst < c.memories.len() {
                plain(seq![ValType::I32, ValType::I32, ValType::I32], Seq::empty())
            } else {
                None
            }
        },
        InstructionView::MemoryFill(x) => if c.bulk_memory && x < c.memories.len() {
            plain(seq![ValType::I32, ValType::I32, ValType::I32], Seq::empty())
        } else {
            None
        },
        _ => None,
    }
}

/// The effect of an instruction on references; `None` for every other
/// instruction.
pub open spec fn reference_effect(c: ContextView, i: InstructionView) -> Option<Effect> {
    match i {
        InstructionView::TypedSelect(ty) => if c.reference_types {
            plain(seq![ty, ty, ValType::I32], seq![ty])
        } else {
            None
        },
        InstructionView::RefNull(ty) => if c.reference_types && ty.is_ref() {
            plain(Seq::empty(), seq![ty])
        } else {
            None
        },
        InstructionView::RefIsNull => if c.reference_types {
            Some(Effect::RefIsNull)
        } else {
            None
        },
        InstructionView::RefFunc(x) => {
            if c.reference_types && x < c.funcs.len() && x < c.declared.len()
                && c.declared[x as int] {
                plain(Seq::empty(), seq![ValType::FuncRef])
            } else {
                None
            }
        },
        _ => None,
    }
}

/// The effect of an instruction on tables or element segments; `None` for every other
/// instruction.
pub open spec fn table_effect(c: ContextView, i: InstructionView) -> Option<Effect> {
    match i {
        InstructionView::TableInit { segment, table } => {
            if c.bulk_memory && table < c.tables.len() && segment < c.elems.len()
                && c.elems[segment as int] == c.tables[table as int].elem_ty {
                plain(seq![ValType::I32, ValType::I32, ValType::I32], Seq::empty())
            } else {
                None
            }
        },
        InstructionView::ElemDrop { segment } => if c.bulk_memory && segment < c.elems.len() {
            plain(Seq::empty(), Seq::empty())
        } else {
            None
        },
        InstructionView::TableFill { table } => if c.reference_types && table < c.tables.len() {
            plain(seq![ValType::I32, c.tables[table as int].elem_ty, ValType::I32], Seq::empty())
        } else {
            None
        },
        InstructionView::TableSet { table } => if c.reference_types && table < c.tables.len() {
            plain(seq![ValType::I32, c.tables[table as int].elem_ty], Seq::empty())
        } else {
            None
        },
        InstructionView::TableGet { table } => if c.reference_types && table < c.tables.len() {
            plain(seq![ValType::I32], seq![c.tables[table as int].elem_ty])
        } else {
            None
        },
        InstructionView::TableGrow { table } => if c.reference_types && table < c.tables.len() {
            plain(seq![c.tables[table as int].elem_ty, ValType::I32], seq![ValType::I32])
        } else {
            None
        },
        InstructionView::TableSize { table } => if c.reference_types && table < c.tables.len() {
            plain(Seq::empty(), seq![ValType::I32])
        } else {
            None
        },
        InstructionView::TableCopy { src, dst } => {
            if c.bulk_memory && src < c.tables.len() && dst < c.tables.len()
                && c.tables[src as int].elem_ty == c.tables[dst as int].elem_ty {
                plain(seq![ValType::I32, ValType::I32, ValType::I32], Seq::empty())
            } else {
                None
            }
        },
        _ => None,
    }
}

/// The effect of a numeric instruction; `None` for every other
/// instruction.
pub open spec fn numeric_effect(i: InstructionView) -> Option<Effect> {
    match i {
        InstructionView::I32Const(_) => plain(Seq::empty(), seq![ValType::I32]),
        InstructionView::I64Const(_) => plain(Seq::empty(), seq![ValType::I64]),
        InstructionView::I32Eqz | InstructionView::I32Clz | InstructionView::I32Ctz
        | InstructionView::I32Popcnt => plain(seq![ValType::I32], seq![ValType::I32]),
        InstructionView::I32Eq | InstructionView::I32Neq | InstructionView::I32LtS
        | InstructionView::I32LtU | InstructionView::I32GtS | InstructionView::I32GtU
        | InstructionView::I32LeS | InstructionView::I32LeU | InstructionView::I32GeS
        | InstructionView::I32GeU | InstructionView::I32Add | InstructionView::I32Sub
        | InstructionView::I32Mul | InstructionView::I32DivS | InstructionView::I32DivU
        | InstructionView::I32RemS | InstructionView::I32RemU | InstructionView::I32And
        | InstructionView::I32Or | InstructionView::I32Xor | InstructionView::I32Shl
        | InstructionView::I32ShrS | InstructionView::I32ShrU | InstructionView::I32Rotl
        | InstructionView::I32Rotr => plain(seq![ValType::I32, ValType::I32], seq![ValType::I32]),
        InstructionView::I64Eqz | InstructionView::I32WrapI64 => plain(
            seq![ValType::I64], seq![ValType::I32],
        ),
        InstructionView::I64Eq | InstructionView::I64Neq | InstructionView::I64LtS
        | InstructionView::I64LtU | InstructionView::I64GtS | InstructionView::I64GtU
        | InstructionView::I64LeS | InstructionView::I64LeU | InstructionView::I64GeS
        | InstructionView::I64GeU => plain(seq![ValType::I64, ValType::I64], seq![ValType::I32]),
        InstructionView::I64Clz | InstructionView::I64Ctz | InstructionView::I64Popcnt
        | InstructionView::I64Extend32S => plain(seq![ValType::I64], seq![ValType::I64]),
        InstructionView::I64Add | InstructionView::I64Sub | InstructionView::I64Mul
        | InstructionView::I64DivS | InstructionView::I64DivU | InstructionView::I64RemS
        | InstructionView::I64RemU | InstructionView::I64And | InstructionView::I64Or
        | InstructionView::I64Xor | InstructionView::I64Shl | InstructionView::I64ShrS
        | InstructionView::I64ShrU | InstructionView::I64Rotl | InstructionView::I64Rotr => plain(
            seq![ValType::I64, ValType::I64], seq![ValType::I64],
        ),
        InstructionView::I64ExtendI32S | InstructionView::I64ExtendI32U => plain(
            seq![ValType::I32], seq![ValType::I64],
        ),
        _ => None,
    }
}

/// The effect of an instruction in a context, or `None` where the
/// instruction refers to something that the context does not have.
pub open spec fn effect(c: ContextView, i: InstructionView) -> Option<Effect> {
    match crate::types::class_of(i) {
        InstructionClass::Control => control_effect(c, i),
        InstructionClass::Variable => variable_effect(c, i),
        InstructionClass::Memory => memory_effect(c, i),
        InstructionClass::Reference => reference_effect(c, i),
        InstructionClass::Table => table_effect(c, i),
        InstructionClass::Numeric => numeric_effect(i),
    }
}

/// Whether an operand is of a numeric type or of unknown type.
pub open spec fn numeric_operand(o: Option<ValType>) -> bool {
    match o {
        Some(t) => t.is_num(),
        None => true,
    }
}

/// Whether the labels of a `br_table` are all in range and carry as many
/// types as `arity`, and the stack below the index has the types of each.
pub open spec fn labels_ok(st: StackView, labels: Seq<u32>, arity: nat) -> bool {
    forall|j: int|
        0 <= j < labels.len() ==> label_ok(st, #[trigger] labels[j], arity)
}

/// Whether one label of a `br_table` is in range and carries as many types
/// as `arity`, and the stack below the index has its types.
pub open spec fn label_ok(st: StackView, label: u32, arity: nat) -> bool {
    &&& label < st.frames.len()
    &&& st.frame(label).label_types().len() == arity
    &&& st.has_at(1, st.frame(label).label_types())
}

/// Whether an effect is admissible in a state.
pub open spec fn admissible(c: ContextView, st: StackView, e: Effect) -> bool {
    st.frames.len() > 0 && match e {
        Effect::Plain { ins, outs } => st.has(ins),
        Effect::Drop => st.peek(0) is Some,
        Effect::Select => {
            &&& fits(st.peek(0), ValType::I32)
            &&& st.peek(1) matches Some(a)
            &&& st.peek(2) matches Some(b)
            &&& numeric_operand(a)
            &&& numeric_operand(b)
            &&& (a is Some && b is Some ==> a == b)
        },
        Effect::RefIsNull => st.peek(0) matches Some(a) && (a matches Some(t) ==> t.is_ref()),
        Effect::Unreachable => true,
        Effect::Enter { kind, ins, outs } => if kind is If {
            fits(st.peek(0), ValType::I32) && st.has_at(1, ins)
        } else {
            st.has(ins)
        },
        Effect::Else => st.top().kind is If && st.frame_done(),
        Effect::End => st.frame_done() && (st.top().kind is If ==> st.top().params
            == st.top().results),
        Effect::Br { label } => label < st.frames.len() && st.has(st.frame(label).label_types()),
        Effect::BrIf { label } => {
            &&& label < st.frames.len()
            &&& fits(st.peek(0), ValType::I32)
            &&& st.has_at(1, st.frame(label).label_types())
        },
        Effect::BrTable { labels, default } => {
            &&& fits(st.peek(0), ValType::I32)
            &&& default < st.frames.len()
            &&& st.has_at(1, st.frame(default).label_types())
            &&& labels_ok(st, labels, st.frame(default).label_types().len())
        },
        Effect::Return => st.has(c.results),
    }
}

/// The type that an untyped `select` leaves: that of its operands, as far
/// as it is known.
pub open spec fn select_type(st: StackView) -> Option<ValType> {
    match st.peek(1) {
        Some(Some(t)) => Some(t),
        _ => match st.peek(2) {
            Some(Some(t)) => Some(t),
            _ => None,
        },
    }
}

/// The state behind an admissible effect.
pub open spec fn next(c: ContextView, st: StackView, e: Effect) -> StackView {
    match e {
        Effect::Plain { ins, outs } => st.popped(ins.len() as int).pushed(outs),
        Effect::Drop => st.popped(1),
        Effect::Select => {
            let base = st.popped(3);
            StackView { vals: base.vals.push(select_type(st)), frames: st.frames }
        },
        Effect::RefIsNull => st.popped(1).pushed(seq![ValType::I32]),
        Effect::Unreachable => st.stopped(),
        Effect::Enter { kind, ins, outs } => {
            let base = st.popped(ins.len() + if kind is If { 1int } else { 0int });
            StackView {
                vals: base.vals + known(ins),
                frames: st.frames.push(
                    FrameView {
                        kind,
                        params: ins,
                        results: outs,
                        height: base.vals.len(),
                        unreachable: false,
                    },
                ),
            }
        },
        Effect::Else => StackView {
            vals: st.vals.take(st.top().height as int) + known(st.top().params),
            frames: st.frames.update(
                st.frames.len() - 1,
                FrameView { kind: FrameKind::Else, unreachable: false, ..st.top() },
            ),
        },
        Effect::End => StackView {
            vals: st.vals.take(st.top().height as int) + known(st.top().results),
            frames: st.frames.drop_last(),
        },
        Effect::Br { label } => st.stopped(),
        Effect::BrIf { label } => {
            let types = st.frame(label).label_types();
            st.popped(1 + types.len() as int).pushed(types)
        },
        Effect::BrTable { labels, default } => st.stopped(),
        Effect::Return => st.stopped(),
    }
}

/// The state behind one instruction, or `None` where the instruction is
/// not valid in the state.
pub open spec fn step(c: ContextView, st: StackView, i: InstructionView) -> Option<StackView> {
    match effect(c, i) {
        Some(e) => if admissible(c, st, e) {
            Some(next(c, st, e))
        } else {
            None
        },
        None => None,
    }
}

/// The state behind a run of instructions, or `None` where one of them is
/// not valid where it stands.
pub open spec fn run(c: ContextView, st: StackView, is: Seq<InstructionView>) -> Option<
    StackView,
>
    decreases is.len(),
{
    if is.len() == 0 {
        Some(st)
    } else {
        match run(c, st, is.drop_last()) {
            Some(s) => step(c, s, is.last()),
            None => None,
        }
    }
}

/// The state in which a function body starts: an empty stack, and the
/// frame of the body itself, which ends with the results of the function.
pub open spec fn start(c: ContextView) -> StackView {
    StackView {
        vals: Seq::empty(),
        frames: seq![
            FrameView {
                kind: FrameKind::Block,
                params: Seq::empty(),
                results: c.results,
                height: 0,
                unreachable: false,
            },
        ],
    }
}

/// Whether the instructions, with the `end` that closes the body behind
/// them, are a valid function body: every instruction is valid where it
/// stands, and the last one closes the last open frame.
pub open spec fn body_ok(c: ContextView, is: Seq<InstructionView>) -> bool {
    match run(c, start(c), is.push(InstructionView::End)) {
        Some(st) => st.frames.len() == 0,
        None => false,
    }
}

/// A run of instructions extended by one more.
pub proof fn run_push(c: ContextView, st: StackView, is: Seq<InstructionView>, i: InstructionView)
    ensures
        run(c, st, is.push(i)) == match run(c, st, is) {
            Some(s) => step(c, s, i),
            None => None,
        },
{
    assert(is.push(i).drop_last() =~= is);
}

} // verus!

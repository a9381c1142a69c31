//! The executable validator: the state of [`crate::typing`] in vectors,
//! and the functions that test and take one step.

use crate::types::{
    class, copy_val_types, same_val_types, BlockType, FuncType, GlobalType, Instruction,
    InstructionClass, MemArg, MemoryType, TableType, ValType,
};
use crate::typing::{ContextView, Effect, FrameKind, FrameView, StackView};
use vstd::prelude::*;

verus! {

/// What a function body can refer to.
#[derive(Clone, Copy, Debug)]
pub struct Context<'a> {
    pub types: &'a Vec<FuncType>,
    /// The type index of every function.
    pub funcs: &'a Vec<u32>,
    pub tables: &'a Vec<TableType>,
    pub memories: &'a Vec<MemoryType>,
    pub globals: &'a Vec<GlobalType>,
    /// The type of every element segment.
    pub elems: &'a Vec<ValType>,
    /// The number of data segments.
    pub data: usize,
    /// For every function, whether `ref.func` may name it.
    pub declared: &'a Vec<bool>,
    /// The parameters of the function and its declared locals.
    pub locals: &'a Vec<ValType>,
    /// The result of the function.
    pub result: Option<ValType>,
    pub bulk_memory: bool,
    pub reference_types: bool,
}

/// A result as a sequence of length zero or one.
pub open spec fn result_types(result: Option<ValType>) -> Seq<ValType> {
    match result {
        Some(t) => seq![t],
        None => Seq::empty(),
    }
}

impl<'a> View for Context<'a> {
    type V = ContextView;

    open spec fn view(&self) -> ContextView {
        ContextView {
            types: crate::types::seq_view(self.types@),
            funcs: self.funcs@,
            tables: self.tables@,
            memories: self.memories@,
            globals: self.globals@,
            elems: self.elems@,
            data: self.data as nat,
            declared: self.declared@,
            locals: self.locals@,
            results: result_types(self.result),
            bulk_memory: self.bulk_memory,
            reference_types: self.reference_types,
        }
    }
}

/// An open control frame.
#[derive(Debug)]
pub struct Frame {
    pub kind: FrameKind,
    pub params: Vec<ValType>,
    pub results: Vec<ValType>,
    pub height: usize,
    pub unreachable: bool,
}

impl View for Frame {
    type V = FrameView;

    open spec fn view(&self) -> FrameView {
        FrameView {
            kind: self.kind,
            params: self.params@,
            results: self.results@,
            height: self.height as nat,
            unreachable: self.unreachable,
        }
    }
}

/// The state of the validator inside a function body.
#[derive(Debug)]
pub struct Validator {
    /// The types on the operand stack; `None` is a type that is not known.
    pub vals: Vec<Option<ValType>>,
    /// The open frames, the innermost last.
    pub frames: Vec<Frame>,
}

impl View for Validator {
    type V = StackView;

    open spec fn view(&self) -> StackView {
        StackView { vals: self.vals@, frames: crate::types::seq_view(self.frames@) }
    }
}

/// What an instruction does to the stack and the frames.
#[derive(Debug)]
pub enum Action {
    Plain { ins: Vec<ValType>, outs: Vec<ValType> },
    Drop,
    Select,
    RefIsNull,
    Unreachable,
    Enter { kind: FrameKind, ins: Vec<ValType>, outs: Vec<ValType> },
    Else,
    End,
    Br { label: u32 },
    BrIf { label: u32 },
    BrTable { labels: Vec<u32>, default: u32 },
    Return,
}

impl View for Action {
    type V = Effect;

    open spec fn view(&self) -> Effect {
        match *self {
            Action::Plain { ins, outs } => Effect::Plain { ins: ins@, outs: outs@ },
            Action::Drop => Effect::Drop,
            Action::Select => Effect::Select,
            Action::RefIsNull => Effect::RefIsNull,
            Action::Unreachable => Effect::Unreachable,
            Action::Enter { kind, ins, outs } => Effect::Enter { kind, ins: ins@, outs: outs@ },
            Action::Else => Effect::Else,
            Action::End => Effect::End,
            Action::Br { label } => Effect::Br { label },
            Action::BrIf { label } => Effect::BrIf { label },
            Action::BrTable { labels, default } => Effect::BrTable { labels: labels@, default },
            Action::Return => Effect::Return,
        }
    }
}

/// The view of an action, if there is one.
pub open spec fn action_view(a: Option<Action>) -> Option<Effect> {
    match a {
        Some(a) => Some(a@),
        None => None,
    }
}

fn types0() -> (r: Vec<ValType>)
    ensures
        r@ == Seq::<ValType>::empty(),
{
    Vec::new()
}

fn types1(a: ValType) -> (r: Vec<ValType>)
    ensures
        r@ == seq![a],
{
    let r: Vec<ValType> = vec![a];
    assert(r@ =~= seq![a]);
    r
}

fn types2(a: ValType, b: ValType) -> (r: Vec<ValType>)
    ensures
        r@ == seq![a, b],
{
    let r: Vec<ValType> = vec![a, b];
    assert(r@ =~= seq![a, b]);
    r
}

fn types3(a: ValType, b: ValType, c: ValType) -> (r: Vec<ValType>)
    ensures
        r@ == seq![a, b, c],
{
    let r: Vec<ValType> = vec![a, b, c];
    assert(r@ =~= seq![a, b, c]);
    r
}

/// A result as a list of length zero or one.
pub fn results_of(result: Option<ValType>) -> (r: Vec<ValType>)
    ensures
        r@ == result_types(result),
{
    match result {
        Some(t) => types1(t),
        None => types0(),
    }
}

/// A copy of a list of labels.
pub fn copy_labels(v: &Vec<u32>) -> (r: Vec<u32>)
    ensures
        r@ == v@,
{
    let mut r: Vec<u32> = Vec::new();
    let mut i: usize = 0;
    while i < v.len()
        invariant
            i <= v.len(),
            r@ == v@.take(i as int),
        decreases v.len() - i,
    {
        r.push(v[i]);
        assert(r@ =~= v@.take(i + 1));
        i += 1;
    }
    assert(v@.take(v.len() as int) =~= v@);
    r
}

fn plain_action(ins: Vec<ValType>, outs: Vec<ValType>) -> (r: Option<Action>)
    ensures
        action_view(r) == crate::typing::plain(ins@, outs@),
        r matches Some(a) && a is Plain,
{
    Some(Action::Plain { ins, outs })
}

impl<'a> Context<'a> {
    /// Whether the function index `x` is in range, and so is the index of
    /// its type.
    pub fn func_ok(&self, x: u32) -> (r: bool)
        ensures
            r == crate::typing::func_ok(self@, x),
    {
        (x as usize) < self.funcs.len() && (self.funcs[x as usize] as usize) < self.types.len()
    }

    /// Whether `table` is the index of a table of function references.
    pub fn funcref_table(&self, table: u32) -> (r: bool)
        ensures
            r == crate::typing::funcref_table(self@, table),
    {
        (table as usize) < self.tables.len() && self.tables[table as usize].elem_ty
            == ValType::FuncRef
    }

    /// Whether a memory access names a memory that is there and is aligned
    /// no more than naturally.
    pub fn mem_ok(&self, m: MemArg, max_align: u32) -> (r: bool)
        ensures
            r == crate::typing::mem_ok(self@, m, max_align),
    {
        (m.memory_index as usize) < self.memories.len() && m.align <= max_align
    }

    /// The action of entering a frame of the given kind and block type.
    pub fn enter(&self, kind: FrameKind, bt: BlockType) -> (r: Option<Action>)
        ensures
            action_view(r) == crate::typing::enter(self@, kind, bt),
            r matches Some(a) ==> a is Enter,
    {
        match bt {
            BlockType::Empty => Some(Action::Enter { kind, ins: types0(), outs: types0() }),
            BlockType::Result(t) => Some(Action::Enter { kind, ins: types0(), outs: types1(t) }),
            BlockType::FuncType(f) => {
                if (f as usize) < self.types.len() {
                    let ty = &self.types[f as usize];
                    Some(
                        Action::Enter {
                            kind,
                            ins: copy_val_types(&ty.params),
                            outs: results_of(ty.result),
                        },
                    )
                } else {
                    None
                }
            },
        }
    }
}

/// The action of a control instruction, a call, or a parametric instruction.
#[verifier::rlimit(50)]
fn control_action(c: &Context, inst: &Instruction) -> (r: Option<Action>)
    ensures
        action_view(r) == crate::typing::control_effect(c@, inst@),
        r matches Some(a) && a is End ==> *inst is End,
{
    match inst {
        Instruction::Unreachable => Some(Action::Unreachable),
        Instruction::Nop => plain_action(types0(), types0()),
        Instruction::Block(bt) => c.enter(FrameKind::Block, *bt),
        Instruction::Loop(bt) => c.enter(FrameKind::Loop, *bt),
        Instruction::If(bt) => c.enter(FrameKind::If, *bt),
        Instruction::Else => Some(Action::Else),
        Instruction::End => Some(Action::End),
        Instruction::Br(x) => Some(Action::Br { label: *x }),
        Instruction::BrIf(x) => Some(Action::BrIf { label: *x }),
        Instruction::BrTable(labels, default) => Some(
            Action::BrTable { labels: copy_labels(labels), default: *default },
        ),
        Instruction::Return => Some(Action::Return),
        Instruction::Call(x) => if c.func_ok(*x) {
            let ty = &c.types[c.funcs[*x as usize] as usize];
            plain_action(copy_val_types(&ty.params), results_of(ty.result))
        } else {
            None
        },
        Instruction::CallIndirect { ty, table } => {
            if (*ty as usize) < c.types.len() && c.funcref_table(*table) {
                let ty = &c.types[*ty as usize];
                let mut ins = copy_val_types(&ty.params);
                ins.push(ValType::I32);
                plain_action(ins, results_of(ty.result))
            } else {
                None
            }
        },
        Instruction::Drop => Some(Action::Drop),
        Instruction::Select => Some(Action::Select),
        _ => None,
    }
}

/// The action of an instruction on a local or a global.
#[verifier::rlimit(50)]
fn variable_action(c: &Context, inst: &Instruction) -> (r: Option<Action>)
    ensures
        action_view(r) == crate::typing::variable_effect(c@, inst@),
{
    match inst {
        Instruction::LocalGet(x) => if (*x as usize) < c.locals.len() {
            plain_action(types0(), types1(c.locals[*x as usize]))
        } else {
            None
        },
        Instruction::LocalSet(x) => if (*x as usize) < c.locals.len() {
            plain_action(types1(c.locals[*x as usize]), types0())
        } else {
            None
        },
        Instruction::LocalTee(x) => if (*x as usize) < c.locals.len() {
            plain_action(types1(c.locals[*x as usize]), types1(c.locals[*x as usize]))
        } else {
            None
        },
        Instruction::GlobalGet(x) => if (*x as usize) < c.globals.len() {
            plain_action(types0(), types1(c.globals[*x as usize].val_type))
        } else {
            None
        },
        Instruction::GlobalSet(x) => {
            if (*x as usize) < c.globals.len() && c.globals[*x as usize].mutable {
                plain_action(types1(c.globals[*x as usize].val_type), types0())
            } else {
                None
            }
        },
        _ => None,
    }
}

/// The action of a memory instruction.
#[verifier::rlimit(50)]
fn memory_action(c: &Context, inst: &Instruction) -> (r: Option<Action>)
    ensures
        action_view(r) == crate::typing::memory_effect(c@, inst@),
{
    match inst {
        Instruction::I32Load(m) => if c.mem_ok(*m, 2) {
            plain_action(types1(ValType::I32), types1(ValType::I32))
        } else {
            None
        },
        Instruction::I64Load(m) => if c.mem_ok(*m, 3) {
            plain_action(types1(ValType::I32), types1(ValType::I64))
        } else {
            None
        },
        Instruction::I32Load8_S(m) | Instruction::I32Load8_U(m) => if c.mem_ok(*m, 0) {
            plain_action(types1(ValType::I32), types1(ValType::I32))
        } else {
            None
        },
        Instruction::I32Load16_S(m) | Instruction::I32Load16_U(m) => if c.mem_ok(*m, 1) {
            plain_action(types1(ValType::I32), types1(ValType::I32))
        } else {
            None
        },
        Instruction::I64Load8_S(m) | Instruction::I64Load8_U(m) => if c.mem_ok(*m, 0) {
            plain_action(types1(ValType::I32), types1(ValType::I64))
        } else {
            None
        },
        Instruction::I64Load16_S(m) | Instruction::I64Load16_U(m) => if c.mem_ok(*m, 1) {
            plain_action(types1(ValType::I32), types1(ValType::I64))
        } else {
            None
        },
        Instruction::I64Load32_S(m) | Instruction::I64Load32_U(m) => if c.mem_ok(*m, 2) {
            plain_action(types1(ValType::I32), types1(ValType::I64))
        } else {
            None
        },
        Instruction::I32Store(m) => if c.mem_ok(*m, 2) {
            plain_action(types2(ValType::I32, ValType::I32), types0())
        } else {
            None
        },
        Instruction::I64Store(m) => if c.mem_ok(*m, 3) {
            plain_action(types2(ValType::I32, ValType::I64), types0())
        } else {
            None
        },
        Instruction::I32Store8(m) => if c.mem_ok(*m, 0) {
            plain_action(types2(ValType::I32, ValType::I32), types0())
        } else {
            None
        },
        Instruction::I32Store16(m) => if c.mem_ok(*m, 1) {
            plain_action(types2(ValType::I32, ValType::I32), types0())
        } else {
            None
        },
        Instruction::I64Store8(m) => if c.mem_ok(*m, 0) {
            plain_action(types2(ValType::I32, ValType::I64), types0())
        } else {
            None
        },
        Instruction::I64Store16(m) => if c.mem_ok(*m, 1) {
            plain_action(types2(ValType::I32, ValType::I64), types0())
        } else {
            None
        },
        Instruction::I64Store32(m) => if c.mem_ok(*m, 2) {
            plain_action(types2(ValType::I32, ValType::I64), types0())
        } else {
            None
        },
        Instruction::MemorySize(x) => if (*x as usize) < c.memories.len() {
            plain_action(types0(), types1(ValType::I32))
        } else {
            None
        },
        Instruction::MemoryGrow(x) => if (*x as usize) < c.memories.len() {
            plain_action(types1(ValType::I32), types1(ValType::I32))
        } else {
            None
        },
        Instruction::MemoryInit { mem, data } => {
            if c.bulk_memory && (*mem as usize) < c.memories.len() && (*data as usize) < c.data {
                plain_action(types3(ValType::I32, ValType::I32, ValType::I32), types0())
            } else {
                None
            }
        },
        Instruction::DataDrop(x) => if c.bulk_memory && (*x as usize) < c.data {
            plain_action(types0(), types0())
        } else {
            None
        },
        Instruction::MemoryCopy { src, dst } => {
            if c.bulk_memory && (*src as usize) < c.memories.len()
                && (*dst as usize) < c.memories.len() {
                plain_action(types3(ValType::I32, ValType::I32, ValType::I32), types0())
            } else {
                None
            }
        },
        Instruction::MemoryFill(x) => if c.bulk_memory && (*x as usize) < c.memories.len() {
            plain_action(types3(ValType::I32, ValType::I32, ValType::I32), types0())
        } else {
            None
        },
        _ => None,
    }
}

/// The action of an instruction on references.
#[verifier::rlimit(50)]
fn reference_action(c: &Context, inst: &Instruction) -> (r: Option<Action>)
    ensures
        action_view(r) == crate::typing::reference_effect(c@, inst@),
{
    match inst {
        Instruction::TypedSelect(ty) => if c.reference_types {
            plain_action(types3(*ty, *ty, ValType::I32), types1(*ty))
        } else {
            None
        },
        Instruction::RefNull(ty) => if c.reference_types && ty.is_reference() {
            plain_action(types0(), types1(*ty))
        } else {
            None
        },
        Instruction::RefIsNull => if c.reference_types {
            Some(Action::RefIsNull)
        } else {
            None
        },
        Instruction::RefFunc(x) => {
            if c.reference_types && (*x as usize) < c.funcs.len()
                && (*x as usize) < c.declared.len() && c.declared[*x as usize] {
                plain_action(types0(), types1(ValType::FuncRef))
            } else {
                None
            }
        },
        _ => None,
    }
}

/// The action of an instruction on tables or element segments.
#[verifier::rlimit(50)]
fn table_action(c: &Context, inst: &Instruction) -> (r: Option<Action>)
    ensures
        action_view(r) == crate::typing::table_effect(c@, inst@),
{
    match inst {
        Instruction::TableInit { segment, table } => {
            if c.bulk_memory && (*table as usize) < c.tables.len()
                && (*segment as usize) < c.elems.len()
                && c.elems[*segment as usize] == c.tables[*table as usize].elem_ty {
                plain_action(types3(ValType::I32, ValType::I32, ValType::I32), types0())
            } else {
                None
            }
        },
        Instruction::ElemDrop { segment } => {
            if c.bulk_memory && (*segment as usize) < c.elems.len() {
                plain_action(types0(), types0())
            } else {
                None
            }
        },
        Instruction::TableFill { table } => {
            if c.reference_types && (*table as usize) < c.tables.len() {
                let t = c.tables[*table as usize].elem_ty;
                plain_action(types3(ValType::I32, t, ValType::I32), types0())
            } else {
                None
            }
        },
        Instruction::TableSet { table } => {
            if c.reference_types && (*table as usize) < c.tables.len() {
                plain_action(types2(ValType::I32, c.tables[*table as usize].elem_ty), types0())
            } else {
                None
            }
        },
        Instruction::TableGet { table } => {
            if c.reference_types && (*table as usize) < c.tables.len() {
                plain_action(types1(ValType::I32), types1(c.tables[*table as usize].elem_ty))
            } else {
                None
            }
        },
        Instruction::TableGrow { table } => {
            if c.reference_types && (*table as usize) < c.tables.len() {
                plain_action(
                    types2(c.tables[*table as usize].elem_ty, ValType::I32), types1(ValType::I32),
                )
            } else {
                None
            }
        },
        Instruction::TableSize { table } => {
            if c.reference_types && (*table as usize) < c.tables.len() {
                plain_action(types0(), types1(ValType::I32))
            } else {
                None
            }
        },
        Instruction::TableCopy { src, dst } => {
            if c.bulk_memory && (*src as usize) < c.tables.len()
                && (*dst as usize) < c.tables.len()
                && c.tables[*src as usize].elem_ty == c.tables[*dst as usize].elem_ty {
                plain_action(types3(ValType::I32, ValType::I32, ValType::I32), types0())
            } else {
                None
            }
        },
        _ => None,
    }
}

/// The action of a numeric instruction.
#[verifier::rlimit(50)]
fn numeric_action(inst: &Instruction) -> (r: Option<Action>)
    ensures
        action_view(r) == crate::typing::numeric_effect(inst@),
{
    match inst {
        Instruction::I32Const(_) => plain_action(types0(), types1(ValType::I32)),
        Instruction::I64Const(_) => plain_action(types0(), types1(ValType::I64)),
        Instruction::I32Eqz | Instruction::I32Clz | Instruction::I32Ctz
        | Instruction::I32Popcnt => plain_action(types1(ValType::I32), types1(ValType::I32)),
        Instruction::I32Eq | Instruction::I32Neq | Instruction::I32LtS | Instruction::I32LtU
        | Instruction::I32GtS | Instruction::I32GtU | Instruction::I32LeS | Instruction::I32LeU
        | Instruction::I32GeS | Instruction::I32GeU | Instruction::I32Add | Instruction::I32Sub
        | Instruction::I32Mul | Instruction::I32DivS | Instruction::I32DivU
        | Instruction::I32RemS | Instruction::I32RemU | Instruction::I32And | Instruction::I32Or
        | Instruction::I32Xor | Instruction::I32Shl | Instruction::I32ShrS
        | Instruction::I32ShrU | Instruction::I32Rotl | Instruction::I32Rotr => plain_action(
            types2(ValType::I32, ValType::I32), types1(ValType::I32),
        ),
        Instruction::I64Eqz | Instruction::I32WrapI64 => plain_action(
            types1(ValType::I64), types1(ValType::I32),
        ),
        Instruction::I64Eq | Instruction::I64Neq | Instruction::I64LtS | Instruction::I64LtU
        | Instruction::I64GtS | Instruction::I64GtU | Instruction::I64LeS | Instruction::I64LeU
        | Instruction::I64GeS | Instruction::I64GeU => plain_action(
            types2(ValType::I64, ValType::I64), types1(ValType::I32),
        ),
        Instruction::I64Clz | Instruction::I64Ctz | Instruction::I64Popcnt
        | Instruction::I64Extend32S => plain_action(types1(ValType::I64), types1(ValType::I64)),
        Instruction::I64Add | Instruction::I64Sub | Instruction::I64Mul | Instruction::I64DivS
        | Instruction::I64DivU | Instruction::I64RemS | Instruction::I64RemU
        | Instruction::I64And | Instruction::I64Or | Instruction::I64Xor | Instruction::I64Shl
        | Instruction::I64ShrS | Instruction::I64ShrU | Instruction::I64Rotl
        | Instruction::I64Rotr => plain_action(
            types2(ValType::I64, ValType::I64), types1(ValType::I64),
        ),
        Instruction::I64ExtendI32S | Instruction::I64ExtendI32U => plain_action(
            types1(ValType::I32), types1(ValType::I64),
        ),
        _ => None,
    }
}

/// Among the instructions that are not control instructions, none has the
/// effect of `end`.
proof fn only_end_ends(c: ContextView, i: crate::types::InstructionView)
    ensures
        !(crate::types::class_of(i) is Control) ==> crate::typing::effect(c, i) != Some(
            Effect::End,
        ),
{
}

/// The action of an instruction in a context, or `None` where the
/// instruction refers to something that the context does not have.
pub fn action_of(c: &Context, inst: &Instruction) -> (r: Option<Action>)
    ensures
        action_view(r) == crate::typing::effect(c@, inst@),
        r matches Some(a) && a is End ==> *inst is End,
{
    proof {
        only_end_ends(c@, inst@);
    }
    match class(inst) {
        InstructionClass::Control => control_action(c, inst),
        InstructionClass::Variable => variable_action(c, inst),
        InstructionClass::Memory => memory_action(c, inst),
        InstructionClass::Reference => reference_action(c, inst),
        InstructionClass::Table => table_action(c, inst),
        InstructionClass::Numeric => numeric_action(inst),
    }
}

/// Whether what was found on the stack serves as an operand of type `t`.
fn fits(found: Option<Option<ValType>>, t: ValType) -> (r: bool)
    ensures
        r == crate::typing::fits(found, t),
{
    match found {
        Some(Some(a)) => a == t,
        Some(None) => true,
        None => false,
    }
}

/// Taking operands off the stack in two goes is taking them off in one.
pub proof fn popped_twice(st: StackView, a: int, b: int)
    requires
        st.wf(),
        st.frames.len() > 0,
        0 <= a,
        0 <= b,
    ensures
        st.popped(a).popped(b) == st.popped(a + b),
        st.popped(a).wf(),
        forall|k: int| 0 <= k ==> st.popped(a).peek(k) == st.peek(a + k),
{
    assert(st.popped(a).popped(b).vals =~= st.popped(a + b).vals);
    assert forall|k: int| 0 <= k implies st.popped(a).peek(k) == st.peek(a + k) by {}
}

/// A run that has failed stays failed, whatever follows.
pub proof fn run_fails_on(
    c: ContextView,
    st: StackView,
    is: Seq<crate::types::InstructionView>,
    n: int,
)
    requires
        0 <= n <= is.len(),
        crate::typing::run(c, st, is.take(n)) is None,
    ensures
        crate::typing::run(c, st, is) is None,
    decreases is.len() - n,
{
    if n < is.len() {
        assert(is.take(n + 1).drop_last() =~= is.take(n));
        run_fails_on(c, st, is, n + 1);
    } else {
        assert(is.take(n) =~= is);
    }
}

impl Validator {
    /// The validator at the start of a function body.
    pub fn new(c: &Context) -> (ck: Validator)
        ensures
            ck@ == crate::typing::start(c@),
            ck@.wf(),
    {
        let mut frames: Vec<Frame> = Vec::new();
        frames.push(
            Frame {
                kind: FrameKind::Block,
                params: types0(),
                results: results_of(c.result),
                height: 0,
                unreachable: false,
            },
        );
        let ck = Validator { vals: Vec::new(), frames };
        assert(ck@.frames =~= crate::typing::start(c@).frames);
        assert(ck@.vals =~= crate::typing::start(c@).vals);
        ck
    }

    /// The number of open frames.
    pub fn depth(&self) -> (r: usize)
        ensures
            r == self@.frames.len(),
    {
        self.frames.len()
    }

    /// The operand `k` places below the top of the stack.
    pub fn peek(&self, k: usize) -> (r: Option<Option<ValType>>)
        requires
            self@.wf(),
            self.frames.len() > 0,
        ensures
            r == self@.peek(k as int),
    {
        let top = &self.frames[self.frames.len() - 1];
        let avail: usize = self.vals.len() - top.height;
        if k < avail {
            Some(self.vals[self.vals.len() - 1 - k])
        } else if top.unreachable {
            Some(None)
        } else {
            None
        }
    }

    /// The operand `skip + k` places below the top of the stack, however
    /// large the two numbers are.
    fn peek_below(&self, skip: usize, k: usize) -> (r: Option<Option<ValType>>)
        requires
            self@.wf(),
            self.frames.len() > 0,
        ensures
            r == self@.peek(skip + k),
    {
        match skip.checked_add(k) {
            Some(place) => self.peek(place),
            None => {
                // So far down there is no value: the stack holds no more
                // values than a `usize` counts.
                let top = &self.frames[self.frames.len() - 1];
                assert(self@.avail() <= self.vals.len() <= usize::MAX < skip + k);
                assert(self@.top().unreachable == top.unreachable);
                if top.unreachable {
                    Some(None)
                } else {
                    None
                }
            },
        }
    }

    /// Whether operands of the types `ts` are on the stack below the
    /// topmost `skip` operands.
    pub fn has_at(&self, skip: usize, ts: &Vec<ValType>) -> (r: bool)
        requires
            self@.wf(),
            self.frames.len() > 0,
        ensures
            r == self@.has_at(skip as int, ts@),
    {
        let n: usize = ts.len();
        let mut k: usize = 0;
        while k < n
            invariant
                k <= n,
                n == ts.len(),
                self@.wf(),
                self.frames.len() > 0,
                forall|j: int|
                    0 <= j < k ==> crate::typing::fits(
                        self@.peek(skip + j),
                        #[trigger] crate::typing::operand(ts@, j),
                    ),
            decreases n - k,
        {
            let found = self.peek_below(skip, k);
            if !fits(found, ts[n - 1 - k]) {
                assert(!crate::typing::fits(
                    self@.peek(skip + k),
                    crate::typing::operand(ts@, k as int),
                ));
                return false;
            }
            k += 1;
        }
        true
    }

    /// The types that a branch to the label `l` carries.
    pub fn label_types(&self, l: u32) -> (r: &Vec<ValType>)
        requires
            l < self.frames.len(),
        ensures
            r@ == self@.frame(l).label_types(),
    {
        let f = &self.frames[self.frames.len() - 1 - l as usize];
        match f.kind {
            FrameKind::Loop => &f.params,
            _ => &f.results,
        }
    }

    /// Whether the innermost frame can end here.
    pub fn frame_done(&self) -> (r: bool)
        requires
            self@.wf(),
            self.frames.len() > 0,
        ensures
            r == self@.frame_done(),
    {
        let top = &self.frames[self.frames.len() - 1];
        self.has_at(0, &top.results) && self.vals.len() - top.height <= top.results.len()
    }

    /// Whether an action is admissible in this state.
    pub fn admits(&self, c: &Context, a: &Action) -> (r: bool)
        requires
            self@.wf(),
        ensures
            r == crate::typing::admissible(c@, self@, a@),
    {
        if self.frames.len() == 0 {
            return false;
        }
        let top = &self.frames[self.frames.len() - 1];
        match a {
            Action::Plain { ins, outs } => self.has_at(0, ins),
            Action::Drop => self.peek(0).is_some(),
            Action::Select => {
                if !fits(self.peek(0), ValType::I32) {
                    return false;
                }
                match (self.peek(1), self.peek(2)) {
                    (Some(a), Some(b)) => {
                        let a_ok: bool = match a {
                            Some(t) => t.is_numeric(),
                            None => true,
                        };
                        let b_ok: bool = match b {
                            Some(t) => t.is_numeric(),
                            None => true,
                        };
                        let same: bool = match (a, b) {
                            (Some(x), Some(y)) => x == y,
                            _ => true,
                        };
                        a_ok && b_ok && same
                    },
                    _ => false,
                }
            },
            Action::RefIsNull => match self.peek(0) {
                Some(Some(t)) => t.is_reference(),
                Some(None) => true,
                None => false,
            },
            Action::Unreachable => true,
            Action::Enter { kind, ins, outs } => {
                if *kind == FrameKind::If {
                    fits(self.peek(0), ValType::I32) && self.has_at(1, ins)
                } else {
                    self.has_at(0, ins)
                }
            },
            Action::Else => top.kind == FrameKind::If && self.frame_done(),
            Action::End => {
                self.frame_done() && (top.kind != FrameKind::If || same_val_types(
                    &top.params,
                    &top.results,
                ))
            },
            Action::Br { label } => {
                (*label as usize) < self.frames.len() && self.has_at(0, self.label_types(*label))
            },
            Action::BrIf { label } => {
                (*label as usize) < self.frames.len() && fits(self.peek(0), ValType::I32)
                    && self.has_at(1, self.label_types(*label))
            },
            Action::BrTable { labels, default } => {
                if !(fits(self.peek(0), ValType::I32) && (*default as usize) < self.frames.len()) {
                    return false;
                }
                let arity: usize = self.label_types(*default).len();
                if !self.has_at(1, self.label_types(*default)) {
                    return false;
                }
                let mut j: usize = 0;
                while j < labels.len()
                    invariant
                        j <= labels.len(),
                        self@.wf(),
                        self.frames.len() > 0,
                        *default < self.frames.len(),
                        arity == self@.frame(*default).label_types().len(),
                        crate::typing::fits(self@.peek(0), ValType::I32),
                        self@.has_at(1, self@.frame(*default).label_types()),
                        a@ == (Effect::BrTable { labels: labels@, default: *default }),
                        forall|i: int|
                            0 <= i < j ==> crate::typing::label_ok(
                                self@,
                                #[trigger] labels@[i],
                                arity as nat,
                            ),
                    decreases labels.len() - j,
                {
                    let l: u32 = labels[j];
                    let ok: bool = (l as usize) < self.frames.len() && self.label_types(l).len()
                        == arity && self.has_at(1, self.label_types(l));
                    if !ok {
                        assert(!crate::typing::label_ok(self@, labels@[j as int], arity as nat));
                        return false;
                    }
                    j += 1;
                }
                true
            },
            Action::Return => self.has_at(0, &results_of(c.result)),
        }
    }

    /// Takes the topmost `n` operands off the stack.
    fn pop(&mut self, n: usize)
        requires
            old(self)@.wf(),
            old(self).frames.len() > 0,
        ensures
            final(self)@ == old(self)@.popped(n as int),
            final(self).frames == old(self).frames,
            final(self)@.wf(),
    {
        let height: usize = self.frames[self.frames.len() - 1].height;
        let len: usize = self.vals.len();
        let to: usize = if len - height >= n { len - n } else { height };
        self.vals.truncate(to);
    }

    /// Puts values of the types `ts` on the stack.
    fn push_known(&mut self, ts: &Vec<ValType>)
        ensures
            final(self).vals@ == old(self).vals@ + crate::typing::known(ts@),
            final(self).frames == old(self).frames,
    {
        let mut i: usize = 0;
        assert(self.vals@ =~= old(self).vals@ + crate::typing::known(ts@.take(0)));
        while i < ts.len()
            invariant
                i <= ts.len(),
                self.frames == old(self).frames,
                self.vals@ == old(self).vals@ + crate::typing::known(ts@.take(i as int)),
            decreases ts.len() - i,
        {
            self.vals.push(Some(ts[i]));
            assert(self.vals@ =~= old(self).vals@ + crate::typing::known(ts@.take(i + 1)));
            i += 1;
        }
        assert(ts@.take(ts.len() as int) =~= ts@);
    }

    /// Drops the values of the innermost frame and marks the frame as one
    /// that cannot be reached.
    fn stop(&mut self)
        requires
            old(self)@.wf(),
            old(self).frames.len() > 0,
        ensures
            final(self)@ == old(self)@.stopped(),
            final(self)@.wf(),
    {
        let mut top: Frame = self.frames.pop().unwrap();
        self.vals.truncate(top.height);
        top.unreachable = true;
        self.frames.push(top);
        assert(self@.frames =~= old(self)@.stopped().frames);
    }

    /// Takes the step of an admissible action.
    pub fn apply(&mut self, c: &Context, a: Action)
        requires
            old(self)@.wf(),
            crate::typing::admissible(c@, old(self)@, a@),
        ensures
            final(self)@ == crate::typing::next(c@, old(self)@, a@),
            final(self)@.wf(),
    {
        match a {
            Action::Plain { ins, outs } => {
                self.pop(ins.len());
                self.push_known(&outs);
            },
            Action::Drop => {
                self.pop(1);
            },
            Action::Select => {
                let t: Option<ValType> = match self.peek(1) {
                    Some(Some(t)) => Some(t),
                    _ => match self.peek(2) {
                        Some(Some(t)) => Some(t),
                        _ => None,
                    },
                };
                self.pop(3);
                self.vals.push(t);
            },
            Action::RefIsNull => {
                self.pop(1);
                self.push_known(&types1(ValType::I32));
            },
            Action::Unreachable => {
                self.stop();
            },
            Action::Enter { kind, ins, outs } => {
                proof {
                    popped_twice(self@, 1, ins@.len() as int);
                }
                if kind == FrameKind::If {
                    self.pop(1);
                }
                self.pop(ins.len());
                let height: usize = self.vals.len();
                self.push_known(&ins);
                self.frames.push(
                    Frame { kind, params: ins, results: outs, height, unreachable: false },
                );
                assert(self@.frames =~= crate::typing::next(c@, old(self)@, a@).frames);
            },
            Action::Else => {
                let top: Frame = self.frames.pop().unwrap();
                self.vals.truncate(top.height);
                self.push_known(&top.params);
                self.frames.push(
                    Frame {
                        kind: FrameKind::Else,
                        params: top.params,
                        results: top.results,
                        height: top.height,
                        unreachable: false,
                    },
                );
                assert(self@.frames =~= crate::typing::next(c@, old(self)@, a@).frames);
            },
            Action::End => {
                let top: Frame = self.frames.pop().unwrap();
                self.vals.truncate(top.height);
                self.push_known(&top.results);
                assert(self@.frames =~= crate::typing::next(c@, old(self)@, a@).frames);
            },
            Action::Br { label } => {
                self.stop();
            },
            Action::BrIf { label } => {
                let types: Vec<ValType> = copy_val_types(self.label_types(label));
                proof {
                    popped_twice(self@, 1, types@.len() as int);
                }
                self.pop(1);
                self.pop(types.len());
                self.push_known(&types);
            },
            Action::BrTable { labels, default } => {
                self.stop();
            },
            Action::Return => {
                self.stop();
            },
        }
    }

    /// Takes the step of an instruction where it is valid, and says
    /// whether it was.
    pub fn step(&mut self, c: &Context, inst: &Instruction) -> (r: bool)
        requires
            old(self)@.wf(),
        ensures
            final(self)@.wf(),
            match crate::typing::step(c@, old(self)@, inst@) {
                Some(st) => r && final(self)@ == st,
                None => !r && final(self)@ == old(self)@,
            },
    {
        match action_of(c, inst) {
            Some(a) => {
                if self.admits(c, &a) {
                    self.apply(c, a);
                    true
                } else {
                    false
                }
            },
            None => false,
        }
    }
}

/// Whether the instructions, with the `end` that closes the body behind
/// them, are a valid function body in the context.
pub fn validate_body(c: &Context, instrs: &Vec<Instruction>) -> (r: bool)
    ensures
        r == crate::typing::body_ok(c@, crate::types::seq_view(instrs@)),
{
    let ghost all = crate::types::seq_view(instrs@);
    let ghost whole = all.push(crate::types::InstructionView::End);
    let mut ck = Validator::new(c);
    let mut i: usize = 0;
    assert(all.take(0) =~= Seq::empty());
    while i < instrs.len()
        invariant
            i <= instrs.len(),
            all == crate::types::seq_view(instrs@),
            whole == all.push(crate::types::InstructionView::End),
            ck@.wf(),
            crate::typing::run(c@, crate::typing::start(c@), all.take(i as int)) == Some(ck@),
        decreases instrs.len() - i,
    {
        proof {
            assert(all.take(i + 1).drop_last() =~= all.take(i as int));
            assert(whole.take(i + 1) =~= all.take(i + 1));
        }
        if !ck.step(c, &instrs[i]) {
            proof {
                run_fails_on(c@, crate::typing::start(c@), whole, i + 1);
            }
            return false;
        }
        i += 1;
    }
    proof {
        assert(all.take(all.len() as int) =~= all);
        crate::typing::run_push(
            c@,
            crate::typing::start(c@),
            all,
            crate::types::InstructionView::End,
        );
    }
    ck.step(c, &Instruction::End) && ck.depth() == 0
}

} // verus!

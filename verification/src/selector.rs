//! The typed instruction selector: it writes a function body that is valid
//! by construction.
//!
//! At every step each family of instructions proposes one instruction,
//! reading its immediates from the entropy that lies ahead. The proposals
//! that the validator admits in the current state are the options; the
//! entropy selects one of them, and the validator takes its step. At the end
//! the open frames are closed.

use crate::validator::{action_of, Action, Validator, Context};
use crate::config::{Knobs, KnobsView};
use crate::entropy::Entropy;
use crate::families::{
    i32_binary_op, i32_unary_op, i64_binary_op, i64_compare_op, i64_extend_op, i64_unary_op,
    load_max_align, load_op, store_max_align, store_op, I32_BINARY_COUNT, I32_UNARY_COUNT,
    I64_BINARY_COUNT, I64_COMPARE_COUNT, I64_EXTEND_COUNT, I64_UNARY_COUNT, LOAD_COUNT,
    STORE_COUNT,
};
use crate::types::{BlockType, Instruction, InstructionView, Limits, MemArg, ValType};
use crate::typing::{ContextView, StackView};
use vstd::prelude::*;

verus! {

/// The number of families of instructions.
pub const FAMILIES: usize = 50;

/// The largest number of labels that a proposed `br_table` lists besides
/// its default label.
pub const MAX_LABELS: usize = 3;

/// The number of bytes in a page of memory.
pub const PAGE: u64 = 65536;

/// The value of an index below `n`, as an index of 32 bits.
pub open spec fn pick(s: Seq<u8>, n: usize) -> u32 {
    crate::entropy::index_value(s, n) as u32
}

/// What is left of `s` behind an index below `n`.
pub open spec fn picked(s: Seq<u8>, n: usize) -> Seq<u8> {
    crate::entropy::index_rest(s, n)
}

/// The value type with a number: the integer types first.
pub open spec fn val_type_of(j: usize) -> ValType {
    match j {
        0 => ValType::I32,
        1 => ValType::I64,
        2 => ValType::FuncRef,
        _ => ValType::ExternRef,
    }
}

/// The number of value types there are to draw from: two without
/// reference types, four with them.
pub open spec fn val_type_count(refs: bool) -> usize {
    if refs {
        4
    } else {
        2
    }
}

/// The value type drawn from `s`.
pub open spec fn val_type(refs: bool, s: Seq<u8>) -> ValType {
    val_type_of(crate::entropy::index_value(s, val_type_count(refs)))
}

/// What is left of `s` behind a value type.
pub open spec fn val_type_rest(refs: bool, s: Seq<u8>) -> Seq<u8> {
    crate::entropy::index_rest(s, val_type_count(refs))
}

/// The reference type drawn from `s`.
pub open spec fn ref_type(s: Seq<u8>) -> ValType {
    if crate::entropy::index_value(s, 2) == 0 {
        ValType::FuncRef
    } else {
        ValType::ExternRef
    }
}

/// The block type drawn from `s`, and what is left: no type, one result,
/// or, where the configuration allows it and there is a type, the index of
/// a function type.
pub open spec fn block_type(c: ContextView, kn: KnobsView, s: Seq<u8>) -> (BlockType, Seq<u8>) {
    let n: usize = if kn.allow_function_blocktype && c.types.len() > 0 {
        3
    } else {
        2
    };
    let j = crate::entropy::index_value(s, n);
    let s1 = crate::entropy::index_rest(s, n);
    if j == 0 {
        (BlockType::Empty, s1)
    } else if j == 1 {
        (
            BlockType::Result(val_type(c.reference_types, s1)),
            val_type_rest(c.reference_types, s1),
        )
    } else {
        (
            BlockType::FuncType(pick(s1, c.types.len() as usize)),
            picked(s1, c.types.len() as usize),
        )
    }
}

/// `n` labels drawn from `s`, each below `depth`, and what is left.
pub open spec fn labels(depth: usize, n: nat, s: Seq<u8>) -> (Seq<u32>, Seq<u8>)
    decreases n,
{
    if n == 0 {
        (Seq::empty(), s)
    } else {
        let before = labels(depth, (n - 1) as nat, s);
        (before.0.push(pick(before.1, depth)), picked(before.1, depth))
    }
}

/// The `br_table` drawn from `s`, and what is left: up to [`MAX_LABELS`]
/// labels and the default label.
pub open spec fn br_table(depth: usize, s: Seq<u8>) -> (InstructionView, Seq<u8>) {
    let n = crate::entropy::index_value(s, (MAX_LABELS + 1) as usize);
    let ls = labels(depth, n as nat, crate::entropy::index_rest(s, (MAX_LABELS + 1) as usize));
    (InstructionView::BrTable(ls.0, pick(ls.1, depth)), picked(ls.1, depth))
}

/// The limits of the memory with the index `m`; of no pages where there is
/// no such memory.
pub open spec fn memory_limits(c: ContextView, m: u32) -> Limits {
    if m < c.memories.len() {
        c.memories[m as int].limits
    } else {
        Limits { min: 0, max: Some(0) }
    }
}

/// A number of bytes, or the largest offset where it is larger.
pub open spec fn clip(bytes: int) -> u32 {
    if bytes > u32::MAX {
        u32::MAX
    } else {
        bytes as u32
    }
}

/// The least offset that is outside of a memory however far it has grown:
/// its maximum size in bytes, that of 65536 pages where it states none.
pub open spec fn out_of_bounds(l: Limits) -> u32 {
    clip(
        (match l.max {
            Some(m) => m as int,
            None => PAGE as int,
        }) * PAGE,
    )
}

/// The offsets of a class: within the initial size of the memory, between
/// its initial and its maximum size, or at and above its maximum size.
pub open spec fn offset_range(l: Limits, class: u8) -> (u32, u32) {
    let low = clip(l.min * PAGE);
    let high = out_of_bounds(l);
    if class == 0 {
        (
            0,
            if low == 0 {
                0
            } else {
                (low - 1) as u32
            },
        )
    } else if class == 1 {
        (
            low,
            if high > low {
                (high - 1) as u32
            } else {
                low
            },
        )
    } else {
        (high, u32::MAX)
    }
}

/// The immediate of a memory access drawn from `s`, and what is left: the
/// memory, an alignment up to `max_align`, the class of the offset by the
/// weights of the configuration, and an offset of that class.
pub open spec fn mem_arg(c: ContextView, kn: KnobsView, max_align: u32, s: Seq<u8>) -> (
    MemArg,
    Seq<u8>,
) {
    let memory_index = pick(s, c.memories.len() as usize);
    let s1 = picked(s, c.memories.len() as usize);
    let align = pick(s1, (max_align + 1) as usize);
    let s2 = picked(s1, (max_align + 1) as usize);
    let w = kn.memory_offset_choices;
    let class = crate::entropy::weighted_value(s2, w.0, w.1, w.2);
    let s3 = crate::entropy::weighted_rest(s2, w.0, w.1, w.2);
    let range = offset_range(memory_limits(c, memory_index), class);
    (
        MemArg {
            offset: crate::entropy::draw_value(s3, range.0 as u64, range.1 as u64) as u32,
            align,
            memory_index,
        },
        crate::entropy::draw_rest(s3, range.0 as u64, range.1 as u64),
    )
}

/// The proposal of a family of an instruction that opens, divides or closes
/// a frame, or does nothing.
pub open spec fn structure_proposal(
    c: ContextView,
    kn: KnobsView,
    depth: usize,
    family: usize,
    s: Seq<u8>,
) -> (InstructionView, Seq<u8>) {
    match family {
        0 => (InstructionView::Unreachable, s),
        1 => (InstructionView::Nop, s),
        2 => {
            let bt = block_type(c, kn, s);
            (InstructionView::Block(bt.0), bt.1)
        },
        3 => {
            let bt = block_type(c, kn, s);
            (InstructionView::Loop(bt.0), bt.1)
        },
        4 => {
            let bt = block_type(c, kn, s);
            (InstructionView::If(bt.0), bt.1)
        },
        5 => (InstructionView::Else, s),
        _ => (InstructionView::End, s),
    }
}

/// The proposal of a family of a branch, a call or a parametric instruction.
pub open spec fn branch_proposal(
    c: ContextView,
    kn: KnobsView,
    depth: usize,
    family: usize,
    s: Seq<u8>,
) -> (InstructionView, Seq<u8>) {
    match family {
        7 => (InstructionView::Br(pick(s, depth)), picked(s, depth)),
        8 => (InstructionView::BrIf(pick(s, depth)), picked(s, depth)),
        9 => br_table(depth, s),
        10 => (InstructionView::Return, s),
        11 => (
            InstructionView::Call(pick(s, c.funcs.len() as usize)),
            picked(s, c.funcs.len() as usize),
        ),
        12 => {
            let s1 = picked(s, c.types.len() as usize);
            (
                InstructionView::CallIndirect {
                    ty: pick(s, c.types.len() as usize),
                    table: pick(s1, c.tables.len() as usize),
                },
                picked(s1, c.tables.len() as usize),
            )
        },
        13 => (InstructionView::Drop, s),
        _ => (InstructionView::Select, s),
    }
}

/// The proposal of a family of an instruction on a local or a global.
pub open spec fn variable_proposal(
    c: ContextView,
    kn: KnobsView,
    depth: usize,
    family: usize,
    s: Seq<u8>,
) -> (InstructionView, Seq<u8>) {
    match family {
        15 => (
            InstructionView::LocalGet(pick(s, c.locals.len() as usize)),
            picked(s, c.locals.len() as usize),
        ),
        16 => (
            InstructionView::LocalSet(pick(s, c.locals.len() as usize)),
            picked(s, c.locals.len() as usize),
        ),
        17 => (
            InstructionView::LocalTee(pick(s, c.locals.len() as usize)),
            picked(s, c.locals.len() as usize),
        ),
        18 => (
            InstructionView::GlobalGet(pick(s, c.globals.len() as usize)),
            picked(s, c.globals.len() as usize),
        ),
        _ => (
            InstructionView::GlobalSet(pick(s, c.globals.len() as usize)),
            picked(s, c.globals.len() as usize),
        ),
    }
}

/// The proposal of a family of a memory instruction.
pub open spec fn memory_proposal(
    c: ContextView,
    kn: KnobsView,
    depth: usize,
    family: usize,
    s: Seq<u8>,
) -> (InstructionView, Seq<u8>) {
    match family {
        20 => {
            let j = crate::entropy::index_value(s, crate::families::LOAD_COUNT);
            let m = mem_arg(
                c,
                kn,
                crate::families::load_align(j),
                crate::entropy::index_rest(s, crate::families::LOAD_COUNT),
            );
            (crate::families::load_view(j, m.0), m.1)
        },
        21 => {
            let j = crate::entropy::index_value(s, crate::families::STORE_COUNT);
            let m = mem_arg(
                c,
                kn,
                crate::families::store_align(j),
                crate::entropy::index_rest(s, crate::families::STORE_COUNT),
            );
            (crate::families::store_view(j, m.0), m.1)
        },
        22 => (
            InstructionView::MemorySize(pick(s, c.memories.len() as usize)),
            picked(s, c.memories.len() as usize),
        ),
        23 => (
            InstructionView::MemoryGrow(pick(s, c.memories.len() as usize)),
            picked(s, c.memories.len() as usize),
        ),
        24 => {
            let s1 = picked(s, c.memories.len() as usize);
            (
                InstructionView::MemoryInit {
                    mem: pick(s, c.memories.len() as usize),
                    data: pick(s1, c.data as usize),
                },
                picked(s1, c.data as usize),
            )
        },
        25 => (InstructionView::DataDrop(pick(s, c.data as usize)), picked(s, c.data as usize)),
        26 => {
            let s1 = picked(s, c.memories.len() as usize);
            (
                InstructionView::MemoryCopy {
                    src: pick(s, c.memories.len() as usize),
                    dst: pick(s1, c.memories.len() as usize),
                },
                picked(s1, c.memories.len() as usize),
            )
        },
        _ => (
            InstructionView::MemoryFill(pick(s, c.memories.len() as usize)),
            picked(s, c.memories.len() as usize),
        ),
    }
}

/// The proposal of a family of a numeric instruction.
pub open spec fn numeric_proposal(
    c: ContextView,
    kn: KnobsView,
    depth: usize,
    family: usize,
    s: Seq<u8>,
) -> (InstructionView, Seq<u8>) {
    match family {
        28 => (
            InstructionView::I32Const(crate::entropy::draw_value(s, 0, 0xFFFF_FFFF) as u32 as i32),
            crate::entropy::draw_rest(s, 0, 0xFFFF_FFFF),
        ),
        29 => (
            InstructionView::I64Const(crate::entropy::draw_value(s, 0, u64::MAX) as i64),
            crate::entropy::draw_rest(s, 0, u64::MAX),
        ),
        30 => (
            crate::families::i32_unary_view(
                crate::entropy::index_value(s, crate::families::I32_UNARY_COUNT),
            ),
            crate::entropy::index_rest(s, crate::families::I32_UNARY_COUNT),
        ),
        31 => (
            crate::families::i32_binary_view(
                crate::entropy::index_value(s, crate::families::I32_BINARY_COUNT),
            ),
            crate::entropy::index_rest(s, crate::families::I32_BINARY_COUNT),
        ),
        32 => (InstructionView::I64Eqz, s),
        33 => (
            crate::families::i64_compare_view(
                crate::entropy::index_value(s, crate::families::I64_COMPARE_COUNT),
            ),
            crate::entropy::index_rest(s, crate::families::I64_COMPARE_COUNT),
        ),
        34 => (
            crate::families::i64_unary_view(
                crate::entropy::index_value(s, crate::families::I64_UNARY_COUNT),
            ),
            crate::entropy::index_rest(s, crate::families::I64_UNARY_COUNT),
        ),
        35 => (
            crate::families::i64_binary_view(
                crate::entropy::index_value(s, crate::families::I64_BINARY_COUNT),
            ),
            crate::entropy::index_rest(s, crate::families::I64_BINARY_COUNT),
        ),
        36 => (InstructionView::I32WrapI64, s),
        _ => (
            crate::families::i64_extend_view(
                crate::entropy::index_value(s, crate::families::I64_EXTEND_COUNT),
            ),
            crate::entropy::index_rest(s, crate::families::I64_EXTEND_COUNT),
        ),
    }
}

/// The proposal of a family of an instruction on references.
pub open spec fn reference_proposal(
    c: ContextView,
    kn: KnobsView,
    depth: usize,
    family: usize,
    s: Seq<u8>,
) -> (InstructionView, Seq<u8>) {
    match family {
        38 => (
            InstructionView::TypedSelect(val_type(c.reference_types, s)),
            val_type_rest(c.reference_types, s),
        ),
        39 => (InstructionView::RefNull(ref_type(s)), crate::entropy::index_rest(s, 2)),
        40 => (InstructionView::RefIsNull, s),
        _ => (
            InstructionView::RefFunc(pick(s, c.funcs.len() as usize)),
            picked(s, c.funcs.len() as usize),
        ),
    }
}

/// The proposal of a family of an instruction on tables or element segments.
pub open spec fn table_proposal(
    c: ContextView,
    kn: KnobsView,
    depth: usize,
    family: usize,
    s: Seq<u8>,
) -> (InstructionView, Seq<u8>) {
    match family {
        42 => {
            let s1 = picked(s, c.elems.len() as usize);
            (
                InstructionView::TableInit {
                    segment: pick(s, c.elems.len() as usize),
                    table: pick(s1, c.tables.len() as usize),
                },
                picked(s1, c.tables.len() as usize),
            )
        },
        43 => (
            InstructionView::ElemDrop { segment: pick(s, c.elems.len() as usize) },
            picked(s, c.elems.len() as usize),
        ),
        44 => (
            InstructionView::TableFill { table: pick(s, c.tables.len() as usize) },
            picked(s, c.tables.len() as usize),
        ),
        45 => (
            InstructionView::TableSet { table: pick(s, c.tables.len() as usize) },
            picked(s, c.tables.len() as usize),
        ),
        46 => (
            InstructionView::TableGet { table: pick(s, c.tables.len() as usize) },
            picked(s, c.tables.len() as usize),
        ),
        47 => (
            InstructionView::TableGrow { table: pick(s, c.tables.len() as usize) },
            picked(s, c.tables.len() as usize),
        ),
        48 => (
            InstructionView::TableSize { table: pick(s, c.tables.len() as usize) },
            picked(s, c.tables.len() as usize),
        ),
        _ => {
            let s1 = picked(s, c.tables.len() as usize);
            (
                InstructionView::TableCopy {
                    src: pick(s, c.tables.len() as usize),
                    dst: pick(s1, c.tables.len() as usize),
                },
                picked(s1, c.tables.len() as usize),
            )
        },
    }
}

/// The instruction that a family proposes where `depth` frames are open,
/// and what is left of `s` behind its immediates.
///
/// The families are numbered in the order of the instruction set:
/// `unreachable`, `nop`, `block`, `loop`, `if`, `else` and `end` (0 to 6);
/// the branches, `return`, the calls, `drop` and `select` (7 to 14); the
/// instructions on locals and globals (15 to 19); loads, stores and the
/// other memory instructions (20 to 27); constants and numeric operations
/// (28 to 37); the instructions on references (38 to 41) and on tables and
/// element segments (42 to 49). A family of several instructions that take
/// and leave the same types draws which of them it proposes.
pub open spec fn proposal(
    c: ContextView,
    kn: KnobsView,
    depth: usize,
    family: usize,
    s: Seq<u8>,
) -> (InstructionView, Seq<u8>) {
    if family < 7 {
        structure_proposal(c, kn, depth, family, s)
    } else if family < 15 {
        branch_proposal(c, kn, depth, family, s)
    } else if family < 20 {
        variable_proposal(c, kn, depth, family, s)
    } else if family < 28 {
        memory_proposal(c, kn, depth, family, s)
    } else if family < 38 {
        numeric_proposal(c, kn, depth, family, s)
    } else if family < 42 {
        reference_proposal(c, kn, depth, family, s)
    } else {
        table_proposal(c, kn, depth, family, s)
    }
}

/// Whether the selector may take an instruction in a state: the
/// instruction is valid there, and it does not close the frame of the body
/// itself, which the end of the body does.
pub open spec fn allowed(c: ContextView, st: StackView, i: InstructionView) -> bool {
    crate::typing::step(c, st, i) is Some && !(i is End && st.frames.len() <= 1)
}

/// The proposals of the first `n` families that are allowed in a state, in
/// the order of the families, each with what is left of `s` behind it.
pub open spec fn options(
    c: ContextView,
    kn: KnobsView,
    st: StackView,
    s: Seq<u8>,
    n: nat,
) -> Seq<(InstructionView, Seq<u8>)>
    decreases n,
{
    if n == 0 {
        Seq::empty()
    } else {
        let before = options(c, kn, st, s, (n - 1) as nat);
        let p = proposal(c, kn, st.frames.len() as usize, (n - 1) as usize, s);
        if allowed(c, st, p.0) {
            before.push(p)
        } else {
            before
        }
    }
}

/// The instruction that is selected in a state, and what is left of `s`:
/// a number is drawn, and it counts through the options.
pub open spec fn choice(c: ContextView, kn: KnobsView, st: StackView, s: Seq<u8>) -> (
    InstructionView,
    Seq<u8>,
) {
    let raw = crate::entropy::index_value(s, FAMILIES);
    let all = options(c, kn, st, crate::entropy::index_rest(s, FAMILIES), FAMILIES as nat);
    all[(raw as nat % all.len()) as int]
}

/// The instructions selected from a state on, behind those of `acc`, with
/// the state and the entropy that are left: one instruction after the
/// other, until `fuel` of them are selected or the entropy has run out.
pub open spec fn selected(
    c: ContextView,
    kn: KnobsView,
    st: StackView,
    s: Seq<u8>,
    fuel: nat,
    acc: Seq<InstructionView>,
) -> (Seq<InstructionView>, StackView, Seq<u8>)
    decreases fuel,
{
    if fuel == 0 || s.len() == 0 {
        (acc, st, s)
    } else {
        let next = choice(c, kn, st, s);
        match crate::typing::step(c, st, next.0) {
            Some(st2) => selected(c, kn, st2, next.1, (fuel - 1) as nat, acc.push(next.0)),
            None => (acc, st, s),
        }
    }
}

/// The state behind the end of the innermost frame.
pub open spec fn closed(st: StackView) -> StackView {
    StackView {
        vals: st.vals.take(st.top().height as int) + crate::typing::known(st.top().results),
        frames: st.frames.drop_last(),
    }
}

/// The instructions that close the innermost frame. Where the frame cannot
/// end as the stack stands, `unreachable` comes first. An `if` whose start
/// and end types differ needs its `else`, and the `else` branch, which
/// starts with the wrong types, is cut short by `unreachable` too.
pub open spec fn closing_top(st: StackView) -> Seq<InstructionView> {
    let first: Seq<InstructionView> = if st.frame_done() {
        Seq::empty()
    } else {
        seq![InstructionView::Unreachable]
    };
    if st.top().kind is If && st.top().params != st.top().results {
        first + seq![
            InstructionView::Else,
            InstructionView::Unreachable,
            InstructionView::End,
        ]
    } else {
        first.push(InstructionView::End)
    }
}

/// The instructions of `acc` and, behind them, those that close every open
/// frame but that of the body itself, and make the body end well.
pub open spec fn closing(st: StackView, acc: Seq<InstructionView>) -> Seq<InstructionView>
    decreases st.frames.len(),
{
    if st.frames.len() <= 1 {
        if st.frames.len() == 1 && !st.frame_done() {
            acc.push(InstructionView::Unreachable)
        } else {
            acc
        }
    } else {
        closing(closed(st), acc + closing_top(st))
    }
}

/// The body that the selector writes for a function, and what is left of
/// the entropy: up to `max_instructions` selected instructions, and the
/// instructions that close what they left open.
pub open spec fn body(c: ContextView, kn: KnobsView, s: Seq<u8>) -> (
    Seq<InstructionView>,
    Seq<u8>,
) {
    let chosen = selected(
        c,
        kn,
        crate::typing::start(c),
        s,
        kn.max_instructions as nat,
        Seq::empty(),
    );
    (closing(chosen.1, chosen.0), chosen.2)
}

/// The immediate of a memory access, if the instruction is a load or a
/// store.
pub open spec fn mem_arg_of(i: InstructionView) -> Option<MemArg> {
    match i {
        InstructionView::I32Load(m) | InstructionView::I64Load(m)
        | InstructionView::I32Load8_S(m) | InstructionView::I32Load8_U(m)
        | InstructionView::I32Load16_S(m) | InstructionView::I32Load16_U(m)
        | InstructionView::I64Load8_S(m) | InstructionView::I64Load8_U(m)
        | InstructionView::I64Load16_S(m) | InstructionView::I64Load16_U(m)
        | InstructionView::I64Load32_S(m) | InstructionView::I64Load32_U(m)
        | InstructionView::I32Store(m) | InstructionView::I64Store(m)
        | InstructionView::I32Store8(m) | InstructionView::I32Store16(m)
        | InstructionView::I64Store8(m) | InstructionView::I64Store16(m)
        | InstructionView::I64Store32(m) => Some(m),
        _ => None,
    }
}

/// Whether the instruction is a block, loop or if that takes its type from
/// the type section.
pub open spec fn uses_function_blocktype(i: InstructionView) -> bool {
    match i {
        InstructionView::Block(bt) | InstructionView::Loop(bt) | InstructionView::If(bt) => bt
            is FuncType,
        _ => false,
    }
}

/// Whether an instruction keeps to the policies of the configuration: a
/// block type names a function type only where that is allowed, and where
/// only offsets that are out of bounds have a weight, the offset of a
/// memory access is at or above the maximum size of its memory.
pub open spec fn keeps_policy(c: ContextView, kn: KnobsView, i: InstructionView) -> bool {
    &&& !kn.allow_function_blocktype ==> !uses_function_blocktype(i)
    &&& kn.memory_offset_choices.0 == 0 && kn.memory_offset_choices.1 == 0 ==> (mem_arg_of(i)
        matches Some(m) ==> m.offset >= out_of_bounds(memory_limits(c, m.memory_index)))
}

/// Whether every instruction of a body keeps to the policies of the
/// configuration.
pub open spec fn body_keeps_policy(
    c: ContextView,
    kn: KnobsView,
    is: Seq<InstructionView>,
) -> bool {
    forall|j: int| 0 <= j < is.len() ==> keeps_policy(c, kn, #[trigger] is[j])
}

/// Draws an index below `n`, as an index of 32 bits.
pub fn pick_index(u: &mut Entropy, n: usize) -> (r: u32)
    ensures
        r == pick(old(u)@, n),
        final(u)@ == picked(old(u)@, n),
        final(u).data == old(u).data,
{
    u.index(n) as u32
}

/// Draws a value type.
pub fn draw_val_type(refs: bool, u: &mut Entropy) -> (r: ValType)
    ensures
        r == val_type(refs, old(u)@),
        final(u)@ == val_type_rest(refs, old(u)@),
        final(u).data == old(u).data,
        !refs ==> r.is_num(),
{
    let j: usize = u.index(if refs { 4 } else { 2 });
    match j {
        0 => ValType::I32,
        1 => ValType::I64,
        2 => ValType::FuncRef,
        _ => ValType::ExternRef,
    }
}

/// Draws a reference type.
pub fn draw_ref_type(u: &mut Entropy) -> (r: ValType)
    ensures
        r == ref_type(old(u)@),
        final(u)@ == crate::entropy::index_rest(old(u)@, 2),
        final(u).data == old(u).data,
        r.is_ref(),
{
    if u.index(2) == 0 {
        ValType::FuncRef
    } else {
        ValType::ExternRef
    }
}

/// Draws a block type.
pub fn draw_block_type(c: &Context, kn: &Knobs, u: &mut Entropy) -> (r: BlockType)
    ensures
        (r, final(u)@) == block_type(c@, kn@, old(u)@),
        final(u).data == old(u).data,
        r is FuncType ==> kn.allow_function_blocktype,
{
    let n: usize = if kn.allow_function_blocktype && c.types.len() > 0 { 3 } else { 2 };
    let j: usize = u.index(n);
    if j == 0 {
        BlockType::Empty
    } else if j == 1 {
        BlockType::Result(draw_val_type(c.reference_types, u))
    } else {
        BlockType::FuncType(pick_index(u, c.types.len()))
    }
}

/// Draws a `br_table`.
pub fn draw_br_table(depth: usize, u: &mut Entropy) -> (r: Instruction)
    ensures
        (r@, final(u)@) == br_table(depth, old(u)@),
        final(u).data == old(u).data,
{
    let ghost s0 = crate::entropy::index_rest(u@, (MAX_LABELS + 1) as usize);
    let n: usize = u.index(MAX_LABELS + 1);
    let mut ls: Vec<u32> = Vec::new();
    let mut i: usize = 0;
    while i < n
        invariant
            i <= n,
            u.data == old(u).data,
            (ls@, u@) == labels(depth, i as nat, s0),
        decreases n - i,
    {
        let l: u32 = pick_index(u, depth);
        ls.push(l);
        i += 1;
    }
    let default: u32 = pick_index(u, depth);
    Instruction::BrTable(ls, default)
}

/// A number of bytes, or the largest offset where it is larger.
fn clip_bytes(bytes: u64) -> (r: u32)
    ensures
        r == clip(bytes as int),
{
    if bytes > 0xFFFF_FFFF {
        0xFFFF_FFFF
    } else {
        bytes as u32
    }
}

/// The offsets of a class.
pub fn offset_bounds(l: Limits, class: u8) -> (r: (u32, u32))
    ensures
        r == offset_range(l, class),
        r.0 <= r.1,
        class >= 2 ==> r.0 == out_of_bounds(l),
{
    let low: u32 = clip_bytes(l.min as u64 * PAGE);
    let pages: u64 = match l.max {
        Some(m) => m as u64,
        None => PAGE,
    };
    let high: u32 = clip_bytes(pages * PAGE);
    if class == 0 {
        (0, if low == 0 { 0 } else { low - 1 })
    } else if class == 1 {
        (low, if high > low { high - 1 } else { low })
    } else {
        (high, 0xFFFF_FFFF)
    }
}

/// Draws the immediate of a memory access.
pub fn draw_mem_arg(c: &Context, kn: &Knobs, max_align: u32, u: &mut Entropy) -> (r: MemArg)
    requires
        kn@.valid(),
        max_align < u32::MAX,
    ensures
        (r, final(u)@) == mem_arg(c@, kn@, max_align, old(u)@),
        final(u).data == old(u).data,
        r.align <= max_align,
        c.memories.len() > 0 ==> r.memory_index < c.memories.len(),
        kn.memory_offset_choices.0 == 0 && kn.memory_offset_choices.1 == 0 ==> r.offset
            >= out_of_bounds(memory_limits(c@, r.memory_index)),
{
    let memory_index: u32 = pick_index(u, c.memories.len());
    let align: u32 = pick_index(u, (max_align + 1) as usize);
    let w = kn.memory_offset_choices;
    let class: u8 = u.weighted(w.0, w.1, w.2);
    let limits: Limits = if (memory_index as usize) < c.memories.len() {
        c.memories[memory_index as usize].limits
    } else {
        Limits { min: 0, max: Some(0) }
    };
    let range = offset_bounds(limits, class);
    let offset: u32 = u.draw(range.0 as u64, range.1 as u64) as u32;
    MemArg { offset, align, memory_index }
}

/// The instruction that a family proposes that opens, divides or closes a
/// frame, or does nothing.
#[verifier::rlimit(50)]
fn propose_structure(
    c: &Context,
    kn: &Knobs,
    depth: usize,
    family: usize,
    u: &mut Entropy,
) -> (r: Instruction)
    requires
        kn@.valid(),
    ensures
        (r@, final(u)@) == structure_proposal(c@, kn@, depth, family, old(u)@),
        final(u).data == old(u).data,
        keeps_policy(c@, kn@, r@),
{
    match family {
        0 => Instruction::Unreachable,
        1 => Instruction::Nop,
        2 => Instruction::Block(draw_block_type(c, kn, u)),
        3 => Instruction::Loop(draw_block_type(c, kn, u)),
        4 => Instruction::If(draw_block_type(c, kn, u)),
        5 => Instruction::Else,
        _ => Instruction::End,
    }
}

/// The instruction that a family of a branch, a call or a parametric instruction
/// proposes.
#[verifier::rlimit(50)]
fn propose_branch(
    c: &Context,
    kn: &Knobs,
    depth: usize,
    family: usize,
    u: &mut Entropy,
) -> (r: Instruction)
    requires
        kn@.valid(),
    ensures
        (r@, final(u)@) == branch_proposal(c@, kn@, depth, family, old(u)@),
        final(u).data == old(u).data,
        keeps_policy(c@, kn@, r@),
{
    match family {
        7 => {
            let a: u32 = pick_index(u, depth);
            Instruction::Br(a)
        },
        8 => {
            let a: u32 = pick_index(u, depth);
            Instruction::BrIf(a)
        },
        9 => draw_br_table(depth, u),
        10 => Instruction::Return,
        11 => {
            let a: u32 = pick_index(u, c.funcs.len());
            Instruction::Call(a)
        },
        12 => {
            let a: u32 = pick_index(u, c.types.len());
            let b: u32 = pick_index(u, c.tables.len());
            Instruction::CallIndirect { ty: a, table: b }
        },
        13 => Instruction::Drop,
        _ => Instruction::Select,
    }
}

/// The instruction that a family of an instruction on a local or a global proposes.
#[verifier::rlimit(50)]
fn propose_variable(
    c: &Context,
    kn: &Knobs,
    depth: usize,
    family: usize,
    u: &mut Entropy,
) -> (r: Instruction)
    requires
        kn@.valid(),
    ensures
        (r@, final(u)@) == variable_proposal(c@, kn@, depth, family, old(u)@),
        final(u).data == old(u).data,
        keeps_policy(c@, kn@, r@),
{
    match family {
        15 => {
            let a: u32 = pick_index(u, c.locals.len());
            Instruction::LocalGet(a)
        },
        16 => {
            let a: u32 = pick_index(u, c.locals.len());
            Instruction::LocalSet(a)
        },
        17 => {
            let a: u32 = pick_index(u, c.locals.len());
            Instruction::LocalTee(a)
        },
        18 => {
            let a: u32 = pick_index(u, c.globals.len());
            Instruction::GlobalGet(a)
        },
        _ => {
            let a: u32 = pick_index(u, c.globals.len());
            Instruction::GlobalSet(a)
        },
    }
}

/// The instruction that a family of a memory instruction proposes.
#[verifier::rlimit(50)]
fn propose_memory(
    c: &Context,
    kn: &Knobs,
    depth: usize,
    family: usize,
    u: &mut Entropy,
) -> (r: Instruction)
    requires
        kn@.valid(),
    ensures
        (r@, final(u)@) == memory_proposal(c@, kn@, depth, family, old(u)@),
        final(u).data == old(u).data,
        keeps_policy(c@, kn@, r@),
{
    match family {
        20 => {
            let j: usize = u.index(LOAD_COUNT);
            let m: MemArg = draw_mem_arg(c, kn, load_max_align(j), u);
            load_op(j, m)
        },
        21 => {
            let j: usize = u.index(STORE_COUNT);
            let m: MemArg = draw_mem_arg(c, kn, store_max_align(j), u);
            store_op(j, m)
        },
        22 => {
            let a: u32 = pick_index(u, c.memories.len());
            Instruction::MemorySize(a)
        },
        23 => {
            let a: u32 = pick_index(u, c.memories.len());
            Instruction::MemoryGrow(a)
        },
        24 => {
            let a: u32 = pick_index(u, c.memories.len());
            let b: u32 = pick_index(u, c.data);
            Instruction::MemoryInit { mem: a, data: b }
        },
        25 => {
            let a: u32 = pick_index(u, c.data);
            Instruction::DataDrop(a)
        },
        26 => {
            let a: u32 = pick_index(u, c.memories.len());
            let b: u32 = pick_index(u, c.memories.len());
            Instruction::MemoryCopy { src: a, dst: b }
        },
        _ => {
            let a: u32 = pick_index(u, c.memories.len());
            Instruction::MemoryFill(a)
        },
    }
}

/// The instruction that a family of a numeric instruction proposes.
#[verifier::rlimit(50)]
fn propose_numeric(
    c: &Context,
    kn: &Knobs,
    depth: usize,
    family: usize,
    u: &mut Entropy,
) -> (r: Instruction)
    requires
        kn@.valid(),
    ensures
        (r@, final(u)@) == numeric_proposal(c@, kn@, depth, family, old(u)@),
        final(u).data == old(u).data,
        keeps_policy(c@, kn@, r@),
{
    match family {
        28 => Instruction::I32Const(u.draw(0, 0xFFFF_FFFF) as u32 as i32),
        29 => Instruction::I64Const(u.draw(0, u64::MAX) as i64),
        30 => i32_unary_op(u.index(I32_UNARY_COUNT)),
        31 => i32_binary_op(u.index(I32_BINARY_COUNT)),
        32 => Instruction::I64Eqz,
        33 => i64_compare_op(u.index(I64_COMPARE_COUNT)),
        34 => i64_unary_op(u.index(I64_UNARY_COUNT)),
        35 => i64_binary_op(u.index(I64_BINARY_COUNT)),
        36 => Instruction::I32WrapI64,
        _ => i64_extend_op(u.index(I64_EXTEND_COUNT)),
    }
}

/// The instruction that a family of an instruction on references proposes.
#[verifier::rlimit(50)]
fn propose_reference(
    c: &Context,
    kn: &Knobs,
    depth: usize,
    family: usize,
    u: &mut Entropy,
) -> (r: Instruction)
    requires
        kn@.valid(),
    ensures
        (r@, final(u)@) == reference_proposal(c@, kn@, depth, family, old(u)@),
        final(u).data == old(u).data,
        keeps_policy(c@, kn@, r@),
{
    match family {
        38 => Instruction::TypedSelect(draw_val_type(c.reference_types, u)),
        39 => Instruction::RefNull(draw_ref_type(u)),
        40 => Instruction::RefIsNull,
        _ => {
            let a: u32 = pick_index(u, c.funcs.len());
            Instruction::RefFunc(a)
        },
    }
}

/// The instruction that a family of an instruction on tables or element segments
/// proposes.
#[verifier::rlimit(50)]
fn propose_table(
    c: &Context,
    kn: &Knobs,
    depth: usize,
    family: usize,
    u: &mut Entropy,
) -> (r: Instruction)
    requires
        kn@.valid(),
    ensures
        (r@, final(u)@) == table_proposal(c@, kn@, depth, family, old(u)@),
        final(u).data == old(u).data,
        keeps_policy(c@, kn@, r@),
{
    match family {
        42 => {
            let a: u32 = pick_index(u, c.elems.len());
            let b: u32 = pick_index(u, c.tables.len());
            Instruction::TableInit { segment: a, table: b }
        },
        43 => {
            let a: u32 = pick_index(u, c.elems.len());
            Instruction::ElemDrop { segment: a }
        },
        44 => {
            let a: u32 = pick_index(u, c.tables.len());
            Instruction::TableFill { table: a }
        },
        45 => {
            let a: u32 = pick_index(u, c.tables.len());
            Instruction::TableSet { table: a }
        },
        46 => {
            let a: u32 = pick_index(u, c.tables.len());
            Instruction::TableGet { table: a }
        },
        47 => {
            let a: u32 = pick_index(u, c.tables.len());
            Instruction::TableGrow { table: a }
        },
        48 => {
            let a: u32 = pick_index(u, c.tables.len());
            Instruction::TableSize { table: a }
        },
        _ => {
            let a: u32 = pick_index(u, c.tables.len());
            let b: u32 = pick_index(u, c.tables.len());
            Instruction::TableCopy { src: a, dst: b }
        },
    }
}

/// The instruction that a family proposes.
pub fn propose(
    c: &Context,
    kn: &Knobs,
    depth: usize,
    family: usize,
    u: &mut Entropy,
) -> (r: Instruction)
    requires
        kn@.valid(),
    ensures
        (r@, final(u)@) == proposal(c@, kn@, depth, family, old(u)@),
        final(u).data == old(u).data,
        keeps_policy(c@, kn@, r@),
{
    if family < 7 {
        propose_structure(c, kn, depth, family, u)
    } else if family < 15 {
        propose_branch(c, kn, depth, family, u)
    } else if family < 20 {
        propose_variable(c, kn, depth, family, u)
    } else if family < 28 {
        propose_memory(c, kn, depth, family, u)
    } else if family < 38 {
        propose_numeric(c, kn, depth, family, u)
    } else if family < 42 {
        propose_reference(c, kn, depth, family, u)
    } else {
        propose_table(c, kn, depth, family, u)
    }
}

/// One option of the selector: an instruction that is allowed, its action,
/// and the reader behind its immediates.
pub struct Choice<'a> {
    pub inst: Instruction,
    pub action: Action,
    pub rest: Entropy<'a>,
}

/// The options as pairs of an instruction and of what is left behind it.
pub open spec fn choices_view(v: Seq<Choice>) -> Seq<(InstructionView, Seq<u8>)> {
    Seq::new(v.len(), |i: int| (v[i].inst@, v[i].rest@))
}

/// What the selector knows of each of its options.
pub open spec fn good_choice(
    c: ContextView,
    kn: KnobsView,
    st: StackView,
    data: &[u8],
    ch: Choice,
) -> bool {
    &&& crate::typing::effect(c, ch.inst@) == Some(ch.action@)
    &&& crate::typing::admissible(c, st, ch.action@)
    &&& ch.action is End ==> st.frames.len() > 1
    &&& ch.rest.data == data
    &&& keeps_policy(c, kn, ch.inst@)
}

/// The options in a state: the proposals of all families that are allowed.
pub fn gather<'a>(c: &Context, kn: &Knobs, ck: &Validator, u: &Entropy<'a>) -> (v: Vec<Choice<'a>>)
    requires
        kn@.valid(),
        ck@.wf(),
        ck.frames.len() > 0,
    ensures
        choices_view(v@) == options(c@, kn@, ck@, u@, FAMILIES as nat),
        forall|i: int| 0 <= i < v.len() ==> good_choice(c@, kn@, ck@, u.data, #[trigger] v@[i]),
        v.len() >= 1,
{
    let depth: usize = ck.depth();
    let mut v: Vec<Choice<'a>> = Vec::new();
    let mut family: usize = 0;
    assert(choices_view(v@) =~= options(c@, kn@, ck@, u@, 0));
    while family < FAMILIES
        invariant
            family <= FAMILIES,
            kn@.valid(),
            ck@.wf(),
            ck.frames.len() > 0,
            depth == ck.frames.len(),
            choices_view(v@) == options(c@, kn@, ck@, u@, family as nat),
            forall|i: int|
                0 <= i < v.len() ==> good_choice(c@, kn@, ck@, u.data, #[trigger] v@[i]),
            family >= 1 ==> v.len() >= 1,
        decreases FAMILIES - family,
    {
        let mut probe: Entropy<'a> = *u;
        let inst: Instruction = propose(c, kn, depth, family, &mut probe);
        let ghost before = v@;
        match action_of(c, &inst) {
            Some(action) => {
                let closes_body: bool = match action {
                    Action::End => depth <= 1,
                    _ => false,
                };
                if !closes_body && ck.admits(c, &action) {
                    v.push(Choice { inst, action, rest: probe });
                    assert(choices_view(v@) =~= choices_view(before).push((inst@, probe@)));
                }
            },
            None => {},
        }
        family += 1;
    }
    v
}

/// Selects one instruction in a state, and takes its step.
pub fn select<'a>(
    c: &Context,
    kn: &Knobs,
    ck: &mut Validator,
    u: &mut Entropy<'a>,
) -> (inst: Instruction)
    requires
        kn@.valid(),
        old(ck)@.wf(),
        old(ck).frames.len() > 0,
    ensures
        (inst@, final(u)@) == choice(c@, kn@, old(ck)@, old(u)@),
        crate::typing::step(c@, old(ck)@, inst@) == Some(final(ck)@),
        final(ck)@.wf(),
        final(ck).frames.len() > 0,
        final(u).data == old(u).data,
        keeps_policy(c@, kn@, inst@),
{
    let raw: usize = u.index(FAMILIES);
    let mut all = gather(c, kn, ck, u);
    let j: usize = raw % all.len();
    let ghost listed = choices_view(all@);
    assert(listed[j as int] == (all@[j as int].inst@, all@[j as int].rest@));
    assert(good_choice(c@, kn@, ck@, u.data, all@[j as int]));
    let chosen: Choice<'a> = all.swap_remove(j);
    ck.apply(c, chosen.action);
    *u = chosen.rest;
    chosen.inst
}

/// Selects instructions until there are `max_instructions` of them or the
/// entropy has run out.
pub fn select_all<'a>(
    c: &Context,
    kn: &Knobs,
    ck: &mut Validator,
    u: &mut Entropy<'a>,
) -> (instrs: Vec<Instruction>)
    requires
        kn@.valid(),
        old(ck)@.wf(),
        old(ck).frames.len() > 0,
    ensures
        (crate::types::seq_view(instrs@), final(ck)@, final(u)@) == selected(
            c@,
            kn@,
            old(ck)@,
            old(u)@,
            kn.max_instructions as nat,
            Seq::empty(),
        ),
        crate::typing::run(c@, old(ck)@, crate::types::seq_view(instrs@)) == Some(final(ck)@),
        final(ck)@.wf(),
        final(ck).frames.len() > 0,
        final(u).data == old(u).data,
        body_keeps_policy(c@, kn@, crate::types::seq_view(instrs@)),
{
    let max: usize = kn.max_instructions;
    let mut instrs: Vec<Instruction> = Vec::new();
    let mut n: usize = 0;
    assert(crate::types::seq_view(instrs@) =~= Seq::empty());
    while n < max && !u.is_empty()
        invariant
            n <= max,
            max == kn.max_instructions,
            kn@.valid(),
            ck@.wf(),
            ck.frames.len() > 0,
            u.data == old(u).data,
            selected(c@, kn@, old(ck)@, old(u)@, max as nat, Seq::empty()) == selected(
                c@,
                kn@,
                ck@,
                u@,
                (max - n) as nat,
                crate::types::seq_view(instrs@),
            ),
            crate::typing::run(c@, old(ck)@, crate::types::seq_view(instrs@)) == Some(ck@),
            body_keeps_policy(c@, kn@, crate::types::seq_view(instrs@)),
        decreases max - n,
    {
        let ghost acc = crate::types::seq_view(instrs@);
        let inst: Instruction = select(c, kn, ck, u);
        proof {
            crate::types::seq_view_push(instrs@, inst);
            crate::typing::run_push(c@, old(ck)@, acc, inst@);
        }
        instrs.push(inst);
        n += 1;
    }
    instrs
}

/// Appends an instruction that is valid in the state, and takes its step.
fn emit(c: &Context, ck: &mut Validator, instrs: &mut Vec<Instruction>, inst: Instruction)
    requires
        old(ck)@.wf(),
        crate::typing::step(c@, old(ck)@, inst@) is Some,
    ensures
        crate::typing::step(c@, old(ck)@, inst@) == Some(final(ck)@),
        final(ck)@.wf(),
        crate::types::seq_view(final(instrs)@) == crate::types::seq_view(old(instrs)@).push(
            inst@,
        ),
{
    let ok: bool = ck.step(c, &inst);
    proof {
        crate::types::seq_view_push(instrs@, inst);
    }
    instrs.push(inst);
}

/// Closes the innermost frame, which is not that of the body itself.
fn close_top(c: &Context, ck: &mut Validator, instrs: &mut Vec<Instruction>)
    requires
        old(ck)@.wf(),
        old(ck).frames.len() > 1,
    ensures
        final(ck)@ == closed(old(ck)@),
        final(ck)@.wf(),
        crate::types::seq_view(final(instrs)@) == crate::types::seq_view(old(instrs)@)
            + closing_top(old(ck)@),
        crate::typing::run(c@, old(ck)@, closing_top(old(ck)@)) == Some(final(ck)@),
{
    let ghost st0 = ck@;
    let ghost acc = crate::types::seq_view(instrs@);
    let ghost mut done: Seq<InstructionView> = Seq::empty();
    if !ck.frame_done() {
        emit(c, ck, instrs, Instruction::Unreachable);
        proof {
            done = done.push(InstructionView::Unreachable);
            crate::typing::run_push(c@, st0, Seq::empty(), InstructionView::Unreachable);
        }
    }
    assert(ck@.frame_done());
    assert(crate::typing::run(c@, st0, done) == Some(ck@));
    let top = &ck.frames[ck.frames.len() - 1];
    let lopsided: bool = top.kind == crate::typing::FrameKind::If && !crate::types::same_val_types(
        &top.params,
        &top.results,
    );
    if lopsided {
        emit(c, ck, instrs, Instruction::Else);
        proof {
            crate::typing::run_push(c@, st0, done, InstructionView::Else);
            done = done.push(InstructionView::Else);
        }
        emit(c, ck, instrs, Instruction::Unreachable);
        proof {
            crate::typing::run_push(c@, st0, done, InstructionView::Unreachable);
            done = done.push(InstructionView::Unreachable);
        }
        assert(ck@.frame_done());
    }
    emit(c, ck, instrs, Instruction::End);
    proof {
        crate::typing::run_push(c@, st0, done, InstructionView::End);
        done = done.push(InstructionView::End);
        assert(done =~= closing_top(st0));
        assert(ck@.vals =~= closed(st0).vals);
        assert(ck@.frames =~= closed(st0).frames);
        assert(crate::types::seq_view(instrs@) =~= acc + closing_top(st0));
    }
}

/// A run over instructions that are put together is the run over the
/// first of them and, from where it ends, the run over the rest.
pub proof fn run_concat(
    c: ContextView,
    st: StackView,
    a: Seq<InstructionView>,
    b: Seq<InstructionView>,
)
    ensures
        crate::typing::run(c, st, a + b) == match crate::typing::run(c, st, a) {
            Some(mid) => crate::typing::run(c, mid, b),
            None => None,
        },
    decreases b.len(),
{
    if b.len() == 0 {
        assert(a + b =~= a);
    } else {
        run_concat(c, st, a, b.drop_last());
        assert((a + b).drop_last() =~= a + b.drop_last());
    }
}

/// Closes every open frame, and makes the body end well.
pub fn close(c: &Context, kn: &Knobs, ck: &mut Validator, instrs: &mut Vec<Instruction>)
    requires
        old(ck)@.wf(),
        old(ck).frames.len() > 0,
        crate::typing::run(c@, crate::typing::start(c@), crate::types::seq_view(old(instrs)@))
            == Some(old(ck)@),
        body_keeps_policy(c@, kn@, crate::types::seq_view(old(instrs)@)),
    ensures
        crate::types::seq_view(final(instrs)@) == closing(
            old(ck)@,
            crate::types::seq_view(old(instrs)@),
        ),
        crate::typing::body_ok(c@, crate::types::seq_view(final(instrs)@)),
        body_keeps_policy(c@, kn@, crate::types::seq_view(final(instrs)@)),
{
    let ghost st0 = ck@;
    let ghost acc0 = crate::types::seq_view(instrs@);
    while ck.depth() > 1
        invariant
            ck@.wf(),
            ck.frames.len() > 0,
            closing(st0, acc0) == closing(ck@, crate::types::seq_view(instrs@)),
            crate::typing::run(c@, crate::typing::start(c@), crate::types::seq_view(instrs@))
                == Some(ck@),
            body_keeps_policy(c@, kn@, crate::types::seq_view(instrs@)),
        decreases ck.frames.len(),
    {
        let ghost st = ck@;
        let ghost acc = crate::types::seq_view(instrs@);
        close_top(c, ck, instrs);
        proof {
            run_concat(c@, crate::typing::start(c@), acc, closing_top(st));
            let now = crate::types::seq_view(instrs@);
            assert forall|j: int| 0 <= j < now.len() implies keeps_policy(
                c@,
                kn@,
                #[trigger] now[j],
            ) by {
                if j < acc.len() {
                    assert(now[j] == acc[j]);
                } else {
                    assert(now[j] == closing_top(st)[j - acc.len()]);
                }
            }
        }
    }
    let ghost acc = crate::types::seq_view(instrs@);
    if !ck.frame_done() {
        emit(c, ck, instrs, Instruction::Unreachable);
        proof {
            crate::typing::run_push(
                c@,
                crate::typing::start(c@),
                acc,
                InstructionView::Unreachable,
            );
        }
    }
    proof {
        let now = crate::types::seq_view(instrs@);
        assert(ck@.frame_done());
        crate::typing::run_push(c@, crate::typing::start(c@), now, InstructionView::End);
        assert forall|j: int| 0 <= j < now.len() implies keeps_policy(
            c@,
            kn@,
            #[trigger] now[j],
        ) by {
            if j < acc.len() {
                assert(now[j] == acc[j]);
            }
        }
    }
}

/// Writes the body of a function: up to `max_instructions` selected
/// instructions, and the instructions that close what they left open.
pub fn generate_body<'a>(
    c: &Context,
    kn: &Knobs,
    u: &mut Entropy<'a>,
) -> (instrs: Vec<Instruction>)
    requires
        kn@.valid(),
    ensures
        (crate::types::seq_view(instrs@), final(u)@) == body(c@, kn@, old(u)@),
        crate::typing::body_ok(c@, crate::types::seq_view(instrs@)),
        body_keeps_policy(c@, kn@, crate::types::seq_view(instrs@)),
        final(u).data == old(u).data,
{
    let mut ck = Validator::new(c);
    let mut instrs = select_all(c, kn, &mut ck, u);
    close(c, kn, &mut ck, &mut instrs);
    instrs
}

} // verus!

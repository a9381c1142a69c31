//! The stages of the module builder behind the function index space:
//! tables, memories and globals.

use crate::config::{Knobs, KnobsView};
use crate::entropy::Entropy;
use crate::selector::{draw_ref_type, draw_val_type};
use crate::types::{
    GlobalType, Instruction, InstructionView, Limits, MemoryType, TableType, ValType,
};
use vstd::prelude::*;

verus! {

/// The limits drawn from `s`, and what is left: a minimum up to `floor`,
/// and, where one is required or a flag says so, a maximum between the
/// minimum and `ceiling`.
pub open spec fn limits_from(s: Seq<u8>, floor: u32, ceiling: u32, required: bool) -> (
    Limits,
    Seq<u8>,
) {
    let min = crate::entropy::draw_value(s, 0, floor as u64) as u32;
    let s1 = crate::entropy::draw_rest(s, 0, floor as u64);
    let bounded = required || crate::entropy::flag_value(s1);
    let s2 = if required {
        s1
    } else {
        crate::entropy::flag_rest(s1)
    };
    if bounded {
        (
            Limits {
                min,
                max: Some(crate::entropy::draw_value(s2, min as u64, ceiling as u64) as u32),
            },
            crate::entropy::draw_rest(s2, min as u64, ceiling as u64),
        )
    } else {
        (Limits { min, max: None }, s2)
    }
}

/// The table drawn from `s`, and what is left. Without reference types
/// every table holds function references.
pub open spec fn table_from(kn: KnobsView, s: Seq<u8>) -> (TableType, Seq<u8>) {
    let refs = kn.reference_types_enabled;
    let elem_ty = if refs {
        crate::selector::ref_type(s)
    } else {
        ValType::FuncRef
    };
    let s1 = if refs {
        crate::entropy::index_rest(s, 2)
    } else {
        s
    };
    let limits = limits_from(s1, kn.max_init_table_size, u32::MAX, false);
    (TableType { elem_ty, limits: limits.0 }, limits.1)
}

/// `n` tables drawn from `s`, and what is left.
pub open spec fn tables_n(kn: KnobsView, n: nat, s: Seq<u8>) -> (Seq<TableType>, Seq<u8>)
    decreases n,
{
    if n == 0 {
        (Seq::empty(), s)
    } else {
        let before = tables_n(kn, (n - 1) as nat, s);
        let t = table_from(kn, before.1);
        (before.0.push(t.0), t.1)
    }
}

/// The most tables: `max_tables`, and one at the most without reference
/// types.
pub open spec fn table_ceiling(kn: KnobsView) -> usize {
    if kn.reference_types_enabled || kn.max_tables <= 1 {
        kn.max_tables
    } else {
        1
    }
}

/// The tables of the module, and what is left of `s`.
pub open spec fn tables_from(kn: KnobsView, s: Seq<u8>) -> (Seq<TableType>, Seq<u8>) {
    tables_n(
        kn,
        crate::entropy::count_value(s, kn.min_tables as usize, table_ceiling(kn)) as nat,
        crate::entropy::count_rest(s, kn.min_tables as usize, table_ceiling(kn)),
    )
}

/// The memory drawn from `s`, and what is left.
pub open spec fn memory_from(kn: KnobsView, s: Seq<u8>) -> (MemoryType, Seq<u8>) {
    let limits = limits_from(
        s,
        kn.max_memory_pages,
        kn.max_memory_pages,
        kn.memory_max_size_required,
    );
    (MemoryType { limits: limits.0 }, limits.1)
}

/// `n` memories drawn from `s`, and what is left.
pub open spec fn memories_n(kn: KnobsView, n: nat, s: Seq<u8>) -> (Seq<MemoryType>, Seq<u8>)
    decreases n,
{
    if n == 0 {
        (Seq::empty(), s)
    } else {
        let before = memories_n(kn, (n - 1) as nat, s);
        let m = memory_from(kn, before.1);
        (before.0.push(m.0), m.1)
    }
}

/// The memories of the module, and what is left of `s`.
pub open spec fn memories_from(kn: KnobsView, s: Seq<u8>) -> (Seq<MemoryType>, Seq<u8>) {
    memories_n(
        kn,
        crate::entropy::count_value(s, kn.min_memories as usize, kn.max_memories) as nat,
        crate::entropy::count_rest(s, kn.min_memories as usize, kn.max_memories),
    )
}

/// The constant drawn from `s` that a global of the type `t` starts with,
/// and what is left: an integer for an integer type, and the null
/// reference for a reference type.
pub open spec fn init_from(t: ValType, s: Seq<u8>) -> (InstructionView, Seq<u8>) {
    match t {
        ValType::I32 => (
            InstructionView::I32Const(
                crate::entropy::draw_value(s, 0, 0xFFFF_FFFF) as u32 as i32,
            ),
            crate::entropy::draw_rest(s, 0, 0xFFFF_FFFF),
        ),
        ValType::I64 => (
            InstructionView::I64Const(crate::entropy::draw_value(s, 0, u64::MAX) as i64),
            crate::entropy::draw_rest(s, 0, u64::MAX),
        ),
        _ => (InstructionView::RefNull(t), s),
    }
}

/// The global drawn from `s` with its initial value, and what is left.
pub open spec fn global_from(kn: KnobsView, s: Seq<u8>) -> (
    GlobalType,
    InstructionView,
    Seq<u8>,
) {
    let refs = kn.reference_types_enabled;
    let val_type = crate::selector::val_type(refs, s);
    let s1 = crate::selector::val_type_rest(refs, s);
    let init = init_from(val_type, crate::entropy::flag_rest(s1));
    (GlobalType { val_type, mutable: crate::entropy::flag_value(s1) }, init.0, init.1)
}

/// `n` globals drawn from `s`, each defined at its own index, and what is
/// left.
pub open spec fn globals_n(kn: KnobsView, n: nat, s: Seq<u8>) -> (
    Seq<GlobalType>,
    Seq<(u32, InstructionView)>,
    Seq<u8>,
)
    decreases n,
{
    if n == 0 {
        (Seq::empty(), Seq::empty(), s)
    } else {
        let before = globals_n(kn, (n - 1) as nat, s);
        let g = global_from(kn, before.2);
        (before.0.push(g.0), before.1.push(((n - 1) as u32, g.1)), g.2)
    }
}

/// The globals of the module, and what is left of `s`.
pub open spec fn globals_from(kn: KnobsView, s: Seq<u8>) -> (
    Seq<GlobalType>,
    Seq<(u32, InstructionView)>,
    Seq<u8>,
) {
    globals_n(
        kn,
        crate::entropy::count_value(s, kn.min_globals, kn.max_globals) as nat,
        crate::entropy::count_rest(s, kn.min_globals, kn.max_globals),
    )
}

/// Draws limits.
pub fn draw_limits(u: &mut Entropy, floor: u32, ceiling: u32, required: bool) -> (r: Limits)
    requires
        floor <= ceiling,
    ensures
        (r, final(u)@) == limits_from(old(u)@, floor, ceiling, required),
        final(u).data == old(u).data,
        r.min <= floor,
        crate::valid::limits_ok(r, ceiling as nat),
        required ==> r.max is Some,
{
    let min: u32 = u.draw(0, floor as u64) as u32;
    let bounded: bool = required || u.flag();
    if bounded {
        Limits { min, max: Some(u.draw(min as u64, ceiling as u64) as u32) }
    } else {
        Limits { min, max: None }
    }
}

/// Draws the tables.
pub fn draw_tables(kn: &Knobs, u: &mut Entropy) -> (tables: Vec<TableType>)
    ensures
        (tables@, final(u)@) == tables_from(kn@, old(u)@),
        final(u).data == old(u).data,
        crate::valid::tables_ok(tables@, kn.reference_types_enabled),
        tables.len() <= kn.max_tables,
        crate::valid::least(kn.min_tables as int, table_ceiling(kn@) as int) <= tables.len(),
        forall|i: int|
            0 <= i < tables.len() ==> (#[trigger] tables@[i]).limits.min
                <= kn.max_init_table_size,
{
    let refs: bool = kn.reference_types_enabled;
    let ceiling: usize = if refs || kn.max_tables <= 1 {
        kn.max_tables
    } else {
        1
    };
    let n: usize = u.count(kn.min_tables as usize, ceiling);
    let ghost s0 = u@;
    let mut tables: Vec<TableType> = Vec::new();
    let mut i: usize = 0;
    while i < n
        invariant
            i <= n,
            n <= ceiling,
            refs == kn.reference_types_enabled,
            u.data == old(u).data,
            (tables@, u@) == tables_n(kn@, i as nat, s0),
            tables.len() == i,
            forall|j: int|
                0 <= j < tables.len() ==> crate::valid::table_ok(#[trigger] tables@[j], refs)
                    && tables@[j].limits.min <= kn.max_init_table_size,
        decreases n - i,
    {
        let elem_ty: ValType = if refs {
            draw_ref_type(u)
        } else {
            ValType::FuncRef
        };
        let limits: Limits = draw_limits(u, kn.max_init_table_size, 0xFFFF_FFFF, false);
        tables.push(TableType { elem_ty, limits });
        i += 1;
    }
    tables
}

/// Draws the memories.
pub fn draw_memories(kn: &Knobs, u: &mut Entropy) -> (memories: Vec<MemoryType>)
    requires
        kn@.valid(),
    ensures
        (memories@, final(u)@) == memories_from(kn@, old(u)@),
        final(u).data == old(u).data,
        crate::valid::memories_ok(memories@),
        memories.len() <= kn.max_memories,
        crate::valid::least(kn.min_memories as int, kn.max_memories as int) <= memories.len(),
        forall|i: int|
            0 <= i < memories.len() ==> crate::valid::memory_in_bounds(
                kn@,
                #[trigger] memories@[i],
            ),
{
    let n: usize = u.count(kn.min_memories as usize, kn.max_memories);
    let ghost s0 = u@;
    let mut memories: Vec<MemoryType> = Vec::new();
    let mut i: usize = 0;
    while i < n
        invariant
            i <= n,
            kn@.valid(),
            u.data == old(u).data,
            (memories@, u@) == memories_n(kn@, i as nat, s0),
            memories.len() == i,
            forall|j: int|
                0 <= j < memories.len() ==> crate::valid::memory_in_bounds(
                    kn@,
                    #[trigger] memories@[j],
                ),
        decreases n - i,
    {
        let limits: Limits = draw_limits(
            u,
            kn.max_memory_pages,
            kn.max_memory_pages,
            kn.memory_max_size_required,
        );
        memories.push(MemoryType { limits });
        i += 1;
    }
    memories
}

/// Draws the constant that a global of the type `t` starts with.
pub fn draw_init(t: ValType, u: &mut Entropy) -> (r: Instruction)
    ensures
        (r@, final(u)@) == init_from(t, old(u)@),
        final(u).data == old(u).data,
        crate::valid::const_expr_ok(r@, t, 0),
{
    match t {
        ValType::I32 => Instruction::I32Const(u.draw(0, 0xFFFF_FFFF) as u32 as i32),
        ValType::I64 => Instruction::I64Const(u.draw(0, u64::MAX) as i64),
        _ => Instruction::RefNull(t),
    }
}

/// Draws the globals and their initial values.
pub fn draw_globals(kn: &Knobs, u: &mut Entropy) -> (r: (Vec<GlobalType>, Vec<(u32, Instruction)>))
    requires
        kn@.valid(),
    ensures
        (r.0@, crate::module::defined_globals_view(r.1@), final(u)@) == globals_from(kn@, old(u)@),
        final(u).data == old(u).data,
        crate::valid::globals_ok(
            r.0@,
            crate::module::defined_globals_view(r.1@),
            kn.reference_types_enabled,
            0,
        ),
        r.0.len() <= kn.max_globals,
        crate::valid::least(kn.min_globals as int, kn.max_globals as int) <= r.0.len(),
{
    let refs: bool = kn.reference_types_enabled;
    let n: usize = u.count(kn.min_globals, kn.max_globals);
    let ghost s0 = u@;
    let mut globals: Vec<GlobalType> = Vec::new();
    let mut defined: Vec<(u32, Instruction)> = Vec::new();
    let mut i: usize = 0;
    assert(crate::module::defined_globals_view(defined@) =~= Seq::empty());
    while i < n
        invariant
            i <= n,
            n <= kn.max_globals,
            kn@.valid(),
            refs == kn.reference_types_enabled,
            u.data == old(u).data,
            (globals@, crate::module::defined_globals_view(defined@), u@) == globals_n(
                kn@,
                i as nat,
                s0,
            ),
            globals.len() == i,
            defined.len() == i,
            crate::valid::globals_ok(
                globals@,
                crate::module::defined_globals_view(defined@),
                refs,
                0,
            ),
        decreases n - i,
    {
        let val_type: ValType = draw_val_type(refs, u);
        let mutable: bool = u.flag();
        let init: Instruction = draw_init(val_type, u);
        let ghost before = crate::module::defined_globals_view(defined@);
        let ghost types = globals@;
        globals.push(GlobalType { val_type, mutable });
        defined.push((i as u32, init));
        proof {
            let now = crate::module::defined_globals_view(defined@);
            assert(now =~= before.push((i as u32, init@)));
            assert forall|j: int| 0 <= j < globals@.len() implies crate::valid::global_ok(
                globals@[j],
                #[trigger] now[j],
                j,
                refs,
                0,
            ) by {
                if j < i {
                    assert(now[j] == before[j]);
                    assert(globals@[j] == types[j]);
                } else {
                    assert(now[j] == (i as u32, init@));
                    assert(globals@[j].val_type == val_type);
                }
            }
            assert(now.len() == globals@.len());
        }
        i += 1;
    }
    (globals, defined)
}

/// Globals that are in order stay in order where there are more
/// functions.
pub proof fn globals_ok_with_funcs(
    globals: Seq<GlobalType>,
    defined: Seq<(u32, InstructionView)>,
    refs: bool,
    funcs: nat,
)
    requires
        crate::valid::globals_ok(globals, defined, refs, 0),
    ensures
        crate::valid::globals_ok(globals, defined, refs, funcs),
{
    assert forall|i: int| 0 <= i < globals.len() implies crate::valid::global_ok(
        globals[i],
        #[trigger] defined[i],
        i,
        refs,
        funcs,
    ) by {
        assert(crate::valid::global_ok(globals[i], defined[i], i, refs, 0));
    }
}

} // verus!

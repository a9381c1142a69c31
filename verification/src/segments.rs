//! The stage of the module builder that draws the element and the data
//! segments.
//!
//! An active segment needs a table or a memory to go into; the other kinds
//! of segments need the bulk memory proposal. Where no kind is possible
//! there are no segments. The offset of an active segment is a constant;
//! nothing keeps it within the table or the memory.

use crate::builder::draw_indices;
use crate::config::{Knobs, KnobsView};
use crate::entropy::Entropy;
use crate::module::{
    DataSegment, DataSegmentKind, DataSegmentKindView, DataSegmentView, ElementKind,
    ElementKindView, ElementSegment, ElementSegmentView, Elements, ElementsView,
};
use crate::selector::pick_index;
use crate::types::{Instruction, InstructionView, TableType, ValType};
use vstd::prelude::*;

verus! {

/// The indices of the tables among the first `n` that hold function
/// references, in order.
pub open spec fn funcref_tables(tables: Seq<TableType>, n: nat) -> Seq<u32>
    decreases n,
{
    if n == 0 {
        Seq::empty()
    } else {
        let before = funcref_tables(tables, (n - 1) as nat);
        if tables[n - 1].elem_ty == ValType::FuncRef {
            before.push((n - 1) as u32)
        } else {
            before
        }
    }
}

/// The offset drawn from `s`, and what is left: a constant of 32 bits.
pub open spec fn offset_from(s: Seq<u8>) -> (InstructionView, Seq<u8>) {
    (
        InstructionView::I32Const(crate::entropy::draw_value(s, 0, 0xFFFF_FFFF) as u32 as i32),
        crate::entropy::draw_rest(s, 0, 0xFFFF_FFFF),
    )
}

/// The number of kinds of element segments that are possible: the active
/// kind where there is a table of function references, and the passive
/// and the declared kind under the bulk memory proposal.
pub open spec fn elem_kinds(tables: nat, bulk: bool) -> usize {
    ((if tables > 0 {
        1int
    } else {
        0int
    }) + (if bulk {
        2int
    } else {
        0int
    })) as usize
}

/// The kind of an element segment drawn from `s`, and what is left. An
/// active segment draws its table and its offset; it names its table
/// unless that is the first.
pub open spec fn elem_kind_from(kn: KnobsView, tables: Seq<u32>, s: Seq<u8>) -> (
    ElementKindView,
    Seq<u8>,
) {
    let kinds = elem_kinds(tables.len(), kn.bulk_memory_enabled);
    let drawn = crate::entropy::index_value(s, kinds);
    let s1 = crate::entropy::index_rest(s, kinds);
    let kind = if tables.len() > 0 {
        drawn
    } else {
        (drawn + 1) as usize
    };
    if kind == 0 {
        let t = tables[crate::entropy::index_value(s1, tables.len() as usize) as int];
        let offset = offset_from(crate::entropy::index_rest(s1, tables.len() as usize));
        (
            ElementKindView::Active {
                table: if t == 0 {
                    None
                } else {
                    Some(t)
                },
                offset: offset.0,
            },
            offset.1,
        )
    } else if kind == 1 {
        (ElementKindView::Passive, s1)
    } else {
        (ElementKindView::Declared, s1)
    }
}

/// The element segment drawn from `s`, and what is left: its kind, the
/// number of its items, between `min_elements` and `max_elements`, and
/// the items, which are functions. Without functions it has no items.
pub open spec fn elem_from(kn: KnobsView, tables: Seq<u32>, funcs: nat, s: Seq<u8>) -> (
    ElementSegmentView,
    Seq<u8>,
) {
    let kind = elem_kind_from(kn, tables, s);
    let n = if funcs == 0 {
        0
    } else {
        crate::entropy::count_value(kind.1, kn.min_elements, kn.max_elements)
    };
    let s2 = if funcs == 0 {
        kind.1
    } else {
        crate::entropy::count_rest(kind.1, kn.min_elements, kn.max_elements)
    };
    let items = crate::selector::labels(funcs as usize, n as nat, s2);
    (
        ElementSegmentView {
            kind: kind.0,
            ty: ValType::FuncRef,
            items: ElementsView::Functions(items.0),
        },
        items.1,
    )
}

/// `n` element segments drawn from `s`, and what is left.
pub open spec fn elems_n(kn: KnobsView, tables: Seq<u32>, funcs: nat, n: nat, s: Seq<u8>) -> (
    Seq<ElementSegmentView>,
    Seq<u8>,
)
    decreases n,
{
    if n == 0 {
        (Seq::empty(), s)
    } else {
        let before = elems_n(kn, tables, funcs, (n - 1) as nat, s);
        let seg = elem_from(kn, tables, funcs, before.1);
        (before.0.push(seg.0), seg.1)
    }
}

/// The element segments of the module, and what is left of `s`.
pub open spec fn elems_from(kn: KnobsView, tables: Seq<TableType>, funcs: nat, s: Seq<u8>) -> (
    Seq<ElementSegmentView>,
    Seq<u8>,
) {
    let into = funcref_tables(tables, tables.len());
    if elem_kinds(into.len(), kn.bulk_memory_enabled) == 0 {
        (Seq::empty(), s)
    } else {
        elems_n(
            kn,
            into,
            funcs,
            crate::entropy::count_value(s, kn.min_element_segments, kn.max_element_segments) as nat,
            crate::entropy::count_rest(s, kn.min_element_segments, kn.max_element_segments),
        )
    }
}

/// The number of kinds of data segments that are possible: the active kind
/// where there is a memory, and the passive kind under the bulk memory
/// proposal.
pub open spec fn data_kinds(memories: nat, bulk: bool) -> usize {
    ((if memories > 0 {
        1int
    } else {
        0int
    }) + (if bulk {
        1int
    } else {
        0int
    })) as usize
}

/// The data segment drawn from `s`, and what is left: its kind, for an
/// active segment its memory and its offset, the number of its bytes,
/// between `min_data_elements` and `max_data_elements`, and the bytes.
pub open spec fn data_from(kn: KnobsView, memories: nat, s: Seq<u8>) -> (
    DataSegmentView,
    Seq<u8>,
) {
    let kinds = data_kinds(memories, kn.bulk_memory_enabled);
    let drawn = crate::entropy::index_value(s, kinds);
    let s1 = crate::entropy::index_rest(s, kinds);
    let active = memories > 0 && drawn == 0;
    let offset = offset_from(crate::selector::picked(s1, memories as usize));
    let s2 = if active {
        offset.1
    } else {
        s1
    };
    let n = crate::entropy::count_value(s2, kn.min_data_elements, kn.max_data_elements);
    let s3 = crate::entropy::count_rest(s2, kn.min_data_elements, kn.max_data_elements);
    (
        DataSegmentView {
            kind: if active {
                DataSegmentKindView::Active {
                    memory_index: crate::selector::pick(s1, memories as usize),
                    offset: offset.0,
                }
            } else {
                DataSegmentKindView::Passive
            },
            init: crate::entropy::fill_value(s3, n as nat),
        },
        crate::entropy::fill_rest(s3, n as nat),
    )
}

/// `n` data segments drawn from `s`, and what is left.
pub open spec fn data_n(kn: KnobsView, memories: nat, n: nat, s: Seq<u8>) -> (
    Seq<DataSegmentView>,
    Seq<u8>,
)
    decreases n,
{
    if n == 0 {
        (Seq::empty(), s)
    } else {
        let before = data_n(kn, memories, (n - 1) as nat, s);
        let seg = data_from(kn, memories, before.1);
        (before.0.push(seg.0), seg.1)
    }
}

/// The data segments of the module, and what is left of `s`.
pub open spec fn data_segments_from(kn: KnobsView, memories: nat, s: Seq<u8>) -> (
    Seq<DataSegmentView>,
    Seq<u8>,
) {
    if data_kinds(memories, kn.bulk_memory_enabled) == 0 {
        (Seq::empty(), s)
    } else {
        data_n(
            kn,
            memories,
            crate::entropy::count_value(s, kn.min_data_segments, kn.max_data_segments) as nat,
            crate::entropy::count_rest(s, kn.min_data_segments, kn.max_data_segments),
        )
    }
}

/// Whether the number of items of an element segment keeps between the
/// floor and the ceiling; without functions there are no items.
pub open spec fn items_in_bounds(kn: KnobsView, funcs: nat, n: nat) -> bool {
    n <= kn.max_elements && (funcs > 0 ==> crate::valid::least(
        kn.min_elements as int,
        kn.max_elements as int,
    ) <= n)
}

/// Whether the number of bytes of a data segment keeps between the floor
/// and the ceiling.
pub open spec fn bytes_in_bounds(kn: KnobsView, n: nat) -> bool {
    crate::valid::least(kn.min_data_elements as int, kn.max_data_elements as int) <= n
        <= kn.max_data_elements
}

/// Draws an offset.
fn draw_offset(u: &mut Entropy) -> (r: Instruction)
    ensures
        (r@, final(u)@) == offset_from(old(u)@),
        final(u).data == old(u).data,
        r@ is I32Const,
{
    Instruction::I32Const(u.draw(0, 0xFFFF_FFFF) as u32 as i32)
}

/// The indices of the tables that hold function references.
pub fn list_funcref_tables(tables: &Vec<TableType>) -> (r: Vec<u32>)
    requires
        tables.len() <= u32::MAX,
    ensures
        r@ == funcref_tables(tables@, tables.len() as nat),
        forall|i: int|
            0 <= i < r.len() ==> (#[trigger] r@[i]) < tables.len() && tables@[r@[i] as int].elem_ty
                == ValType::FuncRef,
{
    let mut r: Vec<u32> = Vec::new();
    let mut i: usize = 0;
    while i < tables.len()
        invariant
            i <= tables.len() <= u32::MAX,
            r@ == funcref_tables(tables@, i as nat),
            forall|j: int|
                0 <= j < r.len() ==> (#[trigger] r@[j]) < tables.len()
                    && tables@[r@[j] as int].elem_ty == ValType::FuncRef,
        decreases tables.len() - i,
    {
        if tables[i].elem_ty == ValType::FuncRef {
            r.push(i as u32);
        }
        i += 1;
    }
    r
}

/// Draws the kind of an element segment.
fn draw_elem_kind(kn: &Knobs, into: &Vec<u32>, u: &mut Entropy) -> (r: ElementKind)
    requires
        elem_kinds(into.len() as nat, kn.bulk_memory_enabled) > 0,
    ensures
        (r@, final(u)@) == elem_kind_from(kn@, into@, old(u)@),
        final(u).data == old(u).data,
        match r@ {
            ElementKindView::Active { table, offset } => into@.contains(
                match table {
                    Some(t) => t,
                    None => 0,
                },
            ) && offset is I32Const,
            _ => kn.bulk_memory_enabled,
        },
{
    let kinds: usize = (if into.len() > 0 { 1 } else { 0 }) + (if kn.bulk_memory_enabled {
        2
    } else {
        0
    });
    let drawn: usize = u.index(kinds);
    let kind: usize = if into.len() > 0 { drawn } else { drawn + 1 };
    if kind == 0 {
        let chosen: usize = u.index(into.len());
        let t: u32 = into[chosen];
        assert(into@[chosen as int] == t);
        let offset: Instruction = draw_offset(u);
        ElementKind::Active { table: if t == 0 { None } else { Some(t) }, offset }
    } else if kind == 1 {
        ElementKind::Passive
    } else {
        ElementKind::Declared
    }
}

/// Draws the element segments.
pub fn draw_elems(
    kn: &Knobs,
    tables: &Vec<TableType>,
    funcs: usize,
    u: &mut Entropy,
) -> (elems: Vec<ElementSegment>)
    requires
        kn@.valid(),
        tables.len() <= u32::MAX,
        funcs <= u32::MAX,
    ensures
        (crate::types::seq_view(elems@), final(u)@) == elems_from(
            kn@,
            tables@,
            funcs as nat,
            old(u)@,
        ),
        final(u).data == old(u).data,
        crate::valid::elems_ok(
            crate::types::seq_view(elems@),
            tables@,
            funcs as nat,
            kn.bulk_memory_enabled,
            kn.reference_types_enabled,
        ),
        elems.len() <= kn.max_element_segments,
        elem_kinds(
            funcref_tables(tables@, tables.len() as nat).len(),
            kn.bulk_memory_enabled,
        ) > 0 ==> crate::valid::least(
            kn.min_element_segments as int,
            kn.max_element_segments as int,
        ) <= elems.len(),
        forall|i: int|
            0 <= i < elems.len() ==> items_in_bounds(
                kn@,
                funcs as nat,
                (#[trigger] crate::types::seq_view(elems@)[i]).items.len(),
            ),
{
    let into: Vec<u32> = list_funcref_tables(tables);
    let mut elems: Vec<ElementSegment> = Vec::new();
    assert(crate::types::seq_view(elems@) =~= Seq::empty());
    if into.len() == 0 && !kn.bulk_memory_enabled {
        return elems;
    }
    let n: usize = u.count(kn.min_element_segments, kn.max_element_segments);
    let ghost s0 = u@;
    let mut i: usize = 0;
    while i < n
        invariant
            i <= n,
            kn@.valid(),
            funcs <= u32::MAX,
            elem_kinds(into.len() as nat, kn.bulk_memory_enabled) > 0,
            forall|j: int|
                0 <= j < into.len() ==> (#[trigger] into@[j]) < tables.len()
                    && tables@[into@[j] as int].elem_ty == ValType::FuncRef,
            u.data == old(u).data,
            (crate::types::seq_view(elems@), u@) == elems_n(
                kn@,
                into@,
                funcs as nat,
                i as nat,
                s0,
            ),
            elems.len() == i,
            forall|j: int|
                0 <= j < elems.len() ==> crate::valid::elem_ok(
                    #[trigger] crate::types::seq_view(elems@)[j],
                    tables@,
                    funcs as nat,
                    kn.bulk_memory_enabled,
                    kn.reference_types_enabled,
                ) && items_in_bounds(
                    kn@,
                    funcs as nat,
                    crate::types::seq_view(elems@)[j].items.len(),
                ),
        decreases n - i,
    {
        let ghost before = crate::types::seq_view(elems@);
        let kind: ElementKind = draw_elem_kind(kn, &into, u);
        let count: usize = if funcs == 0 {
            0
        } else {
            u.count(kn.min_elements, kn.max_elements)
        };
        let items: Vec<u32> = draw_indices(funcs, count, u);
        let seg = ElementSegment { kind, ty: ValType::FuncRef, items: Elements::Functions(items) };
        proof {
            crate::types::seq_view_push(elems@, seg);
            assert(crate::valid::elem_ok(
                seg@,
                tables@,
                funcs as nat,
                kn.bulk_memory_enabled,
                kn.reference_types_enabled,
            ));
        }
        elems.push(seg);
        proof {
            let now = crate::types::seq_view(elems@);
            assert forall|j: int| 0 <= j < elems.len() implies crate::valid::elem_ok(
                #[trigger] now[j],
                tables@,
                funcs as nat,
                kn.bulk_memory_enabled,
                kn.reference_types_enabled,
            ) && items_in_bounds(kn@, funcs as nat, now[j].items.len()) by {
                if j < i {
                    assert(now[j] == before[j]);
                }
            }
        }
        i += 1;
    }
    elems
}

/// Draws a data segment.
fn draw_data_segment(kn: &Knobs, memories: usize, u: &mut Entropy) -> (seg: DataSegment)
    requires
        data_kinds(memories as nat, kn.bulk_memory_enabled) > 0,
        memories <= u32::MAX,
    ensures
        (seg@, final(u)@) == data_from(kn@, memories as nat, old(u)@),
        final(u).data == old(u).data,
        crate::valid::data_segment_ok(seg@, memories as nat, kn.bulk_memory_enabled),
        bytes_in_bounds(kn@, seg@.init.len()),
{
    let kinds: usize = (if memories > 0 { 1 } else { 0 }) + (if kn.bulk_memory_enabled {
        1
    } else {
        0
    });
    let drawn: usize = u.index(kinds);
    let kind: DataSegmentKind = if memories > 0 && drawn == 0 {
        let memory_index: u32 = pick_index(u, memories);
        let offset: Instruction = draw_offset(u);
        DataSegmentKind::Active { memory_index, offset }
    } else {
        DataSegmentKind::Passive
    };
    let n: usize = u.count(kn.min_data_elements, kn.max_data_elements);
    let init: Vec<u8> = u.bytes(n);
    DataSegment { kind, init }
}

/// Draws the data segments.
pub fn draw_data(kn: &Knobs, memories: usize, u: &mut Entropy) -> (data: Vec<DataSegment>)
    requires
        memories <= u32::MAX,
    ensures
        (crate::types::seq_view(data@), final(u)@) == data_segments_from(
            kn@,
            memories as nat,
            old(u)@,
        ),
        final(u).data == old(u).data,
        crate::valid::data_ok(
            crate::types::seq_view(data@),
            memories as nat,
            kn.bulk_memory_enabled,
        ),
        data.len() <= kn.max_data_segments,
        data_kinds(memories as nat, kn.bulk_memory_enabled) > 0 ==> crate::valid::least(
            kn.min_data_segments as int,
            kn.max_data_segments as int,
        ) <= data.len(),
        forall|i: int|
            0 <= i < data.len() ==> bytes_in_bounds(
                kn@,
                (#[trigger] crate::types::seq_view(data@)[i]).init.len(),
            ),
{
    let mut data: Vec<DataSegment> = Vec::new();
    assert(crate::types::seq_view(data@) =~= Seq::empty());
    if memories == 0 && !kn.bulk_memory_enabled {
        return data;
    }
    let n: usize = u.count(kn.min_data_segments, kn.max_data_segments);
    let ghost s0 = u@;
    let mut i: usize = 0;
    while i < n
        invariant
            i <= n,
            memories <= u32::MAX,
            data_kinds(memories as nat, kn.bulk_memory_enabled) > 0,
            u.data == old(u).data,
            (crate::types::seq_view(data@), u@) == data_n(kn@, memories as nat, i as nat, s0),
            data.len() == i,
            forall|j: int|
                0 <= j < data.len() ==> crate::valid::data_segment_ok(
                    #[trigger] crate::types::seq_view(data@)[j],
                    memories as nat,
                    kn.bulk_memory_enabled,
                ) && bytes_in_bounds(kn@, crate::types::seq_view(data@)[j].init.len()),
        decreases n - i,
    {
        let ghost before = crate::types::seq_view(data@);
        let seg: DataSegment = draw_data_segment(kn, memories, u);
        proof {
            crate::types::seq_view_push(data@, seg);
        }
        data.push(seg);
        proof {
            let now = crate::types::seq_view(data@);
            assert forall|j: int| 0 <= j < data.len() implies crate::valid::data_segment_ok(
                #[trigger] now[j],
                memories as nat,
                kn.bulk_memory_enabled,
            ) && bytes_in_bounds(kn@, now[j].init.len()) by {
                if j < i {
                    assert(now[j] == before[j]);
                }
            }
        }
        i += 1;
    }
    data
}

} // verus!

//! The binary encoding of a module, section by section.
//!
//! The sections come in the order of the binary format: types and imports,
//! functions, tables, memories, globals, exports, start, elements, data
//! count, code, data. A section with nothing in it is left out.

use crate::binary::{
    put_bytes, put_const_expr, put_func_type, put_indices, put_instructions, put_len, put_name,
    put_u32, translate_global_type, translate_memory_type, translate_table_type,
    translate_val_type,
};
use crate::config::Config;
use crate::module::{
    Code, CodeView, ConfiguredModule, DataSegment, DataSegmentKind, DataSegmentKindView,
    DataSegmentView, ElementKind, ElementKindView, ElementSegment, ElementSegmentView, Elements,
    ElementsView, Import, ImportView, InitialSection, InitialSectionView, Instructions,
    InstructionsView, Module, ModuleView,
};
use crate::types::{
    Export, FuncType, FuncTypeView, FunctionType, GlobalType, Instruction, InstructionView,
    MemoryType, TableType, ValType,
};
use vstd::prelude::*;

verus! {

/// The eight bytes that open every module: the magic number and the
/// version.
pub open spec fn header() -> Seq<u8> {
    seq![0x00u8, 0x61u8, 0x73u8, 0x6Du8, 0x01u8, 0x00u8, 0x00u8, 0x00u8]
}

/// A section: its id, the size of what follows, the number of entries, and
/// the entries.
pub open spec fn section(id: u8, count: nat, payload: Seq<u8>, w: nat) -> Seq<u8> {
    let n = crate::leb::uleb(count, w);
    seq![id] + crate::leb::uleb(n.len() + payload.len(), w) + n + payload
}

/// A section that holds one number: its id, the size of the number, and
/// the number.
pub open spec fn number_section(id: u8, x: nat, w: nat) -> Seq<u8> {
    let n = crate::leb::uleb(x, w);
    seq![id] + crate::leb::uleb(n.len(), w) + n
}

/// The last `n` items of a sequence.
pub open spec fn defined<T>(s: Seq<T>, n: nat) -> Seq<T> {
    s.subrange(s.len() - n, s.len() as int)
}

/// The entries of a type section.
pub open spec fn func_types_bytes(ts: Seq<FuncTypeView>, w: nat) -> Seq<u8>
    decreases ts.len(),
{
    if ts.len() == 0 {
        Seq::empty()
    } else {
        func_types_bytes(ts.drop_last(), w) + crate::binary::func_type_bytes(ts.last(), w)
    }
}

/// What an import provides: the kind of a function, and its type index.
pub open spec fn entity_type_bytes(desc: FunctionType, w: nat) -> Seq<u8> {
    seq![0x00u8] + crate::leb::uleb(desc.type_index() as nat, w)
}

/// An import: the module name, the field name, and what is imported. An
/// import without a field name has the two bytes `0x00 0xFF` in its place.
pub open spec fn import_bytes(i: ImportView, w: nat) -> Seq<u8> {
    crate::binary::name_bytes(i.module, w) + match i.name {
        Some(n) => crate::binary::name_bytes(n, w),
        None => seq![0x00u8, 0xFFu8],
    } + entity_type_bytes(i.desc, w)
}

/// The entries of an import section.
pub open spec fn imports_bytes(is: Seq<ImportView>, w: nat) -> Seq<u8>
    decreases is.len(),
{
    if is.len() == 0 {
        Seq::empty()
    } else {
        imports_bytes(is.drop_last(), w) + import_bytes(is.last(), w)
    }
}

/// A type section or an import section; nothing where it has no entries.
pub open spec fn initial_section_bytes(s: InitialSectionView, w: nat) -> Seq<u8> {
    match s {
        InitialSectionView::Type(ts) => if ts.len() == 0 {
            Seq::empty()
        } else {
            section(1, ts.len(), func_types_bytes(ts, w), w)
        },
        InitialSectionView::Import(is) => if is.len() == 0 {
            Seq::empty()
        } else {
            section(2, is.len(), imports_bytes(is, w), w)
        },
    }
}

/// The type and import sections, in order.
pub open spec fn initial_sections_bytes(ss: Seq<InitialSectionView>, w: nat) -> Seq<u8>
    decreases ss.len(),
{
    if ss.len() == 0 {
        Seq::empty()
    } else {
        initial_sections_bytes(ss.drop_last(), w) + initial_section_bytes(ss.last(), w)
    }
}

/// The function section: the type index of every defined function.
pub open spec fn func_section(m: ModuleView, w: nat) -> Seq<u8> {
    if m.num_defined_funcs == 0 {
        Seq::empty()
    } else {
        section(
            3,
            m.num_defined_funcs as nat,
            crate::binary::indices_bytes(defined(m.funcs, m.num_defined_funcs as nat), w),
            w,
        )
    }
}

/// The entries of a table section.
pub open spec fn table_types_bytes(ts: Seq<TableType>, w: nat) -> Seq<u8>
    decreases ts.len(),
{
    if ts.len() == 0 {
        Seq::empty()
    } else {
        table_types_bytes(ts.drop_last(), w) + crate::binary::table_type_bytes(ts.last(), w)
    }
}

/// The table section: the type of every defined table.
pub open spec fn table_section(m: ModuleView, w: nat) -> Seq<u8> {
    if m.num_defined_tables == 0 {
        Seq::empty()
    } else {
        section(
            4,
            m.num_defined_tables as nat,
            table_types_bytes(defined(m.tables, m.num_defined_tables as nat), w),
            w,
        )
    }
}

/// The entries of a memory section.
pub open spec fn memory_types_bytes(ts: Seq<MemoryType>, w: nat) -> Seq<u8>
    decreases ts.len(),
{
    if ts.len() == 0 {
        Seq::empty()
    } else {
        memory_types_bytes(ts.drop_last(), w) + crate::binary::memory_type_bytes(ts.last(), w)
    }
}

/// The memory section: the type of every defined memory.
pub open spec fn memory_section(m: ModuleView, w: nat) -> Seq<u8> {
    if m.num_defined_memories == 0 {
        Seq::empty()
    } else {
        section(
            5,
            m.num_defined_memories as nat,
            memory_types_bytes(defined(m.memories, m.num_defined_memories as nat), w),
            w,
        )
    }
}

/// A defined global: its type, and the expression of its initial value.
pub open spec fn global_bytes(ty: GlobalType, init: InstructionView, w: nat) -> Seq<u8> {
    crate::binary::global_type_bytes(ty) + crate::binary::const_expr_bytes(init, w)
}

/// The entries of a global section.
pub open spec fn globals_bytes(
    defs: Seq<(u32, InstructionView)>,
    globals: Seq<GlobalType>,
    w: nat,
) -> Seq<u8>
    decreases defs.len(),
{
    if defs.len() == 0 {
        Seq::empty()
    } else {
        globals_bytes(defs.drop_last(), globals, w) + global_bytes(
            globals[defs.last().0 as int],
            defs.last().1,
            w,
        )
    }
}

/// The global section: every defined global. Where no global is defined
/// there is no section, whatever globals there are besides.
pub open spec fn global_section(m: ModuleView, w: nat) -> Seq<u8> {
    if m.defined_globals.len() == 0 {
        Seq::empty()
    } else {
        section(6, m.defined_globals.len(), globals_bytes(m.defined_globals, m.globals, w), w)
    }
}

/// The byte for the kind of an exported item.
pub open spec fn export_kind_byte(e: Export) -> u8 {
    match e {
        Export::Func(_) => 0x00,
        Export::Table(_) => 0x01,
        Export::Memory(_) => 0x02,
        Export::Global(_) => 0x03,
    }
}

/// The index of an exported item.
pub open spec fn export_index(e: Export) -> u32 {
    match e {
        Export::Func(x) => x,
        Export::Table(x) => x,
        Export::Memory(x) => x,
        Export::Global(x) => x,
    }
}

/// An export: its name, the kind of the item and the item's index.
pub open spec fn export_bytes(e: (Seq<char>, Export), w: nat) -> Seq<u8> {
    crate::binary::name_bytes(e.0, w) + seq![export_kind_byte(e.1)] + crate::leb::uleb(
        export_index(e.1) as nat,
        w,
    )
}

/// The entries of an export section.
pub open spec fn exports_bytes(es: Seq<(Seq<char>, Export)>, w: nat) -> Seq<u8>
    decreases es.len(),
{
    if es.len() == 0 {
        Seq::empty()
    } else {
        exports_bytes(es.drop_last(), w) + export_bytes(es.last(), w)
    }
}

/// The export section.
pub open spec fn export_section(m: ModuleView, w: nat) -> Seq<u8> {
    if m.exports.len() == 0 {
        Seq::empty()
    } else {
        section(7, m.exports.len(), exports_bytes(m.exports, w), w)
    }
}

/// The start section: the index of the start function.
pub open spec fn start_section(m: ModuleView, w: nat) -> Seq<u8> {
    match m.start {
        Some(f) => number_section(8, f as nat, w),
        None => Seq::empty(),
    }
}

/// One item of an element segment that lists expressions: a reference to
/// a function, or the null reference of the segment's type.
pub open spec fn element_expr_bytes(e: Option<u32>, ty: ValType, w: nat) -> Seq<u8> {
    match e {
        Some(f) => crate::binary::const_expr_bytes(InstructionView::RefFunc(f), w),
        None => crate::binary::const_expr_bytes(InstructionView::RefNull(ty), w),
    }
}

/// The expressions of an element segment.
pub open spec fn element_exprs_bytes(es: Seq<Option<u32>>, ty: ValType, w: nat) -> Seq<u8>
    decreases es.len(),
{
    if es.len() == 0 {
        Seq::empty()
    } else {
        element_exprs_bytes(es.drop_last(), ty, w) + element_expr_bytes(es.last(), ty, w)
    }
}

/// The bit of an element segment's flags that says that its items are
/// expressions.
pub open spec fn element_expr_bit(items: ElementsView) -> u32 {
    match items {
        ElementsView::Functions(_) => 0,
        ElementsView::Expressions(_) => 4,
    }
}

/// How an element segment says what its items are: the element kind zero
/// for function indices, the reference type for expressions.
pub open spec fn element_kind_bytes(seg: ElementSegmentView) -> Seq<u8> {
    match seg.items {
        ElementsView::Functions(_) => seq![0x00u8],
        ElementsView::Expressions(_) => seq![crate::binary::val_type_byte(seg.ty)],
    }
}

/// The items of an element segment, behind their count.
pub open spec fn element_items_bytes(seg: ElementSegmentView, w: nat) -> Seq<u8> {
    match seg.items {
        ElementsView::Functions(fs) => crate::leb::uleb(fs.len(), w)
            + crate::binary::indices_bytes(fs, w),
        ElementsView::Expressions(es) => crate::leb::uleb(es.len(), w) + element_exprs_bytes(
            es,
            seg.ty,
            w,
        ),
    }
}

/// How an element segment opens: its flags, and what its mode needs. An
/// active segment of table zero that names no table has neither a table
/// index nor an element kind.
pub open spec fn element_mode_bytes(seg: ElementSegmentView, w: nat) -> Seq<u8> {
    let bit = element_expr_bit(seg.items);
    match seg.kind {
        ElementKindView::Active { table: None, offset } => crate::leb::uleb(bit as nat, w)
            + crate::binary::const_expr_bytes(offset, w),
        ElementKindView::Passive => crate::leb::uleb((1 + bit) as nat, w) + element_kind_bytes(
            seg,
        ),
        ElementKindView::Active { table: Some(t), offset } => crate::leb::uleb(
            (2 + bit) as nat,
            w,
        ) + crate::leb::uleb(t as nat, w) + crate::binary::const_expr_bytes(offset, w)
            + element_kind_bytes(seg),
        ElementKindView::Declared => crate::leb::uleb((3 + bit) as nat, w) + element_kind_bytes(
            seg,
        ),
    }
}

/// An element segment: how it opens, then its items.
pub open spec fn element_segment_bytes(seg: ElementSegmentView, w: nat) -> Seq<u8> {
    element_mode_bytes(seg, w) + element_items_bytes(seg, w)
}

/// The entries of an element section.
pub open spec fn element_segments_bytes(segs: Seq<ElementSegmentView>, w: nat) -> Seq<u8>
    decreases segs.len(),
{
    if segs.len() == 0 {
        Seq::empty()
    } else {
        element_segments_bytes(segs.drop_last(), w) + element_segment_bytes(segs.last(), w)
    }
}

/// The element section.
pub open spec fn element_section(m: ModuleView, w: nat) -> Seq<u8> {
    if m.elems.len() == 0 {
        Seq::empty()
    } else {
        section(9, m.elems.len(), element_segments_bytes(m.elems, w), w)
    }
}

/// The data count section: the number of data segments. It is there only
/// under the bulk memory proposal, and only if there is a data segment.
pub open spec fn data_count_section(m: ModuleView, w: nat) -> Seq<u8> {
    if m.knobs.bulk_memory_enabled && m.data.len() > 0 {
        number_section(12, m.data.len(), w)
    } else {
        Seq::empty()
    }
}

/// The declarations of locals: one run of length one for every local.
pub open spec fn locals_bytes(ls: Seq<ValType>, w: nat) -> Seq<u8>
    decreases ls.len(),
{
    if ls.len() == 0 {
        Seq::empty()
    } else {
        locals_bytes(ls.drop_last(), w) + crate::leb::uleb(1, w)
            + seq![crate::binary::val_type_byte(ls.last())]
    }
}

/// A function body: the locals behind their count, then the generated
/// instructions and the closing `end`, or the arbitrary bytes as they are.
pub open spec fn body_bytes(c: CodeView, w: nat) -> Seq<u8> {
    crate::leb::uleb(c.locals.len(), w) + locals_bytes(c.locals, w) + match c.instructions {
        InstructionsView::Generated(is) => crate::binary::instrs_bytes(is, w) + seq![0x0Bu8],
        InstructionsView::Arbitrary(bytes) => bytes,
    }
}

/// An entry of the code section: a function body behind its size.
pub open spec fn code_bytes(c: CodeView, w: nat) -> Seq<u8> {
    crate::leb::uleb(body_bytes(c, w).len(), w) + body_bytes(c, w)
}

/// The entries of a code section.
pub open spec fn codes_bytes(cs: Seq<CodeView>, w: nat) -> Seq<u8>
    decreases cs.len(),
{
    if cs.len() == 0 {
        Seq::empty()
    } else {
        codes_bytes(cs.drop_last(), w) + code_bytes(cs.last(), w)
    }
}

/// The code section.
pub open spec fn code_section(m: ModuleView, w: nat) -> Seq<u8> {
    if m.code.len() == 0 {
        Seq::empty()
    } else {
        section(10, m.code.len(), codes_bytes(m.code, w), w)
    }
}

/// A data segment: its mode, then its bytes behind their count. An active
/// segment of memory zero does not name its memory.
pub open spec fn data_segment_bytes(d: DataSegmentView, w: nat) -> Seq<u8> {
    (match d.kind {
        DataSegmentKindView::Passive => seq![0x01u8],
        DataSegmentKindView::Active { memory_index, offset } => if memory_index == 0 {
            seq![0x00u8] + crate::binary::const_expr_bytes(offset, w)
        } else {
            seq![0x02u8] + crate::leb::uleb(memory_index as nat, w)
                + crate::binary::const_expr_bytes(offset, w)
        },
    }) + crate::leb::uleb(d.init.len(), w) + d.init
}

/// The entries of a data section.
pub open spec fn data_segments_bytes(ds: Seq<DataSegmentView>, w: nat) -> Seq<u8>
    decreases ds.len(),
{
    if ds.len() == 0 {
        Seq::empty()
    } else {
        data_segments_bytes(ds.drop_last(), w) + data_segment_bytes(ds.last(), w)
    }
}

/// The data section.
pub open spec fn data_section(m: ModuleView, w: nat) -> Seq<u8> {
    if m.data.len() == 0 {
        Seq::empty()
    } else {
        section(11, m.data.len(), data_segments_bytes(m.data, w), w)
    }
}

/// The sections of a module behind the header, in order.
pub open spec fn sections_bytes(m: ModuleView, w: nat) -> Seq<u8> {
    initial_sections_bytes(m.initial_sections, w) + func_section(m, w) + table_section(m, w)
        + memory_section(m, w) + global_section(m, w) + export_section(m, w) + start_section(
        m,
        w,
    ) + element_section(m, w) + data_count_section(m, w) + code_section(m, w) + data_section(
        m,
        w,
    )
}

/// The binary encoding of a module: the header and the sections, with
/// every unsigned integer as wide as the module's `min_uleb_size`.
pub open spec fn module_bytes(m: ModuleView) -> Seq<u8> {
    header() + sections_bytes(m, m.knobs.min_uleb_size as nat)
}

/// The names of the exports that are functions, in order.
pub open spec fn function_export_names(es: Seq<(Seq<char>, Export)>) -> Seq<Seq<char>>
    decreases es.len(),
{
    if es.len() == 0 {
        Seq::empty()
    } else if es.last().1 is Func {
        function_export_names(es.drop_last()).push(es.last().0)
    } else {
        function_export_names(es.drop_last())
    }
}

/// The views of a list of names.
pub open spec fn names_view(names: Seq<&String>) -> Seq<Seq<char>> {
    Seq::new(names.len(), |i: int| names[i]@)
}

/// Appending is associative.
proof fn append_assoc(a: Seq<u8>, b: Seq<u8>, c: Seq<u8>)
    ensures
        (a + b) + c == a + (b + c),
{
    assert((a + b) + c =~= a + (b + c));
}

/// Appends a section with the given entries.
fn put_section(out: &mut Vec<u8>, id: u8, count: usize, payload: &Vec<u8>, w: u8)
    ensures
        final(out)@ == old(out)@ + section(id, count as nat, payload@, w as nat),
{
    let mut n: Vec<u8> = Vec::new();
    put_len(&mut n, count, w);
    assert(n@ =~= crate::leb::uleb(count as nat, w as nat));
    out.push(id);
    crate::leb::write_uleb(out, n.len() as u128 + payload.len() as u128, w);
    put_bytes(out, n.as_slice());
    put_bytes(out, payload.as_slice());
    assert(out@ =~= old(out)@ + section(id, count as nat, payload@, w as nat));
}

/// Appends a section that holds one number.
fn put_number_section(out: &mut Vec<u8>, id: u8, x: usize, w: u8)
    ensures
        final(out)@ == old(out)@ + number_section(id, x as nat, w as nat),
{
    let mut n: Vec<u8> = Vec::new();
    put_len(&mut n, x, w);
    assert(n@ =~= crate::leb::uleb(x as nat, w as nat));
    out.push(id);
    put_len(out, n.len(), w);
    put_bytes(out, n.as_slice());
    assert(out@ =~= old(out)@ + number_section(id, x as nat, w as nat));
}

/// Appends what an import provides.
fn translate_entity_type(out: &mut Vec<u8>, ty: &FunctionType, w: u8)
    ensures
        final(out)@ == old(out)@ + entity_type_bytes(*ty, w as nat),
{
    match ty {
        FunctionType::Func(f) => {
            out.push(0x00);
            put_u32(out, *f, w);
        },
    }
    assert(out@ =~= old(out)@ + entity_type_bytes(*ty, w as nat));
}

/// Appends an export.
fn translate_export(out: &mut Vec<u8>, name: &String, export: &Export, w: u8)
    ensures
        final(out)@ == old(out)@ + export_bytes((name@, *export), w as nat),
{
    put_name(out, name.as_str(), w);
    match export {
        Export::Func(idx) => {
            out.push(0x00);
            put_u32(out, *idx, w);
        },
        Export::Table(idx) => {
            out.push(0x01);
            put_u32(out, *idx, w);
        },
        Export::Memory(idx) => {
            out.push(0x02);
            put_u32(out, *idx, w);
        },
        Export::Global(idx) => {
            out.push(0x03);
            put_u32(out, *idx, w);
        },
    }
    assert(out@ =~= old(out)@ + export_bytes((name@, *export), w as nat));
}

/// Appends an import.
fn put_import(out: &mut Vec<u8>, import: &Import, w: u8)
    ensures
        final(out)@ == old(out)@ + import_bytes(import@, w as nat),
{
    put_name(out, import.module.as_str(), w);
    match &import.name {
        Some(name) => {
            put_name(out, name.as_str(), w);
        },
        None => {
            out.push(0x00);
            out.push(0xFF);
        },
    }
    translate_entity_type(out, &import.desc, w);
    assert(out@ =~= old(out)@ + import_bytes(import@, w as nat));
}

/// Appends the items of an element segment that lists expressions.
fn put_element_exprs(out: &mut Vec<u8>, es: &Vec<Option<u32>>, ty: ValType, w: u8)
    ensures
        final(out)@ == old(out)@ + element_exprs_bytes(es@, ty, w as nat),
{
    let mut i: usize = 0;
    assert(out@ =~= old(out)@ + element_exprs_bytes(es@.take(0), ty, w as nat));
    while i < es.len()
        invariant
            i <= es.len(),
            out@ == old(out)@ + element_exprs_bytes(es@.take(i as int), ty, w as nat),
        decreases es.len() - i,
    {
        match es[i] {
            Some(f) => {
                put_const_expr(out, &Instruction::RefFunc(f), w);
            },
            None => {
                put_const_expr(out, &Instruction::RefNull(ty), w);
            },
        }
        proof {
            assert(es@.take(i + 1).drop_last() =~= es@.take(i as int));
            assert(out@ =~= old(out)@ + element_exprs_bytes(es@.take(i + 1), ty, w as nat));
        }
        i += 1;
    }
    assert(es@.take(es.len() as int) =~= es@);
}

/// Appends how an element segment says what its items are.
fn put_element_kind(out: &mut Vec<u8>, seg: &ElementSegment)
    ensures
        final(out)@ == old(out)@ + element_kind_bytes(seg@),
{
    match &seg.items {
        Elements::Functions(_) => {
            out.push(0x00);
        },
        Elements::Expressions(_) => {
            out.push(translate_val_type(seg.ty));
        },
    }
    assert(out@ =~= old(out)@ + element_kind_bytes(seg@));
}

/// Appends how an element segment opens.
fn put_element_mode(out: &mut Vec<u8>, seg: &ElementSegment, w: u8)
    ensures
        final(out)@ == old(out)@ + element_mode_bytes(seg@, w as nat),
{
    let bit: u32 = match &seg.items {
        Elements::Functions(_) => 0,
        Elements::Expressions(_) => 4,
    };
    match &seg.kind {
        ElementKind::Active { table: None, offset } => {
            put_u32(out, bit, w);
            put_const_expr(out, offset, w);
            assert(out@ =~= old(out)@ + element_mode_bytes(seg@, w as nat));
        },
        ElementKind::Passive => {
            put_u32(out, 1 + bit, w);
            put_element_kind(out, seg);
            assert(out@ =~= old(out)@ + element_mode_bytes(seg@, w as nat));
        },
        ElementKind::Active { table: Some(t), offset } => {
            put_u32(out, 2 + bit, w);
            put_u32(out, *t, w);
            put_const_expr(out, offset, w);
            put_element_kind(out, seg);
            assert(out@ =~= old(out)@ + element_mode_bytes(seg@, w as nat));
        },
        ElementKind::Declared => {
            put_u32(out, 3 + bit, w);
            put_element_kind(out, seg);
            assert(out@ =~= old(out)@ + element_mode_bytes(seg@, w as nat));
        },
    }
}

/// Appends the items of an element segment, behind their count.
fn put_element_items(out: &mut Vec<u8>, seg: &ElementSegment, w: u8)
    ensures
        final(out)@ == old(out)@ + element_items_bytes(seg@, w as nat),
{
    match &seg.items {
        Elements::Functions(fs) => {
            put_len(out, fs.len(), w);
            put_indices(out, fs, w);
        },
        Elements::Expressions(es) => {
            put_len(out, es.len(), w);
            put_element_exprs(out, es, seg.ty, w);
        },
    }
    assert(out@ =~= old(out)@ + element_items_bytes(seg@, w as nat));
}

/// Appends an element segment.
fn put_element_segment(out: &mut Vec<u8>, seg: &ElementSegment, w: u8)
    ensures
        final(out)@ == old(out)@ + element_segment_bytes(seg@, w as nat),
{
    put_element_mode(out, seg, w);
    put_element_items(out, seg, w);
    assert(out@ =~= old(out)@ + element_segment_bytes(seg@, w as nat));
}

/// Appends a data segment.
fn put_data_segment(out: &mut Vec<u8>, seg: &DataSegment, w: u8)
    ensures
        final(out)@ == old(out)@ + data_segment_bytes(seg@, w as nat),
{
    match &seg.kind {
        DataSegmentKind::Active { memory_index, offset } => {
            if *memory_index == 0 {
                out.push(0x00);
                put_const_expr(out, offset, w);
            } else {
                out.push(0x02);
                put_u32(out, *memory_index, w);
                put_const_expr(out, offset, w);
            }
        },
        DataSegmentKind::Passive => {
            out.push(0x01);
        },
    }
    put_len(out, seg.init.len(), w);
    put_bytes(out, seg.init.as_slice());
    assert(out@ =~= old(out)@ + data_segment_bytes(seg@, w as nat));
}

/// Appends the declarations of locals.
fn put_locals(out: &mut Vec<u8>, locals: &Vec<ValType>, w: u8)
    ensures
        final(out)@ == old(out)@ + locals_bytes(locals@, w as nat),
{
    let mut i: usize = 0;
    assert(out@ =~= old(out)@ + locals_bytes(locals@.take(0), w as nat));
    while i < locals.len()
        invariant
            i <= locals.len(),
            out@ == old(out)@ + locals_bytes(locals@.take(i as int), w as nat),
        decreases locals.len() - i,
    {
        // No run-length compression: a length of one for every local.
        put_u32(out, 1, w);
        out.push(translate_val_type(locals[i]));
        proof {
            assert(locals@.take(i + 1).drop_last() =~= locals@.take(i as int));
            assert(out@ =~= old(out)@ + locals_bytes(locals@.take(i + 1), w as nat));
        }
        i += 1;
    }
    assert(locals@.take(locals.len() as int) =~= locals@);
}

/// Appends an entry of the code section.
fn put_code(out: &mut Vec<u8>, code: &Code, w: u8)
    ensures
        final(out)@ == old(out)@ + code_bytes(code@, w as nat),
{
    let mut body: Vec<u8> = Vec::new();
    put_len(&mut body, code.locals.len(), w);
    put_locals(&mut body, &code.locals, w);
    match &code.instructions {
        Instructions::Generated(instrs) => {
            put_instructions(&mut body, instrs, w);
            body.push(0x0B);
        },
        Instructions::Arbitrary(bytes) => {
            put_bytes(&mut body, bytes.as_slice());
        },
    }
    assert(body@ =~= body_bytes(code@, w as nat));
    put_len(out, body.len(), w);
    put_bytes(out, body.as_slice());
}

impl Module {
    /// Encode this module into bytes.
    pub fn to_bytes(&self) -> (bytes: Vec<u8>)
        requires
            self@.encodable(),
        ensures
            bytes@ == module_bytes(self@),
    {
        self.inner.to_bytes()
    }
}

impl<C: Config> ConfiguredModule<C> {
    /// Encode this module into bytes.
    pub fn to_bytes(&self) -> (bytes: Vec<u8>)
        requires
            self@.encodable(),
        ensures
            bytes@ == module_bytes(self@),
    {
        self.encoded()
    }

    /// Encode this module into bytes, unless its counts of defined items
    /// or the index of a defined global are out of range.
    pub fn encode(&self) -> (r: Option<Vec<u8>>)
        ensures
            match r {
                Some(bytes) => self@.encodable() && bytes@ == module_bytes(self@),
                None => !self@.encodable(),
            },
    {
        if self.num_defined_funcs > self.funcs.len() || self.num_defined_tables
            > self.tables.len() || self.num_defined_memories > self.memories.len() {
            return None;
        }
        let ghost defs = self@.defined_globals;
        let mut i: usize = 0;
        while i < self.defined_globals.len()
            invariant
                i <= self.defined_globals.len(),
                defs == self@.defined_globals,
                defs.len() == self.defined_globals.len(),
                forall|j: int| 0 <= j < i ==> (#[trigger] defs[j]).0 < self.globals.len(),
            decreases self.defined_globals.len() - i,
        {
            if self.defined_globals[i].0 as usize >= self.globals.len() {
                assert(!(defs[i as int].0 < self.globals.len()));
                return None;
            }
            i += 1;
        }
        Some(self.encoded())
    }

    /// The names of the functions that this module exports, in the order
    /// of the exports.
    pub fn exports(&self) -> (names: Vec<&String>)
        ensures
            names_view(names@) == function_export_names(self@.exports),
    {
        let mut names: Vec<&String> = Vec::new();
        let ghost all = self@.exports;
        let mut i: usize = 0;
        assert(names_view(names@) =~= function_export_names(all.take(0)));
        while i < self.exports.len()
            invariant
                i <= self.exports.len(),
                all == self@.exports,
                all.len() == self.exports.len(),
                names_view(names@) == function_export_names(all.take(i as int)),
            decreases self.exports.len() - i,
        {
            proof {
                assert(all.take(i + 1).drop_last() =~= all.take(i as int));
                assert(all.take(i + 1).last() == all[i as int]);
            }
            let ghost before = names@;
            match &self.exports[i].1 {
                Export::Func(_) => {
                    names.push(&self.exports[i].0);
                    assert(names_view(names@) =~= names_view(before).push(all[i as int].0));
                },
                _ => {},
            }
            i += 1;
        }
        assert(all.take(all.len() as int) =~= all);
        names
    }

    /// Encodes this module: the header, and behind it every section that
    /// has an entry, in the order of the binary format.
    pub fn encoded(&self) -> (bytes: Vec<u8>)
        requires
            self@.encodable(),
        ensures
            bytes@ == module_bytes(self@),
    {
        let w: u8 = self.knobs.min_uleb_size;
        let mut module: Vec<u8> = Vec::new();
        module.push(0x00);
        module.push(0x61);
        module.push(0x73);
        module.push(0x6D);
        module.push(0x01);
        module.push(0x00);
        module.push(0x00);
        module.push(0x00);
        assert(module@ =~= header());

        self.encode_initializers(&mut module, w);
        let ghost mut done: Seq<u8> = initial_sections_bytes(self@.initial_sections, w as nat);
        self.encode_funcs(&mut module, w);
        proof {
            let next = func_section(self@, w as nat);
            append_assoc(header(), done, next);
            done = done + next;
        }
        self.encode_tables(&mut module, w);
        proof {
            let next = table_section(self@, w as nat);
            append_assoc(header(), done, next);
            done = done + next;
        }
        self.encode_memories(&mut module, w);
        proof {
            let next = memory_section(self@, w as nat);
            append_assoc(header(), done, next);
            done = done + next;
        }
        self.encode_globals(&mut module, w);
        proof {
            let next = global_section(self@, w as nat);
            append_assoc(header(), done, next);
            done = done + next;
        }
        self.encode_exports(&mut module, w);
        proof {
            let next = export_section(self@, w as nat);
            append_assoc(header(), done, next);
            done = done + next;
        }
        self.encode_start(&mut module, w);
        proof {
            let next = start_section(self@, w as nat);
            append_assoc(header(), done, next);
            done = done + next;
        }
        self.encode_elems(&mut module, w);
        proof {
            let next = element_section(self@, w as nat);
            append_assoc(header(), done, next);
            done = done + next;
        }
        self.encode_data_count(&mut module, w);
        proof {
            let next = data_count_section(self@, w as nat);
            append_assoc(header(), done, next);
            done = done + next;
        }
        self.encode_code(&mut module, w);
        proof {
            let next = code_section(self@, w as nat);
            append_assoc(header(), done, next);
            done = done + next;
        }
        self.encode_data(&mut module, w);
        proof {
            let next = data_section(self@, w as nat);
            append_assoc(header(), done, next);
            done = done + next;
        }
        module
    }

    /// Appends the type and import sections, in the order in which the
    /// module lists them.
    pub fn encode_initializers(&self, module: &mut Vec<u8>, w: u8)
        ensures
            final(module)@ == old(module)@ + initial_sections_bytes(
                self@.initial_sections,
                w as nat,
            ),
    {
        let ghost all = self@.initial_sections;
        let mut i: usize = 0;
        assert(module@ =~= old(module)@ + initial_sections_bytes(all.take(0), w as nat));
        while i < self.initial_sections.len()
            invariant
                i <= self.initial_sections.len(),
                all == self@.initial_sections,
                module@ == old(module)@ + initial_sections_bytes(all.take(i as int), w as nat),
            decreases self.initial_sections.len() - i,
        {
            match &self.initial_sections[i] {
                InitialSection::Type(types) => self.encode_types(module, types, w),
                InitialSection::Import(imports) => self.encode_imports(module, imports, w),
            }
            proof {
                assert(all.take(i + 1).drop_last() =~= all.take(i as int));
                assert(module@ =~= old(module)@ + initial_sections_bytes(
                    all.take(i + 1),
                    w as nat,
                ));
            }
            i += 1;
        }
        assert(all.take(all.len() as int) =~= all);
    }

    /// Appends a type section, unless it has no entry.
    pub fn encode_types(&self, module: &mut Vec<u8>, types: &Vec<FuncType>, w: u8)
        ensures
            final(module)@ == old(module)@ + initial_section_bytes(
                InitialSectionView::Type(crate::types::seq_view(types@)),
                w as nat,
            ),
    {
        if types.len() == 0 {
            assert(module@ =~= old(module)@ + Seq::<u8>::empty());
            return ;
        }
        let ghost all = crate::types::seq_view(types@);
        let mut section: Vec<u8> = Vec::new();
        let mut i: usize = 0;
        while i < types.len()
            invariant
                i <= types.len(),
                all == crate::types::seq_view(types@),
                section@ == func_types_bytes(all.take(i as int), w as nat),
            decreases types.len() - i,
        {
            put_func_type(&mut section, &types[i], w);
            proof {
                assert(all.take(i + 1).drop_last() =~= all.take(i as int));
            }
            i += 1;
        }
        assert(all.take(all.len() as int) =~= all);
        put_section(module, 1, types.len(), &section, w);
    }

    /// Appends an import section, unless it has no entry.
    pub fn encode_imports(&self, module: &mut Vec<u8>, imports: &Vec<Import>, w: u8)
        ensures
            final(module)@ == old(module)@ + initial_section_bytes(
                InitialSectionView::Import(crate::types::seq_view(imports@)),
                w as nat,
            ),
    {
        if imports.len() == 0 {
            assert(module@ =~= old(module)@ + Seq::<u8>::empty());
            return ;
        }
        let ghost all = crate::types::seq_view(imports@);
        let mut section: Vec<u8> = Vec::new();
        let mut i: usize = 0;
        while i < imports.len()
            invariant
                i <= imports.len(),
                all == crate::types::seq_view(imports@),
                section@ == imports_bytes(all.take(i as int), w as nat),
            decreases imports.len() - i,
        {
            put_import(&mut section, &imports[i], w);
            proof {
                assert(all.take(i + 1).drop_last() =~= all.take(i as int));
            }
            i += 1;
        }
        assert(all.take(all.len() as int) =~= all);
        put_section(module, 2, imports.len(), &section, w);
    }

    /// Appends the function section, unless no function is defined.
    pub fn encode_funcs(&self, module: &mut Vec<u8>, w: u8)
        requires
            self.num_defined_funcs <= self.funcs.len(),
        ensures
            final(module)@ == old(module)@ + func_section(self@, w as nat),
    {
        if self.num_defined_funcs == 0 {
            assert(module@ =~= old(module)@ + Seq::<u8>::empty());
            return ;
        }
        let ghost tail = defined(self.funcs@, self.num_defined_funcs as nat);
        let first: usize = self.funcs.len() - self.num_defined_funcs;
        let mut funcs: Vec<u8> = Vec::new();
        let mut i: usize = first;
        while i < self.funcs.len()
            invariant
                first <= i <= self.funcs.len(),
                first == self.funcs.len() - self.num_defined_funcs,
                tail == defined(self.funcs@, self.num_defined_funcs as nat),
                funcs@ == crate::binary::indices_bytes(tail.take(i - first), w as nat),
            decreases self.funcs.len() - i,
        {
            put_u32(&mut funcs, self.funcs[i], w);
            proof {
                assert(tail.take(i + 1 - first).drop_last() =~= tail.take(i - first));
            }
            i += 1;
        }
        assert(tail.take(tail.len() as int) =~= tail);
        put_section(module, 3, self.num_defined_funcs, &funcs, w);
    }

    /// Appends the table section, unless no table is defined.
    pub fn encode_tables(&self, module: &mut Vec<u8>, w: u8)
        requires
            self.num_defined_tables <= self.tables.len(),
        ensures
            final(module)@ == old(module)@ + table_section(self@, w as nat),
    {
        if self.num_defined_tables == 0 {
            assert(module@ =~= old(module)@ + Seq::<u8>::empty());
            return ;
        }
        let ghost tail = defined(self.tables@, self.num_defined_tables as nat);
        let first: usize = self.tables.len() - self.num_defined_tables;
        let mut tables: Vec<u8> = Vec::new();
        let mut i: usize = first;
        while i < self.tables.len()
            invariant
                first <= i <= self.tables.len(),
                first == self.tables.len() - self.num_defined_tables,
                tail == defined(self.tables@, self.num_defined_tables as nat),
                tables@ == table_types_bytes(tail.take(i - first), w as nat),
            decreases self.tables.len() - i,
        {
            translate_table_type(&mut tables, &self.tables[i], w);
            proof {
                assert(tail.take(i + 1 - first).drop_last() =~= tail.take(i - first));
            }
            i += 1;
        }
        assert(tail.take(tail.len() as int) =~= tail);
        put_section(module, 4, self.num_defined_tables, &tables, w);
    }

    /// Appends the memory section, unless no memory is defined.
    pub fn encode_memories(&self, module: &mut Vec<u8>, w: u8)
        requires
            self.num_defined_memories <= self.memories.len(),
        ensures
            final(module)@ == old(module)@ + memory_section(self@, w as nat),
    {
        if self.num_defined_memories == 0 {
            assert(module@ =~= old(module)@ + Seq::<u8>::empty());
            return ;
        }
        let ghost tail = defined(self.memories@, self.num_defined_memories as nat);
        let first: usize = self.memories.len() - self.num_defined_memories;
        let mut mems: Vec<u8> = Vec::new();
        let mut i: usize = first;
        while i < self.memories.len()
            invariant
                first <= i <= self.memories.len(),
                first == self.memories.len() - self.num_defined_memories,
                tail == defined(self.memories@, self.num_defined_memories as nat),
                mems@ == memory_types_bytes(tail.take(i - first), w as nat),
            decreases self.memories.len() - i,
        {
            translate_memory_type(&mut mems, &self.memories[i], w);
            proof {
                assert(tail.take(i + 1 - first).drop_last() =~= tail.take(i - first));
            }
            i += 1;
        }
        assert(tail.take(tail.len() as int) =~= tail);
        put_section(module, 5, self.num_defined_memories, &mems, w);
    }

    /// Appends the global section, unless no global is defined.
    pub fn encode_globals(&self, module: &mut Vec<u8>, w: u8)
        requires
            self@.globals_listed(),
        ensures
            final(module)@ == old(module)@ + global_section(self@, w as nat),
    {
        if self.defined_globals.len() == 0 {
            assert(module@ =~= old(module)@ + Seq::<u8>::empty());
            return ;
        }
        let ghost defs = self@.defined_globals;
        let mut globals: Vec<u8> = Vec::new();
        let mut i: usize = 0;
        while i < self.defined_globals.len()
            invariant
                i <= self.defined_globals.len(),
                self@.globals_listed(),
                defs == self@.defined_globals,
                defs.len() == self.defined_globals.len(),
                globals@ == globals_bytes(defs.take(i as int), self.globals@, w as nat),
            decreases self.defined_globals.len() - i,
        {
            proof {
                assert(defs.take(i + 1).drop_last() =~= defs.take(i as int));
                assert(defs[i as int].0 < self.globals.len());
            }
            let idx: u32 = self.defined_globals[i].0;
            let ghost before = globals@;
            translate_global_type(&mut globals, &self.globals[idx as usize]);
            put_const_expr(&mut globals, &self.defined_globals[i].1, w);
            assert(globals@ =~= before + global_bytes(
                self.globals@[idx as int],
                defs[i as int].1,
                w as nat,
            ));
            i += 1;
        }
        assert(defs.take(defs.len() as int) =~= defs);
        put_section(module, 6, self.defined_globals.len(), &globals, w);
    }

    /// Appends the export section, unless nothing is exported.
    pub fn encode_exports(&self, module: &mut Vec<u8>, w: u8)
        ensures
            final(module)@ == old(module)@ + export_section(self@, w as nat),
    {
        if self.exports.len() == 0 {
            assert(module@ =~= old(module)@ + Seq::<u8>::empty());
            return ;
        }
        let ghost all = self@.exports;
        let mut exports: Vec<u8> = Vec::new();
        let mut i: usize = 0;
        while i < self.exports.len()
            invariant
                i <= self.exports.len(),
                all == self@.exports,
                all.len() == self.exports.len(),
                exports@ == exports_bytes(all.take(i as int), w as nat),
            decreases self.exports.len() - i,
        {
            translate_export(&mut exports, &self.exports[i].0, &self.exports[i].1, w);
            proof {
                assert(all.take(i + 1).drop_last() =~= all.take(i as int));
            }
            i += 1;
        }
        assert(all.take(all.len() as int) =~= all);
        put_section(module, 7, self.exports.len(), &exports, w);
    }

    /// Appends the start section, if there is a start function.
    pub fn encode_start(&self, module: &mut Vec<u8>, w: u8)
        ensures
            final(module)@ == old(module)@ + start_section(self@, w as nat),
    {
        match self.start {
            Some(f) => {
                put_number_section(module, 8, f as usize, w);
            },
            None => {
                assert(module@ =~= old(module)@ + Seq::<u8>::empty());
            },
        }
    }

    /// Appends the element section, unless there is no element segment.
    pub fn encode_elems(&self, module: &mut Vec<u8>, w: u8)
        ensures
            final(module)@ == old(module)@ + element_section(self@, w as nat),
    {
        if self.elems.len() == 0 {
            assert(module@ =~= old(module)@ + Seq::<u8>::empty());
            return ;
        }
        let ghost all = self@.elems;
        let mut elems: Vec<u8> = Vec::new();
        let mut i: usize = 0;
        while i < self.elems.len()
            invariant
                i <= self.elems.len(),
                all == self@.elems,
                all.len() == self.elems.len(),
                elems@ == element_segments_bytes(all.take(i as int), w as nat),
            decreases self.elems.len() - i,
        {
            put_element_segment(&mut elems, &self.elems[i], w);
            proof {
                assert(all.take(i + 1).drop_last() =~= all.take(i as int));
            }
            i += 1;
        }
        assert(all.take(all.len() as int) =~= all);
        put_section(module, 9, self.elems.len(), &elems, w);
    }

    /// Appends the data count section, under the bulk memory proposal and
    /// unless there is no data segment.
    pub fn encode_data_count(&self, module: &mut Vec<u8>, w: u8)
        ensures
            final(module)@ == old(module)@ + data_count_section(self@, w as nat),
    {
        // Without bulk memory nothing reads a data count, and neither
        // where there is no data.
        if !self.knobs.bulk_memory_enabled || self.data.len() == 0 {
            assert(module@ =~= old(module)@ + Seq::<u8>::empty());
            return ;
        }
        put_number_section(module, 12, self.data.len(), w);
    }

    /// Appends the code section, unless there is no body. A generated body
    /// is its instructions and the closing `end`; an arbitrary body is its
    /// bytes as they are.
    pub fn encode_code(&self, module: &mut Vec<u8>, w: u8)
        ensures
            final(module)@ == old(module)@ + code_section(self@, w as nat),
    {
        if self.code.len() == 0 {
            assert(module@ =~= old(module)@ + Seq::<u8>::empty());
            return ;
        }
        let ghost all = self@.code;
        let mut code: Vec<u8> = Vec::new();
        let mut i: usize = 0;
        while i < self.code.len()
            invariant
                i <= self.code.len(),
                all == self@.code,
                all.len() == self.code.len(),
                code@ == codes_bytes(all.take(i as int), w as nat),
            decreases self.code.len() - i,
        {
            put_code(&mut code, &self.code[i], w);
            proof {
                assert(all.take(i + 1).drop_last() =~= all.take(i as int));
            }
            i += 1;
        }
        assert(all.take(all.len() as int) =~= all);
        put_section(module, 10, self.code.len(), &code, w);
    }

    /// Appends the data section, unless there is no data segment.
    pub fn encode_data(&self, module: &mut Vec<u8>, w: u8)
        ensures
            final(module)@ == old(module)@ + data_section(self@, w as nat),
    {
        if self.data.len() == 0 {
            assert(module@ =~= old(module)@ + Seq::<u8>::empty());
            return ;
        }
        let ghost all = self@.data;
        let mut data: Vec<u8> = Vec::new();
        let mut i: usize = 0;
        while i < self.data.len()
            invariant
                i <= self.data.len(),
                all == self@.data,
                all.len() == self.data.len(),
                data@ == data_segments_bytes(all.take(i as int), w as nat),
            decreases self.data.len() - i,
        {
            put_data_segment(&mut data, &self.data[i], w);
            proof {
                assert(all.take(i + 1).drop_last() =~= all.take(i as int));
            }
            i += 1;
        }
        assert(all.take(all.len() as int) =~= all);
        put_section(module, 11, self.data.len(), &data, w);
    }
}

} // verus!

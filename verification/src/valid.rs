//! What makes a module description valid: every index refers to something
//! that is there, every limit is in range, every initial value has the type
//! of its global, and every generated body passes the validator.

use crate::config::KnobsView;
use crate::module::{
    CodeView, DataSegmentKindView, DataSegmentView, ElementKindView, ElementSegmentView,
    ElementsView, ImportView, InitialSectionView, InstructionsView, ModuleView,
};
use crate::types::{
    Export, FuncTypeView, GlobalType, InstructionView, Limits, MemoryType, TableType, ValType,
};
use crate::typing::ContextView;
use vstd::prelude::*;

verus! {

/// Whether a value type may occur: the reference types need the reference
/// types proposal.
pub open spec fn val_type_ok(t: ValType, refs: bool) -> bool {
    t.is_num() || refs
}

/// Whether every value type of a list may occur.
pub open spec fn val_types_ok(ts: Seq<ValType>, refs: bool) -> bool {
    forall|i: int| 0 <= i < ts.len() ==> val_type_ok(#[trigger] ts[i], refs)
}

/// Whether every value type of a signature may occur.
pub open spec fn func_type_ok(t: FuncTypeView, refs: bool) -> bool {
    val_types_ok(t.params, refs) && (t.result matches Some(r) ==> val_type_ok(r, refs))
}

/// Whether every signature of a type section is in order.
pub open spec fn types_ok(types: Seq<FuncTypeView>, refs: bool) -> bool {
    forall|i: int| 0 <= i < types.len() ==> func_type_ok(#[trigger] types[i], refs)
}

/// Whether every import names its field and a type that is there.
pub open spec fn imports_ok(imports: Seq<ImportView>, types: Seq<FuncTypeView>) -> bool {
    forall|i: int|
        0 <= i < imports.len() ==> (#[trigger] imports[i]).name is Some
            && imports[i].desc.type_index() < types.len()
}

/// Whether the function index space is in order: the imported functions
/// come first, with the types of their imports, and every function has a
/// type that is there.
pub open spec fn funcs_ok(
    funcs: Seq<u32>,
    imports: Seq<ImportView>,
    types: Seq<FuncTypeView>,
) -> bool {
    &&& imports.len() <= funcs.len()
    &&& forall|i: int|
        0 <= i < imports.len() ==> #[trigger] funcs[i] == imports[i].desc.type_index()
    &&& forall|i: int| 0 <= i < funcs.len() ==> #[trigger] funcs[i] < types.len()
}

/// Whether limits are in order: the minimum is not above the ceiling, and
/// a maximum is neither below the minimum nor above the ceiling.
pub open spec fn limits_ok(l: Limits, ceiling: nat) -> bool {
    l.min <= ceiling && (l.max matches Some(max) ==> l.min <= max <= ceiling)
}

/// Whether a table type is in order.
pub open spec fn table_ok(t: TableType, refs: bool) -> bool {
    &&& t.elem_ty.is_ref()
    &&& t.elem_ty == ValType::FuncRef || refs
    &&& limits_ok(t.limits, u32::MAX as nat)
}

/// Whether the tables are in order; more than one needs the reference
/// types proposal.
pub open spec fn tables_ok(tables: Seq<TableType>, refs: bool) -> bool {
    &&& tables.len() <= 1 || refs
    &&& forall|i: int| 0 <= i < tables.len() ==> table_ok(#[trigger] tables[i], refs)
}

/// Whether the memories are in order: no memory has more than 65536 pages.
pub open spec fn memories_ok(memories: Seq<MemoryType>) -> bool {
    forall|i: int|
        0 <= i < memories.len() ==> limits_ok((#[trigger] memories[i]).limits, 65536)
}

/// Whether an instruction is a constant expression of the type `t`.
pub open spec fn const_expr_ok(i: InstructionView, t: ValType, funcs: nat) -> bool {
    match i {
        InstructionView::I32Const(_) => t == ValType::I32,
        InstructionView::I64Const(_) => t == ValType::I64,
        InstructionView::RefNull(r) => r == t && t.is_ref(),
        InstructionView::RefFunc(f) => t == ValType::FuncRef && f < funcs,
        _ => false,
    }
}

/// Whether the global with the index `i` is in order: it is defined at its
/// own index, its type may occur, and it starts with a constant expression
/// of its type.
pub open spec fn global_ok(
    global: GlobalType,
    defined: (u32, InstructionView),
    i: int,
    refs: bool,
    funcs: nat,
) -> bool {
    &&& defined.0 == i
    &&& val_type_ok(global.val_type, refs)
    &&& const_expr_ok(defined.1, global.val_type, funcs)
}

/// Whether the globals are in order: all of them are defined, in order,
/// each by a constant expression of its type.
pub open spec fn globals_ok(
    globals: Seq<GlobalType>,
    defined: Seq<(u32, InstructionView)>,
    refs: bool,
    funcs: nat,
) -> bool {
    &&& defined.len() == globals.len()
    &&& forall|i: int|
        0 <= i < globals.len() ==> global_ok(globals[i], #[trigger] defined[i], i, refs, funcs)
}

/// Whether every index of a list is the index of a function.
pub open spec fn funcs_listed(fs: Seq<u32>, funcs: nat) -> bool {
    forall|i: int| 0 <= i < fs.len() ==> #[trigger] fs[i] < funcs
}

/// Whether every expression of a list that refers to a function refers to
/// one that is there, in a segment of function references.
pub open spec fn exprs_listed(es: Seq<Option<u32>>, ty: ValType, funcs: nat) -> bool {
    forall|i: int|
        0 <= i < es.len() ==> ((#[trigger] es[i]) matches Some(f) ==> f < funcs && ty
            == ValType::FuncRef)
}

/// Whether an export refers to something that is there.
pub open spec fn export_ok(
    e: Export,
    funcs: nat,
    tables: nat,
    memories: nat,
    globals: nat,
) -> bool {
    match e {
        Export::Func(x) => x < funcs,
        Export::Table(x) => x < tables,
        Export::Memory(x) => x < memories,
        Export::Global(x) => x < globals,
    }
}

/// Whether the exports are in order: their names differ, and each refers
/// to something that is there.
pub open spec fn exports_ok(
    exports: Seq<(Seq<char>, Export)>,
    funcs: nat,
    tables: nat,
    memories: nat,
    globals: nat,
) -> bool {
    &&& forall|i: int, j: int|
        0 <= i < j < exports.len() ==> (#[trigger] exports[i]).0 != (#[trigger] exports[j]).0
    &&& forall|i: int|
        0 <= i < exports.len() ==> export_ok(
            (#[trigger] exports[i]).1,
            funcs,
            tables,
            memories,
            globals,
        )
}

/// The signature without parameters and without a result.
pub open spec fn unit_type() -> FuncTypeView {
    FuncTypeView { params: Seq::empty(), result: None }
}

/// Whether the start function, if there is one, is there and neither
/// takes nor returns anything.
pub open spec fn start_ok(start: Option<u32>, funcs: Seq<u32>, types: Seq<FuncTypeView>) -> bool {
    start matches Some(f) ==> f < funcs.len() && funcs[f as int] < types.len()
        && types[funcs[f as int] as int] == unit_type()
}

/// Whether an element segment is in order.
pub open spec fn elem_ok(
    seg: ElementSegmentView,
    tables: Seq<TableType>,
    funcs: nat,
    bulk: bool,
    refs: bool,
) -> bool {
    &&& seg.ty.is_ref()
    &&& match seg.items {
        ElementsView::Functions(fs) => seg.ty == ValType::FuncRef && funcs_listed(fs, funcs),
        ElementsView::Expressions(es) => refs && exprs_listed(es, seg.ty, funcs),
    }
    &&& match seg.kind {
        ElementKindView::Active { table, offset } => {
            let t = match table {
                Some(t) => t,
                None => 0,
            };
            &&& t < tables.len()
            &&& tables[t as int].elem_ty == seg.ty
            &&& offset is I32Const
        },
        ElementKindView::Passive => bulk,
        ElementKindView::Declared => bulk,
    }
}

/// Whether the element segments are in order.
pub open spec fn elems_ok(
    elems: Seq<ElementSegmentView>,
    tables: Seq<TableType>,
    funcs: nat,
    bulk: bool,
    refs: bool,
) -> bool {
    forall|i: int| 0 <= i < elems.len() ==> elem_ok(#[trigger] elems[i], tables, funcs, bulk, refs)
}

/// Whether a data segment is in order.
pub open spec fn data_segment_ok(seg: DataSegmentView, memories: nat, bulk: bool) -> bool {
    match seg.kind {
        DataSegmentKindView::Active { memory_index, offset } => memory_index < memories
            && offset is I32Const,
        DataSegmentKindView::Passive => bulk,
    }
}

/// Whether the data segments are in order.
pub open spec fn data_ok(data: Seq<DataSegmentView>, memories: nat, bulk: bool) -> bool {
    forall|i: int| 0 <= i < data.len() ==> data_segment_ok(#[trigger] data[i], memories, bulk)
}

/// The marks with that of the function `f` set, if `f` is a function.
pub open spec fn marked(d: Seq<bool>, f: u32) -> Seq<bool> {
    if f < d.len() {
        d.update(f as int, true)
    } else {
        d
    }
}

/// The marks with those of the functions `fs` set.
pub open spec fn mark_funcs(d: Seq<bool>, fs: Seq<u32>) -> Seq<bool>
    decreases fs.len(),
{
    if fs.len() == 0 {
        d
    } else {
        marked(mark_funcs(d, fs.drop_last()), fs.last())
    }
}

/// The marks with those of the functions set that the expressions refer
/// to.
pub open spec fn mark_exprs(d: Seq<bool>, es: Seq<Option<u32>>) -> Seq<bool>
    decreases es.len(),
{
    if es.len() == 0 {
        d
    } else {
        let before = mark_exprs(d, es.drop_last());
        match es.last() {
            Some(f) => marked(before, f),
            None => before,
        }
    }
}

/// The marks with those of the exported functions set.
pub open spec fn mark_exports(d: Seq<bool>, exports: Seq<(Seq<char>, Export)>) -> Seq<bool>
    decreases exports.len(),
{
    if exports.len() == 0 {
        d
    } else {
        let before = mark_exports(d, exports.drop_last());
        match exports.last().1 {
            Export::Func(f) => marked(before, f),
            _ => before,
        }
    }
}

/// The marks with those of the functions set that element segments list.
pub open spec fn mark_elems(d: Seq<bool>, elems: Seq<ElementSegmentView>) -> Seq<bool>
    decreases elems.len(),
{
    if elems.len() == 0 {
        d
    } else {
        let before = mark_elems(d, elems.drop_last());
        match elems.last().items {
            ElementsView::Functions(fs) => mark_funcs(before, fs),
            ElementsView::Expressions(es) => mark_exprs(before, es),
        }
    }
}

/// The marks of `n` functions of which none is set.
pub open spec fn unmarked(n: nat) -> Seq<bool> {
    Seq::new(n, |i: int| false)
}

/// For every function, whether `ref.func` may name it: whether it is
/// exported or listed in an element segment.
pub open spec fn declared(
    funcs: nat,
    exports: Seq<(Seq<char>, Export)>,
    elems: Seq<ElementSegmentView>,
) -> Seq<bool> {
    mark_elems(mark_exports(unmarked(funcs), exports), elems)
}

/// The types of the element segments.
pub open spec fn elem_types(elems: Seq<ElementSegmentView>) -> Seq<ValType> {
    Seq::new(elems.len(), |i: int| elems[i].ty)
}

/// What the parts of a module offer to the bodies of its functions,
/// without what is the function's own.
pub open spec fn context(
    kn: KnobsView,
    types: Seq<FuncTypeView>,
    funcs: Seq<u32>,
    tables: Seq<TableType>,
    memories: Seq<MemoryType>,
    globals: Seq<GlobalType>,
    exports: Seq<(Seq<char>, Export)>,
    elems: Seq<ElementSegmentView>,
    data: nat,
) -> ContextView {
    ContextView {
        types,
        funcs,
        tables,
        memories,
        globals,
        elems: elem_types(elems),
        data,
        declared: declared(funcs.len(), exports, elems),
        locals: Seq::empty(),
        results: Seq::empty(),
        bulk_memory: kn.bulk_memory_enabled,
        reference_types: kn.reference_types_enabled,
    }
}

/// What a module offers to the bodies of its functions, without what is
/// the function's own.
pub open spec fn module_context(m: ModuleView) -> ContextView {
    context(
        m.knobs,
        m.types(),
        m.funcs,
        m.tables,
        m.memories,
        m.globals,
        m.exports,
        m.elems,
        m.data.len(),
    )
}

/// The sections that declare types and imports declare just these.
pub proof fn initial_sections_hold(types: Seq<FuncTypeView>, imports: Seq<ImportView>)
    ensures
        crate::module::section_types(initial_sections(types, imports)) == types,
        crate::module::section_imports(initial_sections(types, imports)) == imports,
{
    let ss = initial_sections(types, imports);
    reveal_with_fuel(crate::module::section_types, 3);
    reveal_with_fuel(crate::module::section_imports, 3);
    if types.len() == 0 {
        if imports.len() == 0 {
            assert(crate::module::section_types(ss) =~= types);
            assert(crate::module::section_imports(ss) =~= imports);
        } else {
            assert(ss.drop_last() =~= Seq::empty());
            assert(crate::module::section_types(ss) =~= types);
            assert(crate::module::section_imports(ss) =~= imports);
        }
    } else {
        let first = seq![InitialSectionView::Type(types)];
        assert(first.drop_last() =~= Seq::empty());
        if imports.len() == 0 {
            assert(crate::module::section_types(ss) =~= types);
            assert(crate::module::section_imports(ss) =~= imports);
        } else {
            assert(ss.drop_last() =~= first);
            assert(crate::module::section_types(ss) =~= types);
            assert(crate::module::section_imports(ss) =~= imports);
        }
    }
}

/// What the body of a function of the type `ty` with the declared locals
/// `locals` can refer to in the context of its module.
pub open spec fn function_context(
    module: ContextView,
    ty: FuncTypeView,
    locals: Seq<ValType>,
) -> ContextView {
    ContextView { locals: ty.params + locals, results: ty.results(), ..module }
}

/// Whether the body of a defined function is in order: its locals have
/// types that may occur, and its instructions, where they are generated,
/// pass the validator. Arbitrary bytes are in order where the
/// configuration allows them, whatever they are.
pub open spec fn code_ok(
    module: ContextView,
    ty: FuncTypeView,
    code: CodeView,
    arbitrary: bool,
) -> bool {
    &&& val_types_ok(code.locals, module.reference_types)
    &&& match code.instructions {
        InstructionsView::Generated(is) => crate::typing::body_ok(
            function_context(module, ty, code.locals),
            is,
        ),
        InstructionsView::Arbitrary(_) => arbitrary,
    }
}

/// Whether the bodies are in order: there is one for every defined
/// function.
pub open spec fn codes_ok(m: ModuleView) -> bool {
    &&& m.code.len() == m.num_defined_funcs
    &&& m.num_defined_funcs <= m.funcs.len()
    &&& forall|i: int|
        0 <= i < m.code.len() ==> code_ok(
            module_context(m),
            m.types()[m.funcs[m.funcs.len() - m.code.len() + i] as int],
            #[trigger] m.code[i],
            m.knobs.allow_arbitrary_instr,
        )
}

/// The sections that declare the given types and imports: the types, if
/// there are any, and behind them the imports, if there are any.
pub open spec fn initial_sections(
    types: Seq<FuncTypeView>,
    imports: Seq<ImportView>,
) -> Seq<InitialSectionView> {
    let first: Seq<InitialSectionView> = if types.len() == 0 {
        Seq::empty()
    } else {
        seq![InitialSectionView::Type(types)]
    };
    if imports.len() == 0 {
        first
    } else {
        first.push(InitialSectionView::Import(imports))
    }
}

/// Whether a module is valid.
pub open spec fn module_ok(m: ModuleView) -> bool {
    let refs = m.knobs.reference_types_enabled;
    let bulk = m.knobs.bulk_memory_enabled;
    &&& m.initial_sections == initial_sections(m.types(), m.imports())
    &&& types_ok(m.types(), refs)
    &&& imports_ok(m.imports(), m.types())
    &&& funcs_ok(m.funcs, m.imports(), m.types())
    &&& m.funcs.len() == m.imports().len() + m.num_defined_funcs
    &&& m.num_defined_tables == m.tables.len()
    &&& tables_ok(m.tables, refs)
    &&& m.num_defined_memories == m.memories.len()
    &&& memories_ok(m.memories)
    &&& globals_ok(m.globals, m.defined_globals, refs, m.funcs.len())
    &&& exports_ok(
        m.exports,
        m.funcs.len(),
        m.tables.len(),
        m.memories.len(),
        m.globals.len(),
    )
    &&& start_ok(m.start, m.funcs, m.types())
    &&& elems_ok(m.elems, m.tables, m.funcs.len(), bulk, refs)
    &&& data_ok(m.data, m.memories.len(), bulk)
    &&& codes_ok(m)
}

/// The smaller of two counts.
pub open spec fn least(a: int, b: int) -> int {
    if a <= b {
        a
    } else {
        b
    }
}

/// Whether a module keeps within the ceilings of its configuration, and
/// reaches the floors that nothing stands against. A floor gives way to its
/// ceiling, and besides:
///
/// - the floor of the imports holds where there are host functions and
///   `max_types` has room for the types that the imports may need;
/// - the floor of the functions holds where there is a type;
/// - the floor of the tables gives way to the one table that there is at
///   the most without reference types;
/// - the floor of the exports holds where something may be exported;
/// - the floors of the segments hold where a kind of segment is possible,
///   and the floor of the items of an element segment where there is a
///   function.
pub open spec fn within_bounds(m: ModuleView) -> bool {
    let k = m.knobs;
    &&& least(k.min_types as int, k.max_types as int) <= m.types().len() <= k.max_types
    &&& m.imports().len() <= k.max_imports
    &&& k.host_functions.len() > 0 && least(k.min_types as int, k.max_types as int)
        + crate::builder::import_ceiling(k) <= k.max_types ==> least(
        k.min_imports as int,
        crate::builder::import_ceiling(k) as int,
    ) <= m.imports().len()
    &&& m.funcs.len() <= k.max_funcs
    &&& m.types().len() > 0 ==> least(k.min_funcs as int, k.max_funcs as int) <= m.funcs.len()
    &&& least(k.min_tables as int, crate::stages::table_ceiling(k) as int) <= m.tables.len()
        <= k.max_tables
    &&& least(k.min_memories as int, k.max_memories as int) <= m.memories.len()
        <= k.max_memories
    &&& least(k.min_globals as int, k.max_globals as int) <= m.globals.len() <= k.max_globals
    &&& m.exports.len() <= k.max_exports
    &&& crate::exports::export_candidates(
        k,
        m.types(),
        m.funcs,
        m.tables.len(),
        m.memories.len(),
        m.globals.len(),
    ).len() > 0 ==> least(k.min_exports as int, k.max_exports as int) <= m.exports.len()
    &&& m.elems.len() <= k.max_element_segments
    &&& crate::segments::elem_kinds(
        crate::segments::funcref_tables(m.tables, m.tables.len()).len(),
        k.bulk_memory_enabled,
    ) > 0 ==> least(k.min_element_segments as int, k.max_element_segments as int)
        <= m.elems.len()
    &&& forall|i: int|
        0 <= i < m.elems.len() ==> crate::segments::items_in_bounds(
            k,
            m.funcs.len(),
            (#[trigger] m.elems[i]).items.len(),
        )
    &&& m.data.len() <= k.max_data_segments
    &&& crate::segments::data_kinds(m.memories.len(), k.bulk_memory_enabled) > 0 ==> least(
        k.min_data_segments as int,
        k.max_data_segments as int,
    ) <= m.data.len()
    &&& forall|i: int|
        0 <= i < m.data.len() ==> crate::segments::bytes_in_bounds(
            k,
            (#[trigger] m.data[i]).init.len(),
        )
    &&& forall|i: int|
        0 <= i < m.memories.len() ==> memory_in_bounds(k, #[trigger] m.memories[i])
    &&& forall|i: int|
        0 <= i < m.tables.len() ==> (#[trigger] m.tables[i]).limits.min
            <= k.max_init_table_size
    &&& m.start is Some ==> k.allow_start_export
}

/// Whether a memory keeps within `max_memory_pages`, and states a maximum
/// where one is required.
pub open spec fn memory_in_bounds(k: KnobsView, memory: MemoryType) -> bool {
    limits_ok(memory.limits, k.max_memory_pages as nat) && (k.memory_max_size_required
        ==> memory.limits.max is Some)
}

/// Whether every exported function has a signature that the configuration
/// allows for exports.
pub open spec fn exports_allowed(m: ModuleView) -> bool {
    m.knobs.allowed_export_types matches Some(allowed) ==> forall|i: int|
        0 <= i < m.exports.len() ==> ((#[trigger] m.exports[i]).1 matches Export::Func(f) ==> f
            < m.funcs.len() && m.funcs[f as int] < m.types().len() && allowed.contains(
            m.types()[m.funcs[f as int] as int],
        ))
}

/// A valid module can be encoded.
pub proof fn valid_is_encodable(m: ModuleView)
    requires
        module_ok(m),
    ensures
        m.encodable(),
{
}

} // verus!

//! Deciding whether a module description is valid.
//!
//! The generator makes valid modules only; this is for descriptions that
//! were put together or changed by hand.

use crate::config::{all_numeric, Config};
use crate::generate::{list_elem_types, mark_declared};
use crate::module::{
    Code, ConfiguredModule, DataSegment, DataSegmentKind, ElementKind, ElementSegment, Elements,
    Import, InitialSection, Instructions, Module,
};
use crate::types::{
    Export, FuncType, FunctionType, GlobalType, Instruction, Limits, MemoryType, TableType,
    ValType,
};
use crate::validator::{validate_body, Context};
use vstd::prelude::*;

verus! {

/// Whether every value type of a list may occur.
fn val_types_in_order(ts: &Vec<ValType>, refs: bool) -> (r: bool)
    ensures
        r == crate::valid::val_types_ok(ts@, refs),
{
    refs || all_numeric(ts)
}

/// Whether every value type of a signature may occur.
fn func_type_in_order(t: &FuncType, refs: bool) -> (r: bool)
    ensures
        r == crate::valid::func_type_ok(t@, refs),
{
    val_types_in_order(&t.params, refs) && match t.result {
        Some(r) => refs || r.is_numeric(),
        None => true,
    }
}

/// Whether every signature is in order.
fn types_in_order(types: &Vec<FuncType>, refs: bool) -> (r: bool)
    ensures
        r == crate::valid::types_ok(crate::types::seq_view(types@), refs),
{
    let mut i: usize = 0;
    while i < types.len()
        invariant
            i <= types.len(),
            forall|j: int|
                0 <= j < i ==> crate::valid::func_type_ok(
                    #[trigger] crate::types::seq_view(types@)[j],
                    refs,
                ),
        decreases types.len() - i,
    {
        if !func_type_in_order(&types[i], refs) {
            assert(!crate::valid::func_type_ok(crate::types::seq_view(types@)[i as int], refs));
            return false;
        }
        i += 1;
    }
    true
}

/// Whether every import names its field and a type that is there.
fn imports_in_order(imports: &Vec<Import>, types: usize) -> (r: bool)
    ensures
        r == forall|i: int|
            0 <= i < imports.len() ==> (#[trigger] crate::types::seq_view(imports@)[i]).name
                is Some && crate::types::seq_view(imports@)[i].desc.type_index() < types,
{
    let ghost is = crate::types::seq_view(imports@);
    let mut i: usize = 0;
    while i < imports.len()
        invariant
            i <= imports.len(),
            is == crate::types::seq_view(imports@),
            forall|j: int|
                0 <= j < i ==> (#[trigger] is[j]).name is Some && is[j].desc.type_index()
                    < types,
        decreases imports.len() - i,
    {
        let index: u32 = match imports[i].desc {
            FunctionType::Func(t) => t,
        };
        if imports[i].name.is_none() || index as usize >= types {
            assert(!(is[i as int].name is Some && is[i as int].desc.type_index() < types));
            return false;
        }
        i += 1;
    }
    true
}

/// Whether limits are in order.
fn limits_in_order(l: &Limits, ceiling: u64) -> (r: bool)
    ensures
        r == crate::valid::limits_ok(*l, ceiling as nat),
{
    l.min as u64 <= ceiling && match l.max {
        Some(max) => l.min <= max && max as u64 <= ceiling,
        None => true,
    }
}

/// Whether the tables are in order.
fn tables_in_order(tables: &Vec<TableType>, refs: bool) -> (r: bool)
    ensures
        r == crate::valid::tables_ok(tables@, refs),
{
    if tables.len() > 1 && !refs {
        return false;
    }
    let mut i: usize = 0;
    while i < tables.len()
        invariant
            i <= tables.len(),
            forall|j: int| 0 <= j < i ==> crate::valid::table_ok(#[trigger] tables@[j], refs),
        decreases tables.len() - i,
    {
        let t = &tables[i];
        let ok: bool = t.elem_ty.is_reference() && (t.elem_ty == ValType::FuncRef || refs)
            && limits_in_order(&t.limits, 0xFFFF_FFFF);
        if !ok {
            assert(!crate::valid::table_ok(tables@[i as int], refs));
            return false;
        }
        i += 1;
    }
    true
}

/// Whether the memories are in order.
fn memories_in_order(memories: &Vec<MemoryType>) -> (r: bool)
    ensures
        r == crate::valid::memories_ok(memories@),
{
    let mut i: usize = 0;
    while i < memories.len()
        invariant
            i <= memories.len(),
            forall|j: int|
                0 <= j < i ==> crate::valid::limits_ok((#[trigger] memories@[j]).limits, 65536),
        decreases memories.len() - i,
    {
        if !limits_in_order(&memories[i].limits, 65536) {
            assert(!crate::valid::limits_ok(memories@[i as int].limits, 65536));
            return false;
        }
        i += 1;
    }
    true
}

/// Whether an instruction is a constant expression of the type `t`.
fn const_expr_in_order(inst: &Instruction, t: ValType, funcs: usize) -> (r: bool)
    ensures
        r == crate::valid::const_expr_ok(inst@, t, funcs as nat),
{
    match inst {
        Instruction::I32Const(_) => t == ValType::I32,
        Instruction::I64Const(_) => t == ValType::I64,
        Instruction::RefNull(r) => *r == t && t.is_reference(),
        Instruction::RefFunc(f) => t == ValType::FuncRef && (*f as usize) < funcs,
        _ => false,
    }
}

/// Whether the globals are in order.
fn globals_in_order(
    globals: &Vec<GlobalType>,
    defined: &Vec<(u32, Instruction)>,
    refs: bool,
    funcs: usize,
) -> (r: bool)
    ensures
        r == crate::valid::globals_ok(
            globals@,
            crate::module::defined_globals_view(defined@),
            refs,
            funcs as nat,
        ),
{
    let ghost ds = crate::module::defined_globals_view(defined@);
    if defined.len() != globals.len() {
        return false;
    }
    let mut i: usize = 0;
    while i < globals.len()
        invariant
            i <= globals.len(),
            defined.len() == globals.len(),
            ds == crate::module::defined_globals_view(defined@),
            forall|j: int|
                0 <= j < i ==> crate::valid::global_ok(
                    globals@[j],
                    #[trigger] ds[j],
                    j,
                    refs,
                    funcs as nat,
                ),
        decreases globals.len() - i,
    {
        let t: ValType = globals[i].val_type;
        assert(ds[i as int] == crate::module::defined_global_view(defined@[i as int]));
        let ok: bool = defined[i].0 as usize == i && (refs || t.is_numeric())
            && const_expr_in_order(&defined[i].1, t, funcs);
        if !ok {
            assert(!crate::valid::global_ok(
                globals@[i as int],
                ds[i as int],
                i as int,
                refs,
                funcs as nat,
            ));
            return false;
        }
        i += 1;
    }
    true
}

/// Whether the exports are in order.
fn exports_in_order(
    exports: &Vec<(String, Export)>,
    funcs: usize,
    tables: usize,
    memories: usize,
    globals: usize,
) -> (r: bool)
    ensures
        r == crate::valid::exports_ok(
            crate::module::exports_view(exports@),
            funcs as nat,
            tables as nat,
            memories as nat,
            globals as nat,
        ),
{
    let ghost es = crate::module::exports_view(exports@);
    let mut i: usize = 0;
    while i < exports.len()
        invariant
            i <= exports.len(),
            es == crate::module::exports_view(exports@),
            forall|a: int, b: int|
                0 <= a < b < i ==> (#[trigger] es[a]).0 != (#[trigger] es[b]).0,
            forall|j: int|
                0 <= j < i ==> crate::valid::export_ok(
                    (#[trigger] es[j]).1,
                    funcs as nat,
                    tables as nat,
                    memories as nat,
                    globals as nat,
                ),
        decreases exports.len() - i,
    {
        let there: bool = match exports[i].1 {
            Export::Func(x) => (x as usize) < funcs,
            Export::Table(x) => (x as usize) < tables,
            Export::Memory(x) => (x as usize) < memories,
            Export::Global(x) => (x as usize) < globals,
        };
        if !there {
            assert(!crate::valid::export_ok(
                es[i as int].1,
                funcs as nat,
                tables as nat,
                memories as nat,
                globals as nat,
            ));
            return false;
        }
        let mut k: usize = 0;
        while k < i
            invariant
                k <= i < exports.len(),
                es == crate::module::exports_view(exports@),
                forall|a: int| 0 <= a < k ==> (#[trigger] es[a]).0 != es[i as int].0,
            decreases i - k,
        {
            if exports[k].0 == exports[i].0 {
                assert(es[k as int].0 == es[i as int].0);
                return false;
            }
            k += 1;
        }
        i += 1;
    }
    true
}

/// Whether the start function, if there is one, is in order.
fn start_in_order(start: Option<u32>, funcs: &Vec<u32>, types: &Vec<FuncType>) -> (r: bool)
    ensures
        r == crate::valid::start_ok(start, funcs@, crate::types::seq_view(types@)),
{
    match start {
        None => true,
        Some(f) => {
            if (f as usize) < funcs.len() && (funcs[f as usize] as usize) < types.len() {
                let ty = &types[funcs[f as usize] as usize];
                let unit: bool = ty.params.len() == 0 && ty.result.is_none();
                proof {
                    if unit {
                        assert(ty@.params =~= Seq::empty());
                    }
                }
                unit
            } else {
                false
            }
        },
    }
}

/// Whether every index of a list is the index of a function.
fn funcs_there(fs: &Vec<u32>, funcs: usize) -> (r: bool)
    ensures
        r == crate::valid::funcs_listed(fs@, funcs as nat),
{
    let mut i: usize = 0;
    while i < fs.len()
        invariant
            i <= fs.len(),
            forall|j: int| 0 <= j < i ==> #[trigger] fs@[j] < funcs,
        decreases fs.len() - i,
    {
        if fs[i] as usize >= funcs {
            return false;
        }
        i += 1;
    }
    true
}

/// Whether every expression of a list that refers to a function refers to
/// one that is there, and may do so in a segment of the type `ty`.
fn exprs_there(es: &Vec<Option<u32>>, ty: ValType, funcs: usize) -> (r: bool)
    ensures
        r == crate::valid::exprs_listed(es@, ty, funcs as nat),
{
    let mut i: usize = 0;
    while i < es.len()
        invariant
            i <= es.len(),
            forall|j: int|
                0 <= j < i ==> ((#[trigger] es@[j]) matches Some(f) ==> f < funcs && ty
                    == ValType::FuncRef),
        decreases es.len() - i,
    {
        match es[i] {
            Some(f) => {
                if f as usize >= funcs || ty != ValType::FuncRef {
                    return false;
                }
            },
            None => {},
        }
        i += 1;
    }
    true
}

/// Whether an element segment is in order.
fn elem_in_order(
    seg: &ElementSegment,
    tables: &Vec<TableType>,
    funcs: usize,
    bulk: bool,
    refs: bool,
) -> (r: bool)
    ensures
        r == crate::valid::elem_ok(seg@, tables@, funcs as nat, bulk, refs),
{
    if !seg.ty.is_reference() {
        return false;
    }
    let items: bool = match &seg.items {
        Elements::Functions(fs) => {
            assert(seg@.items == crate::module::ElementsView::Functions(fs@));
            seg.ty == ValType::FuncRef && funcs_there(fs, funcs)
        },
        Elements::Expressions(es) => {
            assert(seg@.items == crate::module::ElementsView::Expressions(es@));
            refs && exprs_there(es, seg.ty, funcs)
        },
    };
    if !items {
        return false;
    }
    match &seg.kind {
        ElementKind::Active { table, offset } => {
            let t: u32 = match table {
                Some(t) => *t,
                None => 0,
            };
            let constant: bool = match offset {
                Instruction::I32Const(_) => true,
                _ => false,
            };
            (t as usize) < tables.len() && tables[t as usize].elem_ty == seg.ty && constant
        },
        ElementKind::Passive => bulk,
        ElementKind::Declared => bulk,
    }
}

/// Whether the element segments are in order.
fn elems_in_order(
    elems: &Vec<ElementSegment>,
    tables: &Vec<TableType>,
    funcs: usize,
    bulk: bool,
    refs: bool,
) -> (r: bool)
    ensures
        r == crate::valid::elems_ok(
            crate::types::seq_view(elems@),
            tables@,
            funcs as nat,
            bulk,
            refs,
        ),
{
    let mut i: usize = 0;
    while i < elems.len()
        invariant
            i <= elems.len(),
            forall|j: int|
                0 <= j < i ==> crate::valid::elem_ok(
                    #[trigger] crate::types::seq_view(elems@)[j],
                    tables@,
                    funcs as nat,
                    bulk,
                    refs,
                ),
        decreases elems.len() - i,
    {
        if !elem_in_order(&elems[i], tables, funcs, bulk, refs) {
            assert(!crate::valid::elem_ok(
                crate::types::seq_view(elems@)[i as int],
                tables@,
                funcs as nat,
                bulk,
                refs,
            ));
            return false;
        }
        i += 1;
    }
    true
}

/// Whether the data segments are in order.
fn data_in_order(data: &Vec<DataSegment>, memories: usize, bulk: bool) -> (r: bool)
    ensures
        r == crate::valid::data_ok(crate::types::seq_view(data@), memories as nat, bulk),
{
    let mut i: usize = 0;
    while i < data.len()
        invariant
            i <= data.len(),
            forall|j: int|
                0 <= j < i ==> crate::valid::data_segment_ok(
                    #[trigger] crate::types::seq_view(data@)[j],
                    memories as nat,
                    bulk,
                ),
        decreases data.len() - i,
    {
        let ok: bool = match &data[i].kind {
            DataSegmentKind::Active { memory_index, offset } => {
                let constant: bool = match offset {
                    Instruction::I32Const(_) => true,
                    _ => false,
                };
                (*memory_index as usize) < memories && constant
            },
            DataSegmentKind::Passive => bulk,
        };
        if !ok {
            assert(!crate::valid::data_segment_ok(
                crate::types::seq_view(data@)[i as int],
                memories as nat,
                bulk,
            ));
            return false;
        }
        i += 1;
    }
    true
}

/// Whether the body of a function of the type `ty` is in order.
fn code_in_order(c: &Context, ty: &FuncType, code: &Code, arbitrary: bool) -> (r: bool)
    ensures
        r == crate::valid::code_ok(c@, ty@, code@, arbitrary),
{
    if !val_types_in_order(&code.locals, c.reference_types) {
        return false;
    }
    match &code.instructions {
        Instructions::Arbitrary(_) => arbitrary,
        Instructions::Generated(instrs) => {
            let mut all: Vec<ValType> = crate::types::copy_val_types(&ty.params);
            let mut declared: Vec<ValType> = crate::types::copy_val_types(&code.locals);
            all.append(&mut declared);
            let inside = Context {
                types: c.types,
                funcs: c.funcs,
                tables: c.tables,
                memories: c.memories,
                globals: c.globals,
                elems: c.elems,
                data: c.data,
                declared: c.declared,
                locals: &all,
                result: ty.result,
                bulk_memory: c.bulk_memory,
                reference_types: c.reference_types,
            };
            assert(inside@ == crate::valid::function_context(c@, ty@, code@.locals));
            validate_body(&inside, instrs)
        },
    }
}

/// The types and the imports that the initial sections declare, where the
/// sections are the types, if there are any, and behind them the imports,
/// if there are any.
fn declarations(sections: &Vec<InitialSection>) -> (r: Option<(Vec<FuncType>, Vec<Import>)>)
    ensures
        match r {
            Some(d) => {
                &&& crate::types::seq_view(d.0@) == crate::module::section_types(
                    crate::types::seq_view(sections@),
                )
                &&& crate::types::seq_view(d.1@) == crate::module::section_imports(
                    crate::types::seq_view(sections@),
                )
                &&& crate::types::seq_view(sections@) == crate::valid::initial_sections(
                    crate::types::seq_view(d.0@),
                    crate::types::seq_view(d.1@),
                )
            },
            None => crate::types::seq_view(sections@) != crate::valid::initial_sections(
                crate::module::section_types(crate::types::seq_view(sections@)),
                crate::module::section_imports(crate::types::seq_view(sections@)),
            ),
        },
{
    let ghost ss = crate::types::seq_view(sections@);
    let mut types: Vec<FuncType> = Vec::new();
    let mut imports: Vec<Import> = Vec::new();
    assert(crate::types::seq_view(types@) =~= Seq::empty());
    assert(crate::types::seq_view(imports@) =~= Seq::empty());
    proof {
        reveal_with_fuel(crate::module::section_types, 4);
        reveal_with_fuel(crate::module::section_imports, 4);
    }
    if sections.len() > 2 {
        return None;
    }
    if sections.len() == 0 {
        assert(ss =~= Seq::empty());
        return Some((types, imports));
    }
    let mut next: usize = 0;
    match &sections[0] {
        InitialSection::Type(ts) => {
            if ts.len() == 0 {
                proof {
                    if sections.len() == 2 {
                        assert(ss.drop_last().drop_last() =~= Seq::empty());
                    } else {
                        assert(ss.drop_last() =~= Seq::empty());
                    }
                    let found_t = crate::module::section_types(ss);
                    let found_i = crate::module::section_imports(ss);
                    assert(crate::valid::initial_sections(found_t, found_i).len() < ss.len()
                        || crate::valid::initial_sections(found_t, found_i)[0] != ss[0]);
                }
                return None;
            }
            types = copy_types(ts);
            next = 1;
        },
        InitialSection::Import(_) => {},
    }
    if next < sections.len() {
        match &sections[next] {
            InitialSection::Import(is) => {
                if is.len() == 0 || next + 1 < sections.len() {
                    proof {
                        if sections.len() == 2 {
                            assert(ss.drop_last().drop_last() =~= Seq::empty());
                        } else {
                            assert(ss.drop_last() =~= Seq::empty());
                        }
                        let found_t = crate::module::section_types(ss);
                        let found_i = crate::module::section_imports(ss);
                        let want = crate::valid::initial_sections(found_t, found_i);
                        assert(want.len() != ss.len() || want[0] != ss[0] || want[1] != ss[1]);
                    }
                    return None;
                }
                imports = copy_imports(is);
            },
            InitialSection::Type(_) => {
                proof {
                    assert(ss.drop_last().drop_last() =~= Seq::empty());
                    let found_t = crate::module::section_types(ss);
                    let found_i = crate::module::section_imports(ss);
                    let want = crate::valid::initial_sections(found_t, found_i);
                    assert(want.len() != ss.len() || want[1] != ss[1]);
                }
                return None;
            },
        }
    }
    proof {
        if sections.len() == 2 {
            assert(ss.drop_last().drop_last() =~= Seq::empty());
        } else {
            assert(ss.drop_last() =~= Seq::empty());
        }
        let ts = crate::types::seq_view(types@);
        let is = crate::types::seq_view(imports@);
        assert(crate::module::section_types(ss) =~= ts);
        assert(crate::module::section_imports(ss) =~= is);
        assert(ss =~= crate::valid::initial_sections(ts, is));
    }
    Some((types, imports))
}

/// A copy of a list of signatures.
fn copy_types(ts: &Vec<FuncType>) -> (r: Vec<FuncType>)
    ensures
        crate::types::seq_view(r@) == crate::types::seq_view(ts@),
{
    let mut r: Vec<FuncType> = Vec::new();
    let mut i: usize = 0;
    while i < ts.len()
        invariant
            i <= ts.len(),
            crate::types::seq_view(r@) == crate::types::seq_view(ts@).take(i as int),
        decreases ts.len() - i,
    {
        let t = FuncType {
            params: crate::types::copy_val_types(&ts[i].params),
            result: ts[i].result,
        };
        assert(t@ == ts@[i as int]@);
        proof {
            crate::types::seq_view_push(r@, t);
        }
        r.push(t);
        assert(crate::types::seq_view(ts@).take(i + 1) =~= crate::types::seq_view(ts@).take(
            i as int,
        ).push(ts@[i as int]@));
        i += 1;
    }
    assert(crate::types::seq_view(ts@).take(ts.len() as int) =~= crate::types::seq_view(ts@));
    r
}

/// A copy of a list of imports.
fn copy_imports(is: &Vec<Import>) -> (r: Vec<Import>)
    ensures
        crate::types::seq_view(r@) == crate::types::seq_view(is@),
{
    let mut r: Vec<Import> = Vec::new();
    let mut i: usize = 0;
    while i < is.len()
        invariant
            i <= is.len(),
            crate::types::seq_view(r@) == crate::types::seq_view(is@).take(i as int),
        decreases is.len() - i,
    {
        let import = Import {
            module: is[i].module.clone(),
            name: match &is[i].name {
                Some(n) => Some(n.clone()),
                None => None,
            },
            desc: is[i].desc,
        };
        assert(import@ == is@[i as int]@);
        proof {
            crate::types::seq_view_push(r@, import);
        }
        r.push(import);
        assert(crate::types::seq_view(is@).take(i + 1) =~= crate::types::seq_view(is@).take(
            i as int,
        ).push(is@[i as int]@));
        i += 1;
    }
    assert(crate::types::seq_view(is@).take(is.len() as int) =~= crate::types::seq_view(is@));
    r
}

impl<C: Config> ConfiguredModule<C> {
    /// Whether this module is valid.
    #[verifier::rlimit(50)]
    pub fn is_valid(&self) -> (r: bool)
        ensures
            r == crate::valid::module_ok(self@),
    {
        let refs: bool = self.knobs.reference_types_enabled;
        let bulk: bool = self.knobs.bulk_memory_enabled;
        let (types, imports) = match declarations(&self.initial_sections) {
            Some(d) => d,
            None => {
                return false;
            },
        };
        let ghost ts = crate::types::seq_view(types@);
        let ghost is = crate::types::seq_view(imports@);
        assert(self@.types() == ts);
        assert(self@.imports() == is);
        assert(self@.exports =~= crate::module::exports_view(self.exports@));
        assert(self@.defined_globals =~= crate::module::defined_globals_view(
            self.defined_globals@,
        ));
        if !types_in_order(&types, refs) {
            return false;
        }
        if !imports_in_order(&imports, types.len()) {
            return false;
        }
        if !(self.funcs.len() >= imports.len() && self.funcs.len() - imports.len()
            == self.num_defined_funcs) {
            return false;
        }
        let mut i: usize = 0;
        while i < self.funcs.len()
            invariant
                i <= self.funcs.len(),
                imports.len() <= self.funcs.len(),
                is == crate::types::seq_view(imports@),
                ts == crate::types::seq_view(types@),
                self@.types() == ts,
                self@.imports() == is,
                forall|j: int|
                    0 <= j < i && j < imports.len() ==> #[trigger] self.funcs@[j]
                        == is[j].desc.type_index(),
                forall|j: int| 0 <= j < i ==> #[trigger] self.funcs@[j] < types.len(),
            decreases self.funcs.len() - i,
        {
            if self.funcs[i] as usize >= types.len() {
                assert(!(self@.funcs[i as int] < ts.len()));
                return false;
            }
            if i < imports.len() {
                let index: u32 = match imports[i].desc {
                    FunctionType::Func(t) => t,
                };
                if self.funcs[i] != index {
                    assert(self.funcs@[i as int] != is[i as int].desc.type_index());
                    return false;
                }
            }
            i += 1;
        }
        assert(crate::valid::funcs_ok(self@.funcs, is, ts));
        if self.num_defined_tables != self.tables.len() || !tables_in_order(&self.tables, refs) {
            return false;
        }
        if self.num_defined_memories != self.memories.len() || !memories_in_order(
            &self.memories,
        ) {
            return false;
        }
        if !globals_in_order(&self.globals, &self.defined_globals, refs, self.funcs.len()) {
            return false;
        }
        if !exports_in_order(
            &self.exports,
            self.funcs.len(),
            self.tables.len(),
            self.memories.len(),
            self.globals.len(),
        ) {
            return false;
        }
        if !start_in_order(self.start, &self.funcs, &types) {
            return false;
        }
        if !elems_in_order(&self.elems, &self.tables, self.funcs.len(), bulk, refs) {
            return false;
        }
        if !data_in_order(&self.data, self.memories.len(), bulk) {
            return false;
        }
        if self.code.len() != self.num_defined_funcs {
            return false;
        }
        let declared: Vec<bool> = mark_declared(self.funcs.len(), &self.exports, &self.elems);
        let elem_types: Vec<ValType> = list_elem_types(&self.elems);
        let no_locals: Vec<ValType> = Vec::new();
        let c = Context {
            types: &types,
            funcs: &self.funcs,
            tables: &self.tables,
            memories: &self.memories,
            globals: &self.globals,
            elems: &elem_types,
            data: self.data.len(),
            declared: &declared,
            locals: &no_locals,
            result: None,
            bulk_memory: bulk,
            reference_types: refs,
        };
        assert(c@ == crate::valid::module_context(self@));
        let first: usize = self.funcs.len() - self.code.len();
        let ghost cs = self@.code;
        let mut k: usize = 0;
        while k < self.code.len()
            invariant
                k <= self.code.len() <= self.funcs.len(),
                first == self.funcs.len() - self.code.len(),
                cs == self@.code,
                ts == crate::types::seq_view(types@),
                c@ == crate::valid::module_context(self@),
                self@.types() == ts,
                forall|j: int|
                    0 <= j < self.funcs.len() ==> #[trigger] self.funcs@[j] < types.len(),
                forall|j: int|
                    0 <= j < k ==> crate::valid::code_ok(
                        c@,
                        ts[self.funcs@[first + j] as int],
                        #[trigger] cs[j],
                        self.knobs.allow_arbitrary_instr,
                    ),
            decreases self.code.len() - k,
        {
            let ty = &types[self.funcs[first + k] as usize];
            if !code_in_order(&c, ty, &self.code[k], self.knobs.allow_arbitrary_instr) {
                assert(!crate::valid::code_ok(
                    c@,
                    ts[self.funcs@[first + k] as int],
                    cs[k as int],
                    self.knobs.allow_arbitrary_instr,
                ));
                return false;
            }
            k += 1;
        }
        assert(crate::valid::codes_ok(self@));
        true
    }
}

impl Module {
    /// Whether this module is valid.
    pub fn is_valid(&self) -> (r: bool)
        ensures
            r == crate::valid::module_ok(self@),
    {
        self.inner.is_valid()
    }
}

} // verus!

//! The last stage of the module builder, the function bodies, and the
//! generator itself, which runs the stages one after the other.

use crate::builder::{draw_funcs, draw_imports, draw_types, draw_val_types};
use crate::validator::Context;
use crate::config::{Config, ConfigError, DefaultConfig, Knobs, KnobsView};
use crate::entropy::Entropy;
use crate::exports::{draw_exports, draw_start, list_candidates};
use crate::module::{
    Code, CodeView, ConfiguredModule, DataSegment, ElementSegment, Elements, Import,
    InitialSection, Instructions, InstructionsView, Module, ModuleView,
};
use crate::segments::{draw_data, draw_elems};
use crate::selector::generate_body;
use crate::stages::{draw_globals, draw_memories, draw_tables};
use crate::types::{
    copy_val_types, Export, FuncType, FuncTypeView, Instruction, MemoryType, TableType,
    ValType,
};
use crate::typing::ContextView;
use vstd::prelude::*;

verus! {

/// The body drawn from `s` for a function of the type `ty`, and what is
/// left. Where the configuration allows arbitrary bodies, a flag says
/// whether this is one: then a number of bytes is drawn, up to
/// `max_instructions`, and the bytes. Else the locals are drawn, up to
/// `max_parameters` of them, and the instruction selector writes the
/// instructions.
pub open spec fn code_from(kn: KnobsView, module: ContextView, ty: FuncTypeView, s: Seq<u8>) -> (
    CodeView,
    Seq<u8>,
) {
    let arbitrary = kn.allow_arbitrary_instr && crate::entropy::flag_value(s);
    let s1 = if kn.allow_arbitrary_instr {
        crate::entropy::flag_rest(s)
    } else {
        s
    };
    if arbitrary {
        let n = crate::entropy::count_value(s1, 0, kn.max_instructions);
        let s2 = crate::entropy::count_rest(s1, 0, kn.max_instructions);
        (
            CodeView {
                locals: Seq::empty(),
                instructions: InstructionsView::Arbitrary(
                    crate::entropy::fill_value(s2, n as nat),
                ),
            },
            crate::entropy::fill_rest(s2, n as nat),
        )
    } else {
        let locals = crate::builder::val_types_from(
            kn.reference_types_enabled,
            crate::entropy::count_value(s1, 0, kn.max_parameters) as nat,
            crate::entropy::count_rest(s1, 0, kn.max_parameters),
        );
        let body = crate::selector::body(
            crate::valid::function_context(module, ty, locals.0),
            kn,
            locals.1,
        );
        (CodeView { locals: locals.0, instructions: InstructionsView::Generated(body.0) }, body.1)
    }
}

/// The bodies of the first `n` defined functions drawn from `s`, and what
/// is left. The first defined function has the index `first`.
pub open spec fn codes_n(
    kn: KnobsView,
    module: ContextView,
    types: Seq<FuncTypeView>,
    funcs: Seq<u32>,
    first: nat,
    n: nat,
    s: Seq<u8>,
) -> (Seq<CodeView>, Seq<u8>)
    decreases n,
{
    if n == 0 {
        (Seq::empty(), s)
    } else {
        let before = codes_n(kn, module, types, funcs, first, (n - 1) as nat, s);
        let code = code_from(kn, module, types[funcs[first + n - 1] as int], before.1);
        (before.0.push(code.0), code.1)
    }
}

/// The module that the generator makes of the knobs of a configuration and
/// of the entropy. The stages run in this order, each on what the one
/// before has left of the entropy: types, imports, functions, tables,
/// memories, globals, exports, start function, element segments, data
/// segments, function bodies.
pub open spec fn generated(kn: KnobsView, s: Seq<u8>) -> ModuleView {
    let first = crate::builder::types_from(kn, s);
    let imported = crate::builder::imports_from(kn, first.0, first.1);
    let types = imported.0;
    let imports = imported.1;
    let funcs = crate::builder::funcs_from(kn, types.len(), imports, imported.2);
    let tables = crate::stages::tables_from(kn, funcs.1);
    let memories = crate::stages::memories_from(kn, tables.1);
    let globals = crate::stages::globals_from(kn, memories.1);
    let exports = crate::exports::exports_from(
        kn,
        crate::exports::export_candidates(
            kn,
            types,
            funcs.0,
            tables.0.len(),
            memories.0.len(),
            globals.0.len(),
        ),
        globals.2,
    );
    let start = crate::exports::start_from(kn, types, funcs.0, imports.len(), exports.1);
    let elems = crate::segments::elems_from(kn, tables.0, funcs.0.len(), start.1);
    let data = crate::segments::data_segments_from(kn, memories.0.len(), elems.1);
    let defined = (funcs.0.len() - imports.len()) as nat;
    let code = codes_n(
        kn,
        crate::valid::context(
            kn,
            types,
            funcs.0,
            tables.0,
            memories.0,
            globals.0,
            exports.0,
            elems.0,
            data.0.len(),
        ),
        types,
        funcs.0,
        imports.len(),
        defined,
        data.1,
    );
    ModuleView {
        knobs: kn,
        initial_sections: crate::valid::initial_sections(types, imports),
        funcs: funcs.0,
        tables: tables.0,
        memories: memories.0,
        globals: globals.0,
        defined_globals: globals.1,
        exports: exports.0,
        start: start.0,
        elems: elems.0,
        code: code.0,
        data: data.0,
        num_defined_funcs: defined as usize,
        num_defined_tables: tables.0.len() as usize,
        num_defined_memories: memories.0.len() as usize,
    }
}

/// Whether the body of a function is in order and keeps to the policies of
/// the configuration.
pub open spec fn code_good(
    kn: KnobsView,
    module: ContextView,
    ty: FuncTypeView,
    code: CodeView,
) -> bool {
    &&& crate::valid::code_ok(module, ty, code, kn.allow_arbitrary_instr)
    &&& code.instructions matches InstructionsView::Generated(is)
        ==> crate::selector::body_keeps_policy(
        crate::valid::function_context(module, ty, code.locals),
        kn,
        is,
    )
}

/// Whether every generated body of a module keeps to the policies of the
/// configuration: no block type names a function type unless that is
/// allowed, and where only offsets that are out of bounds have a weight,
/// every memory access has such an offset.
pub open spec fn bodies_keep_policy(m: ModuleView) -> bool {
    forall|i: int|
        0 <= i < m.code.len() ==> ((#[trigger] m.code[i]).instructions
            matches InstructionsView::Generated(is) ==> crate::selector::body_keeps_policy(
            crate::valid::function_context(
                crate::valid::module_context(m),
                m.types()[m.funcs[m.funcs.len() - m.code.len() + i] as int],
                m.code[i].locals,
            ),
            m.knobs,
            is,
        ))
}

/// Sets the mark of the function `f`, if `f` is a function.
fn mark(d: &mut Vec<bool>, f: u32)
    ensures
        final(d)@ == crate::valid::marked(old(d)@, f),
{
    if (f as usize) < d.len() {
        d.set(f as usize, true);
    }
}

/// For every function, whether `ref.func` may name it.
pub fn mark_declared(
    funcs: usize,
    exports: &Vec<(String, Export)>,
    elems: &Vec<ElementSegment>,
) -> (d: Vec<bool>)
    ensures
        d@ == crate::valid::declared(
            funcs as nat,
            crate::module::exports_view(exports@),
            crate::types::seq_view(elems@),
        ),
{
    let mut d: Vec<bool> = Vec::new();
    let mut i: usize = 0;
    assert(d@ =~= crate::valid::unmarked(0));
    while i < funcs
        invariant
            i <= funcs,
            d@ == crate::valid::unmarked(i as nat),
        decreases funcs - i,
    {
        d.push(false);
        assert(d@ =~= crate::valid::unmarked((i + 1) as nat));
        i += 1;
    }
    let ghost es = crate::module::exports_view(exports@);
    let ghost d0 = d@;
    let mut e: usize = 0;
    while e < exports.len()
        invariant
            e <= exports.len(),
            es == crate::module::exports_view(exports@),
            d@ == crate::valid::mark_exports(d0, es.take(e as int)),
        decreases exports.len() - e,
    {
        proof {
            assert(es.take(e + 1).drop_last() =~= es.take(e as int));
            assert(es.take(e + 1).last() == es[e as int]);
        }
        match exports[e].1 {
            Export::Func(f) => {
                mark(&mut d, f);
            },
            _ => {},
        }
        e += 1;
    }
    assert(es.take(exports.len() as int) =~= es);
    let ghost segs = crate::types::seq_view(elems@);
    let ghost d1 = d@;
    let mut k: usize = 0;
    while k < elems.len()
        invariant
            k <= elems.len(),
            segs == crate::types::seq_view(elems@),
            d@ == crate::valid::mark_elems(d1, segs.take(k as int)),
        decreases elems.len() - k,
    {
        proof {
            assert(segs.take(k + 1).drop_last() =~= segs.take(k as int));
            assert(segs.take(k + 1).last() == segs[k as int]);
        }
        let ghost d2 = d@;
        match &elems[k].items {
            Elements::Functions(fs) => {
                let mut j: usize = 0;
                while j < fs.len()
                    invariant
                        j <= fs.len(),
                        d@ == crate::valid::mark_funcs(d2, fs@.take(j as int)),
                    decreases fs.len() - j,
                {
                    proof {
                        assert(fs@.take(j + 1).drop_last() =~= fs@.take(j as int));
                    }
                    mark(&mut d, fs[j]);
                    j += 1;
                }
                assert(fs@.take(fs.len() as int) =~= fs@);
            },
            Elements::Expressions(xs) => {
                let mut j: usize = 0;
                while j < xs.len()
                    invariant
                        j <= xs.len(),
                        d@ == crate::valid::mark_exprs(d2, xs@.take(j as int)),
                    decreases xs.len() - j,
                {
                    proof {
                        assert(xs@.take(j + 1).drop_last() =~= xs@.take(j as int));
                    }
                    match xs[j] {
                        Some(f) => {
                            mark(&mut d, f);
                        },
                        None => {},
                    }
                    j += 1;
                }
                assert(xs@.take(xs.len() as int) =~= xs@);
            },
        }
        k += 1;
    }
    assert(segs.take(elems.len() as int) =~= segs);
    d
}

/// The types of the element segments.
pub fn list_elem_types(elems: &Vec<ElementSegment>) -> (r: Vec<ValType>)
    ensures
        r@ == crate::valid::elem_types(crate::types::seq_view(elems@)),
{
    let ghost all = crate::valid::elem_types(crate::types::seq_view(elems@));
    let mut r: Vec<ValType> = Vec::new();
    let mut i: usize = 0;
    while i < elems.len()
        invariant
            i <= elems.len(),
            all == crate::valid::elem_types(crate::types::seq_view(elems@)),
            r@ == all.take(i as int),
        decreases elems.len() - i,
    {
        r.push(elems[i].ty);
        assert(r@ =~= all.take(i + 1));
        i += 1;
    }
    assert(all.take(elems.len() as int) =~= all);
    r
}

/// Draws the body of a function of the type `ty`.
pub fn draw_code<'a>(kn: &Knobs, c: &Context, ty: &FuncType, u: &mut Entropy<'a>) -> (code: Code)
    requires
        kn@.valid(),
        c.reference_types == kn.reference_types_enabled,
    ensures
        (code@, final(u)@) == code_from(kn@, c@, ty@, old(u)@),
        final(u).data == old(u).data,
        code_good(kn@, c@, ty@, code@),
{
    if kn.allow_arbitrary_instr && u.flag() {
        let n: usize = u.count(0, kn.max_instructions);
        let bytes: Vec<u8> = u.bytes(n);
        return Code { locals: Vec::new(), instructions: Instructions::Arbitrary(bytes) };
    }
    let n: usize = u.count(0, kn.max_parameters);
    let locals: Vec<ValType> = draw_val_types(kn.reference_types_enabled, n, u);
    let mut all: Vec<ValType> = copy_val_types(&ty.params);
    let mut declared: Vec<ValType> = copy_val_types(&locals);
    all.append(&mut declared);
    let inside = Context {
        types: c.types,
        funcs: c.funcs,
        tables: c.tables,
        memories: c.memories,
        globals: c.globals,
        elems: c.elems,
        data: c.data,
        declared: c.declared,
        locals: &all,
        result: ty.result,
        bulk_memory: c.bulk_memory,
        reference_types: c.reference_types,
    };
    assert(inside@ == crate::valid::function_context(c@, ty@, locals@));
    let instrs: Vec<Instruction> = generate_body(&inside, kn, u);
    Code { locals, instructions: Instructions::Generated(instrs) }
}

/// The last stage: draws the bodies of the defined functions.
pub fn draw_codes<'a>(
    kn: &Knobs,
    c: &Context,
    types: &Vec<FuncType>,
    funcs: &Vec<u32>,
    first: usize,
    u: &mut Entropy<'a>,
) -> (codes: Vec<Code>)
    requires
        kn@.valid(),
        c.reference_types == kn.reference_types_enabled,
        first <= funcs.len(),
        forall|i: int| 0 <= i < funcs.len() ==> #[trigger] funcs@[i] < types.len(),
    ensures
        (crate::types::seq_view(codes@), final(u)@) == codes_n(
            kn@,
            c@,
            crate::types::seq_view(types@),
            funcs@,
            first as nat,
            (funcs.len() - first) as nat,
            old(u)@,
        ),
        final(u).data == old(u).data,
        codes.len() == funcs.len() - first,
        forall|i: int|
            0 <= i < codes.len() ==> code_good(
                kn@,
                c@,
                crate::types::seq_view(types@)[funcs@[first + i] as int],
                #[trigger] crate::types::seq_view(codes@)[i],
            ),
{
    let ghost ts = crate::types::seq_view(types@);
    let n: usize = funcs.len() - first;
    let mut codes: Vec<Code> = Vec::new();
    let mut i: usize = 0;
    assert(crate::types::seq_view(codes@) =~= Seq::empty());
    while i < n
        invariant
            i <= n,
            n == funcs.len() - first,
            kn@.valid(),
            c.reference_types == kn.reference_types_enabled,
            ts == crate::types::seq_view(types@),
            forall|j: int| 0 <= j < funcs.len() ==> #[trigger] funcs@[j] < types.len(),
            u.data == old(u).data,
            (crate::types::seq_view(codes@), u@) == codes_n(
                kn@,
                c@,
                ts,
                funcs@,
                first as nat,
                i as nat,
                old(u)@,
            ),
            codes.len() == i,
            forall|j: int|
                0 <= j < codes.len() ==> code_good(
                    kn@,
                    c@,
                    ts[funcs@[first + j] as int],
                    #[trigger] crate::types::seq_view(codes@)[j],
                ),
        decreases n - i,
    {
        let ghost before = crate::types::seq_view(codes@);
        let ty = &types[funcs[first + i] as usize];
        let code: Code = draw_code(kn, c, ty, u);
        proof {
            crate::types::seq_view_push(codes@, code);
        }
        codes.push(code);
        proof {
            let now = crate::types::seq_view(codes@);
            assert forall|j: int| 0 <= j < codes.len() implies code_good(
                kn@,
                c@,
                ts[funcs@[first + j] as int],
                #[trigger] now[j],
            ) by {
                if j < i {
                    assert(now[j] == before[j]);
                }
            }
        }
        i += 1;
    }
    codes
}

/// What the generator promises of a module: it can be encoded, it is valid, it keeps within
/// the bounds of its configuration, its exported functions have signatures
/// that may be exported, and its bodies keep to the policies.
pub open spec fn well_generated(m: ModuleView) -> bool {
    &&& m.encodable()
    &&& crate::valid::module_ok(m)
    &&& crate::valid::within_bounds(m)
    &&& crate::valid::exports_allowed(m)
    &&& bodies_keep_policy(m)
}

impl<C: Config> ConfiguredModule<C> {
    /// Generates a module from the knobs of a configuration and from
    /// entropy, or rejects the knobs.
    #[verifier::rlimit(50)]
    pub fn build(config: C, knobs: Knobs, entropy: &[u8]) -> (r: Result<Self, ConfigError>)
        ensures
            match r {
                Ok(m) => {
                    &&& knobs@.valid()
                    &&& m.knobs == knobs
                    &&& m.config == config
                    &&& m@ == generated(knobs@, entropy@)
                    &&& well_generated(m@)
                },
                Err(e) => knobs@.error() == Some(e),
            },
    {
        match knobs.validate() {
            Err(e) => {
                return Err(e);
            },
            Ok(_) => {},
        }
        let ghost kn = knobs@;
        let mut u = Entropy::new(entropy);
        let mut types: Vec<FuncType> = draw_types(&knobs, &mut u);
        let imports: Vec<Import> = draw_imports(&knobs, &mut types, &mut u);
        let funcs: Vec<u32> = draw_funcs(&knobs, &types, &imports, &mut u);
        let tables: Vec<TableType> = draw_tables(&knobs, &mut u);
        let memories: Vec<MemoryType> = draw_memories(&knobs, &mut u);
        let (globals, defined_globals) = draw_globals(&knobs, &mut u);
        let candidates: Vec<Export> = list_candidates(
            &knobs,
            &types,
            &funcs,
            tables.len(),
            memories.len(),
            globals.len(),
        );
        let exports: Vec<(String, Export)> = draw_exports(&knobs, &candidates, &mut u);
        let start: Option<u32> = draw_start(&knobs, &types, &funcs, imports.len(), &mut u);
        let elems: Vec<ElementSegment> = draw_elems(&knobs, &tables, funcs.len(), &mut u);
        let data: Vec<DataSegment> = draw_data(&knobs, memories.len(), &mut u);
        let declared: Vec<bool> = mark_declared(funcs.len(), &exports, &elems);
        let elem_types: Vec<ValType> = list_elem_types(&elems);
        let no_locals: Vec<ValType> = Vec::new();
        let c = Context {
            types: &types,
            funcs: &funcs,
            tables: &tables,
            memories: &memories,
            globals: &globals,
            elems: &elem_types,
            data: data.len(),
            declared: &declared,
            locals: &no_locals,
            result: None,
            bulk_memory: knobs.bulk_memory_enabled,
            reference_types: knobs.reference_types_enabled,
        };
        let ghost ts = crate::types::seq_view(types@);
        let ghost is = crate::types::seq_view(imports@);
        let ghost es = crate::module::exports_view(exports@);
        let ghost gs = crate::module::defined_globals_view(defined_globals@);
        let ghost segs = crate::types::seq_view(elems@);
        let ghost ds = crate::types::seq_view(data@);
        let ghost cv = crate::valid::context(
            kn,
            ts,
            funcs@,
            tables@,
            memories@,
            globals@,
            es,
            segs,
            ds.len(),
        );
        assert(c@ == cv);
        let code: Vec<Code> = draw_codes(&knobs, &c, &types, &funcs, imports.len(), &mut u);
        let num_defined_funcs: usize = funcs.len() - imports.len();
        let num_defined_tables: usize = tables.len();
        let num_defined_memories: usize = memories.len();
        let mut initial_sections: Vec<InitialSection> = Vec::new();
        if types.len() > 0 {
            initial_sections.push(InitialSection::Type(types));
        }
        if imports.len() > 0 {
            initial_sections.push(InitialSection::Import(imports));
        }
        assert(crate::types::seq_view(initial_sections@) =~= crate::valid::initial_sections(
            ts,
            is,
        ));
        let m = ConfiguredModule {
            config,
            knobs,
            initial_sections,
            funcs,
            tables,
            memories,
            globals,
            defined_globals,
            exports,
            start,
            elems,
            code,
            data,
            num_defined_funcs,
            num_defined_tables,
            num_defined_memories,
        };
        proof {
            crate::valid::initial_sections_hold(ts, is);
            assert(m@.exports =~= es);
            assert(m@.defined_globals =~= gs);
            assert(m@.types() == ts);
            assert(m@.imports() == is);
            assert(crate::valid::module_context(m@) == cv);
            assert(m@ == generated(kn, entropy@));
            crate::stages::globals_ok_with_funcs(
                m@.globals,
                gs,
                kn.reference_types_enabled,
                m@.funcs.len(),
            );
            assert(crate::valid::exports_ok(
                es,
                m@.funcs.len(),
                m@.tables.len(),
                m@.memories.len(),
                m@.globals.len(),
            )) by {
                assert forall|i: int, j: int| 0 <= i < j < es.len() implies (#[trigger] es[i]).0
                    != (#[trigger] es[j]).0 by {
                    crate::exports::export_names_differ(i as nat, j as nat);
                }
                assert forall|i: int| 0 <= i < es.len() implies crate::valid::export_ok(
                    (#[trigger] es[i]).1,
                    m@.funcs.len(),
                    m@.tables.len(),
                    m@.memories.len(),
                    m@.globals.len(),
                ) by {
                    let k = choose|k: int| 0 <= k < candidates@.len() && candidates@[k] == es[i].1;
                    assert(candidates@[k] == es[i].1);
                }
            }
            assert(crate::valid::exports_allowed(m@)) by {
                if kn.allowed_export_types is Some {
                    assert forall|i: int| 0 <= i < es.len() implies ((#[trigger] es[i]).1
                        matches Export::Func(f) ==> f < m@.funcs.len() && m@.funcs[f as int]
                        < ts.len() && kn.allowed_export_types->0.contains(
                        ts[m@.funcs[f as int] as int],
                    )) by {
                        let k = choose|k: int|
                            0 <= k < candidates@.len() && candidates@[k] == es[i].1;
                        assert(candidates@[k] == es[i].1);
                    }
                }
            }
            assert(crate::valid::codes_ok(m@));
            assert(bodies_keep_policy(m@));
            assert(crate::valid::module_ok(m@));
            assert(crate::valid::within_bounds(m@));
            crate::valid::valid_is_encodable(m@);
        }
        Ok(m)
    }

    /// Generates a module from a configuration and from entropy. Every
    /// knob of the configuration is asked once; the module keeps the
    /// answers. The configuration is rejected where its knobs are.
    pub fn generate(config: C, entropy: &[u8]) -> (r: Result<Self, ConfigError>)
        ensures
            match r {
                Ok(m) => {
                    &&& crate::config::reads(&config, m.knobs)
                    &&& m.knobs@.valid()
                    &&& m.config == config
                    &&& m@ == generated(m.knobs@, entropy@)
                    &&& well_generated(m@)
                },
                Err(e) => exists|k: Knobs|
                    crate::config::reads(&config, k) && #[trigger] k@.error() == Some(e),
            },
    {
        let knobs: Knobs = Knobs::of(&config);
        Self::build(config, knobs, entropy)
    }
}

impl Module {
    /// Generates a module under the default configuration. It never
    /// fails: the default knobs are accepted.
    pub fn generate(entropy: &[u8]) -> (m: Module)
        ensures
            m@ == generated(crate::config::default_knobs(), entropy@),
            well_generated(m@),
    {
        let knobs: Knobs = Knobs::of(&DefaultConfig);
        proof {
            crate::config::default_config_knobs(knobs);
        }
        match ConfiguredModule::build(DefaultConfig, knobs, entropy) {
            Ok(inner) => Module { inner },
            Err(_) => vstd::pervasive::unreached(),
        }
    }
}

} // verus!

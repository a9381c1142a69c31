//! What holds of every module that the generator makes, and of every
//! encoding.

use crate::config::KnobsView;
use crate::module::{InstructionsView, ModuleView};
use crate::types::{BlockType, InstructionView};
use crate::typing::{ContextView, StackView};
use vstd::prelude::*;

verus! {

/// The encoding of every module opens with the magic number and the
/// version.
pub proof fn encoding_opens_with_header(m: ModuleView)
    ensures
        crate::encode::module_bytes(m).len() >= 8,
        crate::encode::module_bytes(m).take(8) == crate::encode::header(),
{
    let rest = crate::encode::sections_bytes(m, m.knobs.min_uleb_size as nat);
    assert((crate::encode::header() + rest).take(8) =~= crate::encode::header());
}

/// Reading the encoding of a module back gives the same bytes: an encoded
/// module opens like a binary module, and a binary module is taken as it
/// is.
pub proof fn encoding_reads_back(m: ModuleView)
    ensures
        crate::wat::module_of(crate::encode::module_bytes(m)) == Some(
            crate::encode::module_bytes(m),
        ),
{
    encoding_opens_with_header(m);
    let bytes = crate::encode::module_bytes(m);
    assert(bytes.take(4) =~= bytes.take(8).take(4));
    assert(crate::encode::header().take(4) =~= crate::wat::magic());
}

/// The same knobs and the same entropy give the same module, and so the
/// same bytes.
pub proof fn same_input_same_bytes(kn: KnobsView, entropy: Seq<u8>, a: ModuleView, b: ModuleView)
    requires
        a == crate::generate::generated(kn, entropy),
        b == crate::generate::generated(kn, entropy),
    ensures
        a == b,
        crate::encode::module_bytes(a) == crate::encode::module_bytes(b),
{
}

/// Where arbitrary bodies are not allowed, every body of a valid module is
/// made of instructions, and these pass the validator: no operand is
/// missing, every operand has the type that its instruction takes, and the
/// body ends with the results of its function.
pub proof fn bodies_are_typed(m: ModuleView, f: int)
    requires
        crate::valid::module_ok(m),
        !m.knobs.allow_arbitrary_instr,
        0 <= f < m.code.len(),
    ensures
        m.code[f].instructions matches InstructionsView::Generated(is)
            && crate::typing::body_ok(
            crate::valid::function_context(
                crate::valid::module_context(m),
                m.types()[m.funcs[m.funcs.len() - m.code.len() + f] as int],
                m.code[f].locals,
            ),
            is,
        ),
{
}

/// Whether every index that an instruction holds refers to something that
/// is there in its index space: functions, types, tables, memories,
/// globals, locals, element segments and data segments.
pub open spec fn indices_in_range(c: ContextView, i: InstructionView) -> bool {
    match i {
        InstructionView::Block(bt) | InstructionView::Loop(bt) | InstructionView::If(bt) => (bt
            matches BlockType::FuncType(f) ==> f < c.types.len()),
        InstructionView::Call(x) | InstructionView::RefFunc(x) => x < c.funcs.len(),
        InstructionView::CallIndirect { ty, table } => ty < c.types.len() && table
            < c.tables.len(),
        InstructionView::LocalGet(x) | InstructionView::LocalSet(x) | InstructionView::LocalTee(
            x,
        ) => x < c.locals.len(),
        InstructionView::GlobalGet(x) | InstructionView::GlobalSet(x) => x < c.globals.len(),
        InstructionView::I32Load(m) | InstructionView::I64Load(m)
        | InstructionView::I32Load8_S(m) | InstructionView::I32Load8_U(m)
        | InstructionView::I32Load16_S(m) | InstructionView::I32Load16_U(m)
        | InstructionView::I64Load8_S(m) | InstructionView::I64Load8_U(m)
        | InstructionView::I64Load16_S(m) | InstructionView::I64Load16_U(m)
        | InstructionView::I64Load32_S(m) | InstructionView::I64Load32_U(m)
        | InstructionView::I32Store(m) | InstructionView::I64Store(m)
        | InstructionView::I32Store8(m) | InstructionView::I32Store16(m)
        | InstructionView::I64Store8(m) | InstructionView::I64Store16(m)
        | InstructionView::I64Store32(m) => m.memory_index < c.memories.len(),
        InstructionView::MemorySize(x) | InstructionView::MemoryGrow(x)
        | InstructionView::MemoryFill(x) => x < c.memories.len(),
        InstructionView::MemoryInit { mem, data } => mem < c.memories.len() && data < c.data,
        InstructionView::DataDrop(x) => x < c.data,
        InstructionView::MemoryCopy { src, dst } => src < c.memories.len() && dst
            < c.memories.len(),
        InstructionView::TableInit { segment, table } => segment < c.elems.len() && table
            < c.tables.len(),
        InstructionView::ElemDrop { segment } => segment < c.elems.len(),
        InstructionView::TableFill { table } | InstructionView::TableSet { table }
        | InstructionView::TableGet { table } | InstructionView::TableGrow { table }
        | InstructionView::TableSize { table } => table < c.tables.len(),
        InstructionView::TableCopy { src, dst } => src < c.tables.len() && dst < c.tables.len(),
        _ => true,
    }
}

/// An instruction that is valid where it stands holds only indices of
/// things that are there.
pub proof fn valid_step_keeps_indices(c: ContextView, st: StackView, i: InstructionView)
    requires
        crate::typing::step(c, st, i) is Some,
    ensures
        indices_in_range(c, i),
{
}

/// Where a run of instructions is valid, each of them is valid in the
/// state that the ones before it leave.
pub proof fn valid_run_keeps_indices(
    c: ContextView,
    st: StackView,
    is: Seq<InstructionView>,
    j: int,
)
    requires
        crate::typing::run(c, st, is) is Some,
        0 <= j < is.len(),
    ensures
        indices_in_range(c, is[j]),
    decreases is.len(),
{
    let before = crate::typing::run(c, st, is.drop_last());
    if j == is.len() - 1 {
        valid_step_keeps_indices(c, before->0, is.last());
    } else {
        valid_run_keeps_indices(c, st, is.drop_last(), j);
    }
}

/// Every instruction of a valid body holds only indices of things that
/// are there.
pub proof fn valid_body_keeps_indices(c: ContextView, is: Seq<InstructionView>)
    requires
        crate::typing::body_ok(c, is),
    ensures
        forall|j: int| 0 <= j < is.len() ==> indices_in_range(c, #[trigger] is[j]),
{
    let whole = is.push(InstructionView::End);
    assert forall|j: int| 0 <= j < is.len() implies indices_in_range(c, #[trigger] is[j]) by {
        valid_run_keeps_indices(c, crate::typing::start(c), whole, j);
        assert(whole[j] == is[j]);
    }
}

/// In a valid module every index refers to something that is there: the
/// type of every import and of every function, what every export, the
/// start function and every segment name, and every index in every
/// generated body.
pub proof fn valid_module_keeps_indices(m: ModuleView, f: int)
    requires
        crate::valid::module_ok(m),
        0 <= f < m.code.len(),
    ensures
        forall|i: int| 0 <= i < m.funcs.len() ==> #[trigger] m.funcs[i] < m.types().len(),
        m.start matches Some(s) ==> s < m.funcs.len(),
        m.code[f].instructions matches InstructionsView::Generated(is) ==> forall|j: int|
            0 <= j < is.len() ==> indices_in_range(
                crate::valid::function_context(
                    crate::valid::module_context(m),
                    m.types()[m.funcs[m.funcs.len() - m.code.len() + f] as int],
                    m.code[f].locals,
                ),
                #[trigger] is[j],
            ),
{
    match m.code[f].instructions {
        InstructionsView::Generated(is) => {
            valid_body_keeps_indices(
                crate::valid::function_context(
                    crate::valid::module_context(m),
                    m.types()[m.funcs[m.funcs.len() - m.code.len() + f] as int],
                    m.code[f].locals,
                ),
                is,
            );
        },
        InstructionsView::Arbitrary(_) => {},
    }
}

/// Where a block type may not name a function type, every block, loop and
/// `if` of a generated body has the empty block type or one result type.
pub proof fn block_types_are_plain(m: ModuleView, f: int, j: int)
    requires
        crate::generate::well_generated(m),
        !m.knobs.allow_function_blocktype,
        0 <= f < m.code.len(),
        m.code[f].instructions matches InstructionsView::Generated(is) && 0 <= j < is.len(),
    ensures
        m.code[f].instructions matches InstructionsView::Generated(is) && (match is[j] {
            InstructionView::Block(bt) | InstructionView::Loop(bt) | InstructionView::If(bt) => bt
                is Empty || bt is Result,
            _ => true,
        }),
{
    match m.code[f].instructions {
        InstructionsView::Generated(is) => {
            assert(crate::selector::keeps_policy(
                crate::valid::function_context(
                    crate::valid::module_context(m),
                    m.types()[m.funcs[m.funcs.len() - m.code.len() + f] as int],
                    m.code[f].locals,
                ),
                m.knobs,
                is[j],
            ));
        },
        InstructionsView::Arbitrary(_) => {},
    }
}

/// Where only the offsets that are out of bounds have a weight, every load
/// and store of a generated body names a memory that is there, with an
/// offset at or above the largest size of that memory in bytes.
pub proof fn offsets_are_out_of_bounds(m: ModuleView, f: int, j: int)
    requires
        crate::generate::well_generated(m),
        m.knobs.memory_offset_choices.0 == 0,
        m.knobs.memory_offset_choices.1 == 0,
        0 <= f < m.code.len(),
        m.code[f].instructions matches InstructionsView::Generated(is) && 0 <= j < is.len(),
    ensures
        m.code[f].instructions matches InstructionsView::Generated(is) && (
        crate::selector::mem_arg_of(is[j]) matches Some(a) ==> a.memory_index < m.memories.len()
            && a.offset >= crate::selector::out_of_bounds(
            m.memories[a.memory_index as int].limits,
        )),
{
    valid_module_keeps_indices(m, f);
    match m.code[f].instructions {
        InstructionsView::Generated(is) => {
            let c = crate::valid::function_context(
                crate::valid::module_context(m),
                m.types()[m.funcs[m.funcs.len() - m.code.len() + f] as int],
                m.code[f].locals,
            );
            assert(crate::selector::keeps_policy(c, m.knobs, is[j]));
            assert(indices_in_range(c, is[j]));
            assert(c.memories == m.memories);
        },
        InstructionsView::Arbitrary(_) => {},
    }
}

/// Where only the offsets that are out of bounds have a weight and no
/// memory grows beyond one page, every load and store of a generated body
/// has an offset of 65536 or more.
pub proof fn offsets_beyond_one_page(m: ModuleView, f: int, j: int)
    requires
        crate::generate::well_generated(m),
        m.knobs.memory_offset_choices.0 == 0,
        m.knobs.memory_offset_choices.1 == 0,
        forall|k: int|
            0 <= k < m.memories.len() ==> (#[trigger] m.memories[k]).limits.max == Some(1u32),
        0 <= f < m.code.len(),
        m.code[f].instructions matches InstructionsView::Generated(is) && 0 <= j < is.len(),
    ensures
        m.code[f].instructions matches InstructionsView::Generated(is) && (
        crate::selector::mem_arg_of(is[j]) matches Some(a) ==> a.offset >= 65536),
{
    offsets_are_out_of_bounds(m, f, j);
}

/// Without entropy every draw gives the least value of its range.
pub proof fn exhausted_draws(lo: u64, hi: u64)
    ensures
        crate::entropy::draw_value(Seq::empty(), lo, hi) == lo,
        crate::entropy::draw_rest(Seq::empty(), lo, hi) == Seq::<u8>::empty(),
{
    let s = Seq::<u8>::empty();
    assert(s.take(0) =~= s);
    assert(s.skip(0) =~= s);
    if lo < hi {
        assert(crate::entropy::draw_len(s, lo, hi) == 0);
        assert(crate::entropy::be_value(s.take(0)) == 0);
        vstd::arithmetic::div_mod::lemma_small_mod(0, (hi - lo + 1) as nat);
    }
}

/// Without entropy the default configuration gives the module with
/// nothing in it, and its encoding is the header alone.
#[verifier::rlimit(50)]
pub proof fn no_entropy_no_sections()
    ensures
        crate::encode::module_bytes(
            crate::generate::generated(crate::config::default_knobs(), Seq::empty()),
        ) == crate::encode::header(),
{
    let kn = crate::config::default_knobs();
    let s = Seq::<u8>::empty();
    let m = crate::generate::generated(kn, s);
    exhausted_draws(0, 100);
    exhausted_draws(0, 1);
    assert(crate::builder::type_ceiling(kn) == 100);
    assert(crate::builder::types_from(kn, s) == (Seq::<crate::types::FuncTypeView>::empty(), s));
    assert(crate::builder::imports_from(kn, Seq::empty(), s) == (
        Seq::<crate::types::FuncTypeView>::empty(),
        Seq::<crate::module::ImportView>::empty(),
        s,
    ));
    assert(crate::builder::import_types(Seq::empty()) =~= Seq::<u32>::empty());
    assert(crate::builder::funcs_from(kn, 0, Seq::empty(), s) == (Seq::<u32>::empty(), s));
    assert(crate::stages::tables_from(kn, s) == (Seq::<crate::types::TableType>::empty(), s));
    assert(crate::stages::memories_from(kn, s) == (Seq::<crate::types::MemoryType>::empty(), s));
    assert(crate::stages::globals_from(kn, s) == (
        Seq::<crate::types::GlobalType>::empty(),
        Seq::<(u32, InstructionView)>::empty(),
        s,
    ));
    let candidates = crate::exports::export_candidates(kn, Seq::empty(), Seq::empty(), 0, 0, 0);
    assert(candidates =~= Seq::empty());
    assert(m.exports == Seq::<(Seq<char>, crate::types::Export)>::empty());
    assert(m.start is None);
    assert(m.elems == Seq::<crate::module::ElementSegmentView>::empty());
    assert(m.data == Seq::<crate::module::DataSegmentView>::empty());
    assert(m.code == Seq::<crate::module::CodeView>::empty());
    assert(m.initial_sections == Seq::<crate::module::InitialSectionView>::empty());
    let w = kn.min_uleb_size as nat;
    assert(crate::encode::sections_bytes(m, w) =~= Seq::empty());
    assert(crate::encode::module_bytes(m) =~= crate::encode::header());
}

/// A draw from one byte of entropy, in a range of up to 256 values, is the
/// byte reduced to the range, and it uses the byte up.
pub proof fn draw_of_one_byte(b: u8, lo: u64, hi: u64)
    requires
        lo < hi,
        hi - lo < 256,
    ensures
        crate::entropy::draw_value(seq![b], lo, hi) == lo + (b as nat) % ((hi - lo + 1) as nat),
        crate::entropy::draw_rest(seq![b], lo, hi) == Seq::<u8>::empty(),
{
    let s = seq![b];
    assert(crate::entropy::draw_len(s, lo, hi) == 1);
    assert(s.take(1) =~= s);
    assert(s.skip(1) =~= Seq::<u8>::empty());
    assert(s.drop_last() =~= Seq::<u8>::empty());
    assert(crate::entropy::be_value(s) == b as nat) by {
        reveal_with_fuel(crate::entropy::be_value, 2);
    }
    assert((b as nat) % ((hi - lo + 1) as nat) <= b as nat) by {
        vstd::arithmetic::div_mod::lemma_mod_decreases(b as nat, (hi - lo + 1) as nat);
    }
}

/// Under the default configuration the bytes one and zero give one type,
/// which neither takes nor returns anything, and use the entropy up.
#[verifier::rlimit(50)]
proof fn one_type_of_two_bytes()
    ensures
        crate::builder::types_from(crate::config::default_knobs(), seq![1u8, 0u8]) == (
            seq![crate::valid::unit_type()],
            Seq::<u8>::empty(),
        ),
{
    let kn = crate::config::default_knobs();
    let s = seq![1u8, 0u8];
    let none = Seq::<u8>::empty();
    let unit = crate::valid::unit_type();
    assert(crate::builder::type_ceiling(kn) == 100);
    assert(crate::entropy::draw_len(s, 0, 100) == 1);
    assert(s.take(1) =~= seq![1u8]);
    assert(s.skip(1) =~= seq![0u8]);
    assert(seq![1u8].drop_last() =~= none);
    assert(crate::entropy::be_value(seq![1u8]) == 1) by {
        reveal_with_fuel(crate::entropy::be_value, 2);
    }
    assert(1nat % 101nat == 1) by {
        vstd::arithmetic::div_mod::lemma_small_mod(1, 101);
    }
    assert(crate::entropy::draw_value(s, 0, 100) == 1);
    assert(crate::entropy::count_value(s, 0, 100) == 1);
    assert(crate::entropy::count_rest(s, 0, 100) == seq![0u8]);
    draw_of_one_byte(0, 0, 20);
    assert(crate::builder::val_types_from(false, 0, none) == (
        Seq::<crate::types::ValType>::empty(),
        none,
    ));
    assert(crate::builder::func_type_from(kn, seq![0u8]) == (unit, none));
    reveal_with_fuel(crate::builder::func_types_from, 2);
    assert(crate::builder::func_types_from(kn, 1, seq![0u8]).0 =~= seq![unit]);
}

/// Under the default configuration, one type and no entropy give one
/// defined function.
proof fn one_function_of_no_entropy()
    ensures
        crate::builder::funcs_from(
            crate::config::default_knobs(),
            1,
            Seq::empty(),
            Seq::empty(),
        ) == (seq![0u32], Seq::<u8>::empty()),
{
    let kn = crate::config::default_knobs();
    let none = Seq::<u8>::empty();
    exhausted_draws(1, 100);
    exhausted_draws(0, 0);
    assert(crate::builder::import_types(Seq::empty()) =~= Seq::<u32>::empty());
    assert(crate::builder::defined_floor(kn, 0) == 1);
    reveal_with_fuel(crate::selector::labels, 2);
    assert(crate::selector::labels(1, 1, none).0 =~= seq![0u32]);
    assert(Seq::<u32>::empty() + seq![0u32] =~= seq![0u32]);
}

/// Under the default configuration no entropy gives no table, no memory
/// and no global.
proof fn nothing_declared_of_no_entropy()
    ensures
        crate::stages::tables_from(crate::config::default_knobs(), Seq::empty()) == (
            Seq::<crate::types::TableType>::empty(),
            Seq::<u8>::empty(),
        ),
        crate::stages::memories_from(crate::config::default_knobs(), Seq::empty()) == (
            Seq::<crate::types::MemoryType>::empty(),
            Seq::<u8>::empty(),
        ),
        crate::stages::globals_from(crate::config::default_knobs(), Seq::empty()) == (
            Seq::<crate::types::GlobalType>::empty(),
            Seq::<(u32, InstructionView)>::empty(),
            Seq::<u8>::empty(),
        ),
{
    exhausted_draws(0, 100);
    exhausted_draws(0, 1);
}

/// Under the default configuration, one function of the type that neither
/// takes nor returns anything, and no entropy, give no export, no start
/// function and no segment.
proof fn nothing_refers_of_no_entropy()
    ensures
        ({
            let kn = crate::config::default_knobs();
            let types = seq![crate::valid::unit_type()];
            let funcs = seq![0u32];
            let none = Seq::<u8>::empty();
            &&& crate::exports::exports_from(
                kn,
                crate::exports::export_candidates(kn, types, funcs, 0, 0, 0),
                none,
            ) == (Seq::<(Seq<char>, crate::types::Export)>::empty(), none)
            &&& crate::exports::start_from(kn, types, funcs, 0, none) == (None::<u32>, none)
            &&& crate::segments::elems_from(kn, Seq::empty(), 1, none) == (
                Seq::<crate::module::ElementSegmentView>::empty(),
                none,
            )
            &&& crate::segments::data_segments_from(kn, 0, none) == (
                Seq::<crate::module::DataSegmentView>::empty(),
                none,
            )
        }),
{
    exhausted_draws(0, 100);
}

/// Under the default configuration no entropy gives a function that
/// neither takes nor returns anything a body without locals and without
/// instructions.
proof fn empty_body_of_no_entropy(module: ContextView)
    ensures
        crate::generate::code_from(
            crate::config::default_knobs(),
            module,
            crate::valid::unit_type(),
            Seq::empty(),
        ) == (
            crate::module::CodeView {
                locals: Seq::empty(),
                instructions: InstructionsView::Generated(Seq::empty()),
            },
            Seq::<u8>::empty(),
        ),
{
    let kn = crate::config::default_knobs();
    let none = Seq::<u8>::empty();
    exhausted_draws(0, 20);
    let inside = crate::valid::function_context(module, crate::valid::unit_type(), Seq::empty());
    let st = crate::typing::start(inside);
    assert(crate::selector::selected(inside, kn, st, none, 100, Seq::empty()) == (
        Seq::<InstructionView>::empty(),
        st,
        none,
    ));
    assert(st.frame_done());
    assert(crate::selector::closing(st, Seq::empty()) == Seq::<InstructionView>::empty());
}

/// The entropy of the two bytes one and zero gives, under the default
/// configuration, a module with one type, which neither takes nor returns
/// anything, with one function of that type, which is defined and has
/// neither locals nor instructions, and with nothing else.
#[verifier::rlimit(50)]
pub proof fn two_bytes_one_function()
    ensures
        ({
            let m = crate::generate::generated(
                crate::config::default_knobs(),
                seq![1u8, 0u8],
            );
            &&& m.types() == seq![crate::valid::unit_type()]
            &&& m.imports().len() == 0
            &&& m.funcs == seq![0u32]
            &&& m.num_defined_funcs == 1
            &&& m.code == seq![
                crate::module::CodeView {
                    locals: Seq::empty(),
                    instructions: InstructionsView::Generated(Seq::empty()),
                },
            ]
            &&& m.tables.len() == 0
            &&& m.memories.len() == 0
            &&& m.globals.len() == 0
            &&& m.exports.len() == 0
            &&& m.start is None
            &&& m.elems.len() == 0
            &&& m.data.len() == 0
        }),
{
    let kn = crate::config::default_knobs();
    let none = Seq::<u8>::empty();
    let types = seq![crate::valid::unit_type()];
    let funcs = seq![0u32];
    one_type_of_two_bytes();
    one_function_of_no_entropy();
    nothing_declared_of_no_entropy();
    nothing_refers_of_no_entropy();
    let c = crate::valid::context(
        kn,
        types,
        funcs,
        Seq::empty(),
        Seq::empty(),
        Seq::empty(),
        Seq::empty(),
        Seq::empty(),
        0,
    );
    empty_body_of_no_entropy(c);
    assert(crate::builder::imports_from(kn, types, none) == (
        types,
        Seq::<crate::module::ImportView>::empty(),
        none,
    ));
    reveal_with_fuel(crate::generate::codes_n, 2);
    assert(crate::generate::codes_n(kn, c, types, funcs, 0, 1, none).0 =~= seq![
        crate::module::CodeView {
            locals: Seq::empty(),
            instructions: InstructionsView::Generated(Seq::empty()),
        },
    ]);
    crate::valid::initial_sections_hold(types, Seq::empty());
}

} // verus!

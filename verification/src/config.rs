//! Configuring the shape of generated modules.

use crate::types::{copy_val_types, FuncTypeView, ValType};
use vstd::prelude::*;

verus! {

/// A function of the host that a module may import.
#[derive(Clone, Debug, Eq, PartialEq, Hash)]
pub struct HostFunction {
    pub mod_name: &'static str,
    pub name: &'static str,
    /// The position of this function in the list of host functions.
    pub hf_index: usize,
    pub params: Vec<ValType>,
    pub result: Option<ValType>,
}

/// The view of a [`HostFunction`].
pub struct HostFunctionView {
    pub mod_name: Seq<char>,
    pub name: Seq<char>,
    pub hf_index: usize,
    pub params: Seq<ValType>,
    pub result: Option<ValType>,
}

impl HostFunctionView {
    /// The signature of the host function.
    pub open spec fn signature(self) -> FuncTypeView {
        FuncTypeView { params: self.params, result: self.result }
    }
}

impl View for HostFunction {
    type V = HostFunctionView;

    open spec fn view(&self) -> HostFunctionView {
        HostFunctionView {
            mod_name: self.mod_name@,
            name: self.name@,
            hf_index: self.hf_index,
            params: self.params@,
            result: self.result,
        }
    }
}

/// The signature that a pair of parameters and result stands for.
pub open spec fn signature_view(s: (Vec<ValType>, Option<ValType>)) -> FuncTypeView {
    FuncTypeView { params: s.0@, result: s.1 }
}

/// The signatures that a list of pairs stands for.
pub open spec fn signatures_view(l: Seq<(Vec<ValType>, Option<ValType>)>) -> Seq<FuncTypeView> {
    Seq::new(l.len(), |i: int| signature_view(l[i]))
}

/// Configuration for a generated module.
///
/// Every method has a default, so an implementation overrides only the
/// knobs that it wants to move. A method may compute its value; the
/// generator asks each one once, when generation starts (see
/// [`Knobs::of`]).
pub trait Config: Default + Clone {
    /// The minimum number of types to generate, not counting the types that
    /// imports add.
    fn min_types(&self) -> (r: usize)
        default_ensures
            r == 0,
    {
        0
    }

    /// The maximum number of types to generate.
    fn max_types(&self) -> (r: usize)
        default_ensures
            r == 100,
    {
        100
    }

    /// The signatures that an exported function may have; `None` allows every
    /// signature.
    fn allowed_export_types(&self) -> (r: Option<Vec<(Vec<ValType>, Option<ValType>)>>)
        default_ensures
            r is None,
    {
        None
    }

    /// The minimum number of imports to generate. The ceilings win over it:
    /// imports count as functions, and there are no more of them than
    /// `max_funcs` allows.
    fn min_imports(&self) -> (r: usize)
        default_ensures
            r == 0,
    {
        0
    }

    /// The maximum number of imports to generate.
    fn max_imports(&self) -> (r: usize)
        default_ensures
            r == 20,
    {
        20
    }

    /// The minimum number of functions, imported ones included.
    fn min_funcs(&self) -> (r: usize)
        default_ensures
            r == 0,
    {
        0
    }

    /// The maximum number of functions, imported ones included.
    fn max_funcs(&self) -> (r: usize)
        default_ensures
            r == 100,
    {
        100
    }

    /// The minimum number of globals.
    fn min_globals(&self) -> (r: usize)
        default_ensures
            r == 0,
    {
        0
    }

    /// The maximum number of globals.
    fn max_globals(&self) -> (r: usize)
        default_ensures
            r == 100,
    {
        100
    }

    /// The minimum number of exports.
    fn min_exports(&self) -> (r: usize)
        default_ensures
            r == 0,
    {
        0
    }

    /// The maximum number of exports.
    fn max_exports(&self) -> (r: usize)
        default_ensures
            r == 100,
    {
        100
    }

    /// The minimum number of element segments.
    fn min_element_segments(&self) -> (r: usize)
        default_ensures
            r == 0,
    {
        0
    }

    /// The maximum number of element segments.
    fn max_element_segments(&self) -> (r: usize)
        default_ensures
            r == 100,
    {
        100
    }

    /// The minimum number of items in an element segment.
    fn min_elements(&self) -> (r: usize)
        default_ensures
            r == 0,
    {
        0
    }

    /// The maximum number of items in an element segment.
    fn max_elements(&self) -> (r: usize)
        default_ensures
            r == 100,
    {
        100
    }

    /// The minimum number of bytes in a data segment.
    fn min_data_elements(&self) -> (r: usize)
        default_ensures
            r == 0,
    {
        0
    }

    /// The maximum number of bytes in a data segment.
    fn max_data_elements(&self) -> (r: usize)
        default_ensures
            r == 100,
    {
        100
    }

    /// The minimum number of data segments.
    fn min_data_segments(&self) -> (r: usize)
        default_ensures
            r == 0,
    {
        0
    }

    /// The maximum number of data segments.
    fn max_data_segments(&self) -> (r: usize)
        default_ensures
            r == 100,
    {
        100
    }

    /// The maximum number of instructions to choose for a function body. The
    /// instructions that close the open blocks afterwards are not counted.
    fn max_instructions(&self) -> (r: usize)
        default_ensures
            r == 100,
    {
        100
    }

    /// The minimum number of memories.
    fn min_memories(&self) -> (r: u32)
        default_ensures
            r == 0,
    {
        0
    }

    /// The maximum number of memories. More than one is the multi-memory
    /// proposal.
    fn max_memories(&self) -> (r: usize)
        default_ensures
            r == 1,
    {
        1
    }

    /// The minimum number of tables.
    fn min_tables(&self) -> (r: u32)
        default_ensures
            r == 0,
    {
        0
    }

    /// The largest initial size of a table.
    fn max_init_table_size(&self) -> (r: u32)
        default_ensures
            r == 1_000_000,
    {
        1_000_000
    }

    /// The maximum number of tables. More than one is the reference types
    /// proposal.
    fn max_tables(&self) -> (r: usize)
        default_ensures
            r == 1,
    {
        1
    }

    /// The largest initial or maximum size of a memory, in pages of 64 KiB; at
    /// most 65536.
    fn max_memory_pages(&self) -> (r: u32)
        default_ensures
            r == 65536,
    {
        65536
    }

    /// Whether every memory states a maximum size.
    fn memory_max_size_required(&self) -> (r: bool)
        default_ensures
            r == false,
    {
        false
    }

    /// The weights `(a, b, c)` with which the offset of a memory access is
    /// drawn below the memory's initial size in bytes, between its initial and
    /// its maximum size, or at and above its maximum size. At least one of them
    /// is not zero.
    fn memory_offset_choices(&self) -> (r: (u32, u32, u32))
        default_ensures
            r == (75u32, 24u32, 1u32),
    {
        (75, 24, 1)
    }

    /// The minimum number of bytes of every unsigned LEB128 integer in the
    /// encoded module; between 1 and 5.
    fn min_uleb_size(&self) -> (r: u8)
        default_ensures
            r == 1,
    {
        1
    }

    /// Whether the module may name a start function.
    fn allow_start_export(&self) -> (r: bool)
        default_ensures
            r == true,
    {
        true
    }

    /// The host functions that the module may import.
    fn host_functions(&self) -> (r: Vec<HostFunction>)
        default_ensures
            r@.len() == 0,
    {
        Vec::new()
    }

    /// Whether a function body may be arbitrary bytes in place of generated
    /// instructions. Such a module may be invalid.
    fn allow_arbitrary_instr(&self) -> (r: bool)
        default_ensures
            r == false,
    {
        false
    }

    /// Whether the offset of an active segment may read a global. Reserved:
    /// an offset could only read an imported global, and a module imports
    /// functions only, so every offset is a constant and the knob has no
    /// effect.
    fn allow_globalget_in_elem_and_data_offsets(&self) -> (r: bool)
        default_ensures
            r == true,
    {
        true
    }

    /// Whether a block, loop or if may take its type from the type section.
    fn allow_function_blocktype(&self) -> (r: bool)
        default_ensures
            r == false,
    {
        false
    }

    /// The maximum number of parameters of a generated signature.
    fn max_parameters(&self) -> (r: usize)
        default_ensures
            r == 20,
    {
        20
    }

    /// Whether the bulk memory proposal is enabled: passive segments, the data
    /// count section and the bulk instructions.
    fn bulk_memory_enabled(&self) -> (r: bool)
        default_ensures
            r == false,
    {
        false
    }

    /// Whether the reference types proposal is enabled: reference-typed values,
    /// and the instructions on references and tables.
    fn reference_types_enabled(&self) -> (r: bool)
        default_ensures
            r == false,
    {
        false
    }

    /// Reserved; it has no effect.
    fn module_linking_enabled(&self) -> (r: bool)
        default_ensures
            r == false,
    {
        false
    }
}

/// The configuration in which every knob has its default.
#[derive(Debug, Default, Copy, Clone)]
pub struct DefaultConfig;

impl Config for DefaultConfig {

}

/// The module that every host function of the interpreter profile is
/// imported from.
pub const INTERPRETER_MODULE: &'static str = "concordium";

/// A tight profile for the modules of one smart-contract runtime: twenty
/// host functions, small memories, no start function, and exported
/// functions of one signature only.
#[derive(Default, Debug, Clone)]
pub struct InterpreterConfig;

/// One host function of the interpreter profile.
fn interpreter_host(
    name: &'static str,
    hf_index: usize,
    params: Vec<ValType>,
    result: Option<ValType>,
) -> (h: HostFunction)
    ensures
        h@ == interpreter_host_view(name@, hf_index, params@, result),
{
    HostFunction { mod_name: INTERPRETER_MODULE, name, hf_index, params, result }
}

/// The view of one host function of the interpreter profile.
pub open spec fn interpreter_host_view(
    name: Seq<char>,
    hf_index: usize,
    params: Seq<ValType>,
    result: Option<ValType>,
) -> HostFunctionView {
    HostFunctionView { mod_name: INTERPRETER_MODULE@, name, hf_index, params, result }
}

/// The host functions of the interpreter profile, in order.
pub open spec fn interpreter_hosts() -> Seq<HostFunctionView> {
    let i32t = ValType::I32;
    let i64t = ValType::I64;
    seq![
        interpreter_host_view("accept"@, 0, seq![], Some(i32t)),
        interpreter_host_view("simple_transfer"@, 1, seq![i32t, i64t], Some(i32t)),
        interpreter_host_view(
            "send"@,
            2,
            seq![i64t, i64t, i32t, i32t, i64t, i32t, i32t],
            Some(i32t),
        ),
        interpreter_host_view("combine_and"@, 3, seq![i32t, i32t], Some(i32t)),
        interpreter_host_view("combine_or"@, 4, seq![i32t, i32t], Some(i32t)),
        interpreter_host_view("get_parameter_size"@, 5, seq![], Some(i32t)),
        interpreter_host_view("get_parameter_section"@, 6, seq![i32t, i32t, i32t], Some(i32t)),
        interpreter_host_view("get_policy_section"@, 7, seq![i32t, i32t, i32t], Some(i32t)),
        interpreter_host_view("log_event"@, 8, seq![i32t, i32t], None),
        interpreter_host_view("load_state"@, 9, seq![i32t, i32t, i32t], Some(i32t)),
        interpreter_host_view("write_state"@, 10, seq![i32t, i32t, i32t], Some(i32t)),
        interpreter_host_view("resize_state"@, 11, seq![i32t], Some(i32t)),
        interpreter_host_view("state_size"@, 12, seq![], Some(i32t)),
        interpreter_host_view("get_init_origin"@, 13, seq![i32t], None),
        interpreter_host_view("get_receive_invoker"@, 14, seq![i32t], None),
        interpreter_host_view("get_receive_self_address"@, 15, seq![i32t], None),
        interpreter_host_view("get_receive_self_balance"@, 16, seq![], Some(i64t)),
        interpreter_host_view("get_receive_sender"@, 17, seq![i32t], None),
        interpreter_host_view("get_receive_owner"@, 18, seq![i32t], None),
        interpreter_host_view("get_slot_time"@, 19, seq![], Some(i64t)),
    ]
}

impl Config for InterpreterConfig {
    fn host_functions(&self) -> (r: Vec<HostFunction>)
        ensures
            seq_view_hosts(r@) == interpreter_hosts(),
            r@.len() == 20,
    {
        let i32t = ValType::I32;
        let i64t = ValType::I64;
        let one: Vec<ValType> = vec![i32t];
        let two: Vec<ValType> = vec![i32t, i32t];
        let three: Vec<ValType> = vec![i32t, i32t, i32t];
        let transfer: Vec<ValType> = vec![i32t, i64t];
        let send: Vec<ValType> = vec![i64t, i64t, i32t, i32t, i64t, i32t, i32t];
        assert(one@ =~= seq![i32t]);
        assert(two@ =~= seq![i32t, i32t]);
        assert(three@ =~= seq![i32t, i32t, i32t]);
        assert(transfer@ =~= seq![i32t, i64t]);
        assert(send@ =~= seq![i64t, i64t, i32t, i32t, i64t, i32t, i32t]);
        let mut hosts: Vec<HostFunction> = Vec::new();
        hosts.push(interpreter_host("accept", 0, Vec::new(), Some(i32t)));
        hosts.push(interpreter_host("simple_transfer", 1, copy_val_types(&transfer), Some(i32t)));
        hosts.push(interpreter_host("send", 2, copy_val_types(&send), Some(i32t)));
        hosts.push(interpreter_host("combine_and", 3, copy_val_types(&two), Some(i32t)));
        hosts.push(interpreter_host("combine_or", 4, copy_val_types(&two), Some(i32t)));
        hosts.push(interpreter_host("get_parameter_size", 5, Vec::new(), Some(i32t)));
        hosts.push(
            interpreter_host("get_parameter_section", 6, copy_val_types(&three), Some(i32t)),
        );
        hosts.push(interpreter_host("get_policy_section", 7, copy_val_types(&three), Some(i32t)));
        hosts.push(interpreter_host("log_event", 8, copy_val_types(&two), None));
        hosts.push(interpreter_host("load_state", 9, copy_val_types(&three), Some(i32t)));
        hosts.push(interpreter_host("write_state", 10, copy_val_types(&three), Some(i32t)));
        hosts.push(interpreter_host("resize_state", 11, copy_val_types(&one), Some(i32t)));
        hosts.push(interpreter_host("state_size", 12, Vec::new(), Some(i32t)));
        hosts.push(interpreter_host("get_init_origin", 13, copy_val_types(&one), None));
        hosts.push(interpreter_host("get_receive_invoker", 14, copy_val_types(&one), None));
        hosts.push(interpreter_host("get_receive_self_address", 15, copy_val_types(&one), None));
        hosts.push(interpreter_host("get_receive_self_balance", 16, Vec::new(), Some(i64t)));
        hosts.push(interpreter_host("get_receive_sender", 17, copy_val_types(&one), None));
        hosts.push(interpreter_host("get_receive_owner", 18, copy_val_types(&one), None));
        hosts.push(interpreter_host("get_slot_time", 19, Vec::new(), Some(i64t)));
        assert(seq_view_hosts(hosts@) =~= interpreter_hosts());
        hosts
    }

    fn allowed_export_types(&self) -> (r: Option<Vec<(Vec<ValType>, Option<ValType>)>>)
        ensures
            r matches Some(l) && signatures_view(l@) == seq![
                FuncTypeView { params: seq![ValType::I64], result: Some(ValType::I32) },
            ],
    {
        let params: Vec<ValType> = vec![ValType::I64];
        assert(params@ =~= seq![ValType::I64]);
        let l: Vec<(Vec<ValType>, Option<ValType>)> = vec![(params, Some(ValType::I32))];
        assert(signatures_view(l@) =~= seq![
            FuncTypeView { params: seq![ValType::I64], result: Some(ValType::I32) },
        ]);
        Some(l)
    }

    fn min_types(&self) -> (r: usize)
        ensures
            r == 2,
    {
        2
    }

    fn min_imports(&self) -> (r: usize)
        ensures
            r == 10,
    {
        10
    }

    fn max_imports(&self) -> (r: usize)
        ensures
            r == 20,
    {
        self.host_functions().len()
    }

    fn min_funcs(&self) -> (r: usize)
        ensures
            r == 2,
    {
        2
    }

    fn max_funcs(&self) -> (r: usize)
        ensures
            r == 50,
    {
        50
    }

    fn max_globals(&self) -> (r: usize)
        ensures
            r == 100,
    {
        100
    }

    fn min_exports(&self) -> (r: usize)
        ensures
            r == 1,
    {
        1
    }

    fn max_exports(&self) -> (r: usize)
        ensures
            r == 10,
    {
        10
    }

    fn max_init_table_size(&self) -> (r: u32)
        ensures
            r == 1_000,
    {
        1_000
    }

    fn max_memory_pages(&self) -> (r: u32)
        ensures
            r == 32,
    {
        32
    }

    fn allow_start_export(&self) -> (r: bool)
        ensures
            r == false,
    {
        false
    }

    fn allow_arbitrary_instr(&self) -> (r: bool)
        ensures
            r == false,
    {
        false
    }

    fn allow_globalget_in_elem_and_data_offsets(&self) -> (r: bool)
        ensures
            r == false,
    {
        false
    }
}

/// The views of a list of host functions.
pub open spec fn seq_view_hosts(s: Seq<HostFunction>) -> Seq<HostFunctionView> {
    Seq::new(s.len(), |i: int| s[i]@)
}

/// The values of all the knobs of a configuration, as the generator read
/// them when it started.
#[derive(Debug)]
pub struct Knobs {
    pub min_types: usize,
    pub max_types: usize,
    pub allowed_export_types: Option<Vec<(Vec<ValType>, Option<ValType>)>>,
    pub min_imports: usize,
    pub max_imports: usize,
    pub min_funcs: usize,
    pub max_funcs: usize,
    pub min_globals: usize,
    pub max_globals: usize,
    pub min_exports: usize,
    pub max_exports: usize,
    pub min_element_segments: usize,
    pub max_element_segments: usize,
    pub min_elements: usize,
    pub max_elements: usize,
    pub min_data_elements: usize,
    pub max_data_elements: usize,
    pub min_data_segments: usize,
    pub max_data_segments: usize,
    pub max_instructions: usize,
    pub min_memories: u32,
    pub max_memories: usize,
    pub min_tables: u32,
    pub max_init_table_size: u32,
    pub max_tables: usize,
    pub max_memory_pages: u32,
    pub memory_max_size_required: bool,
    pub memory_offset_choices: (u32, u32, u32),
    pub min_uleb_size: u8,
    pub allow_start_export: bool,
    pub host_functions: Vec<HostFunction>,
    pub allow_arbitrary_instr: bool,
    pub allow_globalget_in_elem_and_data_offsets: bool,
    pub allow_function_blocktype: bool,
    pub max_parameters: usize,
    pub bulk_memory_enabled: bool,
    pub reference_types_enabled: bool,
    pub module_linking_enabled: bool,
}

/// The view of [`Knobs`].
pub struct KnobsView {
    pub min_types: usize,
    pub max_types: usize,
    pub allowed_export_types: Option<Seq<FuncTypeView>>,
    pub min_imports: usize,
    pub max_imports: usize,
    pub min_funcs: usize,
    pub max_funcs: usize,
    pub min_globals: usize,
    pub max_globals: usize,
    pub min_exports: usize,
    pub max_exports: usize,
    pub min_element_segments: usize,
    pub max_element_segments: usize,
    pub min_elements: usize,
    pub max_elements: usize,
    pub min_data_elements: usize,
    pub max_data_elements: usize,
    pub min_data_segments: usize,
    pub max_data_segments: usize,
    pub max_instructions: usize,
    pub min_memories: u32,
    pub max_memories: usize,
    pub min_tables: u32,
    pub max_init_table_size: u32,
    pub max_tables: usize,
    pub max_memory_pages: u32,
    pub memory_max_size_required: bool,
    pub memory_offset_choices: (u32, u32, u32),
    pub min_uleb_size: u8,
    pub allow_start_export: bool,
    pub host_functions: Seq<HostFunctionView>,
    pub allow_arbitrary_instr: bool,
    pub allow_globalget_in_elem_and_data_offsets: bool,
    pub allow_function_blocktype: bool,
    pub max_parameters: usize,
    pub bulk_memory_enabled: bool,
    pub reference_types_enabled: bool,
    pub module_linking_enabled: bool,
}

impl View for Knobs {
    type V = KnobsView;

    open spec fn view(&self) -> KnobsView {
        KnobsView {
            min_types: self.min_types,
            max_types: self.max_types,
            allowed_export_types: match self.allowed_export_types {
                Some(l) => Some(signatures_view(l@)),
                None => None,
            },
            min_imports: self.min_imports,
            max_imports: self.max_imports,
            min_funcs: self.min_funcs,
            max_funcs: self.max_funcs,
            min_globals: self.min_globals,
            max_globals: self.max_globals,
            min_exports: self.min_exports,
            max_exports: self.max_exports,
            min_element_segments: self.min_element_segments,
            max_element_segments: self.max_element_segments,
            min_elements: self.min_elements,
            max_elements: self.max_elements,
            min_data_elements: self.min_data_elements,
            max_data_elements: self.max_data_elements,
            min_data_segments: self.min_data_segments,
            max_data_segments: self.max_data_segments,
            max_instructions: self.max_instructions,
            min_memories: self.min_memories,
            max_memories: self.max_memories,
            min_tables: self.min_tables,
            max_init_table_size: self.max_init_table_size,
            max_tables: self.max_tables,
            max_memory_pages: self.max_memory_pages,
            memory_max_size_required: self.memory_max_size_required,
            memory_offset_choices: self.memory_offset_choices,
            min_uleb_size: self.min_uleb_size,
            allow_start_export: self.allow_start_export,
            host_functions: seq_view_hosts(self.host_functions@),
            allow_arbitrary_instr: self.allow_arbitrary_instr,
            allow_globalget_in_elem_and_data_offsets: self.allow_globalget_in_elem_and_data_offsets,
            allow_function_blocktype: self.allow_function_blocktype,
            max_parameters: self.max_parameters,
            bulk_memory_enabled: self.bulk_memory_enabled,
            reference_types_enabled: self.reference_types_enabled,
            module_linking_enabled: self.module_linking_enabled,
        }
    }
}

/// Each knob of `k` is a value that the matching method of `cfg` returns.
pub open spec fn reads<C: Config>(cfg: &C, k: Knobs) -> bool {
    &&& call_ensures(C::min_types, (cfg,), k.min_types)
    &&& call_ensures(C::max_types, (cfg,), k.max_types)
    &&& call_ensures(C::allowed_export_types, (cfg,), k.allowed_export_types)
    &&& call_ensures(C::min_imports, (cfg,), k.min_imports)
    &&& call_ensures(C::max_imports, (cfg,), k.max_imports)
    &&& call_ensures(C::min_funcs, (cfg,), k.min_funcs)
    &&& call_ensures(C::max_funcs, (cfg,), k.max_funcs)
    &&& call_ensures(C::min_globals, (cfg,), k.min_globals)
    &&& call_ensures(C::max_globals, (cfg,), k.max_globals)
    &&& call_ensures(C::min_exports, (cfg,), k.min_exports)
    &&& call_ensures(C::max_exports, (cfg,), k.max_exports)
    &&& call_ensures(C::min_element_segments, (cfg,), k.min_element_segments)
    &&& call_ensures(C::max_element_segments, (cfg,), k.max_element_segments)
    &&& call_ensures(C::min_elements, (cfg,), k.min_elements)
    &&& call_ensures(C::max_elements, (cfg,), k.max_elements)
    &&& call_ensures(C::min_data_elements, (cfg,), k.min_data_elements)
    &&& call_ensures(C::max_data_elements, (cfg,), k.max_data_elements)
    &&& call_ensures(C::min_data_segments, (cfg,), k.min_data_segments)
    &&& call_ensures(C::max_data_segments, (cfg,), k.max_data_segments)
    &&& call_ensures(C::max_instructions, (cfg,), k.max_instructions)
    &&& call_ensures(C::min_memories, (cfg,), k.min_memories)
    &&& call_ensures(C::max_memories, (cfg,), k.max_memories)
    &&& call_ensures(C::min_tables, (cfg,), k.min_tables)
    &&& call_ensures(C::max_init_table_size, (cfg,), k.max_init_table_size)
    &&& call_ensures(C::max_tables, (cfg,), k.max_tables)
    &&& call_ensures(C::max_memory_pages, (cfg,), k.max_memory_pages)
    &&& call_ensures(C::memory_max_size_required, (cfg,), k.memory_max_size_required)
    &&& call_ensures(C::memory_offset_choices, (cfg,), k.memory_offset_choices)
    &&& call_ensures(C::min_uleb_size, (cfg,), k.min_uleb_size)
    &&& call_ensures(C::allow_start_export, (cfg,), k.allow_start_export)
    &&& call_ensures(C::host_functions, (cfg,), k.host_functions)
    &&& call_ensures(C::allow_arbitrary_instr, (cfg,), k.allow_arbitrary_instr)
    &&& call_ensures(
        C::allow_globalget_in_elem_and_data_offsets,
        (cfg,),
        k.allow_globalget_in_elem_and_data_offsets,
    )
    &&& call_ensures(C::allow_function_blocktype, (cfg,), k.allow_function_blocktype)
    &&& call_ensures(C::max_parameters, (cfg,), k.max_parameters)
    &&& call_ensures(C::bulk_memory_enabled, (cfg,), k.bulk_memory_enabled)
    &&& call_ensures(C::reference_types_enabled, (cfg,), k.reference_types_enabled)
    &&& call_ensures(C::module_linking_enabled, (cfg,), k.module_linking_enabled)
}

/// The largest ceiling that a configuration may put on a count: the binary
/// format writes every count, and every index, in 32 bits.
pub const MAX_COUNT: usize = 0xFFFF_FFFF;

/// The largest number of pages of a memory.
pub const MAX_PAGES: u32 = 65536;

/// Why a configuration was rejected.
#[derive(Clone, Copy, Debug, PartialEq, Eq, Hash, Structural)]
pub enum ConfigError {
    /// All three weights of `memory_offset_choices` are zero.
    MemoryOffsetChoices,
    /// `min_uleb_size` is not between 1 and 5.
    MinUlebSize,
    /// `max_memory_pages` is above 65536.
    MaxMemoryPages,
    /// A ceiling on a count is above [`MAX_COUNT`].
    CountCeiling,
    /// A host function takes or returns a reference although the reference
    /// types proposal is not enabled.
    HostFunctionType,
}

impl KnobsView {
    /// Whether every ceiling on a count is within the supported range.
    pub open spec fn ceilings_in_range(self) -> bool {
        &&& self.max_types <= MAX_COUNT
        &&& self.max_imports <= MAX_COUNT
        &&& self.max_funcs <= MAX_COUNT
        &&& self.max_globals <= MAX_COUNT
        &&& self.max_exports <= MAX_COUNT
        &&& self.max_element_segments <= MAX_COUNT
        &&& self.max_elements <= MAX_COUNT
        &&& self.max_data_elements <= MAX_COUNT
        &&& self.max_data_segments <= MAX_COUNT
        &&& self.max_instructions <= MAX_COUNT
        &&& self.max_memories <= MAX_COUNT
        &&& self.max_tables <= MAX_COUNT
        &&& self.max_parameters <= MAX_COUNT
    }

    /// The reason for which these knobs are rejected, if they are: the
    /// first that applies, in the order of [`ConfigError`].
    pub open spec fn error(self) -> Option<ConfigError> {
        let (a, b, c) = self.memory_offset_choices;
        if a == 0 && b == 0 && c == 0 {
            Some(ConfigError::MemoryOffsetChoices)
        } else if self.min_uleb_size < 1 || self.min_uleb_size > 5 {
            Some(ConfigError::MinUlebSize)
        } else if self.max_memory_pages > MAX_PAGES {
            Some(ConfigError::MaxMemoryPages)
        } else if !self.ceilings_in_range() {
            Some(ConfigError::CountCeiling)
        } else if !self.hosts_in_order() {
            Some(ConfigError::HostFunctionType)
        } else {
            None
        }
    }

    /// Whether the signature of every host function has only value types
    /// that may occur.
    pub open spec fn hosts_in_order(self) -> bool {
        forall|i: int|
            0 <= i < self.host_functions.len() ==> crate::valid::func_type_ok(
                (#[trigger] self.host_functions[i]).signature(),
                self.reference_types_enabled,
            )
    }

    /// Whether these knobs are accepted.
    pub open spec fn valid(self) -> bool {
        self.error() is None
    }
}

/// The knobs of [`DefaultConfig`].
pub open spec fn default_knobs() -> KnobsView {
    KnobsView {
        min_types: 0,
        max_types: 100,
        allowed_export_types: None,
        min_imports: 0,
        max_imports: 20,
        min_funcs: 0,
        max_funcs: 100,
        min_globals: 0,
        max_globals: 100,
        min_exports: 0,
        max_exports: 100,
        min_element_segments: 0,
        max_element_segments: 100,
        min_elements: 0,
        max_elements: 100,
        min_data_elements: 0,
        max_data_elements: 100,
        min_data_segments: 0,
        max_data_segments: 100,
        max_instructions: 100,
        min_memories: 0,
        max_memories: 1,
        min_tables: 0,
        max_init_table_size: 1_000_000,
        max_tables: 1,
        max_memory_pages: 65536,
        memory_max_size_required: false,
        memory_offset_choices: (75u32, 24u32, 1u32),
        min_uleb_size: 1,
        allow_start_export: true,
        host_functions: Seq::empty(),
        allow_arbitrary_instr: false,
        allow_globalget_in_elem_and_data_offsets: true,
        allow_function_blocktype: false,
        max_parameters: 20,
        bulk_memory_enabled: false,
        reference_types_enabled: false,
        module_linking_enabled: false,
    }
}

/// The knobs of [`InterpreterConfig`].
pub open spec fn interpreter_knobs() -> KnobsView {
    KnobsView {
        min_types: 2,
        max_types: 100,
        allowed_export_types: Some(
            seq![FuncTypeView { params: seq![ValType::I64], result: Some(ValType::I32) }],
        ),
        min_imports: 10,
        max_imports: 20,
        min_funcs: 2,
        max_funcs: 50,
        min_globals: 0,
        max_globals: 100,
        min_exports: 1,
        max_exports: 10,
        min_element_segments: 0,
        max_element_segments: 100,
        min_elements: 0,
        max_elements: 100,
        min_data_elements: 0,
        max_data_elements: 100,
        min_data_segments: 0,
        max_data_segments: 100,
        max_instructions: 100,
        min_memories: 0,
        max_memories: 1,
        min_tables: 0,
        max_init_table_size: 1_000,
        max_tables: 1,
        max_memory_pages: 32,
        memory_max_size_required: false,
        memory_offset_choices: (75u32, 24u32, 1u32),
        min_uleb_size: 1,
        allow_start_export: false,
        host_functions: interpreter_hosts(),
        allow_arbitrary_instr: false,
        allow_globalget_in_elem_and_data_offsets: false,
        allow_function_blocktype: false,
        max_parameters: 20,
        bulk_memory_enabled: false,
        reference_types_enabled: false,
        module_linking_enabled: false,
    }
}

impl Knobs {
    /// Asks every knob of `cfg`, once each.
    pub fn of<C: Config>(cfg: &C) -> (k: Knobs)
        ensures
            reads(cfg, k),
    {
        Knobs {
            min_types: cfg.min_types(),
            max_types: cfg.max_types(),
            allowed_export_types: cfg.allowed_export_types(),
            min_imports: cfg.min_imports(),
            max_imports: cfg.max_imports(),
            min_funcs: cfg.min_funcs(),
            max_funcs: cfg.max_funcs(),
            min_globals: cfg.min_globals(),
            max_globals: cfg.max_globals(),
            min_exports: cfg.min_exports(),
            max_exports: cfg.max_exports(),
            min_element_segments: cfg.min_element_segments(),
            max_element_segments: cfg.max_element_segments(),
            min_elements: cfg.min_elements(),
            max_elements: cfg.max_elements(),
            min_data_elements: cfg.min_data_elements(),
            max_data_elements: cfg.max_data_elements(),
            min_data_segments: cfg.min_data_segments(),
            max_data_segments: cfg.max_data_segments(),
            max_instructions: cfg.max_instructions(),
            min_memories: cfg.min_memories(),
            max_memories: cfg.max_memories(),
            min_tables: cfg.min_tables(),
            max_init_table_size: cfg.max_init_table_size(),
            max_tables: cfg.max_tables(),
            max_memory_pages: cfg.max_memory_pages(),
            memory_max_size_required: cfg.memory_max_size_required(),
            memory_offset_choices: cfg.memory_offset_choices(),
            min_uleb_size: cfg.min_uleb_size(),
            allow_start_export: cfg.allow_start_export(),
            host_functions: cfg.host_functions(),
            allow_arbitrary_instr: cfg.allow_arbitrary_instr(),
            allow_globalget_in_elem_and_data_offsets: cfg
                .allow_globalget_in_elem_and_data_offsets(),
            allow_function_blocktype: cfg.allow_function_blocktype(),
            max_parameters: cfg.max_parameters(),
            bulk_memory_enabled: cfg.bulk_memory_enabled(),
            reference_types_enabled: cfg.reference_types_enabled(),
            module_linking_enabled: cfg.module_linking_enabled(),
        }
    }

    /// Accepts these knobs, or says why they are rejected.
    pub fn validate(&self) -> (r: Result<(), ConfigError>)
        ensures
            r == match self@.error() {
                Some(e) => Err::<(), ConfigError>(e),
                None => Ok::<(), ConfigError>(()),
            },
    {
        let (a, b, c) = self.memory_offset_choices;
        if a == 0 && b == 0 && c == 0 {
            return Err(ConfigError::MemoryOffsetChoices);
        }
        if self.min_uleb_size < 1 || self.min_uleb_size > 5 {
            return Err(ConfigError::MinUlebSize);
        }
        if self.max_memory_pages > MAX_PAGES {
            return Err(ConfigError::MaxMemoryPages);
        }
        let in_range: bool = self.max_types <= MAX_COUNT && self.max_imports <= MAX_COUNT
            && self.max_funcs <= MAX_COUNT && self.max_globals <= MAX_COUNT && self.max_exports
            <= MAX_COUNT && self.max_element_segments <= MAX_COUNT && self.max_elements
            <= MAX_COUNT && self.max_data_elements <= MAX_COUNT && self.max_data_segments
            <= MAX_COUNT && self.max_instructions <= MAX_COUNT && self.max_memories <= MAX_COUNT
            && self.max_tables <= MAX_COUNT && self.max_parameters <= MAX_COUNT;
        if !in_range {
            return Err(ConfigError::CountCeiling);
        }
        if !self.reference_types_enabled {
            let mut i: usize = 0;
            while i < self.host_functions.len()
                invariant
                    i <= self.host_functions.len(),
                    !self.reference_types_enabled,
                    self@.error() == if self@.hosts_in_order() {
                        None
                    } else {
                        Some(ConfigError::HostFunctionType)
                    },
                    forall|j: int|
                        0 <= j < i ==> crate::valid::func_type_ok(
                            (#[trigger] self@.host_functions[j]).signature(),
                            false,
                        ),
                decreases self.host_functions.len() - i,
            {
                let h = &self.host_functions[i];
                let result_ok: bool = match h.result {
                    Some(t) => t.is_numeric(),
                    None => true,
                };
                if !(result_ok && all_numeric(&h.params)) {
                    assert(!crate::valid::func_type_ok(
                        self@.host_functions[i as int].signature(),
                        false,
                    ));
                    return Err(ConfigError::HostFunctionType);
                }
                i += 1;
            }
        }
        Ok(())
    }
}

/// Whether every value type of a list is an integer type.
pub fn all_numeric(ts: &Vec<ValType>) -> (r: bool)
    ensures
        r == crate::valid::val_types_ok(ts@, false),
{
    let mut i: usize = 0;
    while i < ts.len()
        invariant
            i <= ts.len(),
            forall|j: int| 0 <= j < i ==> (#[trigger] ts@[j]).is_num(),
        decreases ts.len() - i,
    {
        if !ts[i].is_numeric() {
            return false;
        }
        i += 1;
    }
    true
}

/// What [`Knobs::of`] reads from [`DefaultConfig`] are the default knobs.
pub proof fn default_config_knobs(k: Knobs)
    requires
        reads(&DefaultConfig, k),
    ensures
        k@ == default_knobs(),
        k@.valid(),
{
    assert(seq_view_hosts(k.host_functions@) =~= Seq::empty());
}

/// What [`Knobs::of`] reads from [`InterpreterConfig`] are the knobs of the
/// interpreter profile.
pub proof fn interpreter_config_knobs(k: Knobs)
    requires
        reads(&InterpreterConfig, k),
    ensures
        k@ == interpreter_knobs(),
        k@.valid(),
{
}

} // verus!

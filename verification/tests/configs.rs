use wasm_smith::{Config, DefaultConfig, InterpreterConfig, Knobs, ValType};

#[test]
fn default_knobs() {
    let c = DefaultConfig;
    assert_eq!(c.min_types(), 0);
    assert_eq!(c.max_types(), 100);
    assert_eq!(c.allowed_export_types(), None);
    assert_eq!(c.min_imports(), 0);
    assert_eq!(c.max_imports(), 20);
    assert_eq!(c.min_funcs(), 0);
    assert_eq!(c.max_funcs(), 100);
    assert_eq!(c.min_globals(), 0);
    assert_eq!(c.max_globals(), 100);
    assert_eq!(c.min_exports(), 0);
    assert_eq!(c.max_exports(), 100);
    assert_eq!(c.min_element_segments(), 0);
    assert_eq!(c.max_element_segments(), 100);
    assert_eq!(c.min_elements(), 0);
    assert_eq!(c.max_elements(), 100);
    assert_eq!(c.min_data_elements(), 0);
    assert_eq!(c.max_data_elements(), 100);
    assert_eq!(c.min_data_segments(), 0);
    assert_eq!(c.max_data_segments(), 100);
    assert_eq!(c.max_instructions(), 100);
    assert_eq!(c.min_memories(), 0);
    assert_eq!(c.max_memories(), 1);
    assert_eq!(c.min_tables(), 0);
    assert_eq!(c.max_init_table_size(), 1_000_000);
    assert_eq!(c.max_tables(), 1);
    assert_eq!(c.max_memory_pages(), 65536);
    assert!(!c.memory_max_size_required());
    assert_eq!(c.memory_offset_choices(), (75, 24, 1));
    assert_eq!(c.min_uleb_size(), 1);
    assert!(c.allow_start_export());
    assert!(c.host_functions().is_empty());
    assert!(!c.allow_arbitrary_instr());
    assert!(c.allow_globalget_in_elem_and_data_offsets());
    assert!(!c.allow_function_blocktype());
    assert_eq!(c.max_parameters(), 20);
    assert!(!c.bulk_memory_enabled());
    assert!(!c.reference_types_enabled());
    assert!(!c.module_linking_enabled());
}

#[test]
fn interpreter_knobs() {
    let c = InterpreterConfig;
    assert_eq!(c.min_imports(), 10);
    assert_eq!(c.max_imports(), 20);
    assert_eq!(c.min_exports(), 1);
    assert_eq!(c.max_exports(), 10);
    assert_eq!(c.min_types(), 2);
    assert_eq!(c.max_types(), 100);
    assert_eq!(c.min_funcs(), 2);
    assert_eq!(c.max_funcs(), 50);
    assert!(!c.allow_start_export());
    assert!(!c.allow_arbitrary_instr());
    assert_eq!(c.max_globals(), 100);
    assert_eq!(c.max_init_table_size(), 1_000);
    assert_eq!(
        c.allowed_export_types(),
        Some(vec![(vec![ValType::I64], Some(ValType::I32))])
    );
    assert!(!c.allow_globalget_in_elem_and_data_offsets());
    assert_eq!(c.max_memory_pages(), 32);
    assert!(!c.reference_types_enabled());
}

#[test]
fn interpreter_host_functions() {
    let hosts = InterpreterConfig.host_functions();
    assert_eq!(hosts.len(), 20);
    for (i, h) in hosts.iter().enumerate() {
        assert_eq!(h.mod_name, "concordium");
        assert_eq!(h.hf_index, i);
    }
    let i32t = ValType::I32;
    let i64t = ValType::I64;
    let expected: Vec<(&str, Vec<ValType>, Option<ValType>)> = vec![
        ("accept", vec![], Some(i32t)),
        ("simple_transfer", vec![i32t, i64t], Some(i32t)),
        ("send", vec![i64t, i64t, i32t, i32t, i64t, i32t, i32t], Some(i32t)),
        ("combine_and", vec![i32t, i32t], Some(i32t)),
        ("combine_or", vec![i32t, i32t], Some(i32t)),
        ("get_parameter_size", vec![], Some(i32t)),
        ("get_parameter_section", vec![i32t, i32t, i32t], Some(i32t)),
        ("get_policy_section", vec![i32t, i32t, i32t], Some(i32t)),
        ("log_event", vec![i32t, i32t], None),
        ("load_state", vec![i32t, i32t, i32t], Some(i32t)),
        ("write_state", vec![i32t, i32t, i32t], Some(i32t)),
        ("resize_state", vec![i32t], Some(i32t)),
        ("state_size", vec![], Some(i32t)),
        ("get_init_origin", vec![i32t], None),
        ("get_receive_invoker", vec![i32t], None),
        ("get_receive_self_address", vec![i32t], None),
        ("get_receive_self_balance", vec![], Some(i64t)),
        ("get_receive_sender", vec![i32t], None),
        ("get_receive_owner", vec![i32t], None),
        ("get_slot_time", vec![], Some(i64t)),
    ];
    for (h, (name, params, result)) in hosts.iter().zip(expected) {
        assert_eq!(h.name, name);
        assert_eq!(h.params, params);
        assert_eq!(h.result, result);
    }
}

#[derive(Default, Clone)]
struct Mine;

impl Config for Mine {
    fn max_types(&self) -> usize {
        7
    }
    fn memory_offset_choices(&self) -> (u32, u32, u32) {
        (1, 2, 3)
    }
    fn bulk_memory_enabled(&self) -> bool {
        true
    }
}

#[test]
fn knobs_are_what_the_configuration_answers() {
    let k = Knobs::of(&Mine);
    assert_eq!(k.max_types, 7);
    assert_eq!(k.memory_offset_choices, (1, 2, 3));
    assert!(k.bulk_memory_enabled);
    assert_eq!(k.max_funcs, 100);
    assert_eq!(k.min_uleb_size, 1);
    assert_eq!(k.validate(), Ok(()));
    let k = Knobs::of(&InterpreterConfig);
    assert_eq!(k.host_functions.len(), 20);
    assert_eq!(k.max_memory_pages, 32);
    assert_eq!(k.validate(), Ok(()));
    assert_eq!(Knobs::of(&DefaultConfig).validate(), Ok(()));
}

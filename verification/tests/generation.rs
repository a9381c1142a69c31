use wasm_smith::Instruction as I;
use wasm_smith::{
    validate_body, BlockType, Config, ConfigError, ConfiguredModule, Context, DefaultConfig,
    FuncType, InitialSection, Instruction, Instructions, InterpreterConfig, Module, ValType,
    Validator,
};

fn pattern(len: usize, step: usize, start: usize) -> Vec<u8> {
    (0..len).map(|i| ((i * step + start) % 256) as u8).collect()
}

fn types_of<C: Config>(m: &ConfiguredModule<C>) -> Vec<FuncType> {
    let mut types = Vec::new();
    for s in &m.initial_sections {
        if let InitialSection::Type(ts) = s {
            for t in ts {
                types.push(t.clone());
            }
        }
    }
    types
}

fn imports_of<C: Config>(m: &ConfiguredModule<C>) -> usize {
    let mut n = 0;
    for s in &m.initial_sections {
        if let InitialSection::Import(is) = s {
            n += is.len();
        }
    }
    n
}

/// Runs the validator of the library over every generated body.
fn bodies_validate<C: Config>(m: &ConfiguredModule<C>) -> bool {
    let types = types_of(m);
    let declared = wasm_smith::generate::mark_declared(m.funcs.len(), &m.exports, &m.elems);
    let elems = wasm_smith::generate::list_elem_types(&m.elems);
    let first = m.funcs.len() - m.code.len();
    for (i, code) in m.code.iter().enumerate() {
        let ty = &types[m.funcs[first + i] as usize];
        let mut locals = ty.params.clone();
        locals.extend(code.locals.iter().copied());
        let c = Context {
            types: &types,
            funcs: &m.funcs,
            tables: &m.tables,
            memories: &m.memories,
            globals: &m.globals,
            elems: &elems,
            data: m.data.len(),
            declared: &declared,
            locals: &locals,
            result: ty.result,
            bulk_memory: m.knobs.bulk_memory_enabled,
            reference_types: m.knobs.reference_types_enabled,
        };
        if let Instructions::Generated(instrs) = &code.instructions {
            if !validate_body(&c, instrs) {
                return false;
            }
        }
    }
    true
}

#[test]
fn no_entropy_gives_the_empty_module() {
    let m = Module::generate(&[]);
    let bytes = m.to_bytes();
    assert_eq!(bytes, vec![0x00, 0x61, 0x73, 0x6D, 0x01, 0x00, 0x00, 0x00]);
    assert_eq!(bytes.len(), 8);
    assert!(m.inner.initial_sections.is_empty());
    assert!(m.inner.funcs.is_empty());
    assert!(m.inner.code.is_empty());
}

#[test]
fn two_bytes_give_one_type_and_one_function() {
    let m = Module::generate(&[0x01, 0x00]);
    let types = types_of(&m.inner);
    assert_eq!(types.len(), 1);
    assert_eq!(types[0].params, vec![]);
    assert_eq!(types[0].result, None);
    assert_eq!(imports_of(&m.inner), 0);
    assert_eq!(m.inner.funcs, vec![0]);
    assert_eq!(m.inner.num_defined_funcs, 1);
    assert_eq!(m.inner.code.len(), 1);
    assert!(m.inner.code[0].locals.is_empty());
    match &m.inner.code[0].instructions {
        Instructions::Generated(instrs) => assert!(instrs.is_empty()),
        Instructions::Arbitrary(_) => panic!("the default configuration has no arbitrary bodies"),
    }
    assert!(bodies_validate(&m.inner));
    assert!(m.is_valid());
    assert_eq!(
        m.to_bytes(),
        vec![
            0x00, 0x61, 0x73, 0x6D, 0x01, 0x00, 0x00, 0x00, // header
            0x01, 0x04, 0x01, 0x60, 0x00, 0x00, // one type: () -> ()
            0x03, 0x02, 0x01, 0x00, // one function of type 0
            0x0A, 0x04, 0x01, 0x02, 0x00, 0x0B, // one body: no locals, end
        ]
    );
}

#[test]
fn generated_bodies_are_valid() {
    let mut instructions = 0;
    for seed in 0..40usize {
        let entropy = pattern(600 + 37 * seed, 2 * seed + 1, 3 * seed);
        let m = Module::generate(&entropy);
        assert!(bodies_validate(&m.inner), "seed {}", seed);
        assert!(m.is_valid(), "seed {}", seed);
        for code in &m.inner.code {
            if let Instructions::Generated(instrs) = &code.instructions {
                instructions += instrs.len();
            }
        }
    }
    println!("instructions: {}", instructions);
    assert!(instructions > 100);
}

fn function_exports<C: Config>(m: &ConfiguredModule<C>) -> Vec<u32> {
    let mut fs = Vec::new();
    for (_, e) in &m.exports {
        if let wasm_smith::Export::Func(f) = e {
            fs.push(*f);
        }
    }
    fs
}

#[test]
fn interpreter_profile_shapes_the_module() {
    let entropy = pattern(256, 37, 5);
    let m = ConfiguredModule::generate(InterpreterConfig, &entropy).unwrap();
    let imports = imports_of(&m);
    assert!(imports >= 10, "{} imports", imports);
    assert!(imports <= 20);
    assert_eq!(m.start, None);
    let types = types_of(&m);
    for f in function_exports(&m) {
        let ty = &types[m.funcs[f as usize] as usize];
        assert_eq!(ty.params, vec![ValType::I64]);
        assert_eq!(ty.result, Some(ValType::I32));
    }
    for mem in &m.memories {
        assert!(mem.limits.min <= 32);
        if let Some(max) = mem.limits.max {
            assert!(max <= 32);
        }
    }
    for table in &m.tables {
        assert!(table.limits.min <= 1000);
    }
    assert!(m.funcs.len() <= 50);
    assert!(m.funcs.len() >= 2);
    assert!(m.exports.len() <= 10);
    assert!(bodies_validate(&m));
    assert!(m.is_valid());
    assert_eq!(&m.to_bytes()[..8], &[0x00, 0x61, 0x73, 0x6D, 0x01, 0x00, 0x00, 0x00]);
    // Every import is a host function of the profile.
    for s in &m.initial_sections {
        if let InitialSection::Import(is) = s {
            for i in is {
                assert_eq!(i.module, "concordium");
                assert!(i.name.is_some());
            }
        }
    }
}

#[test]
fn interpreter_profile_exports_only_allowed_signatures() {
    let mut exported = 0;
    for seed in 0..60usize {
        let entropy = pattern(300 + 11 * seed, 2 * seed + 1, 7 * seed);
        let m = ConfiguredModule::generate(InterpreterConfig, &entropy).unwrap();
        let types = types_of(&m);
        for f in function_exports(&m) {
            let ty = &types[m.funcs[f as usize] as usize];
            assert_eq!((&ty.params, ty.result), (&vec![ValType::I64], Some(ValType::I32)));
            exported += 1;
        }
        assert_eq!(m.start, None);
        assert!(imports_of(&m) >= 10);
    }
    println!("exported functions: {}", exported);
}

#[derive(Default, Clone)]
struct OutOfBounds;

impl Config for OutOfBounds {
    fn memory_offset_choices(&self) -> (u32, u32, u32) {
        (0, 0, 1)
    }
    fn min_memories(&self) -> u32 {
        1
    }
    fn max_memory_pages(&self) -> u32 {
        1
    }
    fn memory_max_size_required(&self) -> bool {
        true
    }
    fn max_types(&self) -> usize {
        3
    }
    fn max_funcs(&self) -> usize {
        3
    }
    fn max_globals(&self) -> usize {
        0
    }
    fn max_exports(&self) -> usize {
        0
    }
    fn max_tables(&self) -> usize {
        0
    }
    fn max_data_segments(&self) -> usize {
        0
    }
}

fn mem_arg_of(i: &Instruction) -> Option<wasm_smith::MemArg> {
    match i {
        Instruction::I32Load(m)
        | Instruction::I64Load(m)
        | Instruction::I32Load8_S(m)
        | Instruction::I32Load8_U(m)
        | Instruction::I32Load16_S(m)
        | Instruction::I32Load16_U(m)
        | Instruction::I64Load8_S(m)
        | Instruction::I64Load8_U(m)
        | Instruction::I64Load16_S(m)
        | Instruction::I64Load16_U(m)
        | Instruction::I64Load32_S(m)
        | Instruction::I64Load32_U(m)
        | Instruction::I32Store(m)
        | Instruction::I64Store(m)
        | Instruction::I32Store8(m)
        | Instruction::I32Store16(m)
        | Instruction::I64Store8(m)
        | Instruction::I64Store16(m)
        | Instruction::I64Store32(m) => Some(*m),
        _ => None,
    }
}

#[test]
fn out_of_bounds_weights_give_out_of_bounds_offsets() {
    let mut accesses = 0;
    for seed in 0..200usize {
        let entropy = pattern(500 + 13 * seed, 2 * seed + 1, 11 * seed);
        let m = ConfiguredModule::generate(OutOfBounds, &entropy).unwrap();
        assert_eq!(m.memories.len(), 1);
        let limits = m.memories[0].limits;
        assert!(limits.max.is_some());
        if limits.min != 1 || limits.max != Some(1) {
            continue;
        }
        for code in &m.code {
            if let Instructions::Generated(instrs) = &code.instructions {
                for i in instrs {
                    if let Some(arg) = mem_arg_of(i) {
                        assert!(arg.offset >= 65536, "offset {}", arg.offset);
                        assert_eq!(arg.memory_index, 0);
                        accesses += 1;
                    }
                }
            }
        }
    }
    assert!(accesses > 0);
}

#[derive(Default, Clone)]
struct Blocks {
    function_types: bool,
}

impl Config for Blocks {
    fn allow_function_blocktype(&self) -> bool {
        self.function_types
    }
    fn min_types(&self) -> usize {
        2
    }
    fn max_types(&self) -> usize {
        4
    }
    fn max_funcs(&self) -> usize {
        3
    }
    fn max_globals(&self) -> usize {
        1
    }
    fn max_exports(&self) -> usize {
        1
    }
}

fn function_block_types<C: Config>(m: &ConfiguredModule<C>) -> usize {
    let mut n = 0;
    for code in &m.code {
        if let Instructions::Generated(instrs) = &code.instructions {
            for i in instrs {
                match i {
                    Instruction::Block(wasm_smith::BlockType::FuncType(_))
                    | Instruction::Loop(wasm_smith::BlockType::FuncType(_))
                    | Instruction::If(wasm_smith::BlockType::FuncType(_)) => n += 1,
                    _ => {}
                }
            }
        }
    }
    n
}

fn blocks_of<C: Config>(m: &ConfiguredModule<C>) -> usize {
    let mut n = 0;
    for code in &m.code {
        if let Instructions::Generated(instrs) = &code.instructions {
            for i in instrs {
                match i {
                    Instruction::Block(_) | Instruction::Loop(_) | Instruction::If(_) => n += 1,
                    _ => {}
                }
            }
        }
    }
    n
}

#[test]
fn function_block_types_only_where_allowed() {
    let mut blocks = 0;
    let mut with_function_types = 0;
    for seed in 0..60usize {
        let entropy = pattern(500 + 13 * seed, 2 * seed + 1, 11 * seed);
        let m = ConfiguredModule::generate(Blocks { function_types: false }, &entropy).unwrap();
        assert_eq!(function_block_types(&m), 0, "seed {}", seed);
        blocks += blocks_of(&m);
        let m = Module::generate(&entropy);
        assert_eq!(function_block_types(&m.inner), 0, "seed {}", seed);
        let m = ConfiguredModule::generate(Blocks { function_types: true }, &entropy).unwrap();
        with_function_types += function_block_types(&m);
        assert!(bodies_validate(&m));
        assert!(m.is_valid());
    }
    assert!(blocks > 0);
    assert!(with_function_types > 0);
}

#[test]
fn same_input_gives_the_same_bytes() {
    for seed in 0..20usize {
        let entropy = pattern(700 + 13 * seed, 2 * seed + 1, seed);
        let a = Module::generate(&entropy).to_bytes();
        let b = Module::generate(&entropy).to_bytes();
        assert_eq!(a, b);
        let a = ConfiguredModule::generate(InterpreterConfig, &entropy).unwrap().to_bytes();
        let b = ConfiguredModule::generate(InterpreterConfig, &entropy).unwrap().to_bytes();
        assert_eq!(a, b);
    }
    // Other entropy gives another module.
    assert_ne!(Module::generate(&[1, 0]).to_bytes(), Module::generate(&[2, 0, 0]).to_bytes());
}

#[test]
fn surplus_entropy_is_ignored_and_short_entropy_is_enough() {
    for len in 0..64usize {
        let entropy = pattern(len, 29, 3);
        let m = Module::generate(&entropy);
        assert!(bodies_validate(&m.inner));
        assert_eq!(&m.to_bytes()[..8], &[0x00, 0x61, 0x73, 0x6D, 0x01, 0x00, 0x00, 0x00]);
    }
}

#[derive(Default, Clone)]
struct Floors;

impl Config for Floors {
    fn min_types(&self) -> usize {
        3
    }
    fn max_types(&self) -> usize {
        5
    }
    fn min_funcs(&self) -> usize {
        4
    }
    fn max_funcs(&self) -> usize {
        6
    }
    fn min_memories(&self) -> u32 {
        1
    }
    fn min_tables(&self) -> u32 {
        1
    }
    fn min_globals(&self) -> usize {
        2
    }
    fn max_globals(&self) -> usize {
        3
    }
    fn min_exports(&self) -> usize {
        2
    }
    fn max_exports(&self) -> usize {
        4
    }
    fn min_element_segments(&self) -> usize {
        1
    }
    fn max_element_segments(&self) -> usize {
        2
    }
    fn min_elements(&self) -> usize {
        1
    }
    fn max_elements(&self) -> usize {
        3
    }
    fn min_data_segments(&self) -> usize {
        1
    }
    fn max_data_segments(&self) -> usize {
        2
    }
    fn min_data_elements(&self) -> usize {
        4
    }
    fn max_data_elements(&self) -> usize {
        8
    }
    fn max_instructions(&self) -> usize {
        10
    }
}

#[test]
fn counts_keep_between_floor_and_ceiling() {
    for seed in 0..40usize {
        let entropy = pattern(17 * seed, 2 * seed + 1, seed);
        let m = ConfiguredModule::generate(Floors, &entropy).unwrap();
        let types = types_of(&m).len();
        assert!((3..=5).contains(&types));
        assert!((4..=6).contains(&m.funcs.len()));
        assert_eq!(m.memories.len(), 1);
        assert_eq!(m.tables.len(), 1);
        assert!((2..=3).contains(&m.globals.len()));
        assert!((2..=4).contains(&m.exports.len()));
        assert!((1..=2).contains(&m.elems.len()));
        for e in &m.elems {
            match &e.items {
                wasm_smith::Elements::Functions(fs) => assert!((1..=3).contains(&fs.len())),
                wasm_smith::Elements::Expressions(_) => panic!("no expressions are drawn"),
            }
        }
        assert!((1..=2).contains(&m.data.len()));
        for d in &m.data {
            assert!((4..=8).contains(&d.init.len()));
        }
        assert_eq!(m.code.len(), m.num_defined_funcs);
        assert_eq!(m.num_defined_funcs, m.funcs.len());
        // Export names differ.
        let mut names: Vec<&String> = m.exports.iter().map(|(n, _)| n).collect();
        names.sort();
        names.dedup();
        assert_eq!(names.len(), m.exports.len());
        assert!(bodies_validate(&m));
        assert!(m.is_valid());
    }
}

#[derive(Default, Clone)]
struct Conflict;

impl Config for Conflict {
    fn min_types(&self) -> usize {
        9
    }
    fn max_types(&self) -> usize {
        2
    }
    fn min_globals(&self) -> usize {
        7
    }
    fn max_globals(&self) -> usize {
        0
    }
    fn min_exports(&self) -> usize {
        1000
    }
    fn max_exports(&self) -> usize {
        3
    }
}

#[test]
fn ceilings_win_over_floors() {
    let m = ConfiguredModule::generate(Conflict, &pattern(100, 3, 1)).unwrap();
    assert_eq!(types_of(&m).len(), 2);
    assert_eq!(m.globals.len(), 0);
    assert_eq!(m.exports.len(), 3);
}

#[derive(Default, Clone)]
struct Broken {
    weights: (u32, u32, u32),
    uleb: u8,
    pages: u32,
    funcs: usize,
    parameters: usize,
    host_takes_reference: bool,
}

impl Config for Broken {
    fn memory_offset_choices(&self) -> (u32, u32, u32) {
        self.weights
    }
    fn min_uleb_size(&self) -> u8 {
        self.uleb
    }
    fn max_memory_pages(&self) -> u32 {
        self.pages
    }
    fn max_funcs(&self) -> usize {
        self.funcs
    }
    fn max_parameters(&self) -> usize {
        self.parameters
    }
    fn host_functions(&self) -> Vec<wasm_smith::HostFunction> {
        if self.host_takes_reference {
            vec![wasm_smith::HostFunction {
                mod_name: "env",
                name: "f",
                hf_index: 0,
                params: vec![ValType::ExternRef],
                result: None,
            }]
        } else {
            Vec::new()
        }
    }
}

fn sound() -> Broken {
    Broken {
        weights: (1, 0, 0),
        uleb: 1,
        pages: 65536,
        funcs: 100_000,
        parameters: 1000,
        host_takes_reference: false,
    }
}

#[test]
fn broken_configurations_are_rejected() {
    assert!(ConfiguredModule::generate(sound(), &[]).is_ok());
    let error = |c: Broken| ConfiguredModule::generate(c, &[1, 2, 3]).err();
    assert_eq!(
        error(Broken { weights: (0, 0, 0), ..sound() }),
        Some(ConfigError::MemoryOffsetChoices)
    );
    assert_eq!(error(Broken { uleb: 0, ..sound() }), Some(ConfigError::MinUlebSize));
    assert_eq!(error(Broken { uleb: 6, ..sound() }), Some(ConfigError::MinUlebSize));
    assert_eq!(error(Broken { uleb: 5, ..sound() }), None);
    assert_eq!(error(Broken { pages: 65537, ..sound() }), Some(ConfigError::MaxMemoryPages));
    // A ceiling may be as large as an index of 32 bits, and no larger.
    assert_eq!(error(Broken { funcs: 100_001, ..sound() }), None);
    assert_eq!(error(Broken { parameters: 1001, ..sound() }), None);
    assert_eq!(error(Broken { funcs: 0xFFFF_FFFF, ..sound() }), None);
    if usize::BITS > 32 {
        let above: usize = (0xFFFF_FFFFusize).saturating_add(1);
        assert_eq!(error(Broken { funcs: above, ..sound() }), Some(ConfigError::CountCeiling));
        assert_eq!(
            error(Broken { parameters: above, ..sound() }),
            Some(ConfigError::CountCeiling)
        );
    }
    assert_eq!(
        error(Broken { host_takes_reference: true, ..sound() }),
        Some(ConfigError::HostFunctionType)
    );
    // The first reason that applies is the one that is given.
    assert_eq!(
        error(Broken { weights: (0, 0, 0), uleb: 9, pages: 70000, ..sound() }),
        Some(ConfigError::MemoryOffsetChoices)
    );
    assert_eq!(
        error(Broken { uleb: 9, pages: 70000, ..sound() }),
        Some(ConfigError::MinUlebSize)
    );
}

#[derive(Default, Clone)]
struct Arbitrary;

impl Config for Arbitrary {
    fn allow_arbitrary_instr(&self) -> bool {
        true
    }
    fn min_types(&self) -> usize {
        1
    }
    fn max_types(&self) -> usize {
        2
    }
    fn max_funcs(&self) -> usize {
        4
    }
    fn max_globals(&self) -> usize {
        0
    }
}

#[test]
fn arbitrary_bodies_only_where_allowed() {
    let mut arbitrary = 0;
    for seed in 0..40usize {
        let entropy = pattern(100 + 13 * seed, 2 * seed + 1, 5 * seed);
        let m = ConfiguredModule::generate(Arbitrary, &entropy).unwrap();
        for code in &m.code {
            if let Instructions::Arbitrary(bytes) = &code.instructions {
                assert!(bytes.len() <= 100);
                assert!(code.locals.is_empty());
                arbitrary += 1;
            }
        }
        let m = Module::generate(&entropy);
        for code in &m.inner.code {
            assert!(matches!(code.instructions, Instructions::Generated(_)));
        }
    }
    assert!(arbitrary > 0);
}

fn empty_context<'a>(
    types: &'a Vec<FuncType>,
    funcs: &'a Vec<u32>,
    none: &'a (
        Vec<wasm_smith::TableType>,
        Vec<wasm_smith::MemoryType>,
        Vec<wasm_smith::GlobalType>,
    ),
    elems: &'a Vec<ValType>,
    declared: &'a Vec<bool>,
    locals: &'a Vec<ValType>,
    result: Option<ValType>,
) -> Context<'a> {
    Context {
        types,
        funcs,
        tables: &none.0,
        memories: &none.1,
        globals: &none.2,
        elems,
        data: 0,
        declared,
        locals,
        result,
        bulk_memory: false,
        reference_types: false,
    }
}

#[test]
fn operands_are_looked_for_at_any_depth() {
    let types = vec![FuncType { params: Vec::new(), result: None }];
    let funcs = vec![0];
    let none = (Vec::new(), Vec::new(), Vec::new());
    let elems = Vec::new();
    let declared = vec![false];
    let locals = vec![ValType::I32];
    let c = empty_context(&types, &funcs, &none, &elems, &declared, &locals, None);
    let pair = vec![ValType::I32, ValType::I64];

    let mut v = Validator::new(&c);
    assert!(v.has_at(0, &Vec::new()));
    assert!(v.has_at(usize::MAX, &Vec::new()));
    assert!(!v.has_at(0, &pair));
    assert!(v.step(&c, &I::LocalGet(0)));
    assert!(v.step(&c, &I::I64Const(5)));
    assert!(v.has_at(0, &pair));
    assert!(!v.has_at(1, &pair));
    assert!(!v.has_at(usize::MAX, &pair));

    // Where the frame cannot be reached, operands of any type are there
    // below the values, however far down.
    assert!(v.step(&c, &I::Unreachable));
    assert!(v.has_at(0, &pair));
    assert!(v.has_at(7, &pair));
    assert!(v.has_at(usize::MAX, &pair));
}

#[test]
fn the_validator_tells_valid_bodies_from_invalid_ones() {
    let types = vec![FuncType { params: vec![ValType::I32], result: Some(ValType::I64) }];
    let funcs = vec![0];
    let none = (Vec::new(), Vec::new(), Vec::new());
    let elems = Vec::new();
    let declared = vec![false];
    let locals = vec![ValType::I32, ValType::I64];
    let c = empty_context(&types, &funcs, &none, &elems, &declared, &locals, Some(ValType::I64));
    let ok = |body: Vec<Instruction>| validate_body(&c, &body);

    assert!(ok(vec![I::LocalGet(1)]));
    assert!(ok(vec![I::LocalGet(0), I::I64ExtendI32U]));
    assert!(ok(vec![I::LocalGet(0), I::Call(0)]));
    assert!(ok(vec![I::Unreachable]));
    assert!(ok(vec![I::Unreachable, I::I32Add, I::Drop, I::Select, I::I64Eqz, I::Drop]));
    assert!(ok(vec![I::I64Const(1), I::Return]));
    assert!(ok(vec![I::I64Const(1), I::Br(0)]));
    assert!(ok(vec![I::Block(BlockType::Result(ValType::I64)), I::I64Const(7), I::End]));
    assert!(ok(vec![I::Loop(BlockType::Empty), I::Br(0), I::End, I::LocalGet(1)]));
    assert!(ok(vec![
        I::LocalGet(0),
        I::If(BlockType::Result(ValType::I64)),
        I::I64Const(1),
        I::Else,
        I::I64Const(2),
        I::End,
    ]));
    assert!(ok(vec![I::LocalGet(0), I::If(BlockType::Empty), I::Nop, I::End, I::LocalGet(1)]));
    assert!(ok(vec![I::I64Const(1), I::I64Const(2), I::LocalGet(0), I::Select]));
    assert!(ok(vec![I::I64Const(1), I::LocalGet(0), I::BrIf(0)]));
    assert!(ok(vec![I::I64Const(1), I::LocalGet(0), I::BrTable(vec![0, 0], 0)]));
    assert!(ok(vec![I::LocalGet(0), I::Block(BlockType::FuncType(0)), I::I64ExtendI32S, I::End]));

    // The body ends with too little, too much, or the wrong type.
    assert!(!ok(vec![]));
    assert!(!ok(vec![I::LocalGet(0)]));
    assert!(!ok(vec![I::LocalGet(1), I::LocalGet(1)]));
    // An operand is missing or of the wrong type.
    assert!(!ok(vec![I::I32Add, I::LocalGet(1)]));
    assert!(!ok(vec![I::LocalGet(1), I::I32Eqz, I::Drop, I::LocalGet(1)]));
    assert!(!ok(vec![I::LocalGet(0), I::LocalGet(1), I::I32Add, I::Drop, I::LocalGet(1)]));
    assert!(
        !ok(
            vec![
                I::LocalGet(0), I::LocalGet(1), I::LocalGet(0), I::Select, I::Drop, I::LocalGet(1),
            ],
        ),
    );
    // An index is out of range.
    assert!(!ok(vec![I::LocalGet(2)]));
    assert!(!ok(vec![I::LocalGet(0), I::Call(1)]));
    assert!(!ok(vec![I::GlobalGet(0)]));
    assert!(!ok(vec![I::I64Const(1), I::Br(1)]));
    assert!(!ok(vec![I::LocalGet(1), I::Block(BlockType::FuncType(1)), I::End]));
    // There is no memory and no table.
    assert!(!ok(vec![
        I::LocalGet(0),
        I::I64Load(wasm_smith::MemArg { offset: 0, align: 0, memory_index: 0 }),
    ]));
    assert!(!ok(vec![I::LocalGet(0), I::LocalGet(0), I::CallIndirect { ty: 0, table: 0 }]));
    // The frames do not match.
    assert!(!ok(vec![I::LocalGet(1), I::End]));
    assert!(!ok(vec![I::Block(BlockType::Empty), I::LocalGet(1)]));
    assert!(!ok(vec![I::Else, I::LocalGet(1)]));
    assert!(
        !ok(vec![I::LocalGet(0), I::If(BlockType::Result(ValType::I64)), I::I64Const(1), I::End]),
    );
    assert!(!ok(vec![I::Block(BlockType::Result(ValType::I64)), I::End]));
    // Reference and bulk instructions need their proposals.
    assert!(!ok(vec![I::RefNull(ValType::FuncRef), I::Drop, I::LocalGet(1)]));
    assert!(!ok(vec![I::DataDrop(0), I::LocalGet(1)]));
}

#[test]
fn memory_accesses_need_a_memory_and_an_alignment() {
    let types = vec![FuncType { params: vec![], result: None }];
    let funcs = vec![0];
    let tables = Vec::new();
    let memories = vec![wasm_smith::MemoryType {
        limits: wasm_smith::Limits { min: 1, max: None },
    }];
    let globals = vec![wasm_smith::GlobalType { val_type: ValType::I32, mutable: false }];
    let elems = Vec::new();
    let declared = vec![false];
    let locals = Vec::new();
    let c = Context {
        types: &types,
        funcs: &funcs,
        tables: &tables,
        memories: &memories,
        globals: &globals,
        elems: &elems,
        data: 0,
        declared: &declared,
        locals: &locals,
        result: None,
        bulk_memory: false,
        reference_types: false,
    };
    let arg = |align: u32, memory_index: u32| wasm_smith::MemArg { offset: 9, align, memory_index };
    assert!(validate_body(&c, &vec![I::I32Const(0), I::I32Load(arg(2, 0)), I::Drop]));
    assert!(!validate_body(&c, &vec![I::I32Const(0), I::I32Load(arg(3, 0)), I::Drop]));
    assert!(!validate_body(&c, &vec![I::I32Const(0), I::I32Load(arg(0, 1)), I::Drop]));
    assert!(validate_body(&c, &vec![I::I32Const(0), I::I64Const(1), I::I64Store(arg(3, 0))]));
    assert!(!validate_body(&c, &vec![I::I32Const(0), I::I64Const(1), I::I64Store8(arg(1, 0))]));
    assert!(validate_body(&c, &vec![I::GlobalGet(0), I::Drop]));
    // The global is not mutable.
    assert!(!validate_body(&c, &vec![I::I32Const(0), I::GlobalSet(0)]));
    assert!(validate_body(&c, &vec![I::MemorySize(0), I::MemoryGrow(0), I::Drop]));
}

#[derive(Default, Clone)]
struct Full;

impl Config for Full {
    fn min_types(&self) -> usize {
        2
    }
    fn max_types(&self) -> usize {
        6
    }
    fn min_funcs(&self) -> usize {
        2
    }
    fn max_funcs(&self) -> usize {
        5
    }
    fn min_memories(&self) -> u32 {
        1
    }
    fn max_memories(&self) -> usize {
        2
    }
    fn min_tables(&self) -> u32 {
        1
    }
    fn max_tables(&self) -> usize {
        3
    }
    fn min_globals(&self) -> usize {
        1
    }
    fn max_globals(&self) -> usize {
        4
    }
    fn min_exports(&self) -> usize {
        2
    }
    fn max_exports(&self) -> usize {
        5
    }
    fn min_element_segments(&self) -> usize {
        1
    }
    fn max_element_segments(&self) -> usize {
        3
    }
    fn min_data_segments(&self) -> usize {
        1
    }
    fn max_data_segments(&self) -> usize {
        3
    }
    fn max_data_elements(&self) -> usize {
        10
    }
    fn max_init_table_size(&self) -> u32 {
        100
    }
    fn max_memory_pages(&self) -> u32 {
        4
    }
    fn bulk_memory_enabled(&self) -> bool {
        true
    }
    fn reference_types_enabled(&self) -> bool {
        true
    }
    fn allow_function_blocktype(&self) -> bool {
        true
    }
    fn host_functions(&self) -> Vec<wasm_smith::HostFunction> {
        vec![
            wasm_smith::HostFunction {
                mod_name: "env",
                name: "now",
                hf_index: 0,
                params: vec![],
                result: Some(ValType::I64),
            },
            wasm_smith::HostFunction {
                mod_name: "env",
                name: "put",
                hf_index: 1,
                params: vec![ValType::I32, ValType::ExternRef],
                result: None,
            },
        ]
    }
    fn max_imports(&self) -> usize {
        3
    }
}

#[test]
fn generated_modules_are_valid_under_every_proposal() {
    let mut kinds = std::collections::BTreeSet::new();
    for seed in 0..80usize {
        let entropy = pattern(1500 + 41 * seed, 2 * seed + 1, 5 * seed);
        let m = ConfiguredModule::generate(Full, &entropy).unwrap();
        assert!(m.is_valid(), "seed {}", seed);
        assert!(bodies_validate(&m), "seed {}", seed);
        for code in &m.code {
            if let Instructions::Generated(instrs) = &code.instructions {
                for i in instrs {
                    let text = format!("{:?}", i);
                    let name = text.split(|c| c == '(' || c == ' ' || c == '{').next().unwrap();
                    kinds.insert(name.to_string());
                }
            }
        }
    }
    // The selector reaches well beyond the instructions that are always
    // admissible.
    println!("{:?}", kinds);
    assert!(kinds.len() > 60, "{} kinds: {:?}", kinds.len(), kinds);
}

#[test]
fn broken_modules_are_not_valid() {
    let entropy = pattern(4000, 7, 3);
    let sound = || ConfiguredModule::generate(Full, &entropy).unwrap();
    let m = sound();
    assert!(m.is_valid());
    assert!(m.funcs.len() >= 2 && !m.exports.is_empty() && !m.globals.is_empty());
    assert!(!m.memories.is_empty() && !m.tables.is_empty() && !m.data.is_empty());

    // A function of a type that is not there.
    let mut m = sound();
    let last = m.funcs.len() - 1;
    m.funcs[last] = 1000;
    assert!(!m.is_valid());
    // More bodies than defined functions.
    let mut m = sound();
    m.num_defined_funcs += 1;
    assert!(!m.is_valid());
    // A body that leaves a value behind.
    let mut m = sound();
    m.code[0].instructions = Instructions::Generated(vec![
        Instruction::I32Const(1),
        Instruction::I32Const(1),
        Instruction::I32Const(1),
    ]);
    assert!(!m.is_valid());
    // Arbitrary bytes where they are not allowed.
    let mut m = sound();
    m.code[0].instructions = Instructions::Arbitrary(vec![0x0B]);
    assert!(!m.is_valid());
    m.knobs.allow_arbitrary_instr = true;
    assert!(m.is_valid());
    // Two exports of one name.
    let mut m = sound();
    let name = m.exports[0].0.clone();
    m.exports.push((name, wasm_smith::Export::Func(0)));
    assert!(!m.is_valid());
    // An export of what is not there.
    let mut m = sound();
    m.exports.push(("fresh".to_string(), wasm_smith::Export::Global(1000)));
    assert!(!m.is_valid());
    let mut m = sound();
    m.exports.push(("fresh".to_string(), wasm_smith::Export::Func(0)));
    assert!(m.is_valid());
    // A memory whose maximum is below its minimum, or above the limit.
    let mut m = sound();
    m.memories[0].limits = wasm_smith::Limits { min: 2, max: Some(1) };
    assert!(!m.is_valid());
    m.memories[0].limits = wasm_smith::Limits { min: 2, max: Some(65537) };
    assert!(!m.is_valid());
    m.memories[0].limits = wasm_smith::Limits { min: 2, max: Some(65536) };
    assert!(m.is_valid());
    // A table of integers.
    let mut m = sound();
    m.tables[0].elem_ty = ValType::I32;
    assert!(!m.is_valid());
    // A global that starts with a value of another type.
    let mut m = sound();
    let (right, wrong) = match m.globals[0].val_type {
        ValType::I32 => (Instruction::I32Const(5), Instruction::I64Const(5)),
        ValType::I64 => (Instruction::I64Const(5), Instruction::I32Const(5)),
        t => (Instruction::RefNull(t), Instruction::I32Const(5)),
    };
    m.defined_globals[0].1 = wrong;
    assert!(!m.is_valid());
    m.defined_globals[0].1 = right;
    assert!(m.is_valid());
    m.defined_globals[0].1 = Instruction::I64Add;
    assert!(!m.is_valid());
    let mut m = sound();
    m.defined_globals[0].0 = 1;
    assert!(!m.is_valid());
    // A start function that takes a parameter, or is not there.
    let mut m = sound();
    m.start = Some(1000);
    assert!(!m.is_valid());
    // A data segment for a memory that is not there.
    let mut m = sound();
    m.data[0].kind = wasm_smith::DataSegmentKind::Active {
        memory_index: 9,
        offset: Instruction::I32Const(0),
    };
    assert!(!m.is_valid());
    m.data[0].kind = wasm_smith::DataSegmentKind::Active {
        memory_index: 0,
        offset: Instruction::I64Const(0),
    };
    assert!(!m.is_valid());
    // A passive segment without the bulk memory proposal, and references
    // without the reference types proposal.
    let mut m = sound();
    m.data[0].kind = wasm_smith::DataSegmentKind::Passive;
    assert!(m.is_valid());
    m.knobs.bulk_memory_enabled = false;
    assert!(!m.is_valid());
    // An element segment that lists a function that is not there.
    let mut m = sound();
    m.elems.push(wasm_smith::ElementSegment {
        kind: wasm_smith::ElementKind::Passive,
        ty: ValType::FuncRef,
        items: wasm_smith::Elements::Functions(vec![1000]),
    });
    assert!(!m.is_valid());
    // The sections out of order.
    let mut m = sound();
    m.initial_sections.reverse();
    assert!(!m.is_valid());
    let mut m = sound();
    m.initial_sections.push(InitialSection::Type(vec![]));
    assert!(!m.is_valid());
}

#[test]
fn every_index_in_a_body_refers_to_something() {
    let mut seen = 0;
    for seed in 0..60usize {
        let entropy = pattern(1500 + 41 * seed, 2 * seed + 1, 5 * seed);
        let m = ConfiguredModule::generate(Full, &entropy).unwrap();
        let types = types_of(&m);
        let first = m.funcs.len() - m.code.len();
        for (f, code) in m.code.iter().enumerate() {
            let locals = types[m.funcs[first + f] as usize].params.len() + code.locals.len();
            let instrs = match &code.instructions {
                Instructions::Generated(instrs) => instrs,
                Instructions::Arbitrary(_) => panic!("no arbitrary bodies are allowed"),
            };
            for i in instrs {
                seen += 1;
                match i {
                    Instruction::Call(x) | Instruction::RefFunc(x) => {
                        assert!((*x as usize) < m.funcs.len())
                    }
                    Instruction::CallIndirect { ty, table } => {
                        assert!((*ty as usize) < types.len());
                        assert!((*table as usize) < m.tables.len());
                    }
                    Instruction::LocalGet(
                        x,
                    ) | Instruction::LocalSet(x) | Instruction::LocalTee(x) => {
                        assert!((*x as usize) < locals)
                    }
                    Instruction::GlobalGet(x) | Instruction::GlobalSet(x) => {
                        assert!((*x as usize) < m.globals.len())
                    }
                    Instruction::MemorySize(
                        x,
                    ) | Instruction::MemoryGrow(x) | Instruction::MemoryFill(x) => {
                        assert!((*x as usize) < m.memories.len())
                    }
                    Instruction::MemoryInit { mem, data } => {
                        assert!((*mem as usize) < m.memories.len());
                        assert!((*data as usize) < m.data.len());
                    }
                    Instruction::DataDrop(x) => assert!((*x as usize) < m.data.len()),
                    Instruction::MemoryCopy { src, dst } => {
                        assert!((*src as usize) < m.memories.len());
                        assert!((*dst as usize) < m.memories.len());
                    }
                    Instruction::TableInit { segment, table } => {
                        assert!((*segment as usize) < m.elems.len());
                        assert!((*table as usize) < m.tables.len());
                    }
                    Instruction::ElemDrop { segment } => assert!(
                        (*segment as usize) < m.elems.len(),
                    ),
                    Instruction::TableFill { table }
                    | Instruction::TableSet { table }
                    | Instruction::TableGet { table }
                    | Instruction::TableGrow { table }
                    | Instruction::TableSize { table } => assert!(
                        (*table as usize) < m.tables.len(),
                    ),
                    Instruction::TableCopy { src, dst } => {
                        assert!((*src as usize) < m.tables.len());
                        assert!((*dst as usize) < m.tables.len());
                    }
                    Instruction::Block(BlockType::FuncType(t))
                    | Instruction::Loop(BlockType::FuncType(t))
                    | Instruction::If(BlockType::FuncType(t)) => assert!(
                        (*t as usize) < types.len(),
                    ),
                    other => {
                        if let Some(arg) = mem_arg_of(other) {
                            assert!((arg.memory_index as usize) < m.memories.len());
                        }
                    }
                }
            }
        }
        for (_, e) in &m.exports {
            match e {
                wasm_smith::Export::Func(x) => assert!((*x as usize) < m.funcs.len()),
                wasm_smith::Export::Table(x) => assert!((*x as usize) < m.tables.len()),
                wasm_smith::Export::Memory(x) => assert!((*x as usize) < m.memories.len()),
                wasm_smith::Export::Global(x) => assert!((*x as usize) < m.globals.len()),
            }
        }
        for ty in &m.funcs {
            assert!((*ty as usize) < types.len());
        }
    }
    assert!(seen > 1000);
}

use wasm_smith::{
    BlockType, Code, Config, ConfiguredModule, DataSegment, DataSegmentKind, DefaultConfig,
    ElementKind, ElementSegment, Elements, Export, FuncType, FunctionType, GlobalType, Import,
    InitialSection, Instruction, Instructions, Knobs, Limits, MemArg, MemoryType, Module,
    TableType, ValType,
};

fn pattern(len: usize, step: usize, start: usize) -> Vec<u8> {
    (0..len).map(|i| ((i * step + start) % 256) as u8).collect()
}

fn empty_module() -> ConfiguredModule<DefaultConfig> {
    ConfiguredModule {
        config: DefaultConfig,
        knobs: Knobs::of(&DefaultConfig),
        initial_sections: Vec::new(),
        funcs: Vec::new(),
        tables: Vec::new(),
        memories: Vec::new(),
        globals: Vec::new(),
        defined_globals: Vec::new(),
        exports: Vec::new(),
        start: None,
        elems: Vec::new(),
        code: Vec::new(),
        data: Vec::new(),
        num_defined_funcs: 0,
        num_defined_tables: 0,
        num_defined_memories: 0,
    }
}

fn reference_val_type(ty: ValType) -> wasm_encoder::ValType {
    match ty {
        ValType::I32 => wasm_encoder::ValType::I32,
        ValType::I64 => wasm_encoder::ValType::I64,
        ValType::FuncRef => wasm_encoder::ValType::FuncRef,
        ValType::ExternRef => wasm_encoder::ValType::ExternRef,
    }
}

fn reference_limits(limits: &Limits) -> wasm_encoder::Limits {
    wasm_encoder::Limits { min: limits.min, max: limits.max }
}

fn reference_block_type(ty: BlockType) -> wasm_encoder::BlockType {
    match ty {
        BlockType::Empty => wasm_encoder::BlockType::Empty,
        BlockType::Result(ty) => wasm_encoder::BlockType::Result(reference_val_type(ty)),
        BlockType::FuncType(f) => wasm_encoder::BlockType::FunctionType(f),
    }
}

fn reference_mem_arg(m: MemArg) -> wasm_encoder::MemArg {
    wasm_encoder::MemArg { offset: m.offset, align: m.align, memory_index: m.memory_index }
}

fn reference_instruction(inst: &Instruction) -> wasm_encoder::Instruction<'_> {
    match inst {
        Instruction::Unreachable => wasm_encoder::Instruction::Unreachable,
        Instruction::Nop => wasm_encoder::Instruction::Nop,
        Instruction::Block(bt) => wasm_encoder::Instruction::Block(reference_block_type(*bt)),
        Instruction::Loop(bt) => wasm_encoder::Instruction::Loop(reference_block_type(*bt)),
        Instruction::If(bt) => wasm_encoder::Instruction::If(reference_block_type(*bt)),
        Instruction::Else => wasm_encoder::Instruction::Else,
        Instruction::End => wasm_encoder::Instruction::End,
        Instruction::Br(x) => wasm_encoder::Instruction::Br(*x),
        Instruction::BrIf(x) => wasm_encoder::Instruction::BrIf(*x),
        Instruction::BrTable(labels, default) => wasm_encoder::Instruction::BrTable(
            labels, *default,
        ),
        Instruction::Return => wasm_encoder::Instruction::Return,
        Instruction::Call(x) => wasm_encoder::Instruction::Call(*x),
        Instruction::CallIndirect { ty, table } => wasm_encoder::Instruction::CallIndirect {
            ty: *ty,
            table: *table,
        },
        Instruction::Drop => wasm_encoder::Instruction::Drop,
        Instruction::Select => wasm_encoder::Instruction::Select,
        Instruction::LocalGet(x) => wasm_encoder::Instruction::LocalGet(*x),
        Instruction::LocalSet(x) => wasm_encoder::Instruction::LocalSet(*x),
        Instruction::LocalTee(x) => wasm_encoder::Instruction::LocalTee(*x),
        Instruction::GlobalGet(x) => wasm_encoder::Instruction::GlobalGet(*x),
        Instruction::GlobalSet(x) => wasm_encoder::Instruction::GlobalSet(*x),
        Instruction::I32Load(m) => wasm_encoder::Instruction::I32Load(reference_mem_arg(*m)),
        Instruction::I64Load(m) => wasm_encoder::Instruction::I64Load(reference_mem_arg(*m)),
        Instruction::I32Load8_S(m) => wasm_encoder::Instruction::I32Load8_S(reference_mem_arg(*m)),
        Instruction::I32Load8_U(m) => wasm_encoder::Instruction::I32Load8_U(reference_mem_arg(*m)),
        Instruction::I32Load16_S(m) => wasm_encoder::Instruction::I32Load16_S(
            reference_mem_arg(*m),
        ),
        Instruction::I32Load16_U(m) => wasm_encoder::Instruction::I32Load16_U(
            reference_mem_arg(*m),
        ),
        Instruction::I64Load8_S(m) => wasm_encoder::Instruction::I64Load8_S(reference_mem_arg(*m)),
        Instruction::I64Load8_U(m) => wasm_encoder::Instruction::I64Load8_U(reference_mem_arg(*m)),
        Instruction::I64Load16_S(m) => wasm_encoder::Instruction::I64Load16_S(
            reference_mem_arg(*m),
        ),
        Instruction::I64Load16_U(m) => wasm_encoder::Instruction::I64Load16_U(
            reference_mem_arg(*m),
        ),
        Instruction::I64Load32_S(m) => wasm_encoder::Instruction::I64Load32_S(
            reference_mem_arg(*m),
        ),
        Instruction::I64Load32_U(m) => wasm_encoder::Instruction::I64Load32_U(
            reference_mem_arg(*m),
        ),
        Instruction::I32Store(m) => wasm_encoder::Instruction::I32Store(reference_mem_arg(*m)),
        Instruction::I64Store(m) => wasm_encoder::Instruction::I64Store(reference_mem_arg(*m)),
        Instruction::I32Store8(m) => wasm_encoder::Instruction::I32Store8(reference_mem_arg(*m)),
        Instruction::I32Store16(m) => wasm_encoder::Instruction::I32Store16(reference_mem_arg(*m)),
        Instruction::I64Store8(m) => wasm_encoder::Instruction::I64Store8(reference_mem_arg(*m)),
        Instruction::I64Store16(m) => wasm_encoder::Instruction::I64Store16(reference_mem_arg(*m)),
        Instruction::I64Store32(m) => wasm_encoder::Instruction::I64Store32(reference_mem_arg(*m)),
        Instruction::MemorySize(x) => wasm_encoder::Instruction::MemorySize(*x),
        Instruction::MemoryGrow(x) => wasm_encoder::Instruction::MemoryGrow(*x),
        Instruction::MemoryInit { mem, data } => wasm_encoder::Instruction::MemoryInit {
            mem: *mem,
            data: *data,
        },
        Instruction::DataDrop(x) => wasm_encoder::Instruction::DataDrop(*x),
        Instruction::MemoryCopy { src, dst } => wasm_encoder::Instruction::MemoryCopy {
            src: *src,
            dst: *dst,
        },
        Instruction::MemoryFill(x) => wasm_encoder::Instruction::MemoryFill(*x),
        Instruction::I32Const(x) => wasm_encoder::Instruction::I32Const(*x),
        Instruction::I64Const(x) => wasm_encoder::Instruction::I64Const(*x),
        Instruction::I32Eqz => wasm_encoder::Instruction::I32Eqz,
        Instruction::I32Eq => wasm_encoder::Instruction::I32Eq,
        Instruction::I32Neq => wasm_encoder::Instruction::I32Neq,
        Instruction::I32LtS => wasm_encoder::Instruction::I32LtS,
        Instruction::I32LtU => wasm_encoder::Instruction::I32LtU,
        Instruction::I32GtS => wasm_encoder::Instruction::I32GtS,
        Instruction::I32GtU => wasm_encoder::Instruction::I32GtU,
        Instruction::I32LeS => wasm_encoder::Instruction::I32LeS,
        Instruction::I32LeU => wasm_encoder::Instruction::I32LeU,
        Instruction::I32GeS => wasm_encoder::Instruction::I32GeS,
        Instruction::I32GeU => wasm_encoder::Instruction::I32GeU,
        Instruction::I64Eqz => wasm_encoder::Instruction::I64Eqz,
        Instruction::I64Eq => wasm_encoder::Instruction::I64Eq,
        Instruction::I64Neq => wasm_encoder::Instruction::I64Neq,
        Instruction::I64LtS => wasm_encoder::Instruction::I64LtS,
        Instruction::I64LtU => wasm_encoder::Instruction::I64LtU,
        Instruction::I64GtS => wasm_encoder::Instruction::I64GtS,
        Instruction::I64GtU => wasm_encoder::Instruction::I64GtU,
        Instruction::I64LeS => wasm_encoder::Instruction::I64LeS,
        Instruction::I64LeU => wasm_encoder::Instruction::I64LeU,
        Instruction::I64GeS => wasm_encoder::Instruction::I64GeS,
        Instruction::I64GeU => wasm_encoder::Instruction::I64GeU,
        Instruction::I32Clz => wasm_encoder::Instruction::I32Clz,
        Instruction::I32Ctz => wasm_encoder::Instruction::I32Ctz,
        Instruction::I32Popcnt => wasm_encoder::Instruction::I32Popcnt,
        Instruction::I32Add => wasm_encoder::Instruction::I32Add,
        Instruction::I32Sub => wasm_encoder::Instruction::I32Sub,
        Instruction::I32Mul => wasm_encoder::Instruction::I32Mul,
        Instruction::I32DivS => wasm_encoder::Instruction::I32DivS,
        Instruction::I32DivU => wasm_encoder::Instruction::I32DivU,
        Instruction::I32RemS => wasm_encoder::Instruction::I32RemS,
        Instruction::I32RemU => wasm_encoder::Instruction::I32RemU,
        Instruction::I32And => wasm_encoder::Instruction::I32And,
        Instruction::I32Or => wasm_encoder::Instruction::I32Or,
        Instruction::I32Xor => wasm_encoder::Instruction::I32Xor,
        Instruction::I32Shl => wasm_encoder::Instruction::I32Shl,
        Instruction::I32ShrS => wasm_encoder::Instruction::I32ShrS,
        Instruction::I32ShrU => wasm_encoder::Instruction::I32ShrU,
        Instruction::I32Rotl => wasm_encoder::Instruction::I32Rotl,
        Instruction::I32Rotr => wasm_encoder::Instruction::I32Rotr,
        Instruction::I64Clz => wasm_encoder::Instruction::I64Clz,
        Instruction::I64Ctz => wasm_encoder::Instruction::I64Ctz,
        Instruction::I64Popcnt => wasm_encoder::Instruction::I64Popcnt,
        Instruction::I64Add => wasm_encoder::Instruction::I64Add,
        Instruction::I64Sub => wasm_encoder::Instruction::I64Sub,
        Instruction::I64Mul => wasm_encoder::Instruction::I64Mul,
        Instruction::I64DivS => wasm_encoder::Instruction::I64DivS,
        Instruction::I64DivU => wasm_encoder::Instruction::I64DivU,
        Instruction::I64RemS => wasm_encoder::Instruction::I64RemS,
        Instruction::I64RemU => wasm_encoder::Instruction::I64RemU,
        Instruction::I64And => wasm_encoder::Instruction::I64And,
        Instruction::I64Or => wasm_encoder::Instruction::I64Or,
        Instruction::I64Xor => wasm_encoder::Instruction::I64Xor,
        Instruction::I64Shl => wasm_encoder::Instruction::I64Shl,
        Instruction::I64ShrS => wasm_encoder::Instruction::I64ShrS,
        Instruction::I64ShrU => wasm_encoder::Instruction::I64ShrU,
        Instruction::I64Rotl => wasm_encoder::Instruction::I64Rotl,
        Instruction::I64Rotr => wasm_encoder::Instruction::I64Rotr,
        Instruction::I32WrapI64 => wasm_encoder::Instruction::I32WrapI64,
        Instruction::I64ExtendI32S => wasm_encoder::Instruction::I64ExtendI32S,
        Instruction::I64ExtendI32U => wasm_encoder::Instruction::I64ExtendI32U,
        Instruction::I64Extend32S => wasm_encoder::Instruction::I64Extend32S,
        Instruction::TypedSelect(ty) => wasm_encoder::Instruction::TypedSelect(
            reference_val_type(*ty),
        ),
        Instruction::RefNull(ty) => wasm_encoder::Instruction::RefNull(reference_val_type(*ty)),
        Instruction::RefIsNull => wasm_encoder::Instruction::RefIsNull,
        Instruction::RefFunc(x) => wasm_encoder::Instruction::RefFunc(*x),
        Instruction::TableInit { segment, table } => wasm_encoder::Instruction::TableInit {
            segment: *segment,
            table: *table,
        },
        Instruction::ElemDrop { segment } => wasm_encoder::Instruction::ElemDrop {
            segment: *segment
        },
        Instruction::TableFill { table } => wasm_encoder::Instruction::TableFill { table: *table },
        Instruction::TableSet { table } => wasm_encoder::Instruction::TableSet { table: *table },
        Instruction::TableGet { table } => wasm_encoder::Instruction::TableGet { table: *table },
        Instruction::TableGrow { table } => wasm_encoder::Instruction::TableGrow { table: *table },
        Instruction::TableSize { table } => wasm_encoder::Instruction::TableSize { table: *table },
        Instruction::TableCopy { src, dst } => wasm_encoder::Instruction::TableCopy {
            src: *src,
            dst: *dst,
        },
    }
}

/// The encoding of a module by the `wasm-encoder` crate.
fn reference_bytes<C: Config>(m: &ConfiguredModule<C>) -> Vec<u8> {
    let mut module = wasm_encoder::Module::new();
    for init in &m.initial_sections {
        match init {
            InitialSection::Type(types) => {
                let mut section = wasm_encoder::TypeSection::new();
                for ty in types {
                    section.function(
                        ty.params.iter().map(|t| reference_val_type(*t)).collect::<Vec<_>>(),
                        ty.result.iter().map(|t| reference_val_type(*t)).collect::<Vec<_>>(),
                    );
                }
                module.section(&section);
            }
            InitialSection::Import(imports) => {
                let mut section = wasm_encoder::ImportSection::new();
                for import in imports {
                    let FunctionType::Func(f) = import.desc;
                    section.import(
                        &import.module,
                        import.name.as_deref(),
                        wasm_encoder::EntityType::Function(f),
                    );
                }
                module.section(&section);
            }
        }
    }
    if m.num_defined_funcs != 0 {
        let mut funcs = wasm_encoder::FunctionSection::new();
        for ty in m.funcs[m.funcs.len() - m.num_defined_funcs..].iter() {
            funcs.function(*ty);
        }
        module.section(&funcs);
    }
    if m.num_defined_tables != 0 {
        let mut tables = wasm_encoder::TableSection::new();
        for t in m.tables[m.tables.len() - m.num_defined_tables..].iter() {
            tables.table(wasm_encoder::TableType {
                element_type: reference_val_type(t.elem_ty),
                limits: reference_limits(&t.limits),
            });
        }
        module.section(&tables);
    }
    if m.num_defined_memories != 0 {
        let mut mems = wasm_encoder::MemorySection::new();
        for mem in m.memories[m.memories.len() - m.num_defined_memories..].iter() {
            mems.memory(wasm_encoder::MemoryType { limits: reference_limits(&mem.limits) });
        }
        module.section(&mems);
    }
    if !m.defined_globals.is_empty() {
        let mut globals = wasm_encoder::GlobalSection::new();
        for (idx, expr) in &m.defined_globals {
            let ty = &m.globals[*idx as usize];
            globals.global(
                wasm_encoder::GlobalType {
                    val_type: reference_val_type(ty.val_type),
                    mutable: ty.mutable,
                },
                reference_instruction(expr),
            );
        }
        module.section(&globals);
    }
    if !m.exports.is_empty() {
        let mut exports = wasm_encoder::ExportSection::new();
        for (name, export) in &m.exports {
            exports.export(
                name,
                match export {
                    Export::Func(idx) => wasm_encoder::Export::Function(*idx),
                    Export::Table(idx) => wasm_encoder::Export::Table(*idx),
                    Export::Memory(idx) => wasm_encoder::Export::Memory(*idx),
                    Export::Global(idx) => wasm_encoder::Export::Global(*idx),
                },
            );
        }
        module.section(&exports);
    }
    if let Some(f) = m.start {
        module.section(&wasm_encoder::StartSection { function_index: f });
    }
    if !m.elems.is_empty() {
        let mut elems = wasm_encoder::ElementSection::new();
        let mut exps = vec![];
        for el in &m.elems {
            let elem_ty = reference_val_type(el.ty);
            let elements = match &el.items {
                Elements::Expressions(es) => {
                    exps.clear();
                    exps.extend(es.iter().map(|e| match e {
                        Some(i) => wasm_encoder::Element::Func(*i),
                        None => wasm_encoder::Element::Null,
                    }));
                    wasm_encoder::Elements::Expressions(&exps)
                }
                Elements::Functions(fs) => wasm_encoder::Elements::Functions(fs),
            };
            match &el.kind {
                ElementKind::Active { table, offset } => {
                    elems.active(*table, reference_instruction(offset), elem_ty, elements);
                }
                ElementKind::Passive => {
                    elems.passive(elem_ty, elements);
                }
                ElementKind::Declared => {
                    elems.declared(elem_ty, elements);
                }
            }
        }
        module.section(&elems);
    }
    if m.knobs.bulk_memory_enabled && !m.data.is_empty() {
        module.section(&wasm_encoder::DataCountSection { count: m.data.len() as u32 });
    }
    if !m.code.is_empty() {
        let mut code = wasm_encoder::CodeSection::new();
        for c in &m.code {
            let mut func = wasm_encoder::Function::new(
                c.locals.iter().map(|l| (1, reference_val_type(*l))).collect::<Vec<_>>(),
            );
            match &c.instructions {
                Instructions::Generated(instrs) => {
                    for instr in instrs {
                        func.instruction(reference_instruction(instr));
                    }
                    func.instruction(wasm_encoder::Instruction::End);
                }
                Instructions::Arbitrary(body) => {
                    func.raw(body.iter().copied());
                }
            }
            code.function(&func);
        }
        module.section(&code);
    }
    if !m.data.is_empty() {
        let mut data = wasm_encoder::DataSection::new();
        for seg in &m.data {
            match &seg.kind {
                DataSegmentKind::Active { memory_index, offset } => {
                    data.active(
                        *memory_index,
                        reference_instruction(offset),
                        seg.init.iter().copied(),
                    );
                }
                DataSegmentKind::Passive => {
                    data.passive(seg.init.iter().copied());
                }
            }
        }
        module.section(&data);
    }
    module.finish()
}

#[derive(Default, Clone)]
struct Everything;

impl Config for Everything {
    fn min_memories(&self) -> u32 {
        1
    }
    fn max_memories(&self) -> usize {
        2
    }
    fn min_tables(&self) -> u32 {
        1
    }
    fn max_tables(&self) -> usize {
        3
    }
    fn max_globals(&self) -> usize {
        4
    }
    fn max_types(&self) -> usize {
        6
    }
    fn max_funcs(&self) -> usize {
        5
    }
    fn max_exports(&self) -> usize {
        5
    }
    fn max_element_segments(&self) -> usize {
        3
    }
    fn max_data_segments(&self) -> usize {
        3
    }
    fn max_data_elements(&self) -> usize {
        10
    }
    fn max_init_table_size(&self) -> u32 {
        100
    }
    fn bulk_memory_enabled(&self) -> bool {
        true
    }
    fn reference_types_enabled(&self) -> bool {
        true
    }
    fn allow_function_blocktype(&self) -> bool {
        true
    }
}

#[derive(Default, Clone)]
struct Wide;

impl Config for Wide {
    fn min_uleb_size(&self) -> u8 {
        5
    }
    fn min_types(&self) -> usize {
        1
    }
    fn max_types(&self) -> usize {
        1
    }
    fn max_parameters(&self) -> usize {
        0
    }
}

#[test]
fn empty_module_is_the_header() {
    let m = empty_module();
    assert_eq!(m.to_bytes(), vec![0x00, 0x61, 0x73, 0x6D, 0x01, 0x00, 0x00, 0x00]);
}

#[test]
fn one_function_matches_the_reference_encoder() {
    let mut m = empty_module();
    m.initial_sections.push(InitialSection::Type(vec![FuncType {
        params: vec![ValType::I32, ValType::I32],
        result: Some(ValType::I32),
    }]));
    m.funcs.push(0);
    m.num_defined_funcs = 1;
    m.exports.push(("f".to_string(), Export::Func(0)));
    m.code.push(Code {
        locals: vec![],
        instructions: Instructions::Generated(vec![
            Instruction::LocalGet(0),
            Instruction::LocalGet(1),
            Instruction::I32Add,
        ]),
    });
    assert_eq!(m.to_bytes(), reference_bytes(&m));
    assert_eq!(
        m.to_bytes(),
        vec![
            0x00, 0x61, 0x73, 0x6D, 0x01, 0x00, 0x00, 0x00, // header
            0x01, 0x07, 0x01, 0x60, 0x02, 0x7F, 0x7F, 0x01, 0x7F, // type section
            0x03, 0x02, 0x01, 0x00, // function section
            0x07, 0x05, 0x01, 0x01, 0x66, 0x00, 0x00, // export section
            0x0A, 0x09, 0x01, 0x07, 0x00, 0x20, 0x00, 0x20, 0x01, 0x6A, 0x0B, // code section
        ]
    );
    assert_eq!(m.exports(), vec![&"f".to_string()]);
}

#[test]
fn no_global_section_without_a_defined_global() {
    // A global that the module does not define itself leaves no section.
    let mut m = empty_module();
    m.globals.push(GlobalType { val_type: ValType::I32, mutable: false });
    assert_eq!(m.encode(), Some(b"\0asm\x01\0\0\0".to_vec()));
    assert_eq!(m.encode().unwrap(), reference_bytes(&m));
    // One defined global gives the section: id 6, size 6, one entry.
    m.defined_globals.push((0, Instruction::I32Const(7)));
    let bytes = m.encode().unwrap();
    assert_eq!(&bytes[8..], &[0x06, 0x06, 0x01, 0x7F, 0x00, 0x41, 0x07, 0x0B]);
    assert_eq!(bytes, reference_bytes(&m));
}

#[test]
fn exports_lists_the_functions_only() {
    let mut m = empty_module();
    m.exports.push(("memory".to_string(), Export::Memory(0)));
    m.exports.push(("run".to_string(), Export::Func(1)));
    m.exports.push(("table".to_string(), Export::Table(0)));
    m.exports.push(("counter".to_string(), Export::Global(0)));
    m.exports.push(("init".to_string(), Export::Func(0)));
    assert_eq!(m.exports(), vec![&"run".to_string(), &"init".to_string()]);
    assert_eq!(empty_module().exports(), Vec::<&String>::new());
}

#[test]
fn every_section_matches_the_reference_encoder() {
    let mut m = empty_module();
    m.knobs.bulk_memory_enabled = true;
    m.initial_sections.push(InitialSection::Type(vec![
        FuncType { params: vec![], result: None },
        FuncType { params: vec![ValType::I64, ValType::FuncRef], result: Some(ValType::I32) },
    ]));
    m.initial_sections.push(InitialSection::Import(vec![
        Import {
            module: "host".to_string(),
            name: Some("log".to_string()),
            desc: FunctionType::Func(1),
        },
        Import { module: "host".to_string(), name: None, desc: FunctionType::Func(0) },
    ]));
    m.funcs = vec![1, 0, 0, 1];
    m.num_defined_funcs = 2;
    m.tables = vec![
        TableType { elem_ty: ValType::FuncRef, limits: Limits { min: 1, max: None } },
        TableType { elem_ty: ValType::ExternRef, limits: Limits { min: 2, max: Some(300) } },
    ];
    m.num_defined_tables = 2;
    m.memories = vec![
        MemoryType { limits: Limits { min: 1, max: Some(65536) } },
        MemoryType { limits: Limits { min: 0, max: None } },
    ];
    m.num_defined_memories = 2;
    m.globals = vec![
        GlobalType { val_type: ValType::I32, mutable: true },
        GlobalType { val_type: ValType::I64, mutable: false },
        GlobalType { val_type: ValType::FuncRef, mutable: false },
    ];
    m.defined_globals = vec![
        (0, Instruction::I32Const(-1)),
        (1, Instruction::I64Const(i64::MIN)),
        (2, Instruction::RefFunc(3)),
    ];
    m.exports = vec![
        ("f".to_string(), Export::Func(2)),
        ("t".to_string(), Export::Table(1)),
        ("m\u{e9}moire".to_string(), Export::Memory(0)),
        ("g".to_string(), Export::Global(2)),
    ];
    m.start = Some(2);
    m.elems = vec![
        ElementSegment {
            kind: ElementKind::Active { table: None, offset: Instruction::I32Const(0) },
            ty: ValType::FuncRef,
            items: Elements::Functions(vec![0, 1, 200]),
        },
        ElementSegment {
            kind: ElementKind::Active { table: Some(1), offset: Instruction::I32Const(64) },
            ty: ValType::ExternRef,
            items: Elements::Expressions(vec![None, None]),
        },
        ElementSegment {
            kind: ElementKind::Passive,
            ty: ValType::FuncRef,
            items: Elements::Expressions(vec![Some(2), None]),
        },
        ElementSegment {
            kind: ElementKind::Declared,
            ty: ValType::FuncRef,
            items: Elements::Functions(vec![3]),
        },
    ];
    m.code = vec![
        Code {
            locals: vec![ValType::I32, ValType::I64, ValType::ExternRef],
            instructions: Instructions::Generated(vec![
                Instruction::Block(BlockType::Empty),
                Instruction::Loop(BlockType::Result(ValType::I32)),
                Instruction::I32Const(64),
                Instruction::If(BlockType::FuncType(1)),
                Instruction::Else,
                Instruction::End,
                Instruction::BrTable(vec![0, 1, 130], 2),
                Instruction::End,
                Instruction::End,
                Instruction::I32Load(MemArg { offset: 70000, align: 2, memory_index: 0 }),
                Instruction::I64Store32(MemArg { offset: 3, align: 1, memory_index: 1 }),
                Instruction::MemoryInit { mem: 1, data: 2 },
                Instruction::MemoryCopy { src: 1, dst: 0 },
                Instruction::TableInit { segment: 3, table: 1 },
                Instruction::TableCopy { src: 1, dst: 0 },
                Instruction::CallIndirect { ty: 1, table: 0 },
                Instruction::TypedSelect(ValType::FuncRef),
                Instruction::RefNull(ValType::ExternRef),
                Instruction::I64Const(-65),
                Instruction::I64Const(64),
                Instruction::I32Const(i32::MIN),
                Instruction::I32Const(i32::MAX),
            ]),
        },
        Code { locals: vec![], instructions: Instructions::Arbitrary(vec![0x00, 0xFF, 0x0B]) },
    ];
    m.data = vec![
        DataSegment {
            kind: DataSegmentKind::Active { memory_index: 0, offset: Instruction::I32Const(8) },
            init: vec![1, 2, 3],
        },
        DataSegment {
            kind: DataSegmentKind::Active {
                memory_index: 1,
                offset: Instruction::I32Const(-8),
            },
            init: vec![],
        },
        DataSegment { kind: DataSegmentKind::Passive, init: vec![0; 200] },
    ];
    assert_eq!(m.to_bytes(), reference_bytes(&m));
}

#[test]
fn every_instruction_matches_the_reference_encoder() {
    let m8 = MemArg { offset: 0, align: 0, memory_index: 0 };
    let far = MemArg { offset: u32::MAX, align: 3, memory_index: 7 };
    let instrs = vec![
        Instruction::Unreachable,
        Instruction::Nop,
        Instruction::Br(0),
        Instruction::BrIf(1000),
        Instruction::BrTable(vec![], 0),
        Instruction::Return,
        Instruction::Call(u32::MAX),
        Instruction::Drop,
        Instruction::Select,
        Instruction::LocalGet(127),
        Instruction::LocalSet(128),
        Instruction::LocalTee(16384),
        Instruction::GlobalGet(1),
        Instruction::GlobalSet(2),
        Instruction::I32Load(m8),
        Instruction::I64Load(far),
        Instruction::I32Load8_S(m8),
        Instruction::I32Load8_U(m8),
        Instruction::I32Load16_S(m8),
        Instruction::I32Load16_U(m8),
        Instruction::I64Load8_S(m8),
        Instruction::I64Load8_U(m8),
        Instruction::I64Load16_S(m8),
        Instruction::I64Load16_U(m8),
        Instruction::I64Load32_S(m8),
        Instruction::I64Load32_U(far),
        Instruction::I32Store(m8),
        Instruction::I64Store(m8),
        Instruction::I32Store8(m8),
        Instruction::I32Store16(m8),
        Instruction::I64Store8(m8),
        Instruction::I64Store16(m8),
        Instruction::I64Store32(far),
        Instruction::MemorySize(0),
        Instruction::MemoryGrow(1),
        Instruction::DataDrop(3),
        Instruction::MemoryFill(0),
        Instruction::I32Const(0),
        Instruction::I32Const(63),
        Instruction::I32Const(-64),
        Instruction::I32Const(-65),
        Instruction::I64Const(0),
        Instruction::I64Const(i64::MAX),
        Instruction::I32Eqz,
        Instruction::I32Eq,
        Instruction::I32Neq,
        Instruction::I32LtS,
        Instruction::I32LtU,
        Instruction::I32GtS,
        Instruction::I32GtU,
        Instruction::I32LeS,
        Instruction::I32LeU,
        Instruction::I32GeS,
        Instruction::I32GeU,
        Instruction::I64Eqz,
        Instruction::I64Eq,
        Instruction::I64Neq,
        Instruction::I64LtS,
        Instruction::I64LtU,
        Instruction::I64GtS,
        Instruction::I64GtU,
        Instruction::I64LeS,
        Instruction::I64LeU,
        Instruction::I64GeS,
        Instruction::I64GeU,
        Instruction::I32Clz,
        Instruction::I32Ctz,
        Instruction::I32Popcnt,
        Instruction::I32Add,
        Instruction::I32Sub,
        Instruction::I32Mul,
        Instruction::I32DivS,
        Instruction::I32DivU,
        Instruction::I32RemS,
        Instruction::I32RemU,
        Instruction::I32And,
        Instruction::I32Or,
        Instruction::I32Xor,
        Instruction::I32Shl,
        Instruction::I32ShrS,
        Instruction::I32ShrU,
        Instruction::I32Rotl,
        Instruction::I32Rotr,
        Instruction::I64Clz,
        Instruction::I64Ctz,
        Instruction::I64Popcnt,
        Instruction::I64Add,
        Instruction::I64Sub,
        Instruction::I64Mul,
        Instruction::I64DivS,
        Instruction::I64DivU,
        Instruction::I64RemS,
        Instruction::I64RemU,
        Instruction::I64And,
        Instruction::I64Or,
        Instruction::I64Xor,
        Instruction::I64Shl,
        Instruction::I64ShrS,
        Instruction::I64ShrU,
        Instruction::I64Rotl,
        Instruction::I64Rotr,
        Instruction::I32WrapI64,
        Instruction::I64ExtendI32S,
        Instruction::I64ExtendI32U,
        Instruction::I64Extend32S,
        Instruction::RefIsNull,
        Instruction::RefFunc(5),
        Instruction::ElemDrop { segment: 1 },
        Instruction::TableFill { table: 2 },
        Instruction::TableSet { table: 3 },
        Instruction::TableGet { table: 4 },
        Instruction::TableGrow { table: 5 },
        Instruction::TableSize { table: 6 },
    ];
    let mut m = empty_module();
    m.initial_sections.push(InitialSection::Type(vec![FuncType { params: vec![], result: None }]));
    m.funcs.push(0);
    m.num_defined_funcs = 1;
    m.code.push(Code { locals: vec![], instructions: Instructions::Generated(instrs) });
    assert_eq!(m.to_bytes(), reference_bytes(&m));
}

#[test]
fn generated_modules_match_the_reference_encoder() {
    for seed in 0..30usize {
        let entropy = pattern(900 + 41 * seed, 2 * seed + 1, 5 * seed);
        let m = Module::generate(&entropy);
        assert_eq!(m.to_bytes(), reference_bytes(&m.inner), "seed {}", seed);
        let m = ConfiguredModule::generate(Everything, &entropy).unwrap();
        assert_eq!(m.to_bytes(), reference_bytes(&m), "seed {}", seed);
    }
}

#[test]
fn minimum_width_pads_the_type_section() {
    let m = ConfiguredModule::generate(Wide, &[0x00]).unwrap();
    let bytes = m.to_bytes();
    assert_eq!(&bytes[..8], &[0x00, 0x61, 0x73, 0x6D, 0x01, 0x00, 0x00, 0x00]);
    // The type section: its id, its size in five bytes, and the count of
    // one in five bytes.
    assert_eq!(bytes[8], 0x01);
    assert_eq!(&bytes[9..14], &[0x90, 0x80, 0x80, 0x80, 0x00]);
    assert_eq!(&bytes[14..19], &[0x81, 0x80, 0x80, 0x80, 0x00]);
    // The one type: () -> (), with both list lengths in five bytes.
    assert_eq!(bytes[19], 0x60);
    assert_eq!(&bytes[20..25], &[0x80, 0x80, 0x80, 0x80, 0x00]);
    assert_eq!(&bytes[25..30], &[0x80, 0x80, 0x80, 0x80, 0x00]);
}

#[test]
fn minimum_width_leaves_wider_integers_alone() {
    let mut m = empty_module();
    m.knobs.min_uleb_size = 2;
    m.initial_sections.push(InitialSection::Type(vec![FuncType { params: vec![], result: None }]));
    m.funcs.push(0);
    m.num_defined_funcs = 1;
    m.code.push(Code {
        locals: vec![],
        instructions: Instructions::Generated(vec![
            Instruction::Br(1),
            Instruction::Br(300),
            Instruction::Br(100_000),
            Instruction::I32Const(1),
        ]),
    });
    let bytes = m.to_bytes();
    let body = [
        0x80, 0x00, // no locals
        0x0C, 0x81, 0x00, // br 1, padded to two bytes
        0x0C, 0xAC, 0x02, // br 300 has two bytes already
        0x0C, 0xA0, 0x8D, 0x06, // br 100000 has three
        0x41, 0x01, // signed integers are not padded
        0x0B,
    ];
    assert_eq!(&bytes[bytes.len() - body.len()..], &body);
}

#[test]
fn leb128_encodings() {
    let mut out = Vec::new();
    wasm_smith::leb::write_uleb(&mut out, 0, 1);
    wasm_smith::leb::write_uleb(&mut out, 127, 1);
    wasm_smith::leb::write_uleb(&mut out, 128, 1);
    wasm_smith::leb::write_uleb(&mut out, 624485, 0);
    wasm_smith::leb::write_uleb(&mut out, 1, 5);
    wasm_smith::leb::write_uleb(&mut out, u32::MAX as u128, 3);
    assert_eq!(
        out,
        vec![
            0x00, 0x7F, 0x80, 0x01, 0xE5, 0x8E, 0x26, 0x81, 0x80, 0x80, 0x80, 0x00, 0xFF, 0xFF,
            0xFF, 0xFF, 0x0F,
        ]
    );
    let mut out = Vec::new();
    wasm_smith::leb::write_sleb(&mut out, 0);
    wasm_smith::leb::write_sleb(&mut out, -1);
    wasm_smith::leb::write_sleb(&mut out, 63);
    wasm_smith::leb::write_sleb(&mut out, 64);
    wasm_smith::leb::write_sleb(&mut out, -64);
    wasm_smith::leb::write_sleb(&mut out, -65);
    wasm_smith::leb::write_sleb(&mut out, -123456);
    wasm_smith::leb::write_sleb(&mut out, i64::MIN);
    assert_eq!(
        out,
        vec![
            0x00, 0x7F, 0x3F, 0xC0, 0x00, 0x40, 0xBF, 0x7F, 0xC0, 0xBB, 0x78, 0x80, 0x80, 0x80,
            0x80, 0x80, 0x80, 0x80, 0x80, 0x80, 0x7F,
        ]
    );
}

#[test]
fn modules_that_cannot_be_encoded_are_told_apart() {
    let mut m = empty_module();
    assert_eq!(m.encode(), Some(m.to_bytes()));
    m.num_defined_tables = 1;
    assert_eq!(m.encode(), None);
    m.num_defined_tables = 0;
    m.globals.push(GlobalType { val_type: ValType::I32, mutable: false });
    m.defined_globals.push((1, Instruction::I32Const(0)));
    assert_eq!(m.encode(), None);
    m.defined_globals[0].0 = 0;
    assert_eq!(m.encode(), Some(reference_bytes(&m)));
}

/// Reads the unsigned integer at the start of the bytes: its value and
/// the number of bytes it takes.
fn read_uleb(bytes: &[u8]) -> (u64, usize) {
    let mut value = 0u64;
    let mut n = 0;
    loop {
        let b = bytes[n];
        value |= ((b & 0x7F) as u64) << (7 * n);
        n += 1;
        if b & 0x80 == 0 {
            return (value, n);
        }
    }
}

#[derive(Default, Clone)]
struct ThreeWide;

impl Config for ThreeWide {
    fn min_uleb_size(&self) -> u8 {
        3
    }
    fn min_types(&self) -> usize {
        1
    }
    fn min_memories(&self) -> u32 {
        1
    }
    fn max_globals(&self) -> usize {
        3
    }
}

#[test]
fn sections_read_back_with_the_minimum_width() {
    for seed in 0..20usize {
        let entropy = pattern(400 + 41 * seed, 2 * seed + 1, 5 * seed);
        let m = ConfiguredModule::generate(ThreeWide, &entropy).unwrap();
        let bytes = m.to_bytes();
        let mut at = 8;
        let mut ids = Vec::new();
        while at < bytes.len() {
            ids.push(bytes[at]);
            let (size, width) = read_uleb(&bytes[at + 1..]);
            assert!(width >= 3);
            let payload = at + 1 + width;
            if bytes[at] != 8 {
                // Every section but the start section opens with a count.
                let (_, count_width) = read_uleb(&bytes[payload..]);
                assert!(count_width >= 3);
            }
            at = payload + size as usize;
        }
        // The sections fill the module exactly, in the order of their ids;
        // the data count section, with the id 12, stands before the code.
        assert_eq!(at, bytes.len());
        let place = |id: &u8| match *id {
            12 => 10,
            10 | 11 => *id + 1,
            _ => *id,
        };
        let order: Vec<u8> = ids.iter().map(place).collect();
        let mut sorted = order.clone();
        sorted.sort();
        sorted.dedup();
        assert_eq!(order, sorted);
        assert!(ids.contains(&1));
    }
}

#[test]
fn unsigned_integers_read_back() {
    let cases =
        [(0u64, 1u8), (1, 5), (127, 2), (128, 1), (16383, 1), (16384, 4), (u32::MAX as u64, 1)];
    for (n, min) in cases {
        let mut out = Vec::new();
        wasm_smith::leb::write_uleb(&mut out, n as u128, min);
        out.push(0xFF);
        let (value, width) = read_uleb(&out);
        assert_eq!(value, n);
        assert_eq!(width, out.len() - 1);
        let shortest = (1..).find(|w| n < 1u64 << (7 * w)).unwrap();
        assert_eq!(width, shortest.max(min as usize));
    }
}

#[test]
fn an_encoded_module_reads_back_as_it_is() {
    for seed in 0..10usize {
        let entropy = pattern(300 + 41 * seed, 2 * seed + 1, 5 * seed);
        let bytes = Module::generate(&entropy).to_bytes();
        assert_eq!(&*wasm_smith::parse_bytes(&bytes).unwrap(), &bytes[..]);
    }
}

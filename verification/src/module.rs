//! The description of a whole module, and its view.

use crate::config::{Config, DefaultConfig, Knobs, KnobsView};
use crate::types::{
    seq_view, Export, FuncType, FuncTypeView, FunctionType, GlobalType, Instruction,
    InstructionView, MemoryType, TableType, ValType,
};
use vstd::prelude::*;

verus! {

/// An import: the host module and the field it is taken from, and what it
/// provides.
#[derive(Debug)]
pub struct Import {
    pub module: String,
    pub name: Option<String>,
    pub desc: FunctionType,
}

/// The view of an [`Import`].
pub struct ImportView {
    pub module: Seq<char>,
    pub name: Option<Seq<char>>,
    pub desc: FunctionType,
}

impl View for Import {
    type V = ImportView;

    open spec fn view(&self) -> ImportView {
        ImportView {
            module: self.module@,
            name: match self.name {
                Some(n) => Some(n@),
                None => None,
            },
            desc: self.desc,
        }
    }
}

/// One of the sections that open a module: types or imports.
#[derive(Debug)]
pub enum InitialSection {
    Type(Vec<FuncType>),
    Import(Vec<Import>),
}

/// The view of an [`InitialSection`].
pub enum InitialSectionView {
    Type(Seq<FuncTypeView>),
    Import(Seq<ImportView>),
}

impl View for InitialSection {
    type V = InitialSectionView;

    open spec fn view(&self) -> InitialSectionView {
        match *self {
            InitialSection::Type(types) => InitialSectionView::Type(seq_view(types@)),
            InitialSection::Import(imports) => InitialSectionView::Import(seq_view(imports@)),
        }
    }
}

/// The items of an element segment: function indices, or expressions that
/// are each a reference to a function or null.
#[derive(Debug)]
pub enum Elements {
    Functions(Vec<u32>),
    Expressions(Vec<Option<u32>>),
}

/// The view of [`Elements`].
pub enum ElementsView {
    Functions(Seq<u32>),
    Expressions(Seq<Option<u32>>),
}

impl View for Elements {
    type V = ElementsView;

    open spec fn view(&self) -> ElementsView {
        match *self {
            Elements::Functions(fs) => ElementsView::Functions(fs@),
            Elements::Expressions(es) => ElementsView::Expressions(es@),
        }
    }
}

impl ElementsView {
    /// The number of items.
    pub open spec fn len(self) -> nat {
        match self {
            ElementsView::Functions(fs) => fs.len(),
            ElementsView::Expressions(es) => es.len(),
        }
    }
}

/// How an element segment is used.
#[derive(Debug)]
pub enum ElementKind {
    /// Copied into a table at instantiation, at the offset that the
    /// instruction computes. No table index stands for table zero.
    Active { table: Option<u32>, offset: Instruction },
    /// Available to `table.init`.
    Passive,
    /// Only declares the functions it lists for `ref.func`.
    Declared,
}

/// The view of an [`ElementKind`].
pub enum ElementKindView {
    Active { table: Option<u32>, offset: InstructionView },
    Passive,
    Declared,
}

impl View for ElementKind {
    type V = ElementKindView;

    open spec fn view(&self) -> ElementKindView {
        match *self {
            ElementKind::Active { table, offset } => ElementKindView::Active {
                table,
                offset: offset@,
            },
            ElementKind::Passive => ElementKindView::Passive,
            ElementKind::Declared => ElementKindView::Declared,
        }
    }
}

/// An element segment.
#[derive(Debug)]
pub struct ElementSegment {
    pub kind: ElementKind,
    pub ty: ValType,
    pub items: Elements,
}

/// The view of an [`ElementSegment`].
pub struct ElementSegmentView {
    pub kind: ElementKindView,
    pub ty: ValType,
    pub items: ElementsView,
}

impl View for ElementSegment {
    type V = ElementSegmentView;

    open spec fn view(&self) -> ElementSegmentView {
        ElementSegmentView { kind: self.kind@, ty: self.ty, items: self.items@ }
    }
}

/// How a data segment is used.
#[derive(Debug)]
pub enum DataSegmentKind {
    /// Copied into a memory at instantiation, at the offset that the
    /// instruction computes.
    Active { memory_index: u32, offset: Instruction },
    /// Available to `memory.init`.
    Passive,
}

/// The view of a [`DataSegmentKind`].
pub enum DataSegmentKindView {
    Active { memory_index: u32, offset: InstructionView },
    Passive,
}

impl View for DataSegmentKind {
    type V = DataSegmentKindView;

    open spec fn view(&self) -> DataSegmentKindView {
        match *self {
            DataSegmentKind::Active { memory_index, offset } => DataSegmentKindView::Active {
                memory_index,
                offset: offset@,
            },
            DataSegmentKind::Passive => DataSegmentKindView::Passive,
        }
    }
}

/// A data segment.
#[derive(Debug)]
pub struct DataSegment {
    pub kind: DataSegmentKind,
    pub init: Vec<u8>,
}

/// The view of a [`DataSegment`].
pub struct DataSegmentView {
    pub kind: DataSegmentKindView,
    pub init: Seq<u8>,
}

impl View for DataSegment {
    type V = DataSegmentView;

    open spec fn view(&self) -> DataSegmentView {
        DataSegmentView { kind: self.kind@, init: self.init@ }
    }
}

/// The instructions of a function body.
#[derive(Debug)]
pub enum Instructions {
    /// Instructions that the generator chose, without the body's last
    /// `End`.
    Generated(Vec<Instruction>),
    /// Bytes that are written out as they are.
    Arbitrary(Vec<u8>),
}

/// The view of [`Instructions`].
pub enum InstructionsView {
    Generated(Seq<InstructionView>),
    Arbitrary(Seq<u8>),
}

impl View for Instructions {
    type V = InstructionsView;

    open spec fn view(&self) -> InstructionsView {
        match *self {
            Instructions::Generated(instrs) => InstructionsView::Generated(seq_view(instrs@)),
            Instructions::Arbitrary(bytes) => InstructionsView::Arbitrary(bytes@),
        }
    }
}

/// The body of a defined function: the locals it declares besides its
/// parameters, and its instructions.
#[derive(Debug)]
pub struct Code {
    pub locals: Vec<ValType>,
    pub instructions: Instructions,
}

/// The view of a [`Code`].
pub struct CodeView {
    pub locals: Seq<ValType>,
    pub instructions: InstructionsView,
}

impl View for Code {
    type V = CodeView;

    open spec fn view(&self) -> CodeView {
        CodeView { locals: self.locals@, instructions: self.instructions@ }
    }
}

/// A defined global: its index among the globals, and the instruction that
/// computes its initial value.
pub open spec fn defined_global_view(g: (u32, Instruction)) -> (u32, InstructionView) {
    (g.0, g.1@)
}

/// An export: its name and what it refers to.
pub open spec fn export_view(e: (String, Export)) -> (Seq<char>, Export) {
    (e.0@, e.1)
}

/// The views of defined globals.
pub open spec fn defined_globals_view(v: Seq<(u32, Instruction)>) -> Seq<(u32, InstructionView)> {
    Seq::new(v.len(), |i: int| defined_global_view(v[i]))
}

/// The views of exports.
pub open spec fn exports_view(v: Seq<(String, Export)>) -> Seq<(Seq<char>, Export)> {
    Seq::new(v.len(), |i: int| export_view(v[i]))
}

/// A module generated under the configuration `C`.
///
/// Each index space lists the imported items first and the defined ones
/// after them; `num_defined_funcs`, `num_defined_tables` and
/// `num_defined_memories` say how many of the last items are defined.
#[derive(Debug)]
pub struct ConfiguredModule<C: Config> {
    pub config: C,
    /// The knobs of `config` as they were read when generation started.
    pub knobs: Knobs,
    pub initial_sections: Vec<InitialSection>,
    /// The type index of every function.
    pub funcs: Vec<u32>,
    pub tables: Vec<TableType>,
    pub memories: Vec<MemoryType>,
    pub globals: Vec<GlobalType>,
    pub defined_globals: Vec<(u32, Instruction)>,
    pub exports: Vec<(String, Export)>,
    pub start: Option<u32>,
    pub elems: Vec<ElementSegment>,
    /// The body of every defined function, in order.
    pub code: Vec<Code>,
    pub data: Vec<DataSegment>,
    pub num_defined_funcs: usize,
    pub num_defined_tables: usize,
    pub num_defined_memories: usize,
}

/// The view of a [`ConfiguredModule`]: all of it but the configuration
/// value itself.
pub struct ModuleView {
    pub knobs: KnobsView,
    pub initial_sections: Seq<InitialSectionView>,
    pub funcs: Seq<u32>,
    pub tables: Seq<TableType>,
    pub memories: Seq<MemoryType>,
    pub globals: Seq<GlobalType>,
    pub defined_globals: Seq<(u32, InstructionView)>,
    pub exports: Seq<(Seq<char>, Export)>,
    pub start: Option<u32>,
    pub elems: Seq<ElementSegmentView>,
    pub code: Seq<CodeView>,
    pub data: Seq<DataSegmentView>,
    pub num_defined_funcs: usize,
    pub num_defined_tables: usize,
    pub num_defined_memories: usize,
}

impl<C: Config> View for ConfiguredModule<C> {
    type V = ModuleView;

    open spec fn view(&self) -> ModuleView {
        ModuleView {
            knobs: self.knobs@,
            initial_sections: seq_view(self.initial_sections@),
            funcs: self.funcs@,
            tables: self.tables@,
            memories: self.memories@,
            globals: self.globals@,
            defined_globals: defined_globals_view(self.defined_globals@),
            exports: exports_view(self.exports@),
            start: self.start,
            elems: seq_view(self.elems@),
            code: seq_view(self.code@),
            data: seq_view(self.data@),
            num_defined_funcs: self.num_defined_funcs,
            num_defined_tables: self.num_defined_tables,
            num_defined_memories: self.num_defined_memories,
        }
    }
}

/// The types that a run of initial sections declares, in index order.
pub open spec fn section_types(sections: Seq<InitialSectionView>) -> Seq<FuncTypeView>
    decreases sections.len(),
{
    if sections.len() == 0 {
        Seq::empty()
    } else {
        section_types(sections.drop_last()) + match sections.last() {
            InitialSectionView::Type(types) => types,
            InitialSectionView::Import(_) => Seq::empty(),
        }
    }
}

/// The imports that a run of initial sections declares, in order.
pub open spec fn section_imports(sections: Seq<InitialSectionView>) -> Seq<ImportView>
    decreases sections.len(),
{
    if sections.len() == 0 {
        Seq::empty()
    } else {
        section_imports(sections.drop_last()) + match sections.last() {
            InitialSectionView::Type(_) => Seq::empty(),
            InitialSectionView::Import(imports) => imports,
        }
    }
}

impl ModuleView {
    /// The type section's entries, in index order.
    pub open spec fn types(self) -> Seq<FuncTypeView> {
        section_types(self.initial_sections)
    }

    /// The imports, in order.
    pub open spec fn imports(self) -> Seq<ImportView> {
        section_imports(self.initial_sections)
    }

    /// Whether every defined global is one of the globals.
    pub open spec fn globals_listed(self) -> bool {
        forall|i: int|
            0 <= i < self.defined_globals.len() ==> (#[trigger] self.defined_globals[i]).0
                < self.globals.len()
    }

    /// What the encoder relies on: the defined items are a tail of their
    /// index space, and every defined global is one of the globals.
    pub open spec fn encodable(self) -> bool {
        &&& self.num_defined_funcs <= self.funcs.len()
        &&& self.num_defined_tables <= self.tables.len()
        &&& self.num_defined_memories <= self.memories.len()
        &&& self.globals_listed()
    }
}

/// A module generated under the default configuration.
#[derive(Debug)]
pub struct Module {
    pub inner: ConfiguredModule<DefaultConfig>,
}

impl View for Module {
    type V = ModuleView;

    open spec fn view(&self) -> ModuleView {
        self.inner@
    }
}

} // verus!

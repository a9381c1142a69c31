//! A generator of WebAssembly modules that are valid by construction, and the
//! binary encoder for the modules it describes.
//!
//! [`ConfiguredModule::generate`] makes a module of a configuration and of
//! entropy, a run of arbitrary bytes; [`ConfiguredModule::to_bytes`] encodes
//! it. The same configuration and the same entropy give the same module.

pub mod binary;
pub mod builder;
pub mod config;
pub mod encode;
pub mod entropy;
pub mod exports;
pub mod families;
pub mod generate;
pub mod inspect;
pub mod leb;
pub mod module;
pub mod segments;
pub mod selector;
pub mod stages;
pub mod theorems;
pub mod types;
pub mod typing;
pub mod valid;
pub mod validator;
pub mod wat;

pub use crate::config::{
    Config, ConfigError, DefaultConfig, HostFunction, InterpreterConfig, Knobs,
};
pub use crate::entropy::Entropy;
pub use crate::module::{
    Code, ConfiguredModule, DataSegment, DataSegmentKind, ElementKind, ElementSegment, Elements,
    Import, InitialSection, Instructions, Module,
};
pub use crate::types::{
    BlockType, Export, FuncType, FunctionType, GlobalType, Instruction, Limits, MemArg,
    MemoryType, TableType, ValType,
};
pub use crate::validator::{validate_body, Context, Validator};
pub use crate::wat::{parse_bytes, parse_str, ErrorKind, WatError};

//! Glue generation for WebAssembly modules compiled ahead of time: the C
//! declarations, data and initialisation that a natively compiled module
//! expects from its surroundings.
pub mod code_builder;
pub mod context;
pub mod emit;
pub mod glue;
pub mod instance;
pub mod materialize;
pub mod module;
pub mod naming;
pub mod sections;
pub mod text;

//! Firmware toolchain for a trackpoint keyboard controller: an SN8 instruction-set
//! model, assembler, disassembler, assembly formatter, diff applier, template
//! renderer, installer blob codec, and the pipeline that chains them into one
//! patched firmware image.
pub mod assembler;
pub mod diff;
pub mod disasm;
pub mod format;
pub mod installer;
pub mod isa;
pub mod models;
pub mod parser;
pub mod patch;
pub mod table;
pub mod template;
pub mod text;
pub mod user_config;

//! Inspection of ELF and Mach-O executables: format detection, structural
//! analysis, and the heuristics that locate separate debug symbols.

pub mod format;
pub mod note;
pub mod text;
pub mod paths;
pub mod symbol_finder;
pub mod binary;
pub mod elf;
pub mod macho;
pub mod debuginfod;

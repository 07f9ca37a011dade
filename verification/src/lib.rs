//! Verified core of the Stellar compiler: source files and locations,
//! diagnostics, string interning, lexing, syntax trees and their lowering.

pub mod ast;
pub mod database;
pub mod diagnostic;
pub mod diagnostics;
pub mod english;
pub mod files;
pub mod hir;
pub mod in_memory_file;
pub mod in_memory_file_storage;
pub mod interner;
pub mod lexer;
pub mod likely;
pub mod lines;
pub mod location;
pub mod log;
pub mod name_resolution;
pub mod parser;
pub mod paths;
pub mod project_path;
pub mod lowering;
pub mod manifest;
pub mod source_file;
pub mod term;
pub mod text;
pub mod thir;
pub mod token;

//! An embeddable TypeScript/JavaScript transpiler: one file in, plain
//! JavaScript out, through parse, semantic analysis, transform and codegen.

pub mod boundary;
pub mod transpile;

pub use boundary::Result;

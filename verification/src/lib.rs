//! A small ahead-of-time compiler: source text is scanned into tokens, parsed
//! into one syntax tree per statement, and each tree is turned into assembly
//! text for a machine with four scratch registers.

pub mod assembly;
pub mod scanner;
pub mod ast;
pub mod compiler;
pub mod text;

//! The pipeline from source text to assembly text.

use vstd::prelude::*;
use crate::assembly::registers::{all_free, RegisterError, RegisterIndex, Registers};
use crate::assembly::{
    cgadd, cgcomment, cgdiv, cgequal, cggreaterequal, cggreaterthan, cgglobsym, cglessequal,
    cglessthan, cgload, cgloadglob, cgmul, cgnotequal, cgpostamble, cgpreamble, cgprintint,
    cgstorglob, cgsub,
};
use crate::ast::{
    AbstractSyntaxTreeConstructNodeType, AbstractSyntaxTreeExpressionNodeType,
    AbstractSyntaxTreeLeafNodeType, AbstractSyntaxTreeNode,
};
use crate::compiler::code_generator::CodeGenerator;
use crate::compiler::generation::{compiled, generate, opening, statements_from, Target};
use crate::scanner::rules::stream_of;
use crate::scanner::{ScannerError, Token, TokenIterator, TokenView};

pub mod code_generator;
pub mod generation;
pub mod grammar;
pub mod guarantees;
pub mod nesting;

verus! {

/// Why a compilation was abandoned.
#[derive(Debug, PartialEq)]
pub enum Error {
    /// The source text holds something that is no token.
    Scanner(ScannerError),
    /// A token stands where the grammar does not allow it.
    UnexpectedToken(Token),
    /// The input ends where the grammar asks for a further token.
    UnexpectedEnd,
    /// A tree has a shape for which no code can be generated.
    UnhandledNode,
    /// An operand yields no value.
    MissingValue,
    /// The code generator broke the discipline of the register pool.
    Register(RegisterError),
}

/// An error as a mathematical value.
pub enum ErrorView {
    Scanner(ScannerError),
    UnexpectedToken(TokenView),
    UnexpectedEnd,
    UnhandledNode,
    MissingValue,
    Register(RegisterError),
}

impl View for Error {
    type V = ErrorView;

    open spec fn view(&self) -> ErrorView {
        match self {
            Error::Scanner(e) => ErrorView::Scanner(*e),
            Error::UnexpectedToken(token) => ErrorView::UnexpectedToken(token@),
            Error::UnexpectedEnd => ErrorView::UnexpectedEnd,
            Error::UnhandledNode => ErrorView::UnhandledNode,
            Error::MissingValue => ErrorView::MissingValue,
            Error::Register(e) => ErrorView::Register(*e),
        }
    }
}

/// The outcome of generating code for one tree, as a mathematical value.
pub open spec fn outcome_view(res: Result<Option<RegisterIndex>, Error>) -> Result<
    Option<RegisterIndex>,
    ErrorView,
> {
    match res {
        Ok(register) => Ok(register),
        Err(e) => Err(e@),
    }
}

/// Whether storage has been reserved for the global `name`.
fn is_reserved(globals: &Vec<String>, name: &String) -> (found: bool)
    ensures
        found == globals.deep_view().contains(name@),
{
    let mut i: usize = 0;
    while i < globals.len()
        invariant
            0 <= i <= globals.len(),
            forall|k: int| 0 <= k < i ==> globals.deep_view()[k] != name@,
        decreases globals.len() - i,
    {
        if globals[i] == *name {
            assert(globals.deep_view()[i as int] == name@);
            return true;
        }
        i = i + 1;
    }
    false
}

/// The code generator: from syntax trees to assembly text.
pub struct Compiler {}

impl Compiler {
    /// A code generator.
    pub fn new() -> Compiler {
        Compiler {  }
    }

    /// Appends to `w` the code for `ast`, taking registers from `registers`
    /// and recording in `globals` the variables that get storage. Returns
    /// the register that holds the value of `ast`, or `None` for a
    /// statement. On an error, `w` holds what was written up to it.
    pub fn interpret_ast_to_asm(
        &self,
        w: &mut String,
        registers: &mut Registers,
        globals: &mut Vec<String>,
        ast: AbstractSyntaxTreeNode,
    ) -> (res: Result<Option<RegisterIndex>, Error>)
        ensures
            ({
                let generated = generate(
                    ast@,
                    Target {
                        pool: old(registers)@,
                        globals: old(globals).deep_view(),
                        text: old(w)@,
                    },
                );
                &&& final(registers)@ == generated.target.pool
                &&& final(globals).deep_view() == generated.target.globals
                &&& final(w)@ == generated.target.text
                &&& outcome_view(res) == generated.result
            }),
            res matches Ok(Some(r)) ==> r.valid(),
        decreases ast,
    {
        match ast {
            AbstractSyntaxTreeNode::Leaf(AbstractSyntaxTreeLeafNodeType::U32(i)) => {
                match cgload(i, registers, w) {
                    Ok(r) => Ok(Some(r)),
                    Err(e) => Err(Error::Register(e)),
                }
            },
            AbstractSyntaxTreeNode::Leaf(
                AbstractSyntaxTreeLeafNodeType::Identifier(identifier),
            ) => {
                match cgloadglob(identifier.as_str(), registers, w) {
                    Ok(r) => Ok(Some(r)),
                    Err(e) => Err(Error::Register(e)),
                }
            },
            AbstractSyntaxTreeNode::Leaf(AbstractSyntaxTreeLeafNodeType::SemiColon) => Err(
                Error::UnhandledNode,
            ),
            AbstractSyntaxTreeNode::Construct(AbstractSyntaxTreeConstructNodeType::Print, left) => {
                match self.interpret_ast_to_asm(w, registers, globals, *left) {
                    Ok(Some(r)) => {
                        cgprintint(r, w);
                        Ok(None)
                    },
                    Ok(None) => Err(Error::MissingValue),
                    Err(e) => Err(e),
                }
            },
            AbstractSyntaxTreeNode::Construct(
                AbstractSyntaxTreeConstructNodeType::Declaration,
                left,
            ) => {
                match *left {
                    AbstractSyntaxTreeNode::Leaf(AbstractSyntaxTreeLeafNodeType::Identifier(_)) => {
                        Ok(None)
                    },
                    declared => match self.interpret_ast_to_asm(w, registers, globals, declared) {
                        Ok(_) => Ok(None),
                        Err(e) => Err(e),
                    },
                }
            },
            AbstractSyntaxTreeNode::Expression(
                AbstractSyntaxTreeExpressionNodeType::Assignment,
                left,
                right,
            ) => {
                match *left {
                    AbstractSyntaxTreeNode::Leaf(
                        AbstractSyntaxTreeLeafNodeType::Identifier(identifier),
                    ) => {
                        if !is_reserved(globals, &identifier) {
                            cgglobsym(identifier.as_str(), w);
                            let ghost before = globals.deep_view();
                            globals.push(identifier.clone());
                            assert(globals.deep_view() =~= before.push(identifier@));
                        }
                        match self.interpret_ast_to_asm(w, registers, globals, *right) {
                            Ok(Some(r)) => Ok(Some(cgstorglob(identifier.as_str(), r, w))),
                            Ok(None) => Err(Error::MissingValue),
                            Err(e) => Err(e),
                        }
                    },
                    _ => Err(Error::UnhandledNode),
                }
            },
            AbstractSyntaxTreeNode::Expression(op, left, right) => {
                let r1 = match self.interpret_ast_to_asm(w, registers, globals, *left) {
                    Ok(Some(r)) => r,
                    Ok(None) => {
                        return Err(Error::MissingValue);
                    },
                    Err(e) => {
                        return Err(e);
                    },
                };
                let r2 = match self.interpret_ast_to_asm(w, registers, globals, *right) {
                    Ok(Some(r)) => r,
                    Ok(None) => {
                        return Err(Error::MissingValue);
                    },
                    Err(e) => {
                        return Err(e);
                    },
                };
                let combined = match op {
                    AbstractSyntaxTreeExpressionNodeType::Add => cgadd(r1, r2, registers, w),
                    AbstractSyntaxTreeExpressionNodeType::Subtract => cgsub(r1, r2, registers, w),
                    AbstractSyntaxTreeExpressionNodeType::Multiply => cgmul(r1, r2, registers, w),
                    AbstractSyntaxTreeExpressionNodeType::Divide => cgdiv(r1, r2, registers, w),
                    AbstractSyntaxTreeExpressionNodeType::Equality => cgequal(
                        r1,
                        r2,
                        registers,
                        w,
                    ),
                    AbstractSyntaxTreeExpressionNodeType::NotEqual => cgnotequal(
                        r1,
                        r2,
                        registers,
                        w,
                    ),
                    AbstractSyntaxTreeExpressionNodeType::LessThan => cglessthan(
                        r1,
                        r2,
                        registers,
                        w,
                    ),
                    AbstractSyntaxTreeExpressionNodeType::GreaterThan => cggreaterthan(
                        r1,
                        r2,
                        registers,
                        w,
                    ),
                    AbstractSyntaxTreeExpressionNodeType::LessThanEqual => cglessequal(
                        r1,
                        r2,
                        registers,
                        w,
                    ),
                    _ => cggreaterequal(r1, r2, registers, w),
                };
                match combined {
                    Ok(r) => Ok(Some(r)),
                    Err(e) => Err(Error::Register(e)),
                }
            },
        }
    }

    /// Compiles `source` to assembly text: the preamble, the code of each
    /// statement in turn, each starting with every register free, and the
    /// postamble. The source is scanned and parsed one statement at a time,
    /// and the first error met on the way ends the compilation.
    pub fn compile(&self, source: Vec<char>) -> (res: Result<String, Error>)
        ensures
            match compiled(source@) {
                Ok(text) => res matches Ok(out) && out@ == text,
                Err(e) => res matches Err(error) && error@ == e,
            },
    {
        let mut parser = CodeGenerator::new(TokenIterator::new_iterator(source));
        let ghost stream = parser.stream();
        let mut out = String::new();
        let mut registers = Registers::new();
        let mut globals: Vec<String> = Vec::new();
        cgpreamble(&mut out);
        cgcomment(&mut out, "Starting users code");
        assert(out@ =~= opening().text);
        assert(globals.deep_view() =~= opening().globals);
        loop
            invariant
                parser.wf(),
                parser.stream() == stream,
                stream == stream_of(source@),
                0 <= parser.position() <= stream.tokens.len(),
                registers@ == all_free(),
                statements_from(
                    stream,
                    parser.position(),
                    Target { pool: all_free(), globals: globals.deep_view(), text: out@ },
                ) == statements_from(stream, 0, opening()),
            decreases stream.tokens.len() - parser.position(),
        {
            match parser.next() {
                None => {
                    cgcomment(&mut out, "Ending users code");
                    cgpostamble(&mut out);
                    return Ok(out);
                },
                Some(Err(e)) => {
                    return Err(e);
                },
                Some(Ok(code)) => {
                    match self.interpret_ast_to_asm(&mut out, &mut registers, &mut globals, code) {
                        Ok(_) => {},
                        Err(e) => {
                            return Err(e);
                        },
                    }
                    registers.free_all();
                },
            }
        }
    }
}

} // verus!

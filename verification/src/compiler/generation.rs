//! Code generation, as a function from a syntax tree to assembly text.

use vstd::prelude::*;
use crate::assembly::registers::{all_free, lowest_free, RegisterError, RegisterIndex};
use crate::assembly::{
    add_text, comment_text, compare_text, div_text, globsym_text, load_text, loadglob_text,
    mul_text, printint_text, storglob_text, sub_text, POSTAMBLE, PREAMBLE,
};
use crate::ast::{
    AbstractSyntaxTreeConstructNodeType, AbstractSyntaxTreeExpressionNodeType, LeafView, NodeView,
};
use crate::compiler::grammar::{lemma_statement_advances, next_statement, Step};
use crate::compiler::ErrorView;
use crate::scanner::rules::{stream_of, TokenStream};

verus! {

/// What code generation works on.
pub struct Target {
    /// The register pool: one flag per register, `true` for a free one.
    pub pool: Seq<bool>,
    /// The globals for which storage has been reserved, in the order of
    /// their first assignment.
    pub globals: Seq<Seq<char>>,
    /// The assembly text written so far.
    pub text: Seq<char>,
}

/// The outcome of generating code for one tree.
pub struct Generated {
    /// The target after the tree's code, or after the part of it that was
    /// written before an error.
    pub target: Target,
    /// The register that holds the tree's value, if it has one.
    pub result: Result<Option<RegisterIndex>, ErrorView>,
}

/// `target` with `text` appended to its assembly text.
pub open spec fn written(target: Target, text: Seq<char>) -> Target {
    Target { text: target.text + text, ..target }
}

/// Generation stops at `target` with `error`.
pub open spec fn failed(target: Target, error: ErrorView) -> Generated {
    Generated { target, result: Err(error) }
}

/// A value is loaded: the lowest free register `r` is taken and `text(r)`
/// is written.
pub open spec fn loaded(target: Target, text: spec_fn(RegisterIndex) -> Seq<char>) -> Generated {
    match lowest_free(target.pool) {
        Some(slot) => {
            let r = RegisterIndex(slot as u32);
            Generated {
                target: Target {
                    pool: target.pool.update(slot, false),
                    text: target.text + text(r),
                    ..target
                },
                result: Ok(Some(r)),
            }
        },
        None => failed(target, ErrorView::Register(RegisterError::OutOfRegisters)),
    }
}

/// The instruction that materialises the comparison `op`, if `op` is one.
pub open spec fn comparison_of(op: AbstractSyntaxTreeExpressionNodeType) -> Option<Seq<char>> {
    match op {
        AbstractSyntaxTreeExpressionNodeType::Equality => Some("sete"@),
        AbstractSyntaxTreeExpressionNodeType::NotEqual => Some("setne"@),
        AbstractSyntaxTreeExpressionNodeType::LessThan => Some("setl"@),
        AbstractSyntaxTreeExpressionNodeType::GreaterThan => Some("setg"@),
        AbstractSyntaxTreeExpressionNodeType::LessThanEqual => Some("setle"@),
        AbstractSyntaxTreeExpressionNodeType::GreaterThanEqual => Some("setge"@),
        _ => None,
    }
}

/// The text that combines `r1`, the left operand, and `r2`, the right one,
/// by the operator `op`.
pub open spec fn operation_text(
    op: AbstractSyntaxTreeExpressionNodeType,
    r1: RegisterIndex,
    r2: RegisterIndex,
) -> Seq<char> {
    match op {
        AbstractSyntaxTreeExpressionNodeType::Add => add_text(r1, r2),
        AbstractSyntaxTreeExpressionNodeType::Subtract => sub_text(r1, r2),
        AbstractSyntaxTreeExpressionNodeType::Multiply => mul_text(r1, r2),
        AbstractSyntaxTreeExpressionNodeType::Divide => div_text(r1, r2),
        _ => compare_text(r1, r2, comparison_of(op).unwrap()),
    }
}

/// Whether the result of `op` is left in the register of its left operand;
/// otherwise it is left in that of the right one.
pub open spec fn keeps_left(op: AbstractSyntaxTreeExpressionNodeType) -> bool {
    op == AbstractSyntaxTreeExpressionNodeType::Subtract || op
        == AbstractSyntaxTreeExpressionNodeType::Divide
}

/// Two operands are combined: the operator's text is written, the register
/// that does not keep the result is freed, and the other is the result. When
/// the register to be freed is free already, nothing is written.
pub open spec fn operated(
    op: AbstractSyntaxTreeExpressionNodeType,
    r1: RegisterIndex,
    r2: RegisterIndex,
    target: Target,
) -> Generated {
    let (kept, freed) = if keeps_left(op) {
        (r1, r2)
    } else {
        (r2, r1)
    };
    if target.pool[freed.slot()] {
        failed(target, ErrorView::Register(RegisterError::AlreadyFree(freed)))
    } else {
        Generated {
            target: Target {
                pool: target.pool.update(freed.slot(), true),
                text: target.text + operation_text(op, r1, r2),
                ..target
            },
            result: Ok(Some(kept)),
        }
    }
}

/// `target` with storage reserved for the global `name`: the directive is
/// written unless the name has storage already.
pub open spec fn reserved(target: Target, name: Seq<char>) -> Target {
    if target.globals.contains(name) {
        target
    } else {
        Target {
            globals: target.globals.push(name),
            text: target.text + globsym_text(name),
            ..target
        }
    }
}

/// The code for `node`, generated on `before`: a walk in post-order.
///
/// - A literal or an identifier is loaded into a fresh register.
/// - An operator generates its left operand, then its right one, and
///   combines the two registers: one of them is freed, the other holds the
///   result.
/// - An assignment needs an identifier on its left. It reserves storage for
///   it if none is reserved yet, generates the right side, and stores its
///   register, which is also the value of the assignment.
/// - `print` generates its operand and passes the register to the print
///   helper; it has no value.
/// - A declaration has no value. Of a variable without an initialiser it
///   generates nothing: no text is written, no register is taken, and no
///   storage is reserved before the variable's first assignment, so what
///   the variable holds until then is not defined. Any other declaration
///   generates what it declares.
///
/// An operand without a value, a semicolon leaf and an assignment to
/// anything but an identifier are errors, as is a failure of the register
/// pool. The target of a failed generation holds what was written up to
/// the error.
pub open spec fn generate(node: NodeView, before: Target) -> Generated
    decreases node,
{
    match node {
        NodeView::Leaf(LeafView::U32(value)) => loaded(
            before,
            |r: RegisterIndex| load_text(value, r),
        ),
        NodeView::Leaf(LeafView::Identifier(name)) => loaded(
            before,
            |r: RegisterIndex| loadglob_text(name, r),
        ),
        NodeView::Leaf(LeafView::SemiColon) => failed(before, ErrorView::UnhandledNode),
        NodeView::Construct(AbstractSyntaxTreeConstructNodeType::Print, child) => {
            let operand = generate(*child, before);
            match operand.result {
                Ok(Some(r)) => Generated {
                    target: written(operand.target, printint_text(r)),
                    result: Ok(None),
                },
                Ok(None) => failed(operand.target, ErrorView::MissingValue),
                Err(_) => operand,
            }
        },
        NodeView::Construct(AbstractSyntaxTreeConstructNodeType::Declaration, child) => {
            match *child {
                NodeView::Leaf(LeafView::Identifier(_)) => Generated {
                    target: before,
                    result: Ok(None),
                },
                _ => {
                    let declared = generate(*child, before);
                    match declared.result {
                        Ok(_) => Generated { target: declared.target, result: Ok(None) },
                        Err(_) => declared,
                    }
                },
            }
        },
        NodeView::Expression(AbstractSyntaxTreeExpressionNodeType::Assignment, left, right) => {
            match *left {
                NodeView::Leaf(LeafView::Identifier(name)) => {
                    let value = generate(*right, reserved(before, name));
                    match value.result {
                        Ok(Some(r)) => Generated {
                            target: written(value.target, storglob_text(name, r)),
                            result: Ok(Some(r)),
                        },
                        Ok(None) => failed(value.target, ErrorView::MissingValue),
                        Err(_) => value,
                    }
                },
                _ => failed(before, ErrorView::UnhandledNode),
            }
        },
        NodeView::Expression(op, left, right) => {
            let first = generate(*left, before);
            match first.result {
                Ok(Some(r1)) => {
                    let second = generate(*right, first.target);
                    match second.result {
                        Ok(Some(r2)) => operated(op, r1, r2, second.target),
                        Ok(None) => failed(second.target, ErrorView::MissingValue),
                        Err(_) => second,
                    }
                },
                Ok(None) => failed(first.target, ErrorView::MissingValue),
                Err(_) => first,
            }
        },
    }
}

/// The target on which the code of each statement starts: as `target`,
/// with every register free again.
pub open spec fn between_statements(target: Target) -> Target {
    Target { pool: all_free(), ..target }
}

/// The code of the statements of `stream` from index `i` on, generated one
/// after the other on `target`. Each statement is parsed and its code
/// generated before the next one is parsed, so the first error in this order
/// is the one that ends the compilation.
pub open spec fn statements_from(stream: TokenStream, i: int, target: Target) -> Result<
    Target,
    ErrorView,
>
    decreases stream.tokens.len() - i,
{
    if 0 <= i <= stream.tokens.len() {
        match next_statement(stream, i) {
            Step::End => Ok(target),
            Step::Error(e) => Err(e),
            Step::Statement { node, end } => {
                let statement = generate(node, target);
                match statement.result {
                    Ok(_) => {
                        proof {
                            lemma_statement_advances(stream, i);
                        }
                        statements_from(stream, end, between_statements(statement.target))
                    },
                    Err(e) => Err(e),
                }
            },
        }
    } else {
        Ok(target)
    }
}

/// The target on which the first statement's code is generated.
pub open spec fn opening() -> Target {
    Target {
        pool: all_free(),
        globals: Seq::empty(),
        text: PREAMBLE@ + comment_text("Starting users code"@),
    }
}

/// The assembly text for the source text `source`, or the first error met:
/// the preamble, the code of each statement in order, and the postamble.
pub open spec fn compiled(source: Seq<char>) -> Result<Seq<char>, ErrorView> {
    match statements_from(stream_of(source), 0, opening()) {
        Ok(target) => Ok(target.text + comment_text("Ending users code"@) + POSTAMBLE@),
        Err(e) => Err(e),
    }
}

} // verus!

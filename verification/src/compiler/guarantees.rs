//! What holds of the pipeline as a whole.

use vstd::prelude::*;
use crate::assembly::registers::{
    all_free, lemma_lowest_free, none_free, RegisterError, REGISTER_COUNT,
};
use crate::assembly::{comment_text, POSTAMBLE, PREAMBLE};
use crate::ast::{
    AbstractSyntaxTreeConstructNodeType, AbstractSyntaxTreeExpressionNodeType, LeafView, NodeView,
};
use crate::compiler::generation::{
    between_statements, compiled, generate, keeps_left, opening, operated, reserved,
    statements_from, Target,
};
use crate::compiler::grammar::{
    binary, climb, expression_at, is_separator, lemma_separators_end, lemma_statement_advances,
    next_statement, primary_at, separators_end, Parsed, Step,
};
use crate::compiler::ErrorView;
use crate::scanner::precedence_of;
use crate::scanner::rules::{
    all_whitespace, lemma_stream_of_tokens, lemma_whitespace_scans_to_separators, stream_of,
    tokens_of, without_spaces, TokenStream,
};
use crate::scanner::TokenView;

verus! {

/// Every token of `tokens` is a line break.
pub open spec fn all_newlines(tokens: Seq<TokenView>) -> bool {
    forall|k: int| 0 <= k < tokens.len() ==> tokens[k] is NewLine
}

/// Of tokens that are all `Space` or `NewLine`, the significant ones are
/// all `NewLine`.
pub proof fn lemma_significant_white_space(tokens: Seq<TokenView>)
    requires
        forall|k: int| 0 <= k < tokens.len() ==> tokens[k] is Space || tokens[k] is NewLine,
    ensures
        all_newlines(without_spaces(tokens)),
    decreases tokens.len(),
{
    reveal_with_fuel(Seq::filter, 2);
    if tokens.len() > 0 {
        lemma_significant_white_space(tokens.drop_last());
    }
}

/// A stream of line breaks that ends without an error holds no statement.
pub proof fn lemma_newlines_hold_no_statement(stream: TokenStream)
    requires
        all_newlines(stream.tokens),
        stream.error is None,
    ensures
        next_statement(stream, 0) == Step::End,
{
    lemma_separators_end(stream.tokens, 0);
    let end = separators_end(stream.tokens, 0);
    if end < stream.tokens.len() {
        assert(is_separator(stream.tokens[end]));
    }
}

/// A source text of white space alone scans to white-space tokens only,
/// holds no statement, and compiles to the preamble and the postamble with
/// nothing but the two comments between them.
pub proof fn lemma_white_space_compiles_to_the_frame(source: Seq<char>)
    requires
        all_whitespace(source),
    ensures
        tokens_of(source) matches Ok(tokens) && forall|k: int|
            0 <= k < tokens.len() ==> tokens[k] is Space || tokens[k] is NewLine,
        next_statement(stream_of(source), 0) == Step::End,
        compiled(source) == Ok::<Seq<char>, ErrorView>(
            PREAMBLE@ + comment_text("Starting users code"@) + comment_text(
                "Ending users code"@,
            ) + POSTAMBLE@,
        ),
{
    lemma_whitespace_scans_to_separators(source, 0);
    lemma_stream_of_tokens(source, 0);
    let tokens = tokens_of(source).unwrap();
    lemma_significant_white_space(tokens);
    lemma_newlines_hold_no_statement(stream_of(source));
}

/// `node` is an expression: literals and identifiers, combined by the
/// arithmetic and relational operators.
pub open spec fn is_expression(node: NodeView) -> bool
    decreases node,
{
    match node {
        NodeView::Leaf(LeafView::U32(_)) => true,
        NodeView::Leaf(LeafView::Identifier(_)) => true,
        NodeView::Leaf(LeafView::SemiColon) => false,
        NodeView::Expression(op, left, right) => {
            &&& op != AbstractSyntaxTreeExpressionNodeType::Assignment
            &&& is_expression(*left)
            &&& is_expression(*right)
        },
        NodeView::Construct(_, _) => false,
    }
}

/// The number of registers that are in use at once while the code of the
/// expression `node` runs: the left operand's value occupies one register
/// while the right operand is computed.
pub open spec fn registers_needed(node: NodeView) -> nat
    decreases node,
{
    match node {
        NodeView::Expression(_, left, right) => {
            let first = registers_needed(*left);
            let second = 1 + registers_needed(*right);
            if first >= second {
                first
            } else {
                second
            }
        },
        NodeView::Construct(_, child) => registers_needed(*child),
        NodeView::Leaf(_) => 1,
    }
}

/// `node` is an expression that the register pool suffices for.
pub open spec fn is_small_expression(node: NodeView) -> bool {
    is_expression(node) && registers_needed(node) <= REGISTER_COUNT
}

/// `node` assigns a small expression to a variable.
pub open spec fn is_small_assignment(node: NodeView) -> bool {
    node matches NodeView::Expression(AbstractSyntaxTreeExpressionNodeType::Assignment, left, right)
        && *left is Leaf && (*left)->Leaf_0 is Identifier && is_small_expression(*right)
}

/// `node` has one of the shapes of a statement: a print of a small
/// expression, an assignment of one, or a declaration of a variable with or
/// without such an assignment.
pub open spec fn is_statement(node: NodeView) -> bool {
    match node {
        NodeView::Construct(AbstractSyntaxTreeConstructNodeType::Print, child) => {
            is_small_expression(*child)
        },
        NodeView::Construct(AbstractSyntaxTreeConstructNodeType::Declaration, child) => {
            ||| (*child is Leaf && (*child)->Leaf_0 is Identifier)
            ||| is_small_assignment(*child)
        },
        _ => is_small_assignment(node),
    }
}

/// `error` lies in the source text: it holds what is no token, or its
/// tokens do not fit the grammar.
pub open spec fn is_source_error(error: ErrorView) -> bool {
    error is Scanner || error is UnexpectedToken || error is UnexpectedEnd
}

/// The number of precedence levels above `ptp`.
pub open spec fn levels_above(ptp: u32) -> nat {
    if ptp < 10 {
        3
    } else if ptp < 20 {
        2
    } else if ptp < 40 {
        1
    } else {
        0
    }
}

/// The number of free registers of `pool`.
pub open spec fn free_count(pool: Seq<bool>) -> nat
    decreases pool.len(),
{
    if pool.len() == 0 {
        0
    } else {
        free_count(pool.drop_last()) + if pool.last() {
            1nat
        } else {
            0nat
        }
    }
}

/// Taking a free register leaves one fewer.
pub proof fn lemma_free_count_taken(pool: Seq<bool>, slot: int)
    requires
        0 <= slot < pool.len(),
        pool[slot],
    ensures
        free_count(pool.update(slot, false)) + 1 == free_count(pool),
    decreases pool.len(),
{
    let after = pool.update(slot, false);
    if slot == pool.len() - 1 {
        assert(after.drop_last() =~= pool.drop_last());
    } else {
        lemma_free_count_taken(pool.drop_last(), slot);
        assert(after.drop_last() =~= pool.drop_last().update(slot, false));
    }
}

/// A pool without a free register counts none.
pub proof fn lemma_free_count_of_none(pool: Seq<bool>)
    requires
        none_free(pool),
    ensures
        free_count(pool) == 0,
    decreases pool.len(),
{
    if pool.len() > 0 {
        lemma_free_count_of_none(pool.drop_last());
    }
}

/// The pool with every register free counts `REGISTER_COUNT`.
pub proof fn lemma_free_count_of_all()
    ensures
        free_count(all_free()) == REGISTER_COUNT,
{
    reveal_with_fuel(free_count, 5);
    let pool = all_free();
    assert(pool.drop_last().drop_last().drop_last().drop_last().len() == 0);
}

/// The code of an expression can be generated whenever as many registers
/// are free as the expression needs. Its value is then in a register that
/// was free before; this register is taken from the pool, and nothing else
/// of the pool or of the globals has changed.
pub proof fn lemma_expression_generates(node: NodeView, target: Target)
    requires
        is_expression(node),
        registers_needed(node) <= free_count(target.pool),
        target.pool.len() == REGISTER_COUNT,
    ensures
        ({
            let generated = generate(node, target);
            &&& generated.result matches Ok(Some(r))
            &&& 0 <= r.slot() < target.pool.len()
            &&& target.pool[r.slot()]
            &&& generated.target.pool == target.pool.update(r.slot(), false)
            &&& generated.target.globals == target.globals
        }),
    decreases node,
{
    lemma_lowest_free(target.pool);
    if none_free(target.pool) {
        lemma_free_count_of_none(target.pool);
    }
    match node {
        NodeView::Expression(op, left, right) => {
            lemma_expression_generates(*left, target);
            let first = generate(*left, target);
            let r1 = first.result->Ok_0->Some_0;
            lemma_free_count_taken(target.pool, r1.slot());
            lemma_expression_generates(*right, first.target);
            let second = generate(*right, first.target);
            let r2 = second.result->Ok_0->Some_0;
            let last = operated(op, r1, r2, second.target);
            assert(generate(node, target) == last);
            if keeps_left(op) {
                assert(last.target.pool =~= target.pool.update(r1.slot(), false));
            } else {
                assert(last.target.pool =~= target.pool.update(r2.slot(), false));
            }
        },
        _ => {},
    }
}

/// The code of a statement can be generated whenever every register is
/// free.
pub proof fn lemma_statement_generates(node: NodeView, target: Target)
    requires
        is_statement(node),
        target.pool == all_free(),
    ensures
        generate(node, target).result is Ok,
{
    lemma_free_count_of_all();
    lemma_lowest_free(target.pool);
    assert(target.pool[0]);
    match node {
        NodeView::Construct(AbstractSyntaxTreeConstructNodeType::Print, child) => {
            lemma_expression_generates(*child, target);
        },
        NodeView::Construct(AbstractSyntaxTreeConstructNodeType::Declaration, child) => {
            if is_small_assignment(*child) {
                lemma_assignment_generates(*child, target);
            }
        },
        _ => {
            lemma_assignment_generates(node, target);
        },
    }
}

proof fn lemma_assignment_generates(node: NodeView, target: Target)
    requires
        is_small_assignment(node),
        target.pool == all_free(),
    ensures
        generate(node, target).result is Ok,
{
    lemma_free_count_of_all();
    match node {
        NodeView::Expression(_, left, right) => {
            let name = (*left)->Leaf_0->Identifier_0;
            lemma_expression_generates(*right, reserved(target, name));
        },
        _ => {},
    }
}

/// Every register that is in use in `before` is in use in `after`.
pub open spec fn keeps_held(before: Seq<bool>, after: Seq<bool>) -> bool {
    &&& after.len() == before.len()
    &&& forall|i: int| 0 <= i < before.len() && !before[i] ==> !after[i]
}

/// Code generation never frees a register twice, whatever tree it is given
/// and whatever the pool: it frees only registers that it has taken itself.
/// So the registers that were in use before are in use afterwards, and the
/// register of the result is one that was free before and is in use now.
pub proof fn lemma_no_register_is_freed_twice(node: NodeView, target: Target)
    ensures
        ({
            let generated = generate(node, target);
            &&& !(generated.result matches Err(
                ErrorView::Register(RegisterError::AlreadyFree(_)),
            ))
            &&& keeps_held(target.pool, generated.target.pool)
            &&& generated.result matches Ok(Some(r)) ==> {
                &&& 0 <= r.slot() < target.pool.len()
                &&& target.pool[r.slot()]
                &&& !generated.target.pool[r.slot()]
            }
        }),
    decreases node,
{
    match node {
        NodeView::Construct(_, child) => {
            lemma_no_register_is_freed_twice(*child, target);
        },
        NodeView::Expression(AbstractSyntaxTreeExpressionNodeType::Assignment, left, right) => {
            match *left {
                NodeView::Leaf(LeafView::Identifier(name)) => {
                    lemma_no_register_is_freed_twice(*right, reserved(target, name));
                },
                _ => {},
            }
        },
        NodeView::Expression(op, left, right) => {
            lemma_no_register_is_freed_twice(*left, target);
            let first = generate(*left, target);
            if first.result matches Ok(Some(r1)) {
                lemma_no_register_is_freed_twice(*right, first.target);
            }
        },
        NodeView::Leaf(_) => {},
    }
}

/// `longer` starts with all of `shorter`.
pub open spec fn extends(longer: Seq<Seq<char>>, shorter: Seq<Seq<char>>) -> bool {
    shorter.len() <= longer.len() && longer.subrange(0, shorter.len() as int) == shorter
}

/// Storage is reserved at most once for a name: whatever tree the code is
/// generated for, and whether or not that succeeds, the globals with
/// storage stay pairwise distinct, and none of them is forgotten.
pub proof fn lemma_storage_is_reserved_once(node: NodeView, target: Target)
    requires
        target.globals.no_duplicates(),
    ensures
        generate(node, target).target.globals.no_duplicates(),
        extends(generate(node, target).target.globals, target.globals),
    decreases node,
{
    assert(target.globals.subrange(0, target.globals.len() as int) =~= target.globals);
    match node {
        NodeView::Construct(_, child) => {
            lemma_storage_is_reserved_once(*child, target);
        },
        NodeView::Expression(AbstractSyntaxTreeExpressionNodeType::Assignment, left, right) => {
            match *left {
                NodeView::Leaf(LeafView::Identifier(name)) => {
                    let ready = reserved(target, name);
                    assert(ready.globals.subrange(0, target.globals.len() as int)
                        =~= target.globals);
                    lemma_storage_is_reserved_once(*right, ready);
                    let after = generate(*right, ready).target.globals;
                    let known = target.globals.len() as int;
                    assert(after.subrange(0, known) =~= ready.globals.subrange(0, known));
                },
                _ => {},
            }
        },
        NodeView::Expression(op, left, right) => {
            lemma_storage_is_reserved_once(*left, target);
            let first = generate(*left, target);
            if first.result matches Ok(Some(r1)) {
                lemma_storage_is_reserved_once(*right, first.target);
                let after = generate(*right, first.target).target.globals;
                let known = target.globals.len() as int;
                assert(after.subrange(0, known) =~= first.target.globals.subrange(0, known));
            }
        },
        NodeView::Leaf(_) => {},
    }
}

/// What the parser takes for an expression is one, it needs at most one
/// register more than there are precedence levels above `ptp`, and what it
/// refuses, it refuses for an error in the source.
pub proof fn lemma_parsed_expression(stream: TokenStream, i: int, ptp: u32)
    requires
        0 <= i,
    ensures
        match expression_at(stream, i, ptp) {
            Parsed::Node { node, .. } => {
                &&& is_expression(node)
                &&& registers_needed(node) <= levels_above(ptp) + 1
            },
            Parsed::Error(e) => is_source_error(e),
        },
    decreases stream.tokens.len() - i, 1int,
{
    match primary_at(stream, i) {
        Parsed::Node { node, end } => lemma_parsed_continuation(stream, end, node, ptp),
        Parsed::Error(e) => {},
    }
}

/// See `lemma_parsed_expression`.
pub proof fn lemma_parsed_continuation(stream: TokenStream, i: int, left: NodeView, ptp: u32)
    requires
        0 <= i,
        is_expression(left),
        registers_needed(left) <= levels_above(ptp) + 1,
    ensures
        match climb(stream, i, left, ptp) {
            Parsed::Node { node, .. } => {
                &&& is_expression(node)
                &&& registers_needed(node) <= levels_above(ptp) + 1
            },
            Parsed::Error(e) => is_source_error(e),
        },
    decreases stream.tokens.len() - i, 0int,
{
    if i < stream.tokens.len() && precedence_of(stream.tokens[i]) > ptp {
        let strength = precedence_of(stream.tokens[i]);
        lemma_parsed_expression(stream, i + 1, strength);
        match expression_at(stream, i + 1, strength) {
            Parsed::Node { node: right, end } => {
                if i < end <= stream.tokens.len() {
                    lemma_parsed_continuation(
                        stream,
                        end,
                        binary(stream.tokens[i], left, right),
                        ptp,
                    );
                }
            },
            Parsed::Error(e) => {},
        }
    }
}

/// What the parser takes for a statement has the shape of one, and what it
/// refuses, it refuses for an error in the source.
pub proof fn lemma_parsed_statement(stream: TokenStream, i: int)
    requires
        0 <= i <= stream.tokens.len(),
    ensures
        match next_statement(stream, i) {
            Step::Statement { node, .. } => is_statement(node),
            Step::End => true,
            Step::Error(e) => is_source_error(e),
        },
{
    lemma_separators_end(stream.tokens, i);
    let start = separators_end(stream.tokens, i);
    lemma_parsed_expression(stream, start + 1, 0);
    lemma_parsed_expression(stream, start + 2, 0);
    lemma_parsed_expression(stream, start + 3, 0);
}

/// The statements of any stream either all get their code, or one of them
/// is refused for an error in the source.
pub proof fn lemma_statements_fail_on_source_errors_only(
    stream: TokenStream,
    i: int,
    target: Target,
)
    requires
        0 <= i <= stream.tokens.len(),
        target.pool == all_free(),
    ensures
        statements_from(stream, i, target) matches Err(e) ==> is_source_error(e),
    decreases stream.tokens.len() - i,
{
    lemma_parsed_statement(stream, i);
    lemma_statement_advances(stream, i);
    match next_statement(stream, i) {
        Step::Statement { node, end } => {
            lemma_statement_generates(node, target);
            lemma_statements_fail_on_source_errors_only(
                stream,
                end,
                between_statements(generate(node, target).target),
            );
        },
        _ => {},
    }
}

/// A compilation fails only on a source text that holds what is no token,
/// or whose tokens do not fit the grammar. Code generation never fails on
/// what the parser hands it: no expression of the language needs more than
/// the four registers, no register is freed twice, and no tree has a shape
/// for which there is no code.
pub proof fn lemma_compilation_fails_on_source_errors_only(source: Seq<char>)
    ensures
        compiled(source) matches Err(e) ==> is_source_error(e),
{
    lemma_statements_fail_on_source_errors_only(stream_of(source), 0, opening());
}

} // verus!

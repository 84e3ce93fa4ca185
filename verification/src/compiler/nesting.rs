//! What holds of the trees that the parser builds: they spell the tokens
//! they were built from, and they nest by precedence, to the left among
//! equals.

use vstd::prelude::*;
use crate::ast::{operator_of, AbstractSyntaxTreeExpressionNodeType, LeafView, NodeView};
use crate::compiler::grammar::{binary, climb, expression_at, primary_at, Parsed};
use crate::scanner::rules::TokenStream;
use crate::scanner::{precedence_of, TokenView};

verus! {

/// The token that stands for the operator `op`.
pub open spec fn token_of(op: AbstractSyntaxTreeExpressionNodeType) -> TokenView {
    match op {
        AbstractSyntaxTreeExpressionNodeType::Add => TokenView::Plus,
        AbstractSyntaxTreeExpressionNodeType::Subtract => TokenView::Minus,
        AbstractSyntaxTreeExpressionNodeType::Multiply => TokenView::Star,
        AbstractSyntaxTreeExpressionNodeType::Divide => TokenView::Slash,
        AbstractSyntaxTreeExpressionNodeType::Assignment => TokenView::Assignment,
        AbstractSyntaxTreeExpressionNodeType::LessThan => TokenView::LessThan,
        AbstractSyntaxTreeExpressionNodeType::LessThanEqual => TokenView::LessThanEqual,
        AbstractSyntaxTreeExpressionNodeType::GreaterThan => TokenView::GreaterThan,
        AbstractSyntaxTreeExpressionNodeType::GreaterThanEqual => TokenView::GreaterThanEqual,
        AbstractSyntaxTreeExpressionNodeType::NotEqual => TokenView::NotEqual,
        AbstractSyntaxTreeExpressionNodeType::Equality => TokenView::Equality,
    }
}

/// How tightly the operator `op` binds.
pub open spec fn strength(op: AbstractSyntaxTreeExpressionNodeType) -> u32 {
    precedence_of(token_of(op))
}

/// The tokens of an expression tree, read from left to right.
pub open spec fn spelled(node: NodeView) -> Seq<TokenView>
    decreases node,
{
    match node {
        NodeView::Leaf(LeafView::U32(value)) => seq![TokenView::U32(value)],
        NodeView::Leaf(LeafView::Identifier(name)) => seq![TokenView::Identifier(name)],
        NodeView::Leaf(LeafView::SemiColon) => seq![TokenView::SemiColon],
        NodeView::Expression(op, left, right) => spelled(*left) + seq![token_of(op)] + spelled(
            *right,
        ),
        NodeView::Construct(_, child) => spelled(*child),
    }
}

/// `node` is a leaf, or its operator binds at least as tightly as `least`.
pub open spec fn binds_at_least(node: NodeView, least: int) -> bool {
    node matches NodeView::Expression(op, _, _) ==> strength(op) >= least
}

/// Every operator of `node` binds more tightly than the operator above it
/// if it is that one's right operand, and at least as tightly if it is its
/// left operand. So operators of higher precedence are applied first, and
/// operators of equal precedence from left to right.
pub open spec fn nests_by_precedence(node: NodeView) -> bool
    decreases node,
{
    match node {
        NodeView::Expression(op, left, right) => {
            &&& binds_at_least(*left, strength(op) as int)
            &&& binds_at_least(*right, strength(op) + 1)
            &&& nests_by_precedence(*left)
            &&& nests_by_precedence(*right)
        },
        NodeView::Construct(_, child) => nests_by_precedence(*child),
        NodeView::Leaf(_) => true,
    }
}

/// An operator token is the token of its operator.
pub proof fn lemma_token_of_operator(token: TokenView)
    requires
        precedence_of(token) > 0,
    ensures
        operator_of(token) matches Some(op) && token_of(op) == token,
{
}

/// An expression ends where the input ends, or before a token that binds no
/// more tightly than `ptp`.
pub proof fn lemma_expression_ends_at_weaker(stream: TokenStream, i: int, ptp: u32)
    requires
        0 <= i,
    ensures
        expression_at(stream, i, ptp) matches Parsed::Node { end, .. } ==> end
            >= stream.tokens.len() || precedence_of(stream.tokens[end]) <= ptp,
    decreases stream.tokens.len() - i, 1int,
{
    match primary_at(stream, i) {
        Parsed::Node { node, end } => lemma_continuation_ends_at_weaker(stream, end, node, ptp),
        Parsed::Error(e) => {},
    }
}

/// See `lemma_expression_ends_at_weaker`.
pub proof fn lemma_continuation_ends_at_weaker(
    stream: TokenStream,
    i: int,
    left: NodeView,
    ptp: u32,
)
    requires
        0 <= i,
    ensures
        climb(stream, i, left, ptp) matches Parsed::Node { end, .. } ==> end
            >= stream.tokens.len() || precedence_of(stream.tokens[end]) <= ptp,
    decreases stream.tokens.len() - i, 0int,
{
    if i < stream.tokens.len() && precedence_of(stream.tokens[i]) > ptp {
        let strength = precedence_of(stream.tokens[i]);
        lemma_expression_ends_at_weaker(stream, i + 1, strength);
        match expression_at(stream, i + 1, strength) {
            Parsed::Node { node: right, end } => {
                if i < end <= stream.tokens.len() {
                    lemma_continuation_ends_at_weaker(
                        stream,
                        end,
                        binary(stream.tokens[i], left, right),
                        ptp,
                    );
                }
            },
            Parsed::Error(e) => {},
        }
    }
}

/// The tree of an expression spells exactly the tokens that were taken for
/// it, in their order; it nests by precedence; and its own operator, if it
/// has one, binds more tightly than `ptp`.
pub proof fn lemma_expression_tree(stream: TokenStream, i: int, ptp: u32)
    requires
        0 <= i,
    ensures
        expression_at(stream, i, ptp) matches Parsed::Node { node, end } ==> {
            &&& i < end <= stream.tokens.len()
            &&& spelled(node) == stream.tokens.subrange(i, end)
            &&& nests_by_precedence(node)
            &&& binds_at_least(node, ptp + 1)
        },
    decreases stream.tokens.len() - i, 1int,
{
    match primary_at(stream, i) {
        Parsed::Node { node, end } => {
            assert(spelled(node) =~= stream.tokens.subrange(i, end));
            lemma_continuation_tree(stream, i, end, node, ptp);
        },
        Parsed::Error(e) => {},
    }
}

/// See `lemma_expression_tree`: `left` holds the tokens from `start` up to
/// `i`, and the token at `i` binds no more tightly than the operator of
/// `left`.
pub proof fn lemma_continuation_tree(
    stream: TokenStream,
    start: int,
    i: int,
    left: NodeView,
    ptp: u32,
)
    requires
        0 <= start < i <= stream.tokens.len(),
        spelled(left) == stream.tokens.subrange(start, i),
        nests_by_precedence(left),
        binds_at_least(left, ptp + 1),
        i < stream.tokens.len() ==> binds_at_least(left, precedence_of(stream.tokens[i]) as int),
    ensures
        climb(stream, i, left, ptp) matches Parsed::Node { node, end } ==> {
            &&& i <= end <= stream.tokens.len()
            &&& spelled(node) == stream.tokens.subrange(start, end)
            &&& nests_by_precedence(node)
            &&& binds_at_least(node, ptp + 1)
        },
    decreases stream.tokens.len() - i, 0int,
{
    let tokens = stream.tokens;
    if i < tokens.len() && precedence_of(tokens[i]) > ptp {
        let strength = precedence_of(tokens[i]);
        lemma_token_of_operator(tokens[i]);
        lemma_expression_tree(stream, i + 1, strength);
        lemma_expression_ends_at_weaker(stream, i + 1, strength);
        match expression_at(stream, i + 1, strength) {
            Parsed::Node { node: right, end } => {
                let joined = binary(tokens[i], left, right);
                assert(spelled(joined) =~= tokens.subrange(start, end)) by {
                    assert(tokens.subrange(start, end) =~= tokens.subrange(start, i)
                        + seq![tokens[i]] + tokens.subrange(i + 1, end));
                }
                lemma_continuation_tree(stream, start, end, joined, ptp);
            },
            Parsed::Error(e) => {},
        }
    }
}

/// The primary that the token `token` is by itself, if it is one.
pub open spec fn primary_of(token: TokenView) -> Parsed {
    primary_at(TokenStream { tokens: seq![token], error: None }, 0)
}

/// Two operators between three operands, and nothing behind them: the second
/// operator is applied first exactly if it binds more tightly than the
/// first. Otherwise the first is, so that operators of equal precedence
/// associate to the left.
pub proof fn lemma_two_operators(
    a: TokenView,
    first: TokenView,
    b: TokenView,
    second: TokenView,
    c: TokenView,
)
    requires
        primary_of(a) is Node,
        primary_of(b) is Node,
        primary_of(c) is Node,
        precedence_of(first) > 0,
        precedence_of(second) > 0,
    ensures
        ({
            let stream = TokenStream { tokens: seq![a, first, b, second, c], error: None };
            let x = primary_of(a)->node;
            let y = primary_of(b)->node;
            let z = primary_of(c)->node;
            expression_at(stream, 0, 0) == if precedence_of(second) > precedence_of(first) {
                Parsed::Node { node: binary(first, x, binary(second, y, z)), end: 5 }
            } else {
                Parsed::Node { node: binary(second, binary(first, x, y), z), end: 5 }
            }
        }),
{
    let stream = TokenStream { tokens: seq![a, first, b, second, c], error: None };
    let x = primary_of(a)->node;
    let y = primary_of(b)->node;
    let z = primary_of(c)->node;
    assert(primary_at(stream, 0) == Parsed::Node { node: x, end: 1 });
    assert(primary_at(stream, 2) == Parsed::Node { node: y, end: 3 });
    assert(primary_at(stream, 4) == Parsed::Node { node: z, end: 5 });
    let first_strength = precedence_of(first);
    let second_strength = precedence_of(second);
    reveal_with_fuel(expression_at, 4);
    reveal_with_fuel(climb, 4);
    assert(forall|left: NodeView, ptp: u32|
        climb(stream, 5, left, ptp) == Parsed::Node { node: left, end: 5 });
    assert(expression_at(stream, 4, second_strength) == Parsed::Node { node: z, end: 5 });
    if second_strength > first_strength {
        assert(climb(stream, 3, y, first_strength) == Parsed::Node {
            node: binary(second, y, z),
            end: 5,
        });
        assert(expression_at(stream, 2, first_strength) == Parsed::Node {
            node: binary(second, y, z),
            end: 5,
        });
    } else {
        assert(climb(stream, 3, y, first_strength) == Parsed::Node { node: y, end: 3 });
        assert(expression_at(stream, 2, first_strength) == Parsed::Node { node: y, end: 3 });
        assert(climb(stream, 3, binary(first, x, y), 0) == Parsed::Node {
            node: binary(second, binary(first, x, y), z),
            end: 5,
        });
    }
}

} // verus!

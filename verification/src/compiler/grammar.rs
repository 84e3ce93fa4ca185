//! The grammar, as functions from a stream of tokens to syntax trees.
//!
//! ```text
//! program     := ( separator | statement )*
//! separator   := ";" | newline
//! statement   := "print" expr
//!              | "int" identifier ( ";" | "=" expr )
//!              | identifier "=" expr
//! expr        := primary ( binop expr )*
//! primary     := intlit | identifier
//! ```
//!
//! The tokens are taken from the scanner one at a time, as far as the grammar
//! asks for them. So where the grammar looks for a token and the scanner
//! meets something that is no token, parsing stops with the scanner's error;
//! a lexical error further on is of no account to what is parsed before it.

use vstd::prelude::*;
use crate::ast::{
    leaf_of, operator_of, AbstractSyntaxTreeConstructNodeType,
    AbstractSyntaxTreeExpressionNodeType, LeafView, NodeView,
};
use crate::compiler::ErrorView;
use crate::scanner::rules::TokenStream;
use crate::scanner::{precedence_of, KeywordToken, TokenView};

verus! {

/// The result of parsing an expression or a statement.
pub enum Parsed {
    /// The tree, and the index of the first token after it.
    Node { node: NodeView, end: int },
    /// The tokens do not fit the grammar, or the scanner failed.
    Error(ErrorView),
}

/// The result of asking for the next statement.
pub enum Step {
    /// A statement, and the index of the first token after it.
    Statement { node: NodeView, end: int },
    /// Only separators were left.
    End,
    /// The tokens do not fit the grammar, or the scanner failed.
    Error(ErrorView),
}

/// The binary node for the operator token `op` over `left` and `right`.
pub open spec fn binary(op: TokenView, left: NodeView, right: NodeView) -> NodeView {
    NodeView::Expression(operator_of(op).unwrap(), Box::new(left), Box::new(right))
}

/// The assignment of `value` to the variable `name`.
pub open spec fn assignment(name: Seq<char>, value: NodeView) -> NodeView {
    NodeView::Expression(
        AbstractSyntaxTreeExpressionNodeType::Assignment,
        Box::new(NodeView::Leaf(LeafView::Identifier(name))),
        Box::new(value),
    )
}

/// The statement `construct` over `child`.
pub open spec fn construct(op: AbstractSyntaxTreeConstructNodeType, child: NodeView) -> NodeView {
    NodeView::Construct(op, Box::new(child))
}

/// The error of looking for a token behind the last one: the scanner's
/// error if it has one, else that the input has ended.
pub open spec fn ending(stream: TokenStream) -> ErrorView {
    match stream.error {
        Some(e) => ErrorView::Scanner(e),
        None => ErrorView::UnexpectedEnd,
    }
}

/// `primary`: the literal or identifier at `i`.
pub open spec fn primary_at(stream: TokenStream, i: int) -> Parsed {
    if 0 <= i < stream.tokens.len() {
        match leaf_of(stream.tokens[i]) {
            Some(leaf) => Parsed::Node { node: NodeView::Leaf(leaf), end: i + 1 },
            None => Parsed::Error(ErrorView::UnexpectedToken(stream.tokens[i])),
        }
    } else {
        Parsed::Error(ending(stream))
    }
}

/// `expr`: the expression that starts at `i` and takes in every operator
/// that binds more tightly than `ptp`.
pub open spec fn expression_at(stream: TokenStream, i: int, ptp: u32) -> Parsed
    decreases stream.tokens.len() - i, 1int,
{
    match primary_at(stream, i) {
        Parsed::Node { node, end } => climb(stream, end, node, ptp),
        Parsed::Error(e) => Parsed::Error(e),
    }
}

/// Continues an expression whose operands up to index `i` have been folded
/// into `left`. While the token at `i` is an operator that binds more
/// tightly than `ptp`, its right operand is the expression behind it that
/// takes in what binds more tightly than the operator itself, and `left`
/// becomes the node of the two. The expression ends before any other token
/// and at the end of the input; it fails where the scanner does.
pub open spec fn climb(stream: TokenStream, i: int, left: NodeView, ptp: u32) -> Parsed
    decreases stream.tokens.len() - i, 0int,
{
    if 0 <= i < stream.tokens.len() {
        let strength = precedence_of(stream.tokens[i]);
        if strength > ptp {
            match expression_at(stream, i + 1, strength) {
                Parsed::Node { node: right, end } => {
                    // An expression holds at least its primary and ends
                    // within the input, so this always holds: see
                    // `lemma_expression_advances`.
                    if i < end <= stream.tokens.len() {
                        climb(stream, end, binary(stream.tokens[i], left, right), ptp)
                    } else {
                        Parsed::Error(ErrorView::UnexpectedEnd)
                    }
                },
                Parsed::Error(e) => Parsed::Error(e),
            }
        } else {
            Parsed::Node { node: left, end: i }
        }
    } else {
        match stream.error {
            Some(e) => Parsed::Error(ErrorView::Scanner(e)),
            None => Parsed::Node { node: left, end: i },
        }
    }
}

/// A token that may stand between statements.
pub open spec fn is_separator(token: TokenView) -> bool {
    token is SemiColon || token is NewLine
}

/// The first index from `i` on that holds no separator, or the length of
/// `tokens`.
pub open spec fn separators_end(tokens: Seq<TokenView>, i: int) -> int
    decreases tokens.len() - i,
{
    if 0 <= i < tokens.len() && is_separator(tokens[i]) {
        separators_end(tokens, i + 1)
    } else {
        i
    }
}

/// `"print" expr`, with the keyword at `i`.
pub open spec fn print_at(stream: TokenStream, i: int) -> Parsed {
    match expression_at(stream, i + 1, 0) {
        Parsed::Node { node, end } => Parsed::Node {
            node: construct(AbstractSyntaxTreeConstructNodeType::Print, node),
            end,
        },
        Parsed::Error(e) => Parsed::Error(e),
    }
}

/// `"int" identifier ( ";" | "=" expr )`, with the keyword at `i`. The two
/// tokens behind the keyword are taken before either is looked at.
pub open spec fn declaration_at(stream: TokenStream, i: int) -> Parsed {
    if i + 2 >= stream.tokens.len() {
        Parsed::Error(ending(stream))
    } else {
        match stream.tokens[i + 1] {
            TokenView::Identifier(name) => match stream.tokens[i + 2] {
                TokenView::SemiColon => Parsed::Node {
                    node: construct(
                        AbstractSyntaxTreeConstructNodeType::Declaration,
                        NodeView::Leaf(LeafView::Identifier(name)),
                    ),
                    end: i + 3,
                },
                TokenView::Assignment => match expression_at(stream, i + 3, 0) {
                    Parsed::Node { node, end } => Parsed::Node {
                        node: construct(
                            AbstractSyntaxTreeConstructNodeType::Declaration,
                            assignment(name, node),
                        ),
                        end,
                    },
                    Parsed::Error(e) => Parsed::Error(e),
                },
                other => Parsed::Error(ErrorView::UnexpectedToken(other)),
            },
            other => Parsed::Error(ErrorView::UnexpectedToken(other)),
        }
    }
}

/// `identifier "=" expr`, with the identifier at `i`.
pub open spec fn assignment_at(stream: TokenStream, i: int) -> Parsed {
    match stream.tokens[i] {
        TokenView::Identifier(name) => if i + 1 >= stream.tokens.len() {
            Parsed::Error(ending(stream))
        } else {
            match stream.tokens[i + 1] {
                TokenView::Assignment => match expression_at(stream, i + 2, 0) {
                    Parsed::Node { node, end } => Parsed::Node {
                        node: assignment(name, node),
                        end,
                    },
                    Parsed::Error(e) => Parsed::Error(e),
                },
                other => Parsed::Error(ErrorView::UnexpectedToken(other)),
            }
        },
        other => Parsed::Error(ErrorView::UnexpectedToken(other)),
    }
}

/// `statement`, with its first token at `i`.
pub open spec fn statement_at(stream: TokenStream, i: int) -> Parsed {
    match stream.tokens[i] {
        TokenView::Keyword(KeywordToken::Print) => print_at(stream, i),
        TokenView::Keyword(KeywordToken::Int) => declaration_at(stream, i),
        TokenView::Identifier(_) => assignment_at(stream, i),
        other => Parsed::Error(ErrorView::UnexpectedToken(other)),
    }
}

/// The next statement from `i` on: separators are passed over, and the
/// statement that follows them is parsed. Where only separators are left,
/// the input has ended, unless the scanner failed behind them.
pub open spec fn next_statement(stream: TokenStream, i: int) -> Step {
    let start = separators_end(stream.tokens, i);
    if 0 <= start < stream.tokens.len() {
        match statement_at(stream, start) {
            Parsed::Node { node, end } => Step::Statement { node, end },
            Parsed::Error(e) => Step::Error(e),
        }
    } else {
        match stream.error {
            Some(e) => Step::Error(ErrorView::Scanner(e)),
            None => Step::End,
        }
    }
}

/// An operator is exactly a token with a precedence above zero.
pub proof fn lemma_operators_have_precedence(token: TokenView)
    ensures
        operator_of(token) is Some <==> precedence_of(token) > 0,
{
}

/// An expression holds at least one token and ends within the input; so
/// does what continues one.
pub proof fn lemma_expression_advances(stream: TokenStream, i: int, ptp: u32)
    requires
        0 <= i,
    ensures
        expression_at(stream, i, ptp) matches Parsed::Node { end, .. } ==> i < end
            <= stream.tokens.len(),
    decreases stream.tokens.len() - i, 1int,
{
    match primary_at(stream, i) {
        Parsed::Node { node, end } => lemma_climb_advances(stream, end, node, ptp),
        Parsed::Error(e) => {},
    }
}

/// See `lemma_expression_advances`.
pub proof fn lemma_climb_advances(stream: TokenStream, i: int, left: NodeView, ptp: u32)
    requires
        0 <= i <= stream.tokens.len(),
    ensures
        climb(stream, i, left, ptp) matches Parsed::Node { end, .. } ==> i <= end
            <= stream.tokens.len(),
    decreases stream.tokens.len() - i, 0int,
{
    if i < stream.tokens.len() && precedence_of(stream.tokens[i]) > ptp {
        let strength = precedence_of(stream.tokens[i]);
        lemma_expression_advances(stream, i + 1, strength);
        match expression_at(stream, i + 1, strength) {
            Parsed::Node { node: right, end } => {
                lemma_climb_advances(stream, end, binary(stream.tokens[i], left, right), ptp);
            },
            Parsed::Error(e) => {},
        }
    }
}

/// The separators from `i` on are passed over up to the first token that is
/// none.
pub proof fn lemma_separators_end(tokens: Seq<TokenView>, i: int)
    requires
        0 <= i <= tokens.len(),
    ensures
        i <= separators_end(tokens, i) <= tokens.len(),
        forall|k: int| i <= k < separators_end(tokens, i) ==> is_separator(tokens[k]),
        separators_end(tokens, i) < tokens.len() ==> !is_separator(
            tokens[separators_end(tokens, i)],
        ),
        forall|k: int|
            i <= k <= separators_end(tokens, i) ==> separators_end(tokens, k) == separators_end(
                tokens,
                i,
            ),
    decreases tokens.len() - i,
{
    if i < tokens.len() && is_separator(tokens[i]) {
        lemma_separators_end(tokens, i + 1);
    }
}

/// A statement holds at least one token and ends within the input.
pub proof fn lemma_statement_advances(stream: TokenStream, i: int)
    requires
        0 <= i <= stream.tokens.len(),
    ensures
        next_statement(stream, i) matches Step::Statement { end, .. } ==> i < end
            <= stream.tokens.len(),
{
    lemma_separators_end(stream.tokens, i);
    let start = separators_end(stream.tokens, i);
    if start < stream.tokens.len() {
        lemma_expression_advances(stream, start + 1, 0);
        lemma_expression_advances(stream, start + 2, 0);
        lemma_expression_advances(stream, start + 3, 0);
    }
}

} // verus!

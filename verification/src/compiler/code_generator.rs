//! Syntax analysis: from tokens to one syntax tree per statement.

use vstd::prelude::*;
use crate::ast::{
    AbstractSyntaxTreeConstructNodeType, AbstractSyntaxTreeExpressionNodeType,
    AbstractSyntaxTreeLeafNodeType, AbstractSyntaxTreeNode,
};
use crate::compiler::grammar::{
    assignment_at, climb, declaration_at, ending, expression_at, is_separator,
    lemma_operators_have_precedence, lemma_separators_end, next_statement, print_at,
    separators_end, Parsed, Step,
};
use crate::compiler::Error;
use crate::scanner::rules::{lemma_scan_advances, stream_from, TokenStream};
use crate::scanner::{KeywordToken, Precedence, ScannerError, Token, TokenIterator};

verus! {

/// A parser over the tokens of a scanner: each call of `next` yields the
/// syntax tree of one statement. Tokens are taken from the scanner only as
/// far as the grammar has asked for them, and at most one token is held that
/// the trees returned so far do not account for.
pub struct CodeGenerator {
    scanner: TokenIterator,
    peeked: Option<Token>,
    origin: Ghost<int>,
    consumed: Ghost<int>,
}

impl CodeGenerator {
    /// The stream that is being parsed: the significant tokens of the
    /// scanner from where it stood when the parser was made.
    pub closed spec fn stream(&self) -> TokenStream {
        stream_from(self.scanner.source(), self.origin@)
    }

    /// What the stream is made from: the source, and the index in it at
    /// which the stream begins.
    spec fn input(&self) -> (Seq<char>, int) {
        (self.scanner.source(), self.origin@)
    }

    /// The index, in the stream, of the next token to be parsed.
    pub closed spec fn position(&self) -> int {
        self.consumed@
    }

    /// The token held and the scanner's place agree with the position: what
    /// the scanner has still to yield is the stream behind the position, or
    /// behind the token held.
    pub closed spec fn wf(&self) -> bool {
        let stream = self.stream();
        let rest = stream_from(self.scanner.source(), self.scanner.position());
        let i = self.consumed@;
        &&& 0 <= i <= stream.tokens.len()
        &&& stream.error == rest.error
        &&& match self.peeked {
            Some(token) => {
                &&& i < stream.tokens.len()
                &&& stream.tokens[i] == token@
                &&& stream.tokens.subrange(i + 1, stream.tokens.len() as int) == rest.tokens
            },
            None => stream.tokens.subrange(i, stream.tokens.len() as int) == rest.tokens,
        }
    }

    /// A parser of what `tokens` has still to yield.
    pub fn new(tokens: TokenIterator) -> (parser: CodeGenerator)
        ensures
            parser.wf(),
            parser.stream() == stream_from(tokens.source(), tokens.position()),
            parser.position() == 0,
    {
        let ghost origin = tokens.position();
        let parser = CodeGenerator {
            scanner: tokens,
            peeked: None,
            origin: Ghost(origin),
            consumed: Ghost(0),
        };
        assert(parser.stream().tokens.subrange(0, parser.stream().tokens.len() as int)
            =~= parser.stream().tokens);
        parser
    }

    /// Looks at the token at the position without passing it: `None` at the
    /// end of the input.
    fn peek(&mut self) -> (res: Result<Option<Token>, ScannerError>)
        requires
            old(self).wf(),
        ensures
            final(self).wf(),
            final(self).input() == old(self).input(),
            final(self).stream() == old(self).stream(),
            final(self).position() == old(self).position(),
            0 <= old(self).position() <= old(self).stream().tokens.len(),
            match res {
                Ok(Some(token)) => {
                    &&& old(self).position() < old(self).stream().tokens.len()
                    &&& token@ == old(self).stream().tokens[old(self).position()]
                    &&& final(self).peeked is Some
                },
                Ok(None) => {
                    &&& old(self).position() == old(self).stream().tokens.len()
                    &&& old(self).stream().error is None
                },
                Err(e) => {
                    &&& old(self).position() == old(self).stream().tokens.len()
                    &&& old(self).stream().error == Some(e)
                },
            },
    {
        let ghost stream = self.stream();
        let ghost source = self.scanner.source();
        let ghost i = self.consumed@;
        loop
            invariant
                self.wf(),
                self.input() == old(self).input(),
                self.stream() == stream,
                stream == old(self).stream(),
                self.scanner.source() == source,
                self.consumed@ == i,
                i == old(self).position(),
            decreases source.len() - self.scanner.position(),
        {
            match &self.peeked {
                Some(token) => {
                    return Ok(Some(token.clone()));
                },
                None => {},
            }
            let at = self.scanner.offset();
            proof {
                if at < source.len() {
                    lemma_scan_advances(source, at as int);
                }
            }
            match self.scanner.next() {
                None => {
                    assert(stream.tokens.subrange(i, stream.tokens.len() as int).len() == 0);
                    return Ok(None);
                },
                Some(Err(e)) => {
                    assert(stream.tokens.subrange(i, stream.tokens.len() as int).len() == 0);
                    return Err(e);
                },
                Some(Ok(token)) => {
                    match token {
                        Token::Space => {},
                        _ => {
                            proof {
                                let behind = stream_from(source, self.scanner.position());
                                let all = stream.tokens;
                                let tail = all.subrange(i, all.len() as int);
                                assert(tail == seq![token@] + behind.tokens);
                                assert(tail.len() > 0);
                                assert(tail[0] == token@);
                                assert(all.subrange(i + 1, all.len() as int) =~= behind.tokens) by {
                                    assert forall|k: int| 0 <= k < behind.tokens.len() implies all[i
                                        + 1 + k] == behind.tokens[k] by {
                                        assert(tail[k + 1] == behind.tokens[k]);
                                    }
                                }
                            }
                            self.peeked = Some(token);
                        },
                    }
                },
            }
        }
    }

    /// Passes the token that `peek` has found and returns it.
    fn advance(&mut self) -> (token: Token)
        requires
            old(self).wf(),
            old(self).peeked is Some,
        ensures
            final(self).wf(),
            final(self).input() == old(self).input(),
            final(self).stream() == old(self).stream(),
            old(self).position() < old(self).stream().tokens.len(),
            final(self).position() == old(self).position() + 1,
            token@ == old(self).stream().tokens[old(self).position()],
    {
        let token = self.peeked.take().unwrap();
        self.consumed = Ghost(self.consumed@ + 1);
        token
    }

    /// Takes the token at the position. At the end of the input this is an
    /// error: the scanner's, if the scanner failed there.
    fn pull(&mut self) -> (res: Result<Token, Error>)
        requires
            old(self).wf(),
        ensures
            final(self).wf(),
            final(self).input() == old(self).input(),
            final(self).stream() == old(self).stream(),
            0 <= old(self).position() <= old(self).stream().tokens.len(),
            match res {
                Ok(token) => {
                    &&& old(self).position() < old(self).stream().tokens.len()
                    &&& token@ == old(self).stream().tokens[old(self).position()]
                    &&& final(self).position() == old(self).position() + 1
                },
                Err(error) => {
                    &&& old(self).position() == old(self).stream().tokens.len()
                    &&& error@ == ending(old(self).stream())
                },
            },
    {
        match self.peek() {
            Ok(Some(_)) => Ok(self.advance()),
            Ok(None) => Err(Error::UnexpectedEnd),
            Err(e) => Err(Error::Scanner(e)),
        }
    }

    /// Parses `"int" identifier ( ";" | "=" expr )`.
    fn compile_int_keyword(&mut self) -> (res: Result<AbstractSyntaxTreeNode, Error>)
        requires
            old(self).wf(),
            old(self).peeked is Some,
        ensures
            final(self).wf(),
            final(self).input() == old(self).input(),
            final(self).stream() == old(self).stream(),
            match declaration_at(old(self).stream(), old(self).position()) {
                Parsed::Node { node, end } => {
                    &&& res matches Ok(found)
                    &&& found@ == node
                    &&& final(self).position() == end
                    &&& old(self).position() < end <= old(self).stream().tokens.len()
                },
                Parsed::Error(e) => res matches Err(error) && error@ == e,
            },
    {
        self.skip();
        let identifier = match self.pull() {
            Ok(token) => token,
            Err(e) => {
                return Err(e);
            },
        };
        let assignment_or_semi_colon = match self.pull() {
            Ok(token) => token,
            Err(e) => {
                return Err(e);
            },
        };
        let name = match identifier {
            Token::Identifier(name) => name,
            other => {
                return Err(Error::UnexpectedToken(other));
            },
        };
        let variable = AbstractSyntaxTreeNode::new_leaf_node(
            AbstractSyntaxTreeLeafNodeType::Identifier(name),
        );
        match assignment_or_semi_colon {
            Token::SemiColon => Ok(
                AbstractSyntaxTreeNode::new_construct(
                    AbstractSyntaxTreeConstructNodeType::Declaration,
                    variable,
                ),
            ),
            Token::Assignment => {
                match self.compile_expression(0) {
                    Ok(expression) => Ok(
                        AbstractSyntaxTreeNode::new_construct(
                            AbstractSyntaxTreeConstructNodeType::Declaration,
                            AbstractSyntaxTreeNode::new_interior(
                                AbstractSyntaxTreeExpressionNodeType::Assignment,
                                variable,
                                expression,
                            ),
                        ),
                    ),
                    Err(e) => Err(e),
                }
            },
            other => Err(Error::UnexpectedToken(other)),
        }
    }

    /// Parses `"print" expr`.
    fn compile_print_keyword(&mut self) -> (res: Result<AbstractSyntaxTreeNode, Error>)
        requires
            old(self).wf(),
            old(self).peeked is Some,
        ensures
            final(self).wf(),
            final(self).input() == old(self).input(),
            final(self).stream() == old(self).stream(),
            match print_at(old(self).stream(), old(self).position()) {
                Parsed::Node { node, end } => {
                    &&& res matches Ok(found)
                    &&& found@ == node
                    &&& final(self).position() == end
                    &&& old(self).position() < end <= old(self).stream().tokens.len()
                },
                Parsed::Error(e) => res matches Err(error) && error@ == e,
            },
    {
        self.skip();
        match self.compile_expression(0) {
            Ok(expression) => Ok(
                AbstractSyntaxTreeNode::new_construct(
                    AbstractSyntaxTreeConstructNodeType::Print,
                    expression,
                ),
            ),
            Err(e) => Err(e),
        }
    }

    /// Parses `identifier "=" expr`.
    fn compile_identifier(&mut self) -> (res: Result<AbstractSyntaxTreeNode, Error>)
        requires
            old(self).wf(),
            old(self).peeked is Some,
        ensures
            final(self).wf(),
            final(self).input() == old(self).input(),
            final(self).stream() == old(self).stream(),
            match assignment_at(old(self).stream(), old(self).position()) {
                Parsed::Node { node, end } => {
                    &&& res matches Ok(found)
                    &&& found@ == node
                    &&& final(self).position() == end
                    &&& old(self).position() < end <= old(self).stream().tokens.len()
                },
                Parsed::Error(e) => res matches Err(error) && error@ == e,
            },
    {
        let name = match self.advance() {
            Token::Identifier(name) => name,
            other => {
                return Err(Error::UnexpectedToken(other));
            },
        };
        match self.pull() {
            Ok(Token::Assignment) => {},
            Ok(other) => {
                return Err(Error::UnexpectedToken(other));
            },
            Err(e) => {
                return Err(e);
            },
        }
        match self.compile_expression(0) {
            Ok(expression) => Ok(
                AbstractSyntaxTreeNode::new_interior(
                    AbstractSyntaxTreeExpressionNodeType::Assignment,
                    AbstractSyntaxTreeNode::new_leaf_node(
                        AbstractSyntaxTreeLeafNodeType::Identifier(name),
                    ),
                    expression,
                ),
            ),
            Err(e) => Err(e),
        }
    }

    /// Parses an expression by precedence climbing: one primary, then every
    /// operator that binds more tightly than `ptp`, each with the expression
    /// to its right that binds more tightly than the operator itself.
    fn compile_expression(&mut self, ptp: u32) -> (res: Result<AbstractSyntaxTreeNode, Error>)
        requires
            old(self).wf(),
        ensures
            final(self).wf(),
            final(self).input() == old(self).input(),
            final(self).stream() == old(self).stream(),
            match expression_at(old(self).stream(), old(self).position(), ptp) {
                Parsed::Node { node, end } => {
                    &&& res matches Ok(found)
                    &&& found@ == node
                    &&& final(self).position() == end
                    &&& old(self).position() < end <= old(self).stream().tokens.len()
                },
                Parsed::Error(e) => res matches Err(error) && error@ == e,
            },
        decreases old(self).stream().tokens.len() - old(self).position(),
    {
        let ghost stream = self.stream();
        let ghost start = self.position();
        let first = match self.pull() {
            Ok(token) => token,
            Err(e) => {
                return Err(e);
            },
        };
        let mut left = match AbstractSyntaxTreeLeafNodeType::from_token(&first) {
            Some(leaf) => AbstractSyntaxTreeNode::new_leaf_node(leaf),
            None => {
                return Err(Error::UnexpectedToken(first));
            },
        };
        loop
            invariant
                self.wf(),
                self.input() == old(self).input(),
                stream == old(self).stream(),
                start == old(self).position(),
                self.stream() == stream,
                start < self.position() <= stream.tokens.len(),
                climb(stream, self.position(), left@, ptp) == expression_at(stream, start, ptp),
            decreases stream.tokens.len() - self.position(),
        {
            let token = match self.peek() {
                Ok(Some(token)) => token,
                Ok(None) => {
                    return Ok(left);
                },
                Err(e) => {
                    return Err(Error::Scanner(e));
                },
            };
            let strength = token.precedence();
            if strength <= ptp {
                return Ok(left);
            }
            proof {
                lemma_operators_have_precedence(token@);
            }
            let op = AbstractSyntaxTreeExpressionNodeType::from_token(&token).unwrap();
            self.skip();
            let right = match self.compile_expression(strength) {
                Ok(right) => right,
                Err(e) => {
                    return Err(e);
                },
            };
            left = AbstractSyntaxTreeNode::new_interior(op, left, right);
        }
    }

    /// Passes over the token that `peek` has found.
    fn skip(&mut self)
        requires
            old(self).wf(),
            old(self).peeked is Some,
        ensures
            final(self).wf(),
            final(self).input() == old(self).input(),
            final(self).stream() == old(self).stream(),
            old(self).position() < old(self).stream().tokens.len(),
            final(self).position() == old(self).position() + 1,
    {
        let _ = self.advance();
    }

    /// Parses the next statement, as `next` does, but stays where an error
    /// has left it.
    fn statement(&mut self) -> (res: Option<Result<AbstractSyntaxTreeNode, Error>>)
        requires
            old(self).wf(),
        ensures
            final(self).wf(),
            final(self).input() == old(self).input(),
            final(self).stream() == old(self).stream(),
            0 <= old(self).position() <= old(self).stream().tokens.len(),
            match next_statement(old(self).stream(), old(self).position()) {
                Step::Statement { node, end } => {
                    &&& res matches Some(Ok(found))
                    &&& found@ == node
                    &&& final(self).position() == end
                    &&& old(self).position() < end <= old(self).stream().tokens.len()
                },
                Step::End => {
                    &&& res is None
                    &&& final(self).position() == old(self).stream().tokens.len()
                },
                Step::Error(e) => res matches Some(Err(error)) && error@ == e,
            },
    {
        let ghost stream = self.stream();
        let ghost origin = self.position();
        proof {
            lemma_separators_end(stream.tokens, origin);
        }
        loop
            invariant
                self.wf(),
                stream == old(self).stream(),
                origin == old(self).position(),
                self.stream() == stream,
                self.input() == old(self).input(),
                0 <= origin <= self.position() <= stream.tokens.len(),
                separators_end(stream.tokens, self.position()) == separators_end(
                    stream.tokens,
                    origin,
                ),
            decreases stream.tokens.len() - self.position(),
        {
            let token = match self.peek() {
                Ok(Some(token)) => token,
                Ok(None) => {
                    return None;
                },
                Err(e) => {
                    return Some(Err(Error::Scanner(e)));
                },
            };
            if is_separator_token(&token) {
                self.skip();
            } else {
                return Some(
                    match token {
                        Token::Keyword(KeywordToken::Print) => self.compile_print_keyword(),
                        Token::Keyword(KeywordToken::Int) => self.compile_int_keyword(),
                        Token::Identifier(_) => self.compile_identifier(),
                        unhandled => Err(Error::UnexpectedToken(unhandled)),
                    },
                );
            }
        }
    }

    /// The tree of the next statement, or `None` when only separators are
    /// left. After a statement the parser stands behind it; after an error
    /// it is back where it was.
    pub fn next(&mut self) -> (res: Option<Result<AbstractSyntaxTreeNode, Error>>)
        requires
            old(self).wf(),
        ensures
            final(self).wf(),
            final(self).stream() == old(self).stream(),
            0 <= old(self).position() <= old(self).stream().tokens.len(),
            match next_statement(old(self).stream(), old(self).position()) {
                Step::Statement { node, end } => {
                    &&& res matches Some(Ok(found))
                    &&& found@ == node
                    &&& final(self).position() == end
                    &&& old(self).position() < end <= old(self).stream().tokens.len()
                },
                Step::End => {
                    &&& res is None
                    &&& final(self).position() == old(self).stream().tokens.len()
                },
                Step::Error(e) => {
                    &&& res matches Some(Err(error))
                    &&& error@ == e
                    &&& final(self).position() == old(self).position()
                },
            },
    {
        let offset = self.scanner.offset();
        let held = match &self.peeked {
            Some(token) => Some(token.clone()),
            None => None,
        };
        let res = self.statement();
        match &res {
            Some(Err(_)) => {
                self.scanner.seek(offset);
                self.peeked = held;
                self.consumed = Ghost(old(self).consumed@);
            },
            _ => {},
        }
        res
    }
}

/// Whether `token` may stand between statements.
fn is_separator_token(token: &Token) -> (b: bool)
    ensures
        b == is_separator(token@),
{
    match token {
        Token::SemiColon => true,
        Token::NewLine => true,
        _ => false,
    }
}

} // verus!

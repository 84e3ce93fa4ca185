//! The abstract syntax tree of one statement.

use vstd::prelude::*;
use crate::scanner::{KeywordToken, Token, TokenView};

verus! {

/// A statement or expression: a closed set of three shapes, each node owning
/// its children.
#[derive(Debug, PartialEq)]
pub enum AbstractSyntaxTreeNode {
    /// A statement construct over one sub-tree.
    Construct(AbstractSyntaxTreeConstructNodeType, Box<AbstractSyntaxTreeNode>),
    /// A binary expression over a left and a right sub-tree.
    Expression(
        AbstractSyntaxTreeExpressionNodeType,
        Box<AbstractSyntaxTreeNode>,
        Box<AbstractSyntaxTreeNode>,
    ),
    /// A leaf.
    Leaf(AbstractSyntaxTreeLeafNodeType),
}

/// The statement constructs.
#[derive(Debug, PartialEq, Eq, Clone, Copy, Structural)]
pub enum AbstractSyntaxTreeConstructNodeType {
    Print,
    Declaration,
}

/// The binary operators.
#[derive(Debug, PartialEq, Eq, Clone, Copy, Structural)]
pub enum AbstractSyntaxTreeExpressionNodeType {
    Add,
    Subtract,
    Multiply,
    Divide,
    Assignment,
    LessThan,
    LessThanEqual,
    GreaterThan,
    GreaterThanEqual,
    NotEqual,
    Equality,
}

/// What a leaf holds.
#[derive(Debug, PartialEq)]
pub enum AbstractSyntaxTreeLeafNodeType {
    U32(u32),
    SemiColon,
    Identifier(String),
}

/// A leaf as a mathematical value: an identifier is its characters.
pub enum LeafView {
    U32(u32),
    SemiColon,
    Identifier(Seq<char>),
}

/// A tree as a mathematical value.
pub enum NodeView {
    Construct(AbstractSyntaxTreeConstructNodeType, Box<NodeView>),
    Expression(AbstractSyntaxTreeExpressionNodeType, Box<NodeView>, Box<NodeView>),
    Leaf(LeafView),
}

impl View for AbstractSyntaxTreeLeafNodeType {
    type V = LeafView;

    open spec fn view(&self) -> LeafView {
        match self {
            AbstractSyntaxTreeLeafNodeType::U32(v) => LeafView::U32(*v),
            AbstractSyntaxTreeLeafNodeType::SemiColon => LeafView::SemiColon,
            AbstractSyntaxTreeLeafNodeType::Identifier(name) => LeafView::Identifier(name@),
        }
    }
}

/// The mathematical value of `node`.
pub open spec fn node_view(node: AbstractSyntaxTreeNode) -> NodeView
    decreases node,
{
    match node {
        AbstractSyntaxTreeNode::Construct(op, child) => NodeView::Construct(
            op,
            Box::new(node_view(*child)),
        ),
        AbstractSyntaxTreeNode::Expression(op, left, right) => NodeView::Expression(
            op,
            Box::new(node_view(*left)),
            Box::new(node_view(*right)),
        ),
        AbstractSyntaxTreeNode::Leaf(leaf) => NodeView::Leaf(leaf@),
    }
}

impl View for AbstractSyntaxTreeNode {
    type V = NodeView;

    open spec fn view(&self) -> NodeView {
        node_view(*self)
    }
}

/// The leaf that a token becomes: only literals and identifiers are leaves.
pub open spec fn leaf_of(token: TokenView) -> Option<LeafView> {
    match token {
        TokenView::U32(v) => Some(LeafView::U32(v)),
        TokenView::Identifier(name) => Some(LeafView::Identifier(name)),
        _ => None,
    }
}

/// The statement construct that a keyword opens.
pub open spec fn construct_of(keyword: KeywordToken) -> Option<
    AbstractSyntaxTreeConstructNodeType,
> {
    match keyword {
        KeywordToken::Print => Some(AbstractSyntaxTreeConstructNodeType::Print),
        _ => None,
    }
}

/// The binary operator that an operator token stands for.
pub open spec fn operator_of(token: TokenView) -> Option<AbstractSyntaxTreeExpressionNodeType> {
    match token {
        TokenView::Plus => Some(AbstractSyntaxTreeExpressionNodeType::Add),
        TokenView::Minus => Some(AbstractSyntaxTreeExpressionNodeType::Subtract),
        TokenView::Star => Some(AbstractSyntaxTreeExpressionNodeType::Multiply),
        TokenView::Slash => Some(AbstractSyntaxTreeExpressionNodeType::Divide),
        TokenView::LessThan => Some(AbstractSyntaxTreeExpressionNodeType::LessThan),
        TokenView::LessThanEqual => Some(AbstractSyntaxTreeExpressionNodeType::LessThanEqual),
        TokenView::GreaterThan => Some(AbstractSyntaxTreeExpressionNodeType::GreaterThan),
        TokenView::GreaterThanEqual => Some(
            AbstractSyntaxTreeExpressionNodeType::GreaterThanEqual,
        ),
        TokenView::NotEqual => Some(AbstractSyntaxTreeExpressionNodeType::NotEqual),
        TokenView::Equality => Some(AbstractSyntaxTreeExpressionNodeType::Equality),
        _ => None,
    }
}

impl Clone for AbstractSyntaxTreeLeafNodeType {
    fn clone(&self) -> (copy: AbstractSyntaxTreeLeafNodeType)
        ensures
            copy@ == self@,
    {
        match self {
            AbstractSyntaxTreeLeafNodeType::U32(v) => AbstractSyntaxTreeLeafNodeType::U32(*v),
            AbstractSyntaxTreeLeafNodeType::SemiColon => AbstractSyntaxTreeLeafNodeType::SemiColon,
            AbstractSyntaxTreeLeafNodeType::Identifier(name) => {
                AbstractSyntaxTreeLeafNodeType::Identifier(name.clone())
            },
        }
    }
}

impl Clone for AbstractSyntaxTreeNode {
    fn clone(&self) -> (copy: AbstractSyntaxTreeNode)
        ensures
            copy@ == self@,
        decreases self,
    {
        match self {
            AbstractSyntaxTreeNode::Construct(op, child) => AbstractSyntaxTreeNode::Construct(
                *op,
                Box::new((**child).clone()),
            ),
            AbstractSyntaxTreeNode::Expression(op, left, right) => {
                AbstractSyntaxTreeNode::Expression(
                    *op,
                    Box::new((**left).clone()),
                    Box::new((**right).clone()),
                )
            },
            AbstractSyntaxTreeNode::Leaf(leaf) => AbstractSyntaxTreeNode::Leaf(leaf.clone()),
        }
    }
}

impl AbstractSyntaxTreeLeafNodeType {
    /// The leaf for a literal or identifier token; `None` for any other.
    pub fn from_token(token: &Token) -> (leaf: Option<AbstractSyntaxTreeLeafNodeType>)
        ensures
            match leaf_of(token@) {
                Some(expected) => leaf matches Some(found) && found@ == expected,
                None => leaf is None,
            },
    {
        match token {
            Token::U32(v) => Some(AbstractSyntaxTreeLeafNodeType::U32(*v)),
            Token::Identifier(v) => Some(AbstractSyntaxTreeLeafNodeType::Identifier(v.clone())),
            _ => None,
        }
    }
}

impl AbstractSyntaxTreeConstructNodeType {
    /// The construct that `keyword` opens; `None` for a keyword that opens
    /// none by itself.
    pub fn from_keyword(keyword: KeywordToken) -> (op: Option<
        AbstractSyntaxTreeConstructNodeType,
    >)
        ensures
            op == construct_of(keyword),
    {
        match keyword {
            KeywordToken::Print => Some(AbstractSyntaxTreeConstructNodeType::Print),
            _ => None,
        }
    }
}

impl AbstractSyntaxTreeExpressionNodeType {
    /// The operator for an operator token; `None` for any other token.
    pub fn from_token(token: &Token) -> (op: Option<AbstractSyntaxTreeExpressionNodeType>)
        ensures
            op == operator_of(token@),
    {
        match token {
            Token::Plus => Some(AbstractSyntaxTreeExpressionNodeType::Add),
            Token::Minus => Some(AbstractSyntaxTreeExpressionNodeType::Subtract),
            Token::Star => Some(AbstractSyntaxTreeExpressionNodeType::Multiply),
            Token::Slash => Some(AbstractSyntaxTreeExpressionNodeType::Divide),
            Token::LessThan => Some(AbstractSyntaxTreeExpressionNodeType::LessThan),
            Token::LessThanEqual => Some(AbstractSyntaxTreeExpressionNodeType::LessThanEqual),
            Token::GreaterThan => Some(AbstractSyntaxTreeExpressionNodeType::GreaterThan),
            Token::GreaterThanEqual => Some(
                AbstractSyntaxTreeExpressionNodeType::GreaterThanEqual,
            ),
            Token::NotEqual => Some(AbstractSyntaxTreeExpressionNodeType::NotEqual),
            Token::Equality => Some(AbstractSyntaxTreeExpressionNodeType::Equality),
            _ => None,
        }
    }
}

impl AbstractSyntaxTreeNode {
    /// A leaf node.
    pub fn new_leaf_node(op: AbstractSyntaxTreeLeafNodeType) -> (node: AbstractSyntaxTreeNode)
        ensures
            node@ == NodeView::Leaf(op@),
    {
        AbstractSyntaxTreeNode::Leaf(op)
    }

    /// A binary node over `left` and `right`.
    pub fn new_interior(
        op: AbstractSyntaxTreeExpressionNodeType,
        left: AbstractSyntaxTreeNode,
        right: AbstractSyntaxTreeNode,
    ) -> (node: AbstractSyntaxTreeNode)
        ensures
            node@ == NodeView::Expression(op, Box::new(left@), Box::new(right@)),
    {
        AbstractSyntaxTreeNode::Expression(op, Box::new(left), Box::new(right))
    }

    /// A statement construct over `left`.
    pub fn new_construct(
        op: AbstractSyntaxTreeConstructNodeType,
        left: AbstractSyntaxTreeNode,
    ) -> (node: AbstractSyntaxTreeNode)
        ensures
            node@ == NodeView::Construct(op, Box::new(left@)),
    {
        AbstractSyntaxTreeNode::Construct(op, Box::new(left))
    }
}

} // verus!

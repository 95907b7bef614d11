use crate::scanner::token::{LiteralView, Token, TokenView};
use vstd::prelude::*;

verus! {

/// An expression tree. Each node owns its children.
#[derive(Debug)]
pub enum AstNode {
    Grouping(Grouping),
    Binary(Binary),
    Unary(Unary),
    Literal(Literal),
}

/// A parenthesised expression.
#[derive(Debug)]
pub struct Grouping {
    pub expression: Box<AstNode>,
}

/// A binary operator with its two operands.
#[derive(Debug)]
pub struct Binary {
    pub left: Box<AstNode>,
    pub operator: Token,
    pub right: Box<AstNode>,
}

/// A prefix operator with its operand.
#[derive(Debug)]
pub struct Unary {
    pub operator: Token,
    pub right: Box<AstNode>,
}

/// A literal. A number is kept as its numeral, as in the token it came
/// from.
#[derive(Debug)]
pub enum Literal {
    Number(String),
    String(String),
    Boolean(bool),
    Nil,
}

/// What a [`Literal`] holds, as plain values.
pub enum Leaf {
    Number(Seq<char>),
    String(Seq<char>),
    Boolean(bool),
    Nil,
}

/// What an [`AstNode`] holds, as plain values.
pub enum Tree {
    Grouping(Box<Tree>),
    Binary(Box<Tree>, TokenView, Box<Tree>),
    Unary(TokenView, Box<Tree>),
    Literal(Leaf),
}

/// The leaf that a token's literal value makes.
pub open spec fn leaf_of(literal: LiteralView) -> Leaf {
    match literal {
        LiteralView::Number(numeral) => Leaf::Number(numeral),
        LiteralView::String(text) => Leaf::String(text),
    }
}

impl View for Literal {
    type V = Leaf;

    open spec fn view(&self) -> Leaf {
        match self {
            Literal::Number(numeral) => Leaf::Number(numeral@),
            Literal::String(text) => Leaf::String(text@),
            Literal::Boolean(b) => Leaf::Boolean(*b),
            Literal::Nil => Leaf::Nil,
        }
    }
}

/// The tree that a node stands for.
pub open spec fn tree_of(node: AstNode) -> Tree
    decreases node,
{
    match node {
        AstNode::Grouping(g) => Tree::Grouping(Box::new(tree_of(*g.expression))),
        AstNode::Binary(b) => Tree::Binary(
            Box::new(tree_of(*b.left)),
            b.operator@,
            Box::new(tree_of(*b.right)),
        ),
        AstNode::Unary(u) => Tree::Unary(u.operator@, Box::new(tree_of(*u.right))),
        AstNode::Literal(l) => Tree::Literal(l@),
    }
}

impl View for AstNode {
    type V = Tree;

    open spec fn view(&self) -> Tree {
        tree_of(*self)
    }
}

impl Grouping {
    pub fn new(expression: AstNode) -> (node: Self)
        ensures
            AstNode::Grouping(node)@ == Tree::Grouping(Box::new(expression@)),
    {
        Self { expression: Box::new(expression) }
    }
}

impl Binary {
    pub fn new(left: AstNode, operator: Token, right: AstNode) -> (node: Self)
        ensures
            AstNode::Binary(node)@ == Tree::Binary(
                Box::new(left@),
                operator@,
                Box::new(right@),
            ),
    {
        Self { left: Box::new(left), operator, right: Box::new(right) }
    }
}

impl Unary {
    pub fn new(operator: Token, right: AstNode) -> (node: Self)
        ensures
            AstNode::Unary(node)@ == Tree::Unary(operator@, Box::new(right@)),
    {
        Self { operator, right: Box::new(right) }
    }
}

impl Literal {
    /// The literal that a token's literal value makes.
    pub fn of_token(literal: crate::scanner::token::Literal) -> (made: Self)
        ensures
            made@ == leaf_of(literal@),
    {
        match literal {
            crate::scanner::token::Literal::Number(numeral) => Literal::Number(numeral),
            crate::scanner::token::Literal::String(text) => Literal::String(text),
        }
    }
}

impl From<Grouping> for AstNode {
    fn from(grouping: Grouping) -> (node: Self) {
        Self::Grouping(grouping)
    }
}

impl vstd::std_specs::convert::FromSpecImpl<Grouping> for AstNode {
    open spec fn obeys_from_spec() -> bool {
        true
    }

    open spec fn from_spec(grouping: Grouping) -> Self {
        AstNode::Grouping(grouping)
    }
}

impl From<Binary> for AstNode {
    fn from(binary: Binary) -> (node: Self) {
        Self::Binary(binary)
    }
}

impl vstd::std_specs::convert::FromSpecImpl<Binary> for AstNode {
    open spec fn obeys_from_spec() -> bool {
        true
    }

    open spec fn from_spec(binary: Binary) -> Self {
        AstNode::Binary(binary)
    }
}

impl From<Unary> for AstNode {
    fn from(unary: Unary) -> (node: Self) {
        Self::Unary(unary)
    }
}

impl vstd::std_specs::convert::FromSpecImpl<Unary> for AstNode {
    open spec fn obeys_from_spec() -> bool {
        true
    }

    open spec fn from_spec(unary: Unary) -> Self {
        AstNode::Unary(unary)
    }
}

impl From<Literal> for AstNode {
    fn from(literal: Literal) -> (node: Self) {
        Self::Literal(literal)
    }
}

impl vstd::std_specs::convert::FromSpecImpl<Literal> for AstNode {
    open spec fn obeys_from_spec() -> bool {
        true
    }

    open spec fn from_spec(literal: Literal) -> Self {
        AstNode::Literal(literal)
    }
}

} // verus!

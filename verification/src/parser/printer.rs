use crate::number::{
    lemma_numeral_renders_once, parses_one, render_numeral, renders_numeral, renders_one,
    Arithmetic,
};
use crate::parser::expr::{tree_of, AstNode, Binary, Grouping, Leaf, Literal, Tree, Unary};
use crate::scanner::token::{Token, TokenType, TokenView};
use vstd::prelude::*;
use vstd::string::*;

verus! {

/// Writes an expression tree in fully parenthesised prefix notation, such
/// as `(+ 1.0 2.0)` and `(group (- 3.0))`.
#[derive(Clone, Copy, Debug)]
pub struct AstPrinter;

/// Whether `text` may be how a literal is written: a number as the
/// arithmetic renders it, a string as its text without quotes, the rest by
/// their names.
pub open spec fn literal_prints<A: Arithmetic>(arith: &A, leaf: Leaf, text: Seq<char>) -> bool {
    match leaf {
        Leaf::Number(numeral) => renders_numeral(arith, numeral, text),
        Leaf::String(s) => text == s,
        Leaf::Boolean(b) => text == if b {
            "true"@
        } else {
            "false"@
        },
        Leaf::Nil => text == "nil"@,
    }
}

/// `(name part)`
pub open spec fn parenthesize_one(name: Seq<char>, part: Seq<char>) -> Seq<char> {
    "("@ + name + " "@ + part + ")"@
}

/// `(name first second)`
pub open spec fn parenthesize_two(name: Seq<char>, first: Seq<char>, second: Seq<char>) -> Seq<
    char,
> {
    "("@ + name + " "@ + first + " "@ + second + ")"@
}

/// The texts that a tree may be written as: there is one for each way in
/// which the arithmetic may render its numbers.
///
/// A grouping is `(group e)`, a unary node `(op e)` and a binary node
/// `(op l r)`, with the operator's lexeme for `op`.
pub open spec fn printings<A: Arithmetic>(arith: &A, tree: Tree) -> Set<Seq<char>>
    decreases tree,
{
    match tree {
        Tree::Literal(leaf) => Set::new(|text: Seq<char>| literal_prints(arith, leaf, text)),
        Tree::Grouping(inner) => {
            let inners = printings(arith, *inner);
            Set::new(
                |text: Seq<char>|
                    exists|e: Seq<char>| #[trigger]
                        inners.contains(e) && text == parenthesize_one("group"@, e),
            )
        },
        Tree::Unary(operator, right) => {
            let rights = printings(arith, *right);
            Set::new(
                |text: Seq<char>|
                    exists|e: Seq<char>| #[trigger]
                        rights.contains(e) && text == parenthesize_one(operator.lexeme, e),
            )
        },
        Tree::Binary(left, operator, right) => {
            let lefts = printings(arith, *left);
            let rights = printings(arith, *right);
            Set::new(
                |text: Seq<char>|
                    exists|l: Seq<char>, r: Seq<char>| #[trigger]
                        lefts.contains(l) && #[trigger] rights.contains(r) && text
                            == parenthesize_two(operator.lexeme, l, r),
            )
        },
    }
}

/// Whether `text` may be how a tree is written.
pub open spec fn prints<A: Arithmetic>(arith: &A, tree: Tree, text: Seq<char>) -> bool {
    printings(arith, tree).contains(text)
}

impl AstPrinter {
    /// The tree in prefix notation.
    pub fn print<A: Arithmetic>(self, expr: &AstNode, arith: &A) -> (text: String)
        ensures
            prints(arith, expr@, text@),
        decreases expr,
    {
        match expr {
            AstNode::Grouping(grouping) => self.visit_grouping_expr(grouping, arith),
            AstNode::Binary(binary) => self.visit_binary_expr(binary, arith),
            AstNode::Unary(unary) => self.visit_unary_expr(unary, arith),
            AstNode::Literal(literal) => self.visit_literal_expr(literal, arith),
        }
    }

    fn visit_grouping_expr<A: Arithmetic>(&self, expr: &Grouping, arith: &A) -> (text: String)
        ensures
            prints(arith, AstNode::Grouping(*expr)@, text@),
        decreases expr,
    {
        let inner = self.print(&expr.expression, arith);
        let mut output = String::from_str("(");
        output.append("group");
        output.append(" ");
        output.append(inner.as_str());
        output.append(")");
        assert(prints(arith, tree_of(*expr.expression), inner@));
        output
    }

    fn visit_binary_expr<A: Arithmetic>(&self, expr: &Binary, arith: &A) -> (text: String)
        ensures
            prints(arith, AstNode::Binary(*expr)@, text@),
        decreases expr,
    {
        let left = self.print(&expr.left, arith);
        let right = self.print(&expr.right, arith);
        let mut output = String::from_str("(");
        output.append(expr.operator.lexeme.as_str());
        output.append(" ");
        output.append(left.as_str());
        output.append(" ");
        output.append(right.as_str());
        output.append(")");
        assert(prints(arith, tree_of(*expr.left), left@));
        assert(prints(arith, tree_of(*expr.right), right@));
        output
    }

    fn visit_unary_expr<A: Arithmetic>(&self, expr: &Unary, arith: &A) -> (text: String)
        ensures
            prints(arith, AstNode::Unary(*expr)@, text@),
        decreases expr,
    {
        let right = self.print(&expr.right, arith);
        let mut output = String::from_str("(");
        output.append(expr.operator.lexeme.as_str());
        output.append(" ");
        output.append(right.as_str());
        output.append(")");
        assert(prints(arith, tree_of(*expr.right), right@));
        output
    }

    fn visit_literal_expr<A: Arithmetic>(&self, expr: &Literal, arith: &A) -> (text: String)
        ensures
            literal_prints(arith, expr@, text@),
    {
        match expr {
            Literal::Number(numeral) => render_numeral(arith, numeral.as_str()),
            Literal::String(s) => s.clone(),
            Literal::Boolean(b) => if *b {
                String::from_str("true")
            } else {
                String::from_str("false")
            },
            Literal::Nil => String::from_str("nil"),
        }
    }
}

/// Printing is a function of the tree and of the arithmetic: where a
/// numeral stands for one number and a number is written in one way, a tree
/// is written in one way.
pub proof fn lemma_printing_single<A: Arithmetic>(
    arith: &A,
    tree: Tree,
    t1: Seq<char>,
    t2: Seq<char>,
)
    requires
        parses_one(arith),
        renders_one(arith),
        prints(arith, tree, t1),
        prints(arith, tree, t2),
    ensures
        t1 == t2,
    decreases tree,
{
    match tree {
        Tree::Literal(leaf) => {
            if let Leaf::Number(numeral) = leaf {
                lemma_numeral_renders_once(arith, numeral, t1, t2);
            }
        },
        Tree::Grouping(inner) => {
            let inners = printings(arith, *inner);
            let e1 = choose|e: Seq<char>| #[trigger]
                inners.contains(e) && t1 == parenthesize_one("group"@, e);
            let e2 = choose|e: Seq<char>| #[trigger]
                inners.contains(e) && t2 == parenthesize_one("group"@, e);
            lemma_printing_single(arith, *inner, e1, e2);
        },
        Tree::Unary(operator, right) => {
            let rights = printings(arith, *right);
            let e1 = choose|e: Seq<char>| #[trigger]
                rights.contains(e) && t1 == parenthesize_one(operator.lexeme, e);
            let e2 = choose|e: Seq<char>| #[trigger]
                rights.contains(e) && t2 == parenthesize_one(operator.lexeme, e);
            lemma_printing_single(arith, *right, e1, e2);
        },
        Tree::Binary(left, operator, right) => {
            let lefts = printings(arith, *left);
            let rights = printings(arith, *right);
            let (l1, r1) = choose|l: Seq<char>, r: Seq<char>| #[trigger]
                lefts.contains(l) && #[trigger] rights.contains(r) && t1 == parenthesize_two(
                    operator.lexeme,
                    l,
                    r,
                );
            let (l2, r2) = choose|l: Seq<char>, r: Seq<char>| #[trigger]
                lefts.contains(l) && #[trigger] rights.contains(r) && t2 == parenthesize_two(
                    operator.lexeme,
                    l,
                    r,
                );
            lemma_printing_single(arith, *left, l1, l2);
            lemma_printing_single(arith, *right, r1, r2);
        },
    }
}

/// The tree of `0.0 + (-42)`, built by hand.
pub open spec fn example_tree() -> Tree {
    Tree::Binary(
        Box::new(Tree::Literal(Leaf::Number("0.0"@))),
        TokenView { typ: TokenType::Plus, lexeme: "+"@, literal: None, line: 1 },
        Box::new(
            Tree::Grouping(
                Box::new(
                    Tree::Unary(
                        TokenView { typ: TokenType::Minus, lexeme: "-"@, literal: None, line: 1 },
                        Box::new(Tree::Literal(Leaf::Number("42"@))),
                    ),
                ),
            ),
        ),
    )
}

/// Builds the tree of `0.0 + (-42)` by hand and writes it out.
pub fn print_example<A: Arithmetic>(arith: &A) -> (text: String)
    ensures
        prints(arith, example_tree(), text@),
{
    let expr = AstNode::Binary(
        Binary::new(
            AstNode::Literal(Literal::Number(String::from_str("0.0"))),
            Token::new(TokenType::Plus, String::from_str("+"), None, 1),
            AstNode::Grouping(
                Grouping::new(
                    AstNode::Unary(
                        Unary::new(
                            Token::new(TokenType::Minus, String::from_str("-"), None, 1),
                            AstNode::Literal(Literal::Number(String::from_str("42"))),
                        ),
                    ),
                ),
            ),
        ),
    );
    assert(expr@ == example_tree()) by {
        reveal_with_fuel(tree_of, 4);
    }
    AstPrinter.print(&expr, arith)
}

} // verus!

use crate::error::{token_report, ReportView};
use crate::parser::expr::{leaf_of, Leaf, Tree};
use crate::scanner::token::{TokenType, TokenView};
use vstd::prelude::*;

verus! {

/// The binary operators, by how tightly they bind: each tier's operands are
/// expressions of the next tier, and a factor's operands are unary
/// expressions.
#[derive(Clone, Copy, Debug, PartialEq, Eq, Structural)]
pub enum Tier {
    /// `!=` and `==`
    Equality,
    /// `>`, `>=`, `<` and `<=`
    Comparison,
    /// `-` and `+`
    Term,
    /// `/` and `*`
    Factor,
}

/// Whether a category is an operator of a tier.
pub open spec fn tier_has(tier: Tier, typ: TokenType) -> bool {
    match tier {
        Tier::Equality => typ == TokenType::BangEqual || typ == TokenType::EqualEqual,
        Tier::Comparison => typ == TokenType::Greater || typ == TokenType::GreaterEqual || typ
            == TokenType::Less || typ == TokenType::LessEqual,
        Tier::Term => typ == TokenType::Minus || typ == TokenType::Plus,
        Tier::Factor => typ == TokenType::Slash || typ == TokenType::Star,
    }
}

/// How loosely a tier binds: the loosest has the largest rank.
pub open spec fn rank(tier: Tier) -> nat {
    match tier {
        Tier::Equality => 4,
        Tier::Comparison => 3,
        Tier::Term => 2,
        Tier::Factor => 1,
    }
}

/// Whether a category is a prefix operator.
pub open spec fn is_prefix(typ: TokenType) -> bool {
    typ == TokenType::Bang || typ == TokenType::Minus
}

/// Whether the input is exhausted at `pos`: no token is left, or the
/// end-of-input token is next.
pub open spec fn at_end(tokens: Seq<TokenView>, pos: int) -> bool {
    pos < 0 || pos >= tokens.len() || tokens[pos].typ == TokenType::Eof
}

/// How many tokens are left at `pos`.
pub open spec fn left(tokens: Seq<TokenView>, pos: int) -> nat {
    if pos <= tokens.len() {
        (tokens.len() - pos) as nat
    } else {
        0
    }
}

pub open spec fn expect_expression() -> Seq<char> {
    "Expect expression."@
}

pub open spec fn expect_paren() -> Seq<char> {
    "Expect ')' after expression."@
}

/// The syntax error at `pos`: it is reported at the token there, which for
/// the end-of-input token reads "at end". Where no token is left at all, it
/// is reported at the end, on the line of the last token (line 1 if there is
/// none).
pub open spec fn error_at(tokens: Seq<TokenView>, pos: int, message: Seq<char>) -> ReportView {
    if 0 <= pos < tokens.len() {
        token_report(tokens[pos], message)
    } else {
        ReportView {
            line: if tokens.len() > 0 {
                tokens.last().line
            } else {
                1
            },
            location: Some(" at end"@),
            message,
        }
    }
}

/// `primary → NUMBER | STRING | "true" | "false" | "nil" | "(" expression ")"`
///
/// A tree and the position after it, or the syntax error. A NUMBER or STRING
/// token stands for its literal value; one that carries none is no
/// expression.
pub open spec fn parse_primary(tokens: Seq<TokenView>, pos: int) -> Result<(Tree, int), ReportView>
    decreases left(tokens, pos), 0nat,
{
    if at_end(tokens, pos) {
        Err(error_at(tokens, pos, expect_expression()))
    } else if tokens[pos].typ == TokenType::True {
        Ok((Tree::Literal(Leaf::Boolean(true)), pos + 1))
    } else if tokens[pos].typ == TokenType::False {
        Ok((Tree::Literal(Leaf::Boolean(false)), pos + 1))
    } else if tokens[pos].typ == TokenType::Nil {
        Ok((Tree::Literal(Leaf::Nil), pos + 1))
    } else if (tokens[pos].typ == TokenType::Number || tokens[pos].typ == TokenType::String)
        && tokens[pos].literal is Some {
        Ok((Tree::Literal(leaf_of(tokens[pos].literal->0)), pos + 1))
    } else if tokens[pos].typ == TokenType::LeftParen {
        match parse_expression(tokens, pos + 1) {
            Ok((inner, end)) => if !at_end(tokens, end) && tokens[end].typ
                == TokenType::RightParen {
                Ok((Tree::Grouping(Box::new(inner)), end + 1))
            } else {
                Err(error_at(tokens, end, expect_paren()))
            },
            Err(report) => Err(report),
        }
    } else {
        Err(error_at(tokens, pos, expect_expression()))
    }
}

/// `unary → ("!" | "-") unary | primary`
pub open spec fn parse_unary(tokens: Seq<TokenView>, pos: int) -> Result<(Tree, int), ReportView>
    decreases left(tokens, pos), 1nat,
{
    if !at_end(tokens, pos) && is_prefix(tokens[pos].typ) {
        match parse_unary(tokens, pos + 1) {
            Ok((right, end)) => Ok((Tree::Unary(tokens[pos], Box::new(right)), end)),
            Err(report) => Err(report),
        }
    } else {
        parse_primary(tokens, pos)
    }
}

/// An operand of a tier: an expression of the next tighter tier.
pub open spec fn parse_operand(tokens: Seq<TokenView>, pos: int, tier: Tier) -> Result<
    (Tree, int),
    ReportView,
>
    decreases left(tokens, pos), 2 * rank(tier),
{
    match tier {
        Tier::Equality => parse_tier(tokens, pos, Tier::Comparison),
        Tier::Comparison => parse_tier(tokens, pos, Tier::Term),
        Tier::Term => parse_tier(tokens, pos, Tier::Factor),
        Tier::Factor => parse_unary(tokens, pos),
    }
}

/// `tier → operand ( operator operand )*`
///
/// The test that the operand ends after `pos` is there for the definition
/// to terminate: every expression holds a token (`lemma_parse_advances`).
pub open spec fn parse_tier(tokens: Seq<TokenView>, pos: int, tier: Tier) -> Result<
    (Tree, int),
    ReportView,
>
    decreases left(tokens, pos), 2 * rank(tier) + 1,
{
    match parse_operand(tokens, pos, tier) {
        Ok((first, end)) if end > pos => parse_rest(tokens, end, tier, first),
        other => other,
    }
}

/// `( operator operand )*` behind `node`: while an operator of the tier is
/// next, it and the operand behind it are folded into the node on their
/// left, so that operators of one tier nest to the left. Here too the test
/// that the operand ends after `pos` is always met.
pub open spec fn parse_rest(tokens: Seq<TokenView>, pos: int, tier: Tier, node: Tree) -> Result<
    (Tree, int),
    ReportView,
>
    decreases left(tokens, pos), 2 * rank(tier),
{
    if !at_end(tokens, pos) && tier_has(tier, tokens[pos].typ) {
        match parse_operand(tokens, pos + 1, tier) {
            Ok((right, end)) if end > pos => parse_rest(
                tokens,
                end,
                tier,
                Tree::Binary(Box::new(node), tokens[pos], Box::new(right)),
            ),
            Ok(_) => Ok((node, pos)),
            Err(report) => Err(report),
        }
    } else {
        Ok((node, pos))
    }
}

/// `expression → equality`
pub open spec fn parse_expression(tokens: Seq<TokenView>, pos: int) -> Result<
    (Tree, int),
    ReportView,
>
    decreases left(tokens, pos), 10nat,
{
    parse_tier(tokens, pos, Tier::Equality)
}

} // verus!

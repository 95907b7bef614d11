use crate::parser::expr::{leaf_of, Leaf, Tree};
use crate::parser::grammar::{
    at_end, is_prefix, left, parse_expression, parse_operand, parse_primary, parse_rest,
    parse_tier, parse_unary, rank, tier_has, Tier,
};
use crate::scanner::token::{TokenType, TokenView};
use vstd::prelude::*;

verus! {

/// The tier of a binary operator.
pub open spec fn tier_of(typ: TokenType) -> Option<Tier> {
    if tier_has(Tier::Equality, typ) {
        Some(Tier::Equality)
    } else if tier_has(Tier::Comparison, typ) {
        Some(Tier::Comparison)
    } else if tier_has(Tier::Term, typ) {
        Some(Tier::Term)
    } else if tier_has(Tier::Factor, typ) {
        Some(Tier::Factor)
    } else {
        None
    }
}

/// The number of tokens that a tree is written with.
pub open spec fn width(tree: Tree) -> nat
    decreases tree,
{
    match tree {
        Tree::Literal(_) => 1,
        Tree::Grouping(inner) => width(*inner) + 2,
        Tree::Unary(_, right) => width(*right) + 1,
        Tree::Binary(l, _, r) => width(*l) + 1 + width(*r),
    }
}

/// Whether a token is the one that a literal is written with.
pub open spec fn writes(token: TokenView, leaf: Leaf) -> bool {
    match leaf {
        Leaf::Boolean(b) => token.typ == if b {
            TokenType::True
        } else {
            TokenType::False
        },
        Leaf::Nil => token.typ == TokenType::Nil,
        _ => (token.typ == TokenType::Number || token.typ == TokenType::String)
            && token.literal is Some && leaf_of(token.literal->0) == leaf,
    }
}

/// Whether `tree` is what the tokens from `pos` on say, read as an
/// expression that binds at least as tightly as `level`: 0 for a primary
/// expression, 1 for a unary one, and one more than its rank for a tier.
///
/// The tree is written with the `width(tree)` tokens from `pos`, none of
/// them the end-of-input token. A binary node stands on an operator of
/// some tier no looser than `level`; what is on its left binds at least as
/// tightly as that tier, and what is on its right binds tighter. So
/// multiplication binds tighter than addition, and operators of one tier
/// group from the left.
pub open spec fn spans(tree: Tree, tokens: Seq<TokenView>, pos: int, level: nat) -> bool
    decreases tree,
{
    match tree {
        Tree::Literal(leaf) => !at_end(tokens, pos) && writes(tokens[pos], leaf),
        Tree::Grouping(inner) => {
            &&& !at_end(tokens, pos)
            &&& tokens[pos].typ == TokenType::LeftParen
            &&& spans(*inner, tokens, pos + 1, 5)
            &&& !at_end(tokens, pos + 1 + width(*inner))
            &&& tokens[pos + 1 + width(*inner)].typ == TokenType::RightParen
        },
        Tree::Unary(operator, right) => {
            &&& level >= 1
            &&& !at_end(tokens, pos)
            &&& tokens[pos] == operator
            &&& is_prefix(operator.typ)
            &&& spans(*right, tokens, pos + 1, 1)
        },
        Tree::Binary(l, operator, r) => {
            &&& tier_of(operator.typ) is Some
            &&& rank(tier_of(operator.typ)->0) + 1 <= level
            &&& spans(*l, tokens, pos, rank(tier_of(operator.typ)->0) + 1)
            &&& !at_end(tokens, pos + width(*l))
            &&& tokens[pos + width(*l)] == operator
            &&& spans(*r, tokens, pos + width(*l) + 1, rank(tier_of(operator.typ)->0))
        },
    }
}

/// What binds at least as tightly as one level does so for every looser
/// level.
pub proof fn lemma_spans_looser(
    tree: Tree,
    tokens: Seq<TokenView>,
    pos: int,
    level: nat,
    looser: nat,
)
    requires
        spans(tree, tokens, pos, level),
        level <= looser,
    ensures
        spans(tree, tokens, pos, looser),
{
}

proof fn lemma_primary_shape(tokens: Seq<TokenView>, pos: int)
    requires
        parse_primary(tokens, pos) is Ok,
    ensures
        spans(parse_primary(tokens, pos)->Ok_0.0, tokens, pos, 0),
        parse_primary(tokens, pos)->Ok_0.1 == pos + width(parse_primary(tokens, pos)->Ok_0.0),
    decreases left(tokens, pos), 0nat,
{
    if !at_end(tokens, pos) && tokens[pos].typ == TokenType::LeftParen {
        lemma_expression_shape(tokens, pos + 1);
    }
}

proof fn lemma_unary_shape(tokens: Seq<TokenView>, pos: int)
    requires
        parse_unary(tokens, pos) is Ok,
    ensures
        spans(parse_unary(tokens, pos)->Ok_0.0, tokens, pos, 1),
        parse_unary(tokens, pos)->Ok_0.1 == pos + width(parse_unary(tokens, pos)->Ok_0.0),
    decreases left(tokens, pos), 1nat,
{
    if !at_end(tokens, pos) && is_prefix(tokens[pos].typ) {
        lemma_unary_shape(tokens, pos + 1);
    } else {
        lemma_primary_shape(tokens, pos);
        lemma_spans_looser(parse_primary(tokens, pos)->Ok_0.0, tokens, pos, 0, 1);
    }
}

proof fn lemma_operand_shape(tokens: Seq<TokenView>, pos: int, tier: Tier)
    requires
        parse_operand(tokens, pos, tier) is Ok,
    ensures
        spans(parse_operand(tokens, pos, tier)->Ok_0.0, tokens, pos, rank(tier)),
        parse_operand(tokens, pos, tier)->Ok_0.1 == pos + width(
            parse_operand(tokens, pos, tier)->Ok_0.0,
        ),
    decreases left(tokens, pos), 2 * rank(tier),
{
    match tier {
        Tier::Equality => lemma_tier_shape(tokens, pos, Tier::Comparison),
        Tier::Comparison => lemma_tier_shape(tokens, pos, Tier::Term),
        Tier::Term => lemma_tier_shape(tokens, pos, Tier::Factor),
        Tier::Factor => lemma_unary_shape(tokens, pos),
    }
}

proof fn lemma_tier_shape(tokens: Seq<TokenView>, pos: int, tier: Tier)
    requires
        parse_tier(tokens, pos, tier) is Ok,
    ensures
        spans(parse_tier(tokens, pos, tier)->Ok_0.0, tokens, pos, rank(tier) + 1),
        parse_tier(tokens, pos, tier)->Ok_0.1 == pos + width(parse_tier(tokens, pos, tier)->Ok_0.0),
    decreases left(tokens, pos), 2 * rank(tier) + 1,
{
    lemma_operand_shape(tokens, pos, tier);
    let first = parse_operand(tokens, pos, tier)->Ok_0.0;
    let end = parse_operand(tokens, pos, tier)->Ok_0.1;
    lemma_spans_looser(first, tokens, pos, rank(tier), rank(tier) + 1);
    assert(end > pos);
    lemma_rest_shape(tokens, end, tier, first, pos);
}

proof fn lemma_rest_shape(tokens: Seq<TokenView>, pos: int, tier: Tier, node: Tree, start: int)
    requires
        parse_rest(tokens, pos, tier, node) is Ok,
        spans(node, tokens, start, rank(tier) + 1),
        pos == start + width(node),
    ensures
        spans(parse_rest(tokens, pos, tier, node)->Ok_0.0, tokens, start, rank(tier) + 1),
        parse_rest(tokens, pos, tier, node)->Ok_0.1 == start + width(
            parse_rest(tokens, pos, tier, node)->Ok_0.0,
        ),
    decreases left(tokens, pos), 2 * rank(tier),
{
    if !at_end(tokens, pos) && tier_has(tier, tokens[pos].typ) {
        lemma_operand_shape(tokens, pos + 1, tier);
        let right = parse_operand(tokens, pos + 1, tier)->Ok_0.0;
        let end = parse_operand(tokens, pos + 1, tier)->Ok_0.1;
        let folded = Tree::Binary(Box::new(node), tokens[pos], Box::new(right));
        assert(tier_of(tokens[pos].typ) == Some(tier));
        assert(spans(folded, tokens, start, rank(tier) + 1));
        lemma_rest_shape(tokens, end, tier, folded, start);
    }
}

proof fn lemma_expression_shape(tokens: Seq<TokenView>, pos: int)
    requires
        parse_expression(tokens, pos) is Ok,
    ensures
        spans(parse_expression(tokens, pos)->Ok_0.0, tokens, pos, 5),
        parse_expression(tokens, pos)->Ok_0.1 == pos + width(parse_expression(tokens, pos)->Ok_0.0),
    decreases left(tokens, pos), 10nat,
{
    lemma_tier_shape(tokens, pos, Tier::Equality);
}

/// Operator precedence and left-associativity: whenever the grammar gives
/// a tree for the tokens from `pos` on, the tree is written with exactly
/// the tokens that were read, and at every binary node the left operand
/// binds at least as tightly as the operator and the right operand binds
/// tighter.
pub proof fn lemma_parse_shape(tokens: Seq<TokenView>, pos: int)
    requires
        parse_expression(tokens, pos) is Ok,
    ensures
        spans(parse_expression(tokens, pos)->Ok_0.0, tokens, pos, 5),
        parse_expression(tokens, pos)->Ok_0.1 == pos + width(parse_expression(tokens, pos)->Ok_0.0),
        0 <= pos < parse_expression(tokens, pos)->Ok_0.1 <= tokens.len(),
{
    lemma_expression_shape(tokens, pos);
    lemma_spans_inside(parse_expression(tokens, pos)->Ok_0.0, tokens, pos, 5);
}

/// Every operand holds a token: where the grammar gives one, it ends
/// after the position it started at. The test in `parse_tier` and
/// `parse_rest` that an operand advanced is therefore always met.
pub proof fn lemma_parse_advances(tokens: Seq<TokenView>, pos: int, tier: Tier)
    requires
        parse_operand(tokens, pos, tier) is Ok,
    ensures
        parse_operand(tokens, pos, tier)->Ok_0.1 > pos,
{
    lemma_operand_shape(tokens, pos, tier);
    lemma_spans_inside(parse_operand(tokens, pos, tier)->Ok_0.0, tokens, pos, rank(tier));
}

/// A tree is written with tokens that are there.
pub proof fn lemma_spans_inside(tree: Tree, tokens: Seq<TokenView>, pos: int, level: nat)
    requires
        spans(tree, tokens, pos, level),
    ensures
        0 <= pos,
        width(tree) >= 1,
        pos + width(tree) <= tokens.len(),
    decreases tree,
{
    match tree {
        Tree::Literal(_) => {},
        Tree::Grouping(inner) => {
            lemma_spans_inside(*inner, tokens, pos + 1, 5);
        },
        Tree::Unary(_, right) => {
            lemma_spans_inside(*right, tokens, pos + 1, 1);
        },
        Tree::Binary(l, operator, r) => {
            let tier = tier_of(operator.typ)->0;
            lemma_spans_inside(*l, tokens, pos, rank(tier) + 1);
            lemma_spans_inside(*r, tokens, pos + width(*l) + 1, rank(tier));
        },
    }
}

} // verus!

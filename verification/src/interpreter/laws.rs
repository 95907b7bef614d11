use crate::interpreter::{
    binary_yields, division_by_zero, fails, evaluates, is_boolean, is_number, is_numeric, literal_yields, numeric_yields,
    outcomes, unary_yields, Outcome,
};
use crate::number::{parses, parses_one, Arithmetic, Number};
use crate::parser::expr::{Leaf, Tree};
use crate::scanner::token::{TokenType, TokenView};
use crate::value::{values_equal, ValueView};
use vstd::prelude::*;

verus! {

/// Round trip: evaluating a literal never fails, and gives the literal's
/// own payload: the same text for a string, the same truth value for a
/// boolean, `nil` for `nil`, and for a number what its numeral parses to.
pub proof fn lemma_literal_round_trip<A: Arithmetic>(arith: &A, leaf: Leaf, out: Outcome)
    requires
        evaluates(arith, Tree::Literal(leaf), out),
    ensures
        out is Ok,
        literal_yields(arith, leaf, out->Ok_0),
        leaf is String ==> out->Ok_0 == ValueView::String(leaf->String_0),
        leaf is Boolean ==> out->Ok_0 == ValueView::Boolean(leaf->Boolean_0),
        leaf is Nil ==> out->Ok_0 == ValueView::Nil,
        leaf is Number ==> out->Ok_0 is Number && parses(
            arith,
            leaf->Number_0,
            out->Ok_0->Number_0,
        ),
{
}

/// Grouping changes nothing: a parenthesised expression evaluates to what
/// the expression inside evaluates to.
pub proof fn lemma_grouping_is_transparent<A: Arithmetic>(arith: &A, inner: Tree, out: Outcome)
    ensures
        evaluates(arith, Tree::Grouping(Box::new(inner)), out) == evaluates(arith, inner, out),
{
}

/// Division by zero is an error, never a number: where the arithmetic
/// finds the divisor to be zero, `/` fails, whatever the dividend.
pub proof fn lemma_division_by_zero<A: Arithmetic>(
    arith: &A,
    operator: TokenView,
    a: Number,
    b: Number,
    out: Outcome,
)
    requires
        operator.typ == TokenType::Slash,
        binary_yields(arith, operator, ValueView::Number(a), ValueView::Number(b), out),
        !call_ensures(A::is_zero, (arith, b), false),
    ensures
        out == fails(operator, division_by_zero()),
{
}

/// `==` and `!=` never fail, whatever their operands are.
pub proof fn lemma_equality_never_fails<A: Arithmetic>(
    arith: &A,
    operator: TokenView,
    l: ValueView,
    r: ValueView,
    out: Outcome,
)
    requires
        operator.typ == TokenType::EqualEqual || operator.typ == TokenType::BangEqual,
        binary_yields(arith, operator, l, r, out),
    ensures
        out is Ok,
        out->Ok_0 is Boolean,
{
}

/// An arithmetic each of whose operations has one answer for each input.
pub open spec fn single_valued<A: Arithmetic>(arith: &A) -> bool {
    &&& parses_one(arith)
    &&& forall|a: Number, r1: Number, r2: Number|
        #[trigger] call_ensures(A::negate, (arith, a), r1) && #[trigger] call_ensures(
            A::negate,
            (arith, a),
            r2,
        ) ==> r1 == r2
    &&& forall|a: Number, b: Number, r1: Number, r2: Number|
        #[trigger] call_ensures(A::add, (arith, a, b), r1) && #[trigger] call_ensures(
            A::add,
            (arith, a, b),
            r2,
        ) ==> r1 == r2
    &&& forall|a: Number, b: Number, r1: Number, r2: Number|
        #[trigger] call_ensures(A::subtract, (arith, a, b), r1) && #[trigger] call_ensures(
            A::subtract,
            (arith, a, b),
            r2,
        ) ==> r1 == r2
    &&& forall|a: Number, b: Number, r1: Number, r2: Number|
        #[trigger] call_ensures(A::multiply, (arith, a, b), r1) && #[trigger] call_ensures(
            A::multiply,
            (arith, a, b),
            r2,
        ) ==> r1 == r2
    &&& forall|a: Number, b: Number, r1: Number, r2: Number|
        #[trigger] call_ensures(A::divide, (arith, a, b), r1) && #[trigger] call_ensures(
            A::divide,
            (arith, a, b),
            r2,
        ) ==> r1 == r2
    &&& forall|a: Number, r1: bool, r2: bool|
        #[trigger] call_ensures(A::is_zero, (arith, a), r1) && #[trigger] call_ensures(
            A::is_zero,
            (arith, a),
            r2,
        ) ==> r1 == r2
    &&& forall|a: Number, b: Number, r1: bool, r2: bool|
        #[trigger] call_ensures(A::equal, (arith, a, b), r1) && #[trigger] call_ensures(
            A::equal,
            (arith, a, b),
            r2,
        ) ==> r1 == r2
    &&& forall|a: Number, b: Number, r1: bool, r2: bool|
        #[trigger] call_ensures(A::less, (arith, a, b), r1) && #[trigger] call_ensures(
            A::less,
            (arith, a, b),
            r2,
        ) ==> r1 == r2
    &&& forall|a: Number, b: Number, r1: bool, r2: bool|
        #[trigger] call_ensures(A::less_equal, (arith, a, b), r1) && #[trigger] call_ensures(
            A::less_equal,
            (arith, a, b),
            r2,
        ) ==> r1 == r2
    &&& forall|a: Number, b: Number, r1: bool, r2: bool|
        #[trigger] call_ensures(A::greater, (arith, a, b), r1) && #[trigger] call_ensures(
            A::greater,
            (arith, a, b),
            r2,
        ) ==> r1 == r2
    &&& forall|a: Number, b: Number, r1: bool, r2: bool|
        #[trigger] call_ensures(A::greater_equal, (arith, a, b), r1) && #[trigger] call_ensures(
            A::greater_equal,
            (arith, a, b),
            r2,
        ) ==> r1 == r2
}

/// With a single-valued arithmetic a literal has one value.
pub proof fn lemma_literal_single<A: Arithmetic>(arith: &A, leaf: Leaf, v1: ValueView, v2: ValueView)
    requires
        single_valued(arith),
        literal_yields(arith, leaf, v1),
        literal_yields(arith, leaf, v2),
    ensures
        v1 == v2,
{
    if let Leaf::Number(numeral) = leaf {
        let s1 = choose|s: &str|
            s@ == numeral && #[trigger] call_ensures(A::parse, (arith, s), v1->Number_0);
        let s2 = choose|s: &str|
            s@ == numeral && #[trigger] call_ensures(A::parse, (arith, s), v2->Number_0);
        assert(s1@ == s2@);
    }
}

/// With a single-valued arithmetic two values are equal or they are not.
pub proof fn lemma_equality_single<A: Arithmetic>(
    arith: &A,
    a: ValueView,
    b: ValueView,
    s1: bool,
    s2: bool,
)
    requires
        single_valued(arith),
        values_equal(arith, a, b, s1),
        values_equal(arith, a, b, s2),
    ensures
        s1 == s2,
{
}

/// With a single-valued arithmetic a prefix operator has one outcome.
pub proof fn lemma_unary_single<A: Arithmetic>(
    arith: &A,
    operator: TokenView,
    operand: ValueView,
    o1: Outcome,
    o2: Outcome,
)
    requires
        single_valued(arith),
        unary_yields(arith, operator, operand, o1),
        unary_yields(arith, operator, operand, o2),
    ensures
        o1 == o2,
{
}

/// With a single-valued arithmetic an operator on two numbers has one
/// outcome.
pub proof fn lemma_numeric_single<A: Arithmetic>(
    arith: &A,
    operator: TokenView,
    a: Number,
    b: Number,
    o1: Outcome,
    o2: Outcome,
)
    requires
        single_valued(arith),
        numeric_yields(arith, operator, a, b, o1),
        numeric_yields(arith, operator, a, b, o2),
    ensures
        o1 == o2,
{
}

/// With a single-valued arithmetic a binary operator has one outcome.
pub proof fn lemma_binary_single<A: Arithmetic>(
    arith: &A,
    operator: TokenView,
    l: ValueView,
    r: ValueView,
    o1: Outcome,
    o2: Outcome,
)
    requires
        single_valued(arith),
        binary_yields(arith, operator, l, r, o1),
        binary_yields(arith, operator, l, r, o2),
    ensures
        o1 == o2,
{
    if operator.typ == TokenType::EqualEqual || operator.typ == TokenType::BangEqual {
        let s1 = choose|same: bool| #[trigger]
            values_equal(arith, l, r, same) && (is_boolean(o1, same) || is_boolean(o1, !same));
        let s2 = choose|same: bool| #[trigger]
            values_equal(arith, l, r, same) && (is_boolean(o2, same) || is_boolean(o2, !same));
        lemma_equality_single(arith, l, r, s1, s2);
    } else if is_numeric(operator.typ) {
        if let (ValueView::Number(a), ValueView::Number(b)) = (l, r) {
            lemma_numeric_single(arith, operator, a, b, o1, o2);
        }
    }
}

/// Evaluation is a function of the tree and of the arithmetic: where each
/// operation of the arithmetic has one answer, a tree has one outcome.
pub proof fn lemma_evaluation_single<A: Arithmetic>(arith: &A, tree: Tree, o1: Outcome, o2: Outcome)
    requires
        single_valued(arith),
        evaluates(arith, tree, o1),
        evaluates(arith, tree, o2),
    ensures
        o1 == o2,
    decreases tree,
{
    match tree {
        Tree::Literal(leaf) => {
            lemma_literal_single(arith, leaf, o1->Ok_0, o2->Ok_0);
        },
        Tree::Grouping(inner) => {
            lemma_evaluation_single(arith, *inner, o1, o2);
        },
        Tree::Unary(operator, right) => {
            let operands = outcomes(arith, *right);
            let a1 = choose|operand: Outcome| #[trigger]
                operands.contains(operand) && match operand {
                    Ok(value) => unary_yields(arith, operator, value, o1),
                    Err(_) => o1 == operand,
                };
            let a2 = choose|operand: Outcome| #[trigger]
                operands.contains(operand) && match operand {
                    Ok(value) => unary_yields(arith, operator, value, o2),
                    Err(_) => o2 == operand,
                };
            lemma_evaluation_single(arith, *right, a1, a2);
            if let Ok(value) = a1 {
                lemma_unary_single(arith, operator, value, o1, o2);
            }
        },
        Tree::Binary(left, operator, right) => {
            let lefts = outcomes(arith, *left);
            let rights = outcomes(arith, *right);
            let l1 = choose|l: Outcome| #[trigger]
                lefts.contains(l) && match l {
                    Ok(lv) => exists|r: Outcome| #[trigger]
                        rights.contains(r) && match r {
                            Ok(rv) => binary_yields(arith, operator, lv, rv, o1),
                            Err(_) => o1 == r,
                        },
                    Err(_) => o1 == l,
                };
            let l2 = choose|l: Outcome| #[trigger]
                lefts.contains(l) && match l {
                    Ok(lv) => exists|r: Outcome| #[trigger]
                        rights.contains(r) && match r {
                            Ok(rv) => binary_yields(arith, operator, lv, rv, o2),
                            Err(_) => o2 == r,
                        },
                    Err(_) => o2 == l,
                };
            lemma_evaluation_single(arith, *left, l1, l2);
            if let Ok(lv) = l1 {
                let r1 = choose|r: Outcome| #[trigger]
                    rights.contains(r) && match r {
                        Ok(rv) => binary_yields(arith, operator, lv, rv, o1),
                        Err(_) => o1 == r,
                    };
                let r2 = choose|r: Outcome| #[trigger]
                    rights.contains(r) && match r {
                        Ok(rv) => binary_yields(arith, operator, lv, rv, o2),
                        Err(_) => o2 == r,
                    };
                lemma_evaluation_single(arith, *right, r1, r2);
                if let Ok(rv) = r1 {
                    lemma_binary_single(arith, operator, lv, rv, o1, o2);
                }
            }
        },
    }
}

} // verus!

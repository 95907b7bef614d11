use crate::interpreter::error::{EvalError, EvalErrorView, RuntimeError, RuntimeErrorView};
use crate::number::{parses, Arithmetic, Number};
use crate::parser::expr::{tree_of, AstNode, Binary, Leaf, Literal, Tree, Unary};
use crate::scanner::token::{Token, TokenType, TokenView};
use crate::value::{truthy, value_renders, values_equal, Value, ValueView};
use vstd::prelude::*;
use vstd::string::*;

/// Error types returned when expression evaluation fails at runtime.
pub mod error;
pub mod laws;

verus! {

/// How an evaluation ends, as plain values.
pub type Outcome = Result<ValueView, EvalErrorView>;

/// The outcome that the result of an evaluation stands for.
pub open spec fn outcome_of(r: Result<Value, EvalError>) -> Outcome {
    match r {
        Ok(value) => Ok(value@),
        Err(error) => Err(error@),
    }
}

pub open spec fn operand_must_be_number() -> Seq<char> {
    "Operand must be a number."@
}

pub open spec fn operands_must_be_numbers() -> Seq<char> {
    "Operands must be numbers."@
}

pub open spec fn operands_must_match() -> Seq<char> {
    "Operands must be two numbers or two strings."@
}

pub open spec fn division_by_zero() -> Seq<char> {
    "Division by 0"@
}

/// The failure of an operator, for a given reason.
pub open spec fn fails(operator: TokenView, message: Seq<char>) -> Outcome {
    Err(EvalErrorView::Runtime(RuntimeErrorView { token: operator, message }))
}

/// Whether `value` may be the value of a literal: its own payload, which
/// for a number is what the arithmetic parses its numeral to.
pub open spec fn literal_yields<A: Arithmetic>(arith: &A, leaf: Leaf, value: ValueView) -> bool {
    match leaf {
        Leaf::Number(numeral) => value is Number && parses(arith, numeral, value->Number_0),
        Leaf::String(text) => value == ValueView::String(text),
        Leaf::Boolean(b) => value == ValueView::Boolean(b),
        Leaf::Nil => value == ValueView::Nil,
    }
}

/// Whether `out` may be the outcome of a prefix operator on a value.
///
/// `!` gives the negation of the operand's truthiness. `-` gives the
/// negation of a number and fails on anything else.
pub open spec fn unary_yields<A: Arithmetic>(
    arith: &A,
    operator: TokenView,
    operand: ValueView,
    out: Outcome,
) -> bool {
    if operator.typ == TokenType::Bang {
        out == Ok::<ValueView, EvalErrorView>(ValueView::Boolean(!truthy(operand)))
    } else if operator.typ == TokenType::Minus {
        match operand {
            ValueView::Number(n) => out is Ok && out->Ok_0 is Number && call_ensures(
                A::negate,
                (arith, n),
                out->Ok_0->Number_0,
            ),
            _ => out == fails(operator, operand_must_be_number()),
        }
    } else {
        out == Err::<ValueView, EvalErrorView>(EvalErrorView::InvalidOperator(operator))
    }
}

/// Whether `out` is the number `n`.
pub open spec fn is_number(out: Outcome, n: Number) -> bool {
    out == Ok::<ValueView, EvalErrorView>(ValueView::Number(n))
}

/// Whether `out` is the boolean `b`.
pub open spec fn is_boolean(out: Outcome, b: bool) -> bool {
    out == Ok::<ValueView, EvalErrorView>(ValueView::Boolean(b))
}

/// Whether `out` may be the outcome of an arithmetic or comparison
/// operator on two numbers. Division by a divisor that the arithmetic finds
/// to be zero fails.
pub open spec fn numeric_yields<A: Arithmetic>(
    arith: &A,
    operator: TokenView,
    a: Number,
    b: Number,
    out: Outcome,
) -> bool {
    match operator.typ {
        TokenType::Minus => exists|n: Number|
            #[trigger] call_ensures(A::subtract, (arith, a, b), n) && is_number(out, n),
        TokenType::Star => exists|n: Number|
            #[trigger] call_ensures(A::multiply, (arith, a, b), n) && is_number(out, n),
        TokenType::Slash => {
            ||| call_ensures(A::is_zero, (arith, b), true) && out == fails(
                operator,
                division_by_zero(),
            )
            ||| call_ensures(A::is_zero, (arith, b), false) && exists|n: Number|
                #[trigger] call_ensures(A::divide, (arith, a, b), n) && is_number(out, n)
        },
        TokenType::Greater => exists|t: bool|
            #[trigger] call_ensures(A::greater, (arith, a, b), t) && is_boolean(out, t),
        TokenType::GreaterEqual => exists|t: bool|
            #[trigger] call_ensures(A::greater_equal, (arith, a, b), t) && is_boolean(out, t),
        TokenType::Less => exists|t: bool|
            #[trigger] call_ensures(A::less, (arith, a, b), t) && is_boolean(out, t),
        TokenType::LessEqual => exists|t: bool|
            #[trigger] call_ensures(A::less_equal, (arith, a, b), t) && is_boolean(out, t),
        _ => false,
    }
}

/// Whether a category is an operator on two numbers only.
pub open spec fn is_numeric(typ: TokenType) -> bool {
    typ == TokenType::Minus || typ == TokenType::Star || typ == TokenType::Slash || typ
        == TokenType::Greater || typ == TokenType::GreaterEqual || typ == TokenType::Less || typ
        == TokenType::LessEqual
}

/// Whether `out` may be the outcome of a binary operator on two values.
///
/// `==` and `!=` never fail. `-`, `*`, `/`, `>`, `>=`, `<` and `<=` take two
/// numbers and fail on anything else. `+` adds two numbers, joins two
/// strings, and fails on anything else.
pub open spec fn binary_yields<A: Arithmetic>(
    arith: &A,
    operator: TokenView,
    l: ValueView,
    r: ValueView,
    out: Outcome,
) -> bool {
    if operator.typ == TokenType::EqualEqual {
        exists|same: bool| #[trigger] values_equal(arith, l, r, same) && is_boolean(out, same)
    } else if operator.typ == TokenType::BangEqual {
        exists|same: bool| #[trigger] values_equal(arith, l, r, same) && is_boolean(out, !same)
    } else if is_numeric(operator.typ) {
        match (l, r) {
            (ValueView::Number(a), ValueView::Number(b)) => numeric_yields(
                arith,
                operator,
                a,
                b,
                out,
            ),
            _ => out == fails(operator, operands_must_be_numbers()),
        }
    } else if operator.typ == TokenType::Plus {
        match (l, r) {
            (ValueView::Number(a), ValueView::Number(b)) => exists|n: Number|
                #[trigger] call_ensures(A::add, (arith, a, b), n) && is_number(out, n),
            (ValueView::String(a), ValueView::String(b)) => out == Ok::<ValueView, EvalErrorView>(
                ValueView::String(a + b),
            ),
            _ => out == fails(operator, operands_must_match()),
        }
    } else {
        out == Err::<ValueView, EvalErrorView>(EvalErrorView::InvalidOperator(operator))
    }
}

/// The outcomes that evaluating a tree may have: there is one for each way
/// in which the arithmetic may answer.
///
/// The walk is depth first: the operands of an operator are evaluated
/// before it is applied, the left one first, and the first failure is the
/// outcome of the whole.
pub open spec fn outcomes<A: Arithmetic>(arith: &A, tree: Tree) -> Set<Outcome>
    decreases tree,
{
    match tree {
        Tree::Literal(leaf) => Set::new(
            |out: Outcome| out is Ok && literal_yields(arith, leaf, out->Ok_0),
        ),
        Tree::Grouping(inner) => outcomes(arith, *inner),
        Tree::Unary(operator, right) => {
            let operands = outcomes(arith, *right);
            Set::new(
                |out: Outcome|
                    exists|operand: Outcome| #[trigger]
                        operands.contains(operand) && match operand {
                            Ok(value) => unary_yields(arith, operator, value, out),
                            Err(_) => out == operand,
                        },
            )
        },
        Tree::Binary(left, operator, right) => {
            let lefts = outcomes(arith, *left);
            let rights = outcomes(arith, *right);
            Set::new(
                |out: Outcome|
                    exists|l: Outcome| #[trigger]
                        lefts.contains(l) && match l {
                            Ok(lv) => exists|r: Outcome| #[trigger]
                                rights.contains(r) && match r {
                                    Ok(rv) => binary_yields(arith, operator, lv, rv, out),
                                    Err(_) => out == r,
                                },
                            Err(_) => out == l,
                        },
            )
        },
    }
}

/// Whether `out` may be the outcome of evaluating a tree.
pub open spec fn evaluates<A: Arithmetic>(arith: &A, tree: Tree, out: Outcome) -> bool {
    outcomes(arith, tree).contains(out)
}

/// Converts two runtime values into numeric operands for arithmetic/comparison.
///
/// Returns a [`RuntimeError`] if either operand is not a number.
fn check_number_operands(left: &Value, right: &Value, op: &Token) -> (r: Result<
    (Number, Number),
    RuntimeError,
>)
    ensures
        match (left@, right@) {
            (ValueView::Number(a), ValueView::Number(b)) => r == Ok::<
                (Number, Number),
                RuntimeError,
            >((a, b)),
            _ => r is Err && r->Err_0@ == (RuntimeErrorView {
                token: op@,
                message: operands_must_be_numbers(),
            }),
        },
{
    match (left, right) {
        (Value::Number(a), Value::Number(b)) => Ok((*a, *b)),
        _ => Err(RuntimeError::new(op.clone(), "Operands must be numbers.")),
    }
}

/// A tree-walking evaluator.
#[derive(Debug, Clone, Copy)]
pub struct Interpreter;

impl Interpreter {
    /// Evaluates an expression tree and renders its value as text.
    pub fn interpret<A: Arithmetic>(&self, expr: &AstNode, arith: &A) -> (r: Result<
        String,
        EvalError,
    >)
        ensures
            exists|out: Outcome| #[trigger]
                evaluates(arith, expr@, out) && match out {
                    Ok(value) => r is Ok && value_renders(arith, value, r->Ok_0@),
                    Err(error) => r is Err && r->Err_0@ == error,
                },
    {
        match self.evaluate(expr, arith) {
            Ok(value) => {
                let text = value.render(arith);
                assert(evaluates(arith, expr@, Ok::<ValueView, EvalErrorView>(value@)));
                Ok(text)
            },
            Err(error) => {
                assert(evaluates(arith, expr@, Err::<ValueView, EvalErrorView>(error@)));
                Err(error)
            },
        }
    }

    /// Evaluates a single expression tree.
    ///
    /// Returns the resulting value or the first failure.
    pub fn evaluate<A: Arithmetic>(&self, expr: &AstNode, arith: &A) -> (r: Result<
        Value,
        EvalError,
    >)
        ensures
            evaluates(arith, expr@, outcome_of(r)),
        decreases expr,
    {
        match expr {
            AstNode::Literal(literal) => self.visit_literal_expr(literal, arith),
            AstNode::Grouping(grouping) => self.evaluate(&grouping.expression, arith),
            AstNode::Unary(unary) => self.visit_unary_expr(unary, arith),
            AstNode::Binary(binary) => self.visit_binary_expr(binary, arith),
        }
    }

    /// Produces the value represented by a literal expression.
    fn visit_literal_expr<A: Arithmetic>(&self, expr: &Literal, arith: &A) -> (r: Result<
        Value,
        EvalError,
    >)
        ensures
            r is Ok,
            literal_yields(arith, expr@, r->Ok_0@),
    {
        Ok(
            match expr {
                Literal::Number(numeral) => {
                    let n = arith.parse(numeral.as_str());
                    assert(parses(arith, numeral@, n));
                    Value::Number(n)
                },
                Literal::String(text) => Value::String(text.clone()),
                Literal::Boolean(b) => Value::Boolean(*b),
                Literal::Nil => Value::Nil,
            },
        )
    }

    /// Evaluates unary operators such as logical negation and numeric negation.
    ///
    /// Returns an error when numeric negation is applied to a non-number.
    fn visit_unary_expr<A: Arithmetic>(&self, expr: &Unary, arith: &A) -> (r: Result<
        Value,
        EvalError,
    >)
        ensures
            evaluates(arith, AstNode::Unary(*expr)@, outcome_of(r)),
        decreases expr,
    {
        let right = self.evaluate(&expr.right, arith);
        let ghost operand = outcome_of(right);
        let r = match right {
            Ok(right) => Self::apply_unary(&expr.operator, right, arith),
            Err(error) => Err(error),
        };
        proof {
            assert(evaluates(arith, tree_of(*expr.right), operand));
        }
        r
    }

    /// Evaluates binary operators including arithmetic, comparison, and equality.
    ///
    /// Returns an error for invalid operand types or invalid numeric operations.
    fn visit_binary_expr<A: Arithmetic>(&self, expr: &Binary, arith: &A) -> (r: Result<
        Value,
        EvalError,
    >)
        ensures
            evaluates(arith, AstNode::Binary(*expr)@, outcome_of(r)),
        decreases expr,
    {
        let left = match self.evaluate(&expr.left, arith) {
            Ok(left) => left,
            Err(error) => {
                assert(evaluates(
                    arith,
                    tree_of(*expr.left),
                    Err::<ValueView, EvalErrorView>(error@),
                ));
                return Err(error);
            },
        };
        let ghost l = Ok::<ValueView, EvalErrorView>(left@);
        assert(evaluates(arith, tree_of(*expr.left), l));
        let right = match self.evaluate(&expr.right, arith) {
            Ok(right) => right,
            Err(error) => {
                assert(evaluates(
                    arith,
                    tree_of(*expr.right),
                    Err::<ValueView, EvalErrorView>(error@),
                ));
                return Err(error);
            },
        };
        assert(evaluates(
            arith,
            tree_of(*expr.right),
            Ok::<ValueView, EvalErrorView>(right@),
        ));
        Self::apply_binary(&expr.operator, left, right, arith)
    }

    /// Applies a prefix operator to the value of its operand.
    pub fn apply_unary<A: Arithmetic>(operator: &Token, operand: Value, arith: &A) -> (r: Result<
        Value,
        EvalError,
    >)
        ensures
            unary_yields(arith, operator@, operand@, outcome_of(r)),
    {
        match operator.typ {
            TokenType::Bang => Ok(Value::Boolean(!operand.is_truthy())),
            TokenType::Minus => match operand {
                Value::Number(n) => Ok(Value::Number(arith.negate(n))),
                _ => Err(
                    EvalError::Runtime(
                        RuntimeError::new(operator.clone(), "Operand must be a number."),
                    ),
                ),
            },
            _ => Err(EvalError::InvalidOperator(operator.clone())),
        }
    }

    /// Applies a binary operator to the values of its operands.
    pub fn apply_binary<A: Arithmetic>(
        operator: &Token,
        left: Value,
        right: Value,
        arith: &A,
    ) -> (r: Result<Value, EvalError>)
        ensures
            binary_yields(arith, operator@, left@, right@, outcome_of(r)),
    {
        match operator.typ {
            TokenType::BangEqual => {
                let same = left.equals(&right, arith);
                Ok(Value::Boolean(!same))
            },
            TokenType::EqualEqual => {
                let same = left.equals(&right, arith);
                Ok(Value::Boolean(same))
            },
            TokenType::Plus => match (left, right) {
                (Value::Number(a), Value::Number(b)) => Ok(Value::Number(arith.add(a, b))),
                (Value::String(a), Value::String(b)) => Ok(Value::String(a.concat(b.as_str()))),
                _ => Err(
                    EvalError::Runtime(
                        RuntimeError::new(
                            operator.clone(),
                            "Operands must be two numbers or two strings.",
                        ),
                    ),
                ),
            },
            TokenType::Minus | TokenType::Star | TokenType::Slash | TokenType::Greater
            | TokenType::GreaterEqual | TokenType::Less | TokenType::LessEqual => {
                match check_number_operands(&left, &right, operator) {
                    Ok((a, b)) => Self::apply_numeric(operator, a, b, arith),
                    Err(error) => Err(EvalError::Runtime(error)),
                }
            },
            _ => Err(EvalError::InvalidOperator(operator.clone())),
        }
    }

    /// Applies an arithmetic or comparison operator to two numbers.
    fn apply_numeric<A: Arithmetic>(operator: &Token, a: Number, b: Number, arith: &A) -> (r:
        Result<Value, EvalError>)
        requires
            is_numeric(operator.typ),
        ensures
            numeric_yields(arith, operator@, a, b, outcome_of(r)),
    {
        match operator.typ {
            TokenType::Minus => Ok(Value::Number(arith.subtract(a, b))),
            TokenType::Star => Ok(Value::Number(arith.multiply(a, b))),
            TokenType::Slash => {
                if arith.is_zero(b) {
                    Err(EvalError::Runtime(RuntimeError::new(operator.clone(), "Division by 0")))
                } else {
                    Ok(Value::Number(arith.divide(a, b)))
                }
            },
            TokenType::Greater => Ok(Value::Boolean(arith.greater(a, b))),
            TokenType::GreaterEqual => Ok(Value::Boolean(arith.greater_equal(a, b))),
            TokenType::Less => Ok(Value::Boolean(arith.less(a, b))),
            _ => Ok(Value::Boolean(arith.less_equal(a, b))),
        }
    }
}

} // verus!

use crate::number::{renders, Arithmetic, Number};
use vstd::prelude::*;
use vstd::string::*;

verus! {

/// A runtime value.
#[derive(Debug)]
pub enum Value {
    Number(Number),
    String(String),
    Boolean(bool),
    Nil,
}

/// What a [`Value`] holds, as plain values.
pub enum ValueView {
    Number(Number),
    String(Seq<char>),
    Boolean(bool),
    Nil,
}

impl View for Value {
    type V = ValueView;

    open spec fn view(&self) -> ValueView {
        match self {
            Value::Number(n) => ValueView::Number(*n),
            Value::String(text) => ValueView::String(text@),
            Value::Boolean(b) => ValueView::Boolean(*b),
            Value::Nil => ValueView::Nil,
        }
    }
}

impl Clone for Value {
    fn clone(&self) -> (copy: Self)
        ensures
            copy@ == self@,
    {
        match self {
            Value::Number(n) => Value::Number(*n),
            Value::String(text) => Value::String(text.clone()),
            Value::Boolean(b) => Value::Boolean(*b),
            Value::Nil => Value::Nil,
        }
    }
}

impl From<bool> for Value {
    fn from(b: bool) -> (value: Self) {
        Value::Boolean(b)
    }
}

impl vstd::std_specs::convert::FromSpecImpl<bool> for Value {
    open spec fn obeys_from_spec() -> bool {
        true
    }

    open spec fn from_spec(b: bool) -> Self {
        Value::Boolean(b)
    }
}

impl From<String> for Value {
    fn from(s: String) -> (value: Self) {
        Value::String(s)
    }
}

impl vstd::std_specs::convert::FromSpecImpl<String> for Value {
    open spec fn obeys_from_spec() -> bool {
        true
    }

    open spec fn from_spec(s: String) -> Self {
        Value::String(s)
    }
}

impl From<Number> for Value {
    fn from(n: Number) -> (value: Self) {
        Value::Number(n)
    }
}

impl vstd::std_specs::convert::FromSpecImpl<Number> for Value {
    open spec fn obeys_from_spec() -> bool {
        true
    }

    open spec fn from_spec(n: Number) -> Self {
        Value::Number(n)
    }
}

/// `nil` is false, a boolean is itself, and every other value is true.
pub open spec fn truthy(value: ValueView) -> bool {
    match value {
        ValueView::Nil => false,
        ValueView::Boolean(b) => b,
        _ => true,
    }
}

/// Whether `same` may be the answer to "are `a` and `b` equal?". Values of
/// different kinds are unequal; two strings, two booleans or two `nil`s are
/// equal when they are the same; of two numbers the arithmetic decides.
pub open spec fn values_equal<A: Arithmetic>(
    arith: &A,
    a: ValueView,
    b: ValueView,
    same: bool,
) -> bool {
    match (a, b) {
        (ValueView::Number(x), ValueView::Number(y)) => call_ensures(A::equal, (arith, x, y), same),
        (ValueView::String(x), ValueView::String(y)) => same == (x == y),
        (ValueView::Boolean(x), ValueView::Boolean(y)) => same == (x == y),
        (ValueView::Nil, ValueView::Nil) => same,
        _ => !same,
    }
}

/// Whether `text` may be the canonical text of a value: a string is its
/// own text without quotes, a boolean is `true` or `false`, `nil` is `nil`,
/// and a number is what the arithmetic renders it as.
pub open spec fn value_renders<A: Arithmetic>(arith: &A, value: ValueView, text: Seq<char>) -> bool {
    match value {
        ValueView::Number(n) => renders(arith, n, text),
        ValueView::String(s) => text == s,
        ValueView::Boolean(b) => text == if b {
            "true"@
        } else {
            "false"@
        },
        ValueView::Nil => text == "nil"@,
    }
}

impl Value {
    /// Check whether a value is truthy, which is defined as
    /// `nil` is false, booleans keep their value, and all other values are true.
    pub fn is_truthy(&self) -> (b: bool)
        ensures
            b == truthy(self@),
    {
        match self {
            Value::Nil => false,
            Value::Boolean(b) => *b,
            _ => true,
        }
    }

    /// Whether two values are equal. Comparing values of different kinds is
    /// no error: they are unequal.
    pub fn equals<A: Arithmetic>(&self, other: &Value, arith: &A) -> (same: bool)
        ensures
            values_equal(arith, self@, other@, same),
    {
        match (self, other) {
            (Value::Number(x), Value::Number(y)) => arith.equal(*x, *y),
            (Value::String(x), Value::String(y)) => *x == *y,
            (Value::Boolean(x), Value::Boolean(y)) => *x == *y,
            (Value::Nil, Value::Nil) => true,
            _ => false,
        }
    }

    /// The canonical text of a value.
    pub fn render<A: Arithmetic>(&self, arith: &A) -> (text: String)
        ensures
            value_renders(arith, self@, text@),
    {
        match self {
            Value::Number(n) => arith.render(*n),
            Value::String(text) => text.clone(),
            Value::Boolean(b) => if *b {
                String::from_str("true")
            } else {
                String::from_str("false")
            },
            Value::Nil => String::from_str("nil"),
        }
    }
}

/// Rendering is idempotent: the canonical text of a value, taken as a
/// string value, renders as itself.
pub proof fn lemma_render_idempotent<A: Arithmetic>(arith: &A, value: ValueView, text: Seq<char>)
    requires
        value_renders(arith, value, text),
    ensures
        value_renders(arith, ValueView::String(text), text),
{
}

} // verus!

use vstd::prelude::*;

verus! {

/// A number of the language: an IEEE-754 double, carried as its 64-bit
/// pattern. The library never looks inside one; it hands numbers to an
/// [`Arithmetic`] and stores what comes back.
#[derive(Clone, Copy, Debug)]
pub struct Number {
    pub bits: u64,
}

/// The operations on numbers that the language needs, one method for each.
///
/// The methods carry no contract: the library is verified for every
/// implementation, and its own contracts speak of an implementation only
/// through the answers it may give (`call_ensures`). The intended
/// implementation computes on doubles: `parse` reads a decimal numeral
/// (digits, optionally a dot and more digits), `render` writes a number with
/// a trailing `.0` when its fractional part is zero and in shortest decimal
/// form otherwise, and the rest are the operators of the same name.
pub trait Arithmetic {
    fn parse(&self, numeral: &str) -> Number;

    fn render(&self, n: Number) -> String;

    fn negate(&self, n: Number) -> Number;

    fn add(&self, a: Number, b: Number) -> Number;

    fn subtract(&self, a: Number, b: Number) -> Number;

    fn multiply(&self, a: Number, b: Number) -> Number;

    fn divide(&self, a: Number, b: Number) -> Number;

    fn is_zero(&self, n: Number) -> bool;

    fn equal(&self, a: Number, b: Number) -> bool;

    fn less(&self, a: Number, b: Number) -> bool;

    fn less_equal(&self, a: Number, b: Number) -> bool;

    fn greater(&self, a: Number, b: Number) -> bool;

    fn greater_equal(&self, a: Number, b: Number) -> bool;
}

/// `arith.parse` may answer `n` for a numeral whose text is `numeral`.
pub open spec fn parses<A: Arithmetic>(arith: &A, numeral: Seq<char>, n: Number) -> bool {
    exists|s: &str| s@ == numeral && #[trigger] call_ensures(A::parse, (arith, s), n)
}

/// `arith.render` may answer a string whose text is `text` for `n`.
pub open spec fn renders<A: Arithmetic>(arith: &A, n: Number, text: Seq<char>) -> bool {
    exists|s: String| s@ == text && #[trigger] call_ensures(A::render, (arith, n), s)
}

/// Rendering the number that a numeral stands for may give `text`.
pub open spec fn renders_numeral<A: Arithmetic>(
    arith: &A,
    numeral: Seq<char>,
    text: Seq<char>,
) -> bool {
    exists|n: Number| #[trigger] parses(arith, numeral, n) && renders(arith, n, text)
}

/// Whether a numeral stands for one number: `arith.parse` has one answer
/// for each text.
pub open spec fn parses_one<A: Arithmetic>(arith: &A) -> bool {
    forall|s1: &str, s2: &str, n1: Number, n2: Number|
        s1@ == s2@ && #[trigger] call_ensures(A::parse, (arith, s1), n1) && #[trigger] call_ensures(
            A::parse,
            (arith, s2),
            n2,
        ) ==> n1 == n2
}

/// Whether a number is written in one way: `arith.render` has one answer
/// for each number.
pub open spec fn renders_one<A: Arithmetic>(arith: &A) -> bool {
    forall|n: Number, s1: String, s2: String|
        #[trigger] call_ensures(A::render, (arith, n), s1) && #[trigger] call_ensures(
            A::render,
            (arith, n),
            s2,
        ) ==> s1@ == s2@
}

/// Where a numeral stands for one number and a number is written in one
/// way, a numeral is rendered in one way.
pub proof fn lemma_numeral_renders_once<A: Arithmetic>(
    arith: &A,
    numeral: Seq<char>,
    t1: Seq<char>,
    t2: Seq<char>,
)
    requires
        parses_one(arith),
        renders_one(arith),
        renders_numeral(arith, numeral, t1),
        renders_numeral(arith, numeral, t2),
    ensures
        t1 == t2,
{
    let n1 = choose|n: Number| #[trigger] parses(arith, numeral, n) && renders(arith, n, t1);
    let n2 = choose|n: Number| #[trigger] parses(arith, numeral, n) && renders(arith, n, t2);
    let s1 = choose|s: &str| s@ == numeral && #[trigger] call_ensures(A::parse, (arith, s), n1);
    let s2 = choose|s: &str| s@ == numeral && #[trigger] call_ensures(A::parse, (arith, s), n2);
    assert(s1@ == s2@);
    assert(n1 == n2);
    let r1 = choose|s: String| s@ == t1 && #[trigger] call_ensures(A::render, (arith, n1), s);
    let r2 = choose|s: String| s@ == t2 && #[trigger] call_ensures(A::render, (arith, n1), s);
    assert(r1@ == r2@);
}

/// Parses a numeral and renders the number it stands for.
pub fn render_numeral<A: Arithmetic>(arith: &A, numeral: &str) -> (text: String)
    ensures
        renders_numeral(arith, numeral@, text@),
{
    let n = arith.parse(numeral);
    let text = arith.render(n);
    assert(parses(arith, numeral@, n));
    assert(renders(arith, n, text@));
    text
}

} // verus!

use crate::error::{line_report, ReportView};
use crate::scanner::token::{eof_token, LiteralView, TokenType, TokenView};
use vstd::prelude::*;

verus! {

/// What one pull on the scanner gives: a token, a lexical error, or nothing
/// (white space, a comment).
pub enum ScanResultView {
    Result(Result<TokenView, ReportView>),
    Ignore,
}

pub open spec fn is_digit(c: char) -> bool {
    '0' <= c && c <= '9'
}

pub open spec fn is_letter(c: char) -> bool {
    c == '_' || ('a' <= c && c <= 'z') || ('A' <= c && c <= 'Z')
}

pub open spec fn is_word_char(c: char) -> bool {
    is_letter(c) || is_digit(c)
}

/// A stretch of characters that is read to its end in one go.
#[derive(Clone, Copy, Debug, PartialEq, Eq, Structural)]
pub enum Run {
    /// ASCII digits.
    Digits,
    /// Letters, digits and underscores.
    Word,
    /// Everything up to the end of the line.
    Comment,
    /// Everything up to the next double quote.
    Text,
}

/// Whether `c` belongs to a run.
pub open spec fn continues(run: Run, c: char) -> bool {
    match run {
        Run::Digits => is_digit(c),
        Run::Word => is_word_char(c),
        Run::Comment => c != '\n',
        Run::Text => c != '"',
    }
}

/// Where the run that starts at `from` ends: the first position at or after
/// `from` whose character does not belong to it, or the end of the source.
pub open spec fn run_end(src: Seq<char>, from: int, run: Run) -> int
    decreases src.len() - from,
{
    if from < src.len() && continues(run, src[from]) {
        run_end(src, from + 1, run)
    } else {
        from
    }
}

/// The category of a reserved word, if `word` is one.
pub open spec fn keyword(word: Seq<char>) -> Option<TokenType> {
    if word == "and"@ {
        Some(TokenType::And)
    } else if word == "class"@ {
        Some(TokenType::Class)
    } else if word == "else"@ {
        Some(TokenType::Else)
    } else if word == "false"@ {
        Some(TokenType::False)
    } else if word == "for"@ {
        Some(TokenType::For)
    } else if word == "fun"@ {
        Some(TokenType::Fun)
    } else if word == "if"@ {
        Some(TokenType::If)
    } else if word == "nil"@ {
        Some(TokenType::Nil)
    } else if word == "or"@ {
        Some(TokenType::Or)
    } else if word == "print"@ {
        Some(TokenType::Print)
    } else if word == "return"@ {
        Some(TokenType::Return)
    } else if word == "super"@ {
        Some(TokenType::Super)
    } else if word == "this"@ {
        Some(TokenType::This)
    } else if word == "true"@ {
        Some(TokenType::True)
    } else if word == "var"@ {
        Some(TokenType::Var)
    } else if word == "while"@ {
        Some(TokenType::While)
    } else {
        None
    }
}

/// The category of a character that is a token by itself whatever follows.
pub open spec fn single(c: char) -> Option<TokenType> {
    if c == '(' {
        Some(TokenType::LeftParen)
    } else if c == ')' {
        Some(TokenType::RightParen)
    } else if c == '{' {
        Some(TokenType::LeftBrace)
    } else if c == '}' {
        Some(TokenType::RightBrace)
    } else if c == '*' {
        Some(TokenType::Star)
    } else if c == '.' {
        Some(TokenType::Dot)
    } else if c == ',' {
        Some(TokenType::Comma)
    } else if c == '+' {
        Some(TokenType::Plus)
    } else if c == '-' {
        Some(TokenType::Minus)
    } else if c == ';' {
        Some(TokenType::Semicolon)
    } else {
        None
    }
}

/// Where the number that starts at `pos` ends: after its digits, and after a
/// dot and the digits behind it if a digit follows the dot at once.
pub open spec fn number_end(src: Seq<char>, pos: int) -> int {
    let whole = run_end(src, pos, Run::Digits);
    if whole + 1 < src.len() && src[whole] == '.' && is_digit(src[whole + 1]) {
        run_end(src, whole + 1, Run::Digits)
    } else {
        whole
    }
}

/// What the scanner finds at a position.
pub enum Kind {
    Token(TokenType),
    Ignore,
    Unexpected,
    Unterminated,
}

/// What the scanner finds at a position, and where it goes on from.
pub struct Step {
    pub kind: Kind,
    pub end: int,
}

/// An operator of one character that `=` may lengthen: the longer one is
/// taken when it is there.
pub open spec fn lengthened(src: Seq<char>, pos: int, long: TokenType, short: TokenType) -> Step {
    if pos + 1 < src.len() && src[pos + 1] == '=' {
        Step { kind: Kind::Token(long), end: pos + 2 }
    } else {
        Step { kind: Kind::Token(short), end: pos + 1 }
    }
}

/// The step that the scanner takes at `pos`, a position inside the source.
pub open spec fn step(src: Seq<char>, pos: int) -> Step
    recommends
        0 <= pos < src.len(),
{
    let c = src[pos];
    if single(c) is Some {
        Step { kind: Kind::Token(single(c)->0), end: pos + 1 }
    } else if c == '=' {
        lengthened(src, pos, TokenType::EqualEqual, TokenType::Equal)
    } else if c == '!' {
        lengthened(src, pos, TokenType::BangEqual, TokenType::Bang)
    } else if c == '<' {
        lengthened(src, pos, TokenType::LessEqual, TokenType::Less)
    } else if c == '>' {
        lengthened(src, pos, TokenType::GreaterEqual, TokenType::Greater)
    } else if c == '/' {
        if pos + 1 < src.len() && src[pos + 1] == '/' {
            Step { kind: Kind::Ignore, end: run_end(src, pos + 2, Run::Comment) }
        } else {
            Step { kind: Kind::Token(TokenType::Slash), end: pos + 1 }
        }
    } else if c == ' ' || c == '\t' || c == '\r' || c == '\n' {
        Step { kind: Kind::Ignore, end: pos + 1 }
    } else if c == '"' {
        let close = run_end(src, pos + 1, Run::Text);
        if close < src.len() {
            Step { kind: Kind::Token(TokenType::String), end: close + 1 }
        } else {
            Step { kind: Kind::Unterminated, end: close }
        }
    } else if is_digit(c) {
        Step { kind: Kind::Token(TokenType::Number), end: number_end(src, pos) }
    } else if is_letter(c) {
        let end = run_end(src, pos + 1, Run::Word);
        let typ = match keyword(src.subrange(pos, end)) {
            Some(typ) => typ,
            None => TokenType::Identifier,
        };
        Step { kind: Kind::Token(typ), end }
    } else {
        Step { kind: Kind::Unexpected, end: pos + 1 }
    }
}

/// The number of line feeds in a text.
pub open spec fn newlines(text: Seq<char>) -> nat
    decreases text.len(),
{
    if text.len() == 0 {
        0
    } else {
        newlines(text.drop_last()) + if text.last() == '\n' {
            1nat
        } else {
            0nat
        }
    }
}

/// The line that position `pos` is on: one more than the number of line
/// feeds before it. The count stops at the largest value of its type.
pub open spec fn line_at(src: Seq<char>, pos: int) -> u32
    recommends
        0 <= pos <= src.len(),
{
    let line = 1 + newlines(src.take(pos));
    if line <= u32::MAX {
        line as u32
    } else {
        u32::MAX
    }
}

/// The literal value of a token: the numeral of a number, the text between
/// the quotes of a string, nothing for any other token.
pub open spec fn literal_of(typ: TokenType, lexeme: Seq<char>) -> Option<LiteralView> {
    if typ == TokenType::Number {
        Some(LiteralView::Number(lexeme))
    } else if typ == TokenType::String {
        Some(LiteralView::String(lexeme.subrange(1, lexeme.len() - 1)))
    } else {
        None
    }
}

pub open spec fn unexpected_character(c: char) -> Seq<char> {
    "Unexpected character: "@.push(c)
}

pub open spec fn unterminated_string() -> Seq<char> {
    "Unterminated string."@
}

/// The token of a category whose lexeme is `src[pos..end]`. It is on the
/// line where it ends.
pub open spec fn token_at(src: Seq<char>, pos: int, end: int, typ: TokenType) -> TokenView {
    let lexeme = src.subrange(pos, end);
    TokenView { typ, lexeme, literal: literal_of(typ, lexeme), line: line_at(src, end) }
}

/// What the scanner gives for the step at `pos`. An error is reported on
/// the line where the step ends.
pub open spec fn result(src: Seq<char>, pos: int) -> ScanResultView
    recommends
        0 <= pos < src.len(),
{
    let end = step(src, pos).end;
    match step(src, pos).kind {
        Kind::Token(typ) => ScanResultView::Result(Ok(token_at(src, pos, end, typ))),
        Kind::Ignore => ScanResultView::Ignore,
        Kind::Unexpected => ScanResultView::Result(
            Err(line_report(line_at(src, end), unexpected_character(src[pos]))),
        ),
        Kind::Unterminated => ScanResultView::Result(
            Err(line_report(line_at(src, end), unterminated_string())),
        ),
    }
}

/// The end-of-input token of a source.
pub open spec fn end_marker(src: Seq<char>) -> ScanResultView {
    ScanResultView::Result(Ok(eof_token(line_at(src, src.len() as int))))
}

/// Everything the scanner gives from `pos` on: the result of each step in
/// turn, then the end-of-input token.
pub open spec fn scan_from(src: Seq<char>, pos: int) -> Seq<ScanResultView>
    decreases src.len() - pos,
    via scan_from_decreases
{
    if 0 <= pos < src.len() {
        seq![result(src, pos)] + scan_from(src, step(src, pos).end)
    } else {
        seq![end_marker(src)]
    }
}

#[via_fn]
proof fn scan_from_decreases(src: Seq<char>, pos: int) {
    if 0 <= pos < src.len() {
        lemma_step_advances(src, pos);
    }
}

/// Everything the scanner gives for a source.
pub open spec fn scan(src: Seq<char>) -> Seq<ScanResultView> {
    scan_from(src, 0)
}

/// A run ends at or after its start, inside the source, and holds only
/// characters that belong to it.
pub proof fn lemma_run_end(src: Seq<char>, from: int, run: Run)
    requires
        0 <= from <= src.len(),
    ensures
        from <= run_end(src, from, run) <= src.len(),
        forall|i: int| from <= i < run_end(src, from, run) ==> continues(run, #[trigger] src[i]),
        run_end(src, from, run) < src.len() ==> !continues(
            run,
            src[run_end(src, from, run)],
        ),
    decreases src.len() - from,
{
    if from < src.len() && continues(run, src[from]) {
        lemma_run_end(src, from + 1, run);
    }
}

/// Every step consumes at least one character and stays inside the source.
pub proof fn lemma_step_advances(src: Seq<char>, pos: int)
    requires
        0 <= pos < src.len(),
    ensures
        pos < step(src, pos).end <= src.len(),
{
    let c = src[pos];
    if pos + 2 <= src.len() {
        lemma_run_end(src, pos + 2, Run::Comment);
    }
    lemma_run_end(src, pos + 1, Run::Text);
    lemma_run_end(src, pos + 1, Run::Word);
    if is_digit(c) {
        lemma_run_end(src, pos, Run::Digits);
        let whole = run_end(src, pos, Run::Digits);
        assert(whole > pos);
        if whole + 1 < src.len() {
            lemma_run_end(src, whole + 1, Run::Digits);
        }
    }
}

} // verus!

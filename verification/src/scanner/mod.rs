use crate::error::{Report, ReportView};
use crate::scanner::rules::{
    continues, end_marker, is_digit, is_letter, keyword, lemma_run_end, lemma_step_advances,
    lengthened, line_at, number_end, result, run_end, scan, scan_from, single, step, token_at,
    Kind, Run, ScanResultView,
};
use crate::scanner::token::{eof_token, Literal, Token, TokenType, TokenView};
use crate::text::{chars_of, push_char, spells, text_of};
use vstd::prelude::*;
use vstd::string::*;

pub mod rules;
pub mod token;

verus! {

/// A scanner over a source text.
pub struct Scanner<'src> {
    // Raw source code
    source: &'src str,
}

impl<'src> Scanner<'src> {
    /// The text that the scanner reads.
    pub closed spec fn text(&self) -> Seq<char> {
        self.source@
    }

    pub fn new(source: &'src str) -> (scanner: Scanner<'src>)
        ensures
            scanner.text() == source@,
    {
        Self { source }
    }

    /// A stream at the start of the source, on line 1: it will give
    /// `scan(self.text())`, one result at a time.
    pub fn scan_tokens(&self) -> (stream: TokenStream)
        ensures
            stream.wf(),
            stream.source() == self.text(),
            stream.position() == 0,
            !stream.exhausted(),
            stream.remaining() == scan(self.text()),
    {
        let chars = chars_of(self.source);
        assert(chars@.take(0) =~= Seq::<char>::empty());
        TokenStream { line: 1, chars, pos: 0, at_end: false }
    }
}

/// The scanner's place in a source: what it reads, how far it has read, and
/// the line it is on.
pub struct TokenStream {
    /// The characters of the source code being scanned
    chars: Vec<char>,
    /// How many of them have been read
    pos: usize,
    /// The current line number in the source code
    line: u32,
    /// Whether the end of the token stream has been reached
    at_end: bool,
}

/// What one pull on a [`TokenStream`] gives.
#[derive(Debug)]
pub enum ScanResult {
    Result(Result<Token, Report>),
    Ignore,
}

impl View for ScanResult {
    type V = ScanResultView;

    open spec fn view(&self) -> ScanResultView {
        match self {
            ScanResult::Result(Ok(token)) => ScanResultView::Result(Ok(token@)),
            ScanResult::Result(Err(report)) => ScanResultView::Result(Err(report@)),
            ScanResult::Ignore => ScanResultView::Ignore,
        }
    }
}

impl ScanResult {
    fn ok(token: Token) -> (r: ScanResult)
        ensures
            r@ == ScanResultView::Result(Ok(token@)),
    {
        Self::Result(Ok(token))
    }

    fn err(error: Report) -> (r: ScanResult)
        ensures
            r@ == ScanResultView::Result(Err(error@)),
    {
        Self::Result(Err(error))
    }
}

fn single_type(c: char) -> (typ: Option<TokenType>)
    ensures
        typ == single(c),
{
    match c {
        '(' => Some(TokenType::LeftParen),
        ')' => Some(TokenType::RightParen),
        '{' => Some(TokenType::LeftBrace),
        '}' => Some(TokenType::RightBrace),
        '*' => Some(TokenType::Star),
        '.' => Some(TokenType::Dot),
        ',' => Some(TokenType::Comma),
        '+' => Some(TokenType::Plus),
        '-' => Some(TokenType::Minus),
        ';' => Some(TokenType::Semicolon),
        _ => None,
    }
}

fn in_run(run: Run, c: char) -> (b: bool)
    ensures
        b == continues(run, c),
{
    match run {
        Run::Digits => '0' <= c && c <= '9',
        Run::Word => c == '_' || ('a' <= c && c <= 'z') || ('A' <= c && c <= 'Z') || ('0' <= c
            && c <= '9'),
        Run::Comment => c != '\n',
        Run::Text => c != '"',
    }
}

/// The category of the reserved word that `chars[from..to]` spells, if it
/// spells one.
fn keyword_at(chars: &Vec<char>, from: usize, to: usize) -> (typ: Option<TokenType>)
    requires
        from <= to <= chars.len(),
    ensures
        typ == keyword(chars@.subrange(from as int, to as int)),
{
    if spells(chars, from, to, "and") {
        Some(TokenType::And)
    } else if spells(chars, from, to, "class") {
        Some(TokenType::Class)
    } else if spells(chars, from, to, "else") {
        Some(TokenType::Else)
    } else if spells(chars, from, to, "false") {
        Some(TokenType::False)
    } else if spells(chars, from, to, "for") {
        Some(TokenType::For)
    } else if spells(chars, from, to, "fun") {
        Some(TokenType::Fun)
    } else if spells(chars, from, to, "if") {
        Some(TokenType::If)
    } else if spells(chars, from, to, "nil") {
        Some(TokenType::Nil)
    } else if spells(chars, from, to, "or") {
        Some(TokenType::Or)
    } else if spells(chars, from, to, "print") {
        Some(TokenType::Print)
    } else if spells(chars, from, to, "return") {
        Some(TokenType::Return)
    } else if spells(chars, from, to, "super") {
        Some(TokenType::Super)
    } else if spells(chars, from, to, "this") {
        Some(TokenType::This)
    } else if spells(chars, from, to, "true") {
        Some(TokenType::True)
    } else if spells(chars, from, to, "var") {
        Some(TokenType::Var)
    } else if spells(chars, from, to, "while") {
        Some(TokenType::While)
    } else {
        None
    }
}

/// Reading one more character moves to the next line exactly when the
/// character is a line feed, unless the count has reached its limit.
proof fn lemma_line_step(src: Seq<char>, pos: int)
    requires
        0 <= pos < src.len(),
    ensures
        line_at(src, pos + 1) == if src[pos] == '\n' && line_at(src, pos) < u32::MAX {
            (line_at(src, pos) + 1) as u32
        } else {
            line_at(src, pos)
        },
{
    assert(src.take(pos + 1).drop_last() =~= src.take(pos));
    assert(src.take(pos + 1).last() == src[pos]);
}

impl TokenStream {
    /// The text being scanned.
    pub closed spec fn source(&self) -> Seq<char> {
        self.chars@
    }

    /// How many characters have been read.
    pub closed spec fn position(&self) -> int {
        self.pos as int
    }

    /// Whether the end-of-input token has been given.
    pub closed spec fn exhausted(&self) -> bool {
        self.at_end
    }

    /// The position is inside the source or at its end, and the line
    /// counter is the line of the position.
    pub closed spec fn wf(&self) -> bool {
        &&& self.pos <= self.chars.len()
        &&& self.line == line_at(self.chars@, self.pos as int)
    }

    /// Everything the stream has yet to give.
    pub open spec fn remaining(&self) -> Seq<ScanResultView> {
        if self.exhausted() {
            Seq::empty()
        } else {
            scan_from(self.source(), self.position())
        }
    }

    /// The next result, or `None` once the end-of-input token has been
    /// given.
    pub fn next(&mut self) -> (item: Option<ScanResult>)
        requires
            old(self).wf(),
        ensures
            final(self).wf(),
            final(self).source() == old(self).source(),
            item is None <==> old(self).exhausted(),
            item is None ==> final(self).exhausted() && final(self).position() == old(
                self,
            ).position(),
            item is Some ==> old(self).remaining() == seq![item->0@] + final(self).remaining(),
            item is Some && old(self).position() < old(self).source().len() ==> {
                &&& item->0@ == result(old(self).source(), old(self).position())
                &&& final(self).position() == step(old(self).source(), old(self).position()).end
                &&& !final(self).exhausted()
            },
            item is Some && old(self).position() >= old(self).source().len() ==> {
                &&& item->0@ == end_marker(old(self).source())
                &&& final(self).position() == old(self).position()
                &&& final(self).exhausted()
            },
    {
        if self.at_end {
            return None;
        }
        if self.pos >= self.chars.len() {
            self.at_end = true;
            let item = ScanResult::ok(Token::new_eof(self.line));
            assert(old(self).remaining() =~= seq![item@] + self.remaining());
            return Some(item);
        }
        let start = self.pos;
        let item = self.scan_one();
        proof {
            lemma_step_advances(self.chars@, start as int);
        }
        Some(item)
    }

    /// Takes the step at the current position, which is inside the source.
    fn scan_one(&mut self) -> (item: ScanResult)
        requires
            old(self).wf(),
            old(self).pos < old(self).chars.len(),
        ensures
            final(self).wf(),
            final(self).chars@ == old(self).chars@,
            final(self).at_end == old(self).at_end,
            final(self).pos == step(old(self).chars@, old(self).pos as int).end,
            item@ == result(old(self).chars@, old(self).pos as int),
    {
        let start = self.pos;
        let c = self.advance();
        if let Some(typ) = single_type(c) {
            return ScanResult::ok(self.make_token(typ, start));
        }
        if c == '=' {
            return ScanResult::ok(self.operator(start, TokenType::EqualEqual, TokenType::Equal));
        }
        if c == '!' {
            return ScanResult::ok(self.operator(start, TokenType::BangEqual, TokenType::Bang));
        }
        if c == '<' {
            return ScanResult::ok(self.operator(start, TokenType::LessEqual, TokenType::Less));
        }
        if c == '>' {
            return ScanResult::ok(
                self.operator(start, TokenType::GreaterEqual, TokenType::Greater),
            );
        }
        if c == '/' {
            return match self.next_match('/') {
                Some(_) => {
                    self.skip(Run::Comment);
                    ScanResult::Ignore
                },
                None => ScanResult::ok(self.make_token(TokenType::Slash, start)),
            };
        }
        if c == ' ' || c == '\t' || c == '\r' || c == '\n' {
            return ScanResult::Ignore;
        }
        if c == '"' {
            return self.string(start);
        }
        if '0' <= c && c <= '9' {
            return self.number(start);
        }
        if c == '_' || ('a' <= c && c <= 'z') || ('A' <= c && c <= 'Z') {
            return self.identifier(start);
        }
        let mut message = String::from_str("Unexpected character: ");
        push_char(&mut message, c);
        ScanResult::err(Report::error_at_line(self.line, message))
    }

    /// Reads one character.
    fn advance(&mut self) -> (c: char)
        requires
            old(self).wf(),
            old(self).pos < old(self).chars.len(),
        ensures
            final(self).wf(),
            final(self).chars@ == old(self).chars@,
            final(self).at_end == old(self).at_end,
            final(self).pos == old(self).pos + 1,
            c == old(self).chars@[old(self).pos as int],
    {
        let c = self.chars[self.pos];
        proof {
            lemma_line_step(self.chars@, self.pos as int);
        }
        self.pos += 1;
        if c == '\n' && self.line < u32::MAX {
            self.line += 1;
        }
        c
    }

    /// Reads a run to its end.
    fn skip(&mut self, run: Run)
        requires
            old(self).wf(),
        ensures
            final(self).wf(),
            final(self).chars@ == old(self).chars@,
            final(self).at_end == old(self).at_end,
            final(self).pos == run_end(old(self).chars@, old(self).pos as int, run),
    {
        while self.pos < self.chars.len() && in_run(run, self.chars[self.pos])
            invariant
                self.wf(),
                self.chars@ == old(self).chars@,
                self.at_end == old(self).at_end,
                run_end(self.chars@, self.pos as int, run) == run_end(
                    old(self).chars@,
                    old(self).pos as int,
                    run,
                ),
            decreases self.chars.len() - self.pos,
        {
            self.advance();
        }
    }

    /// Consume and return the next character if it is equal to `expected`.
    pub fn next_match(&mut self, expected: char) -> (found: Option<char>)
        requires
            old(self).wf(),
        ensures
            final(self).wf(),
            final(self).source() == old(self).source(),
            final(self).exhausted() == old(self).exhausted(),
            found is Some <==> old(self).position() < old(self).source().len() && old(
                self,
            ).source()[old(self).position()] == expected,
            found is Some ==> found == Some(expected) && final(self).position() == old(
                self,
            ).position() + 1,
            found is None ==> final(self).position() == old(self).position(),
    {
        if self.pos < self.chars.len() && self.chars[self.pos] == expected {
            Some(self.advance())
        } else {
            None
        }
    }

    /// The character after the next one, without consuming any.
    pub fn peek_next(&self) -> (found: Option<char>)
        requires
            self.wf(),
        ensures
            found == if self.position() + 1 < self.source().len() {
                Some(self.source()[self.position() + 1])
            } else {
                None
            },
    {
        if self.pos < self.chars.len() && self.pos + 1 < self.chars.len() {
            Some(self.chars[self.pos + 1])
        } else {
            None
        }
    }

    /// An operator whose first character has been read: the long form if
    /// `=` follows, the short one if not.
    fn operator(&mut self, start: usize, long: TokenType, short: TokenType) -> (token: Token)
        requires
            old(self).wf(),
            old(self).pos == start + 1,
            long != TokenType::Number && long != TokenType::String,
            short != TokenType::Number && short != TokenType::String,
        ensures
            final(self).wf(),
            final(self).chars@ == old(self).chars@,
            final(self).at_end == old(self).at_end,
            final(self).pos == lengthened(
                old(self).chars@,
                start as int,
                long,
                short,
            ).end,
            lengthened(old(self).chars@, start as int, long, short).kind == Kind::Token(
                token@.typ,
            ),
            token@ == token_at(old(self).chars@, start as int, final(self).pos as int, token@.typ),
    {
        match self.next_match('=') {
            Some(_) => self.make_token(long, start),
            None => self.make_token(short, start),
        }
    }

    /// Scan an identifier or a reserved word whose first character has been
    /// read.
    fn identifier(&mut self, start: usize) -> (item: ScanResult)
        requires
            old(self).wf(),
            old(self).pos == start + 1,
            is_letter(old(self).chars@[start as int]),
        ensures
            final(self).wf(),
            final(self).chars@ == old(self).chars@,
            final(self).at_end == old(self).at_end,
            final(self).pos == step(old(self).chars@, start as int).end,
            item@ == result(old(self).chars@, start as int),
    {
        self.skip(Run::Word);
        proof {
            lemma_run_end(self.chars@, start + 1, Run::Word);
        }
        let typ = match keyword_at(&self.chars, start, self.pos) {
            Some(typ) => typ,
            None => TokenType::Identifier,
        };
        proof {
            lemma_keyword_types(self.chars@.subrange(start as int, self.pos as int));
        }
        ScanResult::ok(self.make_token(typ, start))
    }

    /// Scan a number whose first digit has been read.
    fn number(&mut self, start: usize) -> (item: ScanResult)
        requires
            old(self).wf(),
            old(self).pos == start + 1,
            is_digit(old(self).chars@[start as int]),
        ensures
            final(self).wf(),
            final(self).chars@ == old(self).chars@,
            final(self).at_end == old(self).at_end,
            final(self).pos == step(old(self).chars@, start as int).end,
            item@ == result(old(self).chars@, start as int),
    {
        self.skip(Run::Digits);
        proof {
            lemma_run_end(self.chars@, start + 1, Run::Digits);
        }
        let follows = match self.peek_next() {
            Some(n) => '0' <= n && n <= '9',
            None => false,
        };
        if follows && self.chars[self.pos] == '.' {
            self.advance();
            self.skip(Run::Digits);
            proof {
                lemma_run_end(self.chars@, self.pos as int, Run::Digits);
                lemma_run_end(
                    self.chars@,
                    run_end(self.chars@, start as int, Run::Digits) + 1,
                    Run::Digits,
                );
            }
        }
        assert(self.pos == number_end(self.chars@, start as int));
        let lexeme = text_of(&self.chars, start, self.pos);
        let numeral = lexeme.clone();
        ScanResult::ok(Token::new(TokenType::Number, lexeme, Some(Literal::Number(numeral)), self.line))
    }

    /// Scan a string whose opening quote has been read.
    fn string(&mut self, start: usize) -> (item: ScanResult)
        requires
            old(self).wf(),
            old(self).pos == start + 1,
            old(self).chars@[start as int] == '"',
        ensures
            final(self).wf(),
            final(self).chars@ == old(self).chars@,
            final(self).at_end == old(self).at_end,
            final(self).pos == step(old(self).chars@, start as int).end,
            item@ == result(old(self).chars@, start as int),
    {
        self.skip(Run::Text);
        proof {
            lemma_run_end(self.chars@, start + 1, Run::Text);
        }
        // reached the end of the input without finding a closing quote
        if self.pos >= self.chars.len() {
            let report = Report::error_at_line(self.line, String::from_str("Unterminated string."));
            return ScanResult::err(report);
        }
        // consume the closing quote
        self.advance();
        let lexeme = text_of(&self.chars, start, self.pos);
        let text = text_of(&self.chars, start + 1, self.pos - 1);
        assert(text@ == lexeme@.subrange(1, lexeme@.len() - 1));
        ScanResult::ok(Token::new(TokenType::String, lexeme, Some(Literal::String(text)), self.line))
    }

    /// Creates a token at the current line with no literal value, whose
    /// lexeme is what has been read since `start`.
    fn make_token(&self, typ: TokenType, start: usize) -> (token: Token)
        requires
            self.wf(),
            start <= self.pos,
            typ != TokenType::Number && typ != TokenType::String,
        ensures
            token@ == token_at(self.chars@, start as int, self.pos as int, typ),
    {
        Token::new(typ, text_of(&self.chars, start, self.pos), None, self.line)
    }
}

/// The tokens and errors among scan results, in order; what was ignored is
/// left out.
pub open spec fn outcomes(results: Seq<ScanResultView>) -> Seq<Result<TokenView, ReportView>>
    decreases results.len(),
{
    if results.len() == 0 {
        Seq::empty()
    } else {
        match results[0] {
            ScanResultView::Result(r) => seq![r] + outcomes(results.drop_first()),
            ScanResultView::Ignore => outcomes(results.drop_first()),
        }
    }
}

/// A token or an error, as plain values.
pub open spec fn outcome_view(r: Result<Token, Report>) -> Result<TokenView, ReportView> {
    match r {
        Ok(token) => Ok(token@),
        Err(report) => Err(report@),
    }
}

/// Tokens and errors, as plain values.
pub open spec fn outcome_views(results: Seq<Result<Token, Report>>) -> Seq<
    Result<TokenView, ReportView>,
> {
    results.map_values(|r: Result<Token, Report>| outcome_view(r))
}

/// The tokens among scan outcomes, in order.
pub open spec fn tokens_in(results: Seq<Result<TokenView, ReportView>>) -> Seq<TokenView>
    decreases results.len(),
{
    if results.len() == 0 {
        Seq::empty()
    } else {
        match results.last() {
            Ok(token) => tokens_in(results.drop_last()).push(token),
            Err(_) => tokens_in(results.drop_last()),
        }
    }
}

/// Whether any scan outcome is an error.
pub open spec fn has_error(results: Seq<Result<TokenView, ReportView>>) -> bool {
    exists|i: int| 0 <= i < results.len() && (#[trigger] results[i]) is Err
}

/// The views of tokens.
pub open spec fn token_views(tokens: Seq<Token>) -> Seq<TokenView> {
    tokens.map_values(|t: Token| t@)
}

impl<'src> Scanner<'src> {
    /// Scans the whole source: every token and every lexical error, in the
    /// order in which they are found, the end-of-input token last. An error
    /// does not stop the scan.
    pub fn scan_all(&self) -> (results: Vec<Result<Token, Report>>)
        ensures
            outcome_views(results@) == outcomes(scan(self.text())),
            results@.len() >= 1,
            outcome_view(results@.last()) == Ok::<TokenView, ReportView>(
                eof_token(line_at(self.text(), self.text().len() as int)),
            ),
            forall|i: int|
                0 <= i < results@.len() - 1 ==> !is_end_token(
                    ScanResultView::Result(outcome_view(#[trigger] results@[i])),
                ),
    {
        let mut stream = self.scan_tokens();
        let mut results: Vec<Result<Token, Report>> = Vec::new();
        assert(outcome_views(results@) =~= Seq::empty());
        loop
            invariant
                stream.wf(),
                stream.position() <= stream.source().len(),
                outcome_views(results@) + outcomes(stream.remaining()) == outcomes(
                    scan(self.text()),
                ),
            ensures
                outcome_views(results@) == outcomes(scan(self.text())),
            decreases
                    stream.source().len() - stream.position() + if stream.exhausted() {
                        0int
                    } else {
                        1int
                    },
        {
            let ghost before = stream.remaining();
            let ghost collected = outcome_views(results@);
            proof {
                if stream.position() < stream.source().len() {
                    lemma_step_advances(stream.source(), stream.position());
                }
            }
            match stream.next() {
                None => {
                    assert(before =~= Seq::empty());
                    assert(collected + outcomes(before) =~= collected);
                    break;
                },
                Some(item) => {
                    assert(before.drop_first() =~= stream.remaining());
                    assert(before[0] == item@);
                    match item {
                        ScanResult::Result(r) => {
                            results.push(r);
                            assert(outcome_views(results@) =~= collected + seq![outcome_view(r)]);
                            assert(outcome_views(results@) + outcomes(stream.remaining())
                                =~= collected + outcomes(before));
                        },
                        ScanResult::Ignore => {},
                    }
                },
            }
        }
        proof {
            lemma_one_end_marker(self.text());
            let views = outcome_views(results@);
            assert(views.len() == results@.len());
            assert(views.last() == outcome_view(results@.last()));
            assert forall|i: int| 0 <= i < results@.len() - 1 implies !is_end_token(
                ScanResultView::Result(outcome_view(#[trigger] results@[i])),
            ) by {
                assert(views[i] == outcome_view(results@[i]));
            }
        }
        results
    }
}

/// The tokens of a scan, if it found no error.
pub fn tokens_of(results: Vec<Result<Token, Report>>) -> (tokens: Option<Vec<Token>>)
    ensures
        tokens is None <==> has_error(outcome_views(results@)),
        tokens is Some ==> token_views(tokens->0@) == tokens_in(outcome_views(results@)),
{
    let mut tokens: Vec<Token> = Vec::new();
    let mut i: usize = 0;
    assert(outcome_views(results@).take(0) =~= Seq::empty());
    assert(token_views(tokens@) =~= Seq::empty());
    while i < results.len()
        invariant
            i <= results.len(),
            token_views(tokens@) == tokens_in(outcome_views(results@).take(i as int)),
            forall|j: int| 0 <= j < i ==> (#[trigger] outcome_views(results@)[j]) is Ok,
        decreases results.len() - i,
    {
        let ghost views = outcome_views(results@);
        let ghost before = token_views(tokens@);
        assert(views.take(i + 1).drop_last() =~= views.take(i as int));
        assert(views.take(i + 1).last() == outcome_view(results@[i as int]));
        match &results[i] {
            Ok(token) => {
                tokens.push(token.clone());
                assert(token_views(tokens@) =~= before.push(token@));
            },
            Err(_) => {
                assert(views[i as int] is Err);
                return None;
            },
        }
        i += 1;
    }
    assert(outcome_views(results@).take(i as int) =~= outcome_views(results@));
    Some(tokens)
}

/// Whether a scan result is an end-of-input token.
pub open spec fn is_end_token(r: ScanResultView) -> bool {
    match r {
        ScanResultView::Result(Ok(token)) => token.typ == TokenType::Eof,
        _ => false,
    }
}

/// No step inside the source gives an end-of-input token.
proof fn lemma_step_is_no_end(src: Seq<char>, pos: int)
    requires
        0 <= pos < src.len(),
    ensures
        !is_end_token(result(src, pos)),
{
    let c = src[pos];
    if is_letter(c) {
        let end = run_end(src, pos + 1, Run::Word);
        assert(keyword(src.subrange(pos, end)) != Some(TokenType::Eof));
    }
}

/// Whatever the source holds, errors or not, a scan ends with the
/// end-of-input token, and gives no other end-of-input token before it.
pub proof fn lemma_scan_ends_once(src: Seq<char>, pos: int)
    requires
        0 <= pos <= src.len(),
    ensures
        scan_from(src, pos).len() >= 1,
        scan_from(src, pos).last() == end_marker(src),
        forall|i: int|
            0 <= i < scan_from(src, pos).len() - 1 ==> !is_end_token(
                #[trigger] scan_from(src, pos)[i],
            ),
    decreases src.len() - pos,
{
    if pos < src.len() {
        lemma_step_advances(src, pos);
        lemma_step_is_no_end(src, pos);
        lemma_scan_ends_once(src, step(src, pos).end);
    }
}

/// Leaving out what a scan ignores keeps its last result, if that is a
/// token or an error, and lets no end-of-input token in before it.
proof fn lemma_outcomes_end(results: Seq<ScanResultView>)
    requires
        results.len() >= 1,
        results.last() is Result,
        forall|i: int| 0 <= i < results.len() - 1 ==> !is_end_token(#[trigger] results[i]),
    ensures
        outcomes(results).len() >= 1,
        outcomes(results).last() == results.last()->Result_0,
        forall|i: int|
            0 <= i < outcomes(results).len() - 1 ==> !is_end_token(
                ScanResultView::Result(#[trigger] outcomes(results)[i]),
            ),
    decreases results.len(),
{
    let rest = results.drop_first();
    if results.len() > 1 {
        assert(rest.last() == results.last());
        assert forall|i: int| 0 <= i < rest.len() - 1 implies !is_end_token(
            #[trigger] rest[i],
        ) by {
            assert(rest[i] == results[i + 1]);
        }
        lemma_outcomes_end(rest);
        assert(!is_end_token(results[0]));
    } else {
        assert(outcomes(rest) =~= Seq::empty());
    }
}

/// The tokens and errors of a scan end with exactly one end-of-input token:
/// it is the last of them, and none before it is one.
pub proof fn lemma_one_end_marker(src: Seq<char>)
    ensures
        outcomes(scan(src)).len() >= 1,
        outcomes(scan(src)).last() == Ok::<TokenView, ReportView>(
            eof_token(line_at(src, src.len() as int)),
        ),
        forall|i: int|
            0 <= i < outcomes(scan(src)).len() - 1 ==> !is_end_token(
                ScanResultView::Result(#[trigger] outcomes(scan(src))[i]),
            ),
{
    lemma_scan_ends_once(src, 0);
    lemma_outcomes_end(scan(src));
}

/// No reserved word is a number or a string.
proof fn lemma_keyword_types(word: Seq<char>)
    ensures
        keyword(word) != Some(TokenType::Number),
        keyword(word) != Some(TokenType::String),
{
}

} // verus!

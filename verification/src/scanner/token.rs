use crate::number::{render_numeral, renders_numeral, Arithmetic};
use vstd::prelude::*;
use vstd::string::*;

verus! {

/// The lexical category of a token.
#[derive(Debug, Clone, Copy, PartialEq, Eq, Structural)]
pub enum TokenType {
    // Single-character tokens.
    LeftParen,
    RightParen,
    LeftBrace,
    RightBrace,
    Comma,
    Dot,
    Minus,
    Plus,
    Semicolon,
    Slash,
    Star,

    // One or two character tokens.
    Bang,
    BangEqual,
    Equal,
    EqualEqual,
    Greater,
    GreaterEqual,
    Less,
    LessEqual,

    // Literals.
    Identifier,
    String,
    Number,

    // Keywords.
    And,
    Class,
    Else,
    False,
    Fun,
    For,
    If,
    Nil,
    Or,
    Print,
    Return,
    Super,
    This,
    True,
    Var,
    While,

    // End of input.
    Eof,
}

/// The upper-case name under which a category is written out.
pub open spec fn category_name(typ: TokenType) -> Seq<char> {
    match typ {
        TokenType::LeftParen => "LEFT_PAREN"@,
        TokenType::RightParen => "RIGHT_PAREN"@,
        TokenType::LeftBrace => "LEFT_BRACE"@,
        TokenType::RightBrace => "RIGHT_BRACE"@,
        TokenType::Comma => "COMMA"@,
        TokenType::Dot => "DOT"@,
        TokenType::Minus => "MINUS"@,
        TokenType::Plus => "PLUS"@,
        TokenType::Semicolon => "SEMICOLON"@,
        TokenType::Slash => "SLASH"@,
        TokenType::Star => "STAR"@,
        TokenType::Bang => "BANG"@,
        TokenType::BangEqual => "BANG_EQUAL"@,
        TokenType::Equal => "EQUAL"@,
        TokenType::EqualEqual => "EQUAL_EQUAL"@,
        TokenType::Greater => "GREATER"@,
        TokenType::GreaterEqual => "GREATER_EQUAL"@,
        TokenType::Less => "LESS"@,
        TokenType::LessEqual => "LESS_EQUAL"@,
        TokenType::Identifier => "IDENTIFIER"@,
        TokenType::String => "STRING"@,
        TokenType::Number => "NUMBER"@,
        TokenType::And => "AND"@,
        TokenType::Class => "CLASS"@,
        TokenType::Else => "ELSE"@,
        TokenType::False => "FALSE"@,
        TokenType::Fun => "FUN"@,
        TokenType::For => "FOR"@,
        TokenType::If => "IF"@,
        TokenType::Nil => "NIL"@,
        TokenType::Or => "OR"@,
        TokenType::Print => "PRINT"@,
        TokenType::Return => "RETURN"@,
        TokenType::Super => "SUPER"@,
        TokenType::This => "THIS"@,
        TokenType::True => "TRUE"@,
        TokenType::Var => "VAR"@,
        TokenType::While => "WHILE"@,
        TokenType::Eof => "EOF"@,
    }
}

impl TokenType {
    /// The category's upper-case name.
    pub fn name(&self) -> (name: &'static str)
        ensures
            name@ == category_name(*self),
    {
        match self {
            TokenType::LeftParen => "LEFT_PAREN",
            TokenType::RightParen => "RIGHT_PAREN",
            TokenType::LeftBrace => "LEFT_BRACE",
            TokenType::RightBrace => "RIGHT_BRACE",
            TokenType::Comma => "COMMA",
            TokenType::Dot => "DOT",
            TokenType::Minus => "MINUS",
            TokenType::Plus => "PLUS",
            TokenType::Semicolon => "SEMICOLON",
            TokenType::Slash => "SLASH",
            TokenType::Star => "STAR",
            TokenType::Bang => "BANG",
            TokenType::BangEqual => "BANG_EQUAL",
            TokenType::Equal => "EQUAL",
            TokenType::EqualEqual => "EQUAL_EQUAL",
            TokenType::Greater => "GREATER",
            TokenType::GreaterEqual => "GREATER_EQUAL",
            TokenType::Less => "LESS",
            TokenType::LessEqual => "LESS_EQUAL",
            TokenType::Identifier => "IDENTIFIER",
            TokenType::String => "STRING",
            TokenType::Number => "NUMBER",
            TokenType::And => "AND",
            TokenType::Class => "CLASS",
            TokenType::Else => "ELSE",
            TokenType::False => "FALSE",
            TokenType::Fun => "FUN",
            TokenType::For => "FOR",
            TokenType::If => "IF",
            TokenType::Nil => "NIL",
            TokenType::Or => "OR",
            TokenType::Print => "PRINT",
            TokenType::Return => "RETURN",
            TokenType::Super => "SUPER",
            TokenType::This => "THIS",
            TokenType::True => "TRUE",
            TokenType::Var => "VAR",
            TokenType::While => "WHILE",
            TokenType::Eof => "EOF",
        }
    }
}

/// The value that a NUMBER or STRING token carries.
///
/// A number is kept as its numeral, the digits exactly as written: the
/// double it stands for is what an [`crate::number::Arithmetic`] parses it
/// to. A string is kept as the text between its quotes.
#[derive(Debug)]
pub enum Literal {
    Number(String),
    String(String),
}

/// What a [`Literal`] holds, as plain values.
pub enum LiteralView {
    Number(Seq<char>),
    String(Seq<char>),
}

impl View for Literal {
    type V = LiteralView;

    open spec fn view(&self) -> LiteralView {
        match self {
            Literal::Number(numeral) => LiteralView::Number(numeral@),
            Literal::String(text) => LiteralView::String(text@),
        }
    }
}

impl Clone for Literal {
    fn clone(&self) -> (copy: Self)
        ensures
            copy@ == self@,
    {
        match self {
            Literal::Number(numeral) => Literal::Number(numeral.clone()),
            Literal::String(text) => Literal::String(text.clone()),
        }
    }
}

/// A classified lexeme with its literal value, if it has one, and the line
/// it was read on.
#[derive(Debug)]
pub struct Token {
    pub typ: TokenType,
    pub lexeme: String,
    pub literal: Option<Literal>,
    pub line: u32,
}

/// What a [`Token`] holds, as plain values.
pub struct TokenView {
    pub typ: TokenType,
    pub lexeme: Seq<char>,
    pub literal: Option<LiteralView>,
    pub line: u32,
}

/// The views of an optional literal.
pub open spec fn literal_view(literal: Option<Literal>) -> Option<LiteralView> {
    match literal {
        Some(l) => Some(l@),
        None => None,
    }
}

/// The token that marks the end of input on `line`.
pub open spec fn eof_token(line: u32) -> TokenView {
    TokenView { typ: TokenType::Eof, lexeme: Seq::empty(), literal: None, line }
}

impl View for Token {
    type V = TokenView;

    open spec fn view(&self) -> TokenView {
        TokenView {
            typ: self.typ,
            lexeme: self.lexeme@,
            literal: literal_view(self.literal),
            line: self.line,
        }
    }
}

impl Clone for Token {
    fn clone(&self) -> (copy: Self)
        ensures
            copy@ == self@,
    {
        let literal = match &self.literal {
            Some(l) => Some(l.clone()),
            None => None,
        };
        Token { typ: self.typ, lexeme: self.lexeme.clone(), literal, line: self.line }
    }
}

impl Token {
    pub fn new(typ: TokenType, lexeme: String, literal: Option<Literal>, line: u32) -> (token:
        Self)
        ensures
            token@ == (TokenView {
                typ,
                lexeme: lexeme@,
                literal: literal_view(literal),
                line,
            }),
    {
        Self { typ, lexeme, literal, line }
    }

    /// A new end-of-input token on the given line.
    pub fn new_eof(line: u32) -> (token: Self)
        ensures
            token@ == eof_token(line),
    {
        Self::new(TokenType::Eof, String::new(), None, line)
    }
}

/// Whether `text` may be how a token's literal value is written: a string
/// as its text, a number as the arithmetic renders it, and `null` where
/// there is none.
pub open spec fn literal_renders<A: Arithmetic>(
    arith: &A,
    literal: Option<LiteralView>,
    text: Seq<char>,
) -> bool {
    match literal {
        None => text == "null"@,
        Some(LiteralView::String(s)) => text == s,
        Some(LiteralView::Number(numeral)) => renders_numeral(arith, numeral, text),
    }
}

/// Whether `text` may be how a token is written out:
/// `<CATEGORY> <lexeme> <literal>`.
pub open spec fn token_renders<A: Arithmetic>(arith: &A, token: TokenView, text: Seq<char>) -> bool {
    exists|literal: Seq<char>| #[trigger]
        literal_renders(arith, token.literal, literal) && text == category_name(token.typ) + " "@
            + token.lexeme + " "@ + literal
}

impl Token {
    /// The token as it is written out, one to a line, when a source is
    /// tokenized.
    pub fn render<A: Arithmetic>(&self, arith: &A) -> (text: String)
        ensures
            token_renders(arith, self@, text@),
    {
        let literal = match &self.literal {
            Some(Literal::Number(numeral)) => render_numeral(arith, numeral.as_str()),
            Some(Literal::String(s)) => s.clone(),
            None => String::from_str("null"),
        };
        let mut text = String::from_str(self.typ.name());
        text.append(" ");
        text.append(self.lexeme.as_str());
        text.append(" ");
        text.append(literal.as_str());
        assert(literal_renders(arith, self@.literal, literal@));
        text
    }
}

} // verus!

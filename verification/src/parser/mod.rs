use crate::error::{Report, ReportView};
use crate::parser::expr::{AstNode, Binary, Grouping, Literal, Tree, Unary};
use crate::parser::grammar::{
    at_end, error_at, is_prefix, left, parse_expression, parse_operand, parse_primary, parse_rest,
    parse_tier, parse_unary, rank, tier_has, Tier,
};
use crate::parser::shape::{lemma_parse_shape, spans, width};
use crate::scanner::token::{Token, TokenType, TokenView};
use crate::scanner::token_views;
use vstd::prelude::*;
use vstd::string::*;

pub mod expr;
pub mod grammar;
pub mod printer;
pub mod shape;

verus! {

/// A recursive-descent parser over a list of tokens.
pub struct Parser {
    tokens: Vec<Token>,
    pos: usize,
}

/// Whether what the parser returned, and where it stopped, is what the
/// grammar gives.
pub open spec fn agrees(
    r: Result<AstNode, Report>,
    end: int,
    parsed: Result<(Tree, int), ReportView>,
) -> bool {
    match r {
        Ok(node) => parsed == Ok::<(Tree, int), ReportView>((node@, end)),
        Err(report) => parsed == Err::<(Tree, int), ReportView>(report@),
    }
}

fn in_tier(tier: Tier, typ: TokenType) -> (b: bool)
    ensures
        b == tier_has(tier, typ),
{
    match tier {
        Tier::Equality => typ == TokenType::BangEqual || typ == TokenType::EqualEqual,
        Tier::Comparison => typ == TokenType::Greater || typ == TokenType::GreaterEqual || typ
            == TokenType::Less || typ == TokenType::LessEqual,
        Tier::Term => typ == TokenType::Minus || typ == TokenType::Plus,
        Tier::Factor => typ == TokenType::Slash || typ == TokenType::Star,
    }
}

impl Parser {
    /// The tokens that the parser reads.
    pub closed spec fn tokens(&self) -> Seq<TokenView> {
        token_views(self.tokens@)
    }

    /// How many of them it has read.
    pub closed spec fn position(&self) -> int {
        self.pos as int
    }

    /// A parser at the start of a list of tokens.
    pub fn new(tokens: Vec<Token>) -> (parser: Self)
        ensures
            parser.tokens() == token_views(tokens@),
            parser.position() == 0,
    {
        Self { tokens, pos: 0 }
    }

    /// Parses one expression from the current position and stops behind it:
    /// the tree that the grammar gives, or the first syntax error. Tokens
    /// behind the expression are left unread.
    ///
    /// A tree is written with exactly the tokens that were read, and its
    /// operators nest by precedence, those of one tier from the left.
    pub fn parse(&mut self) -> (r: Result<AstNode, Report>)
        ensures
            final(self).tokens() == old(self).tokens(),
            agrees(
                r,
                final(self).position(),
                parse_expression(old(self).tokens(), old(self).position()),
            ),
            r is Ok ==> {
                &&& spans(r->Ok_0@, old(self).tokens(), old(self).position(), 5)
                &&& final(self).position() == old(self).position() + width(r->Ok_0@)
                &&& final(self).position() <= old(self).tokens().len()
            },
    {
        let r = self.expression();
        proof {
            if r is Ok {
                lemma_parse_shape(old(self).tokens(), old(self).position());
            }
        }
        r
    }

    /// expression → equality ;
    fn expression(&mut self) -> (r: Result<AstNode, Report>)
        ensures
            final(self).tokens() == old(self).tokens(),
            agrees(
                r,
                final(self).position(),
                parse_expression(old(self).tokens(), old(self).position()),
            ),
            r is Ok ==> final(self).position() > old(self).position(),
        decreases left(old(self).tokens(), old(self).position()), 10nat,
    {
        self.tier(Tier::Equality)
    }

    /// tier → operand ( operator operand )* ;
    fn tier(&mut self, tier: Tier) -> (r: Result<AstNode, Report>)
        ensures
            final(self).tokens() == old(self).tokens(),
            agrees(
                r,
                final(self).position(),
                parse_tier(old(self).tokens(), old(self).position(), tier),
            ),
            r is Ok ==> final(self).position() > old(self).position(),
        decreases left(old(self).tokens(), old(self).position()), 2 * rank(tier) + 1,
    {
        let mut expr = match self.operand(tier) {
            Ok(expr) => expr,
            Err(report) => {
                return Err(report);
            },
        };
        loop
            invariant
                self.tokens() == old(self).tokens(),
                self.position() > old(self).position(),
                parse_rest(self.tokens(), self.position(), tier, expr@) == parse_tier(
                    old(self).tokens(),
                    old(self).position(),
                    tier,
                ),
            ensures
                self.tokens() == old(self).tokens(),
                self.position() > old(self).position(),
                parse_tier(old(self).tokens(), old(self).position(), tier) == Ok::<
                    (Tree, int),
                    ReportView,
                >((expr@, self.position())),
            decreases left(self.tokens(), self.position()),
        {
            let operator = match self.next_operator(tier) {
                Some(operator) => operator,
                None => {
                    break ;
                },
            };
            let right = match self.operand(tier) {
                Ok(right) => right,
                Err(report) => {
                    return Err(report);
                },
            };
            expr = AstNode::Binary(Binary::new(expr, operator, right));
        }
        Ok(expr)
    }

    /// An operand of a tier: an expression of the next tighter one.
    fn operand(&mut self, tier: Tier) -> (r: Result<AstNode, Report>)
        ensures
            final(self).tokens() == old(self).tokens(),
            agrees(
                r,
                final(self).position(),
                parse_operand(old(self).tokens(), old(self).position(), tier),
            ),
            r is Ok ==> final(self).position() > old(self).position(),
        decreases left(old(self).tokens(), old(self).position()), 2 * rank(tier),
    {
        match tier {
            Tier::Equality => self.tier(Tier::Comparison),
            Tier::Comparison => self.tier(Tier::Term),
            Tier::Term => self.tier(Tier::Factor),
            Tier::Factor => self.unary(),
        }
    }

    /// unary → ( "!" | "-" ) unary | primary ;
    fn unary(&mut self) -> (r: Result<AstNode, Report>)
        ensures
            final(self).tokens() == old(self).tokens(),
            agrees(r, final(self).position(), parse_unary(old(self).tokens(), old(self).position())),
            r is Ok ==> final(self).position() > old(self).position(),
        decreases left(old(self).tokens(), old(self).position()), 1nat,
    {
        if let Some(operator) = self.next_prefix() {
            let right = match self.unary() {
                Ok(right) => right,
                Err(report) => {
                    return Err(report);
                },
            };
            return Ok(AstNode::Unary(Unary::new(operator, right)));
        }
        self.primary()
    }

    /// primary → NUMBER | STRING | "true" | "false" | "nil"| "(" expression ")" ;
    fn primary(&mut self) -> (r: Result<AstNode, Report>)
        ensures
            final(self).tokens() == old(self).tokens(),
            agrees(
                r,
                final(self).position(),
                parse_primary(old(self).tokens(), old(self).position()),
            ),
            r is Ok ==> final(self).position() > old(self).position(),
        decreases left(old(self).tokens(), old(self).position()), 0nat,
    {
        if self.next_if(TokenType::True).is_some() {
            return Ok(AstNode::Literal(Literal::Boolean(true)));
        }
        if self.next_if(TokenType::False).is_some() {
            return Ok(AstNode::Literal(Literal::Boolean(false)));
        }
        if self.next_if(TokenType::Nil).is_some() {
            return Ok(AstNode::Literal(Literal::Nil));
        }
        if let Some(literal) = self.next_literal() {
            return Ok(AstNode::Literal(Literal::of_token(literal)));
        }
        if self.next_if(TokenType::LeftParen).is_some() {
            let expr = match self.expression() {
                Ok(expr) => expr,
                Err(report) => {
                    return Err(report);
                },
            };
            return match self.next_ok(
                TokenType::RightParen,
                String::from_str("Expect ')' after expression."),
            ) {
                Ok(_) => Ok(AstNode::Grouping(Grouping::new(expr))),
                Err(report) => Err(report),
            };
        }
        Err(self.error(String::from_str("Expect expression.")))
    }

    /// Consumes the next token if it is an operator of the tier.
    fn next_operator(&mut self, tier: Tier) -> (found: Option<Token>)
        ensures
            final(self).tokens() == old(self).tokens(),
            found is Some <==> !at_end(old(self).tokens(), old(self).position()) && tier_has(
                tier,
                old(self).tokens()[old(self).position()].typ,
            ),
            found is Some ==> found->0@ == old(self).tokens()[old(self).position()]
                && final(self).position() == old(self).position() + 1,
            found is None ==> final(self).position() == old(self).position(),
    {
        if !self.is_at_end() && in_tier(tier, self.tokens[self.pos].typ) {
            Some(self.take())
        } else {
            None
        }
    }

    /// Consumes the next token if it is a prefix operator.
    fn next_prefix(&mut self) -> (found: Option<Token>)
        ensures
            final(self).tokens() == old(self).tokens(),
            found is Some <==> !at_end(old(self).tokens(), old(self).position()) && is_prefix(
                old(self).tokens()[old(self).position()].typ,
            ),
            found is Some ==> found->0@ == old(self).tokens()[old(self).position()]
                && final(self).position() == old(self).position() + 1,
            found is None ==> final(self).position() == old(self).position(),
    {
        if !self.is_at_end() && (self.tokens[self.pos].typ == TokenType::Bang
            || self.tokens[self.pos].typ == TokenType::Minus) {
            Some(self.take())
        } else {
            None
        }
    }

    /// Consumes the next token if it is a NUMBER or STRING that carries a
    /// literal value, and gives that value.
    fn next_literal(&mut self) -> (found: Option<crate::scanner::token::Literal>)
        ensures
            final(self).tokens() == old(self).tokens(),
            found is Some <==> {
                &&& !at_end(old(self).tokens(), old(self).position())
                &&& (old(self).tokens()[old(self).position()].typ == TokenType::Number || old(
                    self,
                ).tokens()[old(self).position()].typ == TokenType::String)
                &&& old(self).tokens()[old(self).position()].literal is Some
            },
            found is Some ==> Some(found->0@) == old(self).tokens()[old(self).position()].literal
                && final(self).position() == old(self).position() + 1,
            found is None ==> final(self).position() == old(self).position(),
    {
        if self.is_at_end() {
            return None;
        }
        let typ = self.tokens[self.pos].typ;
        if typ == TokenType::Number || typ == TokenType::String {
            match &self.tokens[self.pos].literal {
                Some(literal) => {
                    let len = self.tokens.len();
                    let found = literal.clone();
                    assert(self.pos < len);
                    self.pos += 1;
                    Some(found)
                },
                None => None,
            }
        } else {
            None
        }
    }

    /// Consumes the next token if it matches the given type.
    ///
    /// Returns:
    /// - `Some(Token)` if the next token matches, consuming it.
    /// - `None` if the next token doesn't match or if at end of tokens.
    fn next_if(&mut self, tt: TokenType) -> (found: Option<Token>)
        ensures
            final(self).tokens() == old(self).tokens(),
            found is Some <==> !at_end(old(self).tokens(), old(self).position()) && old(
                self,
            ).tokens()[old(self).position()].typ == tt,
            found is Some ==> found->0@ == old(self).tokens()[old(self).position()]
                && final(self).position() == old(self).position() + 1,
            found is None ==> final(self).position() == old(self).position(),
    {
        if !self.is_at_end() && self.tokens[self.pos].typ == tt {
            Some(self.take())
        } else {
            None
        }
    }

    /// Consumes the next token if it matches the given type, or returns an error.
    ///
    /// Returns:
    /// - `Ok(Token)` if the next token matches the given type, consuming it.
    /// - `Err(Report)` if the next token doesn't match or if at end of tokens.
    fn next_ok(&mut self, tt: TokenType, message: String) -> (r: Result<Token, Report>)
        ensures
            final(self).tokens() == old(self).tokens(),
            r is Ok <==> !at_end(old(self).tokens(), old(self).position()) && old(
                self,
            ).tokens()[old(self).position()].typ == tt,
            r is Ok ==> final(self).position() == old(self).position() + 1,
            r is Err ==> r->Err_0@ == error_at(old(self).tokens(), old(self).position(), message@),
    {
        match self.next_if(tt) {
            Some(token) => Ok(token),
            None => Err(self.error(message)),
        }
    }

    /// Checks if the parser has reached the end of the token stream.
    ///
    /// Returns `true` if the current token is an EOF token or
    /// there are no more tokens in the token list.
    fn is_at_end(&self) -> (b: bool)
        ensures
            b == at_end(self.tokens(), self.position()),
    {
        self.pos >= self.tokens.len() || self.tokens[self.pos].typ == TokenType::Eof
    }

    /// Reads the next token.
    fn take(&mut self) -> (token: Token)
        requires
            old(self).position() < old(self).tokens().len(),
        ensures
            final(self).tokens() == old(self).tokens(),
            final(self).position() == old(self).position() + 1,
            token@ == old(self).tokens()[old(self).position()],
    {
        let len = self.tokens.len();
        let token = self.tokens[self.pos].clone();
        assert(self.pos < len);
        self.pos += 1;
        token
    }

    /// The syntax error at the current position.
    fn error(&self, message: String) -> (report: Report)
        ensures
            report@ == error_at(self.tokens(), self.position(), message@),
    {
        if self.pos < self.tokens.len() {
            Report::error_at_token(&self.tokens[self.pos], message)
        } else if self.tokens.len() > 0 {
            Report::error_at_end(self.tokens[self.tokens.len() - 1].line, message)
        } else {
            Report::error_at_end(1, message)
        }
    }
}

impl From<Vec<Token>> for Parser {
    fn from(value: Vec<Token>) -> (parser: Self) {
        Parser { tokens: value, pos: 0 }
    }
}

impl vstd::std_specs::convert::FromSpecImpl<Vec<Token>> for Parser {
    open spec fn obeys_from_spec() -> bool {
        true
    }

    closed spec fn from_spec(value: Vec<Token>) -> Self {
        Parser { tokens: value, pos: 0 }
    }
}

/// A parser made from a list of tokens is at the start of that list.
pub proof fn lemma_from_tokens(tokens: Vec<Token>)
    ensures
        (<Parser as vstd::std_specs::convert::FromSpec<Vec<Token>>>::from_spec(tokens)).tokens()
            == token_views(tokens@),
        (<Parser as vstd::std_specs::convert::FromSpec<Vec<Token>>>::from_spec(tokens)).position()
            == 0,
{
}

} // verus!

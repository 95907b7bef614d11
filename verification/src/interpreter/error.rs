use crate::scanner::token::{Token, TokenView};
use crate::text::{decimal, push_decimal};
use vstd::prelude::*;
use vstd::string::*;

verus! {

/// An evaluation failure for which the program under evaluation is to
/// blame: the operator that failed, and why.
#[derive(Debug)]
pub struct RuntimeError {
    token: Token,
    message: String,
}

/// What a [`RuntimeError`] holds, as plain values.
pub struct RuntimeErrorView {
    pub token: TokenView,
    pub message: Seq<char>,
}

/// A runtime error as it is shown to the user: the message, and under it
/// `[line N]`.
pub open spec fn runtime_error_text(error: RuntimeErrorView) -> Seq<char> {
    error.message + "\n[line "@ + decimal(error.token.line as nat) + "]"@
}

impl View for RuntimeError {
    type V = RuntimeErrorView;

    closed spec fn view(&self) -> RuntimeErrorView {
        RuntimeErrorView { token: self.token@, message: self.message@ }
    }
}

impl RuntimeError {
    pub fn new(token: Token, message: &str) -> (error: Self)
        ensures
            error@ == (RuntimeErrorView { token: token@, message: message@ }),
    {
        Self { token, message: String::from_str(message) }
    }

    /// The operator that failed.
    pub fn token(&self) -> (token: &Token)
        ensures
            token@ == self@.token,
    {
        &self.token
    }

    /// Why it failed.
    pub fn message(&self) -> (message: &str)
        ensures
            message@ == self@.message,
    {
        self.message.as_str()
    }

    /// The error as it is shown to the user.
    pub fn render(&self) -> (text: String)
        ensures
            text@ == runtime_error_text(self@),
    {
        let mut text = self.message.clone();
        text.append("\n[line ");
        push_decimal(&mut text, self.token.line);
        text.append("]");
        text
    }
}

/// Why an evaluation gave no value.
#[derive(Debug)]
pub enum EvalError {
    /// The program applied an operator to values it is not defined for.
    Runtime(RuntimeError),
    /// The tree holds, in the place of an operator, a token that is no
    /// operator of that kind. The parser builds no such tree: this is a
    /// defect of whoever built it, not of the program.
    InvalidOperator(Token),
}

/// What an [`EvalError`] holds, as plain values.
pub enum EvalErrorView {
    Runtime(RuntimeErrorView),
    InvalidOperator(TokenView),
}

impl View for EvalError {
    type V = EvalErrorView;

    open spec fn view(&self) -> EvalErrorView {
        match self {
            EvalError::Runtime(error) => EvalErrorView::Runtime(error@),
            EvalError::InvalidOperator(token) => EvalErrorView::InvalidOperator(token@),
        }
    }
}

} // verus!

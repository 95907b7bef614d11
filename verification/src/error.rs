use crate::scanner::token::{Token, TokenType, TokenView};
use crate::text::{decimal, push_decimal};
use vstd::prelude::*;
use vstd::string::*;

verus! {

/// A lexical or syntax error: the line it was found on, where on that line
/// (nothing for a lexical error, otherwise the end of input or a lexeme),
/// and what is wrong.
#[derive(Debug)]
pub struct Report {
    line: u32,
    location: Option<String>,
    message: String,
}

/// What a [`Report`] holds, as plain values.
pub struct ReportView {
    pub line: u32,
    pub location: Option<Seq<char>>,
    pub message: Seq<char>,
}

/// The location annotation of an error at `token`.
pub open spec fn location_of(token: TokenView) -> Seq<char> {
    if token.typ == TokenType::Eof {
        " at end"@
    } else {
        " at '"@ + token.lexeme + "'"@
    }
}

/// The report of an error found on a line, with no location.
pub open spec fn line_report(line: u32, message: Seq<char>) -> ReportView {
    ReportView { line, location: None, message }
}

/// The report of an error found at a token.
pub open spec fn token_report(token: TokenView, message: Seq<char>) -> ReportView {
    ReportView { line: token.line, location: Some(location_of(token)), message }
}

/// A report as it is shown to the user:
/// `[line N] Error<location>: <message>`.
pub open spec fn report_text(report: ReportView) -> Seq<char> {
    "[line "@ + decimal(report.line as nat) + "] Error"@ + match report.location {
        Some(location) => location,
        None => Seq::empty(),
    } + ": "@ + report.message
}

impl View for Report {
    type V = ReportView;

    closed spec fn view(&self) -> ReportView {
        ReportView {
            line: self.line,
            location: match self.location {
                Some(location) => Some(location@),
                None => None,
            },
            message: self.message@,
        }
    }
}

impl Report {
    pub fn error_at_line(line: u32, message: String) -> (report: Self)
        ensures
            report@ == line_report(line, message@),
    {
        Self { line, location: None, message }
    }

    pub fn error_at_token(token: &Token, message: String) -> (report: Self)
        ensures
            report@ == token_report(token@, message@),
    {
        let location = if token.typ == TokenType::Eof {
            String::from_str(" at end")
        } else {
            let mut location = String::from_str(" at '");
            location.append(token.lexeme.as_str());
            location.append("'");
            location
        };
        Self { line: token.line, location: Some(location), message }
    }

    /// The report of an error found where no token is left.
    pub fn error_at_end(line: u32, message: String) -> (report: Self)
        ensures
            report@ == (ReportView { line, location: Some(" at end"@), message: message@ }),
    {
        Self { line, location: Some(String::from_str(" at end")), message }
    }

    /// A report made of its parts.
    pub fn new(line: u32, location: Option<String>, message: String) -> (report: Self)
        ensures
            report@ == (ReportView {
                line,
                location: match location {
                    Some(location) => Some(location@),
                    None => None,
                },
                message: message@,
            }),
    {
        Self { line, location, message }
    }

    /// Where on its line the error was found, if that is known.
    pub fn location(&self) -> (location: Option<&str>)
        ensures
            match location {
                Some(location) => self@.location == Some(location@),
                None => self@.location is None,
            },
    {
        match &self.location {
            Some(location) => Some(location.as_str()),
            None => None,
        }
    }

    /// The line the error was found on.
    pub fn line(&self) -> (line: u32)
        ensures
            line == self@.line,
    {
        self.line
    }

    /// What is wrong.
    pub fn message(&self) -> (message: &str)
        ensures
            message@ == self@.message,
    {
        self.message.as_str()
    }

    /// The report as it is shown to the user.
    pub fn render(&self) -> (text: String)
        ensures
            text@ == report_text(self@),
    {
        let mut text = String::from_str("[line ");
        push_decimal(&mut text, self.line);
        text.append("] Error");
        match &self.location {
            Some(location) => {
                text.append(location.as_str());
            },
            None => {
                assert(text@ + Seq::<char>::empty() == text@);
            },
        }
        text.append(": ");
        text.append(self.message.as_str());
        text
    }
}

impl Clone for Report {
    fn clone(&self) -> (copy: Self)
        ensures
            copy@ == self@,
    {
        let location = match &self.location {
            Some(location) => Some(location.clone()),
            None => None,
        };
        Self { line: self.line, location, message: self.message.clone() }
    }
}

} // verus!

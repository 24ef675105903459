//! The errors of the parser and the diagnostics that report them.

use vstd::prelude::*;
use vstd::std_specs::convert::FromSpecImpl;
use vstd::string::StringExecFns;
use crate::diagnostics::{ByteSpan, Diagnostic, DiagnosticView, Label, LabelStyle, LabelView};

verus! {

/// The name of a function as a clause gives it.
#[derive(Debug, PartialEq, Eq)]
pub enum FunctionName {
    /// Module, function and arity are known.
    Resolved { span: ByteSpan, module: String, function: String, arity: usize },
    /// The module is not known yet.
    PartiallyResolved { span: ByteSpan, function: String, arity: usize },
}

/// The head of a function clause.
#[derive(Debug, PartialEq, Eq)]
pub enum FunctionClause {
    Named { span: ByteSpan, name: String },
    Unnamed { span: ByteSpan },
}

/// An error of the preprocessor, as far as the parser reads it.
#[derive(Debug, PartialEq, Eq)]
pub struct PreprocessorError {
    pub message: String,
    pub span: Option<ByteSpan>,
    pub diagnostic: Diagnostic,
}

/// An error in reading the source, as far as the parser reads it.
#[derive(Debug, PartialEq, Eq)]
pub struct SourceError {
    pub message: String,
    pub diagnostic: Diagnostic,
}

/// What the generated parser reports.
#[allow(inconsistent_fields)]
#[derive(Debug, PartialEq, Eq)]
pub enum ParseError {
    /// No token starts at `location`.
    InvalidToken { location: u32 },
    /// A token, from its start to its end, that the grammar does not allow
    /// here; `None` for the end of the input.
    UnrecognizedToken { token: Option<(u32, u32)>, expected: Vec<String> },
    /// A token behind the end of what the grammar takes.
    ExtraToken { token: (u32, u32) },
    /// An error that an action of the grammar raised.
    User { error: ParserError },
}

/// An error of the parser.
#[allow(inconsistent_fields)]
#[derive(Debug, PartialEq, Eq)]
pub enum ParserError {
    Preprocessor(PreprocessorError),
    Source(SourceError),
    /// Reading failed; the text is that of the cause.
    IO(String),
    Diagnostic(Diagnostic),
    InvalidToken { span: ByteSpan },
    UnrecognizedToken { span: ByteSpan, expected: Vec<String> },
    ExtraToken { span: ByteSpan },
    UnexpectedEOF { expected: Vec<String> },
    UnexpectedFunctionClause { found: FunctionName, expected: FunctionName },
    MismatchedFunctionClause { found: FunctionClause, expected: FunctionClause },
}

/// The text of a digit.
pub open spec fn digit_text(digit: nat) -> Seq<char> {
    if digit == 0 {
        "0"@
    } else if digit == 1 {
        "1"@
    } else if digit == 2 {
        "2"@
    } else if digit == 3 {
        "3"@
    } else if digit == 4 {
        "4"@
    } else if digit == 5 {
        "5"@
    } else if digit == 6 {
        "6"@
    } else if digit == 7 {
        "7"@
    } else if digit == 8 {
        "8"@
    } else {
        "9"@
    }
}

/// The text of a number in decimal digits.
pub open spec fn decimal_text(number: nat) -> Seq<char>
    decreases number,
{
    if number < 10 {
        digit_text(number)
    } else {
        decimal_text(number / 10) + digit_text(number % 10)
    }
}

/// The texts from position `from` on, with `", "` before each.
pub open spec fn listed_from(texts: Seq<String>, from: int) -> Seq<char>
    decreases texts.len() - from,
{
    if from < 0 || from >= texts.len() {
        Seq::empty()
    } else {
        ", "@ + texts[from]@ + listed_from(texts, from + 1)
    }
}

/// The texts with `", "` between them.
pub open spec fn listed(texts: Seq<String>) -> Seq<char> {
    if texts.len() == 0 {
        Seq::empty()
    } else {
        texts[0]@ + listed_from(texts, 1)
    }
}

impl FunctionName {
    /// Where the name stands.
    pub open spec fn span_of(self) -> ByteSpan {
        match self {
            FunctionName::Resolved { span, .. } => span,
            FunctionName::PartiallyResolved { span, .. } => span,
        }
    }

    /// The name as text: `module:function/arity`, without the module where
    /// it is not known.
    pub open spec fn text_of(self) -> Seq<char> {
        match self {
            FunctionName::Resolved { module, function, arity, .. } => module@ + ":"@ + function@
                + "/"@ + decimal_text(arity as nat),
            FunctionName::PartiallyResolved { function, arity, .. } => function@ + "/"@
                + decimal_text(arity as nat),
        }
    }

    /// Where the name stands.
    pub fn span(&self) -> (span: ByteSpan)
        ensures
            span == self.span_of(),
    {
        match self {
            FunctionName::Resolved { span, .. } => *span,
            FunctionName::PartiallyResolved { span, .. } => *span,
        }
    }

    /// The name as text.
    pub fn text(&self) -> (text: String)
        ensures
            text@ == self.text_of(),
    {
        match self {
            FunctionName::Resolved { module, function, arity, .. } => {
                let mut text = module.clone();
                text.append(":");
                text.append(function.as_str());
                text.append("/");
                text.append(decimal(*arity).as_str());
                text
            },
            FunctionName::PartiallyResolved { function, arity, .. } => {
                let mut text = function.clone();
                text.append("/");
                text.append(decimal(*arity).as_str());
                text
            },
        }
    }
}

impl FunctionClause {
    /// Where the clause stands.
    pub open spec fn span_of(self) -> ByteSpan {
        match self {
            FunctionClause::Named { span, .. } => span,
            FunctionClause::Unnamed { span } => span,
        }
    }

    /// Where the clause stands.
    pub fn span(&self) -> (span: ByteSpan)
        ensures
            span == self.span_of(),
    {
        match self {
            FunctionClause::Named { span, .. } => *span,
            FunctionClause::Unnamed { span } => *span,
        }
    }
}

impl PreprocessorError {
    /// Where the error lies, if it lies anywhere.
    pub fn span(&self) -> (span: Option<ByteSpan>)
        ensures
            span == self.span,
    {
        self.span
    }

    /// The diagnostic that reports the error.
    pub fn to_diagnostic(&self) -> (diagnostic: Diagnostic)
        ensures
            diagnostic@ == self.diagnostic@,
    {
        self.diagnostic.duplicate()
    }
}

impl SourceError {
    /// The diagnostic that reports the error.
    pub fn to_diagnostic(&self) -> (diagnostic: Diagnostic)
        ensures
            diagnostic@ == self.diagnostic@,
    {
        self.diagnostic.duplicate()
    }
}

/// The remark on a clause that is named where an unnamed one was due.
pub open spec fn named_remark() -> Seq<char> {
    "this clause is named, but was expected to be unnamed"@
}

/// The remark on a clause that is unnamed where a named one was due.
pub open spec fn unnamed_remark() -> Seq<char> {
    "this clause is unnamed, but was expected to be named"@
}

/// The remark on a clause of another name than the clauses before it.
pub open spec fn other_name_remark() -> Seq<char> {
    "this clause has a different name than expected, perhaps you are missing a '.' in the previous clause?"@
}

/// The remark on a clause of another arity than the clauses before it.
pub open spec fn other_arity_remark() -> Seq<char> {
    "this clause has a different arity than expected, perhaps you are missing a '.' in the previous clause?"@
}

/// The remark on the clause that set name and arity.
pub open spec fn same_name_remark() -> Seq<char> {
    "expected a clause with the same name and arity as this clause"@
}

/// A label with a remark.
pub open spec fn remark(style: LabelStyle, span: ByteSpan, message: Seq<char>) -> LabelView {
    LabelView { span, message: Some(message), style }
}

impl ParserError {
    /// The error that stands for what the generated parser reports.
    pub open spec fn of_parse_error(error: ParseError) -> ParserError {
        match error {
            ParseError::InvalidToken { location } => ParserError::InvalidToken {
                span: ByteSpan { start: location, end: location },
            },
            ParseError::UnrecognizedToken { token: None, expected } => ParserError::UnexpectedEOF {
                expected,
            },
            ParseError::UnrecognizedToken { token: Some((start, end)), expected } => {
                ParserError::UnrecognizedToken { span: ByteSpan { start, end }, expected }
            },
            ParseError::ExtraToken { token: (start, end) } => ParserError::ExtraToken {
                span: ByteSpan { start, end },
            },
            ParseError::User { error } => error,
        }
    }

    /// Where the error lies, if it lies anywhere.
    pub open spec fn span_of(self) -> Option<ByteSpan> {
        match self {
            ParserError::Preprocessor(error) => error.span,
            ParserError::InvalidToken { span } => Some(span),
            ParserError::UnrecognizedToken { span, .. } => Some(span),
            ParserError::ExtraToken { span } => Some(span),
            ParserError::UnexpectedFunctionClause { found, .. } => Some(found.span_of()),
            ParserError::MismatchedFunctionClause { found, .. } => Some(found.span_of()),
            _ => None,
        }
    }

    /// The error in words.
    pub open spec fn message_of(self) -> Seq<char> {
        match self {
            ParserError::Preprocessor(error) => error.message@,
            ParserError::Source(error) => error.message@,
            ParserError::IO(_) => "i/o error"@,
            ParserError::Diagnostic(diagnostic) => diagnostic.message@,
            ParserError::InvalidToken { .. } => "invalid token"@,
            ParserError::UnrecognizedToken { .. } => "unrecognized token"@,
            ParserError::ExtraToken { .. } => "extra token"@,
            ParserError::UnexpectedEOF { .. } => "unexpected eof"@,
            ParserError::UnexpectedFunctionClause { found, expected } =>
                "unexpected function clause for "@ + found.text_of() + ", while parsing "@
                + expected.text_of(),
            ParserError::MismatchedFunctionClause { .. } => "mismatched function clauses"@,
        }
    }

    /// The diagnostic that reports the error. An error from elsewhere brings
    /// its own. A token that the grammar does not allow is reported with what
    /// was expected. A clause that does not fit the clauses before it is
    /// reported with a remark on it and one on the clause that it should
    /// fit. Every other error is reported in its own words, at the place
    /// where it lies if it lies anywhere. An i/o error has no diagnostic:
    /// what is said of it here binds nobody.
    pub open spec fn diagnostic_of(self) -> DiagnosticView {
        let message = self.message_of();
        match self {
            ParserError::Diagnostic(diagnostic) => diagnostic@,
            ParserError::Preprocessor(error) => error.diagnostic@,
            ParserError::Source(error) => error.diagnostic@,
            ParserError::UnrecognizedToken { span, expected } => DiagnosticView::error(
                "expected: "@ + listed(expected@),
            ).with_label(remark(LabelStyle::Primary, span, message)),
            ParserError::MismatchedFunctionClause {
                found: FunctionClause::Named { span, .. },
                expected: FunctionClause::Unnamed { span: expected_span },
            } => DiagnosticView::error(message).with_label(
                remark(LabelStyle::Primary, span, named_remark()),
            ).with_label(remark(LabelStyle::Secondary, expected_span, "this clause is unnamed"@)),
            ParserError::MismatchedFunctionClause {
                found: FunctionClause::Unnamed { span },
                expected: FunctionClause::Named { span: expected_span, .. },
            } => DiagnosticView::error(message).with_label(
                remark(LabelStyle::Primary, span, unnamed_remark()),
            ).with_label(remark(LabelStyle::Secondary, expected_span, "this clause is named"@)),
            ParserError::UnexpectedFunctionClause {
                found: FunctionName::Resolved { span, function, .. },
                expected: FunctionName::Resolved {
                    span: expected_span,
                    function: expected_function,
                    ..
                },
            } => DiagnosticView::error(message).with_label(
                remark(
                    LabelStyle::Primary,
                    span,
                    if function@ != expected_function@ {
                        other_name_remark()
                    } else {
                        other_arity_remark()
                    },
                ),
            ).with_label(remark(LabelStyle::Secondary, expected_span, same_name_remark())),
            _ => match self.span_of() {
                Some(span) => DiagnosticView::error(message).with_label(
                    LabelView { span, message: None, style: LabelStyle::Primary },
                ),
                None => DiagnosticView::error(message),
            },
        }
    }

    /// Where the error lies, if it lies anywhere.
    pub fn span(&self) -> (span: Option<ByteSpan>)
        ensures
            span == self.span_of(),
    {
        match self {
            ParserError::Preprocessor(error) => error.span(),
            ParserError::InvalidToken { span } => Some(*span),
            ParserError::UnrecognizedToken { span, .. } => Some(*span),
            ParserError::ExtraToken { span } => Some(*span),
            ParserError::UnexpectedFunctionClause { found, .. } => Some(found.span()),
            ParserError::MismatchedFunctionClause { found, .. } => Some(found.span()),
            _ => None,
        }
    }

    /// The error in words.
    pub fn message(&self) -> (message: String)
        ensures
            message@ == self.message_of(),
    {
        match self {
            ParserError::Preprocessor(error) => error.message.clone(),
            ParserError::Source(error) => error.message.clone(),
            ParserError::IO(_) => "i/o error".to_owned(),
            ParserError::Diagnostic(diagnostic) => diagnostic.message.clone(),
            ParserError::InvalidToken { .. } => "invalid token".to_owned(),
            ParserError::UnrecognizedToken { .. } => "unrecognized token".to_owned(),
            ParserError::ExtraToken { .. } => "extra token".to_owned(),
            ParserError::UnexpectedEOF { .. } => "unexpected eof".to_owned(),
            ParserError::UnexpectedFunctionClause { found, expected } => {
                let mut message = "unexpected function clause for ".to_owned();
                message.append(found.text().as_str());
                message.append(", while parsing ");
                message.append(expected.text().as_str());
                message
            },
            ParserError::MismatchedFunctionClause { .. } => "mismatched function clauses".to_owned(),
        }
    }

    /// The diagnostic that reports the error. An i/o error lies nowhere in
    /// the source, so there is no place to report it at: it is not to be
    /// passed here.
    pub fn to_diagnostic(&self) -> (diagnostic: Diagnostic)
        requires
            !(self is IO),
        ensures
            diagnostic@ == self.diagnostic_of(),
    {
        let span = self.span();
        let message = self.message();
        match self {
            ParserError::Diagnostic(diagnostic) => diagnostic.duplicate(),
            ParserError::Preprocessor(error) => error.to_diagnostic(),
            ParserError::Source(error) => error.to_diagnostic(),
            ParserError::UnrecognizedToken { span, expected } => {
                let mut text = "expected: ".to_owned();
                text.append(join(expected).as_str());
                Diagnostic::new_error(text).with_label(
                    Label::new_primary(*span).with_message(message),
                )
            },
            ParserError::MismatchedFunctionClause {
                found: FunctionClause::Named { span, .. },
                expected: FunctionClause::Unnamed { span: expected_span },
            } => Diagnostic::new_error(message).with_label(
                Label::new_primary(*span).with_message(
                    "this clause is named, but was expected to be unnamed".to_owned(),
                ),
            ).with_label(
                Label::new_secondary(*expected_span).with_message(
                    "this clause is unnamed".to_owned(),
                ),
            ),
            ParserError::MismatchedFunctionClause {
                found: FunctionClause::Unnamed { span },
                expected: FunctionClause::Named { span: expected_span, .. },
            } => Diagnostic::new_error(message).with_label(
                Label::new_primary(*span).with_message(
                    "this clause is unnamed, but was expected to be named".to_owned(),
                ),
            ).with_label(
                Label::new_secondary(*expected_span).with_message("this clause is named".to_owned()),
            ),
            ParserError::UnexpectedFunctionClause {
                found: FunctionName::Resolved { span, function, .. },
                expected: FunctionName::Resolved {
                    span: expected_span,
                    function: expected_function,
                    ..
                },
            } => {
                let remark = if *function != *expected_function {
                    "this clause has a different name than expected, perhaps you are missing a '.' in the previous clause?".to_owned()
                } else {
                    "this clause has a different arity than expected, perhaps you are missing a '.' in the previous clause?".to_owned()
                };
                Diagnostic::new_error(message).with_label(
                    Label::new_primary(*span).with_message(remark),
                ).with_label(
                    Label::new_secondary(*expected_span).with_message(
                        "expected a clause with the same name and arity as this clause".to_owned(),
                    ),
                )
            },
            _ => match span {
                Some(span) => Diagnostic::new_error(message).with_label(Label::new_primary(span)),
                None => Diagnostic::new_error(message),
            },
        }
    }
}

impl From<ParseError> for ParserError {
    fn from(error: ParseError) -> (converted: ParserError) {
        match error {
            ParseError::InvalidToken { location } => ParserError::InvalidToken {
                span: ByteSpan::new(location, location),
            },
            ParseError::UnrecognizedToken { token: None, expected } => ParserError::UnexpectedEOF {
                expected,
            },
            ParseError::UnrecognizedToken { token: Some((start, end)), expected } => {
                ParserError::UnrecognizedToken { span: ByteSpan::new(start, end), expected }
            },
            ParseError::ExtraToken { token: (start, end) } => ParserError::ExtraToken {
                span: ByteSpan::new(start, end),
            },
            ParseError::User { error } => error,
        }
    }
}

impl FromSpecImpl<ParseError> for ParserError {
    open spec fn obeys_from_spec() -> bool {
        true
    }

    open spec fn from_spec(error: ParseError) -> ParserError {
        ParserError::of_parse_error(error)
    }
}

impl From<PreprocessorError> for ParserError {
    fn from(error: PreprocessorError) -> (converted: ParserError) {
        ParserError::Preprocessor(error)
    }
}

impl FromSpecImpl<PreprocessorError> for ParserError {
    open spec fn obeys_from_spec() -> bool {
        true
    }

    open spec fn from_spec(error: PreprocessorError) -> ParserError {
        ParserError::Preprocessor(error)
    }
}

impl From<SourceError> for ParserError {
    fn from(error: SourceError) -> (converted: ParserError) {
        ParserError::Source(error)
    }
}

impl FromSpecImpl<SourceError> for ParserError {
    open spec fn obeys_from_spec() -> bool {
        true
    }

    open spec fn from_spec(error: SourceError) -> ParserError {
        ParserError::Source(error)
    }
}

/// The text of a digit.
fn digit(value: usize) -> (text: &'static str)
    requires
        value < 10,
    ensures
        text@ == digit_text(value as nat),
{
    if value == 0 {
        "0"
    } else if value == 1 {
        "1"
    } else if value == 2 {
        "2"
    } else if value == 3 {
        "3"
    } else if value == 4 {
        "4"
    } else if value == 5 {
        "5"
    } else if value == 6 {
        "6"
    } else if value == 7 {
        "7"
    } else if value == 8 {
        "8"
    } else {
        "9"
    }
}

/// The text of a number in decimal digits.
pub fn decimal(number: usize) -> (text: String)
    ensures
        text@ == decimal_text(number as nat),
    decreases number,
{
    if number < 10 {
        digit(number).to_owned()
    } else {
        let mut text = decimal(number / 10);
        text.append(digit(number % 10));
        text
    }
}

/// The texts with `", "` between them.
pub fn join(texts: &Vec<String>) -> (text: String)
    ensures
        text@ == listed(texts@),
{
    if texts.len() == 0 {
        return String::new();
    }
    let mut tail = String::new();
    let mut i: usize = texts.len();
    while i > 1
        invariant
            1 <= i <= texts.len(),
            tail@ == listed_from(texts@, i as int),
        decreases i,
    {
        i -= 1;
        let mut next = ", ".to_owned();
        next.append(texts[i].as_str());
        next.append(tail.as_str());
        tail = next;
    }
    let mut text = texts[0].clone();
    text.append(tail.as_str());
    text
}

} // verus!

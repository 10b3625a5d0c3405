//! Findings of the front end, and the diagnostics that the editor shows for them.

use crate::span::{Range, SourceSpan};
use vstd::prelude::*;

verus! {

/// How grave a diagnostic is.
#[derive(Clone, Copy, Debug, PartialEq, Eq, Structural)]
pub enum Severity {
    Error,
    Warning,
}

/// A finding of the security analyzer. Each kind names what it is about and
/// where it was found.
#[derive(Clone, Debug, PartialEq, Eq)]
pub enum Warning {
    /// A call out of the contract that may re-enter it, at `location`.
    PotentialReentrancy { location: String, span: SourceSpan },
    /// Storage read under `name` before anything was written to it.
    UninitializedVariable { name: String, span: SourceSpan },
    /// The arithmetic `operation`, done without a check.
    UncheckedArithmetic { operation: String, span: SourceSpan },
    /// The arithmetic `operation`, whose result may not fit its type.
    PotentialOverflow { operation: String, span: SourceSpan },
}

/// Why the parser gave up on a text. The parser does not always know where.
#[derive(Clone, Debug, PartialEq, Eq)]
pub enum ParseError {
    /// The grammar asked for `expected` where the token `found` stands.
    Expected { expected: String, found: String, span: Option<SourceSpan> },
    /// The token `token` can not stand where it does.
    UnexpectedToken { token: String, span: Option<SourceSpan> },
    /// Any other failure, in the parser's own words.
    Other { description: String, span: Option<SourceSpan> },
}

/// One entry of the list that the editor shows for a document.
#[derive(Clone, Debug, PartialEq, Eq)]
pub struct Diagnostic {
    pub range: Range,
    pub severity: Severity,
    pub message: String,
    pub source: String,
}

/// The mathematical value of a [`Warning`].
pub enum WarningModel {
    PotentialReentrancy { location: Seq<char>, span: SourceSpan },
    UninitializedVariable { name: Seq<char>, span: SourceSpan },
    UncheckedArithmetic { operation: Seq<char>, span: SourceSpan },
    PotentialOverflow { operation: Seq<char>, span: SourceSpan },
}

/// The mathematical value of a [`ParseError`].
pub enum ParseErrorModel {
    Expected { expected: Seq<char>, found: Seq<char>, span: Option<SourceSpan> },
    UnexpectedToken { token: Seq<char>, span: Option<SourceSpan> },
    Other { description: Seq<char>, span: Option<SourceSpan> },
}

/// The mathematical value of a [`Diagnostic`].
pub struct DiagnosticModel {
    pub range: Range,
    pub severity: Severity,
    pub message: Seq<char>,
    pub source: Seq<char>,
}

impl View for Warning {
    type V = WarningModel;

    open spec fn view(&self) -> WarningModel {
        match *self {
            Warning::PotentialReentrancy { location, span } => WarningModel::PotentialReentrancy {
                location: location@,
                span,
            },
            Warning::UninitializedVariable { name, span } => WarningModel::UninitializedVariable {
                name: name@,
                span,
            },
            Warning::UncheckedArithmetic { operation, span } => WarningModel::UncheckedArithmetic {
                operation: operation@,
                span,
            },
            Warning::PotentialOverflow { operation, span } => WarningModel::PotentialOverflow {
                operation: operation@,
                span,
            },
        }
    }
}

impl DeepView for Warning {
    type V = WarningModel;

    open spec fn deep_view(&self) -> WarningModel {
        self@
    }
}

impl View for ParseError {
    type V = ParseErrorModel;

    open spec fn view(&self) -> ParseErrorModel {
        match *self {
            ParseError::Expected { expected, found, span } => ParseErrorModel::Expected {
                expected: expected@,
                found: found@,
                span,
            },
            ParseError::UnexpectedToken { token, span } => ParseErrorModel::UnexpectedToken {
                token: token@,
                span,
            },
            ParseError::Other { description, span } => ParseErrorModel::Other {
                description: description@,
                span,
            },
        }
    }
}

impl View for Diagnostic {
    type V = DiagnosticModel;

    open spec fn view(&self) -> DiagnosticModel {
        DiagnosticModel {
            range: self.range,
            severity: self.severity,
            message: self.message@,
            source: self.source@,
        }
    }
}

impl DeepView for Diagnostic {
    type V = DiagnosticModel;

    open spec fn deep_view(&self) -> DiagnosticModel {
        self@
    }
}

/// The source tag of a diagnostic that reports a parse error.
pub open spec fn parser_tag() -> Seq<char> {
    "Parser"@
}

/// The source tag of a diagnostic that reports a security warning.
pub open spec fn security_tag() -> Seq<char> {
    "SwiftSC Security"@
}

impl WarningModel {
    /// Where the warning was found.
    pub open spec fn span(self) -> SourceSpan {
        match self {
            WarningModel::PotentialReentrancy { span, .. } => span,
            WarningModel::UninitializedVariable { span, .. } => span,
            WarningModel::UncheckedArithmetic { span, .. } => span,
            WarningModel::PotentialOverflow { span, .. } => span,
        }
    }

    /// What the editor says of the warning.
    pub open spec fn message(self) -> Seq<char> {
        match self {
            WarningModel::PotentialReentrancy { location, .. } => "Potential Reentrancy at "@
                + location,
            WarningModel::UninitializedVariable { name, .. } => "Uninitialized Storage: "@ + name,
            WarningModel::UncheckedArithmetic { operation, .. } => "Unchecked Arithmetic: "@
                + operation + ". Use SafeMath."@,
            WarningModel::PotentialOverflow { operation, .. } => "Potential Overflow: "@
                + operation,
        }
    }

    /// The diagnostic of the warning: of severity `Warning`, tagged as a
    /// security finding, on the single character at the warning's span.
    pub open spec fn diagnostic(self) -> DiagnosticModel {
        DiagnosticModel {
            range: self.span().protocol_range(),
            severity: Severity::Warning,
            message: self.message(),
            source: security_tag(),
        }
    }
}

impl ParseErrorModel {
    /// Where the parser gave up, if it said so.
    pub open spec fn span(self) -> Option<SourceSpan> {
        match self {
            ParseErrorModel::Expected { span, .. } => span,
            ParseErrorModel::UnexpectedToken { span, .. } => span,
            ParseErrorModel::Other { span, .. } => span,
        }
    }

    /// What the editor says of the error.
    pub open spec fn message(self) -> Seq<char> {
        match self {
            ParseErrorModel::Expected { expected, found, .. } => "Expected "@ + expected
                + ", found "@ + found,
            ParseErrorModel::UnexpectedToken { token, .. } => "Unexpected token: "@ + token,
            ParseErrorModel::Other { description, .. } => "Parse error: "@ + description,
        }
    }

    /// Where the error is shown: at its span, or on the first character of the
    /// document when the parser gave no span.
    pub open spec fn range(self) -> Range {
        match self.span() {
            Some(span) => span.protocol_range(),
            None => Range::sentinel_range(),
        }
    }

    /// The diagnostic of the error: of severity `Error`, tagged as the
    /// parser's.
    pub open spec fn diagnostic(self) -> DiagnosticModel {
        DiagnosticModel {
            range: self.range(),
            severity: Severity::Error,
            message: self.message(),
            source: parser_tag(),
        }
    }
}

impl Warning {
    /// Where the warning was found.
    pub fn span(&self) -> (span: SourceSpan)
        ensures
            span == self@.span(),
    {
        match self {
            Warning::PotentialReentrancy { span, .. } => *span,
            Warning::UninitializedVariable { span, .. } => *span,
            Warning::UncheckedArithmetic { span, .. } => *span,
            Warning::PotentialOverflow { span, .. } => *span,
        }
    }

    /// The text shown for the warning.
    pub fn message(&self) -> (text: String)
        ensures
            text@ == self@.message(),
            text@.len() > 0,
    {
        proof {
            lemma_warning_message_is_not_empty(self@);
        }
        match self {
            Warning::PotentialReentrancy { location, .. } => {
                let mut text = String::from_str("Potential Reentrancy at ");
                text.append(location.as_str());
                text
            },
            Warning::UninitializedVariable { name, .. } => {
                let mut text = String::from_str("Uninitialized Storage: ");
                text.append(name.as_str());
                text
            },
            Warning::UncheckedArithmetic { operation, .. } => {
                let mut text = String::from_str("Unchecked Arithmetic: ");
                text.append(operation.as_str());
                text.append(". Use SafeMath.");
                text
            },
            Warning::PotentialOverflow { operation, .. } => {
                let mut text = String::from_str("Potential Overflow: ");
                text.append(operation.as_str());
                text
            },
        }
    }
}

impl ParseError {
    /// Where the parser gave up, if it said so.
    pub fn span(&self) -> (span: Option<SourceSpan>)
        ensures
            span == self@.span(),
    {
        match self {
            ParseError::Expected { span, .. } => *span,
            ParseError::UnexpectedToken { span, .. } => *span,
            ParseError::Other { span, .. } => *span,
        }
    }

    /// The text shown for the error.
    pub fn message(&self) -> (text: String)
        ensures
            text@ == self@.message(),
            text@.len() > 0,
    {
        proof {
            lemma_parse_error_message_is_not_empty(self@);
        }
        match self {
            ParseError::Expected { expected, found, .. } => {
                let mut text = String::from_str("Expected ");
                text.append(expected.as_str());
                text.append(", found ");
                text.append(found.as_str());
                text
            },
            ParseError::UnexpectedToken { token, .. } => {
                let mut text = String::from_str("Unexpected token: ");
                text.append(token.as_str());
                text
            },
            ParseError::Other { description, .. } => {
                let mut text = String::from_str("Parse error: ");
                text.append(description.as_str());
                text
            },
        }
    }

    /// Where the error is shown.
    pub fn range(&self) -> (range: Range)
        ensures
            range == self@.range(),
            range.is_point(),
    {
        match self.span() {
            Some(span) => span.to_protocol_range(),
            None => Range::sentinel(),
        }
    }
}

impl Diagnostic {
    /// The diagnostic that reports a security warning.
    pub fn from_warning(warning: &Warning) -> (diagnostic: Diagnostic)
        ensures
            diagnostic@ == warning@.diagnostic(),
    {
        Diagnostic {
            range: warning.span().to_protocol_range(),
            severity: Severity::Warning,
            message: warning.message(),
            source: String::from_str("SwiftSC Security"),
        }
    }

    /// The diagnostic that reports a parse error.
    pub fn from_parse_error(error: &ParseError) -> (diagnostic: Diagnostic)
        ensures
            diagnostic@ == error@.diagnostic(),
    {
        Diagnostic {
            range: error.range(),
            severity: Severity::Error,
            message: error.message(),
            source: String::from_str("Parser"),
        }
    }
}

/// Every warning has something to say: its message is never empty.
pub proof fn lemma_warning_message_is_not_empty(warning: WarningModel)
    ensures
        warning.message().len() > 0,
{
    reveal_strlit("Potential Reentrancy at ");
    reveal_strlit("Uninitialized Storage: ");
    reveal_strlit("Unchecked Arithmetic: ");
    reveal_strlit("Potential Overflow: ");
}

/// Every parse error has something to say: its message is never empty.
pub proof fn lemma_parse_error_message_is_not_empty(error: ParseErrorModel)
    ensures
        error.message().len() > 0,
{
    reveal_strlit("Expected ");
    reveal_strlit("Unexpected token: ");
    reveal_strlit("Parse error: ");
}

} // verus!

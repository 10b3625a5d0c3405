//! The analysis of one document: from what the front end found in its text to
//! the list of diagnostics that is published for it.
//!
//! The caller runs the parser on the text and, where the text parses, a fresh
//! security analyzer on the program. What came of that is a [`Findings`];
//! everything after it is decided here, and nothing is kept between two runs.

use crate::diagnostic::{
    parser_tag, security_tag, Diagnostic, DiagnosticModel, ParseError, ParseErrorModel, Severity,
    Warning, WarningModel,
};
use vstd::prelude::*;

verus! {

/// What the front end found in one text: the error on which the parser gave
/// up, or, for a text that parses, the analyzer's warnings in the order in
/// which it reported them.
#[derive(Clone, Debug, PartialEq, Eq)]
pub enum Findings {
    ParseFailed(ParseError),
    Analyzed(Vec<Warning>),
}

/// The mathematical value of a [`Findings`].
pub enum FindingsModel {
    ParseFailed(ParseErrorModel),
    Analyzed(Seq<WarningModel>),
}

/// The notification that replaces the diagnostics of one document in the
/// editor. It never carries a document version.
#[derive(Clone, Debug, PartialEq, Eq)]
pub struct PublishDiagnostics {
    pub uri: String,
    pub diagnostics: Vec<Diagnostic>,
    pub version: Option<i32>,
}

/// The mathematical value of a [`PublishDiagnostics`].
pub struct PublicationModel {
    pub uri: Seq<char>,
    pub diagnostics: Seq<DiagnosticModel>,
    pub version: Option<i32>,
}

impl View for Findings {
    type V = FindingsModel;

    open spec fn view(&self) -> FindingsModel {
        match *self {
            Findings::ParseFailed(error) => FindingsModel::ParseFailed(error@),
            Findings::Analyzed(warnings) => FindingsModel::Analyzed(warnings.deep_view()),
        }
    }
}

impl View for PublishDiagnostics {
    type V = PublicationModel;

    open spec fn view(&self) -> PublicationModel {
        PublicationModel {
            uri: self.uri@,
            diagnostics: self.diagnostics.deep_view(),
            version: self.version,
        }
    }
}

impl FindingsModel {
    /// The diagnostics of one run. A parse failure gives the one diagnostic
    /// of the error, and no other. A text that parses gives one diagnostic for
    /// each warning, in the analyzer's order.
    pub open spec fn diagnostics(self) -> Seq<DiagnosticModel> {
        match self {
            FindingsModel::ParseFailed(error) => seq![error.diagnostic()],
            FindingsModel::Analyzed(warnings) => Seq::new(
                warnings.len(),
                |i: int| warnings[i].diagnostic(),
            ),
        }
    }

    /// The notification sent for the document `uri` after one run.
    pub open spec fn publication(self, uri: Seq<char>) -> PublicationModel {
        PublicationModel { uri, diagnostics: self.diagnostics(), version: None }
    }
}

impl PublicationModel {
    /// What the editor shows once it has taken this notification, where it
    /// showed `shown` before: the whole list of the notification's document
    /// is replaced, and no other document's list changes.
    pub open spec fn shown_after(
        self,
        shown: Map<Seq<char>, Seq<DiagnosticModel>>,
    ) -> Map<Seq<char>, Seq<DiagnosticModel>> {
        shown.insert(self.uri, self.diagnostics)
    }
}

/// The diagnostics of one analysis run, from what the front end found.
pub fn analyze(findings: &Findings) -> (diagnostics: Vec<Diagnostic>)
    ensures
        diagnostics.deep_view() == findings@.diagnostics(),
{
    let mut diagnostics: Vec<Diagnostic> = Vec::new();
    match findings {
        Findings::ParseFailed(error) => {
            diagnostics.push(Diagnostic::from_parse_error(error));
            assert(diagnostics.deep_view() =~= findings@.diagnostics());
        },
        Findings::Analyzed(warnings) => {
            let mut i: usize = 0;
            while i < warnings.len()
                invariant
                    i <= warnings.len(),
                    diagnostics.len() == i,
                    forall|k: int|
                        0 <= k < i ==> (#[trigger] diagnostics[k])@ == warnings[k]@.diagnostic(),
                decreases warnings.len() - i,
            {
                diagnostics.push(Diagnostic::from_warning(&warnings[i]));
                i += 1;
            }
            assert(diagnostics.deep_view() =~= findings@.diagnostics());
        },
    }
    diagnostics
}

/// The notification that publishes the outcome of one run for the document
/// `uri`. Every run is published, a run without diagnostics too: its empty
/// list clears what the editor showed before.
pub fn publication(uri: String, findings: &Findings) -> (notification: PublishDiagnostics)
    ensures
        notification@ == findings@.publication(uri@),
{
    PublishDiagnostics { uri, diagnostics: analyze(findings), version: None }
}

/// A text that parses and draws no warning is published with an empty list.
pub proof fn lemma_clean_text_publishes_nothing(uri: Seq<char>, findings: FindingsModel)
    requires
        findings is Analyzed,
        findings->Analyzed_0.len() == 0,
    ensures
        findings.diagnostics() == Seq::<DiagnosticModel>::empty(),
        findings.publication(uri).diagnostics.len() == 0,
        findings.publication(uri).uri == uri,
{
    assert(findings.diagnostics() =~= Seq::<DiagnosticModel>::empty());
}

/// A text that does not parse is published with exactly one diagnostic: an
/// error, tagged as the parser's, with the parse error's message and place.
pub proof fn lemma_parse_failure_publishes_one_error(uri: Seq<char>, findings: FindingsModel)
    requires
        findings is ParseFailed,
    ensures
        findings.publication(uri).diagnostics.len() == 1,
        findings.publication(uri).diagnostics[0] == findings->ParseFailed_0.diagnostic(),
        findings.publication(uri).diagnostics[0].severity == Severity::Error,
        findings.publication(uri).diagnostics[0].source == parser_tag(),
        findings.publication(uri).diagnostics[0].message.len() > 0,
{
    crate::diagnostic::lemma_parse_error_message_is_not_empty(findings->ParseFailed_0);
}

/// A text that parses is published with one warning diagnostic for each
/// warning of the analyzer, in the analyzer's order, and with no error.
pub proof fn lemma_warnings_are_published_in_order(findings: FindingsModel, i: int)
    requires
        findings is Analyzed,
        0 <= i < findings->Analyzed_0.len(),
    ensures
        findings.diagnostics().len() == findings->Analyzed_0.len(),
        findings.diagnostics()[i] == findings->Analyzed_0[i].diagnostic(),
        findings.diagnostics()[i].severity == Severity::Warning,
        findings.diagnostics()[i].source == security_tag(),
{
}

/// Two runs on the same findings give the same diagnostics, equal in content
/// and in order: a run depends on nothing but what the front end found.
pub proof fn lemma_analysis_is_repeatable(first: Findings, second: Findings, uri: Seq<char>)
    requires
        first@ == second@,
    ensures
        first@.diagnostics() == second@.diagnostics(),
        first@.publication(uri) == second@.publication(uri),
{
}

/// Every diagnostic of every run covers a single character: it ends one
/// column after its start.
pub proof fn lemma_every_diagnostic_is_a_point(findings: FindingsModel, i: int)
    requires
        0 <= i < findings.diagnostics().len(),
    ensures
        findings.diagnostics()[i].range.is_point(),
{
}

} // verus!

//! The server side of the editor protocol: which messages the server takes in
//! which phase of its life, what it answers, and what it asks of its caller.
//!
//! The server is a plain value. Its caller reads messages, hands each to the
//! function of its name, sends the answer, and runs the analysis that an open
//! or a change asks for. Every request is answered, whatever the phase; a
//! document notification is taken by an initialized server only. To turn away
//! messages that come out of turn is left to the transport in front.

use crate::analysis::FindingsModel;
use crate::diagnostic::DiagnosticModel;
use crate::span::Range;
use crate::store::DocumentStore;
use tower_lsp::jsonrpc::Error;
use vstd::prelude::*;

verus! {

/// The phases of a server's life, in the order in which it passes them.
#[derive(Clone, Copy, Debug, PartialEq, Eq, Structural)]
pub enum Phase {
    /// No `initialize` request has come yet.
    Uninitialized,
    /// The server keeps the documents that the editor opens and changes.
    Initialized,
    /// A `shutdown` request has come to an initialized server; `exit` is
    /// awaited.
    ShuttingDown,
    /// `exit` has come.
    Terminated,
}

/// The error that a request handler of the protocol crate may return in
/// place of its answer, `tower_lsp::jsonrpc::Error`. Nothing is said of its
/// contents, and no handler of this library makes one.
#[verifier::external_type_specification]
#[verifier::external_body]
pub struct ExJsonRpcError(tower_lsp::jsonrpc::Error);

/// How the editor keeps the server's copy of a document up to date.
#[derive(Clone, Copy, Debug, PartialEq, Eq, Structural)]
pub enum SyncKind {
    /// Documents are not synchronized.
    Off,
    /// Every change sends the whole text.
    Full,
    /// A change sends what differs.
    Incremental,
}

/// What the server tells the editor it can do.
#[derive(Clone, Copy, Debug, PartialEq, Eq, Structural)]
pub struct ServerCapabilities {
    pub text_document_sync: SyncKind,
    pub completion_provider: bool,
    pub hover_provider: bool,
}

/// How a message for the editor's log is ranked.
#[derive(Clone, Copy, Debug, PartialEq, Eq, Structural)]
pub enum LogLevel {
    Error,
    Warning,
    Info,
    Log,
}

/// A message for the editor's log.
#[derive(Clone, Debug, PartialEq, Eq)]
pub struct LogMessage {
    pub level: LogLevel,
    pub text: String,
}

/// A text that is to be analyzed, and the document that it belongs to. The
/// caller runs the front end on `text` and publishes the outcome for `uri`.
#[derive(Clone, Debug, PartialEq, Eq)]
pub struct AnalysisJob {
    pub uri: String,
    pub text: String,
}

/// One proposal for completing the text at the cursor.
#[derive(Clone, Debug, PartialEq, Eq)]
pub struct CompletionItem {
    pub label: String,
}

/// What the editor shows when the pointer rests on a piece of text.
#[derive(Clone, Debug, PartialEq, Eq)]
pub struct Hover {
    pub contents: String,
    pub range: Option<Range>,
}

/// The server: its phase and the documents that are open in the editor.
#[derive(Debug)]
pub struct SCLanguageServer {
    phase: Phase,
    documents: DocumentStore,
}

/// The mathematical value of a [`SCLanguageServer`].
pub struct ServerModel {
    pub phase: Phase,
    pub documents: Map<Seq<char>, Seq<char>>,
}

/// The capabilities that the server announces: whole-text synchronization,
/// completion and hover.
pub open spec fn announced_capabilities() -> ServerCapabilities {
    ServerCapabilities {
        text_document_sync: SyncKind::Full,
        completion_provider: true,
        hover_provider: true,
    }
}

/// The line that the server logs when the editor confirms the initialization.
pub open spec fn ready_text() -> Seq<char> {
    "SwiftSC-Lang LSP server initialized!"@
}

/// The text of every hover.
pub open spec fn hover_text() -> Seq<char> {
    "SwiftSC-Lang LSP: Security diagnostics active."@
}

impl Phase {
    /// The place of the phase in a server's life.
    pub open spec fn rank(self) -> nat {
        match self {
            Phase::Uninitialized => 0,
            Phase::Initialized => 1,
            Phase::ShuttingDown => 2,
            Phase::Terminated => 3,
        }
    }
}

impl ServerModel {
    /// A server that has seen no message.
    pub open spec fn initial() -> ServerModel {
        ServerModel { phase: Phase::Uninitialized, documents: Map::empty() }
    }

    /// The server with another phase and the same documents.
    pub open spec fn in_phase(self, phase: Phase) -> ServerModel {
        ServerModel { phase, documents: self.documents }
    }

    /// The server after an `initialize` request.
    pub open spec fn initialize(self) -> ServerModel {
        if self.phase == Phase::Uninitialized {
            self.in_phase(Phase::Initialized)
        } else {
            self
        }
    }

    /// The server after a `didOpen` notification for `uri` with `text`.
    pub open spec fn did_open(self, uri: Seq<char>, text: Seq<char>) -> ServerModel {
        if self.phase == Phase::Initialized {
            ServerModel { phase: self.phase, documents: self.documents.insert(uri, text) }
        } else {
            self
        }
    }

    /// Whether a `didChange` notification with `changes` is honored: in an
    /// initialized server, if it carries a text at all.
    pub open spec fn honors_change(self, changes: Seq<Seq<char>>) -> bool {
        self.phase == Phase::Initialized && changes.len() > 0
    }

    /// The server after a `didChange` notification for `uri`. Of `changes`
    /// only the first counts: it is the document's whole new text.
    pub open spec fn did_change(self, uri: Seq<char>, changes: Seq<Seq<char>>) -> ServerModel {
        if self.honors_change(changes) {
            self.did_open(uri, changes[0])
        } else {
            self
        }
    }

    /// The server after a `shutdown` request.
    pub open spec fn shutdown(self) -> ServerModel {
        if self.phase == Phase::Initialized {
            self.in_phase(Phase::ShuttingDown)
        } else {
            self
        }
    }

    /// The server after an `exit` notification.
    pub open spec fn exit(self) -> ServerModel {
        self.in_phase(Phase::Terminated)
    }
}

impl View for SCLanguageServer {
    type V = ServerModel;

    closed spec fn view(&self) -> ServerModel {
        ServerModel { phase: self.phase, documents: self.documents@ }
    }
}

impl SCLanguageServer {
    /// A server that has seen no message.
    pub fn new() -> (server: SCLanguageServer)
        ensures
            server@ == ServerModel::initial(),
    {
        SCLanguageServer { phase: Phase::Uninitialized, documents: DocumentStore::new() }
    }

    /// The phase that the server is in.
    pub fn phase(&self) -> (phase: Phase)
        ensures
            phase == self@.phase,
    {
        self.phase
    }

    /// The current text of the document `uri`, if it is open.
    pub fn document(&self, uri: &str) -> (text: Option<&String>)
        ensures
            match text {
                Some(text) => self@.documents.contains_key(uri@) && text@ == self@.documents[uri@],
                None => !self@.documents.contains_key(uri@),
            },
    {
        self.documents.get(uri)
    }

    /// Takes an `initialize` request and answers with the server's
    /// capabilities, the same in every phase. A server that was not
    /// initialized is so now; any other stays in its phase.
    pub fn initialize(&mut self) -> (reply: Result<ServerCapabilities, Error>)
        ensures
            final(self)@ == old(self)@.initialize(),
            reply == Ok::<ServerCapabilities, Error>(announced_capabilities()),
    {
        match self.phase {
            Phase::Uninitialized => {
                self.phase = Phase::Initialized;
            },
            _ => {},
        }
        Ok(
            ServerCapabilities {
                text_document_sync: SyncKind::Full,
                completion_provider: true,
                hover_provider: true,
            },
        )
    }

    /// Takes an `initialized` notification: one informational line is to be
    /// logged, the same whenever the notification comes. No server changes
    /// on it.
    pub fn initialized() -> (message: LogMessage)
        ensures
            message.level == LogLevel::Info,
            message.text@ == ready_text(),
    {
        LogMessage {
            level: LogLevel::Info,
            text: String::from_str("SwiftSC-Lang LSP server initialized!"),
        }
    }

    /// Takes a `didOpen` notification. An initialized server keeps `text` as
    /// the text of `uri` and asks for its analysis; any other drops the
    /// notification.
    pub fn did_open(&mut self, uri: String, text: String) -> (job: Option<AnalysisJob>)
        ensures
            final(self)@ == old(self)@.did_open(uri@, text@),
            job is Some <==> old(self)@.phase == Phase::Initialized,
            job matches Some(j) ==> j.uri@ == uri@ && j.text@ == text@,
    {
        match self.phase {
            Phase::Initialized => {
                let job = AnalysisJob { uri: uri.clone(), text: text.clone() };
                self.documents.update(uri, text);
                Some(job)
            },
            _ => None,
        }
    }

    /// Takes a `didChange` notification. The editor sends the whole text as
    /// the one entry of `changes`; should there be more, only the first is
    /// read. An initialized server keeps that text as the text of `uri` and
    /// asks for its analysis. A notification without an entry, or to a server
    /// in another phase, is dropped.
    pub fn did_change(&mut self, uri: String, changes: &[String]) -> (job: Option<AnalysisJob>)
        ensures
            final(self)@ == old(self)@.did_change(uri@, changes.deep_view()),
            job is Some <==> old(self)@.honors_change(changes.deep_view()),
            job matches Some(j) ==> j.uri@ == uri@ && j.text@ == changes.deep_view()[0],
    {
        if changes.len() > 0 {
            self.did_open(uri, changes[0].clone())
        } else {
            None
        }
    }

    /// Takes a `shutdown` request and acknowledges it, in every phase. An
    /// initialized server awaits `exit` from now on; any other stays in its
    /// phase. The documents stay: there is nothing to release.
    pub fn shutdown(&mut self) -> (reply: Result<(), Error>)
        ensures
            final(self)@ == old(self)@.shutdown(),
            reply == Ok::<(), Error>(()),
    {
        match self.phase {
            Phase::Initialized => {
                self.phase = Phase::ShuttingDown;
            },
            _ => {},
        }
        Ok(())
    }

    /// Takes an `exit` notification: the server is terminated, whatever its
    /// phase was.
    pub fn exit(&mut self)
        ensures
            final(self)@ == old(self)@.exit(),
    {
        self.phase = Phase::Terminated;
    }

    /// Takes a `completion` request: there are no items, for any document, at
    /// any place in it, in any phase. No server is asked.
    pub fn completion() -> (reply: Result<Option<Vec<CompletionItem>>, Error>)
        ensures
            reply == Ok::<Option<Vec<CompletionItem>>, Error>(None),
    {
        Ok(None)
    }

    /// Takes a `hover` request: the answer is one fixed text without a range,
    /// for any document, at any place in it, in any phase. No server is
    /// asked.
    pub fn hover() -> (reply: Result<Option<Hover>, Error>)
        ensures
            reply matches Ok(Some(h)) && h.contents@ == hover_text() && h.range is None,
    {
        Ok(
            Some(
                Hover {
                    contents: String::from_str("SwiftSC-Lang LSP: Security diagnostics active."),
                    range: None,
                },
            ),
        )
    }
}

/// An open that is followed by a change of the same document is superseded
/// by it, where the two are handled in turn: the server holds the text of the
/// change, and once both analyses are published the editor shows the
/// diagnostics of the second, as if the first had never been published.
pub proof fn lemma_change_supersedes_open(
    server: ServerModel,
    shown: Map<Seq<char>, Seq<DiagnosticModel>>,
    uri: Seq<char>,
    opened_text: Seq<char>,
    changed_text: Seq<char>,
    first: FindingsModel,
    second: FindingsModel,
)
    requires
        server.phase == Phase::Initialized,
    ensures
        ({
            let opened = server.did_open(uri, opened_text);
            let changed = opened.did_change(uri, seq![changed_text]);
            let after_first = first.publication(uri).shown_after(shown);
            let after_second = second.publication(uri).shown_after(after_first);
            &&& opened.documents[uri] == opened_text
            &&& changed.documents[uri] == changed_text
            &&& changed.documents == server.documents.insert(uri, changed_text)
            &&& after_second[uri] == second.diagnostics()
            &&& after_second == second.publication(uri).shown_after(shown)
        }),
{
    let opened = server.did_open(uri, opened_text);
    let changed = opened.did_change(uri, seq![changed_text]);
    let after_first = first.publication(uri).shown_after(shown);
    let after_second = second.publication(uri).shown_after(after_first);
    assert(changed.documents =~= server.documents.insert(uri, changed_text));
    assert(after_second =~= second.publication(uri).shown_after(shown));
}

/// A server never goes back to an earlier phase, and only an initialized
/// server changes its documents.
pub proof fn lemma_phase_only_advances(
    server: ServerModel,
    uri: Seq<char>,
    text: Seq<char>,
    changes: Seq<Seq<char>>,
)
    ensures
        server.initialize().phase.rank() >= server.phase.rank(),
        server.did_open(uri, text).phase == server.phase,
        server.did_change(uri, changes).phase == server.phase,
        server.shutdown().phase.rank() >= server.phase.rank(),
        server.exit().phase.rank() >= server.phase.rank(),
        server.initialize().documents == server.documents,
        server.shutdown().documents == server.documents,
        server.exit().documents == server.documents,
        server.phase != Phase::Initialized ==> server.did_open(uri, text) == server
            && server.did_change(uri, changes) == server,
{
}

} // verus!

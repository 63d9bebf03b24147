//! The language-server session: a state machine from client messages to
//! answers and diagnostics.
//!
//! A session moves through its phases in one direction only:
//! `Uninitialized`, `Initializing`, `Initialized`, `Serving`,
//! `ShuttingDown`, `Exited`. Every message is valid in exactly one phase; a
//! message that arrives in another phase, or names a document that is not an
//! existing file, is turned down with the reason and changes nothing.
//!
//! The session does no I/O. Whoever drives it receives the messages, looks
//! at the filesystem, and passes on what it found; what comes back is what
//! has to be sent to the client.

use crate::capabilities::{handshake_answer, negotiate, InitializeResult, InitializeResultView};
use crate::cli::LspOptions;
use crate::config::RuntimeVersion;
use crate::diagnostics::{
    diagnose_document, diagnostics_of, is_publication, publication_of, DiagnosticView,
    Publication, PublishDiagnosticsParams,
};
use crate::error::LuascanError;
use crate::text::same_text;
use crate::workspace::{
    index_files, index_pattern, indexed_docs, indexed_publications, pattern_under, DocumentStore,
    WorkspaceFile,
};
use vstd::prelude::*;

verus! {

/// Where a session stands in its life.
#[derive(Debug, Clone, Copy, PartialEq, Eq, Structural)]
pub enum Phase {
    /// Nothing received yet.
    Uninitialized,
    /// The handshake was answered; the client has not confirmed it.
    Initializing,
    /// The client confirmed the handshake; the workspace scan is pending.
    Initialized,
    /// Document notifications are accepted.
    Serving,
    /// Shutdown was acknowledged; nothing more is accepted.
    ShuttingDown,
    /// The session is over.
    Exited,
}

/// What the driver found when it resolved a document's URI on disk.
#[derive(Debug, Clone, Copy, PartialEq, Eq, Structural)]
pub enum FileProbe {
    /// The URI does not convert to a filesystem path.
    NoFilePath,
    /// The path does not lead to an existing file.
    NotAFile,
    /// The path leads to an existing file.
    File,
}

/// The workspace root a client names, and whether it exists on disk.
#[derive(Debug, Clone)]
pub struct RootCandidate {
    pub path: String,
    pub exists: bool,
}

/// The handshake request.
#[derive(Debug, Clone)]
pub struct InitializeParams {
    /// The column units the client accepts, if it says so.
    pub position_encodings: Option<Vec<String>>,
    /// The workspace root the client names, if it names one.
    pub root: Option<RootCandidate>,
}

/// A document was opened.
#[derive(Debug, Clone)]
pub struct DidOpenTextDocumentParams {
    pub uri: String,
    pub language_id: String,
    pub text: String,
    pub file: FileProbe,
}

/// A document was changed. Each change holds the whole new text.
#[derive(Debug, Clone)]
pub struct DidChangeTextDocumentParams {
    pub uri: String,
    pub content_changes: Vec<String>,
    pub file: FileProbe,
}

/// A document was saved, with its text if the client sends it along.
#[derive(Debug, Clone)]
pub struct DidSaveTextDocumentParams {
    pub uri: String,
    pub text: Option<String>,
    pub file: FileProbe,
}

/// The language identifier of Lua documents.
pub const LUA: &'static str = "lua";

/// A session as a mathematical value.
pub struct State {
    pub phase: Phase,
    pub version: RuntimeVersion,
    pub root: Option<Seq<char>>,
    pub docs: Map<Seq<char>, Seq<char>>,
}

/// The state in which every session starts.
pub open spec fn initial_state(version: RuntimeVersion) -> State {
    State {
        phase: Phase::Uninitialized,
        version,
        root: None,
        docs: Map::<Seq<char>, Seq<char>>::empty(),
    }
}

/// Setting the workspace root. Valid while the session is `Uninitialized`
/// and has no root yet, so a root is set at most once and never after the
/// handshake. A path that does not exist on disk is turned down.
pub open spec fn set_root_step(s: State, path: Seq<char>, exists: bool) -> (
    State,
    Result<(), LuascanError>,
) {
    if s.phase != Phase::Uninitialized || s.root is Some {
        (s, Err(LuascanError::InvalidState))
    } else if !exists {
        (s, Err(LuascanError::RootMissing))
    } else {
        (State { root: Some(path), ..s }, Ok(()))
    }
}

/// The root after a handshake: the path the client names, if it can be set;
/// otherwise what it was before, which in a fresh session is none.
pub open spec fn root_after(s: State, params: InitializeParams) -> Option<Seq<char>> {
    match params.root {
        Some(candidate) => set_root_step(s, candidate.path@, candidate.exists).0.root,
        None => s.root,
    }
}

/// The handshake. Valid in `Uninitialized` only; leads to `Initializing`.
pub open spec fn initialize_step(s: State, params: InitializeParams) -> (
    State,
    Result<InitializeResultView, LuascanError>,
) {
    if s.phase == Phase::Uninitialized {
        (
            State { phase: Phase::Initializing, root: root_after(s, params), ..s },
            Ok(handshake_answer(params.position_encodings.deep_view())),
        )
    } else {
        (s, Err(LuascanError::InvalidState))
    }
}

/// The client's confirmation. Valid in `Initializing` only. With a root the
/// session waits in `Initialized` for the scan of the pattern it returns;
/// without one there is nothing to scan and it goes on to `Serving`.
pub open spec fn initialized_step(s: State) -> (State, Result<Seq<char>, LuascanError>) {
    if s.phase == Phase::Initializing {
        match s.root {
            Some(root) => (State { phase: Phase::Initialized, ..s }, Ok(pattern_under(root))),
            None => (State { phase: Phase::Serving, ..s }, Err(LuascanError::RootNotSet)),
        }
    } else {
        (s, Err(LuascanError::InvalidState))
    }
}

/// The result of the workspace scan. Valid in `Initialized` only; leads to
/// `Serving`.
pub open spec fn scanned_step(s: State, files: Seq<WorkspaceFile>) -> (
    State,
    Result<Seq<Publication>, LuascanError>,
) {
    if s.phase == Phase::Initialized {
        (
            State { phase: Phase::Serving, docs: indexed_docs(s.docs, files), ..s },
            Ok(indexed_publications(files, s.version)),
        )
    } else {
        (s, Err(LuascanError::InvalidState))
    }
}

/// Why a document notification is turned down for what the driver found on
/// disk, if it is.
pub open spec fn probe_refusal(file: FileProbe) -> Option<LuascanError> {
    match file {
        FileProbe::NoFilePath => Some(LuascanError::NoFilePath),
        FileProbe::NotAFile => Some(LuascanError::NotAFile),
        FileProbe::File => None,
    }
}

/// A document was opened. Valid in `Serving`, for Lua documents that are
/// existing files: the text is stored, then diagnosed.
pub open spec fn did_open_step(s: State, params: DidOpenTextDocumentParams) -> (
    State,
    Result<Publication, LuascanError>,
) {
    if s.phase != Phase::Serving {
        (s, Err(LuascanError::InvalidState))
    } else if probe_refusal(params.file) is Some {
        (s, Err(probe_refusal(params.file)->Some_0))
    } else if params.language_id@ != LUA@ {
        (s, Err(LuascanError::NotLua))
    } else {
        (
            State { docs: s.docs.insert(params.uri@, params.text@), ..s },
            publication_of(params.uri@, params.text@, s.version),
        )
    }
}

/// A document was changed. Valid in `Serving`, for existing files: the text
/// of the first change is diagnosed. The store is left as it is, and the
/// document need not have been opened.
pub open spec fn did_change_step(s: State, params: DidChangeTextDocumentParams) -> (
    State,
    Result<Publication, LuascanError>,
) {
    if s.phase != Phase::Serving {
        (s, Err(LuascanError::InvalidState))
    } else if params.content_changes@.len() == 0 {
        (s, Err(LuascanError::NoText))
    } else if probe_refusal(params.file) is Some {
        (s, Err(probe_refusal(params.file)->Some_0))
    } else {
        (s, publication_of(params.uri@, params.content_changes@[0]@, s.version))
    }
}

/// A document was saved. Valid in `Serving`, for existing files: the text is
/// diagnosed if the notification carries it; without text nothing is parsed.
pub open spec fn did_save_step(s: State, params: DidSaveTextDocumentParams) -> (
    State,
    Result<Publication, LuascanError>,
) {
    if s.phase != Phase::Serving {
        (s, Err(LuascanError::InvalidState))
    } else if probe_refusal(params.file) is Some {
        (s, Err(probe_refusal(params.file)->Some_0))
    } else {
        match params.text {
            Some(text) => (s, publication_of(params.uri@, text@, s.version)),
            None => (s, Err(LuascanError::NoText)),
        }
    }
}

/// The shutdown request. Valid in `Serving` only; leads to `ShuttingDown`.
pub open spec fn shutdown_step(s: State) -> (State, Result<(), LuascanError>) {
    if s.phase == Phase::Serving {
        (State { phase: Phase::ShuttingDown, ..s }, Ok(()))
    } else {
        (s, Err(LuascanError::InvalidState))
    }
}

/// The exit notification. Valid in `ShuttingDown` only; leads to `Exited`.
pub open spec fn exit_step(s: State) -> (State, Result<(), LuascanError>) {
    if s.phase == Phase::ShuttingDown {
        (State { phase: Phase::Exited, ..s }, Ok(()))
    } else {
        (s, Err(LuascanError::InvalidState))
    }
}

/// Whether `answer` is the exec form of the handshake answer `expected`.
pub open spec fn is_handshake(
    answer: Result<InitializeResult, LuascanError>,
    expected: Result<InitializeResultView, LuascanError>,
) -> bool {
    match answer {
        Ok(result) => expected == Ok::<InitializeResultView, LuascanError>(result@),
        Err(e) => expected == Err::<InitializeResultView, LuascanError>(e),
    }
}

/// Whether `answer` is the exec form of the pattern `expected`.
pub open spec fn is_pattern(
    answer: Result<String, LuascanError>,
    expected: Result<Seq<char>, LuascanError>,
) -> bool {
    match answer {
        Ok(pattern) => expected == Ok::<Seq<char>, LuascanError>(pattern@),
        Err(e) => expected == Err::<Seq<char>, LuascanError>(e),
    }
}

/// Whether `answer` is the exec form of the publications `expected`.
pub open spec fn is_publications(
    answer: Result<Vec<PublishDiagnosticsParams>, LuascanError>,
    expected: Result<Seq<Publication>, LuascanError>,
) -> bool {
    match answer {
        Ok(sent) => expected == Ok::<Seq<Publication>, LuascanError>(sent.deep_view()),
        Err(e) => expected == Err::<Seq<Publication>, LuascanError>(e),
    }
}

/// One language-server session.
pub struct Backend {
    phase: Phase,
    version: RuntimeVersion,
    root: Option<String>,
    workspace: DocumentStore,
}

impl View for Backend {
    type V = State;

    closed spec fn view(&self) -> State {
        State {
            phase: self.phase,
            version: self.version,
            root: self.root.deep_view(),
            docs: self.workspace@,
        }
    }
}

impl Backend {
    /// A fresh session under the given options.
    pub fn new(options: LspOptions) -> (backend: Backend)
        ensures
            backend@ == initial_state(options.config.runtime.version),
    {
        Backend {
            phase: Phase::Uninitialized,
            version: options.config.runtime.version,
            root: None,
            workspace: DocumentStore::new(),
        }
    }

    /// The phase the session is in.
    pub fn phase(&self) -> (phase: Phase)
        ensures
            phase == self@.phase,
    {
        self.phase
    }

    /// The runtime whose dialect documents are parsed in.
    pub fn version(&self) -> (version: RuntimeVersion)
        ensures
            version == self@.version,
    {
        self.version
    }

    /// Sets the workspace root to `path`. This is part of the handshake: it
    /// is turned down once the handshake is over or a root is set, and a
    /// path that does not exist on disk is turned down as missing. The
    /// error does not carry the path; `missing_root_message` builds the
    /// text that names it.
    pub fn set_root(&mut self, path: String, exists: bool) -> (done: Result<(), LuascanError>)
        ensures
            final(self)@ == set_root_step(old(self)@, path@, exists).0,
            done == set_root_step(old(self)@, path@, exists).1,
    {
        if self.phase != Phase::Uninitialized || self.root.is_some() {
            Err(LuascanError::InvalidState)
        } else if !exists {
            Err(LuascanError::RootMissing)
        } else {
            self.root = Some(path);
            Ok(())
        }
    }

    /// The workspace root, if one was set.
    pub fn get_root(&self) -> (root: Option<String>)
        ensures
            root.deep_view() == self@.root,
    {
        match &self.root {
            Some(path) => Some(path.clone()),
            None => None,
        }
    }

    /// Stores `content` as the text of the document `uri`.
    fn set_doc(&mut self, uri: String, content: String)
        ensures
            final(self)@ == (State { docs: old(self)@.docs.insert(uri@, content@), ..old(self)@ }),
    {
        self.workspace.set(uri, content);
    }

    /// The text stored for the document `uri`, if there is one.
    pub fn get_doc(&self, uri: &str) -> (content: Option<String>)
        ensures
            match content {
                Some(text) => self@.docs.contains_key(uri@) && text@ == self@.docs[uri@],
                None => !self@.docs.contains_key(uri@),
            },
    {
        match self.workspace.get(uri) {
            Some(text) => Some(text.clone()),
            None => None,
        }
    }

    /// Diagnoses `content` as the text of `uri` under the session's runtime.
    pub fn check_syntax(&self, uri: String, content: &str) -> (outcome: Result<
        PublishDiagnosticsParams,
        LuascanError,
    >)
        ensures
            is_publication(outcome, publication_of(uri@, content@, self@.version)),
    {
        diagnose_document(uri, content, self.version)
    }

    /// Answers the handshake: announces full-document synchronisation and
    /// the agreed column unit, and takes the client's root if it exists. A
    /// root that does not exist is no reason to fail: the session goes on
    /// without one.
    pub fn initialize(&mut self, params: InitializeParams) -> (answer: Result<
        InitializeResult,
        LuascanError,
    >)
        ensures
            final(self)@ == initialize_step(old(self)@, params).0,
            is_handshake(answer, initialize_step(old(self)@, params).1),
    {
        if self.phase != Phase::Uninitialized {
            return Err(LuascanError::InvalidState);
        }
        let answer = negotiate(&params.position_encodings);
        if let Some(candidate) = params.root {
            let _ = self.set_root(candidate.path, candidate.exists);
        }
        self.phase = Phase::Initializing;
        Ok(answer)
    }

    /// Takes the client's confirmation of the handshake and says what to
    /// scan: the pattern of the source files under the root. Without a root
    /// there is nothing to scan; that is reported, and the session serves.
    pub fn initialized(&mut self) -> (answer: Result<String, LuascanError>)
        ensures
            final(self)@ == initialized_step(old(self)@).0,
            is_pattern(answer, initialized_step(old(self)@).1),
    {
        if self.phase != Phase::Initializing {
            return Err(LuascanError::InvalidState);
        }
        match &self.root {
            Some(root) => {
                let pattern = index_pattern(root.as_str());
                self.phase = Phase::Initialized;
                Ok(pattern)
            },
            None => {
                self.phase = Phase::Serving;
                Err(LuascanError::RootNotSet)
            },
        }
    }

    /// Takes in the files the scan found, stores and diagnoses each, and
    /// begins to serve. Document notifications are accepted only after this.
    pub fn index_workspace(&mut self, files: &Vec<WorkspaceFile>) -> (answer: Result<
        Vec<PublishDiagnosticsParams>,
        LuascanError,
    >)
        ensures
            final(self)@ == scanned_step(old(self)@, files@).0,
            is_publications(answer, scanned_step(old(self)@, files@).1),
    {
        if self.phase != Phase::Initialized {
            return Err(LuascanError::InvalidState);
        }
        let sent = index_files(&mut self.workspace, files, self.version);
        self.phase = Phase::Serving;
        Ok(sent)
    }

    /// Acknowledges the shutdown request.
    pub fn shutdown(&mut self) -> (answer: Result<(), LuascanError>)
        ensures
            final(self)@ == shutdown_step(old(self)@).0,
            answer == shutdown_step(old(self)@).1,
    {
        if self.phase != Phase::Serving {
            return Err(LuascanError::InvalidState);
        }
        self.phase = Phase::ShuttingDown;
        Ok(())
    }

    /// Ends the session after a shutdown.
    pub fn exit(&mut self) -> (answer: Result<(), LuascanError>)
        ensures
            final(self)@ == exit_step(old(self)@).0,
            answer == exit_step(old(self)@).1,
    {
        if self.phase != Phase::ShuttingDown {
            return Err(LuascanError::InvalidState);
        }
        self.phase = Phase::Exited;
        Ok(())
    }

    /// Handles an opened document: stores its text and diagnoses it.
    pub fn did_open(&mut self, params: DidOpenTextDocumentParams) -> (answer: Result<
        PublishDiagnosticsParams,
        LuascanError,
    >)
        ensures
            final(self)@ == did_open_step(old(self)@, params).0,
            is_publication(answer, did_open_step(old(self)@, params).1),
    {
        if self.phase != Phase::Serving {
            return Err(LuascanError::InvalidState);
        }
        match params.file {
            FileProbe::NoFilePath => {
                return Err(LuascanError::NoFilePath);
            },
            FileProbe::NotAFile => {
                return Err(LuascanError::NotAFile);
            },
            FileProbe::File => {},
        }
        if !same_text(&params.language_id, LUA) {
            return Err(LuascanError::NotLua);
        }
        let answer = self.check_syntax(params.uri.clone(), params.text.as_str());
        self.set_doc(params.uri, params.text);
        answer
    }

    /// Handles a changed document: diagnoses the new text.
    pub fn did_change(&self, params: DidChangeTextDocumentParams) -> (answer: Result<
        PublishDiagnosticsParams,
        LuascanError,
    >)
        ensures
            is_publication(answer, did_change_step(self@, params).1),
    {
        if self.phase != Phase::Serving {
            return Err(LuascanError::InvalidState);
        }
        if params.content_changes.len() == 0 {
            return Err(LuascanError::NoText);
        }
        match params.file {
            FileProbe::NoFilePath => {
                return Err(LuascanError::NoFilePath);
            },
            FileProbe::NotAFile => {
                return Err(LuascanError::NotAFile);
            },
            FileProbe::File => {},
        }
        self.check_syntax(params.uri, params.content_changes[0].as_str())
    }

    /// Handles a saved document: diagnoses its text if it was sent along.
    pub fn did_save(&self, params: DidSaveTextDocumentParams) -> (answer: Result<
        PublishDiagnosticsParams,
        LuascanError,
    >)
        ensures
            is_publication(answer, did_save_step(self@, params).1),
    {
        if self.phase != Phase::Serving {
            return Err(LuascanError::InvalidState);
        }
        match params.file {
            FileProbe::NoFilePath => {
                return Err(LuascanError::NoFilePath);
            },
            FileProbe::NotAFile => {
                return Err(LuascanError::NotAFile);
            },
            FileProbe::File => {},
        }
        match params.text {
            Some(text) => self.check_syntax(params.uri, text.as_str()),
            None => Err(LuascanError::NoText),
        }
    }
}

/// A message from the client, with what the driver found out for it.
#[derive(Debug, Clone)]
pub enum Event {
    Initialize(InitializeParams),
    Initialized,
    /// The scan asked for after `Initialized` is done; these are its files.
    WorkspaceScanned(Vec<WorkspaceFile>),
    DidOpen(DidOpenTextDocumentParams),
    DidChange(DidChangeTextDocumentParams),
    DidSave(DidSaveTextDocumentParams),
    Shutdown,
    Exit,
}

/// What the session wants done in answer to a message.
#[derive(Debug, Clone)]
pub enum Reply {
    /// Send this answer to the handshake.
    Handshake(InitializeResult),
    /// Scan the workspace for files that match this pattern and come back
    /// with `WorkspaceScanned`.
    IndexWorkspace(String),
    /// Send these diagnostics, in this order.
    Publish(Vec<PublishDiagnosticsParams>),
    /// Nothing to send beyond the acknowledgement.
    Done,
    /// Nothing is to be sent, for this reason. Mostly that means the
    /// message was turned down and the session is as it was. Two replies of
    /// this kind come with a change: a confirmation without a root reports
    /// `RootNotSet` and the session serves; a document opened under a
    /// runtime that cannot be parsed is stored all the same.
    Rejected(LuascanError),
}

/// A reply as a mathematical value.
pub enum ReplyView {
    Handshake(InitializeResultView),
    IndexWorkspace(Seq<char>),
    Publish(Seq<Publication>),
    Done,
    Rejected(LuascanError),
}

impl View for Reply {
    type V = ReplyView;

    open spec fn view(&self) -> ReplyView {
        match self {
            Reply::Handshake(answer) => ReplyView::Handshake(answer@),
            Reply::IndexWorkspace(pattern) => ReplyView::IndexWorkspace(pattern@),
            Reply::Publish(sent) => ReplyView::Publish(sent.deep_view()),
            Reply::Done => ReplyView::Done,
            Reply::Rejected(e) => ReplyView::Rejected(*e),
        }
    }
}

impl DeepView for Reply {
    type V = ReplyView;

    open spec fn deep_view(&self) -> ReplyView {
        self@
    }
}

/// The reply that carries one publication, or the reason there is none.
pub open spec fn publish_one(outcome: Result<Publication, LuascanError>) -> ReplyView {
    match outcome {
        Ok(publication) => ReplyView::Publish(seq![publication]),
        Err(e) => ReplyView::Rejected(e),
    }
}

/// The reply that acknowledges, or the reason it is withheld.
pub open spec fn acknowledge(outcome: Result<(), LuascanError>) -> ReplyView {
    match outcome {
        Ok(_) => ReplyView::Done,
        Err(e) => ReplyView::Rejected(e),
    }
}

/// One step of the session: the state after `event`, and the reply to it.
pub open spec fn step(s: State, event: Event) -> (State, ReplyView) {
    match event {
        Event::Initialize(params) => (
            initialize_step(s, params).0,
            match initialize_step(s, params).1 {
                Ok(answer) => ReplyView::Handshake(answer),
                Err(e) => ReplyView::Rejected(e),
            },
        ),
        Event::Initialized => (
            initialized_step(s).0,
            match initialized_step(s).1 {
                Ok(pattern) => ReplyView::IndexWorkspace(pattern),
                Err(e) => ReplyView::Rejected(e),
            },
        ),
        Event::WorkspaceScanned(files) => (
            scanned_step(s, files@).0,
            match scanned_step(s, files@).1 {
                Ok(sent) => ReplyView::Publish(sent),
                Err(e) => ReplyView::Rejected(e),
            },
        ),
        Event::DidOpen(params) => (
            did_open_step(s, params).0,
            publish_one(did_open_step(s, params).1),
        ),
        Event::DidChange(params) => (s, publish_one(did_change_step(s, params).1)),
        Event::DidSave(params) => (s, publish_one(did_save_step(s, params).1)),
        Event::Shutdown => (shutdown_step(s).0, acknowledge(shutdown_step(s).1)),
        Event::Exit => (exit_step(s).0, acknowledge(exit_step(s).1)),
    }
}

/// The state of a session that started in `s` and took `events` in order.
pub open spec fn state_after(s: State, events: Seq<Event>) -> State
    decreases events.len(),
{
    if events.len() == 0 {
        s
    } else {
        step(state_after(s, events.drop_last()), events.last()).0
    }
}

/// The replies of a session that started in `s` to `events`, one reply per
/// event and in the same order.
pub open spec fn replies_to(s: State, events: Seq<Event>) -> Seq<ReplyView>
    decreases events.len(),
{
    if events.len() == 0 {
        Seq::<ReplyView>::empty()
    } else {
        replies_to(s, events.drop_last()).push(
            step(state_after(s, events.drop_last()), events.last()).1,
        )
    }
}

/// Packs one publication, or the reason there is none, as a reply.
fn reply_with(outcome: Result<PublishDiagnosticsParams, LuascanError>) -> (reply: Reply)
    ensures
        reply@ == match outcome {
            Ok(publication) => ReplyView::Publish(seq![publication@]),
            Err(e) => ReplyView::Rejected(e),
        },
{
    match outcome {
        Ok(publication) => {
            let mut sent: Vec<PublishDiagnosticsParams> = Vec::new();
            sent.push(publication);
            assert(sent.deep_view() =~= seq![publication@]);
            Reply::Publish(sent)
        },
        Err(e) => Reply::Rejected(e),
    }
}

impl Backend {
    /// Takes one message and says what is to be done about it. A message
    /// that is not valid now is turned down and never ends the session.
    pub fn handle(&mut self, event: Event) -> (reply: Reply)
        ensures
            final(self)@ == step(old(self)@, event).0,
            reply@ == step(old(self)@, event).1,
    {
        match event {
            Event::Initialize(params) => match self.initialize(params) {
                Ok(answer) => Reply::Handshake(answer),
                Err(e) => Reply::Rejected(e),
            },
            Event::Initialized => match self.initialized() {
                Ok(pattern) => Reply::IndexWorkspace(pattern),
                Err(e) => Reply::Rejected(e),
            },
            Event::WorkspaceScanned(files) => match self.index_workspace(&files) {
                Ok(sent) => Reply::Publish(sent),
                Err(e) => Reply::Rejected(e),
            },
            Event::DidOpen(params) => reply_with(self.did_open(params)),
            Event::DidChange(params) => reply_with(self.did_change(params)),
            Event::DidSave(params) => reply_with(self.did_save(params)),
            Event::Shutdown => match self.shutdown() {
                Ok(_) => Reply::Done,
                Err(e) => Reply::Rejected(e),
            },
            Event::Exit => match self.exit() {
                Ok(_) => Reply::Done,
                Err(e) => Reply::Rejected(e),
            },
        }
    }
}

/// Runs a whole session: starts a fresh one under `options`, feeds it
/// `events` in order and returns its replies, one per event.
pub fn run(options: LspOptions, events: Vec<Event>) -> (replies: Vec<Reply>)
    ensures
        replies.deep_view() == replies_to(
            initial_state(options.config.runtime.version),
            events@,
        ),
{
    let ghost start = initial_state(options.config.runtime.version);
    let ghost all = events@;
    let mut backend = Backend::new(options);
    let mut replies: Vec<Reply> = Vec::new();
    proof {
        assert(all.take(0) =~= Seq::<Event>::empty());
    }
    for event in it: events
        invariant
            it.seq() == all,
            backend@ == state_after(start, all.take(it.index() as int)),
            replies.deep_view() == replies_to(start, all.take(it.index() as int)),
    {
        let ghost done = it.index() as int;
        let ghost before = replies.deep_view();
        proof {
            assert(all.take(done + 1).drop_last() =~= all.take(done));
            assert(all.take(done + 1).last() == all[done]);
        }
        let reply = backend.handle(event);
        replies.push(reply);
        assert(replies.deep_view() =~= before.push(reply@));
    }
    assert(all.take(all.len() as int) =~= all);
    replies
}

/// How far along its life a session in `phase` is.
pub open spec fn progress(phase: Phase) -> int {
    match phase {
        Phase::Uninitialized => 0,
        Phase::Initializing => 1,
        Phase::Initialized => 2,
        Phase::Serving => 3,
        Phase::ShuttingDown => 4,
        Phase::Exited => 5,
    }
}

/// Whether `event` is a notification about a document.
pub open spec fn about_document(event: Event) -> bool {
    event is DidOpen || event is DidChange || event is DidSave
}

/// A session never goes back: no message leads to an earlier phase, and the
/// runtime it was started with stays.
pub proof fn phases_only_advance(s: State, event: Event)
    ensures
        progress(s.phase) <= progress(step(s, event).0.phase),
        step(s, event).0.version == s.version,
{
}

/// The workspace root is set during the handshake or never, and at most
/// once: after the handshake no message changes it, and a root that is set
/// stays whatever comes.
pub proof fn root_is_set_at_most_once(s: State, event: Event)
    requires
        s.phase != Phase::Uninitialized || s.root is Some,
    ensures
        step(s, event).0.root == s.root,
        forall|path: Seq<char>, exists: bool| set_root_step(s, path, exists).0.root == s.root,
{
}

/// A message that arrives in the wrong phase is turned down and changes
/// nothing.
pub proof fn misplaced_message_changes_nothing(s: State, event: Event)
    requires
        step(s, event).1 == ReplyView::Rejected(LuascanError::InvalidState),
    ensures
        step(s, event).0 == s,
{
}

/// Before the session serves, and after it has stopped, every document
/// notification is turned down: nothing is stored and nothing is published.
/// So whatever the workspace scan publishes comes first.
pub proof fn documents_wait_for_serving(s: State, event: Event)
    requires
        s.phase != Phase::Serving,
        about_document(event),
    ensures
        step(s, event) == (s, ReplyView::Rejected(LuascanError::InvalidState)),
{
}

/// A handshake that names a root which does not exist still succeeds, with
/// the same answer as without a root, and leaves the session without one;
/// the confirmation that follows finds nothing to scan and the session
/// serves at once.
pub proof fn missing_root_skips_the_scan(version: RuntimeVersion, params: InitializeParams)
    requires
        params.root matches Some(candidate) ==> !candidate.exists,
    ensures
        initialize_step(initial_state(version), params).1 is Ok,
        initialize_step(initial_state(version), params).0.root is None,
        initialized_step(initialize_step(initial_state(version), params).0) == (
            State { phase: Phase::Serving, ..initial_state(version) },
            Err::<Seq<char>, LuascanError>(LuascanError::RootNotSet),
        ),
{
}

/// While documents are opened, changed and saved the session keeps
/// serving.
pub proof fn documents_keep_serving(s: State, events: Seq<Event>)
    requires
        s.phase == Phase::Serving,
        forall|i: int| 0 <= i < events.len() ==> about_document(#[trigger] events[i]),
    ensures
        state_after(s, events).phase == Phase::Serving,
        state_after(s, events).version == s.version,
    decreases events.len(),
{
    if events.len() > 0 {
        documents_keep_serving(s, events.drop_last());
    }
}

/// Whatever was opened, changed or saved before, and whatever was published
/// for it: once a document is changed to a text in which the parser finds
/// no error, the reply publishes the empty set for that document, which
/// clears what the client showed.
pub proof fn fix_clears_diagnostics(
    s: State,
    history: Seq<Event>,
    fixed: DidChangeTextDocumentParams,
)
    requires
        s.phase == Phase::Serving,
        forall|i: int| 0 <= i < history.len() ==> about_document(#[trigger] history[i]),
        fixed.file == FileProbe::File,
        fixed.content_changes@.len() > 0,
        diagnostics_of(fixed.content_changes@[0]@, s.version) == Ok::<
            Seq<DiagnosticView>,
            LuascanError,
        >(Seq::<DiagnosticView>::empty()),
    ensures
        replies_to(s, history.push(Event::DidChange(fixed))).last() == ReplyView::Publish(
            seq![Publication { uri: fixed.uri@, diagnostics: Seq::<DiagnosticView>::empty() }],
        ),
{
    let events = history.push(Event::DidChange(fixed));
    assert(events.drop_last() =~= history);
    assert(events.last() == Event::DidChange(fixed));
    documents_keep_serving(s, history);
}

/// A session gives exactly one reply per message.
pub proof fn one_reply_per_message(s: State, events: Seq<Event>)
    ensures
        replies_to(s, events).len() == events.len(),
    decreases events.len(),
{
    if events.len() > 0 {
        one_reply_per_message(s, events.drop_last());
    }
}

/// The reply to a message is the step taken from the state that the
/// messages before it left behind; no later message changes it.
pub proof fn reply_depends_on_the_past(s: State, events: Seq<Event>, i: int)
    requires
        0 <= i < events.len(),
    ensures
        replies_to(s, events).len() == events.len(),
        replies_to(s, events)[i] == step(state_after(s, events.take(i)), events[i]).1,
    decreases events.len(),
{
    one_reply_per_message(s, events);
    one_reply_per_message(s, events.drop_last());
    if i == events.len() - 1 {
        assert(events.take(i) =~= events.drop_last());
    } else {
        reply_depends_on_the_past(s, events.drop_last(), i);
        assert(events.drop_last().take(i) =~= events.take(i));
    }
}

/// Over a whole session the phase never falls back: at every point it is
/// at least as far along as at any earlier point.
pub proof fn progress_never_falls(s: State, events: Seq<Event>, i: int)
    requires
        0 <= i <= events.len(),
    ensures
        progress(state_after(s, events.take(i)).phase) <= progress(
            state_after(s, events).phase,
        ),
    decreases events.len(),
{
    if i == events.len() {
        assert(events.take(i) =~= events);
    } else {
        progress_never_falls(s, events.drop_last(), i);
        assert(events.drop_last().take(i) =~= events.take(i));
        phases_only_advance(state_after(s, events.drop_last()), events.last());
    }
}

/// The capabilities are negotiated once per session: once a handshake was
/// answered, no later message gets a handshake answer.
pub proof fn handshake_happens_once(s: State, events: Seq<Event>, i: int, j: int)
    requires
        0 <= i < j < events.len(),
        replies_to(s, events)[i] is Handshake,
    ensures
        !(replies_to(s, events)[j] is Handshake),
{
    reply_depends_on_the_past(s, events, i);
    reply_depends_on_the_past(s, events, j);
    let earlier = events.take(j);
    assert(earlier.take(i + 1) =~= events.take(i + 1));
    assert(events.take(i + 1).drop_last() =~= events.take(i));
    assert(events.take(i + 1).last() == events[i]);
    progress_never_falls(s, earlier, i + 1);
}

/// The scan is published first: once the session has published for an
/// opened, changed or saved document, a scan that arrives later is turned
/// down and publishes nothing.
pub proof fn scan_is_published_first(s: State, events: Seq<Event>, i: int, j: int)
    requires
        0 <= i < j < events.len(),
        about_document(events[i]),
        replies_to(s, events)[i] is Publish,
        events[j] is WorkspaceScanned,
    ensures
        replies_to(s, events)[j] == ReplyView::Rejected(LuascanError::InvalidState),
{
    reply_depends_on_the_past(s, events, i);
    reply_depends_on_the_past(s, events, j);
    let earlier = events.take(j);
    assert(earlier.take(i) =~= events.take(i));
    progress_never_falls(s, earlier, i);
}

} // verus!

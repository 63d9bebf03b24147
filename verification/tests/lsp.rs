use luascan::capabilities::{PositionEncodingKind, TextDocumentSyncKind};
use luascan::cli::LspOptions;
use luascan::config::{Config, RuntimeConfig, RuntimeVersion, WorkspaceConfig};
use luascan::error::LuascanError;
use luascan::lsp::{
    run, Backend, DidChangeTextDocumentParams, DidOpenTextDocumentParams,
    DidSaveTextDocumentParams, Event, FileProbe, InitializeParams, Phase, Reply, RootCandidate,
    LUA,
};
use luascan::workspace::WorkspaceFile;

fn options_for(version: RuntimeVersion) -> LspOptions {
    LspOptions {
        config: Config {
            runtime: RuntimeConfig { version },
            workspace: WorkspaceConfig { library: Vec::new() },
        },
    }
}

fn options() -> LspOptions {
    options_for(RuntimeVersion::Lua51)
}

fn handshake(root: Option<(&str, bool)>) -> InitializeParams {
    InitializeParams {
        position_encodings: None,
        root: root.map(|(path, exists)| RootCandidate { path: path.to_string(), exists }),
    }
}

fn opened(uri: &str, text: &str) -> DidOpenTextDocumentParams {
    DidOpenTextDocumentParams {
        uri: uri.to_string(),
        language_id: "lua".to_string(),
        text: text.to_string(),
        file: FileProbe::File,
    }
}

fn changed(uri: &str, text: &str) -> DidChangeTextDocumentParams {
    DidChangeTextDocumentParams {
        uri: uri.to_string(),
        content_changes: vec![text.to_string()],
        file: FileProbe::File,
    }
}

fn saved(uri: &str, text: Option<&str>) -> DidSaveTextDocumentParams {
    DidSaveTextDocumentParams {
        uri: uri.to_string(),
        text: text.map(|t| t.to_string()),
        file: FileProbe::File,
    }
}

fn file(uri: &str, content: &str) -> WorkspaceFile {
    WorkspaceFile { uri: Some(uri.to_string()), content: Some(content.to_string()) }
}

/// A session that went through the handshake without a root and serves.
fn serving(version: RuntimeVersion) -> Backend {
    let mut backend = Backend::new(options_for(version));
    backend.initialize(handshake(None)).unwrap();
    assert_eq!(backend.initialized(), Err(LuascanError::RootNotSet));
    assert_eq!(backend.phase(), Phase::Serving);
    backend
}

#[test]
fn test_initialize_lsp() {
    let options = LspOptions {
        config: Config {
            runtime: RuntimeConfig::default(),
            workspace: WorkspaceConfig { library: Vec::new() },
        },
    };
    let replies = run(options, vec![Event::Initialize(handshake(None))]);
    assert!(!replies.is_empty());
    match &replies[0] {
        Reply::Handshake(answer) => {
            assert_eq!(answer.capabilities.change, TextDocumentSyncKind::Full);
            assert_eq!(answer.server_info.as_ref().unwrap().name, "luascan");
        }
        other => panic!("the handshake was not answered: {:?}", other),
    }
}

#[test]
fn a_new_session_is_uninitialized_and_empty() {
    let backend = Backend::new(options_for(RuntimeVersion::Lua53));
    assert_eq!(backend.phase(), Phase::Uninitialized);
    assert_eq!(backend.version(), RuntimeVersion::Lua53);
    assert_eq!(backend.get_root(), None);
    assert_eq!(backend.get_doc("file:///a.lua"), None);
}

#[test]
fn the_handshake_agrees_on_the_preferred_encoding() {
    let mut backend = Backend::new(options());
    let answer = backend
        .initialize(InitializeParams {
            position_encodings: Some(vec!["utf-32".to_string(), "utf-8".to_string()]),
            root: None,
        })
        .unwrap();
    assert_eq!(answer.capabilities.position_encoding, Some(PositionEncodingKind::Utf8));
    assert_eq!(answer.capabilities.change, TextDocumentSyncKind::Full);
    assert_eq!(backend.phase(), Phase::Initializing);
}

#[test]
fn an_existing_root_is_taken() {
    let mut backend = Backend::new(options());
    backend.initialize(handshake(Some(("/ws", true)))).unwrap();
    assert_eq!(backend.get_root(), Some("/ws".to_string()));
    assert_eq!(backend.phase(), Phase::Initializing);
}

#[test]
fn the_root_can_be_set_once_and_only_before_the_handshake() {
    let mut backend = Backend::new(options());
    assert_eq!(backend.set_root("/gone".to_string(), false), Err(LuascanError::RootMissing));
    assert_eq!(backend.get_root(), None);
    assert_eq!(backend.set_root("/ws".to_string(), true), Ok(()));
    assert_eq!(backend.get_root(), Some("/ws".to_string()));
    assert_eq!(backend.set_root("/other".to_string(), true), Err(LuascanError::InvalidState));
    assert_eq!(backend.get_root(), Some("/ws".to_string()));

    backend.initialize(handshake(Some(("/third", true)))).unwrap();
    assert_eq!(backend.get_root(), Some("/ws".to_string()));

    let mut backend = Backend::new(options());
    backend.initialize(handshake(None)).unwrap();
    assert_eq!(backend.set_root("/ws".to_string(), true), Err(LuascanError::InvalidState));
    assert_eq!(backend.get_root(), None);
}

#[test]
fn a_second_handshake_is_turned_down() {
    let mut backend = Backend::new(options());
    backend.initialize(handshake(Some(("/ws", true)))).unwrap();
    let again = backend.initialize(handshake(Some(("/other", true))));
    assert_eq!(again.unwrap_err(), LuascanError::InvalidState);
    assert_eq!(backend.get_root(), Some("/ws".to_string()));
    assert_eq!(backend.phase(), Phase::Initializing);
}

#[test]
fn a_missing_root_does_not_fail_the_handshake_and_nothing_is_indexed() {
    let mut backend = Backend::new(options());
    let answer = backend.initialize(handshake(Some(("/no/such/dir", false))));
    let answer = answer.unwrap();
    assert_eq!(answer.capabilities.change, TextDocumentSyncKind::Full);
    assert_eq!(answer.server_info.unwrap().name, "luascan");
    assert_eq!(backend.get_root(), None);

    assert_eq!(backend.initialized(), Err(LuascanError::RootNotSet));
    assert_eq!(backend.phase(), Phase::Serving);
    let late = backend.index_workspace(&vec![file("file:///no/such/dir/a.lua", "local x = ")]);
    assert_eq!(late.unwrap_err(), LuascanError::InvalidState);
    assert_eq!(backend.get_doc("file:///no/such/dir/a.lua"), None);
}

#[test]
fn the_confirmation_asks_for_a_scan_of_the_root() {
    let mut backend = Backend::new(options());
    backend.initialize(handshake(Some(("/ws", true)))).unwrap();
    assert_eq!(backend.initialized(), Ok("/ws/**/*.lua".to_string()));
    assert_eq!(backend.phase(), Phase::Initialized);
    assert_eq!(backend.initialized(), Err(LuascanError::InvalidState));
    assert_eq!(backend.phase(), Phase::Initialized);
}

#[test]
fn the_confirmation_before_the_handshake_is_turned_down() {
    let mut backend = Backend::new(options());
    assert_eq!(backend.initialized(), Err(LuascanError::InvalidState));
    assert_eq!(backend.phase(), Phase::Uninitialized);
}

#[test]
fn indexing_publishes_once_per_file_before_serving() {
    let mut backend = Backend::new(options());
    backend.initialize(handshake(Some(("/ws", true)))).unwrap();
    backend.initialized().unwrap();

    let early = backend.did_open(opened("file:///ws/a.lua", "local x = "));
    assert_eq!(early.unwrap_err(), LuascanError::InvalidState);
    assert_eq!(backend.get_doc("file:///ws/a.lua"), None);

    let sent = backend
        .index_workspace(&vec![
            file("file:///ws/a.lua", "local x = 1"),
            file("file:///ws/b.lua", "local s = \"abc"),
        ])
        .unwrap();
    assert_eq!(sent.len(), 2);
    assert_eq!(sent[0].uri, "file:///ws/a.lua");
    assert!(sent[0].diagnostics.is_empty());
    assert_eq!(sent[1].uri, "file:///ws/b.lua");
    assert!(!sent[1].diagnostics.is_empty());
    assert_eq!(backend.phase(), Phase::Serving);
    assert_eq!(backend.get_doc("file:///ws/a.lua"), Some("local x = 1".to_string()));
    assert_eq!(backend.get_doc("file:///ws/b.lua"), Some("local s = \"abc".to_string()));
}

#[test]
fn an_opened_document_is_stored_and_diagnosed() {
    let mut backend = serving(RuntimeVersion::Lua51);
    let sent = backend.did_open(opened("file:///ws/a.lua", "local x = ")).unwrap();
    assert_eq!(sent.uri, "file:///ws/a.lua");
    assert_eq!(sent.diagnostics.len(), 1);
    assert_eq!(backend.get_doc("file:///ws/a.lua"), Some("local x = ".to_string()));
}

#[test]
fn fixing_a_document_clears_its_diagnostics() {
    let mut backend = serving(RuntimeVersion::Lua51);
    let first = backend.did_open(opened("file:///ws/a.lua", "local x = ")).unwrap();
    assert_eq!(first.diagnostics.len(), 1);
    let second = backend.did_change(changed("file:///ws/a.lua", "local x = 1")).unwrap();
    assert_eq!(second.uri, "file:///ws/a.lua");
    assert!(second.diagnostics.is_empty());
}

#[test]
fn a_document_that_is_not_lua_is_not_processed() {
    let mut backend = serving(RuntimeVersion::Lua51);
    let mut params = opened("file:///ws/a.txt", "local x = ");
    params.language_id = "plaintext".to_string();
    assert_eq!(backend.did_open(params).unwrap_err(), LuascanError::NotLua);
    assert_eq!(backend.get_doc("file:///ws/a.txt"), None);
    assert_eq!(LUA, "lua");
}

#[test]
fn a_document_that_is_no_file_is_dropped() {
    let mut backend = serving(RuntimeVersion::Lua51);

    let mut params = opened("untitled:Untitled-1", "local x = ");
    params.file = FileProbe::NoFilePath;
    assert_eq!(backend.did_open(params).unwrap_err(), LuascanError::NoFilePath);
    let mut params = opened("file:///ws/gone.lua", "local x = ");
    params.file = FileProbe::NotAFile;
    assert_eq!(backend.did_open(params).unwrap_err(), LuascanError::NotAFile);
    assert_eq!(backend.get_doc("file:///ws/gone.lua"), None);

    let mut params = changed("untitled:Untitled-1", "local x = ");
    params.file = FileProbe::NoFilePath;
    assert_eq!(backend.did_change(params).unwrap_err(), LuascanError::NoFilePath);
    let mut params = changed("file:///ws/gone.lua", "local x = ");
    params.file = FileProbe::NotAFile;
    assert_eq!(backend.did_change(params).unwrap_err(), LuascanError::NotAFile);

    let mut params = saved("untitled:Untitled-1", Some("local x = "));
    params.file = FileProbe::NoFilePath;
    assert_eq!(backend.did_save(params).unwrap_err(), LuascanError::NoFilePath);
    let mut params = saved("file:///ws/gone.lua", Some("local x = "));
    params.file = FileProbe::NotAFile;
    assert_eq!(backend.did_save(params).unwrap_err(), LuascanError::NotAFile);

    assert_eq!(backend.phase(), Phase::Serving);
}

#[test]
fn a_change_needs_no_open_and_leaves_the_store_alone() {
    let mut backend = serving(RuntimeVersion::Lua51);
    let sent = backend.did_change(changed("file:///ws/new.lua", "local x = ")).unwrap();
    assert_eq!(sent.uri, "file:///ws/new.lua");
    assert_eq!(sent.diagnostics.len(), 1);
    assert_eq!(backend.get_doc("file:///ws/new.lua"), None);

    backend.did_open(opened("file:///ws/a.lua", "local x = 1")).unwrap();
    backend.did_change(changed("file:///ws/a.lua", "local x = 2")).unwrap();
    assert_eq!(backend.get_doc("file:///ws/a.lua"), Some("local x = 1".to_string()));
}

#[test]
fn a_change_uses_its_first_entry() {
    let backend = serving(RuntimeVersion::Lua51);
    let params = DidChangeTextDocumentParams {
        uri: "file:///ws/a.lua".to_string(),
        content_changes: vec!["local x = ".to_string(), "local x = 1".to_string()],
        file: FileProbe::File,
    };
    assert_eq!(backend.did_change(params).unwrap().diagnostics.len(), 1);

    let params = DidChangeTextDocumentParams {
        uri: "file:///ws/a.lua".to_string(),
        content_changes: Vec::new(),
        file: FileProbe::File,
    };
    assert_eq!(backend.did_change(params).unwrap_err(), LuascanError::NoText);
}

#[test]
fn a_save_is_diagnosed_only_if_it_carries_text() {
    let backend = serving(RuntimeVersion::Lua51);
    let sent = backend.did_save(saved("file:///ws/a.lua", Some("local x = "))).unwrap();
    assert_eq!(sent.uri, "file:///ws/a.lua");
    assert_eq!(sent.diagnostics.len(), 1);
    let sent = backend.did_save(saved("file:///ws/a.lua", Some("local x = 1"))).unwrap();
    assert!(sent.diagnostics.is_empty());
    assert_eq!(
        backend.did_save(saved("file:///ws/a.lua", None)).unwrap_err(),
        LuascanError::NoText
    );
}

#[test]
fn the_session_runtime_decides_the_dialect() {
    let old = serving(RuntimeVersion::Lua51);
    let new = serving(RuntimeVersion::Lua54);
    let text = "local x <const> = 1 // 2";
    assert!(!old.did_change(changed("file:///a.lua", text)).unwrap().diagnostics.is_empty());
    assert!(new.did_change(changed("file:///a.lua", text)).unwrap().diagnostics.is_empty());
}

#[test]
fn an_unsupported_runtime_rejects_every_run_without_ending_the_session() {
    let mut backend = serving(RuntimeVersion::Luajit);
    let sent = backend.did_open(opened("file:///ws/a.lua", "local x = 1"));
    assert_eq!(sent.unwrap_err(), LuascanError::UnsupportedDialect);
    assert_eq!(backend.get_doc("file:///ws/a.lua"), Some("local x = 1".to_string()));
    assert_eq!(
        backend.did_change(changed("file:///ws/a.lua", "local x = 1")).unwrap_err(),
        LuascanError::UnsupportedDialect
    );
    assert_eq!(
        backend.did_save(saved("file:///ws/a.lua", Some("local x = 1"))).unwrap_err(),
        LuascanError::UnsupportedDialect
    );
    assert_eq!(backend.phase(), Phase::Serving);
}

#[test]
fn a_fix_that_holds_a_backtick_or_a_shebang_line_still_clears_the_diagnostics() {
    let mut backend = serving(RuntimeVersion::Lua51);
    let sent = backend.did_open(opened("file:///ws/a.lua", "local x = ")).unwrap();
    assert_eq!(sent.diagnostics.len(), 1);
    let sent =
        backend.did_change(changed("file:///ws/a.lua", "-- set `x`\nlocal x = 1")).unwrap();
    assert_eq!(sent.uri, "file:///ws/a.lua");
    assert!(sent.diagnostics.is_empty());
    let sent = backend
        .did_change(changed("file:///ws/a.lua", "#!/usr/bin/lua\nlocal x = 1"))
        .unwrap();
    assert!(sent.diagnostics.is_empty());
    let sent = backend
        .did_save(saved("file:///ws/a.lua", Some("#!/usr/bin/lua\n--[[ x")))
        .unwrap();
    assert_eq!(sent.diagnostics.len(), 1);
    assert_eq!(sent.diagnostics[0].message, "unclosed comment");
}

#[test]
fn a_document_with_a_stray_backtick_is_stored_as_it_is_and_diagnosed() {
    let mut backend = serving(RuntimeVersion::Lua51);
    let sent = backend.did_open(opened("file:///ws/tick.lua", "`")).unwrap();
    assert_eq!(sent.uri, "file:///ws/tick.lua");
    assert_eq!(sent.diagnostics.len(), 1);
    assert_eq!(sent.diagnostics[0].message, "unexpected character $");
    assert_eq!(sent.diagnostics[0].range.start.line, 0);
    assert_eq!(sent.diagnostics[0].range.start.character, 0);
    assert_eq!(backend.get_doc("file:///ws/tick.lua"), Some("`".to_string()));
}

#[test]
fn shutdown_stops_the_session() {
    let mut backend = serving(RuntimeVersion::Lua51);
    assert_eq!(backend.exit(), Err(LuascanError::InvalidState));
    assert_eq!(backend.shutdown(), Ok(()));
    assert_eq!(backend.phase(), Phase::ShuttingDown);
    assert_eq!(backend.shutdown(), Err(LuascanError::InvalidState));
    assert_eq!(
        backend.did_open(opened("file:///ws/a.lua", "local x = 1")).unwrap_err(),
        LuascanError::InvalidState
    );
    assert_eq!(
        backend.did_change(changed("file:///ws/a.lua", "local x = 1")).unwrap_err(),
        LuascanError::InvalidState
    );
    assert_eq!(
        backend.did_save(saved("file:///ws/a.lua", Some("local x = 1"))).unwrap_err(),
        LuascanError::InvalidState
    );
    assert_eq!(backend.exit(), Ok(()));
    assert_eq!(backend.phase(), Phase::Exited);
    assert_eq!(backend.exit(), Err(LuascanError::InvalidState));
    assert_eq!(backend.phase(), Phase::Exited);
}

#[test]
fn shutdown_before_serving_is_turned_down() {
    let mut backend = Backend::new(options());
    assert_eq!(backend.shutdown(), Err(LuascanError::InvalidState));
    backend.initialize(handshake(None)).unwrap();
    assert_eq!(backend.shutdown(), Err(LuascanError::InvalidState));
    assert_eq!(backend.phase(), Phase::Initializing);
}

#[test]
fn document_notifications_before_the_handshake_are_dropped() {
    let mut backend = Backend::new(options());
    assert_eq!(
        backend.did_open(opened("file:///ws/a.lua", "local x = ")).unwrap_err(),
        LuascanError::InvalidState
    );
    assert_eq!(
        backend.did_change(changed("file:///ws/a.lua", "local x = ")).unwrap_err(),
        LuascanError::InvalidState
    );
    assert_eq!(
        backend.did_save(saved("file:///ws/a.lua", Some("local x = "))).unwrap_err(),
        LuascanError::InvalidState
    );
    assert_eq!(backend.phase(), Phase::Uninitialized);
    assert_eq!(backend.get_doc("file:///ws/a.lua"), None);
}

#[test]
fn check_syntax_uses_the_session_runtime() {
    let backend = Backend::new(options_for(RuntimeVersion::Lua52));
    let sent = backend.check_syntax("file:///a.lua".to_string(), "goto done\n::done::").unwrap();
    assert_eq!(sent.uri, "file:///a.lua");
    assert!(sent.diagnostics.is_empty());
    let backend = Backend::new(options_for(RuntimeVersion::Lua51));
    let sent = backend.check_syntax("file:///a.lua".to_string(), "goto done\n::done::").unwrap();
    assert_eq!(sent.diagnostics.len(), 7);
}

fn count_published(reply: &Reply) -> Option<Vec<(String, usize)>> {
    match reply {
        Reply::Publish(sent) => {
            Some(sent.iter().map(|p| (p.uri.clone(), p.diagnostics.len())).collect())
        }
        _ => None,
    }
}

#[test]
fn a_whole_session_replies_once_per_message() {
    let events = vec![
        Event::DidOpen(opened("file:///ws/early.lua", "local x = ")),
        Event::Initialize(handshake(Some(("/ws", true)))),
        Event::Initialized,
        Event::WorkspaceScanned(vec![
            file("file:///ws/a.lua", "local x = 1"),
            file("file:///ws/b.lua", "local s = \"abc"),
        ]),
        Event::DidOpen(opened("file:///ws/c.lua", "local x = ")),
        Event::DidChange(changed("file:///ws/c.lua", "local x = 1")),
        Event::DidSave(saved("file:///ws/c.lua", None)),
        Event::Shutdown,
        Event::DidChange(changed("file:///ws/c.lua", "local x = ")),
        Event::Exit,
    ];
    let replies = run(options(), events);
    assert_eq!(replies.len(), 10);
    assert!(matches!(replies[0], Reply::Rejected(LuascanError::InvalidState)));
    assert!(matches!(replies[1], Reply::Handshake(_)));
    match &replies[2] {
        Reply::IndexWorkspace(pattern) => assert_eq!(pattern, "/ws/**/*.lua"),
        other => panic!("no scan was asked for: {:?}", other),
    }
    assert_eq!(
        count_published(&replies[3]),
        Some(vec![("file:///ws/a.lua".to_string(), 0), ("file:///ws/b.lua".to_string(), 1)])
    );
    assert_eq!(count_published(&replies[4]), Some(vec![("file:///ws/c.lua".to_string(), 1)]));
    assert_eq!(count_published(&replies[5]), Some(vec![("file:///ws/c.lua".to_string(), 0)]));
    assert!(matches!(replies[6], Reply::Rejected(LuascanError::NoText)));
    assert!(matches!(replies[7], Reply::Done));
    assert!(matches!(replies[8], Reply::Rejected(LuascanError::InvalidState)));
    assert!(matches!(replies[9], Reply::Done));
}

#[test]
fn a_session_without_messages_has_no_replies() {
    assert!(run(options(), Vec::new()).is_empty());
}

#[test]
fn handling_a_message_is_the_same_as_calling_its_handler() {
    let mut by_event = Backend::new(options());
    let mut by_call = Backend::new(options());
    let reply = by_event.handle(Event::Initialize(handshake(Some(("/ws", true)))));
    let answer = by_call.initialize(handshake(Some(("/ws", true)))).unwrap();
    match reply {
        Reply::Handshake(same) => {
            assert_eq!(same.capabilities, answer.capabilities);
            assert_eq!(same.server_info.unwrap().version, answer.server_info.unwrap().version);
        }
        other => panic!("the handshake was not answered: {:?}", other),
    }
    assert_eq!(by_event.phase(), by_call.phase());
    assert_eq!(by_event.get_root(), by_call.get_root());

    let reply = by_event.handle(Event::Initialized);
    assert!(matches!(reply, Reply::IndexWorkspace(_)));
    let reply = by_event.handle(Event::WorkspaceScanned(Vec::new()));
    assert_eq!(count_published(&reply), Some(Vec::new()));
    assert_eq!(by_event.phase(), Phase::Serving);
}

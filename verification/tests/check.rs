use luascan::check::handle_check;
use luascan::cli::{CheckOptions, Command, LspOptions};
use luascan::config::{Config, RuntimeConfig, RuntimeVersion, WorkspaceConfig};
use luascan::error::LuascanError;
use luascan::workspace::SourceFile;

fn options(version: RuntimeVersion) -> CheckOptions {
    CheckOptions {
        target: "/ws".to_string(),
        config: Config {
            runtime: RuntimeConfig { version },
            workspace: WorkspaceConfig { library: Vec::new() },
        },
    }
}

fn source(path: &str, content: &str) -> SourceFile {
    SourceFile { path: path.to_string(), content: Some(content.to_string()) }
}

#[test]
fn a_clean_run_ends_with_status_zero() {
    let sources = vec![source("/ws/a.lua", "local x = 1"), source("/ws/sub/b.lua", "return x")];
    let report = handle_check(options(RuntimeVersion::Lua51), &sources).unwrap();
    assert_eq!(report.files_checked(), 2);
    assert!(report.passed_over.is_empty());
    assert!(!report.has_diagnostics());
    assert_eq!(report.exit_code(), 0);
    assert_eq!(report.files[0].path, "/ws/a.lua");
    assert!(report.files[0].diagnostics.is_empty());
    assert_eq!(report.files[1].path, "/ws/sub/b.lua");
    assert!(report.files[1].diagnostics.is_empty());
}

#[test]
fn any_diagnostic_makes_the_status_nonzero() {
    let sources = vec![
        source("/ws/a.lua", "local x = 1"),
        source("/ws/b.lua", "local s = \"abc"),
        source("/ws/c.lua", "x = = 1\ny = ("),
    ];
    let report = handle_check(options(RuntimeVersion::Lua51), &sources).unwrap();
    assert_eq!(report.files_checked(), 3);
    assert!(report.has_diagnostics());
    assert_eq!(report.exit_code(), 1);
    assert!(report.files[0].diagnostics.is_empty());
    assert_eq!(report.files[1].path, "/ws/b.lua");
    assert_eq!(report.files[1].diagnostics.len(), 1);
    assert_eq!(report.files[1].diagnostics[0].message, "unclosed string");
    assert_eq!(report.files[2].path, "/ws/c.lua");
    assert_eq!(report.files[2].diagnostics.len(), 4);
}

#[test]
fn a_diagnostic_in_the_last_file_is_not_missed() {
    let sources = vec![source("/ws/a.lua", "local x = 1"), source("/ws/b.lua", "local x = ")];
    let report = handle_check(options(RuntimeVersion::Lua54), &sources).unwrap();
    assert_eq!(report.exit_code(), 1);
}

#[test]
fn an_unreadable_file_is_passed_over() {
    let sources = vec![
        SourceFile { path: "/ws/locked.lua".to_string(), content: None },
        source("/ws/a.lua", "local x = "),
    ];
    let report = handle_check(options(RuntimeVersion::Lua51), &sources).unwrap();
    assert_eq!(report.files_checked(), 1);
    assert_eq!(report.files[0].path, "/ws/a.lua");
    assert_eq!(report.passed_over, vec!["/ws/locked.lua".to_string()]);
    assert_eq!(report.exit_code(), 1);
}

#[test]
fn files_with_a_backtick_or_a_shebang_line_are_diagnosed_like_any_other() {
    let sources = vec![
        source("/ws/tick.lua", "-- see `x`\nlocal x = "),
        source("/ws/a.lua", "-- see `x`\nlocal x = 1"),
        source("/ws/script.lua", "#!/usr/bin/lua\n--[[ x"),
        SourceFile { path: "/ws/locked.lua".to_string(), content: None },
        source("/ws/run.lua", "#!/usr/bin/lua\nprint(1)"),
    ];
    let report = handle_check(options(RuntimeVersion::Lua54), &sources).unwrap();
    assert_eq!(report.files_checked(), 4);
    assert_eq!(report.files[0].path, "/ws/tick.lua");
    assert_eq!(report.files[0].diagnostics.len(), 1);
    assert_eq!(report.files[1].path, "/ws/a.lua");
    assert!(report.files[1].diagnostics.is_empty());
    assert_eq!(report.files[2].path, "/ws/script.lua");
    assert_eq!(report.files[2].diagnostics.len(), 1);
    assert_eq!(report.files[2].diagnostics[0].message, "unclosed comment");
    assert_eq!(report.files[3].path, "/ws/run.lua");
    assert!(report.files[3].diagnostics.is_empty());
    assert_eq!(report.passed_over, vec!["/ws/locked.lua".to_string()]);
    assert_eq!(report.exit_code(), 1);

    let clean = vec![source("/ws/run.lua", "#!/usr/bin/lua\nprint('`')")];
    let report = handle_check(options(RuntimeVersion::Lua54), &clean).unwrap();
    assert_eq!(report.files_checked(), 1);
    assert!(report.passed_over.is_empty());
    assert_eq!(report.exit_code(), 0);

    let stray = vec![source("/ws/tick.lua", "local x = `")];
    let report = handle_check(options(RuntimeVersion::Lua54), &stray).unwrap();
    assert_eq!(report.files_checked(), 1);
    assert_eq!(report.exit_code(), 1);
}

#[test]
fn a_run_over_nothing_is_clean() {
    let report = handle_check(options(RuntimeVersion::Lua51), &Vec::new()).unwrap();
    assert_eq!(report.files_checked(), 0);
    assert_eq!(report.exit_code(), 0);
}

#[test]
fn an_unsupported_runtime_is_rejected_before_any_file() {
    let sources = vec![source("/ws/a.lua", "local x = 1")];
    assert_eq!(
        handle_check(options(RuntimeVersion::Luajit), &sources).unwrap_err(),
        LuascanError::UnsupportedDialect
    );
    assert_eq!(
        handle_check(options(RuntimeVersion::Luajit), &Vec::new()).unwrap_err(),
        LuascanError::UnsupportedDialect
    );
}

#[test]
fn a_command_carries_its_options() {
    let check = Command::Check(options(RuntimeVersion::Lua52));
    match check {
        Command::Check(o) => {
            assert_eq!(o.target, "/ws");
            assert_eq!(o.config.runtime.version, RuntimeVersion::Lua52);
        }
        Command::Lsp(_) => panic!("not the command that was built"),
    }
    let lsp = Command::Lsp(LspOptions { config: options(RuntimeVersion::Lua53).config });
    match lsp {
        Command::Lsp(o) => assert_eq!(o.config.runtime.version, RuntimeVersion::Lua53),
        Command::Check(_) => panic!("not the command that was built"),
    }
}

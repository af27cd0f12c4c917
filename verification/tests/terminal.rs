use oid::catalog::ModelMetadata;
use oid::commands::{
    execute_with_operations, parse_command, CommandAction, ConsoleCommand, ConsoleHost, HistoryView,
};
use oid::daemon::{parse_request, reply_lines};
use oid::editor::{EditResult, EditorStep, LineEditor};
use oid::history::History;
use oid::runtime::{BackendHealth, BackendSummary, HardwareSnapshot, RuntimeService, RuntimeSnapshot};
use oid::session::recover_report;
use oid::shared::{RuntimeError, RuntimeEvent};
use oid::shell::{
    after_poll, shell_input, CdError, ChildPoll, ShellCommandController, ShellExecutor, ShellInput,
    WorkingDirectoryManager,
};
use oid::signals::{ProcessSignal, SignalController};
use oid::terminal::{
    compact_directory, InputRoute, InputRouter, PresenceIndicator, PresenceState, StatusBar,
};

struct MockLikeRuntime;

fn mock_snapshot() -> RuntimeSnapshot {
    RuntimeSnapshot {
        health: "Healthy",
        backend: "None".to_owned(),
        models: 0,
        memory: "--".to_owned(),
        loaded_model: None,
        uptime_seconds: 0,
        backend_version: None,
        model_memory_bytes: None,
        loaded_context: None,
    }
}

impl RuntimeService for MockLikeRuntime {
    fn snapshot(&self) -> RuntimeSnapshot {
        mock_snapshot()
    }
    fn backend_list(&self) -> Vec<BackendSummary> {
        Vec::new()
    }
    fn backend_health(&self, _id: &str) -> Option<BackendHealth> {
        None
    }
    fn model_list(&self) -> Vec<ModelMetadata> {
        Vec::new()
    }
    fn model_inspect(&self, _id: &str) -> Option<ModelMetadata> {
        None
    }
    fn model_load(&self, id: &str) -> Result<(), RuntimeError> {
        Err(RuntimeError::ModelNotFound(id.to_owned()))
    }
    fn model_unload(&self, _id: &str) -> Result<(), RuntimeError> {
        Ok(())
    }
    fn tokenize(&self, text: &str) -> Result<usize, RuntimeError> {
        Ok(text.split_whitespace().count())
    }
    fn hardware(&self) -> HardwareSnapshot {
        HardwareSnapshot::default()
    }
}

struct FreshSession;

impl ConsoleHost for FreshSession {
    fn inspect_system(&mut self) -> Result<Vec<String>, String> {
        Err("unavailable".to_owned())
    }
    fn create_directory(&mut self, path: &str, approved: bool) -> Result<Vec<String>, String> {
        Ok(vec![format!("{path} {approved}")])
    }
    fn recover(&mut self) -> Result<Vec<String>, String> {
        Ok(recover_report(&Vec::new(), &Vec::new()))
    }
    fn approve(&mut self, _id: &str) -> Result<Vec<String>, String> {
        Err("no such operation".to_owned())
    }
    fn rollback(&mut self, _id: &str) -> Result<Vec<String>, String> {
        Err("no such operation".to_owned())
    }
    fn read_text(&self, path: &str) -> Result<String, String> {
        if path == "notes.txt" {
            Ok("three small words".to_owned())
        } else {
            Err("missing file".to_owned())
        }
    }
    fn generate(&mut self, prompt: &str) -> Result<Vec<String>, RuntimeError> {
        Ok(vec!["Generating...".to_owned(), prompt.to_owned()])
    }
}

fn run(input: &str) -> oid::commands::CommandResult {
    execute_with_operations(input, &HistoryView::new(&[]), &MockLikeRuntime, &mut FreshSession)
}

#[test]
fn built_in_commands_return_mock_information() {
    let result = run("status");
    assert_eq!(result.action, CommandAction::Continue);
    assert!(result.output.iter().any(|line| line.contains("Healthy")));
}

#[test]
fn exit_is_explicit() {
    let result = run("exit");
    assert_eq!(result.action, CommandAction::Exit);
}

#[test]
fn operation_commands_use_the_session_coordinator() {
    let result = run("operations recover");
    assert_eq!(result.output, vec!["No recoverable operations."]);
}

#[test]
fn commands_are_read_in_the_original_order() {
    assert_eq!(parse_command("  help "), ConsoleCommand::Help);
    assert_eq!(parse_command("runtime"), ConsoleCommand::Status);
    assert_eq!(
        parse_command("intent intent  tidy up "),
        ConsoleCommand::Intent("tidy up".to_owned())
    );
    assert_eq!(
        parse_command("create directory /tmp/a --approve"),
        ConsoleCommand::CreateDirectory {
            path: "/tmp/a".to_owned(),
            approved: true
        }
    );
    assert_eq!(
        parse_command("create directory /tmp/b"),
        ConsoleCommand::CreateDirectory {
            path: "/tmp/b".to_owned(),
            approved: false
        }
    );
    assert_eq!(
        parse_command("explain \"why\""),
        ConsoleCommand::Generate("why".to_owned())
    );
    assert_eq!(parse_command("backend list"), ConsoleCommand::BackendList);
    assert_eq!(parse_command(""), ConsoleCommand::Empty);
    assert_eq!(parse_command("quit"), ConsoleCommand::Exit);
    assert_eq!(
        parse_command("frobnicate"),
        ConsoleCommand::Unknown("frobnicate".to_owned())
    );
}

#[test]
fn command_answers_format_runtime_and_host_facts() {
    assert_eq!(
        run("model load demo").output,
        vec!["Error: model not found: demo"]
    );
    assert_eq!(run("model unload demo").output, vec!["Model unloaded: demo"]);
    assert_eq!(run("tokenize a b c").output, vec!["Tokens: 3"]);
    assert_eq!(run("count notes.txt").output, vec!["Tokens in notes.txt: 3"]);
    assert_eq!(
        run("count other.txt").output,
        vec!["Error: persistence failure: missing file"]
    );
    assert_eq!(
        run("inspect system").output,
        vec!["Foundation flow failed: unavailable"]
    );
    assert_eq!(
        run("operations approve op-1").output,
        vec!["Approval failed: no such operation"]
    );
    assert_eq!(run("models").output, vec!["No models registered."]);
    assert_eq!(run("backend").output, vec!["No backends registered."]);
    assert_eq!(
        run("backend status").output,
        vec!["Active backend: None", "Health: Unavailable"]
    );
    assert_eq!(run("model inspect x").output, vec!["Model not found: x"]);
    assert_eq!(
        run("wat").output,
        vec!["Unknown OID command: wat. Type :help."]
    );
    assert_eq!(run("clear").action, CommandAction::Clear);
    assert!(run("clear").output.is_empty());
    let hardware = run("hardware").output;
    assert_eq!(hardware[4], "Physical cores   : --");
    assert_eq!(hardware[7], "SIMD             : None");
    assert_eq!(run("help").output.len(), 9);
}

#[test]
fn history_command_lists_entries() {
    let entries = vec!["ls".to_owned(), ":status".to_owned()];
    let result = execute_with_operations(
        "history",
        &HistoryView::new(&entries),
        &MockLikeRuntime,
        &mut FreshSession,
    );
    assert_eq!(result.output, entries);
}

#[test]
fn navigates_back_and_forward() {
    let mut history = History::new();
    history.push("help".to_owned());
    history.push("status".to_owned());
    assert_eq!(history.previous().as_deref(), Some("status"));
    assert_eq!(history.previous().as_deref(), Some("help"));
    assert_eq!(history.next().as_deref(), Some("status"));
    assert_eq!(history.next().as_deref(), Some(""));
}

#[test]
fn persists_and_reloads_commands() {
    let mut history = History::load("history", "");
    let mut file = String::new();
    for command in ["ls -la", ":status"] {
        if let Some(line) = history.push(command.to_owned()) {
            file.push_str(&line);
            file.push('\n');
        }
    }
    let reloaded = History::load("history", &file);
    assert_eq!(reloaded.entries(), &["ls -la", ":status"]);
}

#[test]
fn routes_shell_and_oid_namespaces() {
    let router = InputRouter;
    assert_eq!(
        router.route("ls -la"),
        InputRoute::Shell("ls -la".to_owned())
    );
    assert_eq!(router.route(":help"), InputRoute::Oid("help".to_owned()));
    assert_eq!(router.route("  :  status "), InputRoute::Oid("status".to_owned()));
}

#[test]
fn compacts_long_paths_to_the_final_two_components() {
    assert_eq!(
        compact_directory(
            "/a/very-long-parent-directory-name/poc-projects/intent-driven-os",
            Some("/home/user")
        ),
        "…/poc-projects/intent-driven-os"
    );
}

#[test]
fn prompt_directories_are_shown_under_home() {
    assert_eq!(compact_directory("/home/ada", Some("/home/ada")), "~");
    assert_eq!(
        compact_directory("/home/ada/src/oid", Some("/home/ada")),
        "~/src/oid"
    );
    assert_eq!(compact_directory("/home/adam", Some("/home/ada")), "/home/adam");
    assert_eq!(compact_directory("/srv", None), "/srv");
}

#[test]
fn cursor_state_changes_only_after_runtime_events() {
    let mut indicator = PresenceIndicator::new();
    assert_eq!(indicator.state(), PresenceState::Idle);
    indicator.apply(&RuntimeEvent::StreamingStarted);
    assert_eq!(indicator.state(), PresenceState::Streaming);
    assert_eq!(indicator.token(), "▍");
    indicator.apply(&RuntimeEvent::HardwareDetected);
    assert_eq!(indicator.state(), PresenceState::Streaming);
    indicator.apply(&RuntimeEvent::ApprovalRequested);
    assert_eq!(indicator.token(), "▌");
}

#[test]
fn renders_deterministic_placeholder_information() {
    let line = StatusBar::line(&mock_snapshot(), &None, "12:34:56");
    assert!(line.contains("Runtime: Healthy"));
    assert!(line.contains("Active backend: None"));
    assert!(line.contains("Backend version: --"));
    assert!(line.contains("Model memory: --"));
    assert!(line.contains("Loaded model: None"));
    assert!(line.contains("Uptime: "));
    assert!(line.contains("Time: 12:34:56"));
}

#[test]
fn cd_updates_persistent_directory_and_supports_cd_dash() {
    let root = "/tmp".to_owned();
    let child = format!("{root}/oid-shell-test");
    let mut manager = WorkingDirectoryManager::from_path(root.clone());
    let target = manager.target(Some(&child), None).expect("cd");
    assert_eq!(target, child);
    manager.enter(target);
    let back = manager.target(Some("-"), None).expect("cd -");
    manager.enter(back);
    assert_eq!(manager.current(), root);
}

#[test]
fn cd_targets_follow_home_previous_and_relative_paths() {
    let manager = WorkingDirectoryManager::from_path("/work".to_owned());
    assert_eq!(manager.target(None, Some("/home/ada")), Ok("/home/ada".to_owned()));
    assert_eq!(manager.target(Some("  "), None), Err(CdError::HomeNotSet));
    assert_eq!(manager.target(Some("-"), None), Err(CdError::NoPrevious));
    assert_eq!(
        manager.target(Some("~/notes"), Some("/home/ada")),
        Ok("/home/ada/notes".to_owned())
    );
    assert_eq!(manager.target(Some("src"), None), Ok("/work/src".to_owned()));
    assert_eq!(manager.target(Some("/etc"), None), Ok("/etc".to_owned()));
    assert_eq!(CdError::HomeNotSet.message(), "HOME is not set");
}

#[test]
fn shell_lines_are_cd_or_shell_commands() {
    assert_eq!(shell_input("  cd  "), ShellInput::ChangeDirectory(None));
    assert_eq!(
        shell_input("cd  /tmp "),
        ShellInput::ChangeDirectory(Some("/tmp".to_owned()))
    );
    assert_eq!(shell_input("cdx"), ShellInput::Run("cdx".to_owned()));
    assert_eq!(
        oid::shell::exit_lines(false, Some(2)),
        vec!["[exit status: 2]"]
    );
    assert_eq!(
        oid::shell::exit_lines(false, None),
        vec!["[exit status: signal termination]"]
    );
    assert!(oid::shell::exit_lines(true, Some(0)).is_empty());
}

fn feed(editor: &mut LineEditor, history: &mut History, presence: &mut PresenceIndicator, bytes: &[u8]) -> Vec<EditorStep> {
    bytes
        .iter()
        .map(|byte| editor.step(Some(*byte), history, presence))
        .collect()
}

#[test]
fn raw_editor_edits_and_submits_a_line() {
    let mut editor = LineEditor::new();
    let mut history = History::new();
    let mut presence = PresenceIndicator::new();
    let steps = feed(&mut editor, &mut history, &mut presence, b"lss");
    assert_eq!(steps, [EditorStep::Redraw, EditorStep::Redraw, EditorStep::Redraw]);
    assert_eq!(presence.token(), "▌");
    // Left arrow, then backspace: "ls" remains with the cursor at its end.
    let steps = feed(&mut editor, &mut history, &mut presence, &[27, b'[', b'D', 127]);
    assert_eq!(steps, [EditorStep::Read, EditorStep::Read, EditorStep::Redraw, EditorStep::Redraw]);
    assert_eq!(editor.buffer().text(), "ls");
    assert_eq!(editor.buffer().cursor(), 1);
    // Home, then delete at the cursor: ESC [ 3 ~ removes the "l".
    feed(&mut editor, &mut history, &mut presence, &[27, b'[', b'H', 27, b'[', b'3', b'~']);
    assert_eq!(editor.buffer().text(), "s");
    assert_eq!(editor.buffer().cursor(), 0);
    let done = editor.step(Some(b'\r'), &mut history, &mut presence);
    assert_eq!(done, EditorStep::Done(EditResult::Submitted("s".to_owned())));
    assert_eq!(presence.token(), "▋");
}

#[test]
fn raw_editor_recalls_history_and_handles_control_keys() {
    let mut editor = LineEditor::new();
    let mut history = History::new();
    history.push("first".to_owned());
    history.push("second".to_owned());
    let mut presence = PresenceIndicator::new();
    feed(&mut editor, &mut history, &mut presence, &[27, b'[', b'A']);
    assert_eq!(editor.buffer().text(), "second");
    feed(&mut editor, &mut history, &mut presence, &[27, b'[', b'A']);
    assert_eq!(editor.buffer().text(), "first");
    feed(&mut editor, &mut history, &mut presence, &[27, b'[', b'B']);
    assert_eq!(editor.buffer().text(), "second");
    feed(&mut editor, &mut history, &mut presence, &[27, b'[', b'B']);
    assert_eq!(editor.buffer().text(), "");
    // An escape that is not followed by '[' is dropped with its next byte.
    let steps = feed(&mut editor, &mut history, &mut presence, &[27, b'x']);
    assert_eq!(steps, [EditorStep::Read, EditorStep::Redraw]);
    assert_eq!(editor.buffer().text(), "");
    assert_eq!(editor.step(Some(12), &mut history, &mut presence), EditorStep::Clear);
    assert_eq!(editor.step(Some(1), &mut history, &mut presence), EditorStep::Redraw);
    assert_eq!(editor.step(Some(3), &mut history, &mut presence), EditorStep::Done(EditResult::Cancelled));
    assert_eq!(LineEditor::new().step(Some(4), &mut history, &mut presence), EditorStep::Done(EditResult::Eof));
    assert_eq!(LineEditor::new().step(None, &mut history, &mut presence), EditorStep::Done(EditResult::Eof));
}

#[test]
fn daemon_answers_each_request_from_the_runtime() {
    let runtime = MockLikeRuntime;
    let reply = |line: &str| reply_lines(&parse_request(line), &runtime);
    assert_eq!(reply("status\n"), Some(vec!["OK status\tHealthy\tNone\t".to_owned()]));
    assert_eq!(reply("model_list"), Some(vec!["END".to_owned()]));
    assert_eq!(reply("model_unload\tm"), Some(vec!["OK".to_owned()]));
    let load = reply("model_load\tm").expect("reply");
    assert_eq!(load.len(), 1);
    assert!(load[0].starts_with("ERROR\t"));
    assert_eq!(reply("cancel"), Some(vec!["OK cancelled".to_owned()]));
    assert_eq!(reply("bogus"), Some(vec!["ERROR\tunknown request".to_owned()]));
    assert_eq!(reply("generate\tm\t16\thello"), None);
}

#[test]
fn child_supervision_decisions() {
    let mut shell = ShellCommandController {
        executor: ShellExecutor::from_path("/bin/sh".to_owned()),
        directory: WorkingDirectoryManager::from_path("/work".to_owned()),
        signals: SignalController::test(),
    };
    assert!(!shell.child_must_stop());
    shell.signals.inject(ProcessSignal::Interrupt);
    shell.signals.inject(ProcessSignal::Terminate);
    assert!(shell.child_must_stop());
    assert!(!shell.signals.take_interrupt());
    assert!(shell.child_must_stop());
    assert!(after_poll(ChildPoll::Running).is_none());
    assert_eq!(after_poll(ChildPoll::Exited { success: true, code: Some(0) }), Some(Vec::new()));
    assert_eq!(
        after_poll(ChildPoll::Exited { success: false, code: Some(130) }),
        Some(vec!["[exit status: 130]".to_owned()])
    );
    assert_eq!(
        after_poll(ChildPoll::Exited { success: false, code: None }),
        Some(vec!["[exit status: signal termination]".to_owned()])
    );
    assert_eq!(
        after_poll(ChildPoll::Failed("lost".to_owned())),
        Some(vec!["shell: lost".to_owned()])
    );
}

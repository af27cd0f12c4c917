//! The console's built-in command grammar and the text it answers with.
//!
//! A line typed at the prompt is trimmed and read as one command; the
//! runtime facts a command shows are formatted here from plain values.
use vstd::prelude::*;
use crate::runtime::{RuntimeService, RuntimeSnapshot, BackendSummary, BackendHealth, HardwareSnapshot};
use crate::catalog::{ModelMetadata, ModelView, model_status_name};
use crate::shared::{RuntimeError, runtime_error_text};
use crate::operation::{join, join_strings};
use crate::text::{decimal, concat, concat3, u64_to_string, usize_to_string};
use crate::text::{trim, starts_with, ends_with, strip_all_prefix, strip_all_suffix, after_char, trim_str,
    str_eq, str_starts_with, str_ends_with, trim_start_matches, trim_end_matches, split_once_after, views};

verus! {

/// A user-entered intent before parsing or execution.
#[derive(Clone, Debug, Eq, PartialEq)]
pub struct IntentCommand {
    /// Raw text entered at the prompt.
    pub text: String,
}

/// Parser interface reserved for the future command grammar.
pub trait CommandParser {
    /// Parse raw prompt text into an intent command.
    fn parse(&self, input: &str) -> IntentCommand;
}

/// Minimal parser that preserves input without executing it.
#[derive(Clone, Debug, Default)]
pub struct FoundationParser;

impl CommandParser for FoundationParser {
    /// The text, unchanged.
    fn parse(&self, input: &str) -> (c: IntentCommand)
        ensures
            c.text@ == input@,
    {
        IntentCommand { text: input.to_string() }
    }
}

/// Action requested by a built-in command.
#[derive(Clone, Copy, Debug, Eq, PartialEq)]
pub enum CommandAction {
    /// Keep the console running.
    Continue,
    /// Clear the terminal before continuing.
    Clear,
    /// Stop the console.
    Exit,
}

/// Result of processing a console command.
#[derive(Clone, Debug, Eq, PartialEq)]
pub struct CommandResult {
    /// Lines to display to the user.
    pub output: Vec<String>,
    /// Lifecycle action requested by the command.
    pub action: CommandAction,
}

/// Read-only view of command history used by command processing.
pub struct HistoryView<'a> {
    entries: &'a [String],
}

impl<'a> HistoryView<'a> {
    /// The history entries, oldest first.
    pub closed spec fn lines(self) -> Seq<Seq<char>> {
        views(self.entries@)
    }

    /// A view over history entries.
    pub fn new(entries: &'a [String]) -> (r: Self)
        ensures
            r.lines() == views(entries@),
    {
        HistoryView { entries }
    }

    /// The history entries.
    pub fn entries(&self) -> (r: &'a [String])
        ensures
            views(r@) == self.lines(),
    {
        self.entries
    }
}

/// A built-in command, read from one trimmed prompt line.
#[derive(Clone, Debug, Eq, PartialEq)]
pub enum ConsoleCommand {
    /// `help`.
    Help,
    /// `status` or `runtime`.
    Status,
    /// `health`.
    Health,
    /// `intent <description>`.
    Intent(String),
    /// `inspect system`.
    InspectSystem,
    /// `create directory <path> [--approve]`.
    CreateDirectory {
        /// Directory to create.
        path: String,
        /// Whether the request carries its approval.
        approved: bool,
    },
    /// `operations recover`.
    OperationsRecover,
    /// `operations approve <id>`.
    OperationsApprove(String),
    /// `operations rollback <id>`.
    OperationsRollback(String),
    /// `backend` or `backend list`.
    BackendList,
    /// `backend info`.
    BackendInfo,
    /// `backend status`.
    BackendStatus,
    /// `models`.
    Models,
    /// `model inspect <id>`.
    ModelInspect(String),
    /// `model load <id>`.
    ModelLoad(String),
    /// `model unload <id>`.
    ModelUnload(String),
    /// `model status`.
    ModelStatus,
    /// `tokenize <text>`.
    Tokenize(String),
    /// `count <path>`.
    Count(String),
    /// `generate <prompt>` or `explain <prompt>`.
    Generate(String),
    /// `complete <path>`.
    Complete(String),
    /// `hardware`.
    Hardware,
    /// `history`.
    History,
    /// `clear`.
    Clear,
    /// `version`.
    Version,
    /// `about`.
    About,
    /// `exit` or `quit`.
    Exit,
    /// An empty line.
    Empty,
    /// Anything else.
    Unknown(String),
}

/// Plain values of a command.
pub enum CommandView {
    Help,
    Status,
    Health,
    Intent(Seq<char>),
    InspectSystem,
    CreateDirectory { path: Seq<char>, approved: bool },
    OperationsRecover,
    OperationsApprove(Seq<char>),
    OperationsRollback(Seq<char>),
    BackendList,
    BackendInfo,
    BackendStatus,
    Models,
    ModelInspect(Seq<char>),
    ModelLoad(Seq<char>),
    ModelUnload(Seq<char>),
    ModelStatus,
    Tokenize(Seq<char>),
    Count(Seq<char>),
    Generate(Seq<char>),
    Complete(Seq<char>),
    Hardware,
    History,
    Clear,
    Version,
    About,
    Exit,
    Empty,
    Unknown(Seq<char>),
}

impl View for ConsoleCommand {
    type V = CommandView;

    open spec fn view(&self) -> CommandView {
        match self {
            ConsoleCommand::Help => CommandView::Help,
            ConsoleCommand::Status => CommandView::Status,
            ConsoleCommand::Health => CommandView::Health,
            ConsoleCommand::Intent(s) => CommandView::Intent(s@),
            ConsoleCommand::InspectSystem => CommandView::InspectSystem,
            ConsoleCommand::CreateDirectory { path, approved } => CommandView::CreateDirectory { path: path@, approved: *approved },
            ConsoleCommand::OperationsRecover => CommandView::OperationsRecover,
            ConsoleCommand::OperationsApprove(s) => CommandView::OperationsApprove(s@),
            ConsoleCommand::OperationsRollback(s) => CommandView::OperationsRollback(s@),
            ConsoleCommand::BackendList => CommandView::BackendList,
            ConsoleCommand::BackendInfo => CommandView::BackendInfo,
            ConsoleCommand::BackendStatus => CommandView::BackendStatus,
            ConsoleCommand::Models => CommandView::Models,
            ConsoleCommand::ModelInspect(s) => CommandView::ModelInspect(s@),
            ConsoleCommand::ModelLoad(s) => CommandView::ModelLoad(s@),
            ConsoleCommand::ModelUnload(s) => CommandView::ModelUnload(s@),
            ConsoleCommand::ModelStatus => CommandView::ModelStatus,
            ConsoleCommand::Tokenize(s) => CommandView::Tokenize(s@),
            ConsoleCommand::Count(s) => CommandView::Count(s@),
            ConsoleCommand::Generate(s) => CommandView::Generate(s@),
            ConsoleCommand::Complete(s) => CommandView::Complete(s@),
            ConsoleCommand::Hardware => CommandView::Hardware,
            ConsoleCommand::History => CommandView::History,
            ConsoleCommand::Clear => CommandView::Clear,
            ConsoleCommand::Version => CommandView::Version,
            ConsoleCommand::About => CommandView::About,
            ConsoleCommand::Exit => CommandView::Exit,
            ConsoleCommand::Empty => CommandView::Empty,
            ConsoleCommand::Unknown(s) => CommandView::Unknown(s@),
        }
    }
}

/// `s` without leading and trailing double quotes.
pub open spec fn strip_quotes(s: Seq<char>) -> Seq<char> {
    strip_all_suffix(strip_all_prefix(s, "\""@), "\""@)
}

/// The text after a command word: every repetition of the word removed,
/// then surrounding whitespace.
pub open spec fn argument(c: Seq<char>, word: Seq<char>) -> Seq<char> {
    trim(strip_all_prefix(c, word))
}

/// The directory request of `create directory`: a trailing ` --approve`
/// approves it.
pub open spec fn directory_request(c: Seq<char>) -> CommandView {
    let a = argument(c, "create directory "@);
    let approved = ends_with(a, " --approve"@);
    CommandView::CreateDirectory {
        path: if approved {
            trim(strip_all_suffix(a, " --approve"@))
        } else {
            a
        },
        approved,
    }
}

/// The command a trimmed prompt line names; the first matching form wins.
pub open spec fn command_of(c: Seq<char>) -> CommandView {
    if c == "help"@ {
        CommandView::Help
    } else if c == "status"@ || c == "runtime"@ {
        CommandView::Status
    } else if c == "health"@ {
        CommandView::Health
    } else if starts_with(c, "intent "@) {
        CommandView::Intent(argument(c, "intent "@))
    } else if c == "inspect system"@ {
        CommandView::InspectSystem
    } else if starts_with(c, "create directory "@) {
        directory_request(c)
    } else if c == "operations recover"@ {
        CommandView::OperationsRecover
    } else if starts_with(c, "operations approve "@) {
        CommandView::OperationsApprove(argument(c, "operations approve "@))
    } else if starts_with(c, "operations rollback "@) {
        CommandView::OperationsRollback(argument(c, "operations rollback "@))
    } else if c == "backend"@ || c == "backend list"@ {
        CommandView::BackendList
    } else if c == "backend info"@ {
        CommandView::BackendInfo
    } else if c == "backend status"@ {
        CommandView::BackendStatus
    } else if c == "models"@ {
        CommandView::Models
    } else if starts_with(c, "model inspect "@) {
        CommandView::ModelInspect(argument(c, "model inspect "@))
    } else if starts_with(c, "model load "@) {
        CommandView::ModelLoad(argument(c, "model load "@))
    } else if starts_with(c, "model unload "@) {
        CommandView::ModelUnload(argument(c, "model unload "@))
    } else if c == "model status"@ {
        CommandView::ModelStatus
    } else if starts_with(c, "tokenize "@) {
        CommandView::Tokenize(strip_all_prefix(c, "tokenize "@))
    } else if starts_with(c, "count "@) {
        CommandView::Count(argument(c, "count "@))
    } else if starts_with(c, "generate "@) || starts_with(c, "explain "@) {
        CommandView::Generate(
            strip_quotes(
                match after_char(c, ' ') {
                    Some(v) => v,
                    None => Seq::empty(),
                },
            ),
        )
    } else if starts_with(c, "complete "@) {
        CommandView::Complete(argument(c, "complete "@))
    } else if c == "hardware"@ {
        CommandView::Hardware
    } else if c == "history"@ {
        CommandView::History
    } else if c == "clear"@ {
        CommandView::Clear
    } else if c == "version"@ {
        CommandView::Version
    } else if c == "about"@ {
        CommandView::About
    } else if c == "exit"@ || c == "quit"@ {
        CommandView::Exit
    } else if c.len() == 0 {
        CommandView::Empty
    } else {
        CommandView::Unknown(c)
    }
}

/// The text after the first space of a line whose first space is at `k`.
proof fn lemma_after_first_space(s: Seq<char>, k: int)
    requires
        0 <= k < s.len(),
        s[k] == ' ',
        forall|i: int| 0 <= i < k ==> s[i] != ' ',
    ensures
        after_char(s, ' ') == Some(s.subrange(k + 1, s.len() as int)),
    decreases k,
{
    if k == 0 {
        assert(s.drop_first() =~= s.subrange(1, s.len() as int));
    } else {
        let t = s.drop_first();
        assert forall|i: int| 0 <= i < k - 1 implies t[i] != ' ' by {
            assert(t[i] == s[i + 1]);
        }
        lemma_after_first_space(t, k - 1);
        assert(t.subrange(k, t.len() as int) =~= s.subrange(k + 1, s.len() as int));
    }
}

/// No earlier command form matches a line whose first character is `c[0]`
/// when that character starts none of them.
proof fn lemma_no_earlier_form(c: Seq<char>)
    requires
        c.len() > 0,
        c[0] == 'g' || c[0] == 'e',
    ensures
        c != "help"@,
        c != "status"@,
        c != "runtime"@,
        c != "health"@,
        c != "inspect system"@,
        c != "operations recover"@,
        c != "backend"@,
        c != "backend list"@,
        c != "backend info"@,
        c != "backend status"@,
        c != "models"@,
        c != "model status"@,
        !starts_with(c, "intent "@),
        !starts_with(c, "create directory "@),
        !starts_with(c, "operations approve "@),
        !starts_with(c, "operations rollback "@),
        !starts_with(c, "model inspect "@),
        !starts_with(c, "model load "@),
        !starts_with(c, "model unload "@),
        !starts_with(c, "tokenize "@),
        !starts_with(c, "count "@),
{
    reveal_strlit("help");
    reveal_strlit("status");
    reveal_strlit("runtime");
    reveal_strlit("health");
    reveal_strlit("inspect system");
    reveal_strlit("operations recover");
    reveal_strlit("backend");
    reveal_strlit("backend list");
    reveal_strlit("backend info");
    reveal_strlit("backend status");
    reveal_strlit("models");
    reveal_strlit("model status");
    reveal_strlit("intent ");
    reveal_strlit("create directory ");
    reveal_strlit("operations approve ");
    reveal_strlit("operations rollback ");
    reveal_strlit("model inspect ");
    reveal_strlit("model load ");
    reveal_strlit("model unload ");
    reveal_strlit("tokenize ");
    reveal_strlit("count ");
    assert("help"@[0] != c[0]);
    assert("status"@[0] != c[0]);
    assert("runtime"@[0] != c[0]);
    assert("health"@[0] != c[0]);
    assert("inspect system"@[0] != c[0]);
    assert("operations recover"@[0] != c[0]);
    assert("backend"@[0] != c[0]);
    assert("backend list"@[0] != c[0]);
    assert("backend info"@[0] != c[0]);
    assert("backend status"@[0] != c[0]);
    assert("models"@[0] != c[0]);
    assert("model status"@[0] != c[0]);
    if starts_with(c, "intent "@) {
        assert(c.subrange(0, "intent "@.len() as int)[0] == c[0]);
    }
    if starts_with(c, "create directory "@) {
        assert(c.subrange(0, "create directory "@.len() as int)[0] == c[0]);
    }
    if starts_with(c, "operations approve "@) {
        assert(c.subrange(0, "operations approve "@.len() as int)[0] == c[0]);
    }
    if starts_with(c, "operations rollback "@) {
        assert(c.subrange(0, "operations rollback "@.len() as int)[0] == c[0]);
    }
    if starts_with(c, "model inspect "@) {
        assert(c.subrange(0, "model inspect "@.len() as int)[0] == c[0]);
    }
    if starts_with(c, "model load "@) {
        assert(c.subrange(0, "model load "@.len() as int)[0] == c[0]);
    }
    if starts_with(c, "model unload "@) {
        assert(c.subrange(0, "model unload "@.len() as int)[0] == c[0]);
    }
    if starts_with(c, "tokenize "@) {
        assert(c.subrange(0, "tokenize "@.len() as int)[0] == c[0]);
    }
    if starts_with(c, "count "@) {
        assert(c.subrange(0, "count "@.len() as int)[0] == c[0]);
    }
    assert("intent "@[0] != c[0]);
    assert("create directory "@[0] != c[0]);
    assert("operations approve "@[0] != c[0]);
    assert("operations rollback "@[0] != c[0]);
    assert("model inspect "@[0] != c[0]);
    assert("model load "@[0] != c[0]);
    assert("model unload "@[0] != c[0]);
    assert("tokenize "@[0] != c[0]);
    assert("count "@[0] != c[0]);
}

/// A trimmed line that starts with `generate ` asks to generate from the
/// rest of the line after that word, its surrounding quotes removed; one
/// that starts with `explain ` does the same.
pub proof fn lemma_generate_lines(c: Seq<char>)
    ensures
        starts_with(c, "generate "@) ==> command_of(c) == CommandView::Generate(
            strip_quotes(c.subrange(9, c.len() as int)),
        ),
        starts_with(c, "explain "@) ==> command_of(c) == CommandView::Generate(
            strip_quotes(c.subrange(8, c.len() as int)),
        ),
{
    reveal_strlit("generate ");
    reveal_strlit("explain ");
    if starts_with(c, "generate "@) {
        assert(c.subrange(0, 9) == "generate "@);
        assert forall|i: int| 0 <= i < 8 implies c[i] != ' ' by {
            assert(c[i] == c.subrange(0, 9)[i]);
        }
        assert(c[8] == c.subrange(0, 9)[8]);
        assert(c[0] == c.subrange(0, 9)[0]);
        lemma_after_first_space(c, 8);
        lemma_no_earlier_form(c);
    }
    if starts_with(c, "explain "@) {
        assert(c.subrange(0, 8) == "explain "@);
        assert forall|i: int| 0 <= i < 7 implies c[i] != ' ' by {
            assert(c[i] == c.subrange(0, 8)[i]);
        }
        assert(c[7] == c.subrange(0, 8)[7]);
        assert(c[0] == c.subrange(0, 8)[0]);
        assert(!starts_with(c, "generate "@)) by {
            reveal_strlit("generate ");
            assert(c.subrange(0, 8)[0] == 'e');
        }
        lemma_after_first_space(c, 7);
        lemma_no_earlier_form(c);
    }
}

/// The lifecycle action of a command.
pub open spec fn action_of(c: CommandView) -> CommandAction {
    match c {
        CommandView::Clear => CommandAction::Clear,
        CommandView::Exit => CommandAction::Exit,
        _ => CommandAction::Continue,
    }
}

/// The text after every repetition of a command word, trimmed.
fn argument_of(c: &str, word: &str) -> (r: String)
    ensures
        r@ == argument(c@, word@),
{
    let rest = trim_start_matches(c, word);
    trim_str(rest.as_str())
}

/// Read a prompt line as a command: the line is trimmed, then matched
/// against the built-in forms in order.
pub fn parse_command(input: &str) -> (r: ConsoleCommand)
    ensures
        r@ == command_of(trim(trim(input@))),
{
    let parsed = FoundationParser.parse(trim_str(input).as_str());
    let owned = trim_str(parsed.text.as_str());
    let c = owned.as_str();
    if str_eq(c, "help") {
        ConsoleCommand::Help
    } else if str_eq(c, "status") || str_eq(c, "runtime") {
        ConsoleCommand::Status
    } else if str_eq(c, "health") {
        ConsoleCommand::Health
    } else if str_starts_with(c, "intent ") {
        ConsoleCommand::Intent(argument_of(c, "intent "))
    } else if str_eq(c, "inspect system") {
        ConsoleCommand::InspectSystem
    } else if str_starts_with(c, "create directory ") {
        let a = argument_of(c, "create directory ");
        let approved = str_ends_with(a.as_str(), " --approve");
        let path = if approved {
            let t = trim_end_matches(a.as_str(), " --approve");
            trim_str(t.as_str())
        } else {
            a
        };
        ConsoleCommand::CreateDirectory { path, approved }
    } else if str_eq(c, "operations recover") {
        ConsoleCommand::OperationsRecover
    } else if str_starts_with(c, "operations approve ") {
        ConsoleCommand::OperationsApprove(argument_of(c, "operations approve "))
    } else if str_starts_with(c, "operations rollback ") {
        ConsoleCommand::OperationsRollback(argument_of(c, "operations rollback "))
    } else if str_eq(c, "backend") || str_eq(c, "backend list") {
        ConsoleCommand::BackendList
    } else if str_eq(c, "backend info") {
        ConsoleCommand::BackendInfo
    } else if str_eq(c, "backend status") {
        ConsoleCommand::BackendStatus
    } else if str_eq(c, "models") {
        ConsoleCommand::Models
    } else if str_starts_with(c, "model inspect ") {
        ConsoleCommand::ModelInspect(argument_of(c, "model inspect "))
    } else if str_starts_with(c, "model load ") {
        ConsoleCommand::ModelLoad(argument_of(c, "model load "))
    } else if str_starts_with(c, "model unload ") {
        ConsoleCommand::ModelUnload(argument_of(c, "model unload "))
    } else if str_eq(c, "model status") {
        ConsoleCommand::ModelStatus
    } else if str_starts_with(c, "tokenize ") {
        ConsoleCommand::Tokenize(trim_start_matches(c, "tokenize "))
    } else if str_starts_with(c, "count ") {
        ConsoleCommand::Count(argument_of(c, "count "))
    } else if str_starts_with(c, "generate ") || str_starts_with(c, "explain ") {
        let value = match split_once_after(c, ' ') {
            Some(v) => v,
            None => String::new(),
        };
        let unquoted = trim_start_matches(value.as_str(), "\"");
        ConsoleCommand::Generate(trim_end_matches(unquoted.as_str(), "\""))
    } else if str_starts_with(c, "complete ") {
        ConsoleCommand::Complete(argument_of(c, "complete "))
    } else if str_eq(c, "hardware") {
        ConsoleCommand::Hardware
    } else if str_eq(c, "history") {
        ConsoleCommand::History
    } else if str_eq(c, "clear") {
        ConsoleCommand::Clear
    } else if str_eq(c, "version") {
        ConsoleCommand::Version
    } else if str_eq(c, "about") {
        ConsoleCommand::About
    } else if str_eq(c, "exit") || str_eq(c, "quit") {
        ConsoleCommand::Exit
    } else if c.unicode_len() == 0 {
        ConsoleCommand::Empty
    } else {
        ConsoleCommand::Unknown(owned.clone())
    }
}

/// The lifecycle action a command requests.
pub fn command_action(command: &ConsoleCommand) -> (a: CommandAction)
    ensures
        a == action_of(command@),
{
    match command {
        ConsoleCommand::Clear => CommandAction::Clear,
        ConsoleCommand::Exit => CommandAction::Exit,
        _ => CommandAction::Continue,
    }
}


/// The text of an optional value, or a stand-in when it is absent.
pub open spec fn or_text(v: Option<Seq<char>>, absent: Seq<char>) -> Seq<char> {
    match v {
        Some(t) => t,
        None => absent,
    }
}

/// The text of an optional string.
pub open spec fn opt_view(v: Option<String>) -> Option<Seq<char>> {
    match v {
        Some(t) => Some(t@),
        None => None,
    }
}

/// Copy of an optional string, or a stand-in when it is absent.
fn text_or(v: &Option<String>, absent: &str) -> (r: String)
    ensures
        r@ == or_text(opt_view(*v), absent@),
{
    match v {
        Some(t) => t.clone(),
        None => absent.to_string(),
    }
}

/// The help text.
pub open spec fn help_text() -> Seq<Seq<char>> {
    seq![
        "Commands:"@,
        "OID commands:"@,
        "  :help     Show this help"@,
        "  :status   Show runtime status"@,
        "  :runtime  Show runtime service details"@,
        "  :models   List registered model metadata"@,
        "  :intent <description>  Record an intent"@,
        "  :operations recover|approve|rollback  Manage operations"@,
        "  :quit     Shut down the console"@,
    ]
}

/// The help lines.
pub fn help_lines() -> (r: Vec<String>)
    ensures
        views(r@) == help_text(),
{
    let mut r: Vec<String> = Vec::new();
    r.push("Commands:".to_string());
    r.push("OID commands:".to_string());
    r.push("  :help     Show this help".to_string());
    r.push("  :status   Show runtime status".to_string());
    r.push("  :runtime  Show runtime service details".to_string());
    r.push("  :models   List registered model metadata".to_string());
    r.push("  :intent <description>  Record an intent".to_string());
    r.push("  :operations recover|approve|rollback  Manage operations".to_string());
    r.push("  :quit     Shut down the console".to_string());
    proof {
        assert(views(r@) =~= help_text());
    }
    r
}

/// The runtime summary of a snapshot.
pub open spec fn runtime_text(s: RuntimeSnapshot) -> Seq<Seq<char>> {
    seq![
        "Runtime : "@ + s.health@,
        "Backend : "@ + s.backend@,
        "Model   : "@ + or_text(opt_view(s.loaded_model), "None"@),
        "Models  : "@ + decimal(s.models as nat),
        "Memory  : "@ + s.memory@,
        "Uptime  : "@ + decimal(s.uptime_seconds as nat) + "s"@,
    ]
}

/// The runtime summary lines.
pub fn runtime_lines(snapshot: &RuntimeSnapshot) -> (r: Vec<String>)
    ensures
        views(r@) == runtime_text(*snapshot),
{
    let mut r: Vec<String> = Vec::new();
    r.push(concat("Runtime : ", snapshot.health));
    r.push(concat("Backend : ", snapshot.backend.as_str()));
    r.push(concat("Model   : ", text_or(&snapshot.loaded_model, "None").as_str()));
    r.push(concat("Models  : ", usize_to_string(snapshot.models).as_str()));
    r.push(concat("Memory  : ", snapshot.memory.as_str()));
    r.push(concat3("Uptime  : ", u64_to_string(snapshot.uptime_seconds).as_str(), "s"));
    proof {
        assert(views(r@) =~= runtime_text(*snapshot));
    }
    r
}

/// The health answer of a snapshot.
pub open spec fn health_text(s: RuntimeSnapshot) -> Seq<Seq<char>> {
    seq!["Runtime health: "@ + s.health@, "Active backend: "@ + s.backend@]
}

/// The health answer.
pub fn health_lines(snapshot: &RuntimeSnapshot) -> (r: Vec<String>)
    ensures
        views(r@) == health_text(*snapshot),
{
    let mut r: Vec<String> = Vec::new();
    r.push(concat("Runtime health: ", snapshot.health));
    r.push(concat("Active backend: ", snapshot.backend.as_str()));
    proof {
        assert(views(r@) =~= health_text(*snapshot));
    }
    r
}

/// One line of the backend list.
pub open spec fn backend_line(b: BackendSummary) -> Seq<char> {
    b.descriptor.id@ + " ("@ + b.descriptor.name@ + ") ["@ + (if b.enabled {
        "enabled"@
    } else {
        "disabled"@
    }) + (if b.active {
        ", active"@
    } else {
        ""@
    }) + "]"@
}

/// The backend list.
pub open spec fn backend_list_text(list: Seq<BackendSummary>) -> Seq<Seq<char>> {
    if list.len() == 0 {
        seq!["No backends registered."@]
    } else {
        list.map_values(|b: BackendSummary| backend_line(b))
    }
}

/// The backend list lines.
pub fn backend_lines(list: &[BackendSummary]) -> (r: Vec<String>)
    ensures
        views(r@) == backend_list_text(list@),
{
    let mut r: Vec<String> = Vec::new();
    if list.len() == 0 {
        r.push("No backends registered.".to_string());
        proof {
            assert(views(r@) =~= backend_list_text(list@));
        }
        return r;
    }
    let mut i: usize = 0;
    while i < list.len()
        invariant
            i <= list@.len(),
            r@.len() == i,
            forall|j: int| 0 <= j < i ==> (#[trigger] r@[j])@ == backend_line(list@[j]),
        decreases list@.len() - i,
    {
        let b = &list[i];
        let head = concat3(b.descriptor.id.as_str(), " (", b.descriptor.name.as_str());
        let state = if b.enabled {
            "enabled"
        } else {
            "disabled"
        };
        let marker = if b.active {
            ", active"
        } else {
            ""
        };
        let mid = concat3(head.as_str(), ") [", state);
        let line = concat3(mid.as_str(), marker, "]");
        r.push(line);
        i = i + 1;
    }
    proof {
        assert(views(r@) =~= backend_list_text(list@));
    }
    r
}

/// The backend information of a snapshot.
pub open spec fn backend_info_text(s: RuntimeSnapshot) -> Seq<Seq<char>> {
    seq![
        "Backend : "@ + s.backend@,
        "Version : "@ + or_text(opt_view(s.backend_version), "Unavailable"@),
        "Health  : "@ + s.health@,
    ]
}

/// The backend information lines.
pub fn backend_info_lines(snapshot: &RuntimeSnapshot) -> (r: Vec<String>)
    ensures
        views(r@) == backend_info_text(*snapshot),
{
    let mut r: Vec<String> = Vec::new();
    r.push(concat("Backend : ", snapshot.backend.as_str()));
    r.push(concat("Version : ", text_or(&snapshot.backend_version, "Unavailable").as_str()));
    r.push(concat("Health  : ", snapshot.health));
    proof {
        assert(views(r@) =~= backend_info_text(*snapshot));
    }
    r
}

/// The label of a backend health.
pub open spec fn health_label(h: BackendHealth) -> Seq<char> {
    match h {
        BackendHealth::Healthy => "Healthy"@,
        BackendHealth::Unavailable => "Unavailable"@,
        BackendHealth::Error(_) => "Error"@,
    }
}

/// The label of a backend health.
pub fn backend_health_label(health: &BackendHealth) -> (s: &'static str)
    ensures
        s@ == health_label(*health),
{
    match health {
        BackendHealth::Healthy => "Healthy",
        BackendHealth::Unavailable => "Unavailable",
        BackendHealth::Error(_) => "Error",
    }
}

/// The backend status answer: the active backend and its health, or
/// `Unavailable` when the backend reports none.
pub open spec fn backend_status_text(s: RuntimeSnapshot, health: Option<BackendHealth>) -> Seq<Seq<char>> {
    seq![
        "Active backend: "@ + s.backend@,
        "Health: "@ + match health {
            Some(h) => health_label(h),
            None => "Unavailable"@,
        },
    ]
}

/// The backend status lines.
pub fn backend_status_lines(snapshot: &RuntimeSnapshot, health: &Option<BackendHealth>) -> (r: Vec<String>)
    ensures
        views(r@) == backend_status_text(*snapshot, *health),
{
    let label = match health {
        Some(h) => backend_health_label(h),
        None => "Unavailable",
    };
    let mut r: Vec<String> = Vec::new();
    r.push(concat("Active backend: ", snapshot.backend.as_str()));
    r.push(concat("Health: ", label));
    proof {
        assert(views(r@) =~= backend_status_text(*snapshot, *health));
    }
    r
}

/// The description of a model.
pub open spec fn model_text(m: ModelView) -> Seq<Seq<char>> {
    seq![
        "ID              : "@ + m.id,
        "Name            : "@ + m.name,
        "Family          : "@ + m.family,
        "Backend         : "@ + m.backend,
        "Quantization    : "@ + m.quantization,
        "Context window  : "@ + decimal(m.context_window as nat),
        "Memory (MB)     : "@ + decimal(m.memory_requirement_mb as nat),
        "Capabilities    : "@ + join(m.capabilities, ", "@),
        "Status          : "@ + model_status_name(m.status),
        "Checksum        : "@ + or_text(m.checksum, "None"@),
        "Location        : "@ + m.location,
    ]
}

/// The description lines of a model.
pub fn model_lines_for(model: &ModelMetadata) -> (r: Vec<String>)
    ensures
        views(r@) == model_text(model@),
{
    let mut r: Vec<String> = Vec::new();
    r.push(concat("ID              : ", model.id.as_str()));
    r.push(concat("Name            : ", model.name.as_str()));
    r.push(concat("Family          : ", model.family.as_str()));
    r.push(concat("Backend         : ", model.backend.as_str()));
    r.push(concat("Quantization    : ", model.quantization.as_str()));
    r.push(concat("Context window  : ", u64_to_string(model.context_window).as_str()));
    r.push(concat("Memory (MB)     : ", u64_to_string(model.memory_requirement_mb).as_str()));
    r.push(concat("Capabilities    : ", join_strings(&model.capabilities, ", ").as_str()));
    r.push(concat("Status          : ", model.status.name()));
    r.push(concat("Checksum        : ", text_or(&model.checksum, "None").as_str()));
    r.push(concat("Location        : ", model.location.as_str()));
    proof {
        assert(views(r@) =~= model_text(model@));
    }
    r
}

/// The model list: the identifier line of each model.
pub open spec fn model_list_text(models: Seq<ModelMetadata>) -> Seq<Seq<char>> {
    if models.len() == 0 {
        seq!["No models registered."@]
    } else {
        models.map_values(|m: ModelMetadata| "ID              : "@ + m.id@)
    }
}

/// The model list lines.
pub fn model_lines(models: &[ModelMetadata]) -> (r: Vec<String>)
    ensures
        views(r@) == model_list_text(models@),
{
    let mut r: Vec<String> = Vec::new();
    if models.len() == 0 {
        r.push("No models registered.".to_string());
        proof {
            assert(views(r@) =~= model_list_text(models@));
        }
        return r;
    }
    let mut i: usize = 0;
    while i < models.len()
        invariant
            i <= models@.len(),
            r@.len() == i,
            forall|j: int| 0 <= j < i ==> (#[trigger] r@[j])@ == "ID              : "@ + models@[j].id@,
        decreases models@.len() - i,
    {
        r.push(concat("ID              : ", models[i].id.as_str()));
        i = i + 1;
    }
    proof {
        assert(views(r@) =~= model_list_text(models@));
    }
    r
}

/// The answer to `model inspect`: the model's description, or that it is
/// unknown.
pub open spec fn model_inspect_text(id: Seq<char>, found: Option<ModelMetadata>) -> Seq<Seq<char>> {
    match found {
        Some(m) => model_text(m@),
        None => seq!["Model not found: "@ + id],
    }
}

/// The answer lines to `model inspect`.
pub fn model_inspect_lines(id: &str, found: &Option<ModelMetadata>) -> (r: Vec<String>)
    ensures
        views(r@) == model_inspect_text(id@, *found),
{
    match found {
        Some(m) => model_lines_for(m),
        None => {
            let mut r: Vec<String> = Vec::new();
            r.push(concat("Model not found: ", id));
            proof {
                assert(views(r@) =~= model_inspect_text(id@, *found));
            }
            r
        },
    }
}

/// Whole mebibytes of a byte count, or `--` when unknown.
pub open spec fn bytes_text(bytes: Option<u64>) -> Seq<char> {
    match bytes {
        Some(b) => decimal((b / 1048576) as nat) + " MB"@,
        None => "--"@,
    }
}

/// Format a byte count as whole mebibytes.
pub fn format_bytes(bytes: Option<u64>) -> (s: String)
    ensures
        s@ == bytes_text(bytes),
{
    match bytes {
        Some(b) => concat(u64_to_string(b / 1048576).as_str(), " MB"),
        None => "--".to_string(),
    }
}

/// The hardware description of a snapshot.
pub open spec fn hardware_text(h: HardwareSnapshot) -> Seq<Seq<char>> {
    seq![
        "Operating system : "@ + h.operating_system@,
        "Architecture     : "@ + h.architecture@,
        "CPU              : "@ + h.cpu@,
        "Logical cores    : "@ + decimal(h.logical_cores as nat),
        "Physical cores   : "@ + match h.physical_cores {
            Some(c) => decimal(c as nat),
            None => "--"@,
        },
        "Installed RAM    : "@ + bytes_text(h.installed_ram_bytes),
        "Available RAM    : "@ + bytes_text(h.available_ram_bytes),
        "SIMD             : "@ + (if h.simd_capabilities@.len() == 0 {
            "None"@
        } else {
            join(views(h.simd_capabilities@), ", "@)
        }),
        "GPU              : "@ + or_text(opt_view(h.gpu), "Not implemented"@),
        "NPU              : "@ + or_text(opt_view(h.npu), "Not implemented"@),
    ]
}

/// The hardware description lines.
pub fn hardware_lines(hardware: &HardwareSnapshot) -> (r: Vec<String>)
    ensures
        views(r@) == hardware_text(*hardware),
{
    let physical = match hardware.physical_cores {
        Some(c) => usize_to_string(c),
        None => "--".to_string(),
    };
    let simd = if hardware.simd_capabilities.len() == 0 {
        "None".to_string()
    } else {
        join_strings(&hardware.simd_capabilities, ", ")
    };
    let mut r: Vec<String> = Vec::new();
    r.push(concat("Operating system : ", hardware.operating_system.as_str()));
    r.push(concat("Architecture     : ", hardware.architecture.as_str()));
    r.push(concat("CPU              : ", hardware.cpu.as_str()));
    r.push(concat("Logical cores    : ", usize_to_string(hardware.logical_cores).as_str()));
    r.push(concat("Physical cores   : ", physical.as_str()));
    r.push(concat("Installed RAM    : ", format_bytes(hardware.installed_ram_bytes).as_str()));
    r.push(concat("Available RAM    : ", format_bytes(hardware.available_ram_bytes).as_str()));
    r.push(concat("SIMD             : ", simd.as_str()));
    r.push(concat("GPU              : ", text_or(&hardware.gpu, "Not implemented").as_str()));
    r.push(concat("NPU              : ", text_or(&hardware.npu, "Not implemented").as_str()));
    proof {
        assert(views(r@) =~= hardware_text(*hardware));
    }
    r
}

/// The answer to an operation without a value: the success message, or the
/// error.
pub open spec fn unit_result_text(result: Result<(), RuntimeError>, success: Seq<char>) -> Seq<Seq<char>> {
    match result {
        Ok(()) => seq![success],
        Err(e) => seq!["Error: "@ + runtime_error_text(e)],
    }
}

/// The answer lines to an operation without a value.
pub fn operation_result_unit(result: &Result<(), RuntimeError>, success: &str) -> (r: Vec<String>)
    ensures
        views(r@) == unit_result_text(*result, success@),
{
    let mut r: Vec<String> = Vec::new();
    match result {
        Ok(()) => r.push(success.to_string()),
        Err(e) => r.push(concat("Error: ", e.to_text().as_str())),
    }
    proof {
        assert(views(r@) =~= unit_result_text(*result, success@));
    }
    r
}

/// The answer to a counting operation: the label and the count, or the
/// error.
pub open spec fn count_result_text(result: Result<usize, RuntimeError>, label: Seq<char>) -> Seq<Seq<char>> {
    match result {
        Ok(n) => seq![label + ": "@ + decimal(n as nat)],
        Err(e) => seq!["Error: "@ + runtime_error_text(e)],
    }
}

/// The answer lines to a counting operation.
pub fn operation_result_count(result: &Result<usize, RuntimeError>, label: &str) -> (r: Vec<String>)
    ensures
        views(r@) == count_result_text(*result, label@),
{
    let mut r: Vec<String> = Vec::new();
    match result {
        Ok(n) => r.push(concat3(label, ": ", usize_to_string(*n).as_str())),
        Err(e) => r.push(concat("Error: ", e.to_text().as_str())),
    }
    proof {
        assert(views(r@) =~= count_result_text(*result, label@));
    }
    r
}

/// The answer to a flow that yields lines: its lines, or the failure
/// message after the flow's prefix.
pub open spec fn flow_text(result: Result<Seq<Seq<char>>, Seq<char>>, failure: Seq<char>) -> Seq<Seq<char>> {
    match result {
        Ok(lines) => lines,
        Err(e) => seq![failure + e],
    }
}

/// The plain values of a flow's result.
pub open spec fn flow_view(r: Result<Vec<String>, String>) -> Result<Seq<Seq<char>>, Seq<char>> {
    match r {
        Ok(v) => Ok(views(v@)),
        Err(e) => Err(e@),
    }
}

/// The plain values of a generation's result.
pub open spec fn generation_view(r: Result<Vec<String>, RuntimeError>) -> Result<Seq<Seq<char>>, RuntimeError> {
    match r {
        Ok(v) => Ok(views(v@)),
        Err(e) => Err(e),
    }
}

/// The lines of a flow, or its failure message.
pub fn flow_lines(result: Result<Vec<String>, String>, failure: &str) -> (r: Vec<String>)
    ensures
        views(r@) == flow_text(flow_view(result), failure@),
{
    match result {
        Ok(v) => v,
        Err(e) => {
            let mut r: Vec<String> = Vec::new();
            r.push(concat(failure, e.as_str()));
            proof {
                assert(views(r@) =~= seq![failure@ + e@]);
            }
            r
        },
    }
}


/// The work of the console that leaves the process: governed operations,
/// files and model generation.
pub trait ConsoleHost {
    /// `outcome` is what the system health flow gave, for this host. A host
    /// that keeps no record relates every call to every outcome, here and
    /// below.
    closed spec fn inspected(&self, outcome: Result<Seq<Seq<char>>, Seq<char>>) -> bool {
        true
    }
    /// Run the system health flow; its lines or its failure message.
    fn inspect_system(&mut self) -> (r: Result<Vec<String>, String>)
        ensures
            final(self).inspected(flow_view(r)),
    ;
    /// `outcome` is what the directory flow for `path`, approved or not,
    /// gave, for this host.
    closed spec fn directory_flow(&self, path: Seq<char>, approved: bool, outcome: Result<Seq<Seq<char>>, Seq<char>>) -> bool {
        true
    }
    /// Run the directory flow; its lines or its failure message.
    fn create_directory(&mut self, path: &str, approved: bool) -> (r: Result<Vec<String>, String>)
        ensures
            final(self).directory_flow(path@, approved, flow_view(r)),
    ;
    /// `outcome` is what listing the recoverable operations gave.
    closed spec fn recovered(&self, outcome: Result<Seq<Seq<char>>, Seq<char>>) -> bool {
        true
    }
    /// List recoverable operations.
    fn recover(&mut self) -> (r: Result<Vec<String>, String>)
        ensures
            final(self).recovered(flow_view(r)),
    ;
    /// `outcome` is what approving the operation `id` gave.
    closed spec fn approved_operation(&self, id: Seq<char>, outcome: Result<Seq<Seq<char>>, Seq<char>>) -> bool {
        true
    }
    /// Approve a recoverable operation.
    fn approve(&mut self, id: &str) -> (r: Result<Vec<String>, String>)
        ensures
            final(self).approved_operation(id@, flow_view(r)),
    ;
    /// `outcome` is what rolling back the operation `id` gave.
    closed spec fn rolled_back(&self, id: Seq<char>, outcome: Result<Seq<Seq<char>>, Seq<char>>) -> bool {
        true
    }
    /// Roll back an operation.
    fn rollback(&mut self, id: &str) -> (r: Result<Vec<String>, String>)
        ensures
            final(self).rolled_back(id@, flow_view(r)),
    ;
    /// `outcome` is what reading the text file at `path` gave.
    closed spec fn read(&self, path: Seq<char>, outcome: Result<String, String>) -> bool {
        true
    }
    /// Read a text file.
    fn read_text(&self, path: &str) -> (r: Result<String, String>)
        ensures
            self.read(path@, r),
    ;
    /// `outcome` is what generating from `prompt` gave.
    closed spec fn generated(&self, prompt: Seq<char>, outcome: Result<Seq<Seq<char>>, RuntimeError>) -> bool {
        true
    }
    /// Generate from a prompt with the loaded model; the streamed lines.
    fn generate(&mut self, prompt: &str) -> (r: Result<Vec<String>, RuntimeError>)
        ensures
            final(self).generated(prompt@, generation_view(r)),
    ;
}

/// The answer of a generation: its lines, or the error.
pub open spec fn generation_text(result: Result<Seq<Seq<char>>, RuntimeError>) -> Seq<Seq<char>> {
    match result {
        Ok(lines) => lines,
        Err(e) => seq!["Error: "@ + runtime_error_text(e)],
    }
}

/// The answer of a command that needs no runtime, host or history facts.
pub open spec fn fixed_output(c: CommandView) -> Option<Seq<Seq<char>>> {
    match c {
        CommandView::Help => Some(help_text()),
        CommandView::Intent(t) => Some(seq!["Intent recorded: "@ + t]),
        CommandView::Clear => Some(Seq::empty()),
        CommandView::Version => Some(seq!["AI Console v0.1"@]),
        CommandView::About => Some(seq!["AI Console is the reference client for the Intelligent Runtime."@]),
        CommandView::Exit => Some(seq!["Goodbye."@]),
        CommandView::Empty => Some(Seq::empty()),
        CommandView::Unknown(t) => Some(seq!["Unknown OID command: "@ + t + ". Type :help."@]),
        _ => None,
    }
}

/// The answer to the directory flow for `path`: what the host's flow gave.
pub open spec fn directory_answer<H: ConsoleHost>(host: H, path: Seq<char>, approved: bool, out: Seq<Seq<char>>) -> bool {
    exists|o: Result<Seq<Seq<char>>, Seq<char>>| #[trigger] host.directory_flow(path, approved, o) && out == flow_text(o, "Directory flow failed: "@)
}

/// The answer to approving the operation `id`: what the host's approval gave.
pub open spec fn approve_answer<H: ConsoleHost>(host: H, id: Seq<char>, out: Seq<Seq<char>>) -> bool {
    exists|o: Result<Seq<Seq<char>>, Seq<char>>| #[trigger] host.approved_operation(id, o) && out == flow_text(o, "Approval failed: "@)
}

/// The answer to rolling back the operation `id`: what the host's rollback
/// gave.
pub open spec fn rollback_answer<H: ConsoleHost>(host: H, id: Seq<char>, out: Seq<Seq<char>>) -> bool {
    exists|o: Result<Seq<Seq<char>>, Seq<char>>| #[trigger] host.rolled_back(id, o) && out == flow_text(o, "Rollback failed: "@)
}

/// The answer to inspecting the model `id`: what the runtime reported of it.
pub open spec fn inspect_answer<R: RuntimeService>(runtime: R, id: Seq<char>, out: Seq<Seq<char>>) -> bool {
    exists|f: Option<ModelMetadata>| #[trigger] runtime.model_reported(id, f) && out == model_inspect_text(id, f)
}

/// The answer to loading the model `id`: what the runtime's load gave.
pub open spec fn load_answer<R: RuntimeService>(runtime: R, id: Seq<char>, out: Seq<Seq<char>>) -> bool {
    exists|x: Result<(), RuntimeError>| #[trigger] runtime.loaded(id, x) && out == unit_result_text(x, "Model loaded: "@ + id)
}

/// The answer to unloading the model `id`: what the runtime's unload gave.
pub open spec fn unload_answer<R: RuntimeService>(runtime: R, id: Seq<char>, out: Seq<Seq<char>>) -> bool {
    exists|x: Result<(), RuntimeError>|
        #[trigger] runtime.unloaded(id, x) && out == unit_result_text(x, "Model unloaded: "@ + id)
}

/// The answer to counting the tokens of `text`: what the runtime's count
/// gave.
pub open spec fn tokenize_answer<R: RuntimeService>(runtime: R, text: Seq<char>, out: Seq<Seq<char>>) -> bool {
    exists|x: Result<usize, RuntimeError>| #[trigger] runtime.tokenized(text, x) && out == count_result_text(x, "Tokens"@)
}

/// The answer to generating from `prompt`: what the host's generation gave.
pub open spec fn generate_answer<H: ConsoleHost>(host: H, prompt: Seq<char>, out: Seq<Seq<char>>) -> bool {
    exists|g: Result<Seq<Seq<char>>, RuntimeError>| #[trigger] host.generated(prompt, g) && out == generation_text(g)
}

/// The answer to counting the tokens of the file at `path`: the host read
/// it, and the runtime counted its text; or the read failed.
pub open spec fn count_answer<R: RuntimeService, H: ConsoleHost>(runtime: R, host: H, path: Seq<char>, out: Seq<Seq<char>>) -> bool {
    exists|rd: Result<String, String>|
        #[trigger] host.read(path, rd) && match rd {
            Ok(text) => exists|x: Result<usize, RuntimeError>|
                #[trigger] runtime.tokenized(text@, x) && out == count_result_text(x, "Tokens in "@ + path),
            Err(m) => out == count_result_text(Err(RuntimeError::Persistence(m)), "Tokens in "@ + path),
        }
}

/// The answer to completing the file at `path`: the host read it (before),
/// then generated from its text (after); or the read failed.
pub open spec fn complete_answer<H: ConsoleHost>(before: H, after: H, path: Seq<char>, out: Seq<Seq<char>>) -> bool {
    exists|rd: Result<String, String>|
        #[trigger] before.read(path, rd) && match rd {
            Ok(text) => exists|g: Result<Seq<Seq<char>>, RuntimeError>|
                #[trigger] after.generated(text@, g) && out == generation_text(g),
            Err(m) => out == generation_text(Err(RuntimeError::Persistence(m))),
        }
}

/// Whether `out` is what the console answers to a command: each command
/// formats, as the formatter of this module for it says, what the runtime
/// reported and what the host gave for the command's arguments (`before`
/// and `after` are the host before and after the command).
pub open spec fn answers<R: RuntimeService, H: ConsoleHost>(
    c: CommandView,
    history: Seq<Seq<char>>,
    runtime: R,
    before: H,
    after: H,
    out: Seq<Seq<char>>,
) -> bool {
    match c {
        CommandView::Status => exists|s: RuntimeSnapshot| #[trigger] runtime.reported(s) && out == runtime_text(s),
        CommandView::Health => exists|s: RuntimeSnapshot| #[trigger] runtime.reported(s) && out == health_text(s),
        CommandView::InspectSystem => exists|o: Result<Seq<Seq<char>>, Seq<char>>|
            #[trigger] after.inspected(o) && out == flow_text(o, "Foundation flow failed: "@),
        CommandView::CreateDirectory { path, approved } => directory_answer(after, path, approved, out),
        CommandView::OperationsRecover => exists|o: Result<Seq<Seq<char>>, Seq<char>>|
            #[trigger] after.recovered(o) && out == flow_text(o, "Recovery failed: "@),
        CommandView::OperationsApprove(id) => approve_answer(after, id, out),
        CommandView::OperationsRollback(id) => rollback_answer(after, id, out),
        CommandView::BackendList => exists|l: Seq<BackendSummary>|
            #[trigger] runtime.listed_backends(l) && out == backend_list_text(l),
        CommandView::BackendInfo => exists|s: RuntimeSnapshot| #[trigger] runtime.reported(s) && out == backend_info_text(s),
        CommandView::BackendStatus => exists|s: RuntimeSnapshot, h: Option<BackendHealth>|
            #[trigger] runtime.reported(s) && #[trigger] runtime.backend_reported(s.backend@, h) && out
                == backend_status_text(s, h),
        CommandView::Models | CommandView::ModelStatus => exists|m: Seq<ModelMetadata>|
            #[trigger] runtime.listed_models(m) && out == model_list_text(m),
        CommandView::ModelInspect(id) => inspect_answer(runtime, id, out),
        CommandView::ModelLoad(id) => load_answer(runtime, id, out),
        CommandView::ModelUnload(id) => unload_answer(runtime, id, out),
        CommandView::Tokenize(text) => tokenize_answer(runtime, text, out),
        CommandView::Count(path) => count_answer(runtime, before, path, out),
        CommandView::Generate(prompt) => generate_answer(after, prompt, out),
        CommandView::Complete(path) => complete_answer(before, after, path, out),
        CommandView::Hardware => exists|h: HardwareSnapshot| #[trigger] runtime.hardware_reported(h) && out == hardware_text(h),
        CommandView::History => out == history,
        _ => fixed_output(c) == Some(out),
    }
}

/// One line.
fn single(line: String) -> (r: Vec<String>)
    ensures
        views(r@) == seq![line@],
{
    let mut r: Vec<String> = Vec::new();
    r.push(line);
    proof {
        assert(views(r@) =~= seq![line@]);
    }
    r
}

/// Copies of strings.
fn copy_lines(v: &[String]) -> (r: Vec<String>)
    ensures
        views(r@) == views(v@),
{
    let mut r: Vec<String> = Vec::new();
    let mut i: usize = 0;
    while i < v.len()
        invariant
            i <= v@.len(),
            r@.len() == i,
            forall|j: int| 0 <= j < i ==> (#[trigger] r@[j])@ == v@[j]@,
        decreases v@.len() - i,
    {
        r.push(v[i].clone());
        i = i + 1;
    }
    proof {
        assert(views(r@) =~= views(v@));
    }
    r
}

/// The lines of a generation, or its error.
fn generation_lines(result: Result<Vec<String>, RuntimeError>) -> (r: Vec<String>)
    ensures
        views(r@) == generation_text(generation_view(result)),
{
    match result {
        Ok(v) => v,
        Err(e) => single(concat("Error: ", e.to_text().as_str())),
    }
}

/// Tokens of a file: it is read, then its text counted.
fn count_file<R: RuntimeService, H: ConsoleHost>(path: &str, runtime: &R, host: &H) -> (r: Vec<String>)
    ensures
        count_answer(*runtime, *host, path@, views(r@)),
{
    let label = concat("Tokens in ", path);
    let read = host.read_text(path);
    let ghost rd = read;
    assert(host.read(path@, rd));
    match read {
        Ok(text) => {
            let res = runtime.tokenize(text.as_str());
            assert(runtime.tokenized(text@, res));
            operation_result_count(&res, label.as_str())
        },
        Err(msg) => {
            let res: Result<usize, RuntimeError> = Err(RuntimeError::Persistence(msg));
            operation_result_count(&res, label.as_str())
        },
    }
}

/// Generation from a file: it is read, then its text is the prompt.
fn complete_file<H: ConsoleHost>(path: &str, host: &mut H) -> (r: Vec<String>)
    ensures
        complete_answer(*old(host), *final(host), path@, views(r@)),
{
    let read = host.read_text(path);
    let ghost rd = read;
    assert(host.read(path@, rd));
    match read {
        Ok(text) => {
            let res = host.generate(text.as_str());
            let ghost g = generation_view(res);
            assert(host.generated(text@, g));
            generation_lines(res)
        },
        Err(msg) => generation_lines(Err(RuntimeError::Persistence(msg))),
    }
}

/// The answer lines of a command, from what the runtime reported and what
/// the host gave for the command's arguments.
#[verifier::rlimit(50)]
pub fn respond<R: RuntimeService, H: ConsoleHost>(
    command: &ConsoleCommand,
    history: &HistoryView,
    runtime: &R,
    host: &mut H,
) -> (r: Vec<String>)
    ensures
        answers(command@, history.lines(), *runtime, *old(host), *final(host), views(r@)),
{
    match command {
        ConsoleCommand::Help => help_lines(),
        ConsoleCommand::Status => {
            let s = runtime.snapshot();
            let r = runtime_lines(&s);
            assert(runtime.reported(s) && views(r@) == runtime_text(s));
            r
        },
        ConsoleCommand::Health => {
            let s = runtime.snapshot();
            let r = health_lines(&s);
            assert(runtime.reported(s) && views(r@) == health_text(s));
            r
        },
        ConsoleCommand::Intent(t) => single(concat("Intent recorded: ", t.as_str())),
        ConsoleCommand::InspectSystem => {
            let res = host.inspect_system();
            let ghost o = flow_view(res);
            let r = flow_lines(res, "Foundation flow failed: ");
            assert(host.inspected(o) && views(r@) == flow_text(o, "Foundation flow failed: "@));
            r
        },
        ConsoleCommand::CreateDirectory { path, approved } => {
            let res = host.create_directory(path.as_str(), *approved);
            let ghost o = flow_view(res);
            let r = flow_lines(res, "Directory flow failed: ");
            assert(host.directory_flow(path@, *approved, o) && views(r@) == flow_text(o, "Directory flow failed: "@));
            assert(directory_answer(*host, path@, *approved, views(r@)));
            r
        },
        ConsoleCommand::OperationsRecover => {
            let res = host.recover();
            let ghost o = flow_view(res);
            let r = flow_lines(res, "Recovery failed: ");
            assert(host.recovered(o) && views(r@) == flow_text(o, "Recovery failed: "@));
            r
        },
        ConsoleCommand::OperationsApprove(id) => {
            let res = host.approve(id.as_str());
            let ghost o = flow_view(res);
            let r = flow_lines(res, "Approval failed: ");
            assert(host.approved_operation(id@, o) && views(r@) == flow_text(o, "Approval failed: "@));
            assert(approve_answer(*host, id@, views(r@)));
            r
        },
        ConsoleCommand::OperationsRollback(id) => {
            let res = host.rollback(id.as_str());
            let ghost o = flow_view(res);
            let r = flow_lines(res, "Rollback failed: ");
            assert(host.rolled_back(id@, o) && views(r@) == flow_text(o, "Rollback failed: "@));
            assert(rollback_answer(*host, id@, views(r@)));
            r
        },
        ConsoleCommand::BackendList => {
            let l = runtime.backend_list();
            let r = backend_lines(l.as_slice());
            assert(runtime.listed_backends(l@) && views(r@) == backend_list_text(l@));
            r
        },
        ConsoleCommand::BackendInfo => {
            let s = runtime.snapshot();
            let r = backend_info_lines(&s);
            assert(runtime.reported(s) && views(r@) == backend_info_text(s));
            r
        },
        ConsoleCommand::BackendStatus => {
            let s = runtime.snapshot();
            let h = runtime.backend_health(s.backend.as_str());
            let r = backend_status_lines(&s, &h);
            assert(runtime.reported(s) && runtime.backend_reported(s.backend@, h) && views(r@) == backend_status_text(s, h));
            r
        },
        ConsoleCommand::Models | ConsoleCommand::ModelStatus => {
            let m = runtime.model_list();
            let r = model_lines(m.as_slice());
            assert(runtime.listed_models(m@) && views(r@) == model_list_text(m@));
            r
        },
        ConsoleCommand::ModelInspect(id) => {
            let f = runtime.model_inspect(id.as_str());
            let r = model_inspect_lines(id.as_str(), &f);
            assert(runtime.model_reported(id@, f) && views(r@) == model_inspect_text(id@, f));
            assert(inspect_answer(*runtime, id@, views(r@)));
            r
        },
        ConsoleCommand::ModelLoad(id) => {
            let res = runtime.model_load(id.as_str());
            let r = operation_result_unit(&res, concat("Model loaded: ", id.as_str()).as_str());
            assert(runtime.loaded(id@, res) && views(r@) == unit_result_text(res, "Model loaded: "@ + id@));
            assert(load_answer(*runtime, id@, views(r@)));
            r
        },
        ConsoleCommand::ModelUnload(id) => {
            let res = runtime.model_unload(id.as_str());
            let r = operation_result_unit(&res, concat("Model unloaded: ", id.as_str()).as_str());
            assert(runtime.unloaded(id@, res) && views(r@) == unit_result_text(res, "Model unloaded: "@ + id@));
            assert(unload_answer(*runtime, id@, views(r@)));
            r
        },
        ConsoleCommand::Tokenize(text) => {
            let res = runtime.tokenize(text.as_str());
            let r = operation_result_count(&res, "Tokens");
            assert(runtime.tokenized(text@, res) && views(r@) == count_result_text(res, "Tokens"@));
            assert(tokenize_answer(*runtime, text@, views(r@)));
            r
        },
        ConsoleCommand::Count(path) => count_file(path.as_str(), runtime, host),
        ConsoleCommand::Generate(prompt) => {
            let res = host.generate(prompt.as_str());
            let ghost g = generation_view(res);
            let r = generation_lines(res);
            assert(host.generated(prompt@, g) && views(r@) == generation_text(g));
            assert(generate_answer(*host, prompt@, views(r@)));
            r
        },
        ConsoleCommand::Complete(path) => complete_file(path.as_str(), host),
        ConsoleCommand::Hardware => {
            let h = runtime.hardware();
            let r = hardware_lines(&h);
            assert(runtime.hardware_reported(h) && views(r@) == hardware_text(h));
            r
        },
        ConsoleCommand::History => copy_lines(history.entries()),
        ConsoleCommand::Clear => {
            let r: Vec<String> = Vec::new();
            assert(views(r@) =~= Seq::<Seq<char>>::empty());
            r
        },
        ConsoleCommand::Version => single("AI Console v0.1".to_string()),
        ConsoleCommand::About => single("AI Console is the reference client for the Intelligent Runtime.".to_string()),
        ConsoleCommand::Exit => single("Goodbye.".to_string()),
        ConsoleCommand::Empty => {
            let r: Vec<String> = Vec::new();
            assert(views(r@) =~= Seq::<Seq<char>>::empty());
            r
        },
        ConsoleCommand::Unknown(c) => single(concat3("Unknown OID command: ", c.as_str(), ". Type :help.")),
    }
}

/// Process a prompt line: read it as a command, answer it from the
/// runtime's and the host's facts, and say whether the console goes on,
/// clears the screen or stops.
pub fn execute_with_operations<R: RuntimeService, H: ConsoleHost>(
    input: &str,
    history: &HistoryView,
    runtime: &R,
    host: &mut H,
) -> (r: CommandResult)
    ensures
        r.action == action_of(command_of(trim(trim(input@)))),
        answers(command_of(trim(trim(input@))), history.lines(), *runtime, *old(host), *final(host), views(r.output@)),
{
    let command = parse_command(input);
    let output = respond(&command, history, runtime, host);
    CommandResult { output, action: command_action(&command) }
}

} // verus!

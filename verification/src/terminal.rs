//! The interactive console's terminal pieces: input routing, the adaptive
//! presence cursor, the prompt, the status bar line and the banners.
use vstd::prelude::*;
use crate::shared::{LifecycleState, RuntimeEvent};
use crate::runtime::RuntimeSnapshot;
use crate::operation::{join, join_strings};
use crate::text::{trim, starts_with, decimal, concat, concat3, split_char, split_spec, str_eq, str_starts_with,
    strip_prefix, trim_str, u64_to_string, views, to_chars, slice_to_string};

verus! {

/// The destination selected for one submitted line.
#[derive(Clone, Debug, Eq, PartialEq)]
pub enum InputRoute {
    /// An OID command without its leading colon.
    Oid(String),
    /// A command to execute through the configured shell.
    Shell(String),
}

/// Routes explicit OID commands and ordinary shell input.
#[derive(Clone, Debug, Default)]
pub struct InputRouter;

impl InputRouter {
    /// Classify input by the explicit `:` namespace: the trimmed line is a
    /// shell command unless it starts with `:`, in which case the rest,
    /// trimmed, is an OID command.
    pub fn route(&self, input: &str) -> (r: InputRoute)
        ensures
            ({
                let t = trim(input@);
                if t.len() > 0 && t[0] == ':' {
                    r matches InputRoute::Oid(c) && c@ == trim(t.drop_first())
                } else {
                    r matches InputRoute::Shell(c) && c@ == t
                }
            }),
    {
        let t = trim_str(input);
        match strip_prefix(t.as_str(), ":") {
            Some(rest) => {
                proof {
                    reveal_strlit(":");
                    assert(t@.subrange(0, 1)[0] == t@[0]);
                    assert(":"@[0] == ':');
                    assert(t@.subrange(1, t@.len() as int) =~= t@.drop_first());
                }
                InputRoute::Oid(trim_str(rest.as_str()))
            },
            None => {
                proof {
                    reveal_strlit(":");
                    if t@.len() > 0 && t@[0] == ':' {
                        assert(t@.subrange(0, 1) =~= ":"@);
                    }
                }
                InputRoute::Shell(t)
            },
        }
    }
}

/// Semantic presence state represented by the prompt cursor.
#[derive(Clone, Copy, Debug, Eq, PartialEq)]
pub enum PresenceState {
    /// Ready for input.
    Idle,
    /// User is editing input.
    Typing,
    /// Runtime is processing a command.
    Busy,
    /// Runtime output is arriving.
    Streaming,
    /// Runtime is waiting for explicit approval.
    Waiting,
    /// Runtime reported a recoverable issue.
    Warning,
    /// Runtime reported an error.
    Error,
    /// Runtime or backend is unavailable.
    Offline,
}

/// The presence after a runtime event: lifecycle, input, command, thinking,
/// streaming, approval, warning and error events set it; backend, model,
/// hardware and other lifecycle events leave it as it was.
pub open spec fn presence_after(state: PresenceState, event: RuntimeEvent) -> PresenceState {
    match event {
        RuntimeEvent::RuntimeStarted | RuntimeEvent::ConfigurationLoaded | RuntimeEvent::InputStopped
        | RuntimeEvent::ThinkingFinished | RuntimeEvent::StreamingStopped | RuntimeEvent::CommandCompleted(
            _,
        ) => PresenceState::Idle,
        RuntimeEvent::StateChanged(s) => match s {
            LifecycleState::Ready => PresenceState::Idle,
            LifecycleState::Stopped => PresenceState::Offline,
            _ => state,
        },
        RuntimeEvent::RuntimeStopped | RuntimeEvent::Offline => PresenceState::Offline,
        RuntimeEvent::InputStarted => PresenceState::Typing,
        RuntimeEvent::CommandStarted(_) | RuntimeEvent::ThinkingStarted | RuntimeEvent::ApprovalGranted => PresenceState::Busy,
        RuntimeEvent::StreamingStarted => PresenceState::Streaming,
        RuntimeEvent::ApprovalRequested => PresenceState::Waiting,
        RuntimeEvent::WarningRaised(_) => PresenceState::Warning,
        RuntimeEvent::ErrorRaised(_) => PresenceState::Error,
        _ => state,
    }
}

/// The cursor token of a presence.
pub open spec fn presence_token(state: PresenceState) -> Seq<char> {
    match state {
        PresenceState::Idle => "▋"@,
        PresenceState::Typing | PresenceState::Waiting => "▌"@,
        PresenceState::Busy => "█"@,
        PresenceState::Streaming => "▍"@,
        PresenceState::Warning => "▐"@,
        PresenceState::Error => "■"@,
        PresenceState::Offline => "□"@,
    }
}

/// Prompt presence controller driven by runtime events.
#[derive(Clone, Debug)]
pub struct PresenceIndicator {
    state: PresenceState,
}

impl PresenceIndicator {
    /// The current presence.
    pub closed spec fn presence(self) -> PresenceState {
        self.state
    }

    /// An idle indicator.
    pub fn new() -> (r: Self)
        ensures
            r.presence() == PresenceState::Idle,
    {
        PresenceIndicator { state: PresenceState::Idle }
    }

    /// The current semantic state.
    pub fn state(&self) -> (s: PresenceState)
        ensures
            s == self.presence(),
    {
        self.state
    }

    /// A subtle, theme-neutral cursor token.
    pub fn token(&self) -> (s: &'static str)
        ensures
            s@ == presence_token(self.presence()),
    {
        match self.state {
            PresenceState::Idle => "▋",
            PresenceState::Typing | PresenceState::Waiting => "▌",
            PresenceState::Busy => "█",
            PresenceState::Streaming => "▍",
            PresenceState::Warning => "▐",
            PresenceState::Error => "■",
            PresenceState::Offline => "□",
        }
    }

    /// Apply one runtime event.
    pub fn apply(&mut self, event: &RuntimeEvent)
        ensures
            final(self).presence() == presence_after(old(self).presence(), *event),
    {
        let next = match event {
            RuntimeEvent::RuntimeStarted | RuntimeEvent::ConfigurationLoaded | RuntimeEvent::InputStopped
            | RuntimeEvent::ThinkingFinished | RuntimeEvent::StreamingStopped | RuntimeEvent::CommandCompleted(
                _,
            ) => PresenceState::Idle,
            RuntimeEvent::StateChanged(s) => match s {
                LifecycleState::Ready => PresenceState::Idle,
                LifecycleState::Stopped => PresenceState::Offline,
                _ => self.state,
            },
            RuntimeEvent::RuntimeStopped | RuntimeEvent::Offline => PresenceState::Offline,
            RuntimeEvent::InputStarted => PresenceState::Typing,
            RuntimeEvent::CommandStarted(_) | RuntimeEvent::ThinkingStarted | RuntimeEvent::ApprovalGranted => PresenceState::Busy,
            RuntimeEvent::StreamingStarted => PresenceState::Streaming,
            RuntimeEvent::ApprovalRequested => PresenceState::Waiting,
            RuntimeEvent::WarningRaised(_) => PresenceState::Warning,
            RuntimeEvent::ErrorRaised(_) => PresenceState::Error,
            _ => self.state,
        };
        self.state = next;
    }
}


/// The normal components of the pieces of a path: empty pieces and `.` are
/// dropped, as `Path::components` drops repeated separators and inner `.`.
pub open spec fn normal_parts(pieces: Seq<Seq<char>>) -> Seq<Seq<char>>
    decreases pieces.len(),
{
    if pieces.len() == 0 {
        Seq::empty()
    } else {
        let rest = normal_parts(pieces.drop_last());
        let p = pieces.last();
        if p.len() == 0 || p == "."@ {
            rest
        } else {
            rest.push(p)
        }
    }
}

/// The components of a path as `Path::components` yields them: the root
/// `/` of an absolute path, or a leading `.` of a relative one, then the
/// normal components.
pub open spec fn path_components(s: Seq<char>) -> Seq<Seq<char>> {
    let pieces = split_spec(s, '/');
    if s.len() > 0 && s[0] == '/' {
        seq!["/"@] + normal_parts(pieces)
    } else if pieces[0] == "."@ {
        seq!["."@] + normal_parts(pieces)
    } else {
        normal_parts(pieces)
    }
}

/// The components of a path.
pub fn components(path: &str) -> (r: Vec<String>)
    ensures
        views(r@) == path_components(path@),
{
    let pieces = split_char(path, '/');
    let ghost ps = split_spec(path@, '/');
    proof {
        crate::text::lemma_split_nonempty(path@, '/');
    }
    let mut out: Vec<String> = Vec::new();
    let v = to_chars(path);
    if v.len() > 0 && v[0] == '/' {
        out.push("/".to_string());
    } else if str_eq(pieces[0].as_str(), ".") {
        out.push(".".to_string());
    }
    let ghost lead = views(out@);
    let mut i: usize = 0;
    while i < pieces.len()
        invariant
            pieces@.len() == ps.len(),
            forall|k: int| 0 <= k < pieces@.len() ==> (#[trigger] pieces@[k])@ == ps[k],
            i <= pieces@.len(),
            views(out@) == lead + normal_parts(ps.subrange(0, i as int)),
        decreases pieces@.len() - i,
    {
        proof {
            assert(ps.subrange(0, i + 1).drop_last() =~= ps.subrange(0, i as int));
        }
        let p = pieces[i].as_str();
        if !(p.unicode_len() == 0 || str_eq(p, ".")) {
            let ghost before = views(out@);
            out.push(p.to_string());
            proof {
                assert(views(out@) =~= before.push(p@));
            }
        }
        i = i + 1;
    }
    proof {
        assert(ps.subrange(0, ps.len() as int) =~= ps);
        assert(views(out@) =~= path_components(path@));
    }
    out
}

/// Longest prompt directory shown in full.
pub const MAX_DIRECTORY_LENGTH: usize = 42;

/// The directory as the prompt names it: below the home directory it is
/// `~` or `~/` and the components under home; else it is shown as it is.
pub open spec fn home_relative(directory: Seq<char>, home: Option<Seq<char>>) -> Seq<char> {
    match home {
        Some(h) => {
            let d = path_components(directory);
            let p = path_components(h);
            if p.len() <= d.len() && d.subrange(0, p.len() as int) == p {
                if d.len() == p.len() {
                    "~"@
                } else {
                    "~/"@ + join(d.subrange(p.len() as int, d.len() as int), "/"@)
                }
            } else {
                directory
            }
        },
        None => directory,
    }
}

/// The prompt's directory text: a long one is cut to its last two
/// components after `…/`.
pub open spec fn compact_spec(directory: Seq<char>, home: Option<Seq<char>>) -> Seq<char> {
    let display = home_relative(directory, home);
    let c = path_components(display);
    if display.len() <= 42 {
        display
    } else if c.len() >= 2 {
        "…/"@ + c[c.len() - 2] + "/"@ + c[c.len() - 1]
    } else {
        display
    }
}

/// Whether the first list is a prefix of the second.
fn is_prefix(p: &Vec<String>, d: &Vec<String>) -> (b: bool)
    ensures
        b == (p@.len() <= d@.len() && views(d@).subrange(0, p@.len() as int) == views(p@)),
{
    if p.len() > d.len() {
        return false;
    }
    let mut i: usize = 0;
    while i < p.len()
        invariant
            p@.len() <= d@.len(),
            i <= p@.len(),
            forall|k: int| 0 <= k < i ==> d@[k]@ == p@[k]@,
        decreases p@.len() - i,
    {
        if !str_eq(p[i].as_str(), d[i].as_str()) {
            assert(views(d@).subrange(0, p@.len() as int)[i as int] != views(p@)[i as int]);
            return false;
        }
        i = i + 1;
    }
    assert(views(d@).subrange(0, p@.len() as int) =~= views(p@));
    true
}

/// The components after a prefix.
fn suffix_from(d: &Vec<String>, from: usize) -> (r: Vec<String>)
    requires
        from <= d@.len(),
    ensures
        views(r@) == views(d@).subrange(from as int, d@.len() as int),
{
    let mut r: Vec<String> = Vec::new();
    let mut i: usize = from;
    while i < d.len()
        invariant
            from <= i <= d@.len(),
            r@.len() == i - from,
            forall|k: int| 0 <= k < r@.len() ==> (#[trigger] r@[k])@ == d@[from + k]@,
        decreases d@.len() - i,
    {
        r.push(d[i].clone());
        i = i + 1;
    }
    assert(views(r@) =~= views(d@).subrange(from as int, d@.len() as int));
    r
}

/// The directory text of the prompt, given the home directory.
pub fn compact_directory(directory: &str, home: Option<&str>) -> (s: String)
    ensures
        s@ == compact_spec(directory@, match home {
            Some(h) => Some(h@),
            None => None,
        }),
{
    let ghost hv: Option<Seq<char>> = match home {
        Some(h) => Some(h@),
        None => None,
    };
    let display = match home {
        Some(h) => {
            let d = components(directory);
            let p = components(h);
            if is_prefix(&p, &d) {
                if d.len() == p.len() {
                    "~".to_string()
                } else {
                    let rest = suffix_from(&d, p.len());
                    concat("~/", join_strings(&rest, "/").as_str())
                }
            } else {
                directory.to_string()
            }
        },
        None => directory.to_string(),
    };
    assert(display@ == home_relative(directory@, hv));
    if display.unicode_len() <= MAX_DIRECTORY_LENGTH {
        return display;
    }
    let c = components(display.as_str());
    if c.len() >= 2 {
        let a = concat3("…/", c[c.len() - 2].as_str(), "/");
        proof {
            assert(views(c@)[c@.len() - 2] == c@[c@.len() - 2]@);
            assert(views(c@)[c@.len() - 1] == c@[c@.len() - 1]@);
        }
        concat(a.as_str(), c[c.len() - 1].as_str())
    } else {
        display
    }
}

/// Console prompt presentation.
#[derive(Clone, Debug)]
pub struct Prompt {
    /// Prompt marker shown to the user.
    pub marker: String,
}

impl Default for Prompt {
    fn default() -> (r: Self)
        ensures
            r.marker@ == "int>"@,
    {
        Prompt { marker: "int>".to_string() }
    }
}

impl Prompt {
    /// Show the current shell directory in the marker.
    pub fn set_directory(&mut self, directory: &str, home: Option<&str>)
        ensures
            final(self).marker@ == compact_spec(directory@, match home {
                Some(h) => Some(h@),
                None => None,
            }) + "$"@,
    {
        let d = compact_directory(directory, home);
        self.marker = concat(d.as_str(), "$");
    }

    /// The terminal text that redraws the prompt line: a carriage return,
    /// a line erase, the marker, the text and the presence token, then the
    /// cursor moved back over the characters after the edit position.
    pub fn line_text(&self, text: &str, cursor: usize, token: &str) -> (s: String)
        ensures
            s@ == "\r\x1b[2K"@ + self.marker@ + " "@ + text@ + token@ + (if cursor < text@.len() {
                "\x1b["@ + decimal((text@.len() - cursor) as nat) + "D"@
            } else {
                ""@
            }),
    {
        let head = concat3("\r\x1b[2K", self.marker.as_str(), " ");
        let line = concat3(head.as_str(), text, token);
        let n = text.unicode_len();
        if cursor < n {
            let back = concat3("\x1b[", crate::text::usize_to_string(n - cursor).as_str(), "D");
            concat(line.as_str(), back.as_str())
        } else {
            proof {
                reveal_strlit("");
                assert(line@ + ""@ =~= line@);
            }
            line
        }
    }
}


/// Status bar renderer.
#[derive(Clone, Debug, Default)]
pub struct StatusBar;

/// The status bar line of a snapshot, with the throughput text and the
/// wall-clock time supplied.
pub open spec fn status_text(s: RuntimeSnapshot, tps: Option<Seq<char>>, time: Seq<char>) -> Seq<char> {
    " Runtime: "@ + s.health@ + " | Active backend: "@ + s.backend@ + " | Backend version: "@ + match s.backend_version {
        Some(v) => v@,
        None => "--"@,
    } + " | Loaded model: "@ + match s.loaded_model {
        Some(m) => m@,
        None => "None"@,
    } + " | Model memory: "@ + crate::commands::bytes_text(s.model_memory_bytes) + " | Context: "@ + match s.loaded_context {
        Some(c) => decimal(c as nat),
        None => "--"@,
    } + " | TPS: "@ + match tps {
        Some(t) => t,
        None => "--"@,
    } + " | Uptime: "@ + decimal(s.uptime_seconds as nat) + "s | Time: "@ + time
}

impl StatusBar {
    /// Format a status bar line from a snapshot, the formatted throughput
    /// and the time.
    pub fn line(snapshot: &RuntimeSnapshot, tps: &Option<String>, time: &str) -> (r: String)
        ensures
            r@ == status_text(*snapshot, match tps {
                Some(t) => Some(t@),
                None => None,
            }, time@),
    {
        let version = match &snapshot.backend_version {
            Some(v) => v.clone(),
            None => "--".to_string(),
        };
        let model = match &snapshot.loaded_model {
            Some(m) => m.clone(),
            None => "None".to_string(),
        };
        let context = match snapshot.loaded_context {
            Some(c) => u64_to_string(c),
            None => "--".to_string(),
        };
        let rate = match tps {
            Some(t) => t.clone(),
            None => "--".to_string(),
        };
        let mut r = concat(" Runtime: ", snapshot.health);
        r = concat3(r.as_str(), " | Active backend: ", snapshot.backend.as_str());
        r = concat3(r.as_str(), " | Backend version: ", version.as_str());
        r = concat3(r.as_str(), " | Loaded model: ", model.as_str());
        r = concat3(r.as_str(), " | Model memory: ", crate::commands::format_bytes(snapshot.model_memory_bytes).as_str());
        r = concat3(r.as_str(), " | Context: ", context.as_str());
        r = concat3(r.as_str(), " | TPS: ", rate.as_str());
        r = concat3(r.as_str(), " | Uptime: ", u64_to_string(snapshot.uptime_seconds).as_str());
        concat3(r.as_str(), "s | Time: ", time)
    }
}

/// Terminal renderer for the interactive console.
#[derive(Clone, Debug, Default)]
pub struct Renderer;

/// The startup banner and lifecycle milestones.
pub open spec fn startup_text() -> Seq<Seq<char>> {
    seq![
        "================================================="@,
        " AI CONSOLE"@,
        " Intelligent Runtime v0.1"@,
        "================================================="@,
        ""@,
        "Initializing..."@,
        ""@,
        "✓ Configuration loaded"@,
        "✓ Event bus started"@,
        "✓ Runtime initialized"@,
        "✓ Console ready"@,
        ""@,
        "No models installed."@,
        ""@,
        "Type"@,
        "help"@,
        "to begin."@,
        ""@,
    ]
}

impl Renderer {
    /// The lines of the startup banner.
    pub fn startup_lines() -> (r: Vec<String>)
        ensures
            views(r@) == startup_text(),
    {
        let mut r: Vec<String> = Vec::new();
        r.push("=================================================".to_string());
        r.push(" AI CONSOLE".to_string());
        r.push(" Intelligent Runtime v0.1".to_string());
        r.push("=================================================".to_string());
        r.push("".to_string());
        r.push("Initializing...".to_string());
        r.push("".to_string());
        r.push("✓ Configuration loaded".to_string());
        r.push("✓ Event bus started".to_string());
        r.push("✓ Runtime initialized".to_string());
        r.push("✓ Console ready".to_string());
        r.push("".to_string());
        r.push("No models installed.".to_string());
        r.push("".to_string());
        r.push("Type".to_string());
        r.push("help".to_string());
        r.push("to begin.".to_string());
        r.push("".to_string());
        proof {
            assert(views(r@) =~= startup_text());
        }
        r
    }

    /// The shutdown message.
    pub fn shutdown_line() -> (s: &'static str)
        ensures
            s@ == "Runtime stopped."@,
    {
        "Runtime stopped."
    }

    /// The terminal text that clears the screen.
    pub fn clear_text() -> (s: &'static str)
        ensures
            s@ == "\x1b[2J\x1b[H"@,
    {
        "\x1b[2J\x1b[H"
    }
}

} // verus!

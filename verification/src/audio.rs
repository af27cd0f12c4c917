//! System-wide audio output controls: the `audio` console command, what it
//! asks of the sound tools and what it reports. The tools themselves are run
//! by a [`CommandRunner`] that the caller supplies.
use vstd::prelude::*;
use crate::text::{concat, concat3, ends_with, is_ws, push_char, starts_with, str_eq, strip_prefix, to_chars, trim, trim_str, u32_to_string, decimal, char_is_whitespace, views, debug_quoted, quote_debug};

verus! {

/// A parsed `audio` command.
#[derive(Clone, Copy, Debug, Eq, PartialEq, Structural)]
pub enum AudioRequest {
    /// Report the output volume.
    Status,
    /// Set the output gain to a multiple of 100%.
    Gain(u8),
    /// Change the mute state.
    Mute(MuteAction),
}

/// A change of the mute state.
#[derive(Clone, Copy, Debug, Eq, PartialEq, Structural)]
pub enum MuteAction {
    /// Mute the output.
    Mute,
    /// Unmute the output.
    Unmute,
    /// Flip the mute state.
    Toggle,
}

/// The operating system the console runs on, which decides the install hint.
#[derive(Clone, Copy, Debug, Eq, PartialEq, Structural)]
pub enum Platform {
    /// Linux, driven through `wpctl` or `pactl`.
    Linux,
    /// macOS, driven through `osascript` and an audio relay.
    MacOs,
    /// Any other system.
    Other,
}

/// Runs one external program and returns its trimmed standard output, or a
/// message saying why it failed.
pub trait CommandRunner {
    /// `outcome` is what running `program` with `args` gave, for this
    /// runner. A runner that keeps no record of its runs relates every run
    /// to every outcome.
    closed spec fn ran(&self, program: Seq<char>, args: Seq<Seq<char>>, outcome: Result<Seq<char>, Seq<char>>) -> bool {
        true
    }

    /// Run `program` with `args`.
    fn run(&self, program: &str, args: &[&str]) -> (r: Result<String, String>)
        ensures
            self.ran(program@, str_views(args@), run_view(r)),
    ;
}

/// The texts of string slices.
pub open spec fn str_views(args: Seq<&str>) -> Seq<Seq<char>> {
    args.map_values(|a: &str| a@)
}

/// The text of a mute action.
pub open spec fn mute_label(action: MuteAction) -> Seq<char> {
    match action {
        MuteAction::Mute => "muted"@,
        MuteAction::Unmute => "unmuted"@,
        MuteAction::Toggle => "mute toggled"@,
    }
}

impl MuteAction {
    /// The past-tense description of the action.
    pub fn label(self) -> (s: &'static str)
        ensures
            s@ == mute_label(self),
    {
        match self {
            MuteAction::Mute => "muted",
            MuteAction::Unmute => "unmuted",
            MuteAction::Toggle => "mute toggled",
        }
    }
}

/// The control words after `audio`, and what they ask for.
pub open spec fn control_spec(arguments: Seq<char>) -> Result<AudioRequest, Seq<char>> {
    if arguments == ""@ || arguments == "status"@ {
        Ok(AudioRequest::Status)
    } else if arguments == "1x"@ || arguments == "100%"@ || arguments == "reset"@ {
        Ok(AudioRequest::Gain(1))
    } else if arguments == "2x"@ || arguments == "200%"@ {
        Ok(AudioRequest::Gain(2))
    } else if arguments == "3x"@ || arguments == "300%"@ {
        Ok(AudioRequest::Gain(3))
    } else if arguments == "mute"@ {
        Ok(AudioRequest::Mute(MuteAction::Mute))
    } else if arguments == "unmute"@ {
        Ok(AudioRequest::Mute(MuteAction::Unmute))
    } else if arguments == "toggle-mute"@ {
        Ok(AudioRequest::Mute(MuteAction::Toggle))
    } else {
        Err("Unsupported audio control: "@ + arguments)
    }
}

/// What an `audio` command line asks for: the trimmed line must start with
/// `audio` (or the common slip `aidio`), and the trimmed rest is the control.
pub open spec fn parse_spec(command: Seq<char>) -> Result<AudioRequest, Seq<char>> {
    let c = trim(command);
    if starts_with(c, "audio"@) {
        control_spec(trim(c.subrange(5, c.len() as int)))
    } else if starts_with(c, "aidio"@) {
        control_spec(trim(c.subrange(5, c.len() as int)))
    } else {
        Err("Expected an audio command."@)
    }
}

/// The control words read as what they say.
proof fn lemma_control_words()
    ensures
        control_spec(""@) == Ok::<AudioRequest, Seq<char>>(AudioRequest::Status),
        control_spec("status"@) == Ok::<AudioRequest, Seq<char>>(AudioRequest::Status),
        control_spec("1x"@) == Ok::<AudioRequest, Seq<char>>(AudioRequest::Gain(1)),
        control_spec("100%"@) == Ok::<AudioRequest, Seq<char>>(AudioRequest::Gain(1)),
        control_spec("reset"@) == Ok::<AudioRequest, Seq<char>>(AudioRequest::Gain(1)),
        control_spec("2x"@) == Ok::<AudioRequest, Seq<char>>(AudioRequest::Gain(2)),
        control_spec("200%"@) == Ok::<AudioRequest, Seq<char>>(AudioRequest::Gain(2)),
        control_spec("3x"@) == Ok::<AudioRequest, Seq<char>>(AudioRequest::Gain(3)),
        control_spec("300%"@) == Ok::<AudioRequest, Seq<char>>(AudioRequest::Gain(3)),
        control_spec("mute"@) == Ok::<AudioRequest, Seq<char>>(AudioRequest::Mute(MuteAction::Mute)),
        control_spec("unmute"@) == Ok::<AudioRequest, Seq<char>>(AudioRequest::Mute(MuteAction::Unmute)),
        control_spec("toggle-mute"@) == Ok::<AudioRequest, Seq<char>>(AudioRequest::Mute(MuteAction::Toggle)),
{
    reveal_strlit("");
    reveal_strlit("status");
    reveal_strlit("1x");
    reveal_strlit("100%");
    reveal_strlit("reset");
    reveal_strlit("2x");
    reveal_strlit("200%");
    reveal_strlit("3x");
    reveal_strlit("300%");
    reveal_strlit("mute");
    reveal_strlit("unmute");
    reveal_strlit("toggle-mute");
    assert(""@.len() == 0);
    assert("status"@.len() == 6);
    assert("1x"@.len() == 2);
    assert("100%"@.len() == 4);
    assert("reset"@.len() == 5);
    assert("2x"@.len() == 2);
    assert("200%"@.len() == 4);
    assert("3x"@.len() == 2);
    assert("300%"@.len() == 4);
    assert("mute"@.len() == 4);
    assert("unmute"@.len() == 6);
    assert("toggle-mute"@.len() == 11);
    assert("mute"@[0] != "100%"@[0]);
    assert("mute"@[0] != "200%"@[0]);
    assert("mute"@[0] != "300%"@[0]);
    assert("unmute"@[0] != "status"@[0]);
    assert("200%"@[0] != "300%"@[0]);
    assert("100%"@[0] != "300%"@[0]);
    assert("100%"@[0] != "200%"@[0]);
    assert("2x"@[0] != "3x"@[0]);
    assert("1x"@[0] != "3x"@[0]);
    assert("1x"@[0] != "2x"@[0]);
}

/// An `audio` line (whitespace around its words aside) whose control word
/// is `mute` asks to mute, one whose word is `unmute` to unmute, one whose
/// word is `toggle-mute` to toggle, `2x` and `300%` ask for those gains and
/// `status` for the status; the same holds of the `aidio` slip.
pub proof fn lemma_mute_words(command: Seq<char>)
    requires
        starts_with(trim(command), "audio"@) || starts_with(trim(command), "aidio"@),
    ensures
        trim(trim(command).subrange(5, trim(command).len() as int)) == "mute"@ ==> parse_spec(command) == Ok::<
            AudioRequest,
            Seq<char>,
        >(AudioRequest::Mute(MuteAction::Mute)),
        trim(trim(command).subrange(5, trim(command).len() as int)) == "unmute"@ ==> parse_spec(command) == Ok::<
            AudioRequest,
            Seq<char>,
        >(AudioRequest::Mute(MuteAction::Unmute)),
        trim(trim(command).subrange(5, trim(command).len() as int)) == "toggle-mute"@ ==> parse_spec(command) == Ok::<
            AudioRequest,
            Seq<char>,
        >(AudioRequest::Mute(MuteAction::Toggle)),
        trim(trim(command).subrange(5, trim(command).len() as int)) == "2x"@ ==> parse_spec(command) == Ok::<
            AudioRequest,
            Seq<char>,
        >(AudioRequest::Gain(2)),
        trim(trim(command).subrange(5, trim(command).len() as int)) == "300%"@ ==> parse_spec(command) == Ok::<
            AudioRequest,
            Seq<char>,
        >(AudioRequest::Gain(3)),
        trim(trim(command).subrange(5, trim(command).len() as int)) == "status"@ ==> parse_spec(command) == Ok::<
            AudioRequest,
            Seq<char>,
        >(AudioRequest::Status),
{
    reveal_strlit("audio");
    reveal_strlit("aidio");
    lemma_control_words();
}

/// Parse an `audio` command line.
pub fn parse(command: &str) -> (r: Result<AudioRequest, String>)
    ensures
        match parse_spec(command@) {
            Ok(req) => r == Ok::<AudioRequest, String>(req),
            Err(m) => r matches Err(e) && e@ == m,
        },
{
    let c = trim_str(command);
    let rest = match strip_prefix(c.as_str(), "audio") {
        Some(rest) => rest,
        None => match strip_prefix(c.as_str(), "aidio") {
            Some(rest) => rest,
            None => {
                return Err(String::from_str("Expected an audio command."));
            },
        },
    };
    proof {
        reveal_strlit("audio");
        reveal_strlit("aidio");
    }
    let arguments = trim_str(rest.as_str());
    let a = arguments.as_str();
    if str_eq(a, "") || str_eq(a, "status") {
        Ok(AudioRequest::Status)
    } else if str_eq(a, "1x") || str_eq(a, "100%") || str_eq(a, "reset") {
        Ok(AudioRequest::Gain(1))
    } else if str_eq(a, "2x") || str_eq(a, "200%") {
        Ok(AudioRequest::Gain(2))
    } else if str_eq(a, "3x") || str_eq(a, "300%") {
        Ok(AudioRequest::Gain(3))
    } else if str_eq(a, "mute") {
        Ok(AudioRequest::Mute(MuteAction::Mute))
    } else if str_eq(a, "unmute") {
        Ok(AudioRequest::Mute(MuteAction::Unmute))
    } else if str_eq(a, "toggle-mute") {
        Ok(AudioRequest::Mute(MuteAction::Toggle))
    } else {
        Err(concat("Unsupported audio control: ", a))
    }
}

/// The usage line shown after a malformed command.
pub open spec fn usage_text() -> Seq<char> {
    "Usage: :audio [status|1x|2x|3x|mute|unmute|toggle-mute]"@
}

/// The usage line shown after a malformed command.
pub fn usage() -> (s: String)
    ensures
        s@ == usage_text(),
{
    String::from_str("Usage: :audio [status|1x|2x|3x|mute|unmute|toggle-mute]")
}

/// Whitespace-separated words of a text joined by single spaces, with
/// whether a space is owed before the next word.
pub open spec fn squeeze_state(s: Seq<char>) -> (Seq<char>, bool)
    decreases s.len(),
{
    if s.len() == 0 {
        (Seq::empty(), false)
    } else {
        let (out, pending) = squeeze_state(s.drop_last());
        let c = s.last();
        if is_ws(c) {
            (out, out.len() > 0)
        } else if pending {
            (out.push(' ').push(c), false)
        } else {
            (out.push(c), false)
        }
    }
}

/// A tool's output on one line: its words joined by single spaces, or
/// "command completed" when it printed nothing.
pub open spec fn one_line_spec(output: Seq<char>) -> Seq<char> {
    if output.len() == 0 {
        "command completed"@
    } else {
        squeeze_state(output).0
    }
}

/// A tool's output on one line.
pub fn one_line(output: &str) -> (s: String)
    ensures
        s@ == one_line_spec(output@),
{
    let v = to_chars(output);
    if v.len() == 0 {
        return String::from_str("command completed");
    }
    let mut out = String::new();
    let mut pending = false;
    let mut i: usize = 0;
    while i < v.len()
        invariant
            i <= v@.len(),
            v@ == output@,
            squeeze_state(v@.subrange(0, i as int)) == (out@, pending),
        decreases v@.len() - i,
    {
        let c = v[i];
        proof {
            assert(v@.subrange(0, i + 1).drop_last() =~= v@.subrange(0, i as int));
        }
        if char_is_whitespace(c) {
            pending = out.unicode_len() > 0;
        } else {
            if pending {
                push_char(&mut out, ' ');
            }
            push_char(&mut out, c);
            pending = false;
        }
        i = i + 1;
    }
    proof {
        assert(v@.subrange(0, v@.len() as int) =~= v@);
    }
    out
}

/// The install hint for the platform.
pub open spec fn install_hint(platform: Platform) -> Seq<char> {
    match platform {
        Platform::Linux => "Linux: install WirePlumber (wpctl) or PulseAudio utilities (pactl), and ensure your user audio session is running."@,
        Platform::MacOs => "macOS: install BlackHole 16ch, FFmpeg, and switchaudio-osx; reboot after installing BlackHole so its driver appears."@,
        Platform::Other => "System audio control currently supports Linux and macOS only."@,
    }
}

/// What to install for audio control on the platform.
pub fn platform_install_hint(platform: Platform) -> (s: &'static str)
    ensures
        s@ == install_hint(platform),
{
    match platform {
        Platform::Linux => "Linux: install WirePlumber (wpctl) or PulseAudio utilities (pactl), and ensure your user audio session is running.",
        Platform::MacOs => "macOS: install BlackHole 16ch, FFmpeg, and switchaudio-osx; reboot after installing BlackHole so its driver appears.",
        Platform::Other => "System audio control currently supports Linux and macOS only.",
    }
}

/// The report of a failed control.
pub open spec fn audio_error_spec(platform: Platform, detail: Seq<char>) -> Seq<Seq<char>> {
    seq!["System audio control failed: "@ + detail, install_hint(platform)]
}

/// The report of a failed control: the failure and the install hint.
pub fn audio_error(platform: Platform, detail: &str) -> (r: Vec<String>)
    ensures
        views(r@) == audio_error_spec(platform, detail@),
{
    let mut r: Vec<String> = Vec::new();
    r.push(concat("System audio control failed: ", detail));
    r.push(String::from_str(platform_install_hint(platform)));
    proof {
        assert(views(r@) =~= audio_error_spec(platform, detail@));
    }
    r
}

/// What the fallback between the two tools gives: `wpctl`'s output when it
/// succeeds, else `pactl`'s, else both failures joined by "; ".
pub open spec fn fallback_spec(
    wpctl: Result<Seq<char>, Seq<char>>,
    pactl: Result<Seq<char>, Seq<char>>,
) -> Result<(Seq<char>, Seq<char>), Seq<char>> {
    match wpctl {
        Ok(out) => Ok(("PipeWire"@, out)),
        Err(we) => match pactl {
            Ok(out) => Ok(("PulseAudio"@, out)),
            Err(pe) => Err(we + "; "@ + pe),
        },
    }
}

/// The text view of a tool's result.
pub open spec fn run_view(r: Result<String, String>) -> Result<Seq<char>, Seq<char>> {
    match r {
        Ok(s) => Ok(s@),
        Err(e) => Err(e@),
    }
}

/// The text view of a fallback result.
pub open spec fn fallback_view(r: Result<(&'static str, String), String>) -> Result<(Seq<char>, Seq<char>), Seq<char>> {
    match r {
        Ok((b, s)) => Ok((b@, s@)),
        Err(e) => Err(e@),
    }
}

/// `w` is what running `wpctl` with its arguments gave, and, when that
/// failed, `p` is what running `pactl` with its arguments gave.
pub open spec fn ran_with_fallback<R: CommandRunner>(
    runner: R,
    wpctl_args: Seq<Seq<char>>,
    pactl_args: Seq<Seq<char>>,
    w: Result<Seq<char>, Seq<char>>,
    p: Result<Seq<char>, Seq<char>>,
) -> bool {
    &&& runner.ran("wpctl"@, wpctl_args, w)
    &&& w is Err ==> runner.ran("pactl"@, pactl_args, p)
}

/// Combine the two tools' results; `pactl` is only consulted when `wpctl`
/// failed.
pub fn combine_fallback(wpctl: Result<String, String>, pactl: Option<Result<String, String>>) -> (r: Result<(&'static str, String), String>)
    requires
        wpctl is Err ==> pactl is Some,
    ensures
        fallback_view(r) == fallback_spec(run_view(wpctl), match pactl {
            Some(p) => run_view(p),
            None => Err(Seq::empty()),
        }),
{
    match wpctl {
        Ok(out) => Ok(("PipeWire", out)),
        Err(we) => match pactl {
            Some(Ok(out)) => Ok(("PulseAudio", out)),
            Some(Err(pe)) => Err(concat3(we.as_str(), "; ", pe.as_str())),
            None => {
                proof {
                    assert(false);
                }
                Err(we)
            },
        },
    }
}

/// Run `wpctl`, falling back to `pactl` when it fails.
pub fn run_with_fallback<R: CommandRunner>(runner: &R, wpctl_args: &[&str], pactl_args: &[&str]) -> (r: Result<(&'static str, String), String>)
    ensures
        exists|w: Result<Seq<char>, Seq<char>>, p: Result<Seq<char>, Seq<char>>|
            #[trigger] fallback_spec(w, p) == fallback_view(r) && ran_with_fallback(
                *runner,
                str_views(wpctl_args@),
                str_views(pactl_args@),
                w,
                p,
            ),
{
    let first = runner.run("wpctl", wpctl_args);
    let ghost w = run_view(first);
    if first.is_ok() {
        let r = combine_fallback(first, None);
        assert(fallback_view(r) == fallback_spec(w, Err(Seq::empty())));
        r
    } else {
        let second = runner.run("pactl", pactl_args);
        let ghost p = run_view(second);
        let r = combine_fallback(first, Some(second));
        assert(fallback_view(r) == fallback_spec(w, p));
        r
    }
}

/// The `wpctl` value and `pactl` value for a mute action.
pub open spec fn mute_value(action: MuteAction) -> Seq<char> {
    match action {
        MuteAction::Mute => "1"@,
        MuteAction::Unmute => "0"@,
        MuteAction::Toggle => "toggle"@,
    }
}

/// The arguments handed to `wpctl` for a request.
pub open spec fn wpctl_args_spec(request: AudioRequest) -> Seq<Seq<char>> {
    match request {
        AudioRequest::Status => seq!["get-volume"@, "@DEFAULT_AUDIO_SINK@"@],
        AudioRequest::Gain(m) => seq!["set-volume"@, "@DEFAULT_AUDIO_SINK@"@, decimal(m as nat) + ".0"@, "--limit"@, "3.0"@],
        AudioRequest::Mute(a) => seq!["set-mute"@, "@DEFAULT_AUDIO_SINK@"@, mute_value(a)],
    }
}

/// The arguments handed to `pactl` for a request.
pub open spec fn pactl_args_spec(request: AudioRequest) -> Seq<Seq<char>> {
    match request {
        AudioRequest::Status => seq!["get-sink-volume"@, "@DEFAULT_SINK@"@],
        AudioRequest::Gain(m) => seq!["set-sink-volume"@, "@DEFAULT_SINK@"@, decimal(m as nat * 100) + "%"@],
        AudioRequest::Mute(a) => seq!["set-sink-mute"@, "@DEFAULT_SINK@"@, mute_value(a)],
    }
}

/// The value for a mute action.
fn mute_value_of(action: MuteAction) -> (s: &'static str)
    ensures
        s@ == mute_value(action),
{
    match action {
        MuteAction::Mute => "1",
        MuteAction::Unmute => "0",
        MuteAction::Toggle => "toggle",
    }
}

/// The arguments for `wpctl` and for `pactl` for a request.
pub fn tool_args(request: AudioRequest) -> (r: (Vec<String>, Vec<String>))
    ensures
        views(r.0@) == wpctl_args_spec(request),
        views(r.1@) == pactl_args_spec(request),
{
    let mut w: Vec<String> = Vec::new();
    let mut p: Vec<String> = Vec::new();
    match request {
        AudioRequest::Status => {
            w.push(String::from_str("get-volume"));
            w.push(String::from_str("@DEFAULT_AUDIO_SINK@"));
            p.push(String::from_str("get-sink-volume"));
            p.push(String::from_str("@DEFAULT_SINK@"));
        },
        AudioRequest::Gain(m) => {
            w.push(String::from_str("set-volume"));
            w.push(String::from_str("@DEFAULT_AUDIO_SINK@"));
            w.push(concat(u32_to_string(m as u32).as_str(), ".0"));
            w.push(String::from_str("--limit"));
            w.push(String::from_str("3.0"));
            p.push(String::from_str("set-sink-volume"));
            p.push(String::from_str("@DEFAULT_SINK@"));
            p.push(concat(u32_to_string(m as u32 * 100).as_str(), "%"));
        },
        AudioRequest::Mute(a) => {
            w.push(String::from_str("set-mute"));
            w.push(String::from_str("@DEFAULT_AUDIO_SINK@"));
            w.push(String::from_str(mute_value_of(a)));
            p.push(String::from_str("set-sink-mute"));
            p.push(String::from_str("@DEFAULT_SINK@"));
            p.push(String::from_str(mute_value_of(a)));
        },
    }
    proof {
        assert(views(w@) =~= wpctl_args_spec(request));
        assert(views(p@) =~= pactl_args_spec(request));
    }
    (w, p)
}

/// Borrowed views of owned arguments, as the runner takes them.
fn borrow_args(args: &Vec<String>) -> (r: Vec<&str>)
    ensures
        r@.len() == args@.len(),
        forall|i: int| 0 <= i < r@.len() ==> (#[trigger] r@[i])@ == args@[i]@,
{
    let mut r: Vec<&str> = Vec::new();
    let mut i: usize = 0;
    while i < args.len()
        invariant
            i <= args@.len(),
            r@.len() == i,
            forall|k: int| 0 <= k < i ==> (#[trigger] r@[k])@ == args@[k]@,
        decreases args@.len() - i,
    {
        r.push(args[i].as_str());
        i = i + 1;
    }
    r
}

/// The warning added when the gain amplifies.
pub open spec fn clip_warning() -> Seq<char> {
    "Warning: amplification above 100% can clip or distort audio."@
}

/// The report of a request, given what the tools answered.
pub open spec fn report_spec(
    platform: Platform,
    request: AudioRequest,
    outcome: Result<(Seq<char>, Seq<char>), Seq<char>>,
) -> Seq<Seq<char>> {
    match outcome {
        Err(e) => audio_error_spec(platform, e),
        Ok((backend, output)) => match request {
            AudioRequest::Status => seq!["System audio ("@ + backend + "): "@ + one_line_spec(output)],
            AudioRequest::Gain(m) => {
                let first = "System audio set to "@ + decimal(m as nat) + "x ("@ + decimal(m as nat * 100) + "%) via "@ + backend + "."@;
                if m > 1 {
                    seq![first, clip_warning()]
                } else {
                    seq![first]
                }
            },
            AudioRequest::Mute(a) => seq!["System audio "@ + mute_label(a) + " via "@ + backend + "."@],
        },
    }
}

/// The report of a request, given what the tools answered.
pub fn report(platform: Platform, request: AudioRequest, outcome: Result<(&'static str, String), String>) -> (r: Vec<String>)
    ensures
        views(r@) == report_spec(platform, request, fallback_view(outcome)),
{
    match outcome {
        Err(e) => audio_error(platform, e.as_str()),
        Ok((backend, output)) => {
            let mut r: Vec<String> = Vec::new();
            match request {
                AudioRequest::Status => {
                    let line = concat3("System audio (", backend, "): ");
                    r.push(concat(line.as_str(), one_line(output.as_str()).as_str()));
                },
                AudioRequest::Gain(m) => {
                    let a = concat3("System audio set to ", u32_to_string(m as u32).as_str(), "x (");
                    let b = concat3(a.as_str(), u32_to_string(m as u32 * 100).as_str(), "%) via ");
                    r.push(concat3(b.as_str(), backend, "."));
                    if m > 1 {
                        r.push(String::from_str("Warning: amplification above 100% can clip or distort audio."));
                    }
                },
                AudioRequest::Mute(a) => {
                    let line = concat3("System audio ", a.label(), " via ");
                    r.push(concat3(line.as_str(), backend, "."));
                },
            }
            proof {
                assert(views(r@) =~= report_spec(platform, request, fallback_view(outcome)));
            }
            r
        },
    }
}

/// The report of an `audio` command on Linux-style tools: a malformed command
/// gets its error and the usage line without running anything; otherwise the
/// request runs through `wpctl`, falling back to `pactl`, and the report says
/// what came back.
pub fn execute_with_runner_on<R: CommandRunner>(platform: Platform, command: &str, runner: &R) -> (r: Vec<String>)
    ensures
        match parse_spec(command@) {
            Err(m) => views(r@) == seq![m, usage_text()],
            Ok(request) => exists|w: Result<Seq<char>, Seq<char>>, p: Result<Seq<char>, Seq<char>>|
                views(r@) == #[trigger] report_spec(platform, request, fallback_spec(w, p)) && ran_with_fallback(
                    *runner,
                    wpctl_args_spec(request),
                    pactl_args_spec(request),
                    w,
                    p,
                ),
        },
{
    let request = match parse(command) {
        Ok(request) => request,
        Err(message) => {
            let mut r: Vec<String> = Vec::new();
            r.push(message);
            r.push(usage());
            proof {
                assert(views(r@) =~= seq![views(r@)[0], usage_text()]);
            }
            return r;
        },
    };
    let (w, p) = tool_args(request);
    let wa = borrow_args(&w);
    let pa = borrow_args(&p);
    proof {
        assert(str_views(wa@) =~= wpctl_args_spec(request));
        assert(str_views(pa@) =~= pactl_args_spec(request));
    }
    let outcome = run_with_fallback(runner, wa.as_slice(), pa.as_slice());
    let r = report(platform, request, outcome);
    r
}

/// [`execute_with_runner_on`] with the Linux install hint.
pub fn execute_with_runner<R: CommandRunner>(command: &str, runner: &R) -> (r: Vec<String>)
    ensures
        match parse_spec(command@) {
            Err(m) => views(r@) == seq![m, usage_text()],
            Ok(request) => exists|w: Result<Seq<char>, Seq<char>>, p: Result<Seq<char>, Seq<char>>|
                views(r@) == #[trigger] report_spec(Platform::Linux, request, fallback_spec(w, p)) && ran_with_fallback(
                    *runner,
                    wpctl_args_spec(request),
                    pactl_args_spec(request),
                    w,
                    p,
                ),
        },
{
    execute_with_runner_on(Platform::Linux, command, runner)
}

/// Where `p` first occurs in `s` at or after `from`.
pub open spec fn find_from(s: Seq<char>, p: Seq<char>, from: int) -> Option<int>
    decreases s.len() - from,
{
    if from < 0 || from + p.len() > s.len() {
        None
    } else if p.len() == 0 {
        Some(from)
    } else if s.subrange(from, from + p.len()) == p {
        Some(from)
    } else {
        find_from(s, p, from + 1)
    }
}

/// Where `p` first occurs in `s`.
fn find_at(s: &Vec<char>, p: &Vec<char>, from: usize) -> (r: Option<usize>)
    requires
        from <= s@.len(),
    ensures
        match r {
            Some(i) => find_from(s@, p@, from as int) == Some(i as int),
            None => find_from(s@, p@, from as int) is None,
        },
        r matches Some(i) ==> i + p@.len() <= s@.len() && s@.subrange(i as int, i + p@.len()) == p@,
    decreases s@.len() - from,
{
    if p.len() > s.len() - from {
        return None;
    }
    if p.len() == 0 {
        proof {
            assert(s@.subrange(from as int, from as int) =~= p@);
        }
        return Some(from);
    }
    let end = from + p.len();
    let mut k: usize = 0;
    let mut same = true;
    while k < p.len() && same
        invariant
            end == from + p@.len(),
            end <= s@.len(),
            k <= p@.len(),
            forall|j: int| 0 <= j < k ==> s@[from + j] == p@[j],
            !same ==> k < p@.len() && s@[from + k] != p@[k as int],
        decreases p@.len() - k + (if same { 1int } else { 0int }),
    {
        if s[from + k] == p[k] {
            k = k + 1;
        } else {
            same = false;
        }
    }
    if same {
        proof {
            assert(s@.subrange(from as int, from + p@.len()) =~= p@);
        }
        Some(from)
    } else {
        proof {
            assert(s@.subrange(from as int, from + p@.len())[k as int] != p@[k as int]);
        }
        find_at(s, p, from + 1)
    }
}

/// The value of a string field in a one-line JSON object, as the audio
/// switcher prints it: the text between `"<field>": "` and the next quote,
/// when that text is not empty.
pub open spec fn json_field_spec(json: Seq<char>, field: Seq<char>) -> Option<Seq<char>> {
    let marker = "\""@ + field + "\": \""@;
    match find_from(json, marker, 0) {
        None => None,
        Some(i) => {
            let rest = json.subrange(i + marker.len(), json.len() as int);
            match find_from(rest, seq!['"'], 0) {
                None => None,
                Some(j) => if j == 0 { None } else { Some(rest.subrange(0, j)) },
            }
        },
    }
}

/// The value of a string field in a one-line JSON object.
pub fn json_field(json: &str, field: &str) -> (r: Option<String>)
    ensures
        match json_field_spec(json@, field@) {
            Some(v) => r matches Some(s) && s@ == v,
            None => r is None,
        },
{
    let marker = concat3("\"", field, "\": \"");
    let m = to_chars(marker.as_str());
    let v = to_chars(json);
    let found = find_at(&v, &m, 0);
    if found.is_none() {
        return None;
    }
    let i = found.unwrap();
    let n = v.len();
    assert(i + m@.len() <= n);
    let rest = slice_chars(&v, i + m.len(), n);
    let mut quote: Vec<char> = Vec::new();
    quote.push('"');
    proof {
        assert(quote@ =~= seq!['"']);
    }
    let found_quote = find_at(&rest, &quote, 0);
    if found_quote.is_none() {
        return None;
    }
    let j = found_quote.unwrap();
    if j == 0 {
        None
    } else {
        Some(crate::text::slice_to_string(&rest, 0, j))
    }
}

/// The characters `v[from..to]`.
fn slice_chars(v: &Vec<char>, from: usize, to: usize) -> (r: Vec<char>)
    requires
        from <= to <= v@.len(),
    ensures
        r@ == v@.subrange(from as int, to as int),
{
    let mut r: Vec<char> = Vec::new();
    let mut i: usize = from;
    while i < to
        invariant
            from <= i <= to <= v@.len(),
            r@ == v@.subrange(from as int, i as int),
        decreases to - i,
    {
        r.push(v[i]);
        i = i + 1;
    }
    r
}

/// The report of an `osascript` run: the failure with the macOS hint, or the
/// success line, followed by the tool's output on one line when the success
/// line ends in ": ".
pub open spec fn macos_report_spec(success: Seq<char>, outcome: Result<Seq<char>, Seq<char>>) -> Seq<Seq<char>> {
    match outcome {
        Err(e) => audio_error_spec(Platform::MacOs, e),
        Ok(out) => if ends_with(success, ": "@) {
            seq![success + one_line_spec(out)]
        } else {
            seq![success]
        },
    }
}

/// Run an AppleScript through `osascript` and report the result.
pub fn run_macos<R: CommandRunner>(runner: &R, script: &str, success: &str) -> (r: Vec<String>)
    ensures
        exists|o: Result<Seq<char>, Seq<char>>| views(r@) == #[trigger] macos_report_spec(success@, o) && runner.ran(
            "osascript"@,
            seq!["-e"@, script@],
            o,
        ),
{
    let mut args: Vec<&str> = Vec::new();
    args.push("-e");
    args.push(script);
    proof {
        reveal_strlit("-e");
        assert(str_views(args@) =~= seq!["-e"@, script@]);
    }
    let outcome = runner.run("osascript", args.as_slice());
    let ghost o = run_view(outcome);
    let r = match outcome {
        Err(e) => audio_error(Platform::MacOs, e.as_str()),
        Ok(out) => {
            let mut r: Vec<String> = Vec::new();
            if crate::text::str_ends_with(success, ": ") {
                r.push(concat(success, one_line(out.as_str()).as_str()));
            } else {
                r.push(String::from_str(success));
            }
            proof {
                assert(views(r@) =~= macos_report_spec(success@, o));
            }
            r
        },
    };
    assert(views(r@) == macos_report_spec(success@, o));
    r
}

/// The AppleScript for a mute action.
pub open spec fn mute_script_spec(action: MuteAction) -> Seq<char> {
    match action {
        MuteAction::Mute => "set volume output muted true"@,
        MuteAction::Unmute => "set volume output muted false"@,
        MuteAction::Toggle => "set volume output muted not (output muted of (get volume settings))"@,
    }
}

/// The AppleScript for a mute action.
pub fn mute_script(action: MuteAction) -> (s: &'static str)
    ensures
        s@ == mute_script_spec(action),
{
    match action {
        MuteAction::Mute => "set volume output muted true",
        MuteAction::Unmute => "set volume output muted false",
        MuteAction::Toggle => "set volume output muted not (output muted of (get volume settings))",
    }
}

/// The macOS audio relay that amplifies past 100%: the device listing it
/// needs, starting its process, and the state it leaves behind so that it
/// can be stopped.
pub trait AudioRelayHost: CommandRunner {
    /// `outcome` is what listing the output devices gave, for this host. A
    /// host that keeps no record relates every listing to every outcome.
    closed spec fn listed(&self, outcome: Result<Seq<char>, Seq<char>>) -> bool {
        true
    }

    /// `outcome` is what starting the relay at `gain` to the device `index`
    /// gave, for this host.
    closed spec fn spawned(&self, gain: Seq<char>, index: usize, outcome: Result<u32, Seq<char>>) -> bool {
        true
    }

    /// `outcome` is what saving `state` gave, for this host.
    closed spec fn saved(&self, state: Seq<char>, outcome: Result<(), Seq<char>>) -> bool {
        true
    }

    /// The device listing FFmpeg prints for the AudioToolbox outputs, or why
    /// FFmpeg could not run.
    fn output_devices(&self) -> (r: Result<String, String>)
        ensures
            self.listed(run_view(r)),
    ;
    /// Start the relay process: the loopback device at the gain, to the
    /// output device with the index. Its process id, or why it did not start.
    fn spawn_relay(&self, gain: &str, device_index: usize) -> (r: Result<u32, String>)
        ensures
            self.spawned(gain@, device_index, spawn_view(r)),
    ;
    /// Save the state of a running relay.
    fn save_relay_state(&self, state: &str) -> (r: Result<(), String>)
        ensures
            self.saved(state@, save_view(r)),
    ;
    /// `state` is what reading the saved relay state gave, for this host.
    closed spec fn state_read(&self, state: Option<Seq<char>>) -> bool {
        true
    }

    /// The saved state of a running relay (process id and the original
    /// output device, one per line), if any.
    fn relay_state(&self) -> (r: Option<String>)
        ensures
            self.state_read(match r {
                Some(t) => Some(t@),
                None => None,
            }),
    ;
    /// Forget the saved relay state.
    fn clear_relay_state(&self);
}

/// The text view of a relay start.
pub open spec fn spawn_view(r: Result<u32, String>) -> Result<u32, Seq<char>> {
    match r {
        Ok(pid) => Ok(pid),
        Err(e) => Err(e@),
    }
}

/// The text view of a state save.
pub open spec fn save_view(r: Result<(), String>) -> Result<(), Seq<char>> {
    match r {
        Ok(()) => Ok(()),
        Err(e) => Err(e@),
    }
}

/// The host ran `program` with `args`, whatever it gave.
pub open spec fn ran_once<R: CommandRunner>(runner: R, program: Seq<char>, args: Seq<Seq<char>>) -> bool {
    exists|o: Result<Seq<char>, Seq<char>>| #[trigger] runner.ran(program, args, o)
}

/// The arguments that ask the switcher for the current output as JSON.
pub open spec fn current_output_args() -> Seq<Seq<char>> {
    seq!["-c"@, "-t"@, "output"@, "-f"@, "json"@]
}

/// The name of the current output in the switcher's JSON, or empty.
pub open spec fn current_output_name(json: Seq<char>) -> Seq<char> {
    match json_field_spec(json, "name"@) {
        Some(n) => n,
        None => Seq::empty(),
    }
}

/// The gain text the relay is started with.
pub open spec fn gain_text(multiplier: u8) -> Seq<char> {
    decimal(multiplier as nat) + ".0"@
}

/// The host calls behind the outcomes of starting the relay: the current
/// output was asked of the switcher; for a physical device the devices
/// were listed; for a listed device the output was routed to the loopback
/// device, the relay started at the gain to the device's index, its state
/// `pid`, name and index saved; a failed start switches back to the
/// device, and a failed save terminates the process and switches back.
pub open spec fn relay_ran<H: AudioRelayHost>(
    host: H,
    multiplier: u8,
    current: Result<Seq<char>, Seq<char>>,
    listing: Result<Seq<char>, Seq<char>>,
    routed: Result<Seq<char>, Seq<char>>,
    spawned: Result<u32, Seq<char>>,
    saved: Result<(), Seq<char>>,
) -> bool {
    &&& host.ran("SwitchAudioSource"@, current_output_args(), current)
    &&& match current {
        Err(_) => true,
        Ok(json) => {
            let name = current_output_name(json);
            name.len() == 0 || name == loopback_device() || {
                &&& host.listed(listing)
                &&& match listed_devices(listing) {
                    Err(_) => true,
                    Ok(devices) => match device_index_spec(devices, name) {
                        None => true,
                        Some(index) => {
                            &&& host.ran("SwitchAudioSource"@, seq!["-s"@, loopback_device()], routed)
                            &&& match routed {
                                Err(_) => true,
                                Ok(_) => {
                                    &&& host.spawned(gain_text(multiplier), index, spawned)
                                    &&& match spawned {
                                        Err(_) => ran_once(host, "SwitchAudioSource"@, seq!["-s"@, name]),
                                        Ok(pid) => {
                                            &&& host.saved(relay_state_text(pid, name, index), saved)
                                            &&& match saved {
                                                Ok(()) => true,
                                                Err(_) => (ran_once(host, "kill"@, seq!["-TERM"@, decimal(pid as nat)])) && (ran_once(host, "SwitchAudioSource"@, seq!["-s"@, name])),
                                            }
                                        },
                                    }
                                },
                            }
                        },
                    },
                }
            }
        },
    }
}

/// The loopback device the relay captures.
pub open spec fn loopback_device() -> Seq<char> {
    "BlackHole 16ch"@
}

/// Where `c` last occurs in `s`.
pub open spec fn last_index_of(s: Seq<char>, c: char) -> Option<int>
    decreases s.len(),
{
    if s.len() == 0 {
        None
    } else if s.last() == c {
        Some(s.len() - 1)
    } else {
        last_index_of(s.drop_last(), c)
    }
}

/// The output device a line of FFmpeg's listing names: the number in the
/// last `[...]` of the line and the non-empty text after it, trimmed.
pub open spec fn device_of(line: Seq<char>) -> Option<(usize, Seq<char>)> {
    match last_index_of(line, '[') {
        None => None,
        Some(start) => {
            let after = line.subrange(start + 1, line.len() as int);
            match find_from(after, seq![']'], 0) {
                None => None,
                Some(j) => {
                    let name = trim(after.subrange(j + 1, after.len() as int));
                    match crate::runtime::parse_usize_spec(after.subrange(0, j)) {
                        None => None,
                        Some(index) => if name.len() > 0 {
                            Some((index, name))
                        } else {
                            None
                        },
                    }
                },
            }
        },
    }
}

/// The output devices of FFmpeg's listing, in order.
pub open spec fn devices_spec(lines: Seq<Seq<char>>) -> Seq<(usize, Seq<char>)>
    decreases lines.len(),
{
    if lines.len() == 0 {
        Seq::empty()
    } else {
        match device_of(lines.last()) {
            None => devices_spec(lines.drop_last()),
            Some(d) => devices_spec(lines.drop_last()).push(d),
        }
    }
}

/// The plain values of a device list.
pub open spec fn device_views(v: Seq<(usize, String)>) -> Seq<(usize, Seq<char>)> {
    v.map_values(|d: (usize, String)| (d.0, d.1@))
}

/// Where `c` last occurs in `v`.
fn last_index(v: &Vec<char>, c: char) -> (r: Option<usize>)
    ensures
        match r {
            Some(i) => last_index_of(v@, c) == Some(i as int) && i < v@.len(),
            None => last_index_of(v@, c) is None,
        },
{
    let mut i: usize = v.len();
    proof {
        assert(v@.subrange(0, v@.len() as int) =~= v@);
    }
    while i > 0
        invariant
            i <= v@.len(),
            last_index_of(v@, c) == last_index_of(v@.subrange(0, i as int), c),
        decreases i,
    {
        proof {
            assert(v@.subrange(0, i as int).drop_last() =~= v@.subrange(0, i - 1));
        }
        if v[i - 1] == c {
            return Some(i - 1);
        }
        i = i - 1;
    }
    None
}

/// The output device a line names.
fn parse_device(line: &str) -> (r: Option<(usize, String)>)
    ensures
        match r {
            Some(d) => device_of(line@) == Some((d.0, d.1@)),
            None => device_of(line@) is None,
        },
{
    let v = to_chars(line);
    let start = match last_index(&v, '[') {
        None => {
            return None;
        },
        Some(s) => s,
    };
    assert(start < v.len());
    let after = slice_chars(&v, start + 1, v.len());
    let mut close: Vec<char> = Vec::new();
    close.push(']');
    proof {
        assert(close@ =~= seq![']']);
    }
    let j = match find_at(&after, &close, 0) {
        None => {
            return None;
        },
        Some(j) => j,
    };
    let index_text = crate::text::slice_to_string(&after, 0, j);
    let rest = crate::text::slice_to_string(&after, j + 1, after.len());
    let name = trim_str(rest.as_str());
    match crate::runtime::parse_usize(index_text.as_str()) {
        None => None,
        Some(index) => if name.unicode_len() > 0 {
            Some((index, name))
        } else {
            None
        },
    }
}

/// The output devices of FFmpeg's listing.
pub fn parse_output_devices(listing: &str) -> (r: Vec<(usize, String)>)
    ensures
        device_views(r@) == devices_spec(crate::text::lines_spec(listing@)),
{
    let lines = crate::text::lines_of(listing);
    let ghost ls = crate::text::lines_spec(listing@);
    let mut out: Vec<(usize, String)> = Vec::new();
    let mut i: usize = 0;
    proof {
        assert(device_views(out@) =~= Seq::<(usize, Seq<char>)>::empty());
    }
    while i < lines.len()
        invariant
            ls == crate::text::lines_spec(listing@),
            lines@.len() == ls.len(),
            forall|k: int| 0 <= k < lines@.len() ==> (#[trigger] lines@[k])@ == ls[k],
            i <= lines@.len(),
            device_views(out@) == devices_spec(ls.subrange(0, i as int)),
        decreases lines@.len() - i,
    {
        proof {
            assert(ls.subrange(0, i + 1).drop_last() =~= ls.subrange(0, i as int));
        }
        match parse_device(lines[i].as_str()) {
            None => {},
            Some(d) => {
                let ghost before = out@;
                out.push(d);
                proof {
                    assert(device_views(out@) =~= device_views(before).push((d.0, d.1@)));
                }
            },
        }
        i = i + 1;
    }
    proof {
        assert(ls.subrange(0, ls.len() as int) =~= ls);
    }
    out
}

/// The message when FFmpeg lists no output device.
pub open spec fn no_devices_text() -> Seq<char> {
    "FFmpeg found no macOS AudioToolbox output devices; reboot after installing BlackHole and retry."@
}

/// The devices a listing outcome yields, or why there are none.
pub open spec fn listed_devices(listing: Result<Seq<char>, Seq<char>>) -> Result<Seq<(usize, Seq<char>)>, Seq<char>> {
    match listing {
        Err(e) => Err(e),
        Ok(text) => {
            let d = devices_spec(crate::text::lines_spec(text));
            if d.len() == 0 {
                Err(no_devices_text())
            } else {
                Ok(d)
            }
        },
    }
}

/// The index of the first listed device with the name.
pub open spec fn device_index_spec(devices: Seq<(usize, Seq<char>)>, name: Seq<char>) -> Option<usize>
    decreases devices.len(),
{
    if devices.len() == 0 {
        None
    } else if devices[0].1 == name {
        Some(devices[0].0)
    } else {
        device_index_spec(devices.drop_first(), name)
    }
}

/// The index of the first listed device with the name.
pub fn device_index(devices: &Vec<(usize, String)>, name: &str) -> (r: Option<usize>)
    ensures
        r == device_index_spec(device_views(devices@), name@),
{
    let ghost dv = device_views(devices@);
    let mut i: usize = 0;
    proof {
        assert(dv.subrange(0, dv.len() as int) =~= dv);
    }
    while i < devices.len()
        invariant
            dv == device_views(devices@),
            i <= devices@.len(),
            device_index_spec(dv, name@) == device_index_spec(dv.subrange(i as int, dv.len() as int), name@),
        decreases devices@.len() - i,
    {
        proof {
            let t = dv.subrange(i as int, dv.len() as int);
            assert(t.drop_first() =~= dv.subrange(i + 1, dv.len() as int));
            assert(t[0] == dv[i as int]);
        }
        if str_eq(devices[i].1.as_str(), name) {
            return Some(devices[i].0);
        }
        i = i + 1;
    }
    None
}

/// The report of starting the relay at a multiplier, from what each step
/// gave: the current output (as the switcher's JSON), FFmpeg's device
/// listing, routing to the loopback device, starting the relay process, and
/// saving its state. The first failure ends the report.
pub open spec fn relay_text(
    multiplier: u8,
    current: Result<Seq<char>, Seq<char>>,
    listing: Result<Seq<char>, Seq<char>>,
    routed: Result<Seq<char>, Seq<char>>,
    spawned: Result<u32, Seq<char>>,
    saved: Result<(), Seq<char>>,
) -> Seq<Seq<char>> {
    match current {
        Err(e) => audio_error_spec(Platform::MacOs, e),
        Ok(json) => {
            let name = match json_field_spec(json, "name"@) {
                Some(n) => n,
                None => Seq::empty(),
            };
            if name.len() == 0 || name == loopback_device() {
                seq![
                    "Could not identify a physical macOS output device."@,
                    "Reboot macOS so BlackHole 16ch appears, then select your speakers or headphones and retry."@,
                ]
            } else {
                match listed_devices(listing) {
                    Err(e) => audio_error_spec(Platform::MacOs, e),
                    Ok(devices) => match device_index_spec(devices, name) {
                        None => seq!["FFmpeg could not find the physical output device "@ + debug_quoted(name) + "."@],
                        Some(index) => match routed {
                            Err(e) => seq![
                                "Could not route macOS audio through BlackHole 16ch: "@ + e,
                                "Reboot macOS first if the BlackHole device is not listed."@,
                            ],
                            Ok(_) => match spawned {
                                Err(e) => audio_error_spec(Platform::MacOs, "could not start ffmpeg: "@ + e),
                                Ok(pid) => match saved {
                                    Err(e) => audio_error_spec(Platform::MacOs, "could not save relay state: "@ + e),
                                    Ok(()) => seq![
                                        "System audio relay started at "@ + decimal(multiplier as nat) + "x through "@ + name
                                            + "."@,
                                    ],
                                },
                            },
                        },
                    },
                }
            }
        },
    }
}

/// The state file of a running relay: its process id, the original output
/// device and the device index, one per line.
pub open spec fn relay_state_text(pid: u32, name: Seq<char>, index: usize) -> Seq<char> {
    decimal(pid as nat) + "\n"@ + name + "\n"@ + decimal(index as nat) + "\n"@
}

/// One line.
fn single_line(line: String) -> (r: Vec<String>)
    ensures
        views(r@) == seq![line@],
{
    let mut r: Vec<String> = Vec::new();
    r.push(line);
    proof {
        assert(views(r@) =~= seq![line@]);
    }
    r
}

/// Two lines.
fn two_lines(a: String, b: String) -> (r: Vec<String>)
    ensures
        views(r@) == seq![a@, b@],
{
    let mut r: Vec<String> = Vec::new();
    r.push(a);
    r.push(b);
    proof {
        assert(views(r@) =~= seq![a@, b@]);
    }
    r
}

/// Start the macOS relay that amplifies past 100%: stop any running relay,
/// find the physical output device that is current, route system audio to
/// the loopback device, start the relay to the physical device at the
/// gain, and save its state; a failed step is undone as far as it can be
/// and reported.
pub fn start_macos_relay<H: AudioRelayHost>(host: &H, multiplier: u8) -> (r: Vec<String>)
    ensures
        exists|
            c: Result<Seq<char>, Seq<char>>,
            l: Result<Seq<char>, Seq<char>>,
            t: Result<Seq<char>, Seq<char>>,
            p: Result<u32, Seq<char>>,
            v: Result<(), Seq<char>>,
        | views(r@) == #[trigger] relay_text(multiplier, c, l, t, p, v) && relay_ran(*host, multiplier, c, l, t, p, v),
        exists|w: Seq<Seq<char>>| #[trigger] relay_stopped(*host, w),
{
    let stopped = stop_macos_relay(host);
    let ghost stop_warnings_seen = views(stopped@);
    assert(relay_stopped(*host, stop_warnings_seen));
    let ghost any_t: Result<Seq<char>, Seq<char>> = Err(Seq::empty());
    let ghost any_p: Result<u32, Seq<char>> = Err(Seq::empty());
    let ghost any_v: Result<(), Seq<char>> = Err(Seq::empty());
    let mut current_args: Vec<&str> = Vec::new();
    current_args.push("-c");
    current_args.push("-t");
    current_args.push("output");
    current_args.push("-f");
    current_args.push("json");
    proof {
        reveal_strlit("-c");
        reveal_strlit("-t");
        reveal_strlit("output");
        reveal_strlit("-f");
        reveal_strlit("json");
        assert(str_views(current_args@) =~= current_output_args());
    }
    let current = host.run("SwitchAudioSource", current_args.as_slice());
    let ghost cv = run_view(current);
    let json = match current {
        Err(e) => {
            let r = audio_error(Platform::MacOs, e.as_str());
            assert(views(r@) == relay_text(multiplier, Err(e@), any_t, any_t, any_p, any_v));
            assert(relay_ran(*host, multiplier, cv, any_t, any_t, any_p, any_v));
            return r;
        },
        Ok(j) => j,
    };
    let name = match json_field(json.as_str(), "name") {
        Some(n) => n,
        None => String::new(),
    };
    proof {
        reveal_strlit("BlackHole 16ch");
    }
    if name.unicode_len() == 0 || str_eq(name.as_str(), "BlackHole 16ch") {
        let r = two_lines(
            "Could not identify a physical macOS output device.".to_string(),
            "Reboot macOS so BlackHole 16ch appears, then select your speakers or headphones and retry.".to_string(),
        );
        assert(views(r@) == relay_text(multiplier, Ok(json@), any_t, any_t, any_p, any_v));
        assert(relay_ran(*host, multiplier, cv, any_t, any_t, any_p, any_v));
        return r;
    }
    let listing = host.output_devices();
    let ghost lv = run_view(listing);
    let text = match listing {
        Err(e) => {
            let r = audio_error(Platform::MacOs, e.as_str());
            assert(views(r@) == relay_text(multiplier, Ok(json@), Err(e@), any_t, any_p, any_v));
            assert(relay_ran(*host, multiplier, cv, lv, any_t, any_p, any_v));
            return r;
        },
        Ok(t) => t,
    };
    let devices = parse_output_devices(text.as_str());
    if devices.len() == 0 {
        let r = audio_error(
            Platform::MacOs,
            "FFmpeg found no macOS AudioToolbox output devices; reboot after installing BlackHole and retry.",
        );
        assert(views(r@) == relay_text(multiplier, Ok(json@), Ok(text@), any_t, any_p, any_v));
        assert(relay_ran(*host, multiplier, cv, lv, any_t, any_p, any_v));
        return r;
    }
    let index = match device_index(&devices, name.as_str()) {
        None => {
            let quoted = quote_debug(name.as_str());
            let r = single_line(concat3("FFmpeg could not find the physical output device ", quoted.as_str(), "."));
            assert(views(r@) == relay_text(multiplier, Ok(json@), Ok(text@), any_t, any_p, any_v));
            assert(relay_ran(*host, multiplier, cv, lv, any_t, any_p, any_v));
            return r;
        },
        Some(i) => i,
    };
    let mut route_args: Vec<&str> = Vec::new();
    route_args.push("-s");
    route_args.push("BlackHole 16ch");
    proof {
        reveal_strlit("-s");
        assert(str_views(route_args@) =~= seq!["-s"@, loopback_device()]);
    }
    let routed = host.run("SwitchAudioSource", route_args.as_slice());
    let ghost routed_view = run_view(routed);
    match routed {
        Err(e) => {
            let r = two_lines(
                concat("Could not route macOS audio through BlackHole 16ch: ", e.as_str()),
                "Reboot macOS first if the BlackHole device is not listed.".to_string(),
            );
            assert(views(r@) == relay_text(multiplier, Ok(json@), Ok(text@), Err(e@), any_p, any_v));
            assert(relay_ran(*host, multiplier, cv, lv, routed_view, any_p, any_v));
            return r;
        },
        Ok(_) => {},
    }
    let gain = concat(u32_to_string(multiplier as u32).as_str(), ".0");
    assert(gain@ == gain_text(multiplier));
    let spawned = host.spawn_relay(gain.as_str(), index);
    let ghost pv = spawn_view(spawned);
    let pid = match spawned {
        Err(e) => {
            let mut restore_args: Vec<&str> = Vec::new();
            restore_args.push("-s");
            restore_args.push(name.as_str());
            let restored = host.run("SwitchAudioSource", restore_args.as_slice());
            proof {
                assert(str_views(restore_args@) =~= seq!["-s"@, name@]);
                assert(host.ran("SwitchAudioSource"@, seq!["-s"@, name@], run_view(restored)));
            }
            let detail = concat("could not start ffmpeg: ", e.as_str());
            let r = audio_error(Platform::MacOs, detail.as_str());
            assert(views(r@) == relay_text(multiplier, Ok(json@), Ok(text@), routed_view, Err(e@), any_v));
            assert(relay_ran(*host, multiplier, cv, lv, routed_view, pv, any_v));
            return r;
        },
        Ok(p) => p,
    };
    let pid_text = u32_to_string(pid);
    let state_a = concat3(pid_text.as_str(), "\n", name.as_str());
    let state_b = concat3(state_a.as_str(), "\n", crate::text::usize_to_string(index).as_str());
    let state = concat(state_b.as_str(), "\n");
    proof {
        reveal_strlit("\n");
        assert(state@ =~= relay_state_text(pid, name@, index));
    }
    let saved = host.save_relay_state(state.as_str());
    let ghost sv = save_view(saved);
    match saved {
        Err(e) => {
            let mut kill_args: Vec<&str> = Vec::new();
            kill_args.push("-TERM");
            kill_args.push(pid_text.as_str());
            let killed = host.run("kill", kill_args.as_slice());
            let mut restore_args: Vec<&str> = Vec::new();
            restore_args.push("-s");
            restore_args.push(name.as_str());
            let restored = host.run("SwitchAudioSource", restore_args.as_slice());
            proof {
                reveal_strlit("-TERM");
                assert(str_views(kill_args@) =~= seq!["-TERM"@, decimal(pid as nat)]);
                assert(host.ran("kill"@, seq!["-TERM"@, decimal(pid as nat)], run_view(killed)));
                assert(str_views(restore_args@) =~= seq!["-s"@, name@]);
                assert(host.ran("SwitchAudioSource"@, seq!["-s"@, name@], run_view(restored)));
            }
            let detail = concat("could not save relay state: ", e.as_str());
            let r = audio_error(Platform::MacOs, detail.as_str());
            assert(views(r@) == relay_text(multiplier, Ok(json@), Ok(text@), routed_view, Ok(pid), Err(e@)));
            assert(relay_ran(*host, multiplier, cv, lv, routed_view, pv, sv));
            r
        },
        Ok(()) => {
            let a = concat3("System audio relay started at ", u32_to_string(multiplier as u32).as_str(), "x through ");
            let r = single_line(concat3(a.as_str(), name.as_str(), "."));
            assert(views(r@) == relay_text(multiplier, Ok(json@), Ok(text@), routed_view, Ok(pid), Ok(())));
            assert(relay_ran(*host, multiplier, cv, lv, routed_view, pv, sv));
            r
        },
    }
}

/// The warnings of stopping a relay, from the outcomes of terminating its
/// process and of switching back to the original output device (when the
/// state names one).
pub open spec fn stop_warnings(kill: Result<Seq<char>, Seq<char>>, restore: Option<Result<Seq<char>, Seq<char>>>) -> Seq<Seq<char>> {
    (match kill {
        Err(e) => seq!["Audio relay stop warning: "@ + e],
        Ok(_) => Seq::empty(),
    }) + (match restore {
        Some(Err(e)) => seq!["Audio output restore warning: "@ + e],
        _ => Seq::empty(),
    })
}

/// Whether a relay state names an original output device: its second line
/// is present and not empty.
pub open spec fn names_original(lines: Seq<Seq<char>>) -> bool {
    lines.len() > 1 && lines[1].len() > 0
}

/// The runner terminated the process on the first line of a relay state with
/// `kill -TERM`, which gave `kill`, and, where `restore` is an outcome,
/// switched back to the device on the second line, which gave it.
pub open spec fn stop_ran<R: CommandRunner>(
    runner: R,
    lines: Seq<Seq<char>>,
    kill: Result<Seq<char>, Seq<char>>,
    restore: Option<Result<Seq<char>, Seq<char>>>,
) -> bool {
    &&& runner.ran("kill"@, seq!["-TERM"@, lines[0]], kill)
    &&& match restore {
        Some(o) => runner.ran("SwitchAudioSource"@, seq!["-s"@, lines[1]], o),
        None => true,
    }
}

/// Stopping the relay of a saved state gave these warnings: none when the
/// state has no line; else those of terminating its process and switching
/// back to its original device (when it names one), as the runner ran them.
pub open spec fn stopped_with<R: CommandRunner>(runner: R, state: Seq<char>, warnings: Seq<Seq<char>>) -> bool {
    if crate::text::lines_spec(state).len() == 0 {
        warnings.len() == 0
    } else {
        exists|kill: Result<Seq<char>, Seq<char>>, restore: Option<Result<Seq<char>, Seq<char>>>|
            (restore is Some <==> names_original(crate::text::lines_spec(state))) && warnings
                == #[trigger] stop_warnings(kill, restore) && stop_ran(runner, crate::text::lines_spec(state), kill, restore)
    }
}

/// The host read its saved relay state and stopped the relay it describes,
/// with these warnings; no state, no warning.
pub open spec fn relay_stopped<H: AudioRelayHost>(host: H, warnings: Seq<Seq<char>>) -> bool {
    exists|st: Option<Seq<char>>|
        #[trigger] host.state_read(st) && match st {
            None => warnings.len() == 0,
            Some(s) => stopped_with(host, s, warnings),
        }
}

/// Stop a running relay described by its saved state: terminate its process
/// (the first line) and switch back to the original output device (the
/// second line, when there is one), reporting each failure. Returns whether
/// there was a relay to stop, and the warnings.
pub fn stop_relay_with_state<R: CommandRunner>(runner: &R, state: &str) -> (r: (bool, Vec<String>))
    ensures
        r.0 == (crate::text::lines_spec(state@).len() > 0),
        !r.0 ==> r.1@.len() == 0,
        stopped_with(*runner, state@, views(r.1@)),
{
    let lines = crate::text::lines_of(state);
    if lines.len() == 0 {
        return (false, Vec::new());
    }
    let pid = lines[0].as_str();
    let original_name: &str = if lines.len() > 1 { lines[1].as_str() } else { "" };
    proof {
        reveal_strlit("");
        assert(original_name@.len() > 0 <==> names_original(crate::text::lines_spec(state@)));
    }
    let mut output: Vec<String> = Vec::new();
    let mut kill_args: Vec<&str> = Vec::new();
    kill_args.push("-TERM");
    kill_args.push(pid);
    proof {
        reveal_strlit("-TERM");
        assert(str_views(kill_args@) =~= seq!["-TERM"@, crate::text::lines_spec(state@)[0]]);
    }
    let killed = runner.run("kill", kill_args.as_slice());
    let ghost kill_view = run_view(killed);
    match killed {
        Err(error) => output.push(concat("Audio relay stop warning: ", error.as_str())),
        Ok(_) => {},
    }
    let ghost first = views(output@);
    let ghost mut restore_view: Option<Result<Seq<char>, Seq<char>>> = None;
    if original_name.unicode_len() > 0 {
        let mut switch_args: Vec<&str> = Vec::new();
        switch_args.push("-s");
        switch_args.push(original_name);
        proof {
            reveal_strlit("-s");
            assert(str_views(switch_args@) =~= seq!["-s"@, crate::text::lines_spec(state@)[1]]);
        }
        let switched = runner.run("SwitchAudioSource", switch_args.as_slice());
        proof {
            restore_view = Some(run_view(switched));
        }
        match switched {
            Err(error) => output.push(concat("Audio output restore warning: ", error.as_str())),
            Ok(_) => {},
        }
    }
    proof {
        let ls = crate::text::lines_spec(state@);
        if ls.len() > 1 {
            assert(lines@[1]@ == ls[1]);
        }
        assert(restore_view is Some <==> names_original(ls));
        assert(views(output@) =~= stop_warnings(kill_view, restore_view));
        assert(stop_ran(*runner, ls, kill_view, restore_view));
    }
    (true, output)
}

/// Stop the relay the host saved, if any, and forget its state when it
/// described one.
pub fn stop_macos_relay<H: AudioRelayHost>(host: &H) -> (r: Vec<String>)
    ensures
        relay_stopped(*host, views(r@)),
{
    proof {
        assert(Seq::<Seq<char>>::empty() =~= stop_warnings(Ok(Seq::empty()), None));
    }
    match host.relay_state() {
        None => {
            let r: Vec<String> = Vec::new();
            assert(host.state_read(None));
            r
        },
        Some(state) => {
            assert(host.state_read(Some(state@)));
            let (stopped, output) = stop_relay_with_state(host, state.as_str());
            if stopped {
                host.clear_relay_state();
            }
            output
        },
    }
}

/// Reset macOS output to 1x: stop any relay (its warnings come first), then
/// set the volume to 100%.
pub fn reset_macos<H: AudioRelayHost>(host: &H) -> (r: Vec<String>)
    ensures
        exists|w: Seq<Seq<char>>, o: Result<Seq<char>, Seq<char>>|
            #![trigger relay_stopped(*host, w), macos_report_spec("System audio reset to 1x (100%) via macOS."@, o)]
            relay_stopped(*host, w) && views(r@) == w + macos_report_spec(
                "System audio reset to 1x (100%) via macOS."@,
                o,
            ) && host.ran("osascript"@, seq!["-e"@, "set volume output volume 100"@], o),
{
    let mut output = stop_macos_relay(host);
    let ghost warnings = views(output@);
    let mut tail = run_macos(host, "set volume output volume 100", "System audio reset to 1x (100%) via macOS.");
    let ghost t = views(tail@);
    output.append(&mut tail);
    proof {
        assert(views(output@) =~= warnings + t);
        let o = choose|o: Result<Seq<char>, Seq<char>>| t == #[trigger] macos_report_spec(
            "System audio reset to 1x (100%) via macOS."@,
            o,
        ) && host.ran("osascript"@, seq!["-e"@, "set volume output volume 100"@], o);
        assert(relay_stopped(*host, warnings));
        assert(views(output@) == warnings + macos_report_spec("System audio reset to 1x (100%) via macOS."@, o));
    }
    output
}

/// The report of an `audio` command on macOS: gains above 1x start the relay,
/// 1x resets, status and mute changes go through AppleScript.
pub fn execute_macos<H: AudioRelayHost>(command: &str, host: &H) -> (r: Vec<String>)
    ensures
        parse_spec(command@) matches Err(m) ==> views(r@) == seq![m, usage_text()],
{
    let request = match parse(command) {
        Ok(request) => request,
        Err(message) => {
            let mut r: Vec<String> = Vec::new();
            r.push(message);
            r.push(usage());
            proof {
                assert(views(r@) =~= seq![views(r@)[0], usage_text()]);
            }
            return r;
        },
    };
    match request {
        AudioRequest::Gain(m) => if m > 1 {
            start_macos_relay(host, m)
        } else {
            reset_macos(host)
        },
        AudioRequest::Status => run_macos(host, "output volume of (get volume settings)", "System audio status via macOS: "),
        AudioRequest::Mute(action) => {
            let success = concat3("System audio ", action.label(), " via macOS.");
            run_macos(host, mute_script(action), success.as_str())
        },
    }
}

/// Execute an `audio` console command against the default system output of
/// the platform: macOS goes through AppleScript and the relay, every other
/// system through `wpctl` and `pactl`.
pub fn execute<H: AudioRelayHost>(platform: Platform, command: &str, host: &H) -> (r: Vec<String>)
    ensures
        parse_spec(command@) matches Err(m) ==> views(r@) == seq![m, usage_text()],
        platform != Platform::MacOs ==> match parse_spec(command@) {
            Err(m) => views(r@) == seq![m, usage_text()],
            Ok(request) => exists|w: Result<Seq<char>, Seq<char>>, p: Result<Seq<char>, Seq<char>>|
                views(r@) == #[trigger] report_spec(platform, request, fallback_spec(w, p)) && ran_with_fallback(
                    *host,
                    wpctl_args_spec(request),
                    pactl_args_spec(request),
                    w,
                    p,
                ),
        },
{
    if platform == Platform::MacOs {
        execute_macos(command, host)
    } else {
        execute_with_runner_on(platform, command, host)
    }
}

} // verus!

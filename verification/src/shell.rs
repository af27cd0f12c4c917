//! The console's shell boundary: which lines are `cd`, where `cd` goes, and
//! how shell outcomes are reported. Spawning and supervising the shell is
//! the caller's.
use vstd::prelude::*;
use crate::signals::{ProcessSignal, SignalController, requests_shutdown, without_interrupts, without_shutdown};
use crate::text::{trim, starts_with, strip_all_prefix, concat, str_eq, str_starts_with, strip_prefix,
    trim_str, trim_start_matches, to_chars};

verus! {

/// `p` appended to `base` as `PathBuf::join` does: an absolute `p`
/// replaces the base; otherwise a separator is added when the base is
/// non-empty and does not end in one.
pub open spec fn path_join(base: Seq<char>, p: Seq<char>) -> Seq<char> {
    if p.len() > 0 && p[0] == '/' {
        p
    } else if base.len() == 0 || base.last() == '/' {
        base + p
    } else {
        base + "/"@ + p
    }
}

/// Join a path onto a base.
pub fn join_path(base: &str, p: &str) -> (r: String)
    ensures
        r@ == path_join(base@, p@),
{
    let vp = to_chars(p);
    let vb = to_chars(base);
    if vp.len() > 0 && vp[0] == '/' {
        p.to_string()
    } else if vb.len() == 0 || vb[vb.len() - 1] == '/' {
        concat(base, p)
    } else {
        let b = concat(base, "/");
        concat(b.as_str(), p)
    }
}

/// Why `cd` has no target.
#[derive(Clone, Copy, Debug, Eq, PartialEq)]
pub enum CdError {
    /// The home directory is not known.
    HomeNotSet,
    /// There is no previous directory for `cd -`.
    NoPrevious,
}

impl CdError {
    /// The message of the error.
    pub fn message(&self) -> (s: &'static str)
        ensures
            s@ == cd_error_text(*self),
    {
        match self {
            CdError::HomeNotSet => "HOME is not set",
            CdError::NoPrevious => "no previous directory",
        }
    }
}

/// The message of a `cd` error.
pub open spec fn cd_error_text(e: CdError) -> Seq<char> {
    match e {
        CdError::HomeNotSet => "HOME is not set"@,
        CdError::NoPrevious => "no previous directory"@,
    }
}

/// Where `cd` goes, before the path is resolved on disk: home for no
/// argument or `~`, the previous directory for `-`, a path under home for
/// `~/`, else the argument from the current directory.
pub open spec fn cd_target(
    argument: Option<Seq<char>>,
    home: Option<Seq<char>>,
    previous: Option<Seq<char>>,
    current: Seq<char>,
) -> Result<Seq<char>, CdError> {
    let arg = match argument {
        Some(a) => if trim(a).len() > 0 {
            Some(trim(a))
        } else {
            None
        },
        None => None,
    };
    match arg {
        None => match home {
            Some(h) => Ok(h),
            None => Err(CdError::HomeNotSet),
        },
        Some(v) => if v == "-"@ {
            match previous {
                Some(p) => Ok(p),
                None => Err(CdError::NoPrevious),
            }
        } else if v == "~"@ {
            match home {
                Some(h) => Ok(h),
                None => Err(CdError::HomeNotSet),
            }
        } else if starts_with(v, "~/"@) {
            match home {
                Some(h) => Ok(path_join(h, strip_all_prefix(v, "~/"@))),
                None => Err(CdError::HomeNotSet),
            }
        } else {
            Ok(path_join(current, v))
        },
    }
}

/// The text of an optional string.
pub open spec fn opt_text(v: Option<&str>) -> Option<Seq<char>> {
    match v {
        Some(t) => Some(t@),
        None => None,
    }
}

/// Tracks the console's current and previous working directories.
#[derive(Clone, Debug)]
pub struct WorkingDirectoryManager {
    current: String,
    previous: Option<String>,
}

impl WorkingDirectoryManager {
    /// The current directory.
    pub closed spec fn current_dir(self) -> Seq<char> {
        self.current@
    }

    /// The previous directory, if any.
    pub closed spec fn previous_dir(self) -> Option<Seq<char>> {
        match self.previous {
            Some(p) => Some(p@),
            None => None,
        }
    }

    /// A manager at an explicit directory, with no previous one.
    pub fn from_path(path: String) -> (r: Self)
        ensures
            r.current_dir() == path@,
            r.previous_dir() is None,
    {
        WorkingDirectoryManager { current: path, previous: None }
    }

    /// The current directory.
    pub fn current(&self) -> (s: &str)
        ensures
            s@ == self.current_dir(),
    {
        self.current.as_str()
    }

    /// Where `cd` with this argument goes.
    pub fn target(&self, argument: Option<&str>, home: Option<&str>) -> (r: Result<String, CdError>)
        ensures
            match r {
                Ok(t) => cd_target(opt_text(argument), opt_text(home), self.previous_dir(), self.current_dir()) == Ok::<
                    Seq<char>,
                    CdError,
                >(t@),
                Err(e) => cd_target(opt_text(argument), opt_text(home), self.previous_dir(), self.current_dir()) == Err::<
                    Seq<char>,
                    CdError,
                >(e),
            },
    {
        let arg: Option<String> = match argument {
            Some(a) => {
                let t = trim_str(a);
                if t.unicode_len() > 0 {
                    Some(t)
                } else {
                    None
                }
            },
            None => None,
        };
        match arg {
            None => match home {
                Some(h) => Ok(h.to_string()),
                None => Err(CdError::HomeNotSet),
            },
            Some(v) => {
                if str_eq(v.as_str(), "-") {
                    match &self.previous {
                        Some(p) => Ok(p.clone()),
                        None => Err(CdError::NoPrevious),
                    }
                } else if str_eq(v.as_str(), "~") {
                    match home {
                        Some(h) => Ok(h.to_string()),
                        None => Err(CdError::HomeNotSet),
                    }
                } else if str_starts_with(v.as_str(), "~/") {
                    match home {
                        Some(h) => {
                            let rest = trim_start_matches(v.as_str(), "~/");
                            Ok(join_path(h, rest.as_str()))
                        },
                        None => Err(CdError::HomeNotSet),
                    }
                } else {
                    Ok(join_path(self.current.as_str(), v.as_str()))
                }
            },
        }
    }

    /// Enter a resolved directory; the current one becomes the previous.
    pub fn enter(&mut self, directory: String)
        ensures
            final(self).current_dir() == directory@,
            final(self).previous_dir() == Some(old(self).current_dir()),
    {
        let mut d = directory;
        std::mem::swap(&mut d, &mut self.current);
        self.previous = Some(d);
    }
}

/// What the shell controller does with a line.
#[derive(Clone, Debug, Eq, PartialEq)]
pub enum ShellInput {
    /// `cd`, with its argument when there is one.
    ChangeDirectory(Option<String>),
    /// Any other command, trimmed, for the configured shell.
    Run(String),
}

/// Classify a line: `cd` alone or `cd ` and an argument change directory;
/// anything else runs in the shell.
pub fn shell_input(command: &str) -> (r: ShellInput)
    ensures
        ({
            let t = trim(command@);
            if t == "cd"@ || starts_with(t, "cd "@) {
                let a = trim(t.subrange(2, t.len() as int));
                r matches ShellInput::ChangeDirectory(arg) && (if a.len() > 0 {
                    arg matches Some(x) && x@ == a
                } else {
                    arg is None
                })
            } else {
                r matches ShellInput::Run(c) && c@ == t
            }
        }),
{
    let t = trim_str(command);
    proof {
        reveal_strlit("cd");
        reveal_strlit("cd ");
    }
    if str_eq(t.as_str(), "cd") || str_starts_with(t.as_str(), "cd ") {
        let rest = match strip_prefix(t.as_str(), "cd") {
            Some(r) => r,
            None => {
                proof {
                    if t@ != "cd"@ {
                        assert(t@.subrange(0, 2) =~= t@.subrange(0, 3).subrange(0, 2));
                        assert("cd "@.subrange(0, 2) =~= "cd"@);
                    }
                    assert(t@.subrange(0, 2) =~= "cd"@);
                }
                String::new()
            },
        };
        let a = trim_str(rest.as_str());
        if a.unicode_len() > 0 {
            ShellInput::ChangeDirectory(Some(a))
        } else {
            ShellInput::ChangeDirectory(None)
        }
    } else {
        ShellInput::Run(t)
    }
}

/// The report of a successful `cd`.
pub fn changed_directory_line(directory: &str) -> (s: String)
    ensures
        s@ == "Changed directory to "@ + directory@,
{
    concat("Changed directory to ", directory)
}

/// The report of a failed `cd`.
pub fn cd_failure_line(message: &str) -> (s: String)
    ensures
        s@ == "cd: "@ + message@,
{
    concat("cd: ", message)
}

/// The report of a shell command's exit: nothing on success, else its exit
/// code, or that a signal ended it.
pub fn exit_lines(success: bool, code: Option<i32>) -> (r: Vec<String>)
    ensures
        success ==> r@.len() == 0,
        !success ==> r@.len() == 1 && r@[0]@ == "[exit status: "@ + match code {
            Some(c) => crate::text::signed_decimal(c as int),
            None => "signal termination"@,
        } + "]"@,
{
    let mut r: Vec<String> = Vec::new();
    if !success {
        let text = match code {
            Some(c) => crate::text::i32_to_string(c),
            None => "signal termination".to_string(),
        };
        let a = concat("[exit status: ", text.as_str());
        r.push(concat(a.as_str(), "]"));
    }
    r
}

/// The report of a shell that could not run.
pub fn shell_failure_line(message: &str) -> (s: String)
    ensures
        s@ == "shell: "@ + message@,
{
    concat("shell: ", message)
}

/// Executes commands through the user's configured shell.
#[derive(Clone, Debug)]
pub struct ShellExecutor {
    shell: String,
}

impl ShellExecutor {
    /// The shell program.
    pub closed spec fn program(self) -> Seq<char> {
        self.shell@
    }

    /// An executor for a known shell.
    pub fn from_path(shell: String) -> (r: Self)
        ensures
            r.program() == shell@,
    {
        ShellExecutor { shell }
    }

    /// The resolved shell path.
    pub fn shell(&self) -> (s: &str)
        ensures
            s@ == self.program(),
    {
        self.shell.as_str()
    }
}

/// The first candidate shell that exists: `$SHELL`, then `/bin/bash`, then
/// `/bin/sh`; `exists` says which candidates are files.
pub fn choose_shell(configured: Option<&str>, configured_exists: bool, bash_exists: bool, sh_exists: bool) -> (r: Option<String>)
    ensures
        configured is Some && configured_exists ==> (r matches Some(s) && s@ == configured->0@),
        !(configured is Some && configured_exists) && bash_exists ==> (r matches Some(s) && s@ == "/bin/bash"@),
        !(configured is Some && configured_exists) && !bash_exists && sh_exists ==> (r matches Some(s) && s@
            == "/bin/sh"@),
        !(configured is Some && configured_exists) && !bash_exists && !sh_exists ==> r is None,
{
    match configured {
        Some(c) => if configured_exists {
            return Some(c.to_string());
        },
        None => {},
    }
    if bash_exists {
        Some("/bin/bash".to_string())
    } else if sh_exists {
        Some("/bin/sh".to_string())
    } else {
        None
    }
}

/// Executes `cd` internally or delegates ordinary commands to the shell.
#[derive(Debug)]
pub struct ShellCommandController {
    /// Shell executor.
    pub executor: ShellExecutor,
    /// Persistent directory manager.
    pub directory: WorkingDirectoryManager,
    /// Process-signal controller shared with the application.
    pub signals: SignalController,
}


/// How polling a running shell child came out.
#[derive(Debug)]
pub enum ChildPoll {
    /// The child still runs.
    Running,
    /// The child exited, successfully or not, with its exit code if it has
    /// one.
    Exited { success: bool, code: Option<i32> },
    /// The child could not be waited for; the reason.
    Failed(String),
}

/// The lines that end the supervision of a child after a poll: its exit
/// report, or the shell failure; none while it still runs.
pub fn after_poll(poll: ChildPoll) -> (r: Option<Vec<String>>)
    ensures
        match poll {
            ChildPoll::Running => r is None,
            ChildPoll::Exited { success, code } => r matches Some(v) && (success ==> v@.len() == 0) && (!success
                ==> v@.len() == 1 && v@[0]@ == "[exit status: "@ + match code {
                Some(c) => crate::text::signed_decimal(c as int),
                None => "signal termination"@,
            } + "]"@),
            ChildPoll::Failed(m) => r matches Some(v) && v@.len() == 1 && v@[0]@ == "shell: "@ + m@,
        },
{
    match poll {
        ChildPoll::Running => None,
        ChildPoll::Exited { success, code } => Some(exit_lines(success, code)),
        ChildPoll::Failed(message) => {
            let mut v: Vec<String> = Vec::new();
            v.push(shell_failure_line(message.as_str()));
            Some(v)
        },
    }
}

/// Taking the interrupts from a queue that holds none keeps it as it is.
proof fn lemma_no_interrupts_kept(q: Seq<ProcessSignal>)
    requires
        !q.contains(ProcessSignal::Interrupt),
    ensures
        without_interrupts(q) == q,
    decreases q.len(),
{
    reveal(Seq::filter);
    if q.len() > 0 {
        let d = q.drop_last();
        assert forall|i: int| 0 <= i < d.len() implies d[i] != ProcessSignal::Interrupt by {
            assert(q[i] == d[i]);
        }
        lemma_no_interrupts_kept(d);
        assert(q[q.len() - 1] != ProcessSignal::Interrupt);
        assert(d.push(q.last()) =~= q);
    }
}

/// Whether the signals received stop a running child: an interrupt, a
/// shutdown request, or the shutdown flag.
pub open spec fn stop_requested(queue: Seq<ProcessSignal>, shutdown: bool) -> bool {
    queue.contains(ProcessSignal::Interrupt) || shutdown || exists|i: int|
        0 <= i < queue.len() && requests_shutdown(#[trigger] queue[i])
}

/// The queue after the stop check: the interrupts are taken; only when there
/// was none, the shutdown requests are taken too.
pub open spec fn queue_after_stop_check(queue: Seq<ProcessSignal>) -> Seq<ProcessSignal> {
    if queue.contains(ProcessSignal::Interrupt) {
        without_interrupts(queue)
    } else {
        without_shutdown(without_interrupts(queue))
    }
}

impl ShellCommandController {
    /// Whether a signal must stop the running child: an interrupt is taken
    /// first, and only when there is none the shutdown request is taken
    /// (the others stay queued). When it must, the child's process group is
    /// terminated if it has its own (`grouped`), and the child is killed if
    /// it still runs after the grace period.
    pub fn child_must_stop(&mut self) -> (b: bool)
        ensures
            b == stop_requested(old(self).signals.queue(), old(self).signals.shutdown_flag()),
            final(self).signals.queue() == queue_after_stop_check(old(self).signals.queue()),
            final(self).signals.shutdown_flag() == old(self).signals.shutdown_flag(),
            final(self).executor == old(self).executor,
            final(self).directory == old(self).directory,
    {
        proof {
            if !self.signals.queue().contains(ProcessSignal::Interrupt) {
                lemma_no_interrupts_kept(self.signals.queue());
            }
        }
        self.signals.take_interrupt() || self.signals.take_shutdown()
    }
}

/// After entering a directory, `cd -` goes back to the directory that was
/// current before, whatever the home directory.
pub proof fn lemma_cd_dash_returns(before: WorkingDirectoryManager, after: WorkingDirectoryManager, home: Option<Seq<char>>)
    requires
        after.previous_dir() == Some(before.current_dir()),
    ensures
        cd_target(Some("-"@), home, after.previous_dir(), after.current_dir()) == Ok::<Seq<char>, CdError>(
            before.current_dir(),
        ),
{
    reveal_strlit("-");
    let d = "-"@;
    assert(d.len() == 1 && d[0] == '-');
    assert(!crate::text::is_ws('-'));
    reveal_with_fuel(crate::text::trim_start, 2);
    reveal_with_fuel(crate::text::trim_end, 2);
    assert(crate::text::trim_start(d) == d);
    assert(crate::text::trim_end(d) == d);
    assert(trim(d) == d);
    reveal_strlit("~");
    assert("~"@[0] == '~');
    assert(d != "~"@);
}

} // verus!

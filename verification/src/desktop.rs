//! Terminal and desktop integration contracts: how a prompt is routed to a
//! native command, a dynamic capability or intent planning, and the
//! boundaries of the desktop adapters.
use vstd::prelude::*;
use crate::common::{FoundationEvent, OidError};
use crate::operation::{join, join_strings};
use crate::plugin::{all_commands, command_names, completion_set, finds, same_command, CapabilityCommand, CapabilityRegistry, RegisteredCapability};
use crate::text::{concat, concat3, split_words, str_eq, trim, trim_str, views, words};
use crate::order::strictly_sorted;

verus! {

/// A validated D-Bus method call description.
#[derive(Clone, Debug, Eq, PartialEq)]
pub struct DbusMethodCall {
    /// Bus destination name.
    pub destination: String,
    /// Object path.
    pub path: String,
    /// Interface name.
    pub interface: String,
    /// Method name.
    pub method: String,
}

impl DbusMethodCall {
    /// Construct a D-Bus call descriptor.
    pub fn new(destination: &str, path: &str, interface: &str, method: &str) -> (r: Self)
        ensures
            r.destination@ == destination@,
            r.path@ == path@,
            r.interface@ == interface@,
            r.method@ == method@,
    {
        DbusMethodCall {
            destination: String::from_str(destination),
            path: String::from_str(path),
            interface: String::from_str(interface),
            method: String::from_str(method),
        }
    }
}

/// Boundary for isolated D-Bus adapters.
pub trait DbusTransport {
    /// Execute a read-only D-Bus method call.
    fn call_read_only(&self, call: &DbusMethodCall) -> Result<String, OidError>;
}

/// Whether an executable of that name is on the search path; supplied by
/// the caller, which owns the file system.
pub trait PathLookup {
    /// `found` is what looking `command` up gave, for this lookup. A lookup
    /// that keeps no record relates every command to both answers.
    closed spec fn looked_up(&self, command: Seq<char>, found: bool) -> bool {
        true
    }

    /// Whether `command` names an executable file, directly or on `PATH`.
    fn command_on_path(&self, command: &str) -> (b: bool)
        ensures
            self.looked_up(command@, b),
    ;
}

/// The execution path selected for one prompt.
#[derive(Clone, Debug, Eq, PartialEq)]
pub enum InputRoute {
    /// Execute an existing operating-system command unchanged.
    NativeCli {
        /// Executable name.
        command: String,
        /// Arguments after the executable.
        args: Vec<String>,
    },
    /// Execute a registered, governed capability.
    DynamicCapability {
        /// Registered capability command metadata.
        command: CapabilityCommand,
        /// Arguments after the capability command.
        args: Vec<String>,
    },
    /// Pass the complete request to intent planning.
    Intent {
        /// Original user input.
        request: String,
    },
}

/// The commands every desktop has, routed natively without a path lookup.
pub open spec fn common_native_commands() -> Seq<Seq<char>> {
    seq![
        "awk"@, "bash"@, "cargo"@, "cat"@, "chmod"@, "cp"@, "curl"@, "docker"@, "find"@, "git"@,
        "grep"@, "kill"@, "ls"@, "make"@, "mkdir"@, "mv"@, "ps"@, "pwd"@, "rm"@, "sed"@, "ssh"@,
        "systemctl"@, "tar"@, "touch"@, "uname"@, "whoami"@,
    ]
}

/// Whether a command is one every desktop has.
pub fn is_common_native_command(command: &str) -> (b: bool)
    ensures
        b == common_native_commands().contains(command@),
{
    let mut list: Vec<&str> = Vec::new();
    list.push("awk");
    list.push("bash");
    list.push("cargo");
    list.push("cat");
    list.push("chmod");
    list.push("cp");
    list.push("curl");
    list.push("docker");
    list.push("find");
    list.push("git");
    list.push("grep");
    list.push("kill");
    list.push("ls");
    list.push("make");
    list.push("mkdir");
    list.push("mv");
    list.push("ps");
    list.push("pwd");
    list.push("rm");
    list.push("sed");
    list.push("ssh");
    list.push("systemctl");
    list.push("tar");
    list.push("touch");
    list.push("uname");
    list.push("whoami");
    let ghost all = common_native_commands();
    proof {
        assert(list@.map_values(|s: &str| s@) =~= all);
    }
    let mut i: usize = 0;
    while i < list.len()
        invariant
            i <= list@.len(),
            list@.map_values(|s: &str| s@) == all,
            all == common_native_commands(),
            forall|k: int| 0 <= k < i ==> all[k] != command@,
        decreases list@.len() - i,
    {
        if str_eq(list[i], command) {
            proof {
                assert(list@.map_values(|s: &str| s@)[i as int] == list@[i as int]@);
                assert(all[i as int] == command@);
                assert(all.contains(command@));
                assert(common_native_commands().contains(command@));
            }
            return true;
        }
        proof {
            assert(all[i as int] == list@[i as int]@);
        }
        i = i + 1;
    }
    false
}

/// The words after the first.
pub open spec fn arguments_of(ws: Seq<Seq<char>>) -> Seq<Seq<char>> {
    ws.drop_first()
}

/// Routes terminal input while preserving native command compatibility.
#[derive(Debug)]
pub struct InputRouter {
    registry: CapabilityRegistry,
}

/// The help line of a dynamic command: its name, its aliases when it has
/// any, and its description.
pub open spec fn help_line(c: CapabilityCommand) -> Seq<char> {
    let aliases = if c.aliases@.len() == 0 {
        Seq::empty()
    } else {
        " (aliases: "@ + join(views(c.aliases@), ", "@) + ")"@
    };
    "  "@ + c.name@ + aliases + "  "@ + c.description@
}

impl InputRouter {
    /// The capabilities the router knows.
    pub closed spec fn capabilities(self) -> Seq<RegisteredCapability> {
        self.registry.listing()
    }

    /// Construct a router over a capability registry.
    pub fn new(registry: CapabilityRegistry) -> (r: Self)
        ensures
            r.capabilities() == registry.listing(),
    {
        InputRouter { registry }
    }

    /// Return the backing capability registry.
    pub fn registry(&self) -> (r: &CapabilityRegistry)
        ensures
            r.listing() == self.capabilities(),
    {
        &self.registry
    }

    /// Classify input: blank input goes to intent planning; otherwise the
    /// first word picks a dynamic capability that answers to it, else a
    /// native command (a common one, or one found on the search path), else
    /// the whole trimmed request goes to intent planning.
    pub fn route<P: PathLookup>(&self, input: &str, paths: &P) -> (r: InputRoute)
        ensures
            ({
                let request = trim(input@);
                let ws = words(request);
                let all = all_commands(self.capabilities());
                if ws.len() == 0 {
                    r matches InputRoute::Intent { request: q } && q@ == request
                } else if exists|j: int| finds(all, ws[0], j) {
                    r matches InputRoute::DynamicCapability { command, args } && views(args@) == arguments_of(ws)
                        && exists|j: int| finds(all, ws[0], j) && same_command(command, #[trigger] all[j])
                } else if common_native_commands().contains(ws[0]) {
                    r matches InputRoute::NativeCli { command, args } && command@ == ws[0] && views(args@) == arguments_of(ws)
                } else {
                    exists|found: bool| {
                        &&& #[trigger] paths.looked_up(ws[0], found)
                        &&& found ==> (r matches InputRoute::NativeCli { command, args } && command@ == ws[0] && views(
                            args@,
                        ) == arguments_of(ws))
                        &&& !found ==> (r matches InputRoute::Intent { request: q } && q@ == request)
                    }
                }
            }),
    {
        let request = trim_str(input);
        let tokens = split_words(request.as_str());
        if tokens.len() == 0 {
            return InputRoute::Intent { request };
        }
        let ghost all = all_commands(self.capabilities());
        let ghost ws = words(request@);
        let found = self.registry.find_command(tokens[0].as_str());
        let args = rest_of(&tokens);
        match found {
            Some(command) => {
                proof {
                    let j = choose|j: int| finds(all, ws[0], j) && same_command(command, #[trigger] all[j]);
                    assert(finds(all, ws[0], j));
                }
                InputRoute::DynamicCapability { command, args }
            },
            None => {
                proof {
                    assert(!exists|j: int| finds(all, ws[0], j));
                }
                if is_common_native_command(tokens[0].as_str()) {
                    return InputRoute::NativeCli { command: tokens[0].clone(), args };
                }
                let on_path = paths.command_on_path(tokens[0].as_str());
                proof {
                    assert(paths.looked_up(ws[0], on_path));
                }
                if on_path {
                    InputRoute::NativeCli { command: tokens[0].clone(), args }
                } else {
                    InputRoute::Intent { request }
                }
            },
        }
    }

    /// Provide help lines for all currently loaded dynamic commands, in
    /// capability order and then command order.
    pub fn help_lines(&self) -> (r: Vec<String>)
        ensures
            views(r@) == all_commands(self.capabilities()).map_values(|c: CapabilityCommand| help_line(c)),
    {
        let caps = self.registry.list();
        let ghost listing = self.capabilities();
        let mut out: Vec<String> = Vec::new();
        let mut k: usize = 0;
        while k < caps.len()
            invariant
                caps@.len() == listing.len(),
                forall|i: int| 0 <= i < caps@.len() ==> crate::plugin::same_capability(#[trigger] caps@[i], listing[i]),
                k <= caps@.len(),
                views(out@) == all_commands(listing.take(k as int)).map_values(|c: CapabilityCommand| help_line(c)),
            decreases caps@.len() - k,
        {
            let commands = &caps[k].descriptor.commands;
            let ghost base = views(out@);
            let ghost originals = listing[k as int].descriptor.commands@;
            proof {
                assert(listing.take(k + 1).drop_last() =~= listing.take(k as int));
                assert(crate::plugin::same_capability(caps@[k as int], listing[k as int]));
            }
            let mut i: usize = 0;
            while i < commands.len()
                invariant
                    commands@.len() == originals.len(),
                    forall|j: int| 0 <= j < commands@.len() ==> same_command(#[trigger] commands@[j], originals[j]),
                    i <= commands@.len(),
                    views(out@) == base + originals.take(i as int).map_values(|c: CapabilityCommand| help_line(c)),
                decreases commands@.len() - i,
            {
                let ghost before = views(out@);
                let line = command_help_line(&commands[i]);
                out.push(line);
                proof {
                    assert(same_command(commands@[i as int], originals[i as int]));
                    assert(originals.take(i + 1).map_values(|c: CapabilityCommand| help_line(c)) =~= originals.take(
                        i as int,
                    ).map_values(|c: CapabilityCommand| help_line(c)).push(help_line(originals[i as int])));
                    assert(views(out@) =~= before.push(help_line(originals[i as int])));
                }
                i = i + 1;
            }
            proof {
                assert(originals.take(originals.len() as int) =~= originals);
                assert(all_commands(listing.take(k + 1)) == all_commands(listing.take(k as int)) + originals);
                assert(all_commands(listing.take(k + 1)).map_values(|c: CapabilityCommand| help_line(c)) =~= all_commands(
                    listing.take(k as int),
                ).map_values(|c: CapabilityCommand| help_line(c)) + originals.map_values(|c: CapabilityCommand| help_line(c)));
            }
            k = k + 1;
        }
        proof {
            assert(listing.take(listing.len() as int) =~= listing);
        }
        out
    }

    /// Provide command-name completion candidates: the dynamic names and
    /// aliases that begin with the prefix, sorted, without repeats.
    pub fn complete(&self, prefix: &str) -> (r: Vec<String>)
        ensures
            strictly_sorted(views(r@)),
            views(r@).to_set() == completion_set(self.capabilities(), prefix@),
    {
        self.registry.complete(prefix)
    }
}

/// The help line of one command.
fn command_help_line(c: &CapabilityCommand) -> (s: String)
    ensures
        s@ == help_line(*c),
{
    let mut line = concat("  ", c.name.as_str());
    if c.aliases.len() > 0 {
        let joined = join_strings(&c.aliases, ", ");
        line.append(concat3(" (aliases: ", joined.as_str(), ")").as_str());
    }
    line.append("  ");
    line.append(c.description.as_str());
    line
}

/// The words after the first, as owned strings.
fn rest_of(tokens: &Vec<String>) -> (r: Vec<String>)
    requires
        tokens@.len() > 0,
    ensures
        views(r@) == views(tokens@).drop_first(),
{
    let mut r: Vec<String> = Vec::new();
    let mut i: usize = 1;
    while i < tokens.len()
        invariant
            1 <= i <= tokens@.len(),
            views(r@) == views(tokens@).subrange(1, i as int),
        decreases tokens@.len() - i,
    {
        let ghost before = views(r@);
        r.push(tokens[i].clone());
        proof {
            assert(views(r@) =~= before.push(tokens@[i as int]@));
            assert(views(r@) =~= views(tokens@).subrange(1, i + 1));
        }
        i = i + 1;
    }
    proof {
        assert(views(tokens@).subrange(1, tokens@.len() as int) =~= views(tokens@).drop_first());
    }
    r
}

/// User-visible operation plan.
#[derive(Clone, Debug, Eq, PartialEq)]
pub struct UserPlan {
    /// What is proposed.
    pub action: String,
    /// Why the action is being proposed.
    pub rationale: String,
    /// How the action can be undone, when supported.
    pub undo: Option<String>,
}

/// Boundary for rendering plans and evidence to a terminal or desktop surface.
pub trait ShellSurface {
    /// Render a plan before execution.
    fn show_plan(&self, plan: &UserPlan);

    /// Render a lifecycle event.
    fn show_event(&self, event: &FoundationEvent);
}

/// Boundary for receiving user decisions from a shell surface.
pub trait ApprovalInput {
    /// Ask the user for approval of a visible plan.
    fn request_approval(&self, plan: &UserPlan) -> bool;
}

/// Identifies the desktop boundary.
pub fn boundary_name() -> (s: &'static str)
    ensures
        s@ == "desktop-shell"@,
{
    "desktop-shell"
}

} // verus!

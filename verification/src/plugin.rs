//! Plugin extension contracts: the registry of dynamic capabilities and the
//! commands they contribute to the console. No plugin code is loaded or run
//! here; the registry only decides which command names a capability may own.
use vstd::prelude::*;
use crate::common::{OidError, OidErrorV, PluginId, SkillId};
use crate::order::{insert_sorted, lex_lt, lex_less, strictly_sorted, lemma_sorted_slot, lemma_sorted_insert, lemma_sorted_remove};
use crate::text::{clone_strings, concat, contains_str, has_ws, is_blank, starts_with, str_eq, str_has_whitespace, str_is_blank, str_starts_with, views};

verus! {

/// Describes one command exposed by a loaded capability.
#[derive(Clone, Debug, Eq, PartialEq)]
pub struct CapabilityCommand {
    /// Command name typed at the beginning of a prompt.
    pub name: String,
    /// Human-readable command description.
    pub description: String,
    /// Additional names accepted by the router.
    pub aliases: Vec<String>,
    /// Skill that owns governed execution for this command.
    pub skill_id: SkillId,
    /// Whether the command may change system state.
    pub mutates_system: bool,
    /// Completion candidates for the command's arguments.
    pub completion: Vec<String>,
}

/// A name a command may be typed by: not blank and without whitespace.
pub open spec fn valid_command_name(name: Seq<char>) -> bool {
    !is_blank(name) && !has_ws(name)
}

/// The names a command answers to: its name, then its aliases in order.
pub open spec fn command_names(c: CapabilityCommand) -> Seq<Seq<char>> {
    seq![c.name@] + views(c.aliases@)
}

/// What `validate` decides for a command.
pub open spec fn validate_spec(c: CapabilityCommand) -> Result<(), OidErrorV> {
    if !valid_command_name(c.name@) {
        Err(OidErrorV::InvalidInput("capability command name"@))
    } else if is_blank(c.description@) {
        Err(OidErrorV::InvalidInput("capability command description"@))
    } else if exists|i: int| 0 <= i < c.aliases@.len() && !valid_command_name(#[trigger] c.aliases@[i]@) {
        Err(OidErrorV::InvalidInput("capability command alias"@))
    } else {
        Ok(())
    }
}

/// Two commands with the same fields.
pub open spec fn same_command(a: CapabilityCommand, b: CapabilityCommand) -> bool {
    &&& a.name@ == b.name@
    &&& a.description@ == b.description@
    &&& views(a.aliases@) == views(b.aliases@)
    &&& a.skill_id == b.skill_id
    &&& a.mutates_system == b.mutates_system
    &&& views(a.completion@) == views(b.completion@)
}

/// Whether every string of a list is a valid command name.
fn all_valid_names(v: &Vec<String>) -> (b: bool)
    ensures
        b == forall|i: int| 0 <= i < v@.len() ==> valid_command_name(#[trigger] v@[i]@),
{
    let mut i: usize = 0;
    while i < v.len()
        invariant
            i <= v@.len(),
            forall|k: int| 0 <= k < i ==> valid_command_name(#[trigger] v@[k]@),
        decreases v@.len() - i,
    {
        if str_is_blank(v[i].as_str()) || str_has_whitespace(v[i].as_str()) {
            return false;
        }
        i = i + 1;
    }
    true
}

impl CapabilityCommand {
    /// Validate command metadata before registration: the name must be a
    /// valid command name, the description not blank, and every alias a valid
    /// command name, checked in that order.
    pub fn validate(&self) -> (r: Result<(), OidError>)
        ensures
            match validate_spec(*self) {
                Ok(()) => r is Ok,
                Err(e) => r matches Err(x) && x@ == e,
            },
    {
        if str_is_blank(self.name.as_str()) || str_has_whitespace(self.name.as_str()) {
            return Err(OidError::InvalidInput(String::from_str("capability command name")));
        }
        if str_is_blank(self.description.as_str()) {
            return Err(OidError::InvalidInput(String::from_str("capability command description")));
        }
        if !all_valid_names(&self.aliases) {
            return Err(OidError::InvalidInput(String::from_str("capability command alias")));
        }
        Ok(())
    }

    /// Return whether this command or one of its aliases matches a name.
    pub fn matches(&self, name: &str) -> (b: bool)
        ensures
            b == command_names(*self).contains(name@),
    {
        let r = str_eq(self.name.as_str(), name) || contains_str(&self.aliases, name);
        proof {
            let names = command_names(*self);
            if names.contains(name@) {
                let k = choose|k: int| 0 <= k < names.len() && names[k] == name@;
                if k > 0 {
                    assert(views(self.aliases@)[k - 1] == name@);
                }
            }
            if self.name@ == name@ {
                assert(names[0] == name@);
            }
            if views(self.aliases@).contains(name@) {
                let k = choose|k: int| 0 <= k < views(self.aliases@).len() && views(self.aliases@)[k] == name@;
                assert(names[k + 1] == name@);
            }
        }
        r
    }

    /// A copy of the command.
    pub fn duplicate(&self) -> (r: Self)
        ensures
            same_command(r, *self),
    {
        CapabilityCommand {
            name: self.name.clone(),
            description: self.description.clone(),
            aliases: clone_strings(&self.aliases),
            skill_id: self.skill_id.copy(),
            mutates_system: self.mutates_system,
            completion: clone_strings(&self.completion),
        }
    }
}

/// A plugin capability and the commands it contributes.
#[derive(Clone, Debug, Eq, PartialEq)]
pub struct CapabilityDescriptor {
    /// Stable capability identity.
    pub id: SkillId,
    /// Plugin that provided the capability.
    pub plugin_id: PluginId,
    /// Commands made available while the capability is loaded.
    pub commands: Vec<CapabilityCommand>,
}

/// Snapshot returned by registry discovery.
#[derive(Clone, Debug, Eq, PartialEq)]
pub struct RegisteredCapability {
    /// Capability metadata.
    pub descriptor: CapabilityDescriptor,
}

/// Two capabilities with the same metadata.
pub open spec fn same_capability(a: RegisteredCapability, b: RegisteredCapability) -> bool {
    &&& a.descriptor.id == b.descriptor.id
    &&& a.descriptor.plugin_id == b.descriptor.plugin_id
    &&& a.descriptor.commands@.len() == b.descriptor.commands@.len()
    &&& forall|i: int| 0 <= i < a.descriptor.commands@.len() ==> same_command(
        #[trigger] a.descriptor.commands@[i],
        b.descriptor.commands@[i],
    )
}

/// The names of a sequence of commands, command by command.
pub open spec fn flat_names(cs: Seq<CapabilityCommand>) -> Seq<Seq<char>>
    decreases cs.len(),
{
    if cs.len() == 0 {
        Seq::empty()
    } else {
        flat_names(cs.drop_last()) + command_names(cs.last())
    }
}

/// The names a capability's commands answer to.
pub open spec fn capability_names(c: RegisteredCapability) -> Seq<Seq<char>> {
    flat_names(c.descriptor.commands@)
}

/// Whether one of a command's names is reserved for a native command.
pub open spec fn shadows_native(c: CapabilityCommand, native: Set<Seq<char>>) -> bool {
    exists|i: int| 0 <= i < command_names(c).len() && native.contains(#[trigger] command_names(c)[i])
}

/// The checks of a capability's first `k` commands, in order: each must
/// validate, answer to no native name, and add no name already given.
pub open spec fn scan_commands(native: Set<Seq<char>>, cs: Seq<CapabilityCommand>, k: nat) -> Result<(), OidErrorV>
    decreases k,
{
    if k == 0 {
        Ok(())
    } else {
        match scan_commands(native, cs, (k - 1) as nat) {
            Err(e) => Err(e),
            Ok(()) => {
                let c = cs[k - 1];
                match validate_spec(c) {
                    Err(e) => Err(e),
                    Ok(()) => if shadows_native(c, native) {
                        Err(OidErrorV::Unauthorized("dynamic command shadows native command: "@ + c.name@))
                    } else if !flat_names(cs.take(k as int)).no_duplicates() {
                        Err(OidErrorV::InvalidInput("duplicate capability command name"@))
                    } else {
                        Ok(())
                    },
                }
            },
        }
    }
}

/// Every name that a registered capability's commands answer to.
pub open spec fn registered_names(caps: Seq<RegisteredCapability>) -> Set<Seq<char>> {
    Set::new(|n: Seq<char>| exists|i: int| 0 <= i < caps.len() && #[trigger] capability_names(caps[i]).contains(n))
}

/// The ids of registered capabilities.
pub open spec fn capability_ids(caps: Seq<RegisteredCapability>) -> Seq<Seq<char>> {
    caps.map_values(|c: RegisteredCapability| c.descriptor.id@)
}

/// What `register` decides for a descriptor.
pub open spec fn register_spec(
    native: Set<Seq<char>>,
    caps: Seq<RegisteredCapability>,
    d: CapabilityDescriptor,
) -> Result<(), OidErrorV> {
    if d.commands@.len() == 0 {
        Err(OidErrorV::InvalidInput("capability must expose a command"@))
    } else {
        match scan_commands(native, d.commands@, d.commands@.len()) {
            Err(e) => Err(e),
            Ok(()) => if exists|n: Seq<char>| #[trigger] flat_names(d.commands@).contains(n) && registered_names(caps).contains(n) {
                Err(OidErrorV::InvalidInput("capability command already registered"@))
            } else if capability_ids(caps).contains(d.id@) {
                Err(OidErrorV::InvalidInput("capability already registered: "@ + d.id@))
            } else {
                Ok(())
            },
        }
    }
}

/// No name is given twice by one capability, and no two capabilities share a
/// name.
pub open spec fn names_distinct(caps: Seq<RegisteredCapability>) -> bool {
    &&& forall|i: int| 0 <= i < caps.len() ==> (#[trigger] capability_names(caps[i])).no_duplicates()
    &&& forall|i: int, j: int, n: Seq<char>|
        0 <= i < caps.len() && 0 <= j < caps.len() && i != j && #[trigger] capability_names(caps[i]).contains(n)
            ==> !(#[trigger] capability_names(caps[j])).contains(n)
}

/// The names of a prefix of commands grow one command at a time.
proof fn lemma_flat_names_take(cs: Seq<CapabilityCommand>, k: int)
    requires
        0 <= k < cs.len(),
    ensures
        flat_names(cs.take(k + 1)) == flat_names(cs.take(k)) + command_names(cs[k]),
{
    assert(cs.take(k + 1).drop_last() =~= cs.take(k));
}

/// A sequence without duplicates stays so after a new element.
proof fn lemma_push_no_duplicates(s: Seq<Seq<char>>, x: Seq<char>)
    requires
        s.no_duplicates(),
    ensures
        s.push(x).no_duplicates() <==> !s.contains(x),
{
    if s.contains(x) {
        let k = choose|k: int| 0 <= k < s.len() && s[k] == x;
        assert(s.push(x)[k] == s.push(x)[s.len() as int]);
    }
}

/// Runtime registry for allowlisted dynamic capabilities, held in capability
/// id order, with the native command names they may not shadow.
#[derive(Debug)]
pub struct CapabilityRegistry {
    capabilities: Vec<RegisteredCapability>,
    native_commands: Vec<String>,
}

impl CapabilityRegistry {
    #[verifier::type_invariant]
    spec fn well_formed(self) -> bool {
        &&& strictly_sorted(capability_ids(self.capabilities@))
        &&& names_distinct(self.capabilities@)
    }

    /// The loaded capabilities, in id order.
    pub closed spec fn listing(self) -> Seq<RegisteredCapability> {
        self.capabilities@
    }

    /// The native command names that dynamic commands may not shadow.
    pub closed spec fn natives(self) -> Set<Seq<char>> {
        views(self.native_commands@).to_set()
    }

    /// Create an empty registry.
    pub fn new() -> (r: Self)
        ensures
            r.listing() == Seq::<RegisteredCapability>::empty(),
            r.natives() == Set::<Seq<char>>::empty(),
    {
        let r = CapabilityRegistry { capabilities: Vec::new(), native_commands: Vec::new() };
        proof {
            assert(capability_ids(r.capabilities@) =~= Seq::<Seq<char>>::empty());
            assert(r.natives() =~= Set::<Seq<char>>::empty());
        }
        r
    }
}

impl Default for CapabilityRegistry {
    fn default() -> (r: Self)
        ensures
            r.listing() == Seq::<RegisteredCapability>::empty(),
            r.natives() == Set::<Seq<char>>::empty(),
    {
        CapabilityRegistry::new()
    }
}

/// The texts of borrowed strings.
pub open spec fn str_views(v: Seq<&str>) -> Seq<Seq<char>> {
    v.map_values(|s: &str| s@)
}

/// How many leading names are valid command names.
pub open spec fn valid_prefix_len(names: Seq<Seq<char>>) -> nat
    decreases names.len(),
{
    if names.len() == 0 || !valid_command_name(names[0]) {
        0
    } else {
        1 + valid_prefix_len(names.drop_first())
    }
}

/// The valid prefix is made of valid names and ends at the first invalid one.
proof fn lemma_valid_prefix(names: Seq<Seq<char>>)
    ensures
        valid_prefix_len(names) <= names.len(),
        forall|j: int| 0 <= j < valid_prefix_len(names) ==> valid_command_name(#[trigger] names[j]),
        valid_prefix_len(names) < names.len() ==> !valid_command_name(names[valid_prefix_len(names) as int]),
    decreases names.len(),
{
    if names.len() > 0 && valid_command_name(names[0]) {
        lemma_valid_prefix(names.drop_first());
        assert forall|j: int| 0 <= j < valid_prefix_len(names) implies valid_command_name(#[trigger] names[j]) by {
            if j > 0 {
                assert(names[j] == names.drop_first()[j - 1]);
            }
        }
    }
}

impl CapabilityRegistry {
    /// Reserve native command names that dynamic capabilities may not
    /// shadow. Names are reserved in order up to the first that is blank or
    /// holds whitespace, which is refused with
    /// `InvalidInput("native command name")`.
    pub fn reserve_native(&mut self, commands: &[&str]) -> (r: Result<(), OidError>)
        ensures
            final(self).natives() == old(self).natives().union(
                str_views(commands@).take(valid_prefix_len(str_views(commands@)) as int).to_set(),
            ),
            final(self).listing() == old(self).listing(),
            valid_prefix_len(str_views(commands@)) == commands@.len() ==> r is Ok,
            valid_prefix_len(str_views(commands@)) < commands@.len() ==> (r matches Err(e) && e@
                == OidErrorV::InvalidInput("native command name"@)),
    {
        let ghost names = str_views(commands@);
        let ghost start = self.natives();
        proof {
            lemma_valid_prefix(names);
        }
        let mut i: usize = 0;
        while i < commands.len()
            invariant
                names == str_views(commands@),
                i <= commands@.len(),
                forall|j: int| 0 <= j < i ==> valid_command_name(#[trigger] names[j]),
                start == old(self).natives(),
                self.natives() == start.union(names.take(i as int).to_set()),
                self.listing() == old(self).listing(),
                valid_prefix_len(names) <= names.len(),
                forall|j: int| 0 <= j < valid_prefix_len(names) ==> valid_command_name(#[trigger] names[j]),
                valid_prefix_len(names) < names.len() ==> !valid_command_name(names[valid_prefix_len(names) as int]),
            decreases commands@.len() - i,
        {
            let command = commands[i];
            if str_is_blank(command) || str_has_whitespace(command) {
                proof {
                    assert(names[i as int] == command@);
                    assert(!valid_command_name(names[i as int]));
                    if valid_prefix_len(names) < i {
                        assert(valid_command_name(names[valid_prefix_len(names) as int]));
                    }
                    if valid_prefix_len(names) > i {
                        assert(valid_command_name(names[i as int]));
                    }
                    assert(valid_prefix_len(names) == i);
                    assert(self.natives() == start.union(names.take(valid_prefix_len(names) as int).to_set()));
                    assert(i < commands@.len());
                }
                return Err(OidError::InvalidInput(String::from_str("native command name")));
            }
            let ghost before = views(self.native_commands@);
            proof {
                use_type_invariant(&*self);
            }
            let mut native: Vec<String> = Vec::new();
            std::mem::swap(&mut native, &mut self.native_commands);
            native.push(String::from_str(command));
            self.native_commands = native;
            proof {
                assert(views(self.native_commands@) =~= before.push(command@));
                assert(names.take(i + 1) =~= names.take(i as int).push(command@));
                before.lemma_push_to_set_commute(command@);
                names.take(i as int).lemma_push_to_set_commute(command@);
                assert(self.natives() =~= start.union(names.take(i + 1).to_set()));
            }
            i = i + 1;
        }
        proof {
            if valid_prefix_len(names) < names.len() {
                assert(valid_command_name(names[valid_prefix_len(names) as int]));
            }
            assert(names.take(names.len() as int) =~= names);
        }
        Ok(())
    }
}

/// Once a command's check fails, every longer scan fails the same way.
proof fn lemma_scan_error_persists(native: Set<Seq<char>>, cs: Seq<CapabilityCommand>, k: nat, m: nat)
    requires
        k <= m,
        scan_commands(native, cs, k) is Err,
    ensures
        scan_commands(native, cs, m) == scan_commands(native, cs, k),
    decreases m - k,
{
    if k < m {
        lemma_scan_error_persists(native, cs, k, (m - 1) as nat);
    }
}

/// Whether a name of the list is in the set.
fn any_in(xs: &Vec<String>, set: &Vec<String>) -> (b: bool)
    ensures
        b == exists|k: int| 0 <= k < xs@.len() && views(set@).contains(#[trigger] xs@[k]@),
{
    let mut k: usize = 0;
    while k < xs.len()
        invariant
            k <= xs@.len(),
            forall|j: int| 0 <= j < k ==> !views(set@).contains(#[trigger] xs@[j]@),
        decreases xs@.len() - k,
    {
        if contains_str(set, xs[k].as_str()) {
            return true;
        }
        k = k + 1;
    }
    false
}

/// Whether one of the commands answers to a name of the list.
fn commands_share_name(cs: &Vec<CapabilityCommand>, names: &Vec<String>) -> (b: bool)
    ensures
        b == exists|x: Seq<char>| #[trigger] flat_names(cs@).contains(x) && views(names@).contains(x),
{
    let mut i: usize = 0;
    while i < cs.len()
        invariant
            i <= cs@.len(),
            forall|x: Seq<char>| #[trigger] flat_names(cs@.take(i as int)).contains(x) ==> !views(names@).contains(x),
        decreases cs@.len() - i,
    {
        let c = &cs[i];
        proof {
            lemma_flat_names_take(cs@, i as int);
        }
        let hit = contains_str(names, c.name.as_str()) || any_in(&c.aliases, names);
        let ghost f = flat_names(cs@.take(i as int));
        let ghost cn = command_names(*c);
        if hit {
            proof {
                lemma_flat_names_prefix(cs@, i + 1);
                let b = flat_names(cs@.take(i + 1));
                let all = flat_names(cs@);
                assert(b == f + cn);
                if views(names@).contains(c.name@) {
                    let q = f.len() as int;
                    assert(b[q] == c.name@);
                    assert(all[q] == b[q]);
                    assert(all.contains(c.name@));
                } else {
                    let k = choose|k: int| 0 <= k < c.aliases@.len() && views(names@).contains(#[trigger] c.aliases@[k]@);
                    let q = f.len() + 1 + k;
                    assert(b[q] == c.aliases@[k]@);
                    assert(all[q] == b[q]);
                    assert(all.contains(c.aliases@[k]@));
                }
            }
            return true;
        }
        proof {
            assert(flat_names(cs@.take(i + 1)) == f + cn);
            assert forall|x: Seq<char>| #[trigger] flat_names(cs@.take(i + 1)).contains(x) implies !views(names@).contains(x) by {
                let q = choose|q: int| 0 <= q < (f + cn).len() && (f + cn)[q] == x;
                if q < f.len() {
                    assert(f[q] == x);
                    assert(f.contains(x));
                } else if q == f.len() {
                    assert(x == c.name@);
                } else {
                    let k = q - f.len() - 1;
                    assert(x == c.aliases@[k]@);
                    assert(!views(names@).contains(c.aliases@[k]@));
                }
            }
        }
        i = i + 1;
    }
    proof {
        assert(cs@.take(cs@.len() as int) =~= cs@);
    }
    false
}

/// The names of a prefix of commands come first among all the names.
proof fn lemma_flat_names_prefix(cs: Seq<CapabilityCommand>, k: int)
    requires
        0 <= k <= cs.len(),
    ensures
        flat_names(cs.take(k)).len() <= flat_names(cs).len(),
        flat_names(cs) == flat_names(cs.take(k)) + flat_names(cs).subrange(flat_names(cs.take(k)).len() as int, flat_names(cs).len() as int),
    decreases cs.len() - k,
{
    if k < cs.len() {
        lemma_flat_names_take(cs, k);
        lemma_flat_names_prefix(cs, k + 1);
        let a = flat_names(cs.take(k));
        let b = flat_names(cs.take(k + 1));
        let all = flat_names(cs);
        assert(all =~= a + all.subrange(a.len() as int, all.len() as int)) by {
            assert(b =~= a + command_names(cs[k]));
            assert(all == b + all.subrange(b.len() as int, all.len() as int));
        }
    } else {
        assert(cs.take(k) =~= cs);
        assert(flat_names(cs) =~= flat_names(cs) + flat_names(cs).subrange(flat_names(cs).len() as int, flat_names(cs).len() as int));
    }
}

/// Inserting a capability whose names are new keeps all names distinct.
proof fn lemma_insert_distinct(caps: Seq<RegisteredCapability>, p: int, c: RegisteredCapability)
    requires
        0 <= p <= caps.len(),
        names_distinct(caps),
        capability_names(c).no_duplicates(),
        forall|x: Seq<char>| #[trigger] capability_names(c).contains(x) ==> !registered_names(caps).contains(x),
    ensures
        names_distinct(caps.insert(p, c)),
{
    let r = caps.insert(p, c);
    assert forall|i: int| 0 <= i < r.len() implies (#[trigger] capability_names(r[i])).no_duplicates() by {
        if i < p {
            assert(r[i] == caps[i]);
        } else if i > p {
            assert(r[i] == caps[i - 1]);
        }
    }
    assert forall|i: int, j: int, n: Seq<char>|
        0 <= i < r.len() && 0 <= j < r.len() && i != j && #[trigger] capability_names(r[i]).contains(n)
            implies !(#[trigger] capability_names(r[j])).contains(n) by {
        let oi = if i < p { i } else { i - 1 };
        let oj = if j < p { j } else { j - 1 };
        if i == p {
            assert(r[j] == caps[oj]);
            if capability_names(r[j]).contains(n) {
                assert(registered_names(caps).contains(n));
            }
        } else if j == p {
            assert(r[i] == caps[oi]);
            assert(registered_names(caps).contains(n));
        } else {
            assert(r[i] == caps[oi]);
            assert(r[j] == caps[oj]);
        }
    }
}

impl CapabilityRegistry {
    /// Position at which a capability id belongs in the listing.
    fn slot(&self, key: &str) -> (p: usize)
        ensures
            p <= self.listing().len(),
            forall|j: int| 0 <= j < p ==> lex_lt(#[trigger] capability_ids(self.listing())[j], key@),
            p == self.listing().len() || !lex_lt(capability_ids(self.listing())[p as int], key@),
    {
        let mut p: usize = 0;
        while p < self.capabilities.len() && lex_less(self.capabilities[p].descriptor.id.as_str(), key)
            invariant
                p <= self.capabilities@.len(),
                forall|j: int| 0 <= j < p ==> lex_lt(#[trigger] capability_ids(self.capabilities@)[j], key@),
            decreases self.capabilities@.len() - p,
        {
            p = p + 1;
        }
        p
    }

    /// Register a capability after validating its metadata and command
    /// allowlist. Refused, in this order: a capability without commands; a
    /// command that fails validation, answers to a native name, or repeats a
    /// name of the capability (commands checked in order); a name another
    /// capability already owns; an id already registered.
    pub fn register(&mut self, descriptor: CapabilityDescriptor) -> (r: Result<(), OidError>)
        ensures
            match register_spec(old(self).natives(), old(self).listing(), descriptor) {
                Err(e) => (r matches Err(x) && x@ == e) && final(self).listing() == old(self).listing(),
                Ok(()) => r is Ok && exists|p: int|
                    0 <= p <= old(self).listing().len() && final(self).listing() == old(self).listing().insert(
                        p,
                        RegisteredCapability { descriptor },
                    ),
            },
            final(self).natives() == old(self).natives(),
    {
        proof {
            use_type_invariant(&*self);
        }
        let n = descriptor.commands.len();
        if n == 0 {
            return Err(OidError::InvalidInput(String::from_str("capability must expose a command")));
        }
        let ghost native = self.natives();
        let ghost cs = descriptor.commands@;
        let mut names: Vec<String> = Vec::new();
        let mut i: usize = 0;
        while i < n
            invariant
                n == cs.len(),
                cs == descriptor.commands@,
                i <= n,
                native == self.natives(),
                native == old(self).natives(),
                *self == *old(self),
                scan_commands(native, cs, i as nat) is Ok,
                views(names@) == flat_names(cs.take(i as int)),
                views(names@).no_duplicates(),
            decreases n - i,
        {
            let c = &descriptor.commands[i];
            let ghost f = flat_names(cs.take(i as int));
            let ghost cn = command_names(*c);
            proof {
                lemma_flat_names_take(cs, i as int);
                assert(cs.take(i + 1).drop_last() =~= cs.take(i as int));
            }
            match c.validate() {
                Err(e) => {
                    proof {
                        lemma_scan_error_persists(native, cs, (i + 1) as nat, n as nat);
                    }
                    return Err(e);
                },
                Ok(()) => {},
            }
            let shadow = contains_str(&self.native_commands, c.name.as_str()) || any_in(&c.aliases, &self.native_commands);
            if shadow {
                proof {
                    if views(self.native_commands@).contains(c.name@) {
                        assert(native.contains(cn[0]));
                    } else {
                        let k = choose|k: int| 0 <= k < c.aliases@.len() && views(self.native_commands@).contains(#[trigger] c.aliases@[k]@);
                        assert(native.contains(cn[k + 1]));
                    }
                    assert(shadows_native(*c, native));
                    lemma_scan_error_persists(native, cs, (i + 1) as nat, n as nat);
                }
                return Err(OidError::Unauthorized(concat("dynamic command shadows native command: ", c.name.as_str())));
            }
            proof {
                assert(!shadows_native(*c, native)) by {
                    if shadows_native(*c, native) {
                        let k = choose|k: int| 0 <= k < cn.len() && native.contains(#[trigger] cn[k]);
                        if k == 0 {
                            assert(views(self.native_commands@).contains(c.name@));
                        } else {
                            assert(views(self.native_commands@).contains(c.aliases@[k - 1]@));
                        }
                    }
                }
            }
            if contains_str(&names, c.name.as_str()) {
                proof {
                    let q = choose|q: int| 0 <= q < f.len() && f[q] == c.name@;
                    let full = f + cn;
                    assert(full[q] == full[f.len() as int]);
                    assert(!full.no_duplicates());
                    assert(!flat_names(cs.take(i + 1)).no_duplicates());
                    lemma_scan_error_persists(native, cs, (i + 1) as nat, n as nat);
                }
                return Err(OidError::InvalidInput(String::from_str("duplicate capability command name")));
            }
            proof {
                lemma_push_no_duplicates(views(names@), c.name@);
            }
            let ghost prev = views(names@);
            names.push(c.name.clone());
            proof {
                assert(views(names@) =~= prev.push(c.name@));
                assert(f + cn.take(1) =~= f.push(c.name@));
            }
            let mut j: usize = 0;
            while j < c.aliases.len()
                invariant
                    j <= c.aliases@.len(),
                    cn == command_names(*c),
                    views(names@) == f + cn.take(j + 1),
                    views(names@).no_duplicates(),
                    f == flat_names(cs.take(i as int)),
                    flat_names(cs.take(i + 1)) == f + cn,
                    n == cs.len(),
                    i < n,
                    scan_commands(native, cs, i as nat) is Ok,
                    validate_spec(cs[i as int]) is Ok,
                    !shadows_native(cs[i as int], native),
                    *c == cs[i as int],
                    cs == descriptor.commands@,
                    native == old(self).natives(),
                    *self == *old(self),
                decreases c.aliases@.len() - j,
            {
                let alias = &c.aliases[j];
                proof {
                    assert(cn[j + 1] == alias@);
                }
                if contains_str(&names, alias.as_str()) {
                    proof {
                        let q = choose|q: int| 0 <= q < views(names@).len() && views(names@)[q] == alias@;
                        let full = f + cn;
                        assert(views(names@)[q] == full[q]);
                        assert(full[f.len() + j + 1] == alias@);
                        assert(full[q] == full[f.len() + j + 1]);
                        assert(q != f.len() + j + 1);
                        assert(!full.no_duplicates());
                        assert(!flat_names(cs.take(i + 1)).no_duplicates());
                        lemma_scan_error_persists(native, cs, (i + 1) as nat, n as nat);
                    }
                    return Err(OidError::InvalidInput(String::from_str("duplicate capability command name")));
                }
                proof {
                    lemma_push_no_duplicates(views(names@), alias@);
                }
                let ghost prev = views(names@);
                names.push(alias.clone());
                proof {
                    assert(views(names@) =~= prev.push(alias@));
                    assert(f + cn.take(j + 2) =~= (f + cn.take(j + 1)).push(cn[j + 1]));
                }
                j = j + 1;
            }
            proof {
                assert(cn.take(c.aliases@.len() + 1 as int) =~= cn);
                assert(scan_commands(native, cs, (i + 1) as nat) is Ok);
            }
            i = i + 1;
        }
        proof {
            assert(cs.take(n as int) =~= cs);
        }
        let ghost caps = self.capabilities@;
        let mut k: usize = 0;
        while k < self.capabilities.len()
            invariant
                k <= caps.len(),
                caps == self.capabilities@,
                *self == *old(self),
                views(names@) == flat_names(cs),
                n == cs.len(),
                cs == descriptor.commands@,
                native == old(self).natives(),
                scan_commands(native, cs, n as nat) is Ok,
                forall|k2: int, x: Seq<char>| 0 <= k2 < k && #[trigger] capability_names(caps[k2]).contains(x)
                    ==> !views(names@).contains(x),
            decreases caps.len() - k,
        {
            if commands_share_name(&self.capabilities[k].descriptor.commands, &names) {
                proof {
                    let x = choose|x: Seq<char>| #[trigger] flat_names(caps[k as int].descriptor.commands@).contains(x) && views(names@).contains(x);
                    assert(capability_names(caps[k as int]).contains(x));
                    assert(registered_names(caps).contains(x));
                    assert(flat_names(cs).contains(x));
                }
                return Err(OidError::InvalidInput(String::from_str("capability command already registered")));
            }
            k = k + 1;
        }
        proof {
            assert forall|x: Seq<char>| #[trigger] flat_names(cs).contains(x) implies !registered_names(caps).contains(x) by {
                if registered_names(caps).contains(x) {
                    let k2 = choose|k2: int| 0 <= k2 < caps.len() && #[trigger] capability_names(caps[k2]).contains(x);
                }
            }
        }
        let ghost ids = capability_ids(caps);
        let ghost key = descriptor.id@;
        let p = self.slot(descriptor.id.as_str());
        proof {
            lemma_sorted_slot(ids, p as int, key);
        }
        if p < self.capabilities.len() && str_eq(self.capabilities[p].descriptor.id.as_str(), descriptor.id.as_str()) {
            proof {
                assert(ids[p as int] == key);
            }
            return Err(OidError::InvalidInput(concat("capability already registered: ", descriptor.id.as_str())));
        }
        let entry = RegisteredCapability { descriptor };
        proof {
            lemma_sorted_insert(ids, p as int, key);
            assert(capability_ids(caps.insert(p as int, entry)) =~= ids.insert(p as int, key));
            lemma_insert_distinct(caps, p as int, entry);
        }
        let mut all: Vec<RegisteredCapability> = Vec::new();
        std::mem::swap(&mut all, &mut self.capabilities);
        all.insert(p, entry);
        self.capabilities = all;
        Ok(())
    }
}

/// The commands of the capabilities, capability by capability.
pub open spec fn all_commands(caps: Seq<RegisteredCapability>) -> Seq<CapabilityCommand>
    decreases caps.len(),
{
    if caps.len() == 0 {
        Seq::empty()
    } else {
        all_commands(caps.drop_last()) + caps.last().descriptor.commands@
    }
}

/// The names of the capabilities, capability by capability.
pub open spec fn all_names(caps: Seq<RegisteredCapability>) -> Seq<Seq<char>>
    decreases caps.len(),
{
    if caps.len() == 0 {
        Seq::empty()
    } else {
        all_names(caps.drop_last()) + capability_names(caps.last())
    }
}

/// The commands of a prefix of capabilities come first.
proof fn lemma_all_commands_prefix(caps: Seq<RegisteredCapability>, k: int)
    requires
        0 <= k <= caps.len(),
    ensures
        all_commands(caps.take(k)).len() <= all_commands(caps).len(),
        forall|j: int| 0 <= j < all_commands(caps.take(k)).len() ==> #[trigger] all_commands(caps)[j] == all_commands(caps.take(k))[j],
        k < caps.len() ==> all_commands(caps.take(k + 1)) == all_commands(caps.take(k)) + caps[k].descriptor.commands@,
    decreases caps.len() - k,
{
    if k < caps.len() {
        assert(caps.take(k + 1).drop_last() =~= caps.take(k));
        lemma_all_commands_prefix(caps, k + 1);
    } else {
        assert(caps.take(k) =~= caps);
    }
}

/// The names of a prefix of capabilities grow one capability at a time, and
/// a name is among all the names exactly when some capability owns it.
proof fn lemma_all_names(caps: Seq<RegisteredCapability>)
    ensures
        forall|x: Seq<char>| all_names(caps).contains(x) <==> registered_names(caps).contains(x),
    decreases caps.len(),
{
    if caps.len() > 0 {
        let rest = caps.drop_last();
        lemma_all_names(rest);
        let a = all_names(rest);
        let b = capability_names(caps.last());
        assert forall|x: Seq<char>| all_names(caps).contains(x) <==> registered_names(caps).contains(x) by {
            if all_names(caps).contains(x) {
                let q = choose|q: int| 0 <= q < (a + b).len() && (a + b)[q] == x;
                if q < a.len() {
                    assert(a.contains(x));
                    let i = choose|i: int| 0 <= i < rest.len() && #[trigger] capability_names(rest[i]).contains(x);
                    assert(caps[i] == rest[i]);
                } else {
                    assert(b[q - a.len()] == x);
                    assert(capability_names(caps[caps.len() - 1]).contains(x));
                }
            }
            if registered_names(caps).contains(x) {
                let i = choose|i: int| 0 <= i < caps.len() && #[trigger] capability_names(caps[i]).contains(x);
                if i < rest.len() {
                    assert(caps[i] == rest[i]);
                    assert(registered_names(rest).contains(x));
                    let q = choose|q: int| 0 <= q < a.len() && a[q] == x;
                    assert((a + b)[q] == x);
                } else {
                    let q = choose|q: int| 0 <= q < b.len() && b[q] == x;
                    assert((a + b)[a.len() + q] == x);
                }
            }
        }
    }
}

/// The names a registry completes for a prefix: every registered name that
/// begins with it.
pub open spec fn completion_set(caps: Seq<RegisteredCapability>, prefix: Seq<char>) -> Set<Seq<char>> {
    Set::new(|x: Seq<char>| registered_names(caps).contains(x) && starts_with(x, prefix))
}

/// The seen names with the prefix.
pub open spec fn seen_set(seen: Seq<Seq<char>>, prefix: Seq<char>) -> Set<Seq<char>> {
    Set::new(|x: Seq<char>| seen.contains(x) && starts_with(x, prefix))
}

/// The first command, in listing order, that answers to `name`.
pub open spec fn finds(cs: Seq<CapabilityCommand>, name: Seq<char>, j: int) -> bool {
    &&& 0 <= j < cs.len()
    &&& command_names(cs[j]).contains(name)
    &&& forall|k: int| 0 <= k < j ==> !(#[trigger] command_names(cs[k])).contains(name)
}

/// A copy of a capability.
fn duplicate_capability(c: &RegisteredCapability) -> (r: RegisteredCapability)
    ensures
        same_capability(r, *c),
{
    let mut commands: Vec<CapabilityCommand> = Vec::new();
    let mut i: usize = 0;
    while i < c.descriptor.commands.len()
        invariant
            i <= c.descriptor.commands@.len(),
            commands@.len() == i,
            forall|k: int| 0 <= k < i ==> same_command(#[trigger] commands@[k], c.descriptor.commands@[k]),
        decreases c.descriptor.commands@.len() - i,
    {
        commands.push(c.descriptor.commands[i].duplicate());
        i = i + 1;
    }
    RegisteredCapability {
        descriptor: CapabilityDescriptor {
            id: c.descriptor.id.copy(),
            plugin_id: c.descriptor.plugin_id.copy(),
            commands,
        },
    }
}

impl CapabilityRegistry {
    /// Unregister a capability and return its metadata; an unknown id is
    /// `NotFound("capability: <id>")`.
    pub fn unregister(&mut self, id: &SkillId) -> (r: Result<RegisteredCapability, OidError>)
        ensures
            capability_ids(old(self).listing()).contains(id@) ==> exists|p: int|
                0 <= p < old(self).listing().len() && old(self).listing()[p].descriptor.id@ == id@ && (r matches Ok(c)
                    && c == old(self).listing()[p]) && final(self).listing() == old(self).listing().remove(p),
            !capability_ids(old(self).listing()).contains(id@) ==> (r matches Err(e) && e@ == OidErrorV::NotFound(
                "capability: "@ + id@,
            )) && final(self).listing() == old(self).listing(),
            final(self).natives() == old(self).natives(),
    {
        proof {
            use_type_invariant(&*self);
        }
        let ghost caps = self.capabilities@;
        let ghost ids = capability_ids(caps);
        let p = self.slot(id.as_str());
        proof {
            lemma_sorted_slot(ids, p as int, id@);
        }
        if p < self.capabilities.len() && str_eq(self.capabilities[p].descriptor.id.as_str(), id.as_str()) {
            proof {
                lemma_sorted_remove(ids, p as int);
                assert(capability_ids(caps.remove(p as int)) =~= ids.remove(p as int));
                let r = caps.remove(p as int);
                assert forall|i: int| 0 <= i < r.len() implies (#[trigger] capability_names(r[i])).no_duplicates() by {
                    if i < p {
                        assert(r[i] == caps[i]);
                    } else {
                        assert(r[i] == caps[i + 1]);
                    }
                }
                assert forall|i: int, j: int, n: Seq<char>|
                    0 <= i < r.len() && 0 <= j < r.len() && i != j && #[trigger] capability_names(r[i]).contains(n)
                        implies !(#[trigger] capability_names(r[j])).contains(n) by {
                    let oi = if i < p { i } else { i + 1 };
                    let oj = if j < p { j } else { j + 1 };
                    assert(r[i] == caps[oi]);
                    assert(r[j] == caps[oj]);
                }
            }
            let mut all: Vec<RegisteredCapability> = Vec::new();
            std::mem::swap(&mut all, &mut self.capabilities);
            let removed = all.remove(p);
            self.capabilities = all;
            Ok(removed)
        } else {
            Err(OidError::NotFound(concat("capability: ", id.as_str())))
        }
    }

    /// Find a dynamic command by its command name or alias: the first, in
    /// capability id order and then command order, that answers to the name.
    pub fn find_command(&self, name: &str) -> (r: Option<CapabilityCommand>)
        ensures
            match r {
                Some(c) => exists|j: int| finds(all_commands(self.listing()), name@, j) && same_command(
                    c,
                    #[trigger] all_commands(self.listing())[j],
                ),
                None => forall|j: int| 0 <= j < all_commands(self.listing()).len() ==> !(#[trigger] command_names(
                    all_commands(self.listing())[j],
                )).contains(name@),
            },
    {
        let ghost caps = self.capabilities@;
        let ghost all = all_commands(caps);
        let mut k: usize = 0;
        while k < self.capabilities.len()
            invariant
                caps == self.capabilities@,
                all == all_commands(caps),
                k <= caps.len(),
                all_commands(caps.take(k as int)).len() <= all.len(),
                forall|j: int| 0 <= j < all_commands(caps.take(k as int)).len() ==> !(#[trigger] command_names(all[j])).contains(name@),
            decreases caps.len() - k,
        {
            let commands = &self.capabilities[k].descriptor.commands;
            let ghost before = all_commands(caps.take(k as int));
            proof {
                lemma_all_commands_prefix(caps, k as int);
                lemma_all_commands_prefix(caps, k + 1);
            }
            let mut i: usize = 0;
            while i < commands.len()
                invariant
                    caps == self.capabilities@,
                    all == all_commands(caps),
                    k < caps.len(),
                    *commands == caps[k as int].descriptor.commands,
                    before == all_commands(caps.take(k as int)),
                    all_commands(caps.take(k + 1)) == before + commands@,
                    all_commands(caps.take(k + 1)).len() <= all.len(),
                    forall|j: int| 0 <= j < all_commands(caps.take(k + 1)).len() ==> #[trigger] all[j] == all_commands(caps.take(k + 1))[j],
                    i <= commands@.len(),
                    forall|j: int| 0 <= j < before.len() + i ==> !(#[trigger] command_names(all[j])).contains(name@),
                decreases commands@.len() - i,
            {
                if commands[i].matches(name) {
                    let found = commands[i].duplicate();
                    proof {
                        let j = before.len() + i;
                        assert(all[j] == (before + commands@)[j]);
                        assert(all[j] == commands@[i as int]);
                        assert(finds(all, name@, j));
                        assert(same_command(found, all[j]));
                        assert(caps == self.listing());
                        assert(finds(all_commands(self.listing()), name@, j) && same_command(found, all_commands(self.listing())[j]));
                    }
                    return Some(found);
                }
                proof {
                    let j = before.len() + i;
                    assert(all[j] == (before + commands@)[j]);
                }
                i = i + 1;
            }
            k = k + 1;
        }
        proof {
            assert(caps.take(caps.len() as int) =~= caps);
        }
        None
    }

    /// Return a stable, sorted snapshot of all loaded capabilities. No two of
    /// their commands share a name.
    pub fn list(&self) -> (r: Vec<RegisteredCapability>)
        ensures
            r@.len() == self.listing().len(),
            forall|i: int| 0 <= i < r@.len() ==> same_capability(#[trigger] r@[i], self.listing()[i]),
            strictly_sorted(capability_ids(self.listing())),
            names_distinct(self.listing()),
    {
        proof {
            use_type_invariant(self);
        }
        let mut r: Vec<RegisteredCapability> = Vec::new();
        let mut i: usize = 0;
        while i < self.capabilities.len()
            invariant
                i <= self.capabilities@.len(),
                r@.len() == i,
                forall|k: int| 0 <= k < i ==> same_capability(#[trigger] r@[k], self.capabilities@[k]),
            decreases self.capabilities@.len() - i,
        {
            r.push(duplicate_capability(&self.capabilities[i]));
            i = i + 1;
        }
        r
    }

    /// Return the dynamic command names and aliases that begin with a prefix,
    /// sorted and without repeats.
    pub fn complete(&self, prefix: &str) -> (r: Vec<String>)
        ensures
            strictly_sorted(views(r@)),
            views(r@).to_set() == completion_set(self.listing(), prefix@),
    {
        let ghost caps = self.capabilities@;
        let mut out: Vec<String> = Vec::new();
        let ghost mut seen: Seq<Seq<char>> = Seq::empty();
        proof {
            assert(views(out@).to_set() =~= seen_set(seen, prefix@));
        }
        let mut k: usize = 0;
        while k < self.capabilities.len()
            invariant
                caps == self.capabilities@,
                k <= caps.len(),
                seen == all_names(caps.take(k as int)),
                strictly_sorted(views(out@)),
                views(out@).to_set() == seen_set(seen, prefix@),
            decreases caps.len() - k,
        {
            let commands = &self.capabilities[k].descriptor.commands;
            let ghost base = seen;
            proof {
                assert(caps.take(k + 1).drop_last() =~= caps.take(k as int));
                assert(commands@.take(0) =~= Seq::<CapabilityCommand>::empty());
                assert(seen =~= base + flat_names(commands@.take(0)));
            }
            let mut i: usize = 0;
            while i < commands.len()
                invariant
                    caps == self.capabilities@,
                    k < caps.len(),
                    *commands == caps[k as int].descriptor.commands,
                    base == all_names(caps.take(k as int)),
                    all_names(caps.take(k + 1)) == base + capability_names(caps[k as int]),
                    i <= commands@.len(),
                    seen == base + flat_names(commands@.take(i as int)),
                    strictly_sorted(views(out@)),
                    views(out@).to_set() == seen_set(seen, prefix@),
                decreases commands@.len() - i,
            {
                let c = &commands[i];
                proof {
                    lemma_flat_names_take(commands@, i as int);
                }
                let ghost mid = seen;
                self.add_seen(&mut out, c.name.as_str(), prefix, Ghost(seen));
                proof {
                    seen = seen.push(c.name@);
                    assert(mid + command_names(*c).take(1) =~= mid.push(c.name@));
                }
                let mut j: usize = 0;
                while j < c.aliases.len()
                    invariant
                        j <= c.aliases@.len(),
                        seen == mid + command_names(*c).take(j + 1),
                        strictly_sorted(views(out@)),
                        views(out@).to_set() == seen_set(seen, prefix@),
                    decreases c.aliases@.len() - j,
                {
                    self.add_seen(&mut out, c.aliases[j].as_str(), prefix, Ghost(seen));
                    proof {
                        assert(mid + command_names(*c).take(j + 2) =~= (mid + command_names(*c).take(j + 1)).push(c.aliases@[j as int]@));
                        seen = seen.push(c.aliases@[j as int]@);
                    }
                    j = j + 1;
                }
                proof {
                    assert(command_names(*c).take(c.aliases@.len() + 1 as int) =~= command_names(*c));
                    assert(seen =~= base + flat_names(commands@.take(i + 1)));
                }
                i = i + 1;
            }
            proof {
                assert(commands@.take(commands@.len() as int) =~= commands@);
            }
            k = k + 1;
        }
        proof {
            assert(caps.take(caps.len() as int) =~= caps);
            lemma_all_names(caps);
            assert(seen == all_names(caps));
            assert(caps == self.listing());
            assert forall|x: Seq<char>| seen_set(seen, prefix@).contains(x) == completion_set(caps, prefix@).contains(x) by {
                assert(all_names(caps).contains(x) == registered_names(caps).contains(x));
            }
            assert(seen_set(seen, prefix@) =~= completion_set(caps, prefix@));
        }
        out
    }

    /// Adds a name to a sorted completion list when it begins with the prefix.
    fn add_if_prefixed(&self, out: &mut Vec<String>, name: &str, prefix: &str)
        requires
            strictly_sorted(views(old(out)@)),
        ensures
            strictly_sorted(views(final(out)@)),
            views(final(out)@).to_set() == (if starts_with(name@, prefix@) {
                views(old(out)@).to_set().insert(name@)
            } else {
                views(old(out)@).to_set()
            }),
    {
        if str_starts_with(name, prefix) {
            insert_sorted(out, String::from_str(name));
        }
    }

    /// Adds a seen name to the completion list, keeping it equal to the seen
    /// names with the prefix.
    fn add_seen(&self, out: &mut Vec<String>, name: &str, prefix: &str, Ghost(seen): Ghost<Seq<Seq<char>>>)
        requires
            strictly_sorted(views(old(out)@)),
            views(old(out)@).to_set() == seen_set(seen, prefix@),
        ensures
            strictly_sorted(views(final(out)@)),
            views(final(out)@).to_set() == seen_set(seen.push(name@), prefix@),
    {
        self.add_if_prefixed(out, name, prefix);
        proof {
            assert forall|x: Seq<char>| #[trigger] seen_set(seen.push(name@), prefix@).contains(x) == (if starts_with(name@, prefix@) {
                seen_set(seen, prefix@).insert(name@)
            } else {
                seen_set(seen, prefix@)
            }).contains(x) by {
                if seen.push(name@).contains(x) {
                    let q = choose|q: int| 0 <= q < seen.len() + 1 && seen.push(name@)[q] == x;
                    if q < seen.len() {
                        assert(seen[q] == x);
                    }
                }
                if seen.contains(x) {
                    let q = choose|q: int| 0 <= q < seen.len() && seen[q] == x;
                    assert(seen.push(name@)[q] == x);
                }
                if x == name@ {
                    assert(seen.push(name@)[seen.len() as int] == x);
                }
            }
            assert(seen_set(seen.push(name@), prefix@) =~= (if starts_with(name@, prefix@) {
                seen_set(seen, prefix@).insert(name@)
            } else {
                seen_set(seen, prefix@)
            }));
        }
    }
}

/// Metadata exposed by an installed plugin.
#[derive(Clone, Debug, Eq, PartialEq)]
pub struct PluginDescriptor {
    /// Stable plugin identity.
    pub id: PluginId,
    /// Plugin version supplied by its manifest.
    pub version: String,
    /// Capabilities declared by the plugin.
    pub skills: Vec<SkillId>,
}

/// Plugin lifecycle boundary, implemented by plugins.
pub trait Plugin {
    /// Return plugin metadata without executing plugin code.
    fn descriptor(&self) -> &PluginDescriptor;

    /// Initialize the plugin within a host-provided capability boundary.
    fn initialize(&mut self) -> Result<(), OidError>;
}

/// Discovery boundary for plugin manifests.
pub trait PluginDiscovery {
    /// Discover installed plugin descriptors.
    fn discover(&self) -> Result<Vec<PluginDescriptor>, OidError>;
}

/// Identifies the plugin boundary.
pub fn boundary_name() -> (s: &'static str)
    ensures
        s@ == "plugin-sdk"@,
{
    "plugin-sdk"
}

/// The names of the first `k` commands that passed the scan are none of
/// them reserved for a native command.
proof fn lemma_scan_keeps_natives(native: Set<Seq<char>>, cs: Seq<CapabilityCommand>, k: nat)
    requires
        k <= cs.len(),
        scan_commands(native, cs, k) is Ok,
    ensures
        forall|n: Seq<char>| #[trigger] flat_names(cs.take(k as int)).contains(n) ==> !native.contains(n),
    decreases k,
{
    if k > 0 {
        lemma_scan_keeps_natives(native, cs, (k - 1) as nat);
        let t = cs.take(k as int);
        let front = cs.take(k - 1);
        let c = cs[k - 1];
        assert(t.drop_last() =~= front);
        assert(t.last() == c);
        assert(flat_names(t) == flat_names(front) + command_names(c));
        assert forall|n: Seq<char>| #[trigger] flat_names(t).contains(n) implies !native.contains(n) by {
            let i = choose|i: int| 0 <= i < flat_names(t).len() && flat_names(t)[i] == n;
            if i < flat_names(front).len() {
                assert(flat_names(front)[i] == n);
                assert(flat_names(front).contains(n));
            } else {
                let j = i - flat_names(front).len();
                assert(command_names(c)[j] == n);
                assert(!shadows_native(c, native));
            }
        }
    }
}

/// Registering never lets a capability shadow a native command: when a
/// registration is accepted, none of the names its commands answer to is
/// reserved for a native command.
pub proof fn lemma_registration_never_shadows_natives(
    native: Set<Seq<char>>,
    caps: Seq<RegisteredCapability>,
    d: CapabilityDescriptor,
)
    requires
        register_spec(native, caps, d) is Ok,
    ensures
        forall|n: Seq<char>| #[trigger] flat_names(d.commands@).contains(n) ==> !native.contains(n),
{
    let cs = d.commands@;
    lemma_scan_keeps_natives(native, cs, cs.len());
    assert(cs.take(cs.len() as int) =~= cs);
}

} // verus!

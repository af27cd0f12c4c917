//! Runtime service vocabulary: the snapshot clients read, backend metadata,
//! hardware facts and the security placeholder. Engines, clocks and the
//! operating system are the caller's.
use vstd::prelude::*;
use crate::shared::RuntimeError;
use crate::text::{lines_of, lines_spec, strip_prefix, starts_with, views, words, split_words};
use crate::catalog::{parse_u64, parse_u64_spec};

verus! {

/// Deterministic service data used by clients such as the console.
#[derive(Clone, Debug, Eq, PartialEq)]
pub struct RuntimeSnapshot {
    /// Runtime health label.
    pub health: &'static str,
    /// Active backend label.
    pub backend: String,
    /// Number of installed models.
    pub models: usize,
    /// Display value for available memory.
    pub memory: String,
    /// Currently loaded model, if any.
    pub loaded_model: Option<String>,
    /// Seconds since the runtime service started.
    pub uptime_seconds: u64,
    /// Library version of the active backend, when it reports one.
    pub backend_version: Option<String>,
    /// Memory used by the loaded model, when known.
    pub model_memory_bytes: Option<u64>,
    /// Context size of the loaded model, when known.
    pub loaded_context: Option<u64>,
}

/// Stable backend identity and capability metadata.
#[derive(Clone, Debug, Eq, PartialEq)]
pub struct BackendDescriptor {
    /// Stable machine-readable identifier.
    pub id: String,
    /// Human-readable backend name.
    pub name: String,
    /// Adapter contract version.
    pub version: String,
}

/// Runtime view of a backend registration.
#[derive(Clone, Debug, Eq, PartialEq)]
pub struct BackendSummary {
    /// Backend descriptor supplied by the adapter.
    pub descriptor: BackendDescriptor,
    /// Whether the runtime has enabled the adapter.
    pub enabled: bool,
    /// Whether this is the selected active backend.
    pub active: bool,
}

/// Health result returned by a backend.
#[derive(Clone, Debug, Eq, PartialEq)]
pub enum BackendHealth {
    /// Backend is initialized and available.
    Healthy,
    /// Backend is known but not currently available.
    Unavailable,
    /// Backend reported an operational error.
    Error(String),
}

/// Request passed to a backend generation operation.
#[derive(Clone, Debug, Eq, PartialEq)]
pub struct GenerationRequest {
    /// Correlation identifier for cancellation and tracing.
    pub request_id: String,
    /// Model identifier selected by the runtime.
    pub model_id: String,
    /// Prompt or input content.
    pub input: String,
}

/// One backend-neutral streamed output item.
#[derive(Clone, Debug, Eq, PartialEq)]
pub struct StreamChunk {
    /// Correlation identifier for the generation.
    pub request_id: String,
    /// Text payload; empty for a terminal marker.
    pub text: String,
    /// Whether this is the final chunk.
    pub done: bool,
}

/// Placeholder embeddings request.
#[derive(Clone, Debug, Eq, PartialEq)]
pub struct EmbeddingsRequest {
    /// Model identifier.
    pub model_id: String,
    /// Input text.
    pub input: String,
}

/// Placeholder tool capability description.
#[derive(Clone, Debug, Eq, PartialEq)]
pub struct ToolSupport {
    /// Whether the backend can expose tools.
    pub supported: bool,
    /// Human-readable reason when unsupported.
    pub reason: String,
}

/// Deterministic backend used by the mock runtime.
#[derive(Clone, Debug, Default)]
pub struct MockBackend;

/// Normalized hardware inventory exposed to runtime clients.
#[derive(Clone, Debug, Eq, PartialEq)]
pub struct HardwareSnapshot {
    /// Operating-system identifier.
    pub operating_system: String,
    /// Target architecture identifier.
    pub architecture: String,
    /// Human-readable CPU description.
    pub cpu: String,
    /// Number of logical CPU cores.
    pub logical_cores: usize,
    /// Number of physical CPU cores when discoverable.
    pub physical_cores: Option<usize>,
    /// Installed system RAM in bytes when discoverable.
    pub installed_ram_bytes: Option<u64>,
    /// Available system RAM in bytes when discoverable.
    pub available_ram_bytes: Option<u64>,
    /// Safe, normalized SIMD capability names.
    pub simd_capabilities: Vec<String>,
    /// GPU discovery remains a placeholder.
    pub gpu: Option<String>,
    /// NPU discovery remains a placeholder.
    pub npu: Option<String>,
}

impl Default for HardwareSnapshot {
    fn default() -> (r: Self)
        ensures
            r.operating_system@ == Seq::<char>::empty(),
            r.architecture@ == Seq::<char>::empty(),
            r.cpu@ == Seq::<char>::empty(),
            r.logical_cores == 0,
            r.physical_cores is None,
            r.installed_ram_bytes is None,
            r.available_ram_bytes is None,
            r.simd_capabilities@.len() == 0,
            r.gpu is None,
            r.npu is None,
    {
        HardwareSnapshot {
            operating_system: String::new(),
            architecture: String::new(),
            cpu: String::new(),
            logical_cores: 0,
            physical_cores: None,
            installed_ram_bytes: None,
            available_ram_bytes: None,
            simd_capabilities: Vec::new(),
            gpu: None,
            npu: None,
        }
    }
}

/// Runtime-facing service contract used by clients such as the console.
pub trait RuntimeService {
    /// `s` is a snapshot this service reported. A service that keeps no
    /// record relates itself to every report, here and below.
    closed spec fn reported(&self, s: RuntimeSnapshot) -> bool {
        true
    }
    /// `l` is a backend list this service reported.
    closed spec fn listed_backends(&self, l: Seq<BackendSummary>) -> bool {
        true
    }
    /// `h` is what this service reported of the health of the backend `id`.
    closed spec fn backend_reported(&self, id: Seq<char>, h: Option<BackendHealth>) -> bool {
        true
    }
    /// `m` is a model list this service reported.
    closed spec fn listed_models(&self, m: Seq<crate::catalog::ModelMetadata>) -> bool {
        true
    }
    /// `f` is what this service reported of the model `id`.
    closed spec fn model_reported(&self, id: Seq<char>, f: Option<crate::catalog::ModelMetadata>) -> bool {
        true
    }
    /// `outcome` is what loading the model `id` gave, for this service.
    closed spec fn loaded(&self, id: Seq<char>, outcome: Result<(), RuntimeError>) -> bool {
        true
    }
    /// `outcome` is what unloading the model `id` gave, for this service.
    closed spec fn unloaded(&self, id: Seq<char>, outcome: Result<(), RuntimeError>) -> bool {
        true
    }
    /// `outcome` is what counting the tokens of `text` gave, for this service.
    closed spec fn tokenized(&self, text: Seq<char>, outcome: Result<usize, RuntimeError>) -> bool {
        true
    }
    /// `h` is a hardware snapshot this service reported.
    closed spec fn hardware_reported(&self, h: HardwareSnapshot) -> bool {
        true
    }
    /// Deterministic service information.
    fn snapshot(&self) -> (r: RuntimeSnapshot)
        ensures
            self.reported(r),
    ;
    /// Registered backends.
    fn backend_list(&self) -> (r: Vec<BackendSummary>)
        ensures
            self.listed_backends(r@),
    ;
    /// Backend health by identifier.
    fn backend_health(&self, id: &str) -> (r: Option<BackendHealth>)
        ensures
            self.backend_reported(id@, r),
    ;
    /// Registered model metadata.
    fn model_list(&self) -> (r: Vec<crate::catalog::ModelMetadata>)
        ensures
            self.listed_models(r@),
    ;
    /// Model metadata by identifier.
    fn model_inspect(&self, id: &str) -> (r: Option<crate::catalog::ModelMetadata>)
        ensures
            self.model_reported(id@, r),
    ;
    /// Load a model.
    fn model_load(&self, id: &str) -> (r: Result<(), RuntimeError>)
        ensures
            self.loaded(id@, r),
    ;
    /// Unload a model.
    fn model_unload(&self, id: &str) -> (r: Result<(), RuntimeError>)
        ensures
            self.unloaded(id@, r),
    ;
    /// Count the tokens of a text with the loaded model.
    fn tokenize(&self, text: &str) -> (r: Result<usize, RuntimeError>)
        ensures
            self.tokenized(text@, r),
    ;
    /// Normalized hardware information.
    fn hardware(&self) -> (r: HardwareSnapshot)
        ensures
            self.hardware_reported(r),
    ;
}

/// Read-only service API exposed by the runtime orchestrator.
pub trait RuntimeApi {
    /// The current service status.
    fn status(&self) -> crate::shared::RuntimeStatus;
}

/// Provider interface for runtime hardware consumers.
pub trait HardwareProvider {
    /// Return the current hardware snapshot.
    fn snapshot(&self) -> HardwareSnapshot;
}

/// Hardware service holding the facts detected at startup.
#[derive(Clone, Debug)]
pub struct HardwareService {
    snapshot: HardwareSnapshot,
}

impl HardwareService {
    /// The detected facts.
    pub closed spec fn facts(self) -> HardwareSnapshot {
        self.snapshot
    }

    /// A service over detected facts.
    pub fn new(snapshot: HardwareSnapshot) -> (r: Self)
        ensures
            r.facts() == snapshot,
    {
        HardwareService { snapshot }
    }

    /// Return the normalized snapshot.
    pub fn snapshot(&self) -> (r: HardwareSnapshot)
        ensures
            r.operating_system@ == self.facts().operating_system@,
            r.architecture@ == self.facts().architecture@,
            r.cpu@ == self.facts().cpu@,
            r.logical_cores == self.facts().logical_cores,
            r.physical_cores == self.facts().physical_cores,
            r.installed_ram_bytes == self.facts().installed_ram_bytes,
            r.available_ram_bytes == self.facts().available_ram_bytes,
            views(r.simd_capabilities@) == views(self.facts().simd_capabilities@),
            r.gpu == self.facts().gpu,
            r.npu == self.facts().npu,
    {
        let s = &self.snapshot;
        HardwareSnapshot {
            operating_system: s.operating_system.clone(),
            architecture: s.architecture.clone(),
            cpu: s.cpu.clone(),
            logical_cores: s.logical_cores,
            physical_cores: s.physical_cores,
            installed_ram_bytes: s.installed_ram_bytes,
            available_ram_bytes: s.available_ram_bytes,
            simd_capabilities: crate::text::clone_strings(&s.simd_capabilities),
            gpu: match &s.gpu {
                Some(g) => Some(g.clone()),
                None => None,
            },
            npu: match &s.npu {
                Some(n) => Some(n.clone()),
                None => None,
            },
        }
    }
}

/// Empty provider retained for lower-level runtime tests.
#[derive(Clone, Debug, Default)]
pub struct UnavailableHardware;

impl UnavailableHardware {
    /// Unknown operating system and architecture, and nothing else.
    pub fn snapshot(&self) -> (r: HardwareSnapshot)
        ensures
            r.operating_system@ == "unknown"@,
            r.architecture@ == "unknown"@,
            r.cpu@ == Seq::<char>::empty(),
            r.logical_cores == 0,
            r.physical_cores is None,
            r.installed_ram_bytes is None,
            r.available_ram_bytes is None,
            r.simd_capabilities@.len() == 0,
            r.gpu is None,
            r.npu is None,
    {
        HardwareSnapshot {
            operating_system: String::from_str("unknown"),
            architecture: String::from_str("unknown"),
            ..HardwareSnapshot::default()
        }
    }
}

/// A value that fits in `usize`, read as `usize::from_str` does.
pub open spec fn parse_usize_spec(s: Seq<char>) -> Option<usize> {
    match parse_u64_spec(s) {
        Some(n) => if n <= usize::MAX {
            Some(n as usize)
        } else {
            None
        },
        None => None,
    }
}

/// Parse a decimal `usize`.
pub fn parse_usize(s: &str) -> (r: Option<usize>)
    ensures
        r == parse_usize_spec(s@),
{
    match parse_u64(s) {
        Some(n) => if n <= usize::MAX as u64 {
            Some(n as usize)
        } else {
            None
        },
        None => None,
    }
}

/// The memory facts of `/proc/meminfo`: total and available bytes. A line is
/// a name and a value in kibibytes; the last `MemTotal:` and `MemAvailable:`
/// lines count, and their values saturate at the largest `u64`.
pub open spec fn memory_details_spec(lines: Seq<Seq<char>>) -> (Option<u64>, Option<u64>)
    decreases lines.len(),
{
    if lines.len() == 0 {
        (None, None)
    } else {
        let (total, available) = memory_details_spec(lines.drop_last());
        let ws = words(lines.last());
        if ws.len() < 2 {
            (total, available)
        } else {
            match parse_u64_spec(ws[1]) {
                None => (total, available),
                Some(value) => {
                    let bytes = if value as nat * 1024 > u64::MAX { u64::MAX } else { (value * 1024) as u64 };
                    if ws[0] == "MemTotal:"@ {
                        (Some(bytes), available)
                    } else if ws[0] == "MemAvailable:"@ {
                        (total, Some(bytes))
                    } else {
                        (total, available)
                    }
                },
            }
        }
    }
}

/// Read the total and available memory from the text of `/proc/meminfo`.
pub fn parse_memory_details(contents: &str) -> (r: (Option<u64>, Option<u64>))
    ensures
        r == memory_details_spec(lines_spec(contents@)),
{
    let lines = lines_of(contents);
    let ghost ls = lines_spec(contents@);
    let mut total: Option<u64> = None;
    let mut available: Option<u64> = None;
    let mut i: usize = 0;
    while i < lines.len()
        invariant
            ls == lines_spec(contents@),
            lines@.len() == ls.len(),
            forall|k: int| 0 <= k < lines@.len() ==> (#[trigger] lines@[k])@ == ls[k],
            i <= lines@.len(),
            (total, available) == memory_details_spec(ls.subrange(0, i as int)),
        decreases lines@.len() - i,
    {
        proof {
            assert(ls.subrange(0, i + 1).drop_last() =~= ls.subrange(0, i as int));
        }
        let parts = split_words(lines[i].as_str());
        if parts.len() >= 2 {
            match parse_u64(parts[1].as_str()) {
                None => {},
                Some(value) => {
                    let bytes: u64 = if value > u64::MAX / 1024 { u64::MAX } else { value * 1024 };
                    if crate::text::str_eq(parts[0].as_str(), "MemTotal:") {
                        total = Some(bytes);
                    } else if crate::text::str_eq(parts[0].as_str(), "MemAvailable:") {
                        available = Some(bytes);
                    }
                },
            }
        }
        i = i + 1;
    }
    proof {
        assert(ls.subrange(0, ls.len() as int) =~= ls);
    }
    (total, available)
}

/// The value after a prefix, when the line has it.
pub open spec fn after_prefix(line: Seq<char>, prefix: Seq<char>) -> Option<Seq<char>> {
    if starts_with(line, prefix) {
        Some(line.subrange(prefix.len() as int, line.len() as int))
    } else {
        None
    }
}

/// Step of the `/proc/cpuinfo` scan over one line: the first model name is
/// kept; a physical or core id line sets the current value (or clears it
/// when it is no number); a blank line closes a processor block, counting
/// its pair when both ids are known.
pub open spec fn cpu_step(
    state: (Option<Seq<char>>, Set<(usize, usize)>, Option<usize>, Option<usize>),
    line: Seq<char>,
) -> (Option<Seq<char>>, Set<(usize, usize)>, Option<usize>, Option<usize>) {
    let (cpu, pairs, physical, core) = state;
    let cpu2 = if cpu is None {
        after_prefix(line, "model name\t: "@)
    } else {
        cpu
    };
    let physical2 = match after_prefix(line, "physical id\t: "@) {
        Some(v) => parse_usize_spec(v),
        None => physical,
    };
    let core2 = match after_prefix(line, "core id\t\t: "@) {
        Some(v) => parse_usize_spec(v),
        None => core,
    };
    if line.len() == 0 {
        (cpu2, close_block(pairs, physical2, core2), None, None)
    } else {
        (cpu2, pairs, physical2, core2)
    }
}

/// The pairs with the block's pair added when both ids are known.
pub open spec fn close_block(pairs: Set<(usize, usize)>, physical: Option<usize>, core: Option<usize>) -> Set<(usize, usize)> {
    match (physical, core) {
        (Some(p), Some(c)) => pairs.insert((p, c)),
        _ => pairs,
    }
}

/// The scan of all lines.
pub open spec fn cpu_scan(lines: Seq<Seq<char>>) -> (Option<Seq<char>>, Set<(usize, usize)>, Option<usize>, Option<usize>)
    decreases lines.len(),
{
    if lines.len() == 0 {
        (None, Set::empty(), None, None)
    } else {
        cpu_step(cpu_scan(lines.drop_last()), lines.last())
    }
}

/// The CPU facts of `/proc/cpuinfo`: the first model name (else
/// "unknown CPU") and the number of distinct (physical id, core id) pairs,
/// when there is any.
pub open spec fn cpu_details_spec(contents: Seq<char>) -> (Seq<char>, Option<usize>) {
    let (cpu, pairs, physical, core) = cpu_scan(lines_spec(contents));
    let all = close_block(pairs, physical, core);
    (
        match cpu {
            Some(c) => c,
            None => "unknown CPU"@,
        },
        if all.len() > 0 {
            Some(all.len() as usize)
        } else {
            None
        },
    )
}

/// Whether the pair is in the list.
fn has_pair(pairs: &Vec<(usize, usize)>, pair: (usize, usize)) -> (b: bool)
    ensures
        b == pairs@.contains(pair),
{
    let mut i: usize = 0;
    while i < pairs.len()
        invariant
            i <= pairs@.len(),
            forall|j: int| 0 <= j < i ==> pairs@[j] != pair,
        decreases pairs@.len() - i,
    {
        if pairs[i].0 == pair.0 && pairs[i].1 == pair.1 {
            assert(pairs@[i as int] == pair);
            return true;
        }
        i = i + 1;
    }
    false
}

/// Add the block's pair, when both ids are known and it is new.
fn close_pairs(pairs: &mut Vec<(usize, usize)>, physical: Option<usize>, core: Option<usize>)
    requires
        old(pairs)@.no_duplicates(),
    ensures
        final(pairs)@.no_duplicates(),
        final(pairs)@.to_set() == close_block(old(pairs)@.to_set(), physical, core),
{
    match (physical, core) {
        (Some(p), Some(c)) => {
            if !has_pair(pairs, (p, c)) {
                let ghost before = pairs@;
                pairs.push((p, c));
                proof {
                    before.lemma_push_to_set_commute((p, c));
                    assert(pairs@ == before.push((p, c)));
                }
            } else {
                proof {
                    assert(pairs@.to_set().insert((p, c)) =~= pairs@.to_set());
                }
            }
        },
        _ => {},
    }
}

/// Read the CPU model name and the number of physical cores from the text
/// of `/proc/cpuinfo`.
pub fn parse_cpu_details(contents: &str) -> (r: (String, Option<usize>))
    ensures
        r.0@ == cpu_details_spec(contents@).0,
        r.1 == cpu_details_spec(contents@).1,
{
    let lines = lines_of(contents);
    let ghost ls = lines_spec(contents@);
    let mut cpu: Option<String> = None;
    let mut pairs: Vec<(usize, usize)> = Vec::new();
    let mut physical: Option<usize> = None;
    let mut core: Option<usize> = None;
    let mut i: usize = 0;
    proof {
        assert(pairs@.to_set() =~= Set::<(usize, usize)>::empty());
    }
    while i < lines.len()
        invariant
            ls == lines_spec(contents@),
            lines@.len() == ls.len(),
            forall|k: int| 0 <= k < lines@.len() ==> (#[trigger] lines@[k])@ == ls[k],
            i <= lines@.len(),
            pairs@.no_duplicates(),
            ({
                let st = cpu_scan(ls.subrange(0, i as int));
                &&& (match cpu {
                    Some(c) => st.0 == Some(c@),
                    None => st.0 is None,
                })
                &&& st.1 == pairs@.to_set()
                &&& st.2 == physical
                &&& st.3 == core
            }),
        decreases lines@.len() - i,
    {
        proof {
            assert(ls.subrange(0, i + 1).drop_last() =~= ls.subrange(0, i as int));
        }
        let line = lines[i].as_str();
        if cpu.is_none() {
            cpu = strip_prefix(line, "model name\t: ");
        }
        match strip_prefix(line, "physical id\t: ") {
            Some(v) => {
                physical = parse_usize(v.as_str());
            },
            None => {},
        }
        match strip_prefix(line, "core id\t\t: ") {
            Some(v) => {
                core = parse_usize(v.as_str());
            },
            None => {},
        }
        if line.unicode_len() == 0 {
            close_pairs(&mut pairs, physical, core);
            physical = None;
            core = None;
        }
        i = i + 1;
    }
    proof {
        assert(ls.subrange(0, ls.len() as int) =~= ls);
    }
    close_pairs(&mut pairs, physical, core);
    proof {
        pairs@.unique_seq_to_set();
    }
    let name = match cpu {
        Some(c) => c,
        None => String::from_str("unknown CPU"),
    };
    let count = if pairs.len() > 0 {
        Some(pairs.len())
    } else {
        None
    };
    (name, count)
}

/// Identity presented by a runtime client.
#[derive(Clone, Debug, Eq, PartialEq)]
pub struct Principal {
    /// Stable principal name.
    pub name: String,
}

/// Authorization interface for policy enforcement.
pub trait Policy {
    /// Authorize an operation for a principal.
    fn authorize(&self, principal: &Principal, operation: &str) -> Result<(), RuntimeError>;
}

/// Explicitly permissive placeholder policy.
#[derive(Clone, Debug, Default)]
pub struct FoundationPolicy;

impl Policy for FoundationPolicy {
    /// Every principal may perform every operation.
    fn authorize(&self, principal: &Principal, operation: &str) -> (r: Result<(), RuntimeError>)
        ensures
            r is Ok,
    {
        Ok(())
    }
}

/// Placeholder logger handle for the startup lifecycle.
#[derive(Clone, Debug, Default)]
pub struct Logger;

/// Initialize logging without configuring a concrete logging backend yet.
pub fn initialize() -> (l: Logger) {
    Logger
}

/// The single production composition-root namespace; starting the service
/// is the caller's.
#[derive(Debug, Default)]
pub struct Runtime;

} // verus!

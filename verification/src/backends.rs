//! Backend contract and the runtime-owned registry that enables, disables and
//! selects backend adapters.
use vstd::prelude::*;
use crate::order::{lex_lt, strictly_sorted, lemma_sorted_slot, lemma_sorted_insert, lex_less};
use crate::runtime::{BackendDescriptor, BackendHealth, BackendSummary, GenerationRequest, StreamChunk, ToolSupport, MockBackend};
use crate::shared::{EventLog, EventSink, RuntimeError, RuntimeEvent};
use crate::text::str_eq;

verus! {

/// Common interface implemented by every local or remote inference backend.
///
/// The runtime owns orchestration and policy; implementations own only the
/// translation to a concrete engine or provider.
pub trait Backend {
    /// Stable backend metadata.
    fn descriptor(&self) -> BackendDescriptor;
    /// Initialize the backend process or provider connection.
    fn initialize(&self) -> Result<(), RuntimeError>;
    /// Shut down backend resources.
    fn shutdown(&self) -> Result<(), RuntimeError>;
    /// Current backend health.
    fn health(&self) -> BackendHealth;
    /// Models visible to this backend.
    fn list_models(&self) -> Result<Vec<String>, RuntimeError>;
    /// Load a model by runtime model identifier.
    fn load_model(&self, model_id: &str) -> Result<(), RuntimeError>;
    /// Unload a model by runtime model identifier.
    fn unload_model(&self, model_id: &str) -> Result<(), RuntimeError>;
    /// Generate backend-neutral streaming chunks.
    fn generate_stream(&self, request: &GenerationRequest) -> Result<Vec<StreamChunk>, RuntimeError>;
    /// Cancel an active generation.
    fn cancel_generation(&self, request_id: &str) -> Result<(), RuntimeError>;
    /// Tool support, without backend-native types.
    fn tool_support(&self) -> ToolSupport;
}

impl Backend for MockBackend {
    /// The mock backend's metadata: `mock`, "Mock Backend", version 0.1.
    fn descriptor(&self) -> (d: BackendDescriptor)
        ensures
            d.id@ == "mock"@,
            d.name@ == "Mock Backend"@,
            d.version@ == "0.1"@,
    {
        BackendDescriptor {
            id: String::from_str("mock"),
            name: String::from_str("Mock Backend"),
            version: String::from_str("0.1"),
        }
    }

    /// Always succeeds.
    fn initialize(&self) -> (r: Result<(), RuntimeError>)
        ensures
            r is Ok,
    {
        Ok(())
    }

    /// Always succeeds.
    fn shutdown(&self) -> (r: Result<(), RuntimeError>)
        ensures
            r is Ok,
    {
        Ok(())
    }

    /// The mock backend is always healthy.
    fn health(&self) -> (h: BackendHealth)
        ensures
            h == BackendHealth::Healthy,
    {
        BackendHealth::Healthy
    }

    /// The mock backend sees no models.
    fn list_models(&self) -> (r: Result<Vec<String>, RuntimeError>)
        ensures
            r matches Ok(v) && v@.len() == 0,
    {
        Ok(Vec::new())
    }

    /// Always succeeds.
    fn load_model(&self, model_id: &str) -> (r: Result<(), RuntimeError>)
        ensures
            r is Ok,
    {
        Ok(())
    }

    /// Always succeeds.
    fn unload_model(&self, model_id: &str) -> (r: Result<(), RuntimeError>)
        ensures
            r is Ok,
    {
        Ok(())
    }

    /// A single, final chunk that says it is no inference.
    fn generate_stream(&self, request: &GenerationRequest) -> (r: Result<Vec<StreamChunk>, RuntimeError>)
        ensures
            r matches Ok(v) && v@.len() == 1 && v@[0].request_id@ == request.request_id@ && v@[0].text@
                == "Mock generation is not AI inference."@ && v@[0].done,
    {
        let mut v: Vec<StreamChunk> = Vec::new();
        v.push(
            StreamChunk {
                request_id: request.request_id.clone(),
                text: String::from_str("Mock generation is not AI inference."),
                done: true,
            },
        );
        Ok(v)
    }

    /// Always succeeds.
    fn cancel_generation(&self, request_id: &str) -> (r: Result<(), RuntimeError>)
        ensures
            r is Ok,
    {
        Ok(())
    }

    /// The mock backend exposes no tools.
    fn tool_support(&self) -> (t: ToolSupport)
        ensures
            !t.supported,
            t.reason@ == "mock backend has no tool implementation"@,
    {
        ToolSupport { supported: false, reason: String::from_str("mock backend has no tool implementation") }
    }
}

/// One registered adapter.
struct Registration<B> {
    descriptor: BackendDescriptor,
    backend: B,
    enabled: bool,
}

/// The identifiers of the descriptors, in order.
pub open spec fn descriptor_ids(ds: Seq<BackendDescriptor>) -> Seq<Seq<char>> {
    ds.map_values(|d: BackendDescriptor| d.id@)
}

/// The first identifier of the list that the set holds.
pub open spec fn first_enabled(ids: Seq<Seq<char>>, enabled: Set<Seq<char>>) -> Option<Seq<char>>
    decreases ids.len(),
{
    if ids.len() == 0 {
        None
    } else if enabled.contains(ids[0]) {
        Some(ids[0])
    } else {
        first_enabled(ids.drop_first(), enabled)
    }
}

/// What `first_enabled` finds is in the set.
pub proof fn lemma_first_enabled_member(ids: Seq<Seq<char>>, enabled: Set<Seq<char>>)
    ensures
        first_enabled(ids, enabled) matches Some(x) ==> enabled.contains(x),
    decreases ids.len(),
{
    if ids.len() > 0 && !enabled.contains(ids[0]) {
        lemma_first_enabled_member(ids.drop_first(), enabled);
    }
}

/// Runtime-owned registry and selector for backend adapters. Adapters are
/// listed by identifier; at most one enabled adapter is active.
pub struct BackendManager<B: Backend> {
    entries: Vec<Registration<B>>,
    active: Option<String>,
    bus: EventLog,
}

impl<B: Backend> BackendManager<B> {
    /// Registered descriptors, in increasing identifier order.
    pub closed spec fn descriptors(self) -> Seq<BackendDescriptor> {
        self.entries@.map_values(|r: Registration<B>| r.descriptor)
    }

    /// Registered identifiers, in increasing order.
    pub open spec fn ids(self) -> Seq<Seq<char>> {
        descriptor_ids(self.descriptors())
    }

    /// Identifiers of the enabled adapters.
    pub closed spec fn enabled_set(self) -> Set<Seq<char>> {
        Set::new(|k: Seq<char>| exists|i: int| 0 <= i < self.entries@.len() && #[trigger] self.entries@[i].descriptor.id@ == k && self.entries@[i].enabled)
    }

    /// Identifier of the active adapter.
    pub closed spec fn active_id(self) -> Option<Seq<char>> {
        match self.active {
            Some(a) => Some(a@),
            None => None,
        }
    }

    /// Events published so far, oldest first.
    pub closed spec fn published(self) -> Seq<RuntimeEvent> {
        self.bus@
    }

    /// Identifiers are strictly increasing, every enabled adapter is
    /// registered, and the active adapter is enabled.
    pub open spec fn wf(self) -> bool {
        &&& strictly_sorted(self.ids())
        &&& self.enabled_set().subset_of(self.ids().to_set())
        &&& (self.active_id() matches Some(a) ==> self.enabled_set().contains(a))
    }

    /// Nothing but the published events changed.
    pub open spec fn same_state(self, other: Self) -> bool {
        &&& self.descriptors() == other.descriptors()
        &&& self.enabled_set() == other.enabled_set()
        &&& self.active_id() == other.active_id()
    }

    /// An empty manager publishing to the given bus.
    pub fn new(bus: EventLog) -> (r: Self)
        ensures
            r.wf(),
            r.descriptors() == Seq::<BackendDescriptor>::empty(),
            r.enabled_set() == Set::<Seq<char>>::empty(),
            r.active_id() is None,
            r.published() == bus@,
    {
        let r = BackendManager { entries: Vec::new(), active: None, bus };
        proof {
            assert(r.descriptors() =~= Seq::<BackendDescriptor>::empty());
            assert(r.enabled_set() =~= Set::<Seq<char>>::empty());
        }
        r
    }

    /// Position of an identifier.
    fn position(&self, id: &str) -> (r: Option<usize>)
        requires
            self.wf(),
        ensures
            r matches Some(i) ==> i < self.entries@.len() && self.ids()[i as int] == id@,
            r is None <==> !self.ids().contains(id@),
    {
        let mut i: usize = 0;
        while i < self.entries.len()
            invariant
                i <= self.entries@.len(),
                forall|j: int| 0 <= j < i ==> self.ids()[j] != id@,
                self.ids().len() == self.entries@.len(),
                forall|j: int| 0 <= j < self.entries@.len() ==> #[trigger] self.ids()[j] == self.entries@[j].descriptor.id@,
            decreases self.entries@.len() - i,
        {
            if str_eq(self.entries[i].descriptor.id.as_str(), id) {
                assert(self.ids()[i as int] == id@);
                return Some(i);
            }
            i = i + 1;
        }
        None
    }

    /// What registering an adapter under a descriptor does: an identifier
    /// already registered is refused with `BackendAlreadyRegistered` and
    /// nothing changes; another is inserted in identifier order, disabled,
    /// and its registration published.
    pub open spec fn registered_as(self, next: Self, descriptor: BackendDescriptor, r: Result<(), RuntimeError>) -> bool {
        if self.ids().contains(descriptor.id@) {
            &&& r matches Err(e) && e matches RuntimeError::BackendAlreadyRegistered(t) && t@ == descriptor.id@
            &&& next.same_state(self)
            &&& next.published() == self.published()
        } else {
            &&& r is Ok
            &&& exists|p: int| 0 <= p <= self.descriptors().len() && next.descriptors() == self.descriptors().insert(p, descriptor)
            &&& next.enabled_set() == self.enabled_set()
            &&& next.active_id() == self.active_id()
            &&& next.published() == self.published().push(RuntimeEvent::BackendRegistered(descriptor.id))
        }
    }

    /// Register an adapter under the descriptor it reported. An identifier
    /// that is already registered is refused and nothing changes.
    pub fn register_descriptor(&mut self, descriptor: BackendDescriptor, backend: B) -> (r: Result<(), RuntimeError>)
        requires
            old(self).wf(),
        ensures
            final(self).wf(),
            old(self).registered_as(*final(self), descriptor, r),
    {
        let ghost keys = self.ids();
        let ghost k = descriptor.id@;
        let ghost ds = self.descriptors();
        let mut p: usize = 0;
        while p < self.entries.len() && lex_less(self.entries[p].descriptor.id.as_str(), descriptor.id.as_str())
            invariant
                keys == self.ids(),
                k == descriptor.id@,
                ds == self.descriptors(),
                keys.len() == self.entries@.len(),
                forall|j: int| 0 <= j < self.entries@.len() ==> #[trigger] keys[j] == self.entries@[j].descriptor.id@,
                p <= self.entries@.len(),
                forall|j: int| 0 <= j < p ==> lex_lt(#[trigger] keys[j], k),
            decreases self.entries@.len() - p,
        {
            p = p + 1;
        }
        proof {
            lemma_sorted_slot(keys, p as int, k);
        }
        if p < self.entries.len() && str_eq(self.entries[p].descriptor.id.as_str(), descriptor.id.as_str()) {
            return Err(RuntimeError::BackendAlreadyRegistered(descriptor.id));
        }
        let id = descriptor.id.clone();
        let ghost d = descriptor;
        let ghost old_entries = self.entries@;
        let ghost old_en = self.enabled_set();
        self.entries.insert(p, Registration { descriptor, backend, enabled: false });
        proof {
            assert(self.descriptors() =~= ds.insert(p as int, d));
            assert(self.ids() =~= keys.insert(p as int, k));
            lemma_sorted_insert(keys, p as int, k);
            assert forall|x: Seq<char>| self.enabled_set().contains(x) <==> old_en.contains(x) by {
                if self.enabled_set().contains(x) {
                    let i = choose|i: int| 0 <= i < self.entries@.len() && #[trigger] self.entries@[i].descriptor.id@ == x && self.entries@[i].enabled;
                    if i < p {
                        assert(old_entries[i].descriptor.id@ == x);
                    } else if i > p {
                        assert(old_entries[i - 1].descriptor.id@ == x);
                    }
                }
                if old_en.contains(x) {
                    let i = choose|i: int| 0 <= i < old_entries.len() && #[trigger] old_entries[i].descriptor.id@ == x && old_entries[i].enabled;
                    if i < p {
                        assert(self.entries@[i].descriptor.id@ == x);
                    } else {
                        assert(self.entries@[i + 1].descriptor.id@ == x);
                    }
                }
            }
            assert(self.enabled_set() =~= old_en);
            assert forall|x: Seq<char>| self.enabled_set().contains(x) implies self.ids().to_set().contains(x) by {
                let i = choose|i: int| 0 <= i < self.entries@.len() && #[trigger] self.entries@[i].descriptor.id@ == x && self.entries@[i].enabled;
                assert(self.ids()[i] == x);
            }
        }
        self.bus.publish(RuntimeEvent::BackendRegistered(id));
        Ok(())
    }

    /// Register an adapter under the descriptor it reports, as
    /// `register_descriptor` does.
    pub fn register(&mut self, backend: B) -> (r: Result<(), RuntimeError>)
        requires
            old(self).wf(),
        ensures
            final(self).wf(),
            exists|d: BackendDescriptor| #[trigger] old(self).registered_as(*final(self), d, r),
    {
        let descriptor = backend.descriptor();
        let ghost d = descriptor;
        let r = self.register_descriptor(descriptor, backend);
        proof {
            assert(old(self).registered_as(*self, d, r));
        }
        r
    }

    /// The flag of a registered adapter says whether its identifier is enabled.
    proof fn lemma_flag(self, i: int)
        requires
            self.wf(),
            0 <= i < self.entries@.len(),
        ensures
            self.ids()[i] == self.entries@[i].descriptor.id@,
            self.entries@[i].enabled <==> self.enabled_set().contains(self.ids()[i]),
    {
        let k = self.entries@[i].descriptor.id@;
        assert(self.ids()[i] == k);
        if self.enabled_set().contains(k) {
            let j = choose|j: int| 0 <= j < self.entries@.len() && #[trigger] self.entries@[j].descriptor.id@ == k && self.entries@[j].enabled;
            assert(self.ids()[j] == k);
            crate::order::lemma_sorted_unique(self.ids(), i, j);
        }
    }

    /// The state after enabling a registered adapter: it joins the enabled
    /// set, becomes active when none was, and its enabling is published.
    pub open spec fn enabled_after(self, next: Self, id: Seq<char>, event: RuntimeEvent) -> bool {
        &&& next.descriptors() == self.descriptors()
        &&& next.enabled_set() == self.enabled_set().insert(id)
        &&& next.active_id() == (if self.active_id() is None { Some(id) } else { self.active_id() })
        &&& next.published() == self.published().push(event)
    }

    /// The state after disabling a registered adapter: it leaves the enabled
    /// set; when it was active, the first remaining enabled adapter in
    /// identifier order becomes active, or none.
    pub open spec fn disabled_after(self, next: Self, id: Seq<char>, event: RuntimeEvent) -> bool {
        &&& next.descriptors() == self.descriptors()
        &&& next.enabled_set() == self.enabled_set().remove(id)
        &&& next.active_id() == (if self.active_id() == Some(id) {
            first_enabled(self.ids(), self.enabled_set().remove(id))
        } else {
            self.active_id()
        })
        &&& next.published() == self.published().push(event)
    }

    /// Set the enabled flag of the adapter at a position.
    fn set_flag(&mut self, i: usize, flag: bool)
        requires
            old(self).wf(),
            i < old(self).entries@.len(),
            !flag ==> old(self).active_id() != Some(old(self).ids()[i as int]),
        ensures
            final(self).descriptors() == old(self).descriptors(),
            final(self).active_id() == old(self).active_id(),
            final(self).published() == old(self).published(),
            final(self).enabled_set() == (if flag {
                old(self).enabled_set().insert(old(self).ids()[i as int])
            } else {
                old(self).enabled_set().remove(old(self).ids()[i as int])
            }),
            final(self).wf(),
    {
        let ghost old_self = *self;
        let ghost k = self.ids()[i as int];
        proof {
            assert(self.ids()[i as int] == self.entries@[i as int].descriptor.id@);
        }
        let mut reg = self.entries.remove(i);
        reg.enabled = flag;
        self.entries.insert(i, reg);
        proof {
            let oe = old_self.entries@;
            let ne = self.entries@;
            assert(ne =~= oe.update(i as int, reg));
            assert(self.descriptors() =~= old_self.descriptors());
            let target = if flag { old_self.enabled_set().insert(k) } else { old_self.enabled_set().remove(k) };
            assert forall|x: Seq<char>| self.enabled_set().contains(x) <==> target.contains(x) by {
                if self.enabled_set().contains(x) {
                    let j = choose|j: int| 0 <= j < ne.len() && #[trigger] ne[j].descriptor.id@ == x && ne[j].enabled;
                    if j != i {
                        assert(oe[j].descriptor.id@ == x);
                        assert(old_self.ids()[j] == x);
                        assert(old_self.ids()[i as int] == k);
                        if x == k {
                            crate::order::lemma_sorted_unique(old_self.ids(), i as int, j);
                        }
                    }
                }
                if target.contains(x) {
                    if x == k {
                        assert(ne[i as int].descriptor.id@ == x);
                    } else {
                        let j = choose|j: int| 0 <= j < oe.len() && #[trigger] oe[j].descriptor.id@ == x && oe[j].enabled;
                        assert(j != i);
                        assert(ne[j].descriptor.id@ == x);
                    }
                }
            }
            assert(self.enabled_set() =~= target);
            assert forall|x: Seq<char>| self.enabled_set().contains(x) implies self.ids().to_set().contains(x) by {
                let j = choose|j: int| 0 <= j < ne.len() && #[trigger] ne[j].descriptor.id@ == x && ne[j].enabled;
                assert(self.ids()[j] == x);
            }
        }
    }

    /// Record that a registered adapter initialized: enable it, make it
    /// active when none is, and publish the enabling. An unknown identifier
    /// is refused and nothing changes.
    pub fn mark_enabled(&mut self, id: &str) -> (r: Result<(), RuntimeError>)
        requires
            old(self).wf(),
        ensures
            final(self).wf(),
            !old(self).ids().contains(id@) ==> (r matches Err(e) && e matches RuntimeError::BackendNotFound(t) && t@ == id@),
            !old(self).ids().contains(id@) ==> final(self).same_state(*old(self)) && final(self).published()
                == old(self).published(),
            old(self).ids().contains(id@) ==> r is Ok && exists|s: String| s@ == id@ && old(self).enabled_after(
                *final(self), id@, RuntimeEvent::BackendEnabled(s)),
    {
        match self.position(id) {
            None => Err(RuntimeError::BackendNotFound(id.to_string())),
            Some(i) => {
                self.set_flag(i, true);
                if self.active.is_none() {
                    self.active = Some(id.to_string());
                }
                proof {
                    assert(self.enabled_set().contains(id@));
                }
                let s = id.to_string();
                let ghost sv = s;
                self.bus.publish(RuntimeEvent::BackendEnabled(s));
                Ok(())
            },
        }
    }

    /// Enable and initialize a registered adapter. An unknown identifier is
    /// refused; when the adapter fails to initialize its error is returned
    /// and nothing changes; otherwise the adapter is enabled as
    /// `mark_enabled` says.
    pub fn enable(&mut self, id: &str) -> (r: Result<(), RuntimeError>)
        requires
            old(self).wf(),
        ensures
            final(self).wf(),
            !old(self).ids().contains(id@) ==> (r matches Err(e) && e matches RuntimeError::BackendNotFound(t) && t@ == id@),
            r is Err ==> final(self).same_state(*old(self)) && final(self).published() == old(self).published(),
            r is Ok ==> old(self).ids().contains(id@) && exists|s: String| s@ == id@ && old(self).enabled_after(
                *final(self), id@, RuntimeEvent::BackendEnabled(s)),
    {
        match self.position(id) {
            None => Err(RuntimeError::BackendNotFound(id.to_string())),
            Some(i) => {
                match self.entries[i].backend.initialize() {
                    Err(e) => Err(e),
                    Ok(()) => self.mark_enabled(id),
                }
            },
        }
    }

    /// The first enabled adapter in identifier order.
    fn first_enabled_id(&self) -> (r: Option<String>)
        requires
            self.wf(),
        ensures
            match r {
                Some(s) => first_enabled(self.ids(), self.enabled_set()) == Some(s@),
                None => first_enabled(self.ids(), self.enabled_set()) is None,
            },
    {
        let ghost ids = self.ids();
        let ghost en = self.enabled_set();
        let ghost n = ids.len() as int;
        let mut j: usize = 0;
        proof {
            assert(ids.subrange(0, n) =~= ids);
        }
        while j < self.entries.len()
            invariant
                self.wf(),
                ids == self.ids(),
                en == self.enabled_set(),
                n == ids.len(),
                n == self.entries@.len(),
                j <= n,
                first_enabled(ids, en) == first_enabled(ids.subrange(j as int, n), en),
            decreases n - j,
        {
            proof {
                self.lemma_flag(j as int);
                let rest = ids.subrange(j as int, n);
                assert(rest[0] == ids[j as int]);
                assert(rest.drop_first() =~= ids.subrange(j + 1, n));
            }
            if self.entries[j].enabled {
                return Some(self.entries[j].descriptor.id.clone());
            }
            j = j + 1;
        }
        None
    }

    /// Record that a registered adapter shut down: disable it, pass the
    /// active role on when it held it, and publish the disabling. An
    /// unknown identifier is refused and nothing changes.
    pub fn mark_disabled(&mut self, id: &str) -> (r: Result<(), RuntimeError>)
        requires
            old(self).wf(),
        ensures
            final(self).wf(),
            !old(self).ids().contains(id@) ==> (r matches Err(e) && e matches RuntimeError::BackendNotFound(t) && t@ == id@),
            !old(self).ids().contains(id@) ==> final(self).same_state(*old(self)) && final(self).published()
                == old(self).published(),
            old(self).ids().contains(id@) ==> r is Ok && exists|s: String| s@ == id@ && old(self).disabled_after(
                *final(self), id@, RuntimeEvent::BackendDisabled(s)),
    {
        match self.position(id) {
            None => Err(RuntimeError::BackendNotFound(id.to_string())),
            Some(i) => {
                let was_active = match &self.active {
                    Some(a) => str_eq(a.as_str(), id),
                    None => false,
                };
                if was_active {
                    self.active = None;
                }
                self.set_flag(i, false);
                if was_active {
                    self.active = self.first_enabled_id();
                    proof {
                        lemma_first_enabled_member(self.ids(), self.enabled_set());
                    }
                }
                let s = id.to_string();
                self.bus.publish(RuntimeEvent::BackendDisabled(s));
                Ok(())
            },
        }
    }

    /// Disable and shut down a registered adapter. An unknown identifier is
    /// refused; when the adapter fails to shut down its error is returned and
    /// nothing changes; otherwise the adapter is disabled as `mark_disabled`
    /// says.
    pub fn disable(&mut self, id: &str) -> (r: Result<(), RuntimeError>)
        requires
            old(self).wf(),
        ensures
            final(self).wf(),
            !old(self).ids().contains(id@) ==> (r matches Err(e) && e matches RuntimeError::BackendNotFound(t) && t@ == id@),
            r is Err ==> final(self).same_state(*old(self)) && final(self).published() == old(self).published(),
            r is Ok ==> old(self).ids().contains(id@) && exists|s: String| s@ == id@ && old(self).disabled_after(
                *final(self), id@, RuntimeEvent::BackendDisabled(s)),
    {
        match self.position(id) {
            None => Err(RuntimeError::BackendNotFound(id.to_string())),
            Some(i) => {
                match self.entries[i].backend.shutdown() {
                    Err(e) => Err(e),
                    Ok(()) => self.mark_disabled(id),
                }
            },
        }
    }

    /// Make an enabled adapter the active one. An unknown identifier, then
    /// one that is not enabled, is refused and nothing changes.
    pub fn select_active(&mut self, id: &str) -> (r: Result<(), RuntimeError>)
        requires
            old(self).wf(),
        ensures
            final(self).wf(),
            final(self).published() == old(self).published(),
            !old(self).ids().contains(id@) ==> (r matches Err(e) && e matches RuntimeError::BackendNotFound(t) && t@ == id@),
            old(self).ids().contains(id@) && !old(self).enabled_set().contains(id@) ==> (r matches Err(e)
                && e matches RuntimeError::BackendNotEnabled(t) && t@ == id@),
            r is Err ==> final(self).same_state(*old(self)),
            old(self).enabled_set().contains(id@) ==> r is Ok && final(self).descriptors() == old(self).descriptors()
                && final(self).enabled_set() == old(self).enabled_set() && final(self).active_id() == Some(id@),
    {
        match self.position(id) {
            None => Err(RuntimeError::BackendNotFound(id.to_string())),
            Some(i) => {
                proof {
                    self.lemma_flag(i as int);
                }
                if !self.entries[i].enabled {
                    Err(RuntimeError::BackendNotEnabled(id.to_string()))
                } else {
                    self.active = Some(id.to_string());
                    Ok(())
                }
            },
        }
    }

    /// Whether an adapter is enabled.
    pub fn is_enabled(&self, id: &str) -> (b: bool)
        requires
            self.wf(),
        ensures
            b == self.enabled_set().contains(id@),
    {
        match self.position(id) {
            None => false,
            Some(i) => {
                proof {
                    self.lemma_flag(i as int);
                }
                self.entries[i].enabled
            },
        }
    }

    /// The active adapter's identifier, if any.
    pub fn active_backend(&self) -> (r: Option<String>)
        ensures
            match r {
                Some(s) => self.active_id() == Some(s@),
                None => self.active_id() is None,
            },
    {
        match &self.active {
            Some(a) => Some(a.clone()),
            None => None,
        }
    }

    /// The registered adapters in identifier order, each with whether it is
    /// enabled and whether it is active.
    pub fn discover(&self) -> (r: Vec<BackendSummary>)
        requires
            self.wf(),
        ensures
            r@.len() == self.descriptors().len(),
            forall|i: int| 0 <= i < r@.len() ==> {
                &&& (#[trigger] r@[i]).descriptor.id@ == self.descriptors()[i].id@
                &&& r@[i].descriptor.name@ == self.descriptors()[i].name@
                &&& r@[i].descriptor.version@ == self.descriptors()[i].version@
                &&& r@[i].enabled == self.enabled_set().contains(self.ids()[i])
                &&& r@[i].active == (self.active_id() == Some(self.ids()[i]))
            },
    {
        let mut out: Vec<BackendSummary> = Vec::new();
        let mut i: usize = 0;
        while i < self.entries.len()
            invariant
                self.wf(),
                i <= self.entries@.len(),
                out@.len() == i,
                self.descriptors().len() == self.entries@.len(),
                forall|j: int| 0 <= j < i ==> {
                    &&& (#[trigger] out@[j]).descriptor.id@ == self.descriptors()[j].id@
                    &&& out@[j].descriptor.name@ == self.descriptors()[j].name@
                    &&& out@[j].descriptor.version@ == self.descriptors()[j].version@
                    &&& out@[j].enabled == self.enabled_set().contains(self.ids()[j])
                    &&& out@[j].active == (self.active_id() == Some(self.ids()[j]))
                },
            decreases self.entries@.len() - i,
        {
            proof {
                self.lemma_flag(i as int);
            }
            let d = &self.entries[i].descriptor;
            let active = match &self.active {
                Some(a) => str_eq(a.as_str(), d.id.as_str()),
                None => false,
            };
            out.push(
                BackendSummary {
                    descriptor: BackendDescriptor { id: d.id.clone(), name: d.name.clone(), version: d.version.clone() },
                    enabled: self.entries[i].enabled,
                    active,
                },
            );
            i = i + 1;
        }
        out
    }

    /// Health of a registered adapter, as the adapter reports it.
    pub fn health(&self, id: &str) -> (r: Option<BackendHealth>)
        requires
            self.wf(),
        ensures
            r is Some <==> self.ids().contains(id@),
    {
        match self.position(id) {
            None => None,
            Some(i) => Some(self.entries[i].backend.health()),
        }
    }

    /// Events published so far, oldest first.
    pub fn events(&self) -> (r: &[RuntimeEvent])
        ensures
            r@ == self.published(),
    {
        self.bus.events()
    }
}

/// Load a model into the runtime's one model slot: refused while another
/// model is loaded, and for a model the registry does not hold. Otherwise
/// loading is announced on the bus, the model is marked loading, and the
/// backend loads it: on success the model is marked loaded and fills the
/// slot; on failure it is marked failed, the error is announced, and the
/// error returned.
pub fn model_load<B: Backend, S: crate::catalog::RegistryStore>(
    models: &mut crate::catalog::ModelRegistry,
    loaded: &mut Option<String>,
    bus: &mut EventLog,
    backend: &B,
    store: &S,
    id: &str,
) -> (r: Result<(), RuntimeError>)
    ensures
        *old(loaded) is Some ==> (r matches Err(e) && e matches RuntimeError::ModelLifecycle(m) && m@
            == "only one model may be loaded"@),
        *old(loaded) is None && !crate::catalog::has_model(old(models).entries(), id@) ==> (r matches Err(e)
            && e matches RuntimeError::ModelNotFound(t) && t@ == id@),
        *old(loaded) is Some || !crate::catalog::has_model(old(models).entries(), id@) ==> {
            &&& *final(loaded) == *old(loaded)
            &&& final(models).entries() == old(models).entries()
            &&& final(bus)@ == old(bus)@
        },
        *old(loaded) is None && crate::catalog::has_model(old(models).entries(), id@) ==> {
            &&& final(bus)@.len() > old(bus)@.len()
            &&& final(bus)@.subrange(0, old(bus)@.len() as int) == old(bus)@
            &&& final(bus)@[old(bus)@.len() as int] matches RuntimeEvent::ModelLoading(x) && x@ == id@
        },
        r is Ok ==> {
            &&& *final(loaded) matches Some(l) && l@ == id@
            &&& exists|p: int|
                0 <= p < old(models).entries().len() && old(models).entries()[p].id == id@ && final(models).entries()
                    == old(models).entries().update(
                    p,
                    crate::catalog::with_status(old(models).entries()[p], crate::catalog::ModelStatus::Loaded),
                )
            &&& final(bus)@.len() == old(bus)@.len() + 1
        },
        r is Err ==> *final(loaded) == *old(loaded),
        final(models).file() == old(models).file(),
{
    if loaded.is_some() {
        return Err(RuntimeError::ModelLifecycle(String::from_str("only one model may be loaded")));
    }
    match models.inspect(id) {
        None => {
            return Err(RuntimeError::ModelNotFound(String::from_str(id)));
        },
        Some(_) => {},
    }
    let ghost before = bus@;
    bus.publish(RuntimeEvent::ModelLoading(String::from_str(id)));
    proof {
        assert(bus@.subrange(0, before.len() as int) =~= before);
    }
    let ghost m0 = models.entries();
    match models.set_status(id, crate::catalog::ModelStatus::Loading, store) {
        Err(e) => {
            return Err(e);
        },
        Ok(()) => {},
    }
    let ghost m1 = models.entries();
    match backend.load_model(id) {
        Ok(()) => {
            match models.set_status(id, crate::catalog::ModelStatus::Loaded, store) {
                Err(e) => {
                    return Err(e);
                },
                Ok(()) => {},
            }
            proof {
                let p = choose|p: int|
                    0 <= p < m0.len() && m0[p].id == id@ && m1 == m0.update(
                        p,
                        crate::catalog::with_status(m0[p], crate::catalog::ModelStatus::Loading),
                    );
                let q = choose|q: int|
                    0 <= q < m1.len() && m1[q].id == id@ && models.entries() == m1.update(
                        q,
                        crate::catalog::with_status(m1[q], crate::catalog::ModelStatus::Loaded),
                    );
                crate::catalog::lemma_status_then_inspect(m0, p, crate::catalog::ModelStatus::Loading);
                assert(m1[q] == crate::catalog::with_status(m0[p], crate::catalog::ModelStatus::Loading));
                if q != p {
                    assert(m1[q] == m0[q]);
                    assert(crate::catalog::model_ids(m0)[q] == crate::catalog::model_ids(m0)[p]);
                    crate::order::lemma_sorted_unique(crate::catalog::model_ids(m0), q, p);
                }
                assert(q == p);
                assert(models.entries() =~= m0.update(
                    p,
                    crate::catalog::with_status(m0[p], crate::catalog::ModelStatus::Loaded),
                ));
            }
            *loaded = Some(String::from_str(id));
            Ok(())
        },
        Err(error) => {
            let _ = models.set_status(id, crate::catalog::ModelStatus::Failed, store);
            bus.publish(RuntimeEvent::ErrorRaised(error.to_text()));
            proof {
                assert(bus@.subrange(0, before.len() as int) =~= before);
            }
            Err(error)
        },
    }
}

/// Unload a model: unloading is announced on the bus, the model is marked
/// unloading, the backend unloads it, the model is marked registered again
/// and the slot is emptied. A model the registry does not hold is refused
/// after the announcement; a failed step returns its error.
pub fn model_unload<B: Backend, S: crate::catalog::RegistryStore>(
    models: &mut crate::catalog::ModelRegistry,
    loaded: &mut Option<String>,
    bus: &mut EventLog,
    backend: &B,
    store: &S,
    id: &str,
) -> (r: Result<(), RuntimeError>)
    ensures
        final(bus)@.len() == old(bus)@.len() + 1,
        final(bus)@.subrange(0, old(bus)@.len() as int) == old(bus)@,
        final(bus)@.last() matches RuntimeEvent::ModelUnloading(x) && x@ == id@,
        !crate::catalog::has_model(old(models).entries(), id@) ==> (r matches Err(e) && e matches RuntimeError::ModelNotFound(t)
            && t@ == id@) && final(models).entries() == old(models).entries(),
        r is Ok ==> {
            &&& *final(loaded) is None
            &&& exists|p: int|
                0 <= p < old(models).entries().len() && old(models).entries()[p].id == id@ && final(models).entries()
                    == old(models).entries().update(
                    p,
                    crate::catalog::with_status(old(models).entries()[p], crate::catalog::ModelStatus::Registered),
                )
        },
        r is Err ==> *final(loaded) == *old(loaded),
        final(models).file() == old(models).file(),
{
    let ghost before = bus@;
    bus.publish(RuntimeEvent::ModelUnloading(String::from_str(id)));
    proof {
        assert(bus@.subrange(0, before.len() as int) =~= before);
    }
    let ghost m0 = models.entries();
    match models.set_status(id, crate::catalog::ModelStatus::Unloading, store) {
        Err(e) => {
            return Err(e);
        },
        Ok(()) => {},
    }
    let ghost m1 = models.entries();
    match backend.unload_model(id) {
        Err(e) => {
            return Err(e);
        },
        Ok(()) => {},
    }
    match models.set_status(id, crate::catalog::ModelStatus::Registered, store) {
        Err(e) => {
            return Err(e);
        },
        Ok(()) => {},
    }
    proof {
        let p = choose|p: int|
            0 <= p < m0.len() && m0[p].id == id@ && m1 == m0.update(
                p,
                crate::catalog::with_status(m0[p], crate::catalog::ModelStatus::Unloading),
            );
        let q = choose|q: int|
            0 <= q < m1.len() && m1[q].id == id@ && models.entries() == m1.update(
                q,
                crate::catalog::with_status(m1[q], crate::catalog::ModelStatus::Registered),
            );
        crate::catalog::lemma_status_then_inspect(m0, p, crate::catalog::ModelStatus::Unloading);
        if q != p {
            assert(m1[q] == m0[q]);
            assert(crate::catalog::model_ids(m0)[q] == crate::catalog::model_ids(m0)[p]);
            crate::order::lemma_sorted_unique(crate::catalog::model_ids(m0), q, p);
        }
        assert(q == p);
        assert(models.entries() =~= m0.update(
            p,
            crate::catalog::with_status(m0[p], crate::catalog::ModelStatus::Registered),
        ));
    }
    *loaded = None;
    Ok(())
}

} // verus!

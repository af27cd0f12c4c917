//! Backend-neutral vocabulary for local model inference: model identities,
//! artifact paths, lifecycle states and errors. Concrete engines and the
//! streaming of generated text live with the caller.
use vstd::prelude::*;
use crate::text::{concat, ends_with, is_blank, push_char, str_is_blank, to_chars};

verus! {

/// Stable identity for a model known to the runtime: a text that is not
/// blank.
#[derive(Clone, Debug, Eq, Hash, Ord, PartialEq, PartialOrd)]
pub struct ModelId(String);

impl View for ModelId {
    type V = Seq<char>;

    closed spec fn view(&self) -> Seq<char> {
        self.0@
    }
}

impl ModelId {
    /// Construct an identifier; a blank value is refused with
    /// `InvalidRequest("model id is empty")`.
    pub fn new(value: &str) -> (r: Result<Self, ModelRunnerError>)
        ensures
            match r {
                Ok(id) => !is_blank(value@) && id@ == value@,
                Err(e) => is_blank(value@) && e@ == ModelRunnerErrorV::InvalidRequest("model id is empty"@),
            },
    {
        if str_is_blank(value) {
            return Err(ModelRunnerError::InvalidRequest(String::from_str("model id is empty")));
        }
        Ok(ModelId(String::from_str(value)))
    }

    /// Return the identifier as text.
    pub fn as_str(&self) -> (s: &str)
        ensures
            s@ == self@,
    {
        self.0.as_str()
    }
}

/// The ASCII lower-case form of a character.
pub open spec fn ascii_lower(c: char) -> char {
    if 'A' <= c <= 'Z' {
        ((c as u32) + 32) as char
    } else {
        c
    }
}

/// The ASCII lower-case form of a text, as `to_ascii_lowercase` gives it.
pub open spec fn ascii_lowercase(s: Seq<char>) -> Seq<char> {
    s.map_values(|c: char| ascii_lower(c))
}

/// The ASCII lower-case form of a string.
pub fn to_ascii_lowercase(s: &str) -> (r: String)
    ensures
        r@ == ascii_lowercase(s@),
{
    let v = to_chars(s);
    let mut out = String::new();
    let mut i: usize = 0;
    while i < v.len()
        invariant
            v@ == s@,
            i <= v@.len(),
            out@ == ascii_lowercase(v@.subrange(0, i as int)),
        decreases v@.len() - i,
    {
        let c = v[i];
        let lower = if 'A' <= c && c <= 'Z' {
            char_from_ascii(c)
        } else {
            c
        };
        push_char(&mut out, lower);
        proof {
            assert(ascii_lowercase(v@.subrange(0, i + 1)) =~= ascii_lowercase(v@.subrange(0, i as int)).push(ascii_lower(c)));
        }
        i = i + 1;
    }
    proof {
        assert(v@.subrange(0, v@.len() as int) =~= v@);
    }
    out
}

/// The lower-case letter for an upper-case ASCII letter.
fn char_from_ascii(c: char) -> (r: char)
    requires
        'A' <= c <= 'Z',
    ensures
        r == ascii_lower(c),
{
    let n = (c as u32) + 32;
    let b = n as u8;
    b as char
}

/// Whether a path names a GGUF artifact: it ends in `.gguf`, in any case.
pub open spec fn is_gguf(path: Seq<char>) -> bool {
    ends_with(ascii_lowercase(path), ".gguf"@)
}

/// A local model artifact path.
#[derive(Clone, Debug, Eq, PartialEq)]
pub struct ModelPath(String);

impl View for ModelPath {
    type V = Seq<char>;

    closed spec fn view(&self) -> Seq<char> {
        self.0@
    }
}

impl ModelPath {
    /// Construct a path to a GGUF artifact; a blank path is refused with
    /// `InvalidRequest("model path is empty")`, and any other format with
    /// `UnsupportedFormat(<path>)`.
    pub fn new(value: &str) -> (r: Result<Self, ModelRunnerError>)
        ensures
            is_blank(value@) ==> (r matches Err(e) && e@ == ModelRunnerErrorV::InvalidRequest("model path is empty"@)),
            !is_blank(value@) && !is_gguf(value@) ==> (r matches Err(e) && e@ == ModelRunnerErrorV::UnsupportedFormat(
                value@,
            )),
            !is_blank(value@) && is_gguf(value@) ==> (r matches Ok(p) && p@ == value@),
    {
        if str_is_blank(value) {
            return Err(ModelRunnerError::InvalidRequest(String::from_str("model path is empty")));
        }
        let lower = to_ascii_lowercase(value);
        if !crate::text::str_ends_with(lower.as_str(), ".gguf") {
            return Err(ModelRunnerError::UnsupportedFormat(String::from_str(value)));
        }
        Ok(ModelPath(String::from_str(value)))
    }

    /// Return the path as text.
    pub fn as_str(&self) -> (s: &str)
        ensures
            s@ == self@,
    {
        self.0.as_str()
    }
}

/// Request to load one local model.
#[derive(Clone, Debug, Eq, PartialEq)]
pub struct LoadModelRequest {
    /// Runtime model identity.
    pub model_id: ModelId,
    /// Local GGUF artifact path.
    pub path: ModelPath,
}

/// A successfully loaded model.
#[derive(Clone, Debug, Eq, PartialEq)]
pub struct LoadedModel {
    /// Runtime model identity.
    pub model_id: ModelId,
    /// Backend identity that loaded the model.
    pub backend: String,
    /// Model format.
    pub format: String,
    /// Load duration, when measured by the adapter.
    pub load_time: Option<std::time::Duration>,
    /// Backend-reported model memory, when available.
    pub memory_bytes: Option<u64>,
}

/// Runtime-level model statistics.
#[derive(Clone, Debug, PartialEq)]
pub struct ModelRuntimeStats {
    /// Currently loaded model, if any.
    pub loaded_model: Option<ModelId>,
    /// Model memory reported by the backend, when available.
    pub memory_bytes: Option<u64>,
    /// Current lifecycle state.
    pub state: ModelState,
}

impl Default for ModelRuntimeStats {
    fn default() -> (r: Self)
        ensures
            r.loaded_model is None,
            r.memory_bytes is None,
            r.state == ModelState::Unloaded,
    {
        ModelRuntimeStats { loaded_model: None, memory_bytes: None, state: ModelState::Unloaded }
    }
}

/// Controlled model lifecycle state.
#[derive(Clone, Copy, Debug, Eq, PartialEq, Structural)]
pub enum ModelState {
    /// No model is loaded.
    Unloaded,
    /// A model is being loaded.
    Loading,
    /// A model is ready for generation.
    Ready,
    /// Generation is active.
    Generating,
    /// A model is being unloaded.
    Unloading,
    /// The previous lifecycle operation failed.
    Failed,
}

impl Default for ModelState {
    fn default() -> (r: Self)
        ensures
            r == ModelState::Unloaded,
    {
        ModelState::Unloaded
    }
}

/// Plain values of a model-runtime error.
pub enum ModelRunnerErrorV {
    InvalidRequest(Seq<char>),
    UnsupportedFormat(Seq<char>),
    ModelNotFound(Seq<char>),
    ModelUnreadable(Seq<char>),
    BackendUnavailable(Seq<char>),
    ModelNotLoaded,
    ModelBusy(Seq<char>),
    BackendFailure(Seq<char>),
    ResourceExhausted(Seq<char>),
    Cancelled,
    UnloadFailure(Seq<char>),
}

/// Errors owned by the model-runtime boundary.
#[derive(Clone, Debug, Eq, PartialEq)]
pub enum ModelRunnerError {
    /// A request is malformed.
    InvalidRequest(String),
    /// The requested artifact format is unsupported.
    UnsupportedFormat(String),
    /// The model artifact was not found.
    ModelNotFound(String),
    /// The model artifact could not be read.
    ModelUnreadable(String),
    /// A backend is unavailable.
    BackendUnavailable(String),
    /// The model is not currently loaded.
    ModelNotLoaded,
    /// The loaded model is already in use or another model is active.
    ModelBusy(String),
    /// A backend rejected loading or generation.
    BackendFailure(String),
    /// Resources are insufficient for the requested operation.
    ResourceExhausted(String),
    /// Generation was cancelled before completion.
    Cancelled,
    /// Model cleanup failed.
    UnloadFailure(String),
}

impl View for ModelRunnerError {
    type V = ModelRunnerErrorV;

    open spec fn view(&self) -> ModelRunnerErrorV {
        match self {
            ModelRunnerError::InvalidRequest(v) => ModelRunnerErrorV::InvalidRequest(v@),
            ModelRunnerError::UnsupportedFormat(v) => ModelRunnerErrorV::UnsupportedFormat(v@),
            ModelRunnerError::ModelNotFound(v) => ModelRunnerErrorV::ModelNotFound(v@),
            ModelRunnerError::ModelUnreadable(v) => ModelRunnerErrorV::ModelUnreadable(v@),
            ModelRunnerError::BackendUnavailable(v) => ModelRunnerErrorV::BackendUnavailable(v@),
            ModelRunnerError::ModelNotLoaded => ModelRunnerErrorV::ModelNotLoaded,
            ModelRunnerError::ModelBusy(v) => ModelRunnerErrorV::ModelBusy(v@),
            ModelRunnerError::BackendFailure(v) => ModelRunnerErrorV::BackendFailure(v@),
            ModelRunnerError::ResourceExhausted(v) => ModelRunnerErrorV::ResourceExhausted(v@),
            ModelRunnerError::Cancelled => ModelRunnerErrorV::Cancelled,
            ModelRunnerError::UnloadFailure(v) => ModelRunnerErrorV::UnloadFailure(v@),
        }
    }
}

/// The message `Display` writes for a model-runtime error.
pub open spec fn model_error_text(e: ModelRunnerErrorV) -> Seq<char> {
    match e {
        ModelRunnerErrorV::InvalidRequest(v) => "invalid request: "@ + v,
        ModelRunnerErrorV::UnsupportedFormat(v) => "unsupported model format: "@ + v,
        ModelRunnerErrorV::ModelNotFound(v) => "model not found: "@ + v,
        ModelRunnerErrorV::ModelUnreadable(v) => "model unreadable: "@ + v,
        ModelRunnerErrorV::BackendUnavailable(v) => "backend unavailable: "@ + v,
        ModelRunnerErrorV::ModelNotLoaded => "model is not loaded"@,
        ModelRunnerErrorV::ModelBusy(v) => "model is busy: "@ + v,
        ModelRunnerErrorV::BackendFailure(v) => "backend failure: "@ + v,
        ModelRunnerErrorV::ResourceExhausted(v) => "resources exhausted: "@ + v,
        ModelRunnerErrorV::Cancelled => "generation cancelled"@,
        ModelRunnerErrorV::UnloadFailure(v) => "unload failed: "@ + v,
    }
}

impl ModelRunnerError {
    /// The user-facing message of the error.
    pub fn to_text(&self) -> (s: String)
        ensures
            s@ == model_error_text(self@),
    {
        match self {
            ModelRunnerError::InvalidRequest(v) => concat("invalid request: ", v.as_str()),
            ModelRunnerError::UnsupportedFormat(v) => concat("unsupported model format: ", v.as_str()),
            ModelRunnerError::ModelNotFound(v) => concat("model not found: ", v.as_str()),
            ModelRunnerError::ModelUnreadable(v) => concat("model unreadable: ", v.as_str()),
            ModelRunnerError::BackendUnavailable(v) => concat("backend unavailable: ", v.as_str()),
            ModelRunnerError::ModelNotLoaded => String::from_str("model is not loaded"),
            ModelRunnerError::ModelBusy(v) => concat("model is busy: ", v.as_str()),
            ModelRunnerError::BackendFailure(v) => concat("backend failure: ", v.as_str()),
            ModelRunnerError::ResourceExhausted(v) => concat("resources exhausted: ", v.as_str()),
            ModelRunnerError::Cancelled => String::from_str("generation cancelled"),
            ModelRunnerError::UnloadFailure(v) => concat("unload failed: ", v.as_str()),
        }
    }
}

/// How a generation ended, as the worker reports it last.
#[derive(Debug)]
pub enum GenerationEnd {
    /// The generation was cancelled.
    Cancelled,
    /// The generation ran to its end.
    Completed,
    /// The backend failed with this message.
    Failed(String),
}

/// How a generation ended, from the backend's outcome and whether the
/// cancellation token was set when it returned: a success is a completion
/// unless the run was cancelled; a failure is a cancellation when the run was
/// cancelled or the backend reported `generation cancelled`, and otherwise a
/// failure with the backend's message.
pub fn generation_end(outcome: Result<(), String>, cancelled: bool) -> (r: GenerationEnd)
    ensures
        match outcome {
            Ok(()) => if cancelled {
                r is Cancelled
            } else {
                r is Completed
            },
            Err(e) => if cancelled || e@ == "generation cancelled"@ {
                r is Cancelled
            } else {
                r matches GenerationEnd::Failed(m) && m@ == e@
            },
        },
{
    match outcome {
        Ok(()) => {
            if cancelled {
                GenerationEnd::Cancelled
            } else {
                GenerationEnd::Completed
            }
        },
        Err(e) => {
            if cancelled || crate::text::str_eq(e.as_str(), "generation cancelled") {
                GenerationEnd::Cancelled
            } else {
                GenerationEnd::Failed(e)
            }
        },
    }
}

/// Cooperative cancellation signal propagated into a backend. Clones share
/// one flag, so a cancellation requested through any clone is seen by all;
/// what a check reads depends on other holders, so no contract states it.
#[derive(Clone, Debug)]
pub struct CancellationToken(std::sync::Arc<std::sync::atomic::AtomicBool>);

impl CancellationToken {
    /// A token that is not cancelled.
    pub fn new() -> (r: Self) {
        CancellationToken(std::sync::Arc::new(std::sync::atomic::AtomicBool::new(false)))
    }

    /// Request cancellation.
    pub fn cancel(&self) {
        self.0.store(true, std::sync::atomic::Ordering::SeqCst);
    }

    /// Check whether cancellation was requested.
    pub fn is_cancelled(&self) -> (b: bool) {
        self.0.load(std::sync::atomic::Ordering::SeqCst)
    }

    /// Expose the read-only cancellation flag to an adapter implementation.
    pub fn as_atomic(&self) -> (a: &std::sync::atomic::AtomicBool) {
        &*self.0
    }
}

impl Default for CancellationToken {
    fn default() -> (r: Self) {
        CancellationToken::new()
    }
}

/// Identifies the model boundary.
pub fn boundary_name() -> (s: &'static str)
    ensures
        s@ == "model-runner"@,
{
    "model-runner"
}

} // verus!

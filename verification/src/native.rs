//! The native inference engine's availability in this build, and its
//! measurements. The engine itself is not linked into the library, so every
//! entry point reports that it is unavailable.
use vstd::prelude::*;

verus! {

/// Native generation measurements.
#[derive(Clone, Copy, Debug, Default, Eq, PartialEq)]
pub struct NativeGenerationStatistics {
    /// Prompt token count.
    pub prompt_tokens: u64,
    /// Generated token count.
    pub generated_tokens: u64,
    /// Context tokens consumed.
    pub context_tokens: u64,
}

/// Whether this build links the native library: it does not.
pub fn is_available() -> (b: bool)
    ensures
        !b,
{
    false
}

/// Initialize the native backend: without the library, this explains how
/// to provide it.
pub fn initialize() -> (r: Result<(), String>)
    ensures
        r matches Err(e) && e@ == "set LLAMA_CPP_LIB_DIR to a directory containing libllama"@,
{
    Err("set LLAMA_CPP_LIB_DIR to a directory containing libllama".to_string())
}

/// Release native resources: nothing is held without the library.
pub fn shutdown() {
}

/// System and build information of the native library: none without it.
pub fn system_info() -> (r: Option<String>)
    ensures
        r is None,
{
    None
}

} // verus!

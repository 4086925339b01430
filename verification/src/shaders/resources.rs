//! The limits and capabilities a compiler is constructed with.
use vstd::prelude::*;

verus! {

/// The engine's record of limits and capabilities, in one of the two forms
/// this layer hands out. The record itself is the engine's: it is filled in
/// where the compiler is constructed.
#[derive(Clone, Copy, Debug, PartialEq, Eq)]
pub enum BuiltInResources {
    /// Every limit zero and every capability off.
    Zeroed,
    /// The limits and capabilities that the engine fills in for itself.
    EngineDefault,
}

impl BuiltInResources {
    /// The zeroed form.
    #[inline]
    pub fn empty() -> (resources: BuiltInResources)
        ensures
            resources == BuiltInResources::Zeroed,
    {
        BuiltInResources::Zeroed
    }
}

impl Default for BuiltInResources {
    /// The form initialised by the engine.
    fn default() -> (resources: BuiltInResources)
        ensures
            resources == BuiltInResources::EngineDefault,
    {
        BuiltInResources::EngineDefault
    }
}

} // verus!

use vstd::prelude::*;
use crate::context::{deterministic_model, IoContext};

verus! {

/// A pure factory for contexts with no ambient leakage: every context it
/// builds has the one fixed model `deterministic_model()`, so no two
/// builds, on any host, can observe different guest behavior through the
/// three streams. It keeps no state and no relationship to what it built.
pub struct DeterministicPreset;

impl DeterministicPreset {
    /// Builds a deterministic context. Never fails.
    pub fn build() -> (c: IoContext)
        ensures
            c.wf(),
            c.model() == deterministic_model(),
    {
        IoContext::deterministic()
    }
}

} // verus!

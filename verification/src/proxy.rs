//! The runtime proxy that emitted formatting logic wraps already-rendered
//! field text in, so that the host's structural layouts splice that text
//! verbatim instead of quoting or re-escaping it.

use vstd::prelude::*;

verus! {

/// Carries a piece of already-rendered text through the host's structural
/// debug layouts verbatim.
pub struct DebugConciselyProxy(pub String);

impl DebugConciselyProxy {
    /// The text this proxy prints, exactly as it was stored.
    pub fn rendered(&self) -> (text: &str)
        ensures
            text@ == self.0@,
    {
        self.0.as_str()
    }
}

} // verus!

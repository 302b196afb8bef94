use vstd::prelude::*;
use vstd::string::StringExecFns;

use crate::backend::GegBackend;

verus! {

/// Options an application hands over at startup: a window title and the
/// graphics binding to run on.
pub struct GegAppOptions {
    pub name: String,
    pub backend: GegBackend,
}

impl Default for GegAppOptions {
    /// The default application is titled "Geg App" and renders through the
    /// Vulkan binding.
    fn default() -> (r: Self)
        ensures
            r.name@ == "Geg App"@,
            r.backend == GegBackend::Vulkano,
    {
        Self { name: String::from_str("Geg App"), backend: GegBackend::Vulkano }
    }
}

} // verus!

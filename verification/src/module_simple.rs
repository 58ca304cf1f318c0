//! Entry points of the simple benchmark module that the call-custom-modules
//! strategy invokes.

use vstd::prelude::*;

verus! {

/// Named callable targets inside a published benchmark module.
#[derive(Debug, Copy, Clone, PartialEq, Eq, Structural)]
pub enum EntryPoints {
    /// Does nothing.
    Nop,
    /// Advances a counter resource by one.
    Step,
    /// Reads the counter resource.
    GetCounter,
    /// Resets the module's data to its initial state.
    ResetData,
}

} // verus!

use vstd::prelude::*;

verus! {

/// Identifies a backend.
pub struct ImplInfo {
    /// The backend's name.
    pub name: String,
    /// The version of the library it wraps.
    pub version: String,
}

} // verus!

use vstd::prelude::*;

verus! {

/// Why a raw request could not become a validated parameter value.
#[derive(Clone, Copy, Debug, PartialEq, Eq, Structural)]
pub enum ValidationError {
    AppIdEmpty,
    WorkspaceIdEmpty,
    AppNameEmpty,
}

/// Errors surfaced by the coordinator, unchanged from where they arose.
#[derive(Clone, Debug, PartialEq, Eq)]
pub enum WorkspaceError {
    /// Raw input did not convert into a domain value; no store was called.
    Validation(ValidationError),
    /// An identifier did not resolve in the app store.
    NotFound(String),
    /// Any other failure reported by one of the stores.
    Subsystem(String),
}

} // verus!

use vstd::prelude::*;

verus! {

/// Why a terminal control or query operation failed.
#[derive(Debug, Clone, Copy, PartialEq, Eq, Structural)]
pub enum TtyError {
    /// No resource is registered under the identifier.
    UnknownResource,
    /// The resource is not terminal-capable.
    UnsupportedResourceKind,
    /// The resource's handle is checked out by an in-flight operation.
    ResourceUnavailable,
    /// The handle is null or the platform's invalid-handle sentinel.
    InvalidHandle,
    /// A platform call failed; carries the platform's error code.
    OsFailure(i32),
    /// Raw-mode control was used while the unstable features are disabled.
    FeatureDisabled,
}

} // verus!

//! The error taxonomy of the context core.  Every operation reports its
//! failure to the immediate caller as a typed result; nothing is
//! retried internally.

use vstd::prelude::*;

verus! {

/// Failures that the context core can report.
#[derive(Clone, Copy, PartialEq, Eq, Structural, Debug)]
pub enum Error {
    /// No native pixel format satisfies the requested attributes.
    NoMatchingConfig,
    /// Adoption was attempted while no native context is current on the
    /// calling thread.
    NoCurrentContext,
    /// The native context-creation entry point returned a null handle.
    ContextCreationFailed,
    /// The native make-current entry point reported failure.
    MakeCurrentFailed,
    /// The surface's owning-context identity differs from the identity
    /// of the context it was to be bound to.
    IncompatibleSurface,
    /// A surface is already bound to the context.
    SurfaceAlreadyBound,
    /// The context was adopted from outside and its render target is
    /// externally managed; the operation is not permitted on it.
    ExternalRenderTarget,
}

} // verus!

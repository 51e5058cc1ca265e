use vstd::prelude::*;

verus! {

/// Everything that can go wrong around the token machinery.
#[derive(Debug, PartialEq, Eq)]
pub enum Error {
    /// The signing primitive rejected the secret. The keyed hash this crate
    /// builds on accepts keys of any length, so no verified function ever
    /// returns this; it is kept so callers see the full error surface of
    /// the signing step.
    InvalidLength,
    /// A per-request collaborator (configuration, cookie store, token
    /// handle) was not attached by the surrounding integration. A
    /// misconfiguration of the embedding service, never adversarial
    /// traffic.
    ExtensionNotFound(String),
    /// The token cookie couldn't be found by the name given.
    NoCookie,
}

} // verus!

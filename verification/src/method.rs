use vstd::prelude::*;

verus! {

/// An HTTP request method, reduced to the distinctions the guard cares
/// about: the four mutating methods are checked, everything else passes
/// through untouched.
#[derive(Clone, Copy, Debug, PartialEq, Eq, Structural)]
pub enum HttpMethod {
    Get,
    Head,
    Options,
    Trace,
    Connect,
    Post,
    Put,
    Patch,
    Delete,
    /// Any extension method; treated like the safe methods.
    Other,
}

/// A request with one of these methods must carry a valid token; all other
/// methods are exempt from the check.
pub open spec fn spec_is_mutating(m: HttpMethod) -> bool {
    m == HttpMethod::Post || m == HttpMethod::Put || m == HttpMethod::Patch
        || m == HttpMethod::Delete
}

/// Decides whether a method is one of the four that mutate server state.
pub fn is_mutating_method(m: HttpMethod) -> (r: bool)
    ensures
        r == spec_is_mutating(m),
{
    match m {
        HttpMethod::Post | HttpMethod::Put | HttpMethod::Patch | HttpMethod::Delete => true,
        _ => false,
    }
}

} // verus!

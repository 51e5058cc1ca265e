use vstd::prelude::*;

use crate::bytes::subvec;
use crate::config::TokenConfig;
use crate::jar::CookieJar;
use crate::method::HttpMethod;
use crate::method::is_mutating_method;
use crate::method::spec_is_mutating;
use crate::token::spec_validate;
use crate::token::validate_token;

verus! {

/// The layer that wraps an application service in the CSRF check.
#[derive(Clone, Copy, Debug, Default)]
pub struct Guard;

/// An application service wrapped in the CSRF check. The service itself
/// only carries the inner stage; the decision procedure lives in
/// [`guard_precheck`] and [`guard_verdict`], which the surrounding
/// integration runs around the inner call.
#[derive(Clone, Debug)]
pub struct GuardService<S> {
    pub inner: S,
}

impl Guard {
    /// Wraps `inner` in the CSRF check.
    pub fn layer<S>(&self, inner: S) -> (r: GuardService<S>)
        ensures
            r.inner == inner,
    {
        GuardService::new(inner)
    }
}

impl<S> GuardService<S> {
    /// Wraps `inner` in the CSRF check.
    pub fn new(inner: S) -> (r: GuardService<S>)
        ensures
            r.inner == inner,
    {
        GuardService { inner }
    }
}

/// What the guard has decided about a request before the handler runs.
#[derive(Debug)]
pub enum GuardState {
    /// A safe method: no check at all, the response passes untouched.
    PassThrough,
    /// A mutating method: the cookie and header values captured before the
    /// handler ran will decide the response's fate.
    Checked { cookie: Option<Vec<u8>>, header: Option<Vec<u8>> },
}

/// What happens to the response the handler produced.
#[derive(Clone, Copy, Debug, PartialEq, Eq, Structural)]
pub enum Verdict {
    /// The response is delivered unchanged.
    Deliver,
    /// The response is replaced by a bare forbidden rejection.
    Forbidden,
}

/// The verdict a guard state comes to under `secret`: a pass-through
/// request is always delivered; a checked one is delivered exactly when
/// both values were present and validate, and rejected otherwise.
pub open spec fn spec_verdict(secret: Seq<u8>, state: GuardState) -> Verdict {
    match state {
        GuardState::PassThrough => Verdict::Deliver,
        GuardState::Checked { cookie, header } => match (cookie, header) {
            (Some(c), Some(h)) => if spec_validate(secret, c@, h@) {
                Verdict::Deliver
            } else {
                Verdict::Forbidden
            },
            _ => Verdict::Forbidden,
        },
    }
}

/// Runs before the request is forwarded: a request with a safe method
/// passes through with no check at all; for a mutating method the
/// configured cookie's value and the echoed header value are captured, to
/// be judged once the response exists. The request itself is forwarded
/// either way — validation gates only the response's delivery.
pub fn guard_precheck(
    config: &TokenConfig,
    jar: &CookieJar,
    method: HttpMethod,
    header: Option<Vec<u8>>,
) -> (r: GuardState)
    ensures
        !spec_is_mutating(method) ==> r is PassThrough,
        spec_is_mutating(method) ==> (r matches GuardState::Checked { cookie, header: h } && {
            &&& h == header
            &&& match jar.spec_get(config.spec_cookie_name()) {
                Some(e) => cookie matches Some(c) && c@ == e.value@,
                None => cookie is None,
            }
        }),
{
    if !is_mutating_method(method) {
        return GuardState::PassThrough;
    }
    let name = config.cookie_name();
    let cookie = match jar.get(name.as_slice()) {
        Some(e) => Some(subvec(e.value.as_slice(), 0, e.value.len())),
        None => None,
    };
    GuardState::Checked { cookie, header }
}

/// Runs after the response exists: judges the captured state under
/// `secret`.
pub fn guard_verdict(secret: &[u8], state: &GuardState) -> (r: Verdict)
    ensures
        r == spec_verdict(secret@, *state),
{
    match state {
        GuardState::PassThrough => Verdict::Deliver,
        GuardState::Checked { cookie, header } => match (cookie, header) {
            (Some(c), Some(h)) => if validate_token(secret, c.as_slice(), h.as_slice()) {
                Verdict::Deliver
            } else {
                Verdict::Forbidden
            },
            _ => Verdict::Forbidden,
        },
    }
}

/// A request with a safe method is always delivered unchanged, whatever
/// the cookie and header hold: its guard state is pass-through, and a
/// pass-through state is delivered under every secret.
pub proof fn lemma_safe_method_exempt(secret: Seq<u8>, state: GuardState, method: HttpMethod)
    requires
        !spec_is_mutating(method),
        state is PassThrough,
    ensures
        spec_verdict(secret, state) == Verdict::Deliver,
{
}

/// A checked request that arrived without a token cookie, or without the
/// echoed header, is always rejected, under every secret.
pub proof fn lemma_missing_value_forbidden(secret: Seq<u8>, state: GuardState)
    requires
        state matches GuardState::Checked { cookie, header } && (cookie is None || header is None),
    ensures
        spec_verdict(secret, state) == Verdict::Forbidden,
{
}

} // verus!

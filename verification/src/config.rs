use vstd::prelude::*;

use crate::bytes::append_bytes;
use crate::bytes::subvec;

verus! {

/// The `SameSite` cookie attribute.
#[derive(Clone, Copy, Debug, PartialEq, Eq, Structural)]
pub enum SameSite {
    /// The cookie is only sent on same-site requests.
    Strict,
    /// The cookie is also sent on top-level cross-site navigation.
    Lax,
    /// The `SameSite=None` directive: the cookie is sent on cross-site
    /// requests too (browsers then demand `Secure`).
    CrossSite,
}

/// When the token cookie expires.
#[derive(Clone, Copy, Debug, PartialEq, Eq, Structural)]
pub enum Expiry {
    /// The cookie lives for the browser session only.
    Session,
    /// The cookie expires at the given Unix timestamp, in seconds.
    At(i64),
}

/// The immutable configuration bundle: the signing secret, the names under
/// which the token travels, and the attributes every token cookie is set
/// with. Built once at service setup and shared, read-only, by every
/// request.
#[derive(Debug)]
pub struct TokenConfig {
    /// The signing key. Any length is accepted by the keyed hash, but a
    /// well-formed configuration never carries an empty one.
    pub secret: Vec<u8>,
    /// Base name of the token cookie, before any `__HOST-` prefixing.
    pub cookie_name: Vec<u8>,
    /// When the token cookie expires.
    pub expires: Expiry,
    /// Name of the form field a token may be submitted under.
    pub field_name: Vec<u8>,
    /// Name of the request header the client echoes the token in.
    pub header_name: Vec<u8>,
    /// Whether the cookie is hidden from client-side scripts.
    pub http_only: bool,
    /// Whether the effective cookie name is `__HOST-`-prefixed, which makes
    /// browsers enforce `Secure`, `Path=/` and the absence of `Domain`.
    pub prefix: bool,
    /// The cookie's `SameSite` attribute.
    pub same_site: SameSite,
    /// Whether the cookie is restricted to secure transports.
    pub secure: bool,
}

/// The bytes of `"__HOST-"`.
pub open spec fn spec_host_prefix() -> Seq<u8> {
    seq![95u8, 95u8, 72u8, 79u8, 83u8, 84u8, 45u8]
}

impl TokenConfig {
    /// A configuration is well formed when its secret is non-empty.
    pub open spec fn wf(&self) -> bool {
        self.secret@.len() > 0
    }

    /// The name the token cookie is actually stored under.
    pub open spec fn spec_cookie_name(&self) -> Seq<u8> {
        if self.prefix {
            spec_host_prefix() + self.cookie_name@
        } else {
            self.cookie_name@
        }
    }

    /// Returns the effective cookie name: the configured name, behind a
    /// `__HOST-` prefix when prefixing is enabled.
    pub fn cookie_name(&self) -> (r: Vec<u8>)
        ensures
            r@ == self.spec_cookie_name(),
    {
        let mut r: Vec<u8> = Vec::new();
        if self.prefix {
            // "__HOST-" as ASCII bytes.
            let host_prefix: [u8; 7] = [95, 95, 72, 79, 83, 84, 45];
            append_bytes(&mut r, host_prefix.as_slice());
            proof {
                assert(r@ =~= spec_host_prefix());
            }
        }
        append_bytes(&mut r, self.cookie_name.as_slice());
        r
    }

    /// A field-for-field copy of this configuration, for integrations
    /// that hand each request a handle of its own.
    pub fn duplicate(&self) -> (r: TokenConfig)
        ensures
            r.secret@ == self.secret@,
            r.cookie_name@ == self.cookie_name@,
            r.expires == self.expires,
            r.field_name@ == self.field_name@,
            r.header_name@ == self.header_name@,
            r.http_only == self.http_only,
            r.prefix == self.prefix,
            r.same_site == self.same_site,
            r.secure == self.secure,
            r.wf() == self.wf(),
            r.spec_cookie_name() == self.spec_cookie_name(),
    {
        TokenConfig {
            secret: subvec(self.secret.as_slice(), 0, self.secret.len()),
            cookie_name: subvec(self.cookie_name.as_slice(), 0, self.cookie_name.len()),
            expires: self.expires,
            field_name: subvec(self.field_name.as_slice(), 0, self.field_name.len()),
            header_name: subvec(self.header_name.as_slice(), 0, self.header_name.len()),
            http_only: self.http_only,
            prefix: self.prefix,
            same_site: self.same_site,
            secure: self.secure,
        }
    }
}

} // verus!

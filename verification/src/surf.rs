use vstd::prelude::*;

use crate::bytes::append_bytes;
use crate::bytes::subvec;
use crate::config::Expiry;
use crate::config::SameSite;
use crate::config::TokenConfig;
use crate::error::Error;
use crate::token::Token;
use crate::token::entry_matches_config;
use crate::token::is_anonymous_token;
use crate::token::spec_validate;

verus! {

/// The bytes of `"csrf_token"`, the default cookie and form-field name.
pub open spec fn spec_default_cookie_name() -> Seq<u8> {
    seq![99u8, 115u8, 114u8, 102u8, 95u8, 116u8, 111u8, 107u8, 101u8, 110u8]
}

/// The bytes of `"X-CSRF-Token"`, the default header name.
pub open spec fn spec_default_header_name() -> Seq<u8> {
    seq![88u8, 45u8, 67u8, 83u8, 82u8, 70u8, 45u8, 84u8, 111u8, 107u8, 101u8, 110u8]
}

/// The builder for the protection layer's configuration. Starts from the
/// hardened defaults — `HttpOnly`, `SameSite=Strict`, `Secure`, a
/// `__HOST-`-prefixed session cookie — and lets each attribute be
/// overridden in turn.
#[derive(Debug)]
pub struct Surf {
    pub config: TokenConfig,
}

impl Surf {
    /// Starts a configuration around `secret`, which signs every token
    /// and must not be empty.
    pub fn new(secret: &[u8]) -> (r: Surf)
        requires
            secret@.len() > 0,
        ensures
            r.config.wf(),
            r.config.secret@ == secret@,
            r.config.cookie_name@ == spec_default_cookie_name(),
            r.config.expires == Expiry::Session,
            r.config.field_name@ == spec_default_cookie_name(),
            r.config.header_name@ == spec_default_header_name(),
            r.config.http_only,
            r.config.prefix,
            r.config.same_site == SameSite::Strict,
            r.config.secure,
    {
        // "csrf_token" and "X-CSRF-Token" as ASCII bytes.
        let name: [u8; 10] = [99, 115, 114, 102, 95, 116, 111, 107, 101, 110];
        let header: [u8; 12] = [88, 45, 67, 83, 82, 70, 45, 84, 111, 107, 101, 110];
        let mut cookie_name: Vec<u8> = Vec::new();
        append_bytes(&mut cookie_name, name.as_slice());
        let mut field_name: Vec<u8> = Vec::new();
        append_bytes(&mut field_name, name.as_slice());
        let mut header_name: Vec<u8> = Vec::new();
        append_bytes(&mut header_name, header.as_slice());
        proof {
            assert(cookie_name@ =~= spec_default_cookie_name());
            assert(field_name@ =~= spec_default_cookie_name());
            assert(header_name@ =~= spec_default_header_name());
        }
        Surf {
            config: TokenConfig {
                secret: subvec(secret, 0, secret.len()),
                cookie_name,
                expires: Expiry::Session,
                field_name,
                header_name,
                http_only: true,
                prefix: true,
                same_site: SameSite::Strict,
                secure: true,
            },
        }
    }

    /// Overrides the cookie's base name.
    pub fn cookie_name(self, cookie_name: Vec<u8>) -> (r: Surf)
        ensures
            r.config == (TokenConfig { cookie_name, ..self.config }),
    {
        Surf { config: TokenConfig { cookie_name, ..self.config } }
    }

    /// Overrides when the cookie expires.
    pub fn expires(self, expires: Expiry) -> (r: Surf)
        ensures
            r.config == (TokenConfig { expires, ..self.config }),
    {
        Surf { config: TokenConfig { expires, ..self.config } }
    }

    /// Overrides the form-field name.
    pub fn field_name(self, field_name: Vec<u8>) -> (r: Surf)
        ensures
            r.config == (TokenConfig { field_name, ..self.config }),
    {
        Surf { config: TokenConfig { field_name, ..self.config } }
    }

    /// Overrides the header name the token is echoed in.
    pub fn header_name(self, header_name: Vec<u8>) -> (r: Surf)
        ensures
            r.config == (TokenConfig { header_name, ..self.config }),
    {
        Surf { config: TokenConfig { header_name, ..self.config } }
    }

    /// Overrides whether the cookie is hidden from client-side scripts.
    pub fn http_only(self, http_only: bool) -> (r: Surf)
        ensures
            r.config == (TokenConfig { http_only, ..self.config }),
    {
        Surf { config: TokenConfig { http_only, ..self.config } }
    }

    /// Overrides whether the effective cookie name is `__HOST-`-prefixed.
    pub fn prefix(self, prefix: bool) -> (r: Surf)
        ensures
            r.config == (TokenConfig { prefix, ..self.config }),
    {
        Surf { config: TokenConfig { prefix, ..self.config } }
    }

    /// Overrides the cookie's `SameSite` attribute.
    pub fn same_site(self, same_site: SameSite) -> (r: Surf)
        ensures
            r.config == (TokenConfig { same_site, ..self.config }),
    {
        Surf { config: TokenConfig { same_site, ..self.config } }
    }

    /// Overrides whether the cookie is restricted to secure transports.
    pub fn secure(self, secure: bool) -> (r: Surf)
        ensures
            r.config == (TokenConfig { secure, ..self.config }),
    {
        Surf { config: TokenConfig { secure, ..self.config } }
    }
}

/// Runs before the guard on every request: a visitor that arrives without
/// a token cookie is given a fresh anonymous one, and a visitor that
/// already has one keeps it, with the whole jar left exactly as it was.
pub fn bootstrap(token: &mut Token) -> (r: Result<(), Error>)
    ensures
        r is Ok,
        final(token).config == old(token).config,
        old(token).spec_cookie() is Some ==> final(token).jar == old(token).jar,
        match final(token).spec_cookie() {
            Some(e) => old(token).spec_cookie() is None ==> {
                &&& entry_matches_config(e, old(token).config)
                &&& is_anonymous_token(e.value@, old(token).config.secret@)
                &&& spec_validate(old(token).config.secret@, e.value@, e.value@)
            },
            None => false,
        },
        forall|n: Seq<u8>|
            n != old(token).config.spec_cookie_name() ==> final(token).jar.spec_get(n) == old(
                token,
            ).jar.spec_get(n),
{
    let name = token.config.cookie_name();
    let missing = token.jar.get(name.as_slice()).is_none();
    if missing {
        token.create()
    } else {
        Ok(())
    }
}

} // verus!

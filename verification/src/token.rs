use vstd::prelude::*;

use crate::bytes::BANG;
use crate::bytes::DOT;
use crate::bytes::append_bytes;
use crate::bytes::ct_bytes_eq;
use crate::bytes::find_dot;
use crate::bytes::first_dot;
use crate::bytes::lemma_first_dot;
use crate::bytes::lemma_first_dot_unique;
use crate::bytes::lemma_split_of_joined;
use crate::bytes::no_dot;
use crate::bytes::split_msg;
use crate::bytes::split_sig;
use crate::bytes::subvec;
use crate::config::TokenConfig;
use crate::crypto::all_base64_bytes;
use crate::crypto::base64_encode;
use crate::crypto::base64_of;
use crate::crypto::lemma_base64_no_separators;
use crate::crypto::random_bytes_64;
use crate::crypto::random_i128;
use crate::crypto::sign_and_encode;
use crate::crypto::spec_signature;
use crate::decimal::decimal_of_i128;
use crate::decimal::spec_decimal_int;
use crate::error::Error;
use crate::jar::CookieEntry;
use crate::jar::CookieJar;

verus! {

/// The unsigned payload of a token: the identifier, a `!`, and the random
/// salt. The identifier may hold any bytes at all; only the signature in
/// front of the message must stay free of `.`, and it does, being base64.
pub open spec fn spec_message(identifier: Seq<u8>, salt: Seq<u8>) -> Seq<u8> {
    identifier + seq![BANG] + salt
}

/// The wire form of a token: the base64 signature of the message, a `.`,
/// and the message itself.
pub open spec fn spec_token(secret: Seq<u8>, message: Seq<u8>) -> Seq<u8> {
    spec_signature(secret, message) + seq![DOT] + message
}

/// The validation verdict for a request: the part of the header value
/// before its first `.` must be the signature of the part after it, and
/// the cookie must be byte-for-byte the header value. The first condition
/// proves the token was signed under `secret`; the second is the
/// double-submit rule, which rejects any valid token other than the very
/// one this visitor's cookie holds.
pub open spec fn spec_validate(secret: Seq<u8>, cookie: Seq<u8>, header: Seq<u8>) -> bool {
    &&& split_sig(header) == spec_signature(secret, split_msg(header))
    &&& cookie == header
}

/// Joins an identifier and a salt into the message that gets signed.
pub fn build_message(identifier: &[u8], salt: &[u8]) -> (r: Vec<u8>)
    ensures
        r@ == spec_message(identifier@, salt@),
{
    let mut m: Vec<u8> = Vec::new();
    append_bytes(&mut m, identifier);
    m.push(BANG);
    append_bytes(&mut m, salt);
    proof {
        assert(m@ =~= spec_message(identifier@, salt@));
    }
    m
}

/// Assembles the token for `identifier` salted with the given random
/// bytes, and proves the round trip: whatever the secret, the identifier
/// and the salt, the token it returns validates against itself.
pub fn assemble_token(secret: &[u8], identifier: &[u8], random: &[u8]) -> (r: Vec<u8>)
    ensures
        r@ == spec_token(secret@, spec_message(identifier@, base64_of(random@))),
        spec_validate(secret@, r@, r@),
{
    let salt = base64_encode(random);
    let message = build_message(identifier, salt.as_slice());
    let signature = sign_and_encode(secret, message.as_slice());
    let ghost sig_seq = signature@;
    let ghost msg_seq = message@;
    let mut token = signature;
    token.push(DOT);
    append_bytes(&mut token, message.as_slice());
    proof {
        assert(token@ =~= sig_seq + seq![DOT] + msg_seq);
        lemma_base64_no_separators(sig_seq);
        lemma_split_of_joined(sig_seq, msg_seq);
    }
    token
}

/// Creates a fresh token for `identifier`: 64 bytes are drawn from the
/// CSPRNG so that two tokens for the same identifier are unlinkable. The
/// result always validates against itself under the same secret.
pub fn create_token(secret: &[u8], identifier: &[u8]) -> (r: Vec<u8>)
    ensures
        exists|random: Seq<u8>|
            #![auto]
            random.len() == 64 && r@ == spec_token(
                secret@,
                spec_message(identifier@, base64_of(random)),
            ),
        spec_validate(secret@, r@, r@),
{
    let random = random_bytes_64();
    assemble_token(secret, identifier, random.as_slice())
}

/// Decides whether `token`, as echoed in the request header, is the token
/// signed under `secret` that the visitor's cookie holds. Splits at the
/// first `.` (a token whose message holds further dots splits correctly,
/// the signature being base64), recomputes the signature, and compares
/// both it and the cookie without early exit.
pub fn validate_token(secret: &[u8], cookie: &[u8], token: &[u8]) -> (r: bool)
    ensures
        r == spec_validate(secret@, cookie@, token@),
{
    let dot = find_dot(token);
    proof {
        lemma_first_dot(token@);
    }
    let received = subvec(token, 0, dot);
    let message = if dot < token.len() {
        subvec(token, dot + 1, token.len())
    } else {
        Vec::new()
    };
    proof {
        assert(received@ =~= split_sig(token@));
        assert(message@ =~= split_msg(token@));
    }
    let expected = sign_and_encode(secret, message.as_slice());
    let signature_ok = ct_bytes_eq(received.as_slice(), expected.as_slice());
    let double_submit_ok = ct_bytes_eq(cookie, token);
    signature_ok && double_submit_ok
}

/// The double-submit rule on its own: whenever the stored cookie and the
/// echoed header differ at all, validation fails, no matter how sound
/// either token's signature is on its own.
pub proof fn lemma_cross_session_rejected(secret: Seq<u8>, cookie: Seq<u8>, header: Seq<u8>)
    requires
        cookie != header,
    ensures
        !spec_validate(secret, cookie, header),
{
}

/// Changing any single byte of the signature portion of a self-validating
/// token makes validation fail, as long as the new byte is not the `.`
/// separator itself (a `.` planted inside the signature moves the split
/// point, and what is left is rejected exactly when no digest collision
/// occurs, which the model leaves uninterpreted).
pub proof fn lemma_tamper_detected(secret: Seq<u8>, t: Seq<u8>, i: int, b: u8)
    requires
        spec_validate(secret, t, t),
        0 <= i < first_dot(t),
        b != t[i],
        b != DOT,
    ensures
        !spec_validate(secret, t.update(i, b), t.update(i, b)),
{
    let k = first_dot(t);
    let t2 = t.update(i, b);
    lemma_first_dot(t);
    assert forall|j: int| 0 <= j < k implies t2[j] != DOT by {
        if j != i {
            assert(t2[j] == t[j]);
        }
    }
    lemma_first_dot_unique(t2, k);
    assert(split_msg(t2) =~= split_msg(t));
    assert(split_sig(t2)[i] == b);
    assert(split_sig(t)[i] == t[i]);
    assert(split_sig(t2) != split_sig(t));
}

/// Validation under `secret_b` of a token minted under `secret_a` succeeds
/// only when both secrets sign the token's message identically. The step
/// from "the secrets differ" to "the signatures differ" is the
/// key-sensitivity of the keyed digest, which this model leaves
/// uninterpreted, so it is taken here as a hypothesis.
pub proof fn lemma_wrong_secret_rejected(
    secret_a: Seq<u8>,
    secret_b: Seq<u8>,
    message: Seq<u8>,
    t: Seq<u8>,
)
    requires
        t == spec_token(secret_a, message),
        no_dot(spec_signature(secret_a, message)),
        spec_signature(secret_a, message) != spec_signature(secret_b, message),
    ensures
        !spec_validate(secret_b, t, t),
{
    lemma_split_of_joined(spec_signature(secret_a, message), message);
}

/// Holds when `e` carries the cookie name and attributes the configuration
/// asks for.
pub open spec fn entry_matches_config(e: CookieEntry, config: TokenConfig) -> bool {
    &&& e.name@ == config.spec_cookie_name()
    &&& e.path_root
    &&& e.expires == config.expires
    &&& e.http_only == config.http_only
    &&& e.same_site == config.same_site
    &&& e.secure == config.secure
}

/// Holds when `value` is a token for `identifier` under `secret`, salted
/// with some 64 random bytes.
pub open spec fn is_token_for(value: Seq<u8>, secret: Seq<u8>, identifier: Seq<u8>) -> bool {
    exists|random: Seq<u8>|
        #![auto]
        random.len() == 64 && value == spec_token(secret, spec_message(identifier, base64_of(random)))
}

/// Holds when `value` is a token under `secret` for an anonymous visitor:
/// the identifier is the decimal rendering of some 128-bit number.
pub open spec fn is_anonymous_token(value: Seq<u8>, secret: Seq<u8>) -> bool {
    exists|seed: i128| #![auto] is_token_for(value, secret, spec_decimal_int(seed as int))
}

/// The per-request handle on a visitor's token: the shared configuration
/// together with the request's cookie store. Created once per request and
/// discarded with it.
#[derive(Debug)]
pub struct Token {
    pub config: TokenConfig,
    pub jar: CookieJar,
}

impl Token {
    /// What this request's jar holds under the configured cookie name.
    pub open spec fn spec_cookie(&self) -> Option<CookieEntry> {
        self.jar.spec_get(self.config.spec_cookie_name())
    }

    /// Builds the cookie entry that stores `value` with the configured
    /// name and attributes.
    fn make_entry(&self, value: Vec<u8>) -> (e: CookieEntry)
        ensures
            e.value == value,
            entry_matches_config(e, self.config),
    {
        CookieEntry {
            name: self.config.cookie_name(),
            value,
            path_root: true,
            expires: self.config.expires,
            http_only: self.config.http_only,
            same_site: self.config.same_site,
            secure: self.config.secure,
        }
    }

    /// Stores `value` as the token cookie, fully replacing whatever was
    /// there; every other cookie is untouched.
    fn store(&mut self, value: Vec<u8>)
        ensures
            final(self).config == old(self).config,
            match final(self).spec_cookie() {
                Some(e) => e.value@ == value@ && entry_matches_config(e, old(self).config),
                None => false,
            },
            forall|n: Seq<u8>|
                n != old(self).config.spec_cookie_name() ==> final(self).jar.spec_get(n) == old(
                    self,
                ).jar.spec_get(n),
    {
        let entry = self.make_entry(value);
        let ghost e = entry;
        self.jar.add(entry);
        proof {
            assert(self.jar.spec_get(e.name@) == Some(e));
        }
    }

    /// Mints a token for a fresh random 128-bit identifier and stores it
    /// as the cookie. For visitors that have no session yet: the random
    /// identifier keeps their tokens unlinkable. The stored value always
    /// validates against itself under the configured secret.
    pub fn create(&mut self) -> (r: Result<(), Error>)
        ensures
            r is Ok,
            final(self).config == old(self).config,
            match final(self).spec_cookie() {
                Some(e) => {
                    &&& entry_matches_config(e, old(self).config)
                    &&& is_anonymous_token(e.value@, old(self).config.secret@)
                    &&& spec_validate(old(self).config.secret@, e.value@, e.value@)
                },
                None => false,
            },
            forall|n: Seq<u8>|
                n != old(self).config.spec_cookie_name() ==> final(self).jar.spec_get(n) == old(
                    self,
                ).jar.spec_get(n),
    {
        let seed = random_i128();
        let identifier = decimal_of_i128(seed);
        let value = create_token(self.config.secret.as_slice(), identifier.as_slice());
        self.store(value);
        Ok(())
    }

    /// Binds the token to a caller-supplied identifier, typically the
    /// session id at login, and stores it as the cookie. The stored value
    /// always validates against itself under the configured secret.
    pub fn set(&mut self, identifier: &[u8]) -> (r: Result<(), Error>)
        ensures
            r is Ok,
            final(self).config == old(self).config,
            match final(self).spec_cookie() {
                Some(e) => {
                    &&& entry_matches_config(e, old(self).config)
                    &&& is_token_for(e.value@, old(self).config.secret@, identifier@)
                    &&& spec_validate(old(self).config.secret@, e.value@, e.value@)
                },
                None => false,
            },
            forall|n: Seq<u8>|
                n != old(self).config.spec_cookie_name() ==> final(self).jar.spec_get(n) == old(
                    self,
                ).jar.spec_get(n),
    {
        let value = create_token(self.config.secret.as_slice(), identifier);
        self.store(value);
        Ok(())
    }

    /// Reads the current token cookie's raw value.
    pub fn get(&self) -> (r: Result<Vec<u8>, Error>)
        ensures
            match self.spec_cookie() {
                Some(e) => r matches Ok(v) && v@ == e.value@,
                None => r matches Err(err) && err == Error::NoCookie,
            },
    {
        let name = self.config.cookie_name();
        match self.jar.get(name.as_slice()) {
            Some(e) => Ok(subvec(e.value.as_slice(), 0, e.value.len())),
            None => Err(Error::NoCookie),
        }
    }

    /// Removes the token cookie entirely, so that the next request through
    /// bootstrap receives a fresh anonymous token. Every other cookie is
    /// untouched.
    pub fn reset(&mut self)
        ensures
            final(self).config == old(self).config,
            final(self).spec_cookie() is None,
            forall|n: Seq<u8>|
                n != old(self).config.spec_cookie_name() ==> final(self).jar.spec_get(n) == old(
                    self,
                ).jar.spec_get(n),
    {
        let name = self.config.cookie_name();
        self.jar.remove(name.as_slice());
    }
}

} // verus!

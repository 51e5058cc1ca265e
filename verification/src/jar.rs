use vstd::prelude::*;

use crate::bytes::ct_bytes_eq;
use crate::config::Expiry;
use crate::config::SameSite;

verus! {

/// One cookie as this crate sets it: a name, a value, and the attributes
/// the configuration asks for.
#[derive(Debug)]
pub struct CookieEntry {
    pub name: Vec<u8>,
    pub value: Vec<u8>,
    /// Token cookies are always scoped to `Path=/`.
    pub path_root: bool,
    pub expires: Expiry,
    pub http_only: bool,
    pub same_site: SameSite,
    pub secure: bool,
}

/// The entry a name resolves to in a sequence of cookies: the latest entry
/// carrying that name wins, so adding is a plain append.
pub open spec fn spec_lookup(entries: Seq<CookieEntry>, name: Seq<u8>) -> Option<CookieEntry>
    decreases entries.len(),
{
    if entries.len() == 0 {
        None
    } else if entries.last().name@ == name {
        Some(entries.last())
    } else {
        spec_lookup(entries.drop_last(), name)
    }
}

/// `entries` with every cookie named `name` left out, order kept.
pub open spec fn spec_without(entries: Seq<CookieEntry>, name: Seq<u8>) -> Seq<CookieEntry>
    decreases entries.len(),
{
    if entries.len() == 0 {
        Seq::empty()
    } else if entries.last().name@ == name {
        spec_without(entries.drop_last(), name)
    } else {
        spec_without(entries.drop_last(), name).push(entries.last())
    }
}

/// Dropping every cookie of one name leaves that name unresolvable and
/// every other name resolving as before.
pub proof fn lemma_without_lookup(entries: Seq<CookieEntry>, name: Seq<u8>, n: Seq<u8>)
    ensures
        n == name ==> spec_lookup(spec_without(entries, name), n) is None,
        n != name ==> spec_lookup(spec_without(entries, name), n) == spec_lookup(entries, n),
    decreases entries.len(),
{
    if entries.len() == 0 {
    } else {
        lemma_without_lookup(entries.drop_last(), name, n);
        if entries.last().name@ != name {
            assert(spec_without(entries, name).last() == entries.last());
            assert(spec_without(entries, name).drop_last() =~= spec_without(
                entries.drop_last(),
                name,
            ));
        }
    }
}

/// The request-scoped cookie store the token handle works against. It
/// mirrors what the surrounding service will put on the response: whatever
/// is added here replaces any same-named cookie, and whatever is removed
/// is gone for good.
#[derive(Debug)]
pub struct CookieJar {
    entries: Vec<CookieEntry>,
}

impl CookieJar {
    /// What `name` currently resolves to in this jar.
    pub closed spec fn spec_get(&self, name: Seq<u8>) -> Option<CookieEntry> {
        spec_lookup(self.entries@, name)
    }

    /// An empty jar, in which no name resolves.
    pub fn new() -> (r: CookieJar)
        ensures
            forall|n: Seq<u8>| r.spec_get(n) is None,
    {
        let r = CookieJar { entries: Vec::new() };
        proof {
            assert(forall|n: Seq<u8>| r.spec_get(n) is None);
        }
        r
    }

    /// Stores `entry`, fully replacing any cookie of the same name and
    /// leaving every other name untouched.
    pub fn add(&mut self, entry: CookieEntry)
        ensures
            final(self).spec_get(entry.name@) == Some(entry),
            forall|n: Seq<u8>|
                n != entry.name@ ==> final(self).spec_get(n) == old(self).spec_get(n),
    {
        let ghost name = entry.name@;
        self.entries.push(entry);
        proof {
            assert(self.entries@.drop_last() =~= old(self).entries@);
        }
    }

    /// Looks the cookie named `name` up.
    pub fn get(&self, name: &[u8]) -> (r: Option<&CookieEntry>)
        ensures
            match r {
                Some(e) => self.spec_get(name@) == Some(*e),
                None => self.spec_get(name@) is None,
            },
    {
        let mut i: usize = self.entries.len();
        proof {
            assert(self.entries@.take(i as int) =~= self.entries@);
        }
        while i > 0
            invariant
                i <= self.entries@.len(),
                spec_lookup(self.entries@, name@) == spec_lookup(
                    self.entries@.take(i as int),
                    name@,
                ),
            decreases i,
        {
            i -= 1;
            proof {
                assert(self.entries@.take(i + 1).last() == self.entries@[i as int]);
                assert(self.entries@.take(i + 1).drop_last() =~= self.entries@.take(i as int));
            }
            if ct_bytes_eq(self.entries[i].name.as_slice(), name) {
                return Some(&self.entries[i]);
            }
        }
        None
    }

    /// Removes every cookie named `name`; every other name resolves as
    /// before.
    pub fn remove(&mut self, name: &[u8])
        ensures
            final(self).spec_get(name@) is None,
            forall|n: Seq<u8>| n != name@ ==> final(self).spec_get(n) == old(self).spec_get(n),
    {
        let ghost orig = self.entries@;
        let mut drained: Vec<CookieEntry> = Vec::new();
        core::mem::swap(&mut self.entries, &mut drained);
        let ghost mut k: int = 0;
        proof {
            assert(orig.skip(0) =~= orig);
            assert(orig.take(0) =~= Seq::<CookieEntry>::empty());
        }
        while drained.len() > 0
            invariant
                0 <= k <= orig.len(),
                drained@ == orig.skip(k),
                self.entries@ == spec_without(orig.take(k), name@),
            decreases drained@.len(),
        {
            let e = drained.remove(0);
            proof {
                assert(orig.skip(k)[0] == orig[k]);
                assert(drained@ =~= orig.skip(k + 1));
                assert(orig.take(k + 1).drop_last() =~= orig.take(k));
                assert(orig.take(k + 1).last() == orig[k]);
            }
            if !ct_bytes_eq(e.name.as_slice(), name) {
                self.entries.push(e);
            }
            proof {
                k = k + 1;
            }
        }
        proof {
            assert(k == orig.len()) by {
                assert(orig.skip(k).len() == orig.len() - k);
            }
            assert(orig.take(orig.len() as int) =~= orig);
            assert(self.entries@ == spec_without(orig, name@));
            lemma_without_lookup(orig, name@, name@);
            assert forall|n: Seq<u8>| n != name@ implies spec_lookup(self.entries@, n)
                == spec_lookup(orig, n) by {
                lemma_without_lookup(orig, name@, n);
            }
        }
    }
}

} // verus!

use vstd::prelude::*;

verus! {

/// ASCII code of `.`, the separator between signature and message.
pub const DOT: u8 = 46;

/// ASCII code of `!`, the separator between identifier and random salt.
pub const BANG: u8 = 33;

/// Holds when no byte of `s` is the `.` separator.
pub open spec fn no_dot(s: Seq<u8>) -> bool {
    forall|i: int| 0 <= i < s.len() ==> s[i] != DOT
}

/// Index of the first `.` in `s`, or `s.len()` when there is none.
pub open spec fn first_dot(s: Seq<u8>) -> int
    decreases s.len(),
{
    if s.len() == 0 {
        0
    } else if s[0] == DOT {
        0
    } else {
        1 + first_dot(s.skip(1))
    }
}

/// The first `.` really is the first: everything before it is another byte,
/// and it is a `.` unless the whole of `s` is free of them.
pub proof fn lemma_first_dot(s: Seq<u8>)
    ensures
        0 <= first_dot(s) <= s.len(),
        forall|i: int| 0 <= i < first_dot(s) ==> s[i] != DOT,
        first_dot(s) < s.len() ==> s[first_dot(s)] == DOT,
    decreases s.len(),
{
    if s.len() == 0 {
    } else if s[0] == DOT {
    } else {
        lemma_first_dot(s.skip(1));
        assert forall|i: int| 0 <= i < first_dot(s) implies s[i] != DOT by {
            if i > 0 {
                assert(s.skip(1)[i - 1] != DOT);
            }
        }
        if first_dot(s) < s.len() {
            assert(s.skip(1)[first_dot(s.skip(1))] == s[first_dot(s)]);
        }
    }
}

/// Any position that has a `.` after a dot-free prefix is the first dot.
pub proof fn lemma_first_dot_unique(s: Seq<u8>, k: int)
    requires
        0 <= k <= s.len(),
        forall|i: int| 0 <= i < k ==> s[i] != DOT,
        k == s.len() || s[k] == DOT,
    ensures
        first_dot(s) == k,
{
    lemma_first_dot(s);
    if first_dot(s) < k {
        assert(s[first_dot(s)] == DOT);
    }
    if first_dot(s) > k {
        assert(k < s.len());
        assert(s[k] != DOT);
    }
}

/// Signature portion of a token: the bytes before the first `.`, or the
/// whole token when there is no `.` at all.
pub open spec fn split_sig(t: Seq<u8>) -> Seq<u8> {
    t.take(first_dot(t))
}

/// Message portion of a token: the bytes after the first `.`, or empty when
/// there is no `.` at all.
pub open spec fn split_msg(t: Seq<u8>) -> Seq<u8> {
    if first_dot(t) < t.len() {
        t.skip(first_dot(t) + 1)
    } else {
        Seq::empty()
    }
}

/// Splitting `sig ++ "." ++ msg` at the first `.` recovers `sig` and `msg`,
/// provided the signature itself is free of `.` bytes; the message may
/// contain further dots without disturbing the split.
pub proof fn lemma_split_of_joined(sig: Seq<u8>, msg: Seq<u8>)
    requires
        no_dot(sig),
    ensures
        first_dot(sig + seq![DOT] + msg) == sig.len(),
        split_sig(sig + seq![DOT] + msg) == sig,
        split_msg(sig + seq![DOT] + msg) == msg,
{
    let t = sig + seq![DOT] + msg;
    assert(forall|i: int| 0 <= i < sig.len() ==> t[i] == sig[i]);
    assert(t[sig.len() as int] == DOT);
    lemma_first_dot_unique(t, sig.len() as int);
    assert(split_sig(t) =~= sig);
    assert(split_msg(t) =~= msg);
}

/// Finds the index of the first `.` in `t`, or `t.len()` when none occurs.
pub fn find_dot(t: &[u8]) -> (r: usize)
    ensures
        r == first_dot(t@),
{
    let n = t.len();
    let mut i: usize = 0;
    while i < n
        invariant
            0 <= i <= n,
            n == t@.len(),
            forall|j: int| 0 <= j < i ==> t@[j] != DOT,
        decreases n - i,
    {
        if t[i] == DOT {
            proof {
                lemma_first_dot_unique(t@, i as int);
            }
            return i;
        }
        i += 1;
    }
    proof {
        lemma_first_dot_unique(t@, n as int);
    }
    n
}

/// Copies the bytes of `t` between `a` (inclusive) and `b` (exclusive).
pub fn subvec(t: &[u8], a: usize, b: usize) -> (r: Vec<u8>)
    requires
        a <= b <= t@.len(),
    ensures
        r@ == t@.subrange(a as int, b as int),
{
    let mut r: Vec<u8> = Vec::new();
    let mut i: usize = a;
    while i < b
        invariant
            a <= i <= b <= t@.len(),
            r@ == t@.subrange(a as int, i as int),
        decreases b - i,
    {
        r.push(t[i]);
        proof {
            assert(r@ =~= t@.subrange(a as int, i + 1 as int));
        }
        i += 1;
    }
    r
}

/// Appends the bytes of `src` to `dst`.
pub fn append_bytes(dst: &mut Vec<u8>, src: &[u8])
    ensures
        final(dst)@ == old(dst)@ + src@,
{
    let n = src.len();
    let mut i: usize = 0;
    while i < n
        invariant
            0 <= i <= n,
            n == src@.len(),
            dst@ == old(dst)@ + src@.take(i as int),
        decreases n - i,
    {
        dst.push(src[i]);
        proof {
            assert(dst@ =~= old(dst)@ + src@.take(i + 1 as int));
        }
        i += 1;
    }
    proof {
        assert(dst@ =~= old(dst)@ + src@);
    }
}

/// Compares two byte strings without an early exit on the first differing
/// byte, so that the comparison's timing does not depend on how long a
/// common prefix the two share. Only the lengths, which are no secret,
/// decide how much work is done.
pub fn ct_bytes_eq(a: &[u8], b: &[u8]) -> (r: bool)
    ensures
        r == (a@ == b@),
{
    let n = a.len();
    if n != b.len() {
        proof {
            assert(a@ != b@);
        }
        return false;
    }
    let mut diff: u8 = 0;
    let mut i: usize = 0;
    while i < n
        invariant
            0 <= i <= n,
            n == a@.len() == b@.len(),
            (diff == 0) <==> (forall|j: int| 0 <= j < i ==> a@[j] == b@[j]),
        decreases n - i,
    {
        let x = a[i];
        let y = b[i];
        let ghost d0 = diff;
        diff = diff | (x ^ y);
        proof {
            assert((d0 | (x ^ y) == 0) <==> (d0 == 0 && x == y)) by (bit_vector);
        }
        i += 1;
    }
    proof {
        if diff == 0 {
            assert(a@ =~= b@);
        }
    }
    diff == 0
}

} // verus!

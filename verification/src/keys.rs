//! Redis key prefixes, the label of the cache metrics.

use vstd::prelude::*;

verus! {

broadcast use vstd::string::group_string_axioms;

/// `p` is the first colon-delimited segment of `key`: a colon-free start of the
/// key that ends where the key ends or at a colon.
pub open spec fn is_key_prefix(p: Seq<char>, key: Seq<char>) -> bool {
    &&& p.len() <= key.len()
    &&& p == key.take(p.len() as int)
    &&& !p.contains(':')
    &&& p.len() < key.len() ==> key[p.len() as int] == ':'
}

/// The prefix of a Redis key: the part before its first `:`, or the whole key
/// when it holds no `:`.
pub fn key_prefix(key: &str) -> (prefix: &str)
    ensures
        is_key_prefix(prefix@, key@),
{
    let len = key.unicode_len();
    let mut n: usize = 0;
    let mut found = false;
    for c in it: key.chars()
        invariant
            len == key@.len(),
            it.seq() == key@,
            n <= it.index(),
            it.index() <= len,
            forall|j: int| 0 <= j < n ==> key@[j] != ':',
            !found ==> n == it.index(),
            found ==> n < len && key@[n as int] == ':',
    {
        if !found {
            if c == ':' {
                found = true;
            } else {
                n = n + 1;
            }
        }
    }
    let prefix = key.substring_char(0, n);
    assert(prefix@ =~= key@.take(n as int));
    assert(!prefix@.contains(':')) by {
        assert forall|j: int| 0 <= j < prefix@.len() implies prefix@[j] != ':' by {
            assert(prefix@[j] == key@[j]);
        }
    }
    prefix
}

/// A key has exactly one prefix, so the contract of `key_prefix` determines its
/// result.
pub proof fn law_key_prefix_unique(p: Seq<char>, q: Seq<char>, key: Seq<char>)
    requires
        is_key_prefix(p, key),
        is_key_prefix(q, key),
    ensures
        p == q,
{
    if p.len() < q.len() {
        assert(q[p.len() as int] == key[p.len() as int]);
    } else if q.len() < p.len() {
        assert(p[q.len() as int] == key[q.len() as int]);
    }
    assert(p =~= q);
}

/// The prefix of a prefix is the prefix itself: `key_prefix(key_prefix(k)) ==
/// key_prefix(k)`.
pub proof fn law_key_prefix_idempotent(p: Seq<char>, key: Seq<char>)
    requires
        is_key_prefix(p, key),
    ensures
        is_key_prefix(p, p),
{
    assert(p.take(p.len() as int) =~= p);
}

/// The prefix of `segment:rest`, where the segment holds no colon, is the segment.
pub proof fn law_key_prefix_of_segmented_key(segment: Seq<char>, rest: Seq<char>)
    requires
        !segment.contains(':'),
    ensures
        is_key_prefix(segment, segment + seq![':'] + rest),
{
    let key = segment + seq![':'] + rest;
    assert(key.take(segment.len() as int) =~= segment);
    assert(key[segment.len() as int] == ':');
}

/// A key without a colon is its own prefix.
pub proof fn law_key_without_colon(key: Seq<char>)
    requires
        !key.contains(':'),
    ensures
        is_key_prefix(key, key),
{
    assert(key.take(key.len() as int) =~= key);
}

} // verus!

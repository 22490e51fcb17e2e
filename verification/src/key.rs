//! Canonical addressing: a broadcast target is either an unordered pair of
//! peers or a named group, and each target maps to exactly one string key.
//! Pairwise keys are order-independent, and the pairwise and group key
//! spaces never collide.

use vstd::prelude::*;
use vstd::string::StrSliceExecFns;
use vstd::string::StringExecFns;

verus! {

/// The addressed destination of a broadcast: a symmetric pair of peers,
/// or a named group.
#[derive(Clone, Copy)]
pub enum BroadcastType<'a> {
    PointToPoint(&'a str, &'a str),
    PointToGroup(&'a str),
}

/// Lexicographic order on character sequences, by code point.
pub open spec fn seq_char_le(a: Seq<char>, b: Seq<char>) -> bool
    decreases a.len(),
{
    if a.len() == 0 {
        true
    } else if b.len() == 0 {
        false
    } else if a[0] != b[0] {
        a[0] < b[0]
    } else {
        seq_char_le(a.skip(1), b.skip(1))
    }
}

/// Namespace prefix of every pairwise key.
pub open spec fn pairwise_prefix() -> Seq<char> {
    "point-to-point"@
}

/// Namespace prefix of every group key.
pub open spec fn group_prefix() -> Seq<char> {
    "point-to-group"@
}

/// The canonical key of a target: the two identifiers of a pair are laid
/// out in ascending order behind the pairwise prefix, a group identifier
/// behind the group prefix, each part separated by a dash.
pub open spec fn spec_key(t: BroadcastType) -> Seq<char> {
    match t {
        BroadcastType::PointToPoint(key1, key2) => {
            if seq_char_le(key1@, key2@) {
                pairwise_prefix() + "-"@ + key1@ + "-"@ + key2@
            } else {
                pairwise_prefix() + "-"@ + key2@ + "-"@ + key1@
            }
        },
        BroadcastType::PointToGroup(key) => group_prefix() + "-"@ + key@,
    }
}

/// Decides the lexicographic order of two identifier strings.
pub fn str_le(a: &str, b: &str) -> (r: bool)
    ensures
        r == seq_char_le(a@, b@),
{
    let a_len = a.unicode_len();
    let b_len = b.unicode_len();
    let mut i: usize = 0;
    proof {
        assert(a@.skip(0) =~= a@);
        assert(b@.skip(0) =~= b@);
    }
    loop
        invariant
            i <= a_len,
            i <= b_len,
            a_len == a@.len(),
            b_len == b@.len(),
            seq_char_le(a@, b@) == seq_char_le(a@.skip(i as int), b@.skip(i as int)),
        decreases a_len - i,
    {
        if i == a_len {
            return true;
        }
        if i == b_len {
            return false;
        }
        let ca = a.get_char(i);
        let cb = b.get_char(i);
        if ca != cb {
            return ca < cb;
        }
        proof {
            assert(a@.skip(i as int).skip(1) =~= a@.skip(i + 1));
            assert(b@.skip(i as int).skip(1) =~= b@.skip(i + 1));
        }
        i = i + 1;
    }
}

/// The order decided by `seq_char_le` is total: of any two sequences at
/// least one precedes the other.
pub proof fn lemma_seq_char_le_total(a: Seq<char>, b: Seq<char>)
    ensures
        seq_char_le(a, b) || seq_char_le(b, a),
    decreases a.len(),
{
    if a.len() == 0 || b.len() == 0 {
    } else if a[0] != b[0] {
    } else {
        lemma_seq_char_le_total(a.skip(1), b.skip(1));
    }
}

/// The order decided by `seq_char_le` is antisymmetric: two sequences that
/// each precede the other are equal.
pub proof fn lemma_seq_char_le_antisymmetric(a: Seq<char>, b: Seq<char>)
    requires
        seq_char_le(a, b),
        seq_char_le(b, a),
    ensures
        a == b,
    decreases a.len(),
{
    if a.len() == 0 {
        assert(b.len() == 0);
        assert(a =~= b);
    } else {
        assert(b.len() > 0);
        assert(a[0] == b[0]);
        lemma_seq_char_le_antisymmetric(a.skip(1), b.skip(1));
        assert forall|i: int| 0 <= i < a.len() implies a[i] == b[i] by {
            if i >= 1 {
                assert(a[i] == a.skip(1)[i - 1]);
                assert(b[i] == b.skip(1)[i - 1]);
            }
        };
        assert(a =~= b);
    }
}

impl<'a> BroadcastType<'a> {
    /// Canonical key of a target. Pure and total: the result depends on the
    /// target's identifiers alone.
    pub fn get_key(broadcast_type: BroadcastType) -> (r: String)
        ensures
            r@ == spec_key(broadcast_type),
    {
        match broadcast_type {
            BroadcastType::PointToPoint(key1, key2) => {
                let (first_key, second_key) = if str_le(key1, key2) {
                    (key1, key2)
                } else {
                    (key2, key1)
                };
                let mut key = String::from_str("point-to-point");
                key.append("-");
                key.append(first_key);
                key.append("-");
                key.append(second_key);
                key
            },
            BroadcastType::PointToGroup(group) => {
                let mut key = String::from_str("point-to-group");
                key.append("-");
                key.append(group);
                key
            },
        }
    }
}

/// The canonical key of a pairwise target does not depend on the order in
/// which its two identifiers are given.
pub proof fn lemma_pairwise_key_symmetric(a: &str, b: &str)
    ensures
        spec_key(BroadcastType::PointToPoint(a, b)) == spec_key(BroadcastType::PointToPoint(b, a)),
{
    lemma_seq_char_le_total(a@, b@);
    if seq_char_le(a@, b@) && seq_char_le(b@, a@) {
        lemma_seq_char_le_antisymmetric(a@, b@);
    }
}

/// The pairwise and group key spaces are disjoint: no pairwise target and
/// group target share a canonical key, whatever their identifiers hold.
pub proof fn lemma_key_spaces_disjoint(a: &str, b: &str, g: &str)
    ensures
        spec_key(BroadcastType::PointToPoint(a, b)) != spec_key(BroadcastType::PointToGroup(g)),
{
    reveal_strlit("point-to-point");
    reveal_strlit("point-to-group");
    let pk = spec_key(BroadcastType::PointToPoint(a, b));
    let gk = spec_key(BroadcastType::PointToGroup(g));
    assert(pk[9] == 'p');
    assert(gk[9] == 'g');
}

/// Canonicalization is deterministic: any two results of deriving the key
/// of one and the same target are identical.
pub proof fn lemma_canonicalize_deterministic(t: BroadcastType, r1: Seq<char>, r2: Seq<char>)
    requires
        r1 == spec_key(t),
        r2 == spec_key(t),
    ensures
        r1 == r2,
{
}

} // verus!

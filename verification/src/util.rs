use vstd::prelude::*;
use vstd::utf8::{
    decode_utf8, encode_utf8, encode_utf8_decode_utf8, is_ascii_chars, is_ascii_chars_encode_utf8,
};

verus! {

/// `a` comes strictly after `b` in the lexicographic order of byte strings:
/// at the first position where the two differ `a` holds the larger byte, or
/// `b` is a proper prefix of `a`.
pub open spec fn bytes_after(a: Seq<u8>, b: Seq<u8>) -> bool {
    exists|k: int|
        0 <= k <= b.len() && k <= a.len() && same_prefix(a, b, k) && #[trigger] wins_at(a, b, k)
}

/// The first `k` bytes of `a` and `b` are the same.
pub open spec fn same_prefix(a: Seq<u8>, b: Seq<u8>, k: int) -> bool {
    forall|j: int| 0 <= j < k ==> a[j] == b[j]
}

/// Position `k` decides the comparison in favour of `a`: `b` ends there and
/// `a` goes on, or both go on and `a` holds the larger byte.
pub open spec fn wins_at(a: Seq<u8>, b: Seq<u8>, k: int) -> bool {
    k < a.len() && (k == b.len() || a[k] > b[k])
}

/// The order of strings: that of their UTF-8 encodings, byte by byte.
pub open spec fn text_after(a: Seq<char>, b: Seq<char>) -> bool {
    bytes_after(encode_utf8(a), encode_utf8(b))
}

/// The topic of the direct-message channel between two peers: the larger
/// identity, an underscore, the smaller identity.
pub open spec fn dm_key(peer_id: Seq<char>, own_peer_id: Seq<char>) -> Seq<char> {
    if text_after(peer_id, own_peer_id) {
        peer_id + seq!['_'] + own_peer_id
    } else {
        own_peer_id + seq!['_'] + peer_id
    }
}

/// Of two byte strings at most one comes after the other.
pub proof fn lemma_bytes_after_asymmetric(a: Seq<u8>, b: Seq<u8>)
    ensures
        !(bytes_after(a, b) && bytes_after(b, a)),
{
    if bytes_after(a, b) && bytes_after(b, a) {
        let k = choose|k: int|
            0 <= k <= b.len() && k <= a.len() && same_prefix(a, b, k) && #[trigger] wins_at(
                a,
                b,
                k,
            );
        let m = choose|m: int|
            0 <= m <= a.len() && m <= b.len() && same_prefix(b, a, m) && #[trigger] wins_at(
                b,
                a,
                m,
            );
        if k < m {
            assert(b[k] == a[k]);
        } else if m < k {
            assert(a[m] == b[m]);
        }
    }
}

/// Two byte strings of which neither comes after the other are equal.
pub proof fn lemma_bytes_after_total(a: Seq<u8>, b: Seq<u8>)
    requires
        !bytes_after(a, b),
        !bytes_after(b, a),
    ensures
        a == b,
{
    lemma_agree_up_to(a, b, if a.len() <= b.len() { a.len() as int } else { b.len() as int });
    let n = if a.len() <= b.len() { a.len() as int } else { b.len() as int };
    if a.len() > n {
        assert(wins_at(a, b, n));
    }
    if b.len() > n {
        assert(wins_at(b, a, n));
    }
}

proof fn lemma_agree_up_to(a: Seq<u8>, b: Seq<u8>, k: int)
    requires
        !bytes_after(a, b),
        !bytes_after(b, a),
        0 <= k <= a.len(),
        k <= b.len(),
    ensures
        same_prefix(a, b, k),
        same_prefix(b, a, k),
    decreases k,
{
    if k > 0 {
        lemma_agree_up_to(a, b, k - 1);
        if a[k - 1] > b[k - 1] {
            assert(wins_at(a, b, k - 1));
        } else if b[k - 1] > a[k - 1] {
            assert(wins_at(b, a, k - 1));
        }
    }
}

/// The topic of a direct-message channel does not depend on which of the two
/// peers computes it.
pub proof fn lemma_dm_key_symmetric(a: Seq<char>, b: Seq<char>)
    ensures
        dm_key(a, b) == dm_key(b, a),
{
    lemma_bytes_after_asymmetric(encode_utf8(a), encode_utf8(b));
    if !text_after(a, b) && !text_after(b, a) {
        lemma_bytes_after_total(encode_utf8(a), encode_utf8(b));
        encode_utf8_decode_utf8(a);
        encode_utf8_decode_utf8(b);
    }
}

/// `a` comes strictly after `b` in the lexicographic order of texts by
/// their characters.
pub open spec fn chars_after(a: Seq<char>, b: Seq<char>) -> bool {
    exists|k: int|
        0 <= k <= b.len() && k <= a.len() && a.subrange(0, k) == b.subrange(0, k)
            && #[trigger] char_wins_at(a, b, k)
}

/// Position `k` decides the comparison in favour of `a`: `b` ends there and
/// `a` goes on, or both go on and `a` holds the larger character.
pub open spec fn char_wins_at(a: Seq<char>, b: Seq<char>, k: int) -> bool {
    k < a.len() && (k == b.len() || a[k] > b[k])
}

/// For texts of ASCII characters, as the identities of peers are, the order
/// of texts is the lexicographic order by characters.
pub proof fn lemma_ascii_order(a: Seq<char>, b: Seq<char>)
    requires
        is_ascii_chars(a),
        is_ascii_chars(b),
    ensures
        text_after(a, b) == chars_after(a, b),
{
    is_ascii_chars_encode_utf8(a);
    is_ascii_chars_encode_utf8(b);
    let x = encode_utf8(a);
    let y = encode_utf8(b);
    if bytes_after(x, y) {
        let k = choose|k: int|
            0 <= k <= y.len() && k <= x.len() && same_prefix(x, y, k) && #[trigger] wins_at(
                x,
                y,
                k,
            );
        assert forall|j: int| 0 <= j < k implies a[j] == b[j] by {
            assert(x[j] == y[j]);
        }
        assert(a.subrange(0, k) =~= b.subrange(0, k));
        if k < y.len() {
            assert(a[k] as u8 == x[k]);
            assert(b[k] as u8 == y[k]);
        }
        assert(char_wins_at(a, b, k));
    }
    if chars_after(a, b) {
        let k = choose|k: int|
            0 <= k <= b.len() && k <= a.len() && a.subrange(0, k) == b.subrange(0, k)
                && #[trigger] char_wins_at(a, b, k);
        assert forall|j: int| 0 <= j < k implies x[j] == y[j] by {
            assert(a.subrange(0, k)[j] == b.subrange(0, k)[j]);
        }
        if k < b.len() {
            assert(a[k] as u8 == x[k]);
            assert(b[k] as u8 == y[k]);
        }
        assert(wins_at(x, y, k));
    }
}

/// Whether `a` comes after `b` in the order of byte strings.
pub fn bytes_gt(a: &[u8], b: &[u8]) -> (r: bool)
    ensures
        r == bytes_after(a@, b@),
{
    let mut i: usize = 0;
    while i < a.len() && i < b.len()
        invariant
            i <= a.len(),
            i <= b.len(),
            same_prefix(a@, b@, i as int),
        decreases a.len() - i,
    {
        if a[i] != b[i] {
            let r = a[i] > b[i];
            proof {
                if r {
                    assert(wins_at(a@, b@, i as int));
                } else {
                    assert forall|k: int|
                        0 <= k <= b@.len() && k <= a@.len() && same_prefix(a@, b@, k) implies !wins_at(
                        a@,
                        b@,
                        k,
                    ) by {
                        if k > i {
                            assert(a@[i as int] == b@[i as int]);
                        }
                    }
                }
            }
            return r;
        }
        i += 1;
    }
    let r = a.len() > b.len();
    proof {
        if r {
            assert(wins_at(a@, b@, i as int));
        } else {
            assert forall|k: int|
                0 <= k <= b@.len() && k <= a@.len() && same_prefix(a@, b@, k) implies !wins_at(
                a@,
                b@,
                k,
            ) by {}
        }
    }
    r
}

/// Whether two strings hold the same characters.
pub fn text_eq(a: &str, b: &str) -> (r: bool)
    ensures
        r == (a@ == b@),
{
    let x = a.as_bytes();
    let y = b.as_bytes();
    proof {
        encode_utf8_decode_utf8(a@);
        encode_utf8_decode_utf8(b@);
    }
    if x.len() != y.len() {
        return false;
    }
    let mut i: usize = 0;
    while i < x.len()
        invariant
            i <= x@.len(),
            x@.len() == y@.len(),
            x@ == encode_utf8(a@),
            y@ == encode_utf8(b@),
            same_prefix(x@, y@, i as int),
        decreases x@.len() - i,
    {
        if x[i] != y[i] {
            return false;
        }
        i += 1;
    }
    assert(x@ =~= y@);
    true
}

/// Whether the string `a` comes after the string `b`.
pub fn text_gt(a: &str, b: &str) -> (r: bool)
    ensures
        r == text_after(a@, b@),
{
    bytes_gt(a.as_bytes(), b.as_bytes())
}

/// Given the identities of the two peers of a direct-message channel, gives
/// the topic that names the channel: the same for both peers.
pub fn format_dm_key(peer_id: String, own_peer_id: String) -> (key: String)
    ensures
        key@ == dm_key(peer_id@, own_peer_id@),
        key@ == dm_key(own_peer_id@, peer_id@),
{
    proof {
        lemma_dm_key_symmetric(peer_id@, own_peer_id@);
        reveal_strlit("_");
    }
    if text_gt(peer_id.as_str(), own_peer_id.as_str()) {
        let mut key = peer_id;
        key.append("_");
        key.append(own_peer_id.as_str());
        key
    } else {
        let mut key = own_peer_id;
        key.append("_");
        key.append(peer_id.as_str());
        key
    }
}

} // verus!

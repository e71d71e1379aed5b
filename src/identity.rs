//! Content addresses of blobs: the hex-encoded SHA-256 of path then content.

use vstd::prelude::*;
use vstd::utf8::encode_utf8;

verus! {

/// The SHA-256 digest of `data`.
pub uninterp spec fn sha256_of(data: Seq<u8>) -> Seq<u8>;

/// Relies on `ring::digest::digest` with `SHA256`: the digest of the bytes,
/// 32 bytes long.
#[verifier::external_body]
fn sha256(data: &[u8]) -> (r: Vec<u8>)
    ensures
        r@ == sha256_of(data@),
        r@.len() == 32,
{
    ring::digest::digest(&ring::digest::SHA256, data).as_ref().to_vec()
}

pub open spec fn hex_digit(d: int) -> char {
    if d < 10 {
        (('0' as int) + d) as char
    } else {
        (('a' as int) + d - 10) as char
    }
}

/// Lower-case hex, two digits per byte, high half first.
pub open spec fn hex_of(b: Seq<u8>) -> Seq<char>
    decreases b.len(),
{
    if b.len() == 0 {
        seq![]
    } else {
        hex_of(b.drop_last()) + seq![hex_digit(b.last() as int / 16), hex_digit(b.last() as int % 16)]
    }
}

/// Relies on `hex::encode`: lower-case hex, two digits per byte, high half first.
#[verifier::external_body]
fn to_hex(b: &[u8]) -> (r: String)
    ensures
        r@ == hex_of(b@),
{
    hex::encode(b)
}

/// The identity of a blob: the digest of its path's bytes followed by its
/// content's bytes, in hex.
pub open spec fn identity_of(path: Seq<char>, content: Seq<char>) -> Seq<char> {
    hex_of(sha256_of(encode_utf8(path) + encode_utf8(content)))
}

fn append_bytes(v: &mut Vec<u8>, s: &[u8])
    ensures
        final(v)@ == old(v)@ + s@,
{
    let mut i: usize = 0;
    while i < s.len()
        invariant
            i <= s@.len(),
            v@ == old(v)@ + s@.take(i as int),
        decreases s@.len() - i,
    {
        v.push(s[i]);
        assert(s@.take(i as int + 1) == s@.take(i as int).push(s@[i as int]));
        i += 1;
    }
    assert(s@.take(s@.len() as int) == s@);
}

/// Computes the identity of the blob `(path, content)`.
pub fn sha256_hex(path: &str, content: &str) -> (r: String)
    ensures
        r@ == identity_of(path@, content@),
        r@.len() == 64,
{
    let mut bytes: Vec<u8> = Vec::new();
    append_bytes(&mut bytes, path.as_bytes());
    append_bytes(&mut bytes, content.as_bytes());
    let digest = sha256(bytes.as_slice());
    proof {
        lemma_hex_len(digest@);
    }
    to_hex(digest.as_slice())
}

proof fn lemma_hex_len(b: Seq<u8>)
    ensures
        hex_of(b).len() == 2 * b.len(),
    decreases b.len(),
{
    if b.len() > 0 {
        lemma_hex_len(b.drop_last());
    }
}

/// Identities are a function of the blob: equal paths and contents give equal
/// identities, and equal identities come only from equal digests.
pub proof fn lemma_identity_deterministic(p1: Seq<char>, c1: Seq<char>, p2: Seq<char>, c2: Seq<char>)
    ensures
        p1 == p2 && c1 == c2 ==> identity_of(p1, c1) == identity_of(p2, c2),
        identity_of(p1, c1) == identity_of(p2, c2) ==> sha256_of(encode_utf8(p1) + encode_utf8(c1))
            == sha256_of(encode_utf8(p2) + encode_utf8(c2)),
{
    lemma_hex_injective(
        sha256_of(encode_utf8(p1) + encode_utf8(c1)),
        sha256_of(encode_utf8(p2) + encode_utf8(c2)),
    );
}

/// Distinct byte strings have distinct hex forms.
pub proof fn lemma_hex_injective(a: Seq<u8>, b: Seq<u8>)
    ensures
        hex_of(a) == hex_of(b) ==> a == b,
    decreases a.len(),
{
    lemma_hex_len(a);
    lemma_hex_len(b);
    if hex_of(a) == hex_of(b) && a.len() > 0 {
        let ha = hex_of(a.drop_last());
        let hb = hex_of(b.drop_last());
        lemma_hex_len(a.drop_last());
        lemma_hex_len(b.drop_last());
        let n = ha.len() as int;
        assert(hex_of(a)[n] == hex_digit(a.last() as int / 16));
        assert(hex_of(b)[n] == hex_digit(b.last() as int / 16));
        assert(hex_of(a)[n + 1] == hex_digit(a.last() as int % 16));
        assert(hex_of(b)[n + 1] == hex_digit(b.last() as int % 16));
        assert(a.last() == b.last());
        assert(ha == hex_of(a).take(n));
        assert(hb == hex_of(b).take(n));
        lemma_hex_injective(a.drop_last(), b.drop_last());
        assert(a == a.drop_last().push(a.last()));
        assert(b == b.drop_last().push(b.last()));
    }
}

} // verus!

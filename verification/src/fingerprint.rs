//! Deterministic, non-cryptographic fingerprinting of diagnostic text.
//!
//! A descriptor carries a short printable token derived from the full
//! server-side message: the 64-bit FNV-1a digest of the text, rendered as
//! unpadded URL-safe base64. The token lets a client-visible error line be
//! correlated with a server-side log entry without exposing the text itself.

use vstd::prelude::*;
use vstd::arithmetic::power2::pow2;
use vstd::string::StrSliceExecFns;
use base64::Engine;

verus! {

/// FNV-1a 64-bit offset basis.
pub const FNV_OFFSET: u64 = 0xcbf29ce484222325;

/// FNV-1a 64-bit prime.
pub const FNV_PRIME: u64 = 0x100000001b3;

/// The 64-bit FNV-1a digest of a character sequence: starting from the
/// offset basis, each character's code point is folded in by xor followed
/// by a wrapping multiplication with the FNV prime.
pub open spec fn fnv1a64(s: Seq<char>) -> u64
    decreases s.len(),
{
    if s.len() == 0 {
        FNV_OFFSET
    } else {
        vstd::wrapping::u64_specs::wrapping_mul(
            fnv1a64(s.drop_last()) ^ (s.last() as u64),
            FNV_PRIME,
        )
    }
}

/// Computes the 64-bit FNV-1a digest of `s`.
pub fn fingerprint64(s: &str) -> (h: u64)
    ensures
        h == fnv1a64(s@),
{
    let n: usize = s.unicode_len();
    let mut h: u64 = FNV_OFFSET;
    let mut i: usize = 0;
    while i < n
        invariant
            i <= n,
            n == s@.len(),
            h == fnv1a64(s@.subrange(0, i as int)),
        decreases n - i,
    {
        let c = s.get_char(i);
        h = (h ^ (c as u64)).wrapping_mul(FNV_PRIME);
        i = i + 1;
        proof {
            let t = s@.subrange(0, i as int);
            assert(t.drop_last() =~= s@.subrange(0, i as int - 1));
            assert(t.last() == s@[i as int - 1]);
        }
    }
    proof {
        assert(s@.subrange(0, n as int) =~= s@);
    }
    h
}

/// The URL-safe base64 alphabet (RFC 4648, section 5).
pub open spec fn b64url_alphabet() -> Seq<char> {
    "ABCDEFGHIJKLMNOPQRSTUVWXYZabcdefghijklmnopqrstuvwxyz0123456789-_"@
}

/// Unpadded URL-safe base64 of the eight big-endian bytes of `x`: eleven
/// characters, the `j`th indexing the alphabet with the `j`th six-bit group
/// of the 64 bits of `x` followed by two zero bits.
pub open spec fn b64url_u64_be(x: u64) -> Seq<char> {
    Seq::new(11, |j: int| b64url_alphabet()[(((x as nat) * 4 / pow2((60 - 6 * j) as nat)) % 64) as int])
}

/// Relies on `base64`'s `URL_SAFE_NO_PAD` engine: it encodes the eight
/// big-endian bytes of `x` as base64 over the URL-safe alphabet of
/// RFC 4648 section 5, emitting no `=` padding.
#[verifier::external_body]
pub(crate) fn b64url_encode_u64(x: u64) -> (r: String)
    ensures
        r@ == b64url_u64_be(x),
{
    base64::engine::general_purpose::URL_SAFE_NO_PAD.encode(x.to_be_bytes())
}

/// The printable fingerprint token of a message text: the unpadded
/// URL-safe base64 rendering of the text's 64-bit FNV-1a digest.
pub open spec fn fingerprint_of(s: Seq<char>) -> Seq<char> {
    b64url_u64_be(fnv1a64(s))
}

/// Computes the printable fingerprint token of `s`.
pub fn fingerprint_token(s: &str) -> (r: String)
    ensures
        r@ == fingerprint_of(s@),
{
    let h = fingerprint64(s);
    b64url_encode_u64(h)
}

/// Law: the fingerprint is a pure function of the rendered text — two
/// messages whose text is identical carry identical fingerprint tokens.
pub proof fn lemma_fingerprint_deterministic(s1: Seq<char>, s2: Seq<char>)
    requires
        s1 == s2,
    ensures
        fingerprint_of(s1) == fingerprint_of(s2),
{
}

} // verus!

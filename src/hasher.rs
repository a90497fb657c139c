//! Password digests: SHA-512 of the password bytes, rendered as lowercase hex.

use sha2::Digest;
use vstd::prelude::*;

verus! {

/// The SHA-512 digest of `data`.
pub uninterp spec fn sha512_of(data: Seq<u8>) -> Seq<u8>;

/// Number of bytes in a SHA-512 digest.
pub const DIGEST_LEN: usize = 64;

/// The lowercase hexadecimal digit for `n`, for `n < 16`.
pub open spec fn hex_digit(n: nat) -> char {
    if n < 10 {
        (n + 48) as char
    } else {
        (n + 87) as char
    }
}

/// Whether `c` is one of `0`-`9` or `a`-`f`.
pub open spec fn is_lower_hex_digit(c: char) -> bool {
    ('0' <= c && c <= '9') || ('a' <= c && c <= 'f')
}

/// Two hex digits per byte, high nibble first.
pub open spec fn hex_of(bytes: Seq<u8>) -> Seq<char> {
    Seq::new(
        2 * bytes.len(),
        |i: int|
            if i % 2 == 0 {
                hex_digit((bytes[i / 2] / 16) as nat)
            } else {
                hex_digit((bytes[i / 2] % 16) as nat)
            },
    )
}

/// The stored form of a password given as bytes: its SHA-512 digest in
/// lowercase hex.
pub open spec fn password_hash_of(password: Seq<u8>) -> Seq<char> {
    hex_of(sha512_of(password))
}

/// The rendering of `bytes` is twice as long and holds lowercase hex digits only.
pub proof fn lemma_hex_shape(bytes: Seq<u8>)
    ensures
        hex_of(bytes).len() == 2 * bytes.len(),
        forall|i: int| 0 <= i < hex_of(bytes).len() ==> is_lower_hex_digit(#[trigger] hex_of(bytes)[i]),
{
    assert forall|i: int| 0 <= i < hex_of(bytes).len() implies is_lower_hex_digit(#[trigger] hex_of(bytes)[i]) by {
        let b = bytes[i / 2];
        assert(b / 16 < 16 && b % 16 < 16);
    }
}

/// Hex digits of nibbles below 16 tell the nibbles apart.
proof fn lemma_hex_digit_injective(m: nat, n: nat)
    requires
        m < 16,
        n < 16,
        hex_digit(m) == hex_digit(n),
    ensures
        m == n,
{
}

/// Rendering is one to one: byte strings of equal length with the same
/// rendering are equal, so distinct digests give distinct hex strings.
pub proof fn lemma_hex_injective(a: Seq<u8>, b: Seq<u8>)
    requires
        a.len() == b.len(),
        hex_of(a) == hex_of(b),
    ensures
        a == b,
{
    assert forall|k: int| 0 <= k < a.len() implies a[k] == b[k] by {
        let j = 2 * k;
        assert(j / 2 == k && j % 2 == 0 && (j + 1) / 2 == k && (j + 1) % 2 == 1);
        assert(hex_of(a)[j] == hex_digit((a[k] / 16) as nat));
        assert(hex_of(b)[j] == hex_digit((b[k] / 16) as nat));
        assert(hex_of(a)[j + 1] == hex_digit((a[k] % 16) as nat));
        assert(hex_of(b)[j + 1] == hex_digit((b[k] % 16) as nat));
        lemma_hex_digit_injective((a[k] / 16) as nat, (b[k] / 16) as nat);
        lemma_hex_digit_injective((a[k] % 16) as nat, (b[k] % 16) as nat);
    }
    assert(a =~= b);
}

/// Hashing is deterministic: the same password bytes always give the same
/// stored hash.
pub proof fn lemma_hash_deterministic(p1: Seq<u8>, p2: Seq<u8>)
    requires
        p1 == p2,
    ensures
        password_hash_of(p1) == password_hash_of(p2),
{
}

/// Relies on `sha2::Sha512` through `Digest::digest`: the 64-byte digest,
/// which depends on the input bytes alone.
#[verifier::external_body]
pub(crate) fn sha512(data: &[u8]) -> (r: Vec<u8>)
    ensures
        r@ == sha512_of(data@),
        r@.len() == DIGEST_LEN,
{
    sha2::Sha512::digest(data).to_vec()
}

/// Relies on `String::push`: appends `c` at the end.
#[verifier::external_body]
fn push_char(s: &mut String, c: char)
    ensures
        final(s)@ == old(s)@.push(c),
{
    s.push(c)
}

/// The lowercase hex digit for a nibble.
fn nibble_digit(n: u8) -> (c: char)
    requires
        n < 16,
    ensures
        c == hex_digit(n as nat),
{
    if n < 10 {
        (n + 48) as char
    } else {
        (n + 87) as char
    }
}

/// Renders `bytes` as lowercase hexadecimal, two digits per byte.
pub fn to_lower_hex(bytes: &[u8]) -> (r: String)
    ensures
        r@ == hex_of(bytes@),
{
    let mut out = String::new();
    let mut i: usize = 0;
    while i < bytes.len()
        invariant
            i <= bytes@.len(),
            out@ =~= hex_of(bytes@.subrange(0, i as int)),
        decreases bytes@.len() - i,
    {
        let b = bytes[i];
        push_char(&mut out, nibble_digit(b / 16));
        push_char(&mut out, nibble_digit(b % 16));
        proof {
            let pre = bytes@.subrange(0, i as int);
            let next = bytes@.subrange(0, i + 1);
            assert(next =~= pre.push(b));
            assert(hex_of(next) =~= hex_of(pre).push(hex_digit((b / 16) as nat)).push(
                hex_digit((b % 16) as nat),
            ));
        }
        i += 1;
    }
    assert(bytes@.subrange(0, bytes@.len() as int) =~= bytes@);
    out
}

} // verus!

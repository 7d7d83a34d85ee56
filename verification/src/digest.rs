//! SHA-256 digests written as lowercase hexadecimal text.
use vstd::prelude::*;
use sha2::{Digest, Sha256};
use crate::text::push_char;

verus! {

/// The SHA-256 digest of `data`, as the `sha2` crate computes it.
pub uninterp spec fn sha256_of(data: Seq<u8>) -> Seq<u8>;

/// `Sha256::digest` from the `sha2` crate. Trusted: the result is the digest
/// named `sha256_of` of the input, and a SHA-256 digest is 32 bytes long.
#[verifier::external_body]
fn sha256_digest(bytes: &[u8]) -> (r: Vec<u8>)
    ensures
        r@ == sha256_of(bytes@),
        r@.len() == 32,
{
    Sha256::digest(bytes).to_vec()
}

pub open spec fn hex_digit(n: nat) -> char
    recommends
        n < 16,
{
    if n < 10 {
        ((n + 48) as u8) as char
    } else {
        ((n + 87) as u8) as char
    }
}

/// Each byte as two lowercase hexadecimal digits (`{:02x}`), in order.
pub open spec fn hex_text(data: Seq<u8>) -> Seq<char>
    decreases data.len(),
{
    if data.len() == 0 {
        seq![]
    } else {
        hex_text(data.drop_last()) + seq![
            hex_digit((data.last() / 16) as nat),
            hex_digit((data.last() % 16) as nat),
        ]
    }
}

pub open spec fn is_lower_hex_digit(c: char) -> bool {
    ('0' <= c && c <= '9') || ('a' <= c && c <= 'f')
}

fn hex_digit_char(n: u8) -> (c: char)
    requires
        n < 16,
    ensures
        c == hex_digit(n as nat),
{
    if n < 10 {
        (n + 48) as char
    } else {
        (n + 87) as char
    }
}

/// Lowercase hexadecimal text of `data`.
pub fn to_hex_lower(data: &[u8]) -> (r: String)
    ensures
        r@ == hex_text(data@),
{
    let mut r = String::new();
    let mut i: usize = 0;
    while i < data.len()
        invariant
            i <= data.len(),
            r@ == hex_text(data@.take(i as int)),
        decreases data.len() - i,
    {
        let b: u8 = data[i];
        push_char(&mut r, hex_digit_char(b / 16));
        push_char(&mut r, hex_digit_char(b % 16));
        let ghost next = data@.take(i + 1);
        assert(next.drop_last() =~= data@.take(i as int));
        assert(next.last() == b);
        i = i + 1;
        assert(r@ =~= hex_text(data@.take(i as int)));
    }
    assert(data@.take(data.len() as int) =~= data@);
    r
}

/// The SHA-256 digest of `bytes`, in lowercase hexadecimal.
pub fn sha256_hex(bytes: &[u8]) -> (r: String)
    ensures
        r@ == hex_text(sha256_of(bytes@)),
        r@.len() == 64,
        forall|i: int| 0 <= i < r@.len() ==> is_lower_hex_digit(#[trigger] r@[i]),
{
    let digest = sha256_digest(bytes);
    proof {
        lemma_hex_text_shape(digest@);
    }
    to_hex_lower(digest.as_slice())
}

/// Hexadecimal text has two lowercase hexadecimal digits per byte.
pub proof fn lemma_hex_text_shape(data: Seq<u8>)
    ensures
        hex_text(data).len() == 2 * data.len(),
        forall|i: int| 0 <= i < hex_text(data).len() ==> is_lower_hex_digit(#[trigger] hex_text(data)[i]),
    decreases data.len(),
{
    if data.len() > 0 {
        lemma_hex_text_shape(data.drop_last());
        let hi = (data.last() / 16) as nat;
        let lo = (data.last() % 16) as nat;
        assert(is_lower_hex_digit(hex_digit(hi)));
        assert(is_lower_hex_digit(hex_digit(lo)));
        let t = hex_text(data);
        let p = hex_text(data.drop_last());
        assert forall|i: int| 0 <= i < t.len() implies is_lower_hex_digit(#[trigger] t[i]) by {
            if i < p.len() {
                assert(t[i] == p[i]);
            }
        }
    }
}

} // verus!

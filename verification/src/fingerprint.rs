//! Content fingerprinting: the deduplication key of a binary sample is
//! the lowercase hexadecimal text of the SHA-256 digest of its bytes.

use vstd::prelude::*;

use sha2::Digest;

verus! {

/// The 32-byte SHA-256 digest of a byte sequence.
pub uninterp spec fn sha256_of(data: Seq<u8>) -> Seq<u8>;

/// One lowercase hexadecimal digit for a value below 16.
pub open spec fn hex_digit(n: u8) -> char {
    if n == 0 {
        '0'
    } else if n == 1 {
        '1'
    } else if n == 2 {
        '2'
    } else if n == 3 {
        '3'
    } else if n == 4 {
        '4'
    } else if n == 5 {
        '5'
    } else if n == 6 {
        '6'
    } else if n == 7 {
        '7'
    } else if n == 8 {
        '8'
    } else if n == 9 {
        '9'
    } else if n == 10 {
        'a'
    } else if n == 11 {
        'b'
    } else if n == 12 {
        'c'
    } else if n == 13 {
        'd'
    } else if n == 14 {
        'e'
    } else {
        'f'
    }
}

/// Lowercase hexadecimal text of a byte sequence, two digits per byte.
pub open spec fn hex_of(data: Seq<u8>) -> Seq<char>
    decreases data.len(),
{
    if data.len() == 0 {
        Seq::empty()
    } else {
        seq![hex_digit(data[0] / 16), hex_digit(data[0] % 16)] + hex_of(data.drop_first())
    }
}

/// The content fingerprint of a byte sequence.
pub open spec fn fingerprint_of(data: Seq<u8>) -> Seq<char> {
    hex_of(sha256_of(data))
}

/// Relies on sha2::Sha256: the 32-byte digest (FIPS 180-4 SHA-256) is a
/// function of the input bytes alone.
#[verifier::external_body]
fn sha256_digest(data: &Vec<u8>) -> (r: Vec<u8>)
    ensures
        r@ == sha256_of(data@),
        r@.len() == 32,
{
    sha2::Sha256::digest(data.as_slice()).to_vec()
}

proof fn lemma_hex_of_append(a: Seq<u8>, b: Seq<u8>)
    ensures
        hex_of(a + b) == hex_of(a) + hex_of(b),
    decreases a.len(),
{
    if a.len() == 0 {
        assert(a + b =~= b);
        assert(hex_of(a) + hex_of(b) =~= hex_of(b));
    } else {
        assert((a + b).drop_first() =~= a.drop_first() + b);
        lemma_hex_of_append(a.drop_first(), b);
        assert(seq![hex_digit(a[0] / 16), hex_digit(a[0] % 16)] + (hex_of(a.drop_first()) + hex_of(
            b,
        )) =~= (seq![hex_digit(a[0] / 16), hex_digit(a[0] % 16)] + hex_of(a.drop_first())) + hex_of(
            b,
        ));
    }
}

proof fn lemma_hex_of_snoc(s: Seq<u8>, i: int)
    requires
        0 <= i < s.len(),
    ensures
        hex_of(s.take(i + 1)) == hex_of(s.take(i)).push(hex_digit(s[i] / 16)).push(
            hex_digit(s[i] % 16),
        ),
{
    assert(s.take(i + 1) =~= s.take(i) + seq![s[i]]);
    lemma_hex_of_append(s.take(i), seq![s[i]]);
    let u = seq![s[i]];
    assert(u.drop_first() =~= Seq::<u8>::empty());
    assert(hex_of(u.drop_first()) == Seq::<char>::empty());
    assert(hex_of(u) =~= seq![hex_digit(s[i] / 16), hex_digit(s[i] % 16)]);
    assert(hex_of(s.take(i)) + hex_of(u) =~= hex_of(s.take(i)).push(hex_digit(s[i] / 16)).push(
        hex_digit(s[i] % 16),
    ));
}

pub proof fn lemma_hex_of_len(data: Seq<u8>)
    ensures
        hex_of(data).len() == 2 * data.len(),
    decreases data.len(),
{
    if data.len() > 0 {
        lemma_hex_of_len(data.drop_first());
    }
}

fn hex_digit_exec(n: u8) -> (r: char)
    requires
        n < 16,
    ensures
        r == hex_digit(n),
{
    if n == 0 {
        '0'
    } else if n == 1 {
        '1'
    } else if n == 2 {
        '2'
    } else if n == 3 {
        '3'
    } else if n == 4 {
        '4'
    } else if n == 5 {
        '5'
    } else if n == 6 {
        '6'
    } else if n == 7 {
        '7'
    } else if n == 8 {
        '8'
    } else if n == 9 {
        '9'
    } else if n == 10 {
        'a'
    } else if n == 11 {
        'b'
    } else if n == 12 {
        'c'
    } else if n == 13 {
        'd'
    } else if n == 14 {
        'e'
    } else {
        'f'
    }
}

/// Lowercase hexadecimal text of a byte vector.
pub fn to_hex(data: &Vec<u8>) -> (r: String)
    ensures
        r@ == hex_of(data@),
{
    let mut out = String::new();
    let mut i: usize = 0;
    while i < data.len()
        invariant
            i <= data@.len(),
            out@ == hex_of(data@.take(i as int)),
        decreases data@.len() - i,
    {
        let b = data[i];
        proof {
            lemma_hex_of_snoc(data@, i as int);
        }
        crate::chars::push_char(&mut out, hex_digit_exec(b / 16));
        crate::chars::push_char(&mut out, hex_digit_exec(b % 16));
        i += 1;
    }
    proof {
        assert(data@.take(data@.len() as int) =~= data@);
    }
    out
}

/// The content fingerprint of the given bytes: 64 lowercase hexadecimal
/// characters of the SHA-256 digest.
pub fn compute_fingerprint(data: &Vec<u8>) -> (r: String)
    ensures
        r@ == fingerprint_of(data@),
        r@.len() == 64,
{
    let digest = sha256_digest(data);
    let r = to_hex(&digest);
    proof {
        lemma_hex_of_len(digest@);
    }
    r
}

} // verus!

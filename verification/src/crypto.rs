//! Encodings, digests and randomness that the OAuth flows use.

use base64::Engine;
use rand::{RngCore, SeedableRng};
use sha2::Digest;
use vstd::prelude::*;

verus! {

/// The character of the URL-safe base64 alphabet for the digit `v` (0 to 63): `A` to
/// `Z`, `a` to `z`, `0` to `9`, `-` and `_`.
pub open spec fn base64_url_digit(v: int) -> char {
    if v < 26 {
        (v + 65) as char
    } else if v < 52 {
        (v - 26 + 97) as char
    } else if v < 62 {
        (v - 52 + 48) as char
    } else if v == 62 {
        '-'
    } else {
        '_'
    }
}

/// Whether `c` belongs to the URL-safe base64 alphabet.
pub open spec fn is_base64_url_char(c: char) -> bool {
    ||| 65 <= c as int <= 90
    ||| 97 <= c as int <= 122
    ||| 48 <= c as int <= 57
    ||| c == '-'
    ||| c == '_'
}

/// The URL-safe base64 encoding of `data`, without padding: each group of three bytes
/// gives four digits of six bits each; a last group of two bytes gives three digits, and
/// one of a single byte two, the bits missing at the end taken as zero.
pub open spec fn base64_url_no_pad(data: Seq<u8>) -> Seq<char>
    decreases data.len(),
{
    if data.len() >= 3 {
        let (a, b, c) = (data[0] as int, data[1] as int, data[2] as int);
        seq![
            base64_url_digit(a / 4),
            base64_url_digit((a % 4) * 16 + b / 16),
            base64_url_digit((b % 16) * 4 + c / 64),
            base64_url_digit(c % 64),
        ] + base64_url_no_pad(data.skip(3))
    } else if data.len() == 2 {
        let (a, b) = (data[0] as int, data[1] as int);
        seq![
            base64_url_digit(a / 4),
            base64_url_digit((a % 4) * 16 + b / 16),
            base64_url_digit((b % 16) * 4),
        ]
    } else if data.len() == 1 {
        let a = data[0] as int;
        seq![base64_url_digit(a / 4), base64_url_digit((a % 4) * 16)]
    } else {
        Seq::empty()
    }
}

/// The encoding of `n` bytes has `(4 n + 2) / 3` characters, all of the URL-safe
/// alphabet.
pub proof fn lemma_base64_url_shape(data: Seq<u8>)
    ensures
        base64_url_no_pad(data).len() == (4 * data.len() + 2) / 3,
        forall|i: int| 0 <= i < base64_url_no_pad(data).len() ==> is_base64_url_char(
            #[trigger] base64_url_no_pad(data)[i],
        ),
    decreases data.len(),
{
    assert forall|v: int| 0 <= v < 64 implies is_base64_url_char(#[trigger] base64_url_digit(v)) by {
    }
    if data.len() >= 3 {
        lemma_base64_url_shape(data.skip(3));
        let (a, b, c) = (data[0] as int, data[1] as int, data[2] as int);
        assert(0 <= (a % 4) * 16 + b / 16 < 64);
        assert(0 <= (b % 16) * 4 + c / 64 < 64);
        let head = seq![
            base64_url_digit(a / 4),
            base64_url_digit((a % 4) * 16 + b / 16),
            base64_url_digit((b % 16) * 4 + c / 64),
            base64_url_digit(c % 64),
        ];
        let rest = base64_url_no_pad(data.skip(3));
        assert forall|i: int| 0 <= i < (head + rest).len() implies is_base64_url_char(#[trigger] (head + rest)[i]) by {
            if i >= 4 {
                assert((head + rest)[i] == rest[i - 4]);
            }
        }
    } else if data.len() == 2 {
        let (a, b) = (data[0] as int, data[1] as int);
        assert(0 <= (a % 4) * 16 + b / 16 < 64);
        assert(0 <= (b % 16) * 4 < 64);
    } else if data.len() == 1 {
        let a = data[0] as int;
        assert(0 <= (a % 4) * 16 < 64);
    }
}

/// `base64::engine::general_purpose::URL_SAFE_NO_PAD.encode`, which panics only where the
/// length of its output overflows: the contract states its result, the standard URL-safe
/// base64 encoding without padding.
#[verifier::external_body]
pub(crate) fn encode_base64_url(data: &[u8]) -> (r: String)
    requires
        data@.len() <= 0x3fff_ffff,
    ensures
        r@ == base64_url_no_pad(data@),
{
    base64::engine::general_purpose::URL_SAFE_NO_PAD.encode(data)
}

/// The SHA-256 digest of `data`.
pub uninterp spec fn sha256_digest(data: Seq<u8>) -> Seq<u8>;

/// `sha2::Sha256::digest`: the contract names its result, which depends on `data` alone,
/// and states that it takes 32 bytes.
#[verifier::external_body]
pub(crate) fn sha256(data: &[u8]) -> (r: Vec<u8>)
    ensures
        r@ == sha256_digest(data@),
        r@.len() == 32,
{
    sha2::Sha256::digest(data).to_vec()
}

/// `n` bytes from a `rand::rngs::SmallRng` seeded with `SeedableRng::from_rng` from
/// `rand::rngs::OsRng`, the operating system's generator; `None` where seeding fails. Of
/// the bytes the contract says only how many there are.
#[verifier::external_body]
pub(crate) fn small_rng_bytes(n: usize) -> (r: Option<Vec<u8>>)
    ensures
        r matches Some(b) ==> b@.len() == n,
{
    let mut bytes = vec![0u8; n];
    match rand::rngs::SmallRng::from_rng(rand::rngs::OsRng) {
        Ok(mut rng) => {
            rng.fill_bytes(&mut bytes);
            Some(bytes)
        },
        Err(_) => None,
    }
}

/// Whether `r` is what a draw of `n` bytes from the operating system's generator
/// (`os_rng_bytes`) gave.
pub closed spec fn is_os_random_draw(n: usize, r: Option<Vec<u8>>) -> bool {
    call_ensures(os_rng_bytes, (n,), r)
}

/// What a call of `os_rng_bytes` gave is a draw from the operating system's generator.
pub(crate) proof fn lemma_os_random_draw(n: usize, r: Option<Vec<u8>>)
    requires
        call_ensures(os_rng_bytes, (n,), r),
    ensures
        is_os_random_draw(n, r),
{
}

/// `n` bytes from the operating system's generator, `rand::rngs::OsRng::try_fill_bytes`;
/// `None` where it fails. Of the bytes the contract says only how many there are.
#[verifier::external_body]
pub(crate) fn os_rng_bytes(n: usize) -> (r: Option<Vec<u8>>)
    ensures
        r matches Some(b) ==> b@.len() == n,
{
    let mut bytes = vec![0u8; n];
    match rand::rngs::OsRng.try_fill_bytes(&mut bytes) {
        Ok(()) => Some(bytes),
        Err(_) => None,
    }
}

} // verus!

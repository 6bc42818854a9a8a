//! URL-safe base64 without padding, as the authorization flow uses it for
//! the PKCE state, verifier and challenge.
//!
//! The encoding itself is stated as a spec function ([`b64url_chars`]); the
//! executable encoder is the `base64` crate, trusted to meet that statement.

use vstd::prelude::*;

verus! {

/// The character of the URL-safe base64 alphabet for a 6-bit group:
/// `A-Z`, `a-z`, `0-9`, `-`, `_`.
pub open spec fn b64url_char(v: u8) -> char
    recommends
        v < 64,
{
    if v < 26 {
        ((65 + v) as u8) as char
    } else if v < 52 {
        ((71 + v) as u8) as char
    } else if v < 62 {
        ((v - 4) as u8) as char
    } else if v == 62 {
        '-'
    } else {
        '_'
    }
}

/// URL-safe base64 without padding: each full group of three bytes becomes
/// four alphabet characters; a final group of one or two bytes becomes two
/// or three characters, with the spare low bits zero.
pub open spec fn b64url_chars(s: Seq<u8>) -> Seq<char>
    decreases s.len(),
{
    if s.len() == 0 {
        Seq::empty()
    } else if s.len() == 1 {
        seq![b64url_char(s[0] / 4), b64url_char(((s[0] % 4) * 16) as u8)]
    } else if s.len() == 2 {
        seq![
            b64url_char(s[0] / 4),
            b64url_char(((s[0] % 4) * 16 + s[1] / 16) as u8),
            b64url_char(((s[1] % 16) * 4) as u8),
        ]
    } else {
        seq![
            b64url_char(s[0] / 4),
            b64url_char(((s[0] % 4) * 16 + s[1] / 16) as u8),
            b64url_char(((s[1] % 16) * 4 + s[2] / 64) as u8),
            b64url_char((s[2] % 64) as u8),
        ] + b64url_chars(s.skip(3))
    }
}

/// The unpadded encoding of `n` bytes has `4 * (n / 3)` characters for the
/// full groups plus none, two or three for a final group of none, one or
/// two bytes.
pub open spec fn b64url_len(n: nat) -> nat {
    4 * (n / 3) + if n % 3 == 0 {
        0
    } else {
        (n % 3 + 1)
    }
}

pub proof fn lemma_b64url_len(s: Seq<u8>)
    ensures
        b64url_chars(s).len() == b64url_len(s.len()),
    decreases s.len(),
{
    if s.len() >= 3 {
        lemma_b64url_len(s.skip(3));
    }
}

/// Every character the encoding produces lies in the ASCII range.
pub proof fn lemma_b64url_ascii(s: Seq<u8>)
    ensures
        forall|i: int|
            0 <= i < b64url_chars(s).len() ==> '-' <= #[trigger] b64url_chars(s)[i] <= 'z',
    decreases s.len(),
{
    if s.len() >= 3 {
        lemma_b64url_ascii(s.skip(3));
        assert forall|i: int| 0 <= i < b64url_chars(s).len() implies '-' <= #[trigger] b64url_chars(
            s,
        )[i] <= 'z' by {
            if i >= 4 {
                assert(b64url_chars(s)[i] == b64url_chars(s.skip(3))[i - 4]);
            }
        }
    }
}

/// Relies on `base64::encode_config` with the `URL_SAFE_NO_PAD` config: the
/// RFC 4648 URL-safe alphabet, no `=` padding, as [`b64url_chars`] states.
#[verifier::external_body]
pub(crate) fn b64url_encode(data: &[u8]) -> (r: String)
    ensures
        r@ == b64url_chars(data@),
{
    base64::encode_config(data, base64::URL_SAFE_NO_PAD)
}

} // verus!

use vstd::prelude::*;
use base64::Engine;

verus! {

/// The character of a six-bit value in the standard base64 alphabet.
pub open spec fn base64_digit(v: int) -> char {
    if v < 26 {
        (65 + v) as char
    } else if v < 52 {
        (97 + v - 26) as char
    } else if v < 62 {
        (48 + v - 52) as char
    } else if v == 62 {
        '+'
    } else {
        '/'
    }
}

/// The standard (RFC 4648, padded) base64 text of some bytes: each group of
/// three bytes becomes four characters of six bits each; a last group of one
/// or two bytes is filled with zero bits and padded with '='.
pub open spec fn base64_encoded(bytes: Seq<u8>) -> Seq<char>
    decreases bytes.len(),
{
    if bytes.len() == 0 {
        Seq::empty()
    } else if bytes.len() == 1 {
        let b0 = bytes[0] as int;
        seq![base64_digit(b0 / 4), base64_digit((b0 % 4) * 16), '=', '=']
    } else if bytes.len() == 2 {
        let (b0, b1) = (bytes[0] as int, bytes[1] as int);
        seq![
            base64_digit(b0 / 4),
            base64_digit((b0 % 4) * 16 + b1 / 16),
            base64_digit((b1 % 16) * 4),
            '=',
        ]
    } else {
        let (b0, b1, b2) = (bytes[0] as int, bytes[1] as int, bytes[2] as int);
        seq![
            base64_digit(b0 / 4),
            base64_digit((b0 % 4) * 16 + b1 / 16),
            base64_digit((b1 % 16) * 4 + b2 / 64),
            base64_digit(b2 % 64),
        ] + base64_encoded(bytes.subrange(3, bytes.len() as int))
    }
}

/// The bytes that a text stands for in standard padded base64, or `None`
/// where the text is not valid standard base64.
pub uninterp spec fn base64_decoded(text: Seq<char>) -> Option<Seq<u8>>;

/// The length of the padded base64 text of `n` bytes.
pub open spec fn base64_encoded_len(n: nat) -> int {
    (n / 3) * 4 + if n % 3 > 0 { 4int } else { 0int }
}

/// `base64::engine::general_purpose::STANDARD.encode`.
/// Claimed: the result is the standard base64 text of `bytes`, and decoding
/// that text gives `bytes` back. It panics only where the text's length
/// overflows `usize`, which `requires` leaves out.
#[verifier::external_body]
pub fn base64_encode(bytes: &[u8]) -> (r: String)
    requires
        base64_encoded_len(bytes@.len()) <= usize::MAX,
    ensures
        r@ == base64_encoded(bytes@),
        base64_decoded(r@) == Some(bytes@),
{
    base64::engine::general_purpose::STANDARD.encode(bytes)
}

/// `base64::engine::general_purpose::STANDARD.decode` applied to the bytes of a text.
/// Claimed: it succeeds exactly when the text is valid standard base64, and
/// then gives the bytes that the text stands for.
#[verifier::external_body]
pub fn base64_decode(text: &str) -> (r: Option<Vec<u8>>)
    ensures
        match r {
            Some(b) => base64_decoded(text@) == Some(b@),
            None => base64_decoded(text@) is None,
        },
{
    base64::engine::general_purpose::STANDARD.decode(text).ok()
}

} // verus!

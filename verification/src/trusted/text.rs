use vstd::prelude::*;
use vstd::utf8::{valid_utf8, decode_utf8};

verus! {

/// Whether `c` has the Unicode `White_Space` property (what `char::is_whitespace`
/// tests): the controls U+0009 to U+000D, the space, U+0085, the no-break
/// space, the Ogham space mark, the spaces U+2000 to U+200A, the line and
/// paragraph separators, U+202F, U+205F and the ideographic space.
pub open spec fn white_space(c: char) -> bool {
    let u = c as u32;
    ||| 0x09 <= u <= 0x0D
    ||| u == 0x20
    ||| u == 0x85
    ||| u == 0xA0
    ||| u == 0x1680
    ||| 0x2000 <= u <= 0x200A
    ||| u == 0x2028
    ||| u == 0x2029
    ||| u == 0x202F
    ||| u == 0x205F
    ||| u == 0x3000
}

/// The full Unicode lower-case mapping of a text (what `str::to_lowercase` computes).
pub uninterp spec fn lowercase_of(s: Seq<char>) -> Seq<char>;

/// Whether `r` is `s` with its leading and trailing white space removed: the
/// part of `s` between a run of white space at the start and one at the end,
/// neither starting nor ending with white space.
pub open spec fn is_trimmed(s: Seq<char>, r: Seq<char>) -> bool {
    exists|i: int, j: int|
        #![trigger s.subrange(i, j)]
        0 <= i <= j <= s.len() && r == s.subrange(i, j) && (forall|k: int|
            0 <= k < i ==> white_space(#[trigger] s[k])) && (forall|k: int|
            j <= k < s.len() ==> white_space(#[trigger] s[k])) && (i < j ==> !white_space(s[i])
            && !white_space(s[j - 1]))
}

/// `str::trim`: the text without its leading and trailing white space.
/// Claimed: the result is the part of `s` between a run of white space at the
/// start and a run of white space at the end, and it neither starts nor ends
/// with white space.
#[verifier::external_body]
pub fn trim_text(s: &str) -> (r: &str)
    ensures
        is_trimmed(s@, r@),
        r@.len() > 0 ==> !white_space(r@[0]) && !white_space(r@.last()),
{
    s.trim()
}

/// `str::to_lowercase`: the lower-case equivalent of a text.
/// Claimed: the result is the Unicode lower-case mapping of `s`.
#[verifier::external_body]
pub fn lowercase_text(s: &str) -> (r: String)
    ensures
        r@ == lowercase_of(s@),
{
    s.to_lowercase()
}

/// `str::contains` with a `char` pattern.
/// Claimed: true exactly when `c` occurs in `s`.
#[verifier::external_body]
pub fn text_contains_char(s: &str, c: char) -> (r: bool)
    ensures
        r == s@.contains(c),
{
    s.contains(c)
}

/// `str::starts_with` with a text pattern.
/// Claimed: true exactly when `p` is a prefix of `s`.
#[verifier::external_body]
pub fn text_starts_with(s: &str, p: &str) -> (r: bool)
    ensures
        r == (p@.len() <= s@.len() && s@.subrange(0, p@.len() as int) == p@),
{
    s.starts_with(p)
}

/// `String::from_utf8`: the text that some bytes encode.
/// Claimed: it succeeds exactly when the bytes are valid UTF-8, and the text
/// is then what they decode to.
#[verifier::external_body]
pub fn utf8_text(bytes: Vec<u8>) -> (r: Option<String>)
    ensures
        r is Some <==> valid_utf8(bytes@),
        r matches Some(s) ==> s@ == decode_utf8(bytes@),
{
    String::from_utf8(bytes).ok()
}

} // verus!

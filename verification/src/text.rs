//! Text encodings used on the wire: URL-safe base64 without padding, URL
//! percent-encoding, and the whitespace-separated scope list.
use base64::Engine;
use vstd::prelude::*;
use vstd::string::*;
use vstd::utf8::*;

verus! {

/// The character that stands for the 6-bit value `v` in the URL-safe base64
/// alphabet of RFC 4648 (`A`-`Z`, `a`-`z`, `0`-`9`, `-`, `_`).
pub open spec fn b64url_digit(v: int) -> char {
    if v < 26 {
        (65 + v) as char
    } else if v < 52 {
        (97 + (v - 26)) as char
    } else if v < 62 {
        (48 + (v - 52)) as char
    } else if v == 62 {
        '-'
    } else {
        '_'
    }
}

/// URL-safe base64 of `bytes` without `=` padding: each group of three bytes
/// becomes four digits, a trailing pair three digits, a trailing byte two.
pub open spec fn b64url(bytes: Seq<u8>) -> Seq<char>
    decreases bytes.len(),
{
    if bytes.len() >= 3 {
        let b0 = bytes[0] as int;
        let b1 = bytes[1] as int;
        let b2 = bytes[2] as int;
        seq![
            b64url_digit(b0 / 4),
            b64url_digit((b0 % 4) * 16 + b1 / 16),
            b64url_digit((b1 % 16) * 4 + b2 / 64),
            b64url_digit(b2 % 64),
        ] + b64url(bytes.subrange(3, bytes.len() as int))
    } else if bytes.len() == 2 {
        let b0 = bytes[0] as int;
        let b1 = bytes[1] as int;
        seq![b64url_digit(b0 / 4), b64url_digit((b0 % 4) * 16 + b1 / 16), b64url_digit((b1 % 16) * 4)]
    } else if bytes.len() == 1 {
        let b0 = bytes[0] as int;
        seq![b64url_digit(b0 / 4), b64url_digit((b0 % 4) * 16)]
    } else {
        seq![]
    }
}

/// A character of the URL-safe base64 alphabet.
pub open spec fn is_b64url_char(c: char) -> bool {
    ('A' <= c <= 'Z') || ('a' <= c <= 'z') || ('0' <= c <= '9') || c == '-' || c == '_'
}

/// Every digit of the URL-safe alphabet is an alphabet character.
pub proof fn lemma_b64url_digit_in_alphabet(v: int)
    requires
        0 <= v < 64,
    ensures
        is_b64url_char(b64url_digit(v)),
{
}

/// Every character of a URL-safe base64 encoding is an alphabet character.
pub proof fn lemma_b64url_alphabet(bytes: Seq<u8>)
    ensures
        forall|i: int| 0 <= i < b64url(bytes).len() ==> is_b64url_char(#[trigger] b64url(bytes)[i]),
    decreases bytes.len(),
{
    let out = b64url(bytes);
    if bytes.len() >= 3 {
        let b0 = bytes[0] as int;
        let b1 = bytes[1] as int;
        let b2 = bytes[2] as int;
        lemma_b64url_digit_in_alphabet(b0 / 4);
        lemma_b64url_digit_in_alphabet((b0 % 4) * 16 + b1 / 16);
        lemma_b64url_digit_in_alphabet((b1 % 16) * 4 + b2 / 64);
        lemma_b64url_digit_in_alphabet(b2 % 64);
        let tail = bytes.subrange(3, bytes.len() as int);
        lemma_b64url_alphabet(tail);
        assert forall|i: int| 0 <= i < out.len() implies is_b64url_char(#[trigger] out[i]) by {
            if i >= 4 {
                assert(out[i] == b64url(tail)[i - 4]);
            }
        }
    } else if bytes.len() == 2 {
        let b0 = bytes[0] as int;
        let b1 = bytes[1] as int;
        lemma_b64url_digit_in_alphabet(b0 / 4);
        lemma_b64url_digit_in_alphabet((b0 % 4) * 16 + b1 / 16);
        lemma_b64url_digit_in_alphabet((b1 % 16) * 4);
    } else if bytes.len() == 1 {
        let b0 = bytes[0] as int;
        lemma_b64url_digit_in_alphabet(b0 / 4);
        lemma_b64url_digit_in_alphabet((b0 % 4) * 16);
    }
}

/// Encodes `bytes` with the base64 crate's `URL_SAFE_NO_PAD` engine.
///
/// Trusted: the engine uses the RFC 4648 URL-safe alphabet and writes no
/// padding, so its output is `b64url(bytes)`. `Engine::encode` panics only
/// when the encoded length overflows `usize`; a slice holds at most
/// `isize::MAX` bytes, so that cannot happen.
#[verifier::external_body]
pub(crate) fn base64url_encode(bytes: &[u8]) -> (encoded: String)
    ensures
        encoded@ == b64url(bytes@),
{
    base64::engine::general_purpose::URL_SAFE_NO_PAD.encode(bytes)
}


/// A byte that URL percent-encoding leaves as it is: ASCII letters, digits,
/// `-`, `.`, `_` and `~`.
pub open spec fn is_url_unreserved(b: u8) -> bool {
    (48 <= b <= 57) || (65 <= b <= 90) || (97 <= b <= 122) || b == 45 || b == 46 || b == 95 || b
        == 126
}

/// The upper-case hexadecimal digit for `v` in `0..16`.
pub open spec fn hex_digit_upper(v: int) -> char {
    if v < 10 {
        (48 + v) as char
    } else {
        (55 + v) as char
    }
}

/// One byte, percent-encoded: unreserved bytes stand for themselves, every
/// other byte becomes `%` and two upper-case hexadecimal digits.
pub open spec fn percent_encode_byte(b: u8) -> Seq<char> {
    if is_url_unreserved(b) {
        seq![b as char]
    } else {
        seq!['%', hex_digit_upper(b as int / 16), hex_digit_upper(b as int % 16)]
    }
}

/// Percent-encoding of a byte string, byte by byte.
pub open spec fn percent_encode(bytes: Seq<u8>) -> Seq<char>
    decreases bytes.len(),
{
    if bytes.len() == 0 {
        seq![]
    } else {
        percent_encode_byte(bytes[0]) + percent_encode(bytes.drop_first())
    }
}

/// Percent-encoding of the UTF-8 bytes of a string.
pub open spec fn url_encoded(s: Seq<char>) -> Seq<char> {
    percent_encode(encode_utf8(s))
}

/// An ASCII letter or digit.
pub open spec fn is_ascii_alphanumeric(c: char) -> bool {
    ('0' <= c <= '9') || ('A' <= c <= 'Z') || ('a' <= c <= 'z')
}

/// Every character of `s` is an ASCII letter or digit.
pub open spec fn all_ascii_alphanumeric(s: Seq<char>) -> bool {
    forall|i: int| 0 <= i < s.len() ==> is_ascii_alphanumeric(#[trigger] s[i])
}

proof fn lemma_percent_encode_unreserved(bytes: Seq<u8>, chars: Seq<char>)
    requires
        bytes.len() == chars.len(),
        forall|i: int| 0 <= i < chars.len() ==> is_ascii_alphanumeric(#[trigger] chars[i]),
        forall|i: int| 0 <= i < chars.len() ==> #[trigger] bytes[i] == chars[i] as u8,
    ensures
        percent_encode(bytes) == chars,
    decreases bytes.len(),
{
    if bytes.len() > 0 {
        let c = chars[0];
        assert(bytes[0] == c as u8);
        assert(is_url_unreserved(bytes[0]));
        assert((bytes[0] as char) == c);
        lemma_percent_encode_unreserved(bytes.drop_first(), chars.drop_first());
        assert(chars == seq![c] + chars.drop_first());
    }
}

/// Percent-encoding leaves a string of ASCII letters and digits unchanged.
pub proof fn lemma_url_encoded_alphanumeric(s: Seq<char>)
    requires
        all_ascii_alphanumeric(s),
    ensures
        url_encoded(s) == s,
{
    assert(is_ascii_chars(s));
    is_ascii_chars_encode_utf8(s);
    lemma_percent_encode_unreserved(encode_utf8(s), s);
}

/// Percent-encodes a string with `urlencoding::encode`.
///
/// Trusted: per its source, `encode` takes the UTF-8 bytes of the string and
/// keeps ASCII letters, digits, `-`, `.`, `_` and `~`, writing every other
/// byte as `%` followed by two upper-case hexadecimal digits.
#[verifier::external_body]
pub(crate) fn url_encode(s: &str) -> (encoded: String)
    ensures
        encoded@ == url_encoded(s@),
{
    urlencoding::encode(s).into_owned()
}

/// Whether two strings hold the same characters.
pub fn same_text(a: &str, b: &str) -> (same: bool)
    ensures
        same == (a@ == b@),
{
    String::from_str(a) == String::from_str(b)
}

/// Unicode `White_Space`, the set that `char::is_whitespace` and
/// `str::split_whitespace` use.
pub open spec fn is_white_space(c: char) -> bool {
    ('\u{9}' <= c <= '\u{d}') || c == ' ' || c == '\u{85}' || c == '\u{a0}' || c == '\u{1680}'
        || ('\u{2000}' <= c <= '\u{200a}') || c == '\u{2028}' || c == '\u{2029}' || c == '\u{202f}'
        || c == '\u{205f}' || c == '\u{3000}'
}

/// `c` is Unicode white space.
pub fn is_white_space_char(c: char) -> (ws: bool)
    ensures
        ws == is_white_space(c),
{
    ('\u{9}' <= c && c <= '\u{d}') || c == ' ' || c == '\u{85}' || c == '\u{a0}' || c == '\u{1680}'
        || ('\u{2000}' <= c && c <= '\u{200a}') || c == '\u{2028}' || c == '\u{2029}' || c
        == '\u{202f}' || c == '\u{205f}' || c == '\u{3000}'
}

/// `token` occurs in `s` at position `i` as a whole whitespace-separated word.
pub open spec fn word_at(s: Seq<char>, token: Seq<char>, i: int) -> bool {
    &&& 0 <= i
    &&& i + token.len() <= s.len()
    &&& s.subrange(i, i + token.len()) == token
    &&& (i == 0 || is_white_space(s[i - 1]))
    &&& (i + token.len() == s.len() || is_white_space(s[i + token.len()]))
}

/// `token` is one of the words of `s` split at white space. For a non-empty
/// `token` without white space this is `s.split_whitespace().any(|w| w == token)`.
pub open spec fn has_word(s: Seq<char>, token: Seq<char>) -> bool {
    exists|i: int| word_at(s, token, i)
}

fn chars_of(s: &str) -> (chars: Vec<char>)
    ensures
        chars@ == s@,
{
    let n = s.unicode_len();
    let mut chars: Vec<char> = Vec::new();
    let mut i: usize = 0;
    while i < n
        invariant
            n == s@.len(),
            i <= n,
            chars@ == s@.subrange(0, i as int),
        decreases n - i,
    {
        chars.push(s.get_char(i));
        i = i + 1;
    }
    chars
}

fn matches_at(s: &Vec<char>, t: &Vec<char>, at: usize) -> (m: bool)
    requires
        at + t@.len() <= s@.len(),
    ensures
        m == (s@.subrange(at as int, at + t@.len()) == t@),
{
    let sl = s.len();
    let mut k: usize = 0;
    while k < t.len()
        invariant
            sl == s@.len(),
            at + t@.len() <= s@.len(),
            k <= t@.len(),
            forall|j: int| 0 <= j < k ==> s@[at + j] == t@[j],
        decreases t@.len() - k,
    {
        if s[at + k] != t[k] {
            assert(s@.subrange(at as int, at + t@.len())[k as int] != t@[k as int]);
            return false;
        }
        k = k + 1;
    }
    assert(s@.subrange(at as int, at + t@.len()) =~= t@);
    true
}

fn word_at_exec(chars: &Vec<char>, word: &Vec<char>, i: usize) -> (found: bool)
    requires
        i + word@.len() <= chars@.len(),
    ensures
        found == word_at(chars@, word@, i as int),
{
    let n = chars.len();
    let m = word.len();
    let before = i == 0 || is_white_space_char(chars[i - 1]);
    let after = i + m == n || is_white_space_char(chars[i + m]);
    before && after && matches_at(chars, word, i)
}

/// Whether `token` is one of the white-space-separated words of `s`.
pub fn contains_word(s: &str, token: &str) -> (found: bool)
    ensures
        found == has_word(s@, token@),
{
    let chars = chars_of(s);
    let word = chars_of(token);
    let n = chars.len();
    let m = word.len();
    if m > n {
        assert(!has_word(s@, token@));
        return false;
    }
    let last = n - m;
    let mut i: usize = 0;
    while i < last
        invariant
            chars@ == s@,
            word@ == token@,
            n == s@.len(),
            m == token@.len(),
            last == n - m,
            i <= last,
            forall|j: int| 0 <= j < i ==> !word_at(s@, token@, j),
        decreases last - i,
    {
        if word_at_exec(&chars, &word, i) {
            return true;
        }
        i = i + 1;
    }
    let found = word_at_exec(&chars, &word, last);
    assert(found ==> word_at(s@, token@, last as int));
    assert(!found ==> forall|j: int| !word_at(s@, token@, j)) by {
        if !found {
            assert forall|j: int| !word_at(s@, token@, j) by {
                if 0 <= j && j + m <= n && j != last {
                    assert(j < i);
                }
            }
        }
    }
    found
}

} // verus!

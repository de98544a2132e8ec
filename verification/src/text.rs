//! Text building blocks: decimal numerals, percent-encoding, white space and
//! lossy UTF-8 decoding.

use vstd::prelude::*;
use vstd::std_specs::iter::IteratorSpec;
use vstd::utf8::*;

verus! {

/// The decimal digit for `d`, for `d` below ten.
pub open spec fn digit_char(d: nat) -> char {
    if d == 0 {
        '0'
    } else if d == 1 {
        '1'
    } else if d == 2 {
        '2'
    } else if d == 3 {
        '3'
    } else if d == 4 {
        '4'
    } else if d == 5 {
        '5'
    } else if d == 6 {
        '6'
    } else if d == 7 {
        '7'
    } else if d == 8 {
        '8'
    } else {
        '9'
    }
}

/// The decimal numeral of `n`, without sign or leading zeros.
pub open spec fn decimal(n: nat) -> Seq<char>
    decreases n,
{
    if n < 10 {
        seq![digit_char(n)]
    } else {
        decimal(n / 10).push(digit_char(n % 10))
    }
}

fn digit_str(d: u32) -> (s: &'static str)
    requires
        d < 10,
    ensures
        s@ == seq![digit_char(d as nat)],
{
    proof {
        reveal_strlit("0");
        reveal_strlit("1");
        reveal_strlit("2");
        reveal_strlit("3");
        reveal_strlit("4");
        reveal_strlit("5");
        reveal_strlit("6");
        reveal_strlit("7");
        reveal_strlit("8");
        reveal_strlit("9");
    }
    let s = if d == 0 {
        "0"
    } else if d == 1 {
        "1"
    } else if d == 2 {
        "2"
    } else if d == 3 {
        "3"
    } else if d == 4 {
        "4"
    } else if d == 5 {
        "5"
    } else if d == 6 {
        "6"
    } else if d == 7 {
        "7"
    } else if d == 8 {
        "8"
    } else {
        "9"
    };
    assert(s@ =~= seq![digit_char(d as nat)]);
    s
}

/// Writes `n` as a decimal numeral.
pub fn decimal_text(n: u32) -> (text: String)
    ensures
        text@ == decimal(n as nat),
    decreases n,
{
    if n < 10 {
        String::from_str(digit_str(n))
    } else {
        let mut text = decimal_text(n / 10);
        text.append(digit_str(n % 10));
        assert(text@ =~= decimal((n / 10) as nat).push(digit_char((n % 10) as nat)));
        text
    }
}

/// The bytes that percent-encoding leaves as they are: ASCII letters and
/// digits, `-`, `.`, `_` and `~`.
pub open spec fn is_unreserved(byte: u8) -> bool {
    ||| 0x30 <= byte <= 0x39
    ||| 0x41 <= byte <= 0x5a
    ||| 0x61 <= byte <= 0x7a
    ||| byte == 0x2d
    ||| byte == 0x2e
    ||| byte == 0x5f
    ||| byte == 0x7e
}

/// The upper-case hexadecimal digit for `d`, for `d` below sixteen.
pub open spec fn hex_digit(d: u8) -> char {
    if d < 10 {
        (0x30 + d) as char
    } else {
        (0x37 + d) as char
    }
}

/// One byte, percent-encoded.
pub open spec fn encoded_byte(byte: u8) -> Seq<char> {
    if is_unreserved(byte) {
        seq![byte as char]
    } else {
        seq!['%', hex_digit(byte / 16), hex_digit(byte % 16)]
    }
}

/// A byte string, percent-encoded byte by byte.
pub open spec fn encoded_bytes(bytes: Seq<u8>) -> Seq<char>
    decreases bytes.len(),
{
    if bytes.len() == 0 {
        Seq::empty()
    } else {
        encoded_bytes(bytes.drop_last()) + encoded_byte(bytes.last())
    }
}

/// A text, percent-encoded: the encoding of its UTF-8 bytes.
pub open spec fn percent_encoded(text: Seq<char>) -> Seq<char> {
    encoded_bytes(encode_utf8(text))
}

/// Calls `urlencoding::encode`.  Trusted: the result is the UTF-8 bytes of
/// `text` in order, each unreserved byte as itself and every other byte as
/// `%` followed by its two upper-case hexadecimal digits.
#[verifier::external_body]
pub(crate) fn percent_encode(text: &str) -> (encoded: String)
    ensures
        encoded@ == percent_encoded(text@),
{
    urlencoding::encode(text).into_owned()
}

/// The characters that a percent-encoded text is made of: the unreserved
/// ones and `%`.  None of them ends or splits a query parameter.
pub open spec fn is_url_safe(c: char) -> bool {
    c == '%' || (c as u32 <= 0x7f && is_unreserved(c as u8))
}

/// A percent-encoded byte string holds only URL-safe characters, and at
/// least one and at most three for each byte.
pub proof fn lemma_encoded_bytes_are_url_safe(bytes: Seq<u8>)
    ensures
        forall|i: int|
            0 <= i < encoded_bytes(bytes).len() ==> is_url_safe(#[trigger] encoded_bytes(bytes)[i]),
        bytes.len() <= encoded_bytes(bytes).len() <= 3 * bytes.len(),
    decreases bytes.len(),
{
    if bytes.len() > 0 {
        let front = encoded_bytes(bytes.drop_last());
        let last = encoded_byte(bytes.last());
        lemma_encoded_bytes_are_url_safe(bytes.drop_last());
        assert forall|j: int| 0 <= j < last.len() implies is_url_safe(#[trigger] last[j]) by {
            let b = bytes.last();
            if !is_unreserved(b) {
                assert(b / 16 < 16 && b % 16 < 16);
                assert(is_url_safe(hex_digit(b / 16)));
                assert(is_url_safe(hex_digit(b % 16)));
            }
        }
        assert forall|i: int| 0 <= i < (front + last).len() implies is_url_safe(
            #[trigger] (front + last)[i],
        ) by {
            if i >= front.len() {
                assert((front + last)[i] == last[i - front.len()]);
            }
        }
    }
}

/// A percent-encoded text holds only URL-safe characters: whatever the text,
/// its encoding cannot end the parameter it stands in or begin another.
pub proof fn lemma_percent_encoded_is_url_safe(text: Seq<char>)
    ensures
        forall|i: int|
            0 <= i < percent_encoded(text).len() ==> is_url_safe(
                #[trigger] percent_encoded(text)[i],
            ),
        forall|i: int|
            0 <= i < percent_encoded(text).len() ==> {
                let c = #[trigger] percent_encoded(text)[i];
                c != '&' && c != '=' && c != '?' && c != '#' && c != '/' && c != ' ' && c != '+'
            },
{
    lemma_encoded_bytes_are_url_safe(encode_utf8(text));
}

/// Whether `c` has the Unicode property `White_Space`, as `char::is_whitespace`
/// decides it.
pub uninterp spec fn is_white_space(c: char) -> bool;

/// Calls `char::is_whitespace`.  Trusted: the answer depends on the character
/// alone.
#[verifier::external_body]
pub(crate) fn char_is_white_space(c: char) -> (white: bool)
    ensures
        white == is_white_space(c),
{
    c.is_whitespace()
}

/// A text is blank when nothing is left of it once leading and trailing white
/// space is removed: every character of it is white space.
pub open spec fn is_blank(text: Seq<char>) -> bool {
    forall|i: int| 0 <= i < text.len() ==> is_white_space(#[trigger] text[i])
}

/// Decides whether `text` is blank, in one pass over its characters.
pub fn blank(text: &str) -> (b: bool)
    ensures
        b == is_blank(text@),
{
    let mut rest = text.chars();
    let ghost mut seen: int = 0;
    loop
        invariant
            0 <= seen <= text@.len(),
            rest.obeys_prophetic_iter_laws(),
            rest.remaining() == text@.skip(seen),
            forall|j: int| 0 <= j < seen ==> is_white_space(#[trigger] text@[j]),
        decreases text@.len() - seen,
    {
        match rest.next() {
            None => {
                return true;
            },
            Some(c) => {
                assert(c == text@[seen]);
                if !char_is_white_space(c) {
                    return false;
                }
                proof {
                    assert(text@.skip(seen).drop_first() =~= text@.skip(seen + 1));
                    seen = seen + 1;
                }
            },
        }
    }
}

/// What `String::from_utf8_lossy` makes of bytes that are not valid UTF-8.
pub uninterp spec fn lossy_text(bytes: Seq<u8>) -> Seq<char>;

/// The text that a byte string is read as: what it encodes where it is valid
/// UTF-8, and otherwise what lossy decoding makes of it.
pub open spec fn bytes_text(bytes: Seq<u8>) -> Seq<char> {
    if valid_utf8(bytes) {
        decode_utf8(bytes)
    } else {
        lossy_text(bytes)
    }
}

/// Calls `String::from_utf8_lossy`.  Trusted: bytes that are valid UTF-8
/// decode to the text they encode, and what comes of other bytes depends on
/// the bytes alone.
#[verifier::external_body]
pub(crate) fn decode_lossy(bytes: &[u8]) -> (text: String)
    ensures
        text@ == (if valid_utf8(bytes@) {
            decode_utf8(bytes@)
        } else {
            lossy_text(bytes@)
        }),
{
    String::from_utf8_lossy(bytes).into_owned()
}

/// A text comes back unchanged from its own UTF-8 bytes.
pub proof fn lemma_bytes_text_of_encoding(text: Seq<char>)
    ensures
        bytes_text(encode_utf8(text)) == text,
{
    encode_utf8_valid_utf8(text);
    encode_utf8_decode_utf8(text);
}

/// Concatenates two texts.
pub fn concat2(a: &str, b: &str) -> (joined: String)
    ensures
        joined@ == a@ + b@,
{
    let mut joined = String::from_str(a);
    joined.append(b);
    joined
}

} // verus!

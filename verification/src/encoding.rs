use vstd::prelude::*;
use vstd::utf8::{encode_utf8, is_ascii_chars, valid_utf8};

verus! {

/// The lower-case hex digit of `v`, for `0 <= v < 16`.
pub open spec fn hex_digit(v: int) -> char {
    if v < 10 {
        (v + 48) as char
    } else {
        (v + 87) as char
    }
}

/// Two lower-case hex digits per byte, high nibble first.
pub open spec fn hex_lower(bytes: Seq<u8>) -> Seq<char>
    decreases bytes.len(),
{
    if bytes.len() == 0 {
        Seq::empty()
    } else {
        hex_lower(bytes.drop_last()) + seq![
            hex_digit((bytes.last() / 16) as int),
            hex_digit((bytes.last() % 16) as int),
        ]
    }
}

/// The upper-case hex digit of `v`, for `0 <= v < 16`.
pub open spec fn hex_digit_upper(v: int) -> char {
    if v < 10 {
        (v + 48) as char
    } else {
        (v + 55) as char
    }
}

/// Two upper-case hex digits per byte, high nibble first: what SQL's `hex()`
/// writes of a blob.
pub open spec fn hex_upper(bytes: Seq<u8>) -> Seq<char>
    decreases bytes.len(),
{
    if bytes.len() == 0 {
        Seq::empty()
    } else {
        hex_upper(bytes.drop_last()) + seq![
            hex_digit_upper((bytes.last() / 16) as int),
            hex_digit_upper((bytes.last() % 16) as int),
        ]
    }
}

/// Lower-case hex is ASCII, twice as long as the bytes, holds no comma, and
/// its ASCII upper-case form is the upper-case hex of the same bytes.
pub proof fn lemma_hex_lower(bytes: Seq<u8>)
    ensures
        hex_lower(bytes).len() == 2 * bytes.len(),
        is_ascii_chars(hex_lower(bytes)),
        !hex_lower(bytes).contains(','),
        ascii_upper(hex_lower(bytes)) == hex_upper(bytes),
    decreases bytes.len(),
{
    let h = hex_lower(bytes);
    if bytes.len() > 0 {
        let b = bytes.last();
        lemma_hex_lower(bytes.drop_last());
        let init = hex_lower(bytes.drop_last());
        let hi = hex_digit((b / 16) as int);
        let lo = hex_digit((b % 16) as int);
        assert(h == init + seq![hi, lo]);
        assert forall|i: int| 0 <= i < h.len() implies '\0' <= #[trigger] h[i] <= '\u{7f}' && h[i]
            != ',' by {
            if i < init.len() {
                assert(h[i] == init[i]);
                assert(init.contains(init[i]));
            }
        }
        assert(ascii_upper(h) =~= ascii_upper(init) + seq![
            hex_digit_upper((b / 16) as int),
            hex_digit_upper((b % 16) as int),
        ]);
    } else {
        assert(ascii_upper(h) =~= hex_upper(bytes));
    }
}

/// `hex::encode`: each byte becomes two lower-case hex digits, high nibble
/// first. Its source maps every byte through the table `0123456789abcdef`,
/// which is what the contract states.
#[verifier::external_body]
pub(crate) fn hex_encode(bytes: &[u8]) -> (r: String)
    ensures
        r@ == hex_lower(bytes@),
{
    hex::encode(bytes)
}

/// The upper-case form of a text, as `str::to_uppercase` computes it by the
/// Unicode case tables.
pub uninterp spec fn uppercase_of(s: Seq<char>) -> Seq<char>;

/// The upper-case form of an ASCII character: `a`-`z` become `A`-`Z`,
/// every other character stays.
pub open spec fn ascii_upper_char(c: char) -> char {
    if 'a' <= c <= 'z' {
        ((c as int) - 32) as char
    } else {
        c
    }
}

/// Each character in its ASCII upper-case form.
pub open spec fn ascii_upper(s: Seq<char>) -> Seq<char> {
    Seq::new(s.len(), |i: int| ascii_upper_char(s[i]))
}

/// `str::to_uppercase`. Its result depends on the text alone and is named
/// `uppercase_of`. Of the mapping, only what the Unicode Uppercase property
/// that its documentation names gives for ASCII text is stated: `a`-`z`
/// become `A`-`Z`, and every other ASCII character stays as it is. What it
/// maps other characters to is not stated.
#[verifier::external_body]
pub(crate) fn to_uppercase(s: &str) -> (r: String)
    ensures
        r@ == uppercase_of(s@),
        is_ascii_chars(s@) ==> r@ == ascii_upper(s@),
{
    s.to_uppercase()
}

/// `String::from_utf8`: text exactly when the bytes are valid UTF-8, and then
/// a text whose UTF-8 encoding is those bytes.
#[verifier::external_body]
pub(crate) fn utf8_text(bytes: Vec<u8>) -> (r: Option<String>)
    ensures
        r is Some <==> valid_utf8(bytes@),
        r matches Some(t) ==> encode_utf8(t@) == bytes@,
{
    match String::from_utf8(bytes) {
        Ok(t) => Some(t),
        Err(_) => None,
    }
}

/// The pattern `text.to_uppercase() + "%"`, which SQL `LIKE` matches against
/// every value that starts with the upper-cased text.
pub open spec fn prefix_pattern(text: Seq<char>) -> Seq<char> {
    uppercase_of(text) + seq!['%']
}

/// Builds the `LIKE` pattern `format!("{}%", text.to_uppercase())`.
pub fn like_prefix(text: &str) -> (r: String)
    ensures
        r@ == prefix_pattern(text@),
        is_ascii_chars(text@) ==> r@ == ascii_upper(text@) + seq!['%'],
{
    let mut p = to_uppercase(text);
    proof {
        reveal_strlit("%");
    }
    p.append("%");
    p
}

} // verus!

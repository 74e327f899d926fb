//! Text helpers: padding, case conversion, ANSI stripping and UTF-8 decoding.
use convert_case::Casing;
use vstd::prelude::*;
use vstd::utf8::{decode_utf8, encode_utf8, valid_utf8};

verus! {

/// `s` padded on the right with spaces to at least `width` characters.
pub open spec fn padded(s: Seq<char>, width: nat) -> Seq<char> {
    if s.len() >= width {
        s
    } else {
        s + spaces((width - s.len()) as nat)
    }
}

/// The view of an optional text.
pub open spec fn text_view(t: Option<String>) -> Option<Seq<char>> {
    match t {
        Some(s) => Some(s@),
        None => None,
    }
}

/// `n` spaces.
pub open spec fn spaces(n: nat) -> Seq<char> {
    Seq::new(n, |i: int| ' ')
}

/// Left-aligns `s` in a column of `width` characters, as `{:<width}` formatting does.
pub fn pad_right(s: &str, width: usize) -> (r: String)
    ensures
        r@ == padded(s@, width as nat),
{
    let mut out = String::from_str(s);
    let len = s.unicode_len();
    if len >= width {
        return out;
    }
    let mut i = len;
    proof {
        reveal_strlit(" ");
        assert(out@ =~= s@ + spaces(0));
    }
    while i < width
        invariant
            len == s@.len(),
            len <= i <= width,
            out@ == s@ + spaces((i - len) as nat),
        decreases width - i,
    {
        out.append(" ");
        proof {
            reveal_strlit(" ");
            assert(spaces((i - len) as nat).push(' ') =~= spaces((i + 1 - len) as nat));
            assert(out@ =~= s@ + spaces((i + 1 - len) as nat));
        }
        i = i + 1;
    }
    out
}

/// What `convert_case` makes of a text in `Case::Pascal`.
pub uninterp spec fn pascal_case(s: Seq<char>) -> Seq<char>;

/// What `convert_case` makes of a text in `Case::Lower`.
pub uninterp spec fn lower_case(s: Seq<char>) -> Seq<char>;

/// What `str::to_lowercase` makes of a text (Unicode lowercase mapping).
pub uninterp spec fn unicode_lowercase(s: Seq<char>) -> Seq<char>;

/// What `strip_ansi_escapes::strip` leaves of a byte string.
pub uninterp spec fn ansi_stripped(bytes: Seq<u8>) -> Seq<u8>;

/// Calls `convert_case`'s `to_case(Case::Pascal)`; the result is a function of the text alone.
#[verifier::external_body]
pub(crate) fn to_pascal_case(s: &str) -> (r: String)
    ensures
        r@ == pascal_case(s@),
{
    s.to_case(convert_case::Case::Pascal)
}

/// Calls `convert_case`'s `to_case(Case::Lower)`; the result is a function of the text alone.
#[verifier::external_body]
pub(crate) fn to_lower_case(s: &str) -> (r: String)
    ensures
        r@ == lower_case(s@),
{
    s.to_case(convert_case::Case::Lower)
}

/// Calls `str::to_lowercase`; the result is a function of the text alone.
#[verifier::external_body]
pub(crate) fn to_unicode_lowercase(s: &str) -> (r: String)
    ensures
        r@ == unicode_lowercase(s@),
{
    s.to_lowercase()
}

/// Calls `strip_ansi_escapes::strip` on the UTF-8 bytes of `s`; the result is a
/// function of those bytes alone.
#[verifier::external_body]
pub(crate) fn strip_ansi(s: &str) -> (r: Vec<u8>)
    ensures
        r@ == ansi_stripped(encode_utf8(s@)),
{
    strip_ansi_escapes::strip(s)
}

/// Calls `String::from_utf8`, which succeeds exactly on valid UTF-8 and then
/// holds the decoded characters.
#[verifier::external_body]
pub(crate) fn utf8_to_string(bytes: Vec<u8>) -> (r: Option<String>)
    ensures
        r is Some <==> valid_utf8(bytes@),
        r matches Some(s) ==> s@ == decode_utf8(bytes@),
{
    String::from_utf8(bytes).ok()
}

/// The text of a message with its ANSI escape sequences removed, or the
/// message as it is where the stripped bytes are not valid UTF-8.
pub open spec fn cleaned(message: Seq<char>, stripped: Seq<u8>) -> Seq<char> {
    if valid_utf8(stripped) {
        decode_utf8(stripped)
    } else {
        message
    }
}

/// Removes ANSI escape sequences from a message.
pub fn strip_message(message: &str) -> (r: String)
    ensures
        r@ == cleaned(message@, ansi_stripped(encode_utf8(message@))),
{
    let bytes = strip_ansi(message);
    match utf8_to_string(bytes) {
        Some(cleaned) => cleaned,
        None => String::from_str(message),
    }
}

} // verus!

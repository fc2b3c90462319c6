//! Text fields of the wire format. Name fields are decoded tolerantly —
//! invalid sequences become the replacement character rather than an error —
//! and every embedded null unit and every `%` sentinel is then removed,
//! wherever in the field it occurs.

use crate::wire::read_wide_units;
use crate::wire::wide_units_of;
use vstd::prelude::*;

verus! {

/// The replacement-tolerant decoding of a byte sequence as narrow text.
pub uninterp spec fn utf8_lossy_decode(bytes: Seq<u8>) -> Seq<char>;

/// The replacement-tolerant decoding of 16-bit code units as wide text.
pub uninterp spec fn utf16_lossy_decode(units: Seq<u16>) -> Seq<char>;

/// Holds for the characters that decoded text keeps; null units and the `%`
/// sentinel, which the upstream protocol uses as padding and separators, are
/// removed.
pub open spec fn keep_char(c: char) -> bool {
    c != '\0' && c != '%'
}

/// Decoded text with every null unit and every `%` sentinel removed, in order.
pub open spec fn strip_sentinels(s: Seq<char>) -> Seq<char>
    decreases s.len(),
{
    if s.len() == 0 {
        Seq::empty()
    } else if keep_char(s.last()) {
        strip_sentinels(s.drop_last()).push(s.last())
    } else {
        strip_sentinels(s.drop_last())
    }
}

/// What a narrow text field decodes to: tolerant narrow-text decoding of the
/// raw bytes, then sentinel stripping.
pub open spec fn narrow_text_of(bytes: Seq<u8>) -> Seq<char> {
    strip_sentinels(utf8_lossy_decode(bytes))
}

/// What a wide text field decodes to: each consecutive byte pair read as one
/// little-endian 16-bit code unit, tolerant wide-text decoding, then sentinel
/// stripping.
pub open spec fn wide_text_of(bytes: Seq<u8>) -> Seq<char> {
    strip_sentinels(utf16_lossy_decode(wide_units_of(bytes)))
}

/// No character of stripped text is a null unit or the `%` sentinel.
pub proof fn lemma_strip_sentinels_clean(s: Seq<char>)
    ensures
        forall|i: int|
            0 <= i < strip_sentinels(s).len() ==> keep_char(#[trigger] strip_sentinels(s)[i]),
    decreases s.len(),
{
    if s.len() > 0 {
        lemma_strip_sentinels_clean(s.drop_last());
        let rest = strip_sentinels(s.drop_last());
        if keep_char(s.last()) {
            assert forall|i: int| 0 <= i < strip_sentinels(s).len() implies keep_char(
                strip_sentinels(s)[i],
            ) by {
                if i < rest.len() {
                    assert(strip_sentinels(s)[i] == rest[i]);
                } else {
                    assert(strip_sentinels(s)[i] == s.last());
                }
            }
        }
    }
}

/// Relies on `String::from_utf8_lossy`: the decoding depends on the bytes
/// alone, replacing invalid sequences with the replacement character.
#[verifier::external_body]
fn utf8_lossy_chars(buf: &[u8]) -> (r: Vec<char>)
    ensures
        r@ == utf8_lossy_decode(buf@),
{
    String::from_utf8_lossy(buf).chars().collect()
}

/// Relies on `String::from_utf16_lossy`: the decoding depends on the code
/// units alone, replacing invalid data with the replacement character.
#[verifier::external_body]
fn utf16_lossy_chars(units: &[u16]) -> (r: Vec<char>)
    ensures
        r@ == utf16_lossy_decode(units@),
{
    String::from_utf16_lossy(units).chars().collect()
}

/// Relies on `String`'s `FromIterator<&char>`: collecting characters yields
/// the string of exactly those characters, in order.
#[verifier::external_body]
fn chars_to_string(chars: &Vec<char>) -> (r: String)
    ensures
        r@ == chars@,
{
    chars.iter().collect()
}

/// Removes every null unit and every `%` sentinel, keeping the rest in order.
pub fn strip_text_sentinels(chars: &Vec<char>) -> (r: Vec<char>)
    ensures
        r@ == strip_sentinels(chars@),
{
    let mut out: Vec<char> = Vec::new();
    let mut i: usize = 0;
    while i < chars.len()
        invariant
            i <= chars@.len(),
            out@ == strip_sentinels(chars@.subrange(0, i as int)),
        decreases chars@.len() - i,
    {
        let c = chars[i];
        proof {
            let prefix = chars@.subrange(0, i + 1);
            assert(prefix.drop_last() =~= chars@.subrange(0, i as int));
            assert(prefix.last() == chars@[i as int]);
        }
        if c != '\0' && c != '%' {
            out.push(c);
        }
        i += 1;
    }
    proof {
        assert(chars@.subrange(0, chars@.len() as int) =~= chars@);
    }
    out
}

/// Decodes a narrow text field: the bytes are read as replacement-tolerant
/// narrow text, and every null and `%` sentinel is removed wherever it
/// stands, not only at the edges.
pub fn parse_utf8_chars(buf: &[u8]) -> (r: String)
    ensures
        r@ == narrow_text_of(buf@),
        forall|i: int| 0 <= i < r@.len() ==> r@[i] != '\0' && r@[i] != '%',
{
    let chars = utf8_lossy_chars(buf);
    let kept = strip_text_sentinels(&chars);
    proof {
        lemma_strip_sentinels_clean(chars@);
    }
    chars_to_string(&kept)
}

/// Decodes a wide text field: each consecutive pair of bytes is one
/// little-endian 16-bit code unit, the units are read as replacement-tolerant
/// wide text, and every null and `%` sentinel is removed wherever it stands.
pub fn parse_to_utf16_chars(buf: &[u8]) -> (r: String)
    ensures
        r@ == wide_text_of(buf@),
        forall|i: int| 0 <= i < r@.len() ==> r@[i] != '\0' && r@[i] != '%',
{
    let units = read_wide_units(buf);
    let chars = utf16_lossy_chars(units.as_slice());
    let kept = strip_text_sentinels(&chars);
    proof {
        lemma_strip_sentinels_clean(chars@);
    }
    chars_to_string(&kept)
}

} // verus!

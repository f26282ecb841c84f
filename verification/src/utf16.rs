//! UTF-16 as the foreign process stores text: how text becomes code units,
//! and which sequences of code units are text.

use vstd::prelude::*;

verus! {

/// Whether `unit` is the first half of a surrogate pair.
pub open spec fn is_high_surrogate(unit: u16) -> bool {
    0xD800 <= unit <= 0xDBFF
}

/// Whether `unit` is the second half of a surrogate pair.
pub open spec fn is_low_surrogate(unit: u16) -> bool {
    0xDC00 <= unit <= 0xDFFF
}

/// Whether `unit` cannot stand for a character by itself.
pub open spec fn is_surrogate(unit: u16) -> bool {
    0xD800 <= unit <= 0xDFFF
}

/// The code units of one character: itself if it fits in sixteen bits, else
/// a surrogate pair that carries its upper and lower ten bits.
pub open spec fn spec_encode_char(c: char) -> Seq<u16> {
    let scalar = c as u32;
    if scalar < 0x10000 {
        seq![scalar as u16]
    } else {
        seq![
            (0xD800 + (scalar - 0x10000) / 0x400) as u16,
            (0xDC00 + (scalar - 0x10000) % 0x400) as u16,
        ]
    }
}

/// The code units of a text: those of its characters, in order.
pub open spec fn spec_encode(text: Seq<char>) -> Seq<u16>
    decreases text.len(),
{
    if text.len() == 0 {
        Seq::empty()
    } else {
        spec_encode_char(text[0]) + spec_encode(text.drop_first())
    }
}

/// The scalar value that the surrogate pair `high`, `low` stands for.
pub open spec fn spec_join_surrogates(high: u16, low: u16) -> u32 {
    (0x10000 + (high - 0xD800) * 0x400 + (low - 0xDC00)) as u32
}

/// The text that `units` stand for, or `None` if some surrogate in them is
/// not part of a pair.
pub open spec fn spec_decode(units: Seq<u16>) -> Option<Seq<char>>
    decreases units.len(),
{
    if units.len() == 0 {
        Some(Seq::empty())
    } else if !is_surrogate(units[0]) {
        match spec_decode(units.drop_first()) {
            Some(rest) => Some(seq![units[0] as char] + rest),
            None => None,
        }
    } else if is_high_surrogate(units[0]) && units.len() >= 2 && is_low_surrogate(units[1]) {
        match spec_decode(units.skip(2)) {
            Some(rest) => Some(seq![spec_join_surrogates(units[0], units[1]) as char] + rest),
            None => None,
        }
    } else {
        None
    }
}

/// Decoding what one character was encoded to, followed by anything, gives
/// that character followed by what the rest decodes to.
pub proof fn lemma_decode_after_char(c: char, tail: Seq<u16>)
    ensures
        spec_decode(spec_encode_char(c) + tail) == match spec_decode(tail) {
            Some(rest) => Some(seq![c] + rest),
            None => None,
        },
{
    let units = spec_encode_char(c) + tail;
    let scalar = c as u32;
    if scalar < 0x10000 {
        assert(units[0] == scalar as u16);
        assert(units.drop_first() =~= tail);
        assert(units[0] as char == c);
    } else {
        assert(units.skip(2) =~= tail);
        assert(spec_join_surrogates(units[0], units[1]) == scalar);
    }
}

/// Every text comes back unchanged from its code units.
pub proof fn lemma_decode_inverts_encode(text: Seq<char>)
    ensures
        spec_decode(spec_encode(text)) == Some(text),
    decreases text.len(),
{
    if text.len() > 0 {
        lemma_decode_inverts_encode(text.drop_first());
        lemma_decode_after_char(text[0], spec_encode(text.drop_first()));
        assert(seq![text[0]] + text.drop_first() =~= text);
    }
}

/// Code units that stand for a text are exactly the code units of that
/// text: no text has two encodings.
pub proof fn lemma_encode_inverts_decode(units: Seq<u16>)
    requires
        spec_decode(units) is Some,
    ensures
        spec_encode(spec_decode(units)->0) == units,
    decreases units.len(),
{
    if units.len() > 0 {
        let text = spec_decode(units)->0;
        if !is_surrogate(units[0]) {
            let rest = units.drop_first();
            lemma_encode_inverts_decode(rest);
            assert(text.drop_first() =~= spec_decode(rest)->0);
            assert(spec_encode_char(text[0]) =~= seq![units[0]]);
            assert(seq![units[0]] + rest =~= units);
        } else {
            let rest = units.skip(2);
            lemma_encode_inverts_decode(rest);
            assert(text.drop_first() =~= spec_decode(rest)->0);
            assert(spec_encode_char(text[0]) =~= seq![units[0], units[1]]);
            assert(seq![units[0], units[1]] + rest =~= units);
        }
    }
}

/// Whether `scalar` is the value of some character.
pub open spec fn is_scalar_value(scalar: u32) -> bool {
    scalar < 0xD800 || 0xE000 <= scalar <= 0x10FFFF
}

/// `char::from_u32` of the standard library: the character whose value is
/// `scalar`, or `None` where no character has that value.
#[verifier::external_body]
fn char_from_u32(scalar: u32) -> (c: Option<char>)
    ensures
        is_scalar_value(scalar) ==> c == Some(scalar as char),
        !is_scalar_value(scalar) ==> c is None,
{
    char::from_u32(scalar)
}

/// `String::push` of the standard library: appends `c` to `text`.
#[verifier::external_body]
pub(crate) fn string_push(text: &mut String, c: char)
    ensures
        final(text)@ == old(text)@.push(c),
{
    text.push(c)
}

/// Encodes `text` as UTF-16 code units.
pub fn encode(text: &str) -> (units: Vec<u16>)
    ensures
        units@ == spec_encode(text@),
{
    let mut units: Vec<u16> = Vec::new();
    assert(text@.skip(0) =~= text@);
    assert(units@ + spec_encode(text@) =~= spec_encode(text@));
    for c in it: text.chars()
        invariant
            it.seq() == text@,
            spec_encode(text@) == units@ + spec_encode(text@.skip(it.index())),
    {
        let scalar = c as u32;
        proof {
            let rest = text@.skip(it.index());
            assert(rest[0] == c);
            assert(rest.drop_first() =~= text@.skip(it.index() + 1));
        }
        if scalar < 0x10000 {
            units.push(scalar as u16);
        } else {
            let offset = scalar - 0x10000;
            units.push((0xD800 + offset / 0x400) as u16);
            units.push((0xDC00 + offset % 0x400) as u16);
        }
        assert(spec_encode(text@) =~= units@ + spec_encode(text@.skip(it.index() + 1)));
    }
    assert(text@.skip(text@.len() as int) =~= Seq::<char>::empty());
    units
}

/// Decodes UTF-16 code units into text. Fails if any surrogate among them is
/// not part of a pair; nothing is skipped or replaced.
pub fn decode(units: &Vec<u16>) -> (text: Option<String>)
    ensures
        text is Some <==> spec_decode(units@) is Some,
        text is Some ==> Some(text->0@) == spec_decode(units@),
{
    let mut text = String::new();
    let mut i: usize = 0;
    assert(units@.skip(0) =~= units@);
    assert(text@ + spec_decode(units@)->0 =~= spec_decode(units@)->0);
    while i < units.len()
        invariant
            i <= units.len(),
            spec_decode(units@) == match spec_decode(units@.skip(i as int)) {
                Some(rest) => Some(text@ + rest),
                None => None,
            },
        decreases units.len() - i,
    {
        let ghost before = text@;
        let ghost pending = units@.skip(i as int);
        let unit = units[i];
        assert(pending[0] == unit);
        if unit < 0xD800 || unit > 0xDFFF {
            let c = char_from_u32(unit as u32).unwrap();
            string_push(&mut text, c);
            i += 1;
            proof {
                assert(pending.drop_first() =~= units@.skip(i as int));
                if let Some(rest) = spec_decode(units@.skip(i as int)) {
                    assert(before + (seq![c] + rest) =~= text@ + rest);
                }
            }
        } else if unit <= 0xDBFF && i + 1 < units.len() && 0xDC00 <= units[i + 1] && units[i + 1]
            <= 0xDFFF {
            let low = units[i + 1];
            assert(pending[1] == low);
            let scalar: u32 = 0x10000 + (unit as u32 - 0xD800) * 0x400 + (low as u32 - 0xDC00);
            let c = char_from_u32(scalar).unwrap();
            string_push(&mut text, c);
            i += 2;
            proof {
                assert(pending.skip(2) =~= units@.skip(i as int));
                if let Some(rest) = spec_decode(units@.skip(i as int)) {
                    assert(before + (seq![c] + rest) =~= text@ + rest);
                }
            }
        } else {
            return None;
        }
    }
    assert(units@.skip(i as int) =~= Seq::<u16>::empty());
    assert(text@ + Seq::<char>::empty() =~= text@);
    Some(text)
}

} // verus!

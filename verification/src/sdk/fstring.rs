//! The foreign string: a foreign array of signed 16-bit words that hold
//! UTF-16 code units. A string built here ends in a zero word; one copied
//! from the foreign process is taken as it is.

use vstd::prelude::*;
use crate::sdk::array::TArray;
use crate::utf16::{
    decode, encode, lemma_decode_inverts_encode, spec_decode, spec_encode, string_push,
};

verus! {

/// The signed word with the same sixteen bits as `unit`.
pub open spec fn spec_to_signed(unit: u16) -> i16 {
    if unit < 0x8000 {
        unit as i16
    } else {
        (unit - 0x10000) as i16
    }
}

/// The code unit with the same sixteen bits as `word`.
pub open spec fn spec_to_unsigned(word: i16) -> u16 {
    if word >= 0 {
        word as u16
    } else {
        (word + 0x10000) as u16
    }
}

/// `text` with a terminating null character, added unless it is there.
pub open spec fn spec_terminated(text: Seq<char>) -> Seq<char> {
    if text.len() > 0 && text.last() == '\0' {
        text
    } else {
        text.push('\0')
    }
}

/// The code units that the foreign process is given for `text`.
pub open spec fn spec_foreign_units(text: Seq<char>) -> Seq<u16> {
    spec_encode(spec_terminated(text))
}

/// The words of a foreign string do not stand for text.
#[derive(Clone, Copy, Debug, PartialEq, Eq)]
pub struct DecodeError;

/// Text as the foreign process holds it.
#[derive(Clone, Debug)]
pub struct FString(pub TArray<i16>);

impl View for FString {
    type V = Seq<u16>;

    /// The code units of the string, terminator included.
    open spec fn view(&self) -> Seq<u16> {
        self.0@.map_values(|word: i16| spec_to_unsigned(word))
    }
}

/// Whether `text` ends in the character `c`.
fn ends_with_char(text: &str, c: char) -> (found: bool)
    ensures
        found == (text@.len() > 0 && text@.last() == c),
{
    let mut found = false;
    for current in it: text.chars()
        invariant
            it.seq() == text@,
            found == (it.index() > 0 && text@[it.index() - 1] == c),
    {
        found = current == c;
    }
    found
}

/// The code units for `value`, terminator included.
fn terminated_units(value: String) -> (units: Vec<u16>)
    ensures
        units@ == spec_foreign_units(value@),
{
    let mut value = value;
    if !ends_with_char(value.as_str(), '\0') {
        string_push(&mut value, '\0');
    }
    encode(value.as_str())
}

/// The foreign string that holds exactly `units`.
fn from_units(units: Vec<u16>) -> (string: FString)
    requires
        units.len() <= i32::MAX,
    ensures
        string@ == units@,
        string@.len() <= string.0.spec_capacity() <= i32::MAX,
{
    let mut words: Vec<i16> = Vec::with_capacity(units.len());
    let mut i: usize = 0;
    while i < units.len()
        invariant
            i <= units.len(),
            words@.len() == i,
            forall|j: int| 0 <= j < i ==> #[trigger] words@[j] == spec_to_signed(units@[j]),
        decreases units.len() - i,
    {
        let unit = units[i];
        let word = if unit < 0x8000 {
            unit as i16
        } else {
            (unit as i32 - 0x10000) as i16
        };
        words.push(word);
        i += 1;
    }
    let string = FString(TArray::from(words));
    assert(string@ =~= units@);
    string
}

impl FString {
    /// Builds the foreign string for `value`: its UTF-16 code units, ending
    /// in a null unit that is added unless `value` already ends in one.
    pub fn from_string(value: String) -> (string: FString)
        requires
            spec_foreign_units(value@).len() <= i32::MAX,
        ensures
            string@ == spec_foreign_units(value@),
            string@.len() <= string.0.spec_capacity() <= i32::MAX,
    {
        from_units(terminated_units(value))
    }

    /// Builds the foreign string for `value` as `from_string` does, or
    /// nothing if its code units are more than the foreign count can tell.
    pub fn try_from_string(value: String) -> (string: Option<FString>)
        ensures
            string is Some <==> spec_foreign_units(value@).len() <= i32::MAX,
            string is Some ==> string->0@ == spec_foreign_units(value@),
            string matches Some(s) ==> s@.len() <= s.0.spec_capacity() <= i32::MAX,
    {
        let units = terminated_units(value);
        if units.len() > i32::MAX as usize {
            None
        } else {
            Some(from_units(units))
        }
    }

    /// Reads the string back as text, terminator included. Fails if the
    /// words hold a surrogate that is not part of a pair.
    pub fn decode(&self) -> (text: Result<String, DecodeError>)
        ensures
            text is Ok <==> spec_decode(self@) is Some,
            text is Ok ==> Some(text->Ok_0@) == spec_decode(self@),
    {
        let mut units: Vec<u16> = Vec::with_capacity(self.0.len());
        let mut i: usize = 0;
        while i < self.0.len()
            invariant
                i <= self.0@.len(),
                units@.len() == i,
                forall|j: int| 0 <= j < i ==> #[trigger] units@[j] == spec_to_unsigned(self.0@[j]),
            decreases self.0@.len() - i,
        {
            if let Some(word) = self.0.get(i) {
                let word: i16 = *word;
                let unit = if word >= 0 {
                    word as u16
                } else {
                    (word as i32 + 0x10000) as u16
                };
                units.push(unit);
            }
            i += 1;
        }
        assert(units@ =~= self@);
        match decode(&units) {
            Some(text) => Ok(text),
            None => Err(DecodeError),
        }
    }
}

/// What is read back from the foreign string built for a text is that text
/// with its terminator.
pub proof fn lemma_round_trip_adds_terminator(text: Seq<char>)
    ensures
        spec_decode(spec_foreign_units(text)) == Some(spec_terminated(text)),
{
    lemma_decode_inverts_encode(spec_terminated(text));
}

/// A text that ends in the null character comes back unchanged from the
/// foreign string built for it.
pub proof fn lemma_terminated_text_round_trips(text: Seq<char>)
    requires
        text.len() > 0,
        text.last() == '\0',
    ensures
        spec_decode(spec_foreign_units(text)) == Some(text),
{
    lemma_round_trip_adds_terminator(text);
}

/// A text never needs more than two code units for each of its characters.
pub proof fn lemma_encoded_length(text: Seq<char>)
    ensures
        text.len() <= spec_encode(text).len() <= 2 * text.len(),
    decreases text.len(),
{
    if text.len() > 0 {
        lemma_encoded_length(text.drop_first());
    }
}

/// A text of fewer than 2^30 - 1 characters always fits a foreign string,
/// terminator included.
pub proof fn lemma_short_text_fits(text: Seq<char>)
    requires
        text.len() <= 0x3FFF_FFFE,
    ensures
        spec_foreign_units(text).len() <= i32::MAX,
{
    lemma_encoded_length(spec_terminated(text));
}

} // verus!

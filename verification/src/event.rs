//! Calendar events and the colour they are drawn in.

use crate::date::Date;
use crate::error::{BambooError, ErrorType};
use std::str::FromStr;
use vstd::prelude::*;
use vstd::string::StrSliceExecFns;

verus! {

/// The character for one hexadecimal digit.
pub open spec fn hex_digit(value: u8) -> char {
    if value == 0 {
        '0'
    } else if value == 1 {
        '1'
    } else if value == 2 {
        '2'
    } else if value == 3 {
        '3'
    } else if value == 4 {
        '4'
    } else if value == 5 {
        '5'
    } else if value == 6 {
        '6'
    } else if value == 7 {
        '7'
    } else if value == 8 {
        '8'
    } else if value == 9 {
        '9'
    } else if value == 10 {
        'a'
    } else if value == 11 {
        'b'
    } else if value == 12 {
        'c'
    } else if value == 13 {
        'd'
    } else if value == 14 {
        'e'
    } else {
        'f'
    }
}

/// The CSS hex notation of an opaque colour: a hash sign and two digits for
/// each channel, or one for each where every channel has the same digit
/// twice.
pub open spec fn hex_notation(red: u8, green: u8, blue: u8) -> Seq<char> {
    if red / 16 == red % 16 && green / 16 == green % 16 && blue / 16 == blue % 16 {
        seq!['#', hex_digit(red % 16), hex_digit(green % 16), hex_digit(blue % 16)]
    } else {
        seq![
            '#',
            hex_digit(red / 16),
            hex_digit(red % 16),
            hex_digit(green / 16),
            hex_digit(green % 16),
            hex_digit(blue / 16),
            hex_digit(blue % 16),
        ]
    }
}

/// The channels color-art reads out of a piece of CSS colour text, if it can
/// read it at all. It is asked only about the notations that
/// `is_readable_notation` admits.
pub uninterp spec fn parsed_channels(text: Seq<char>) -> Option<(u8, u8, u8)>;

/// `color_art::Color::from_rgb` followed by `Color::hex`.
/// Assumed, as color-art's source has it: `from_rgb` accepts every channel
/// value a byte can hold, and `hex` writes the colour in lower case and in
/// the short form where there is one.
#[verifier::external_body]
fn color_art_hex(red: u8, green: u8, blue: u8) -> (hex: String)
    ensures
        hex@ == hex_notation(red, green, blue),
{
    color_art::Color::from_rgb(red, green, blue).unwrap().hex()
}

/// Whether trimming removes this character from the ends of a text.
pub open spec fn is_space(c: char) -> bool {
    ||| '\u{9}' <= c <= '\u{d}'
    ||| c == ' '
    ||| c == '\u{85}'
    ||| c == '\u{a0}'
    ||| c == '\u{1680}'
    ||| '\u{2000}' <= c <= '\u{200a}'
    ||| c == '\u{2028}'
    ||| c == '\u{2029}'
    ||| c == '\u{202f}'
    ||| c == '\u{205f}'
    ||| c == '\u{3000}'
}

/// Whether the character is a hexadecimal digit, in either case.
pub open spec fn is_hex_digit(c: char) -> bool {
    ||| '0' <= c <= '9'
    ||| 'a' <= c <= 'f'
    ||| 'A' <= c <= 'F'
}

/// Whether the text, from `start` on, is a hash sign and four hexadecimal
/// digits, with nothing but blank space before and behind.
pub open spec fn is_four_digit_hex_at(text: Seq<char>, start: int) -> bool {
    &&& 0 <= start
    &&& start + 5 <= text.len()
    &&& forall|i: int| 0 <= i < start ==> is_space(#[trigger] text[i])
    &&& text[start] == '#'
    &&& is_hex_digit(text[start + 1])
    &&& is_hex_digit(text[start + 2])
    &&& is_hex_digit(text[start + 3])
    &&& is_hex_digit(text[start + 4])
    &&& forall|i: int| start + 5 <= i < text.len() ==> is_space(#[trigger] text[i])
}

/// Whether the text is, but for blank space around it, a hash sign and four
/// hexadecimal digits: the short notation of a colour with an alpha
/// channel, which is the one notation color-art does not get through.
pub open spec fn is_four_digit_hex(text: Seq<char>) -> bool {
    exists|start: int| is_four_digit_hex_at(text, start)
}

/// Whether the character is a decimal digit.
pub open spec fn is_digit(c: char) -> bool {
    '0' <= c <= '9'
}

/// Whether the character is one of the letters of `rgb` and `rgba`, in
/// either case.
pub open spec fn is_rgba_letter(c: char) -> bool {
    ||| c == 'r' || c == 'R'
    ||| c == 'g' || c == 'G'
    ||| c == 'b' || c == 'B'
    ||| c == 'a' || c == 'A'
}

/// Whether the character may stand in a text that gives a colour by its
/// red, green and blue: a character of ASCII that, if it is a letter, is
/// one of the letters of `rgb` and `rgba`.
pub open spec fn is_rgb_character(c: char) -> bool {
    &&& c <= '\u{7f}'
    &&& ('a' <= c <= 'z' || 'A' <= c <= 'Z') ==> is_rgba_letter(c)
}

/// Whether the text has a hash sign at `start` and only blank space before.
pub open spec fn is_hash_at(text: Seq<char>, start: int) -> bool {
    &&& 0 <= start < text.len()
    &&& forall|i: int| 0 <= i < start ==> is_space(#[trigger] text[i])
    &&& text[start] == '#'
}

/// Whether the first character of the text that is not blank space is a
/// hash sign.
pub open spec fn starts_with_hash(text: Seq<char>) -> bool {
    exists|start: int| is_hash_at(text, start)
}

/// Whether the text has no decimal digit.
pub open spec fn has_no_digit(text: Seq<char>) -> bool {
    forall|i: int| 0 <= i < text.len() ==> !is_digit(#[trigger] text[i])
}

/// Whether every character of the text may stand in a text that gives a
/// colour by its red, green and blue.
pub open spec fn is_plain_rgb(text: Seq<char>) -> bool {
    forall|i: int| 0 <= i < text.len() ==> is_rgb_character(#[trigger] text[i])
}

/// Whether the text is in a notation that is handed to color-art: hex
/// notation other than the one with four digits, a text without any digit,
/// which can only be a colour's name, or a text that can name no way of
/// giving a colour but by red, green and blue. Every other notation counts
/// as unreadable: color-art converts the others by steps that are not
/// defined for every number it lets in.
pub open spec fn is_readable_notation(text: Seq<char>) -> bool {
    if starts_with_hash(text) {
        !is_four_digit_hex(text)
    } else {
        has_no_digit(text) || is_plain_rgb(text)
    }
}

/// The channels read out of a piece of CSS colour text, if it can be read.
pub open spec fn readable_channels(text: Seq<char>) -> Option<(u8, u8, u8)> {
    if is_readable_notation(text) {
        parsed_channels(text)
    } else {
        None
    }
}

/// `color_art::Color::from_str`, read back through `red`, `green` and `blue`.
/// Assumed: whether the text is understood, and the channels it stands for,
/// depend on the text only. It is handed hex notation, names and texts that
/// can only be `rgb` or `rgba` notation, and nothing else: a hash sign with
/// four digits makes it read beyond the text's end, and its conversions
/// from hue fail on a hue of 360, which it lets in.
#[verifier::external_body]
fn color_art_parse(text: &str) -> (channels: Option<(u8, u8, u8)>)
    requires
        is_readable_notation(text@),
    ensures
        channels == parsed_channels(text@),
{
    match color_art::Color::from_str(text) {
        Ok(color) => Some((color.red(), color.green(), color.blue())),
        Err(_) => None,
    }
}

fn is_space_char(c: char) -> (space: bool)
    ensures
        space == is_space(c),
{
    ('\u{9}' <= c && c <= '\u{d}') || c == ' ' || c == '\u{85}' || c == '\u{a0}' || c == '\u{1680}'
        || ('\u{2000}' <= c && c <= '\u{200a}') || c == '\u{2028}' || c == '\u{2029}' || c
        == '\u{202f}' || c == '\u{205f}' || c == '\u{3000}'
}

fn is_hex_char(c: char) -> (hex: bool)
    ensures
        hex == is_hex_digit(c),
{
    ('0' <= c && c <= '9') || ('a' <= c && c <= 'f') || ('A' <= c && c <= 'F')
}

/// Whether the text is, but for blank space around it, a hash sign and four
/// hexadecimal digits.
pub fn has_four_digit_hex(text: &str) -> (found: bool)
    ensures
        found == is_four_digit_hex(text@),
{
    let length = text.unicode_len();
    let mut start: usize = 0;
    let mut scanning = true;
    while scanning && start < length
        invariant
            start <= length,
            length == text@.len(),
            forall|i: int| 0 <= i < start ==> is_space(#[trigger] text@[i]),
            !scanning ==> start < length && !is_space(text@[start as int]),
        decreases length - start + (if scanning { 1int } else { 0int }),
    {
        if is_space_char(text.get_char(start)) {
            start = start + 1;
        } else {
            scanning = false;
        }
    }
    proof {
        assert forall|other: int| is_four_digit_hex_at(text@, other) implies other == start by {
            if other < start {
                assert(is_space(text@[other]));
            } else if other > start {
                assert(is_space(text@[start as int]));
            }
        }
    }
    if length - start < 5 {
        return false;
    }
    if text.get_char(start) != '#' || !is_hex_char(text.get_char(start + 1)) || !is_hex_char(
        text.get_char(start + 2),
    ) || !is_hex_char(text.get_char(start + 3)) || !is_hex_char(text.get_char(start + 4)) {
        return false;
    }
    let mut end: usize = start + 5;
    while end < length
        invariant
            start + 5 <= end <= length,
            length == text@.len(),
            forall|i: int| start + 5 <= i < end ==> is_space(#[trigger] text@[i]),
            forall|other: int| is_four_digit_hex_at(text@, other) ==> other == start,
        decreases length - end,
    {
        if !is_space_char(text.get_char(end)) {
            proof {
                assert(!is_space(text@[end as int]));
            }
            return false;
        }
        end = end + 1;
    }
    proof {
        assert(is_four_digit_hex_at(text@, start as int));
    }
    true
}

fn is_rgb_char(c: char) -> (plain: bool)
    ensures
        plain == is_rgb_character(c),
{
    let is_letter = ('a' <= c && c <= 'z') || ('A' <= c && c <= 'Z');
    let is_rgba = c == 'r' || c == 'R' || c == 'g' || c == 'G' || c == 'b' || c == 'B' || c == 'a'
        || c == 'A';
    c <= '\u{7f}' && (!is_letter || is_rgba)
}

fn begins_with_hash(text: &str) -> (found: bool)
    ensures
        found == starts_with_hash(text@),
{
    let length = text.unicode_len();
    let mut start: usize = 0;
    let mut scanning = true;
    while scanning && start < length
        invariant
            start <= length,
            length == text@.len(),
            forall|i: int| 0 <= i < start ==> is_space(#[trigger] text@[i]),
            !scanning ==> start < length && !is_space(text@[start as int]),
        decreases length - start + (if scanning { 1int } else { 0int }),
    {
        if is_space_char(text.get_char(start)) {
            start = start + 1;
        } else {
            scanning = false;
        }
    }
    proof {
        assert forall|other: int| is_hash_at(text@, other) implies other == start by {
            if other < start {
                assert(is_space(text@[other]));
            } else if other > start {
                assert(is_space(text@[start as int]));
            }
        }
    }
    if start < length && text.get_char(start) == '#' {
        proof {
            assert(is_hash_at(text@, start as int));
        }
        true
    } else {
        false
    }
}

/// Whether the text is in a notation that is handed to color-art.
pub fn is_readable(text: &str) -> (readable: bool)
    ensures
        readable == is_readable_notation(text@),
{
    if begins_with_hash(text) {
        return !has_four_digit_hex(text);
    }
    let length = text.unicode_len();
    let mut no_digit = true;
    let mut plain = true;
    let mut index: usize = 0;
    while index < length
        invariant
            index <= length,
            length == text@.len(),
            no_digit == (forall|i: int| 0 <= i < index ==> !is_digit(#[trigger] text@[i])),
            plain == (forall|i: int| 0 <= i < index ==> is_rgb_character(#[trigger] text@[i])),
        decreases length - index,
    {
        let c = text.get_char(index);
        if '0' <= c && c <= '9' {
            no_digit = false;
        }
        if !is_rgb_char(c) {
            plain = false;
        }
        index = index + 1;
    }
    no_digit || plain
}

/// An opaque colour.
#[derive(Clone, Copy, Debug, PartialEq, Eq, Structural)]
pub struct Rgb {
    pub red: u8,
    pub green: u8,
    pub blue: u8,
}

impl Rgb {
    /// The colour of an event whose stored colour text cannot be read.
    pub open spec fn fallback() -> Rgb {
        Rgb { red: 0x9f, green: 0x26, blue: 0x37 }
    }

    /// The colour that channels read from text stand for, or the fallback
    /// where nothing could be read.
    pub open spec fn of_channels(channels: Option<(u8, u8, u8)>) -> Rgb {
        match channels {
            Some((red, green, blue)) => Rgb { red, green, blue },
            None => Rgb::fallback(),
        }
    }

    pub fn from_channels(channels: Option<(u8, u8, u8)>) -> (color: Rgb)
        ensures
            color == Rgb::of_channels(channels),
    {
        match channels {
            Some((red, green, blue)) => Rgb { red, green, blue },
            None => Rgb { red: 0x9f, green: 0x26, blue: 0x37 },
        }
    }

    /// The colour as CSS hex text.
    pub fn hex(&self) -> (text: String)
        ensures
            text@ == hex_notation(self.red, self.green, self.blue),
    {
        color_art_hex(self.red, self.green, self.blue)
    }
}

/// The fallback colour is written `#9f2637`.
pub proof fn lemma_fallback_notation()
    ensures
        hex_notation(Rgb::fallback().red, Rgb::fallback().green, Rgb::fallback().blue)
            == "#9f2637"@,
{
    reveal_strlit("#9f2637");
    assert(hex_notation(0x9f, 0x26, 0x37) =~= "#9f2637"@);
}

/// Something that happens in a grove from one day to another. A private
/// event belongs to the user who made it; any other belongs to the grove.
#[derive(Clone, Debug, PartialEq, Eq)]
pub struct Model {
    pub id: i32,
    pub title: String,
    pub description: String,
    pub start_date: Date,
    pub end_date: Date,
    pub color: String,
    pub is_private: bool,
    pub user_id: Option<i32>,
    pub grove_id: i32,
}

impl Model {
    /// An event that is not stored yet: it has no id, no owner and no grove.
    pub fn new(
        title: String,
        description: String,
        start_date: Date,
        end_date: Date,
        color: Rgb,
        is_private: bool,
    ) -> (event: Self)
        ensures
            event.id == 0,
            event.title == title,
            event.description == description,
            event.start_date == start_date,
            event.end_date == end_date,
            event.color@ == hex_notation(color.red, color.green, color.blue),
            event.is_private == is_private,
            event.user_id is None,
            event.grove_id == 0,
    {
        Model {
            id: 0,
            title,
            description,
            start_date,
            end_date,
            color: color.hex(),
            is_private,
            user_id: None,
            grove_id: 0,
        }
    }

    /// Stores `color` as hex text and leaves everything else alone.
    pub fn set_color(&mut self, color: Rgb)
        ensures
            final(self).color@ == hex_notation(color.red, color.green, color.blue),
            final(self).id == old(self).id,
            final(self).title == old(self).title,
            final(self).description == old(self).description,
            final(self).start_date == old(self).start_date,
            final(self).end_date == old(self).end_date,
            final(self).is_private == old(self).is_private,
            final(self).user_id == old(self).user_id,
            final(self).grove_id == old(self).grove_id,
    {
        self.color = color.hex();
    }

    /// The colour the stored text stands for, or the fallback colour where
    /// the text cannot be read.
    pub fn color(&self) -> (color: Rgb)
        ensures
            color == Rgb::of_channels(readable_channels(self.color@)),
    {
        if is_readable(self.color.as_str()) {
            Rgb::from_channels(color_art_parse(self.color.as_str()))
        } else {
            Rgb::from_channels(None)
        }
    }
}

/// The days a list of events is asked for.
#[derive(Clone, Copy, Debug, PartialEq, Eq)]
pub struct GetEventsQuery {
    pub start: Date,
    pub end: Date,
}

impl GetEventsQuery {
    /// The first and the last day asked for. A query whose first day lies
    /// after its last is refused.
    pub fn range(&self) -> (days: Result<(Date, Date), BambooError>)
        ensures
            days is Ok <==> !self.start.is_later_than(self.end),
            days matches Ok(range) ==> range == (self.start, self.end),
            days matches Err(error) ==> error.describes(
                "event"@,
                ErrorType::InvalidData,
                "The start date cannot be after the end date"@,
            ),
    {
        if self.start.opens_range_to(&self.end) {
            Ok((self.start, self.end))
        } else {
            Err(BambooError::invalid_data("event", "The start date cannot be after the end date"))
        }
    }
}

} // verus!

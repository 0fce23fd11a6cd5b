//! Colours and styles, and the parser that turns a colour string (a name of
//! the bundled palette, or `#` and three bytes in hexadecimal) into a colour.

use vstd::prelude::*;
use crate::text::owned;

verus! {

/// A colour of the terminal: one of its own named colours, a 24-bit RGB triple,
/// or an entry of its 256-colour table.
#[derive(Clone, Copy, Debug, PartialEq, Eq, Hash, Structural)]
pub enum Color {
    Reset,
    Black,
    DarkGrey,
    Red,
    DarkRed,
    Green,
    DarkGreen,
    Yellow,
    DarkYellow,
    Blue,
    DarkBlue,
    Magenta,
    DarkMagenta,
    Cyan,
    DarkCyan,
    White,
    Grey,
    Rgb { r: u8, g: u8, b: u8 },
    AnsiValue(u8),
}

/// The colours of a piece of text. A colour that is `None` is left as the
/// terminal has it.
#[derive(Clone, Copy, Debug, PartialEq, Eq)]
pub struct Style {
    pub foreground_color: Option<Color>,
    pub background_color: Option<Color>,
    pub underline_color: Option<Color>,
}

/// What the bundled palette holds under a name: the red, green and blue of the
/// colour, or `None` where it has no such name.
pub uninterp spec fn named_color(name: Seq<char>) -> Option<(u8, u8, u8)>;

/// The entries of the bundled palette that the built-in themes rely on.
pub open spec fn listed_color(name: Seq<char>) -> Option<(u8, u8, u8)> {
    if name == "saddlebrown"@ {
        Some((139u8, 69u8, 19u8))
    } else if name == "darkorange"@ {
        Some((255u8, 140u8, 0u8))
    } else if name == "gold"@ {
        Some((255u8, 215u8, 0u8))
    } else if name == "brown"@ {
        Some((165u8, 42u8, 42u8))
    } else if name == "yellowgreen"@ {
        Some((154u8, 205u8, 50u8))
    } else if name == "cyan"@ {
        Some((0u8, 255u8, 255u8))
    } else if name == "turquoise"@ {
        Some((64u8, 224u8, 208u8))
    } else if name == "steelblue"@ {
        Some((70u8, 130u8, 180u8))
    } else if name == "lightsteelblue"@ {
        Some((176u8, 196u8, 222u8))
    } else if name == "teal"@ {
        Some((0u8, 128u8, 128u8))
    } else {
        None
    }
}

/// Looks a name up with `palette::named::from_str`, the table of SVG/CSS3
/// colour keywords, which matches the name exactly and in lower case.
///
/// Trusted: the result is what the table holds under the name, and for the ten
/// names of `listed_color` it is the triple written there.
#[verifier::external_body]
pub(crate) fn palette_lookup(name: &str) -> (found: Option<(u8, u8, u8)>)
    ensures
        found == named_color(name@),
        listed_color(name@) is Some ==> found == listed_color(name@),
{
    palette::named::from_str(name).map(|color| (color.red, color.green, color.blue))
}

/// The value of a hexadecimal digit in either case, `None` for any other character.
pub open spec fn hex_digit(c: char) -> Option<u8> {
    let code = c as u32;
    if 48 <= code <= 57 {
        Some((code - 48) as u8)
    } else if 97 <= code <= 102 {
        Some((code - 87) as u8)
    } else if 65 <= code <= 70 {
        Some((code - 55) as u8)
    } else {
        None
    }
}

/// The byte that a group of one or two characters stands for: one or two
/// hexadecimal digits, or a plus sign and one digit. Any other group stands for
/// nothing.
pub open spec fn hex_group(group: Seq<char>) -> Option<u8> {
    if group.len() == 1 {
        hex_digit(group[0])
    } else if group.len() == 2 {
        if group[0] == '+' {
            hex_digit(group[1])
        } else {
            match (hex_digit(group[0]), hex_digit(group[1])) {
                (Some(high), Some(low)) => Some((16 * high + low) as u8),
                _ => None,
            }
        }
    } else {
        None
    }
}

/// The bytes of a run of characters taken two at a time from the left (the last
/// group has one character where the run has an odd length). Groups that stand
/// for nothing leave no trace.
pub open spec fn hex_groups(digits: Seq<char>) -> Seq<u8>
    decreases digits.len(),
{
    if digits.len() == 0 {
        Seq::empty()
    } else {
        let width: int = if digits.len() >= 2 { 2 } else { 1 };
        let rest = hex_groups(digits.skip(width));
        match hex_group(digits.take(width)) {
            Some(value) => seq![value] + rest,
            None => rest,
        }
    }
}

/// The colour for what the palette holds under a name, or the message for a
/// name that it lacks.
pub open spec fn spec_color_from_lookup(found: Option<(u8, u8, u8)>) -> Result<Color, Seq<char>> {
    match found {
        Some((r, g, b)) => Ok(Color::Rgb { r, g, b }),
        None => Err("No such color in palette"@),
    }
}

/// The colour that a colour string stands for, or the message that says why it
/// stands for none.
pub open spec fn parse_color(text: Seq<char>) -> Result<Color, Seq<char>> {
    if text.len() == 0 {
        Err("Empty string"@)
    } else if text[0] == '#' {
        let bytes = hex_groups(text.skip(1));
        if bytes.len() == 3 {
            Ok(Color::Rgb { r: bytes[0], g: bytes[1], b: bytes[2] })
        } else {
            Err("Could not parse 3 hex values from string"@)
        }
    } else {
        spec_color_from_lookup(named_color(text))
    }
}

/// Whether an executable result is the one that a contract names.
pub open spec fn parsed_as(parsed: Result<Color, String>, expected: Result<Color, Seq<char>>) -> bool {
    match expected {
        Ok(color) => parsed == Ok::<Color, String>(color),
        Err(message) => parsed is Err && parsed->Err_0@ == message,
    }
}

/// The names of `listed_color` are not empty and do not start with `#`.
pub proof fn listed_names_are_plain(name: Seq<char>)
    requires
        listed_color(name) is Some,
    ensures
        name.len() > 0,
        name[0] != '#',
{
    reveal_strlit("saddlebrown");
    reveal_strlit("darkorange");
    reveal_strlit("gold");
    reveal_strlit("brown");
    reveal_strlit("yellowgreen");
    reveal_strlit("cyan");
    reveal_strlit("turquoise");
    reveal_strlit("steelblue");
    reveal_strlit("lightsteelblue");
    reveal_strlit("teal");
}

/// What `listed_color` holds under each of its ten names.
pub proof fn listed_colors()
    ensures
        listed_color("saddlebrown"@) == Some((139u8, 69u8, 19u8)),
        listed_color("darkorange"@) == Some((255u8, 140u8, 0u8)),
        listed_color("gold"@) == Some((255u8, 215u8, 0u8)),
        listed_color("brown"@) == Some((165u8, 42u8, 42u8)),
        listed_color("yellowgreen"@) == Some((154u8, 205u8, 50u8)),
        listed_color("cyan"@) == Some((0u8, 255u8, 255u8)),
        listed_color("turquoise"@) == Some((64u8, 224u8, 208u8)),
        listed_color("steelblue"@) == Some((70u8, 130u8, 180u8)),
        listed_color("lightsteelblue"@) == Some((176u8, 196u8, 222u8)),
        listed_color("teal"@) == Some((0u8, 128u8, 128u8)),
{
    reveal_strlit("saddlebrown");
    reveal_strlit("darkorange");
    reveal_strlit("gold");
    reveal_strlit("brown");
    reveal_strlit("yellowgreen");
    reveal_strlit("cyan");
    reveal_strlit("turquoise");
    reveal_strlit("steelblue");
    reveal_strlit("lightsteelblue");
    reveal_strlit("teal");
    assert("saddlebrown"@.len() == 11 && "saddlebrown"@[0] == 's');
    assert("darkorange"@.len() == 10);
    assert("gold"@.len() == 4 && "gold"@[0] == 'g');
    assert("brown"@.len() == 5);
    assert("yellowgreen"@.len() == 11 && "yellowgreen"@[0] == 'y');
    assert("cyan"@.len() == 4 && "cyan"@[0] == 'c');
    assert("turquoise"@.len() == 9 && "turquoise"@[0] == 't');
    assert("steelblue"@.len() == 9 && "steelblue"@[0] == 's');
    assert("lightsteelblue"@.len() == 14);
    assert("teal"@.len() == 4 && "teal"@[0] == 't');
}

/// The value of a hexadecimal digit in either case.
pub fn hex_digit_value(c: char) -> (value: Option<u8>)
    ensures
        value == hex_digit(c),
{
    let code: u32 = c as u32;
    if 48 <= code && code <= 57 {
        Some((code - 48) as u8)
    } else if 97 <= code && code <= 102 {
        Some((code - 87) as u8)
    } else if 65 <= code && code <= 70 {
        Some((code - 55) as u8)
    } else {
        None
    }
}

/// The byte that a group of two characters stands for.
pub fn hex_pair_value(first: char, second: char) -> (value: Option<u8>)
    ensures
        value == hex_group(seq![first, second]),
{
    if first == '+' {
        hex_digit_value(second)
    } else {
        match (hex_digit_value(first), hex_digit_value(second)) {
            (Some(high), Some(low)) => Some(16 * high + low),
            _ => None,
        }
    }
}

/// The bytes that the characters of `text` from position `start` on stand for,
/// taken two at a time.
pub fn hex_values(text: &str, start: usize) -> (values: Vec<u8>)
    requires
        start <= text@.len(),
    ensures
        values@ == hex_groups(text@.skip(start as int)),
{
    let len: usize = text.unicode_len();
    let mut values: Vec<u8> = Vec::new();
    let mut at: usize = start;
    while at < len
        invariant
            start <= at <= len,
            len == text@.len(),
            hex_groups(text@.skip(start as int)) == values@ + hex_groups(text@.skip(at as int)),
        decreases len - at,
    {
        let ghost tail = text@.skip(at as int);
        let first = text.get_char(at);
        if len - at >= 2 {
            let second = text.get_char(at + 1);
            let value = hex_pair_value(first, second);
            proof {
                assert(tail.take(2) == seq![first, second]);
                assert(tail.skip(2) == text@.skip(at + 2));
            }
            if let Some(byte) = value {
                values.push(byte);
            }
            at = at + 2;
        } else {
            let value = hex_digit_value(first);
            proof {
                assert(tail.take(1) == seq![first]);
                assert(tail.skip(1) == text@.skip(at + 1));
            }
            if let Some(byte) = value {
                values.push(byte);
            }
            at = at + 1;
        }
    }
    values
}

/// The colour for what the palette holds under a name, or the message for a
/// name that it lacks.
pub fn color_from_lookup(found: Option<(u8, u8, u8)>) -> (parsed: Result<Color, String>)
    ensures
        parsed_as(parsed, spec_color_from_lookup(found)),
{
    match found {
        Some((r, g, b)) => Ok(Color::Rgb { r, g, b }),
        None => Err(owned("No such color in palette")),
    }
}

/// Parses a colour string: a name of the bundled palette, or `#` followed by
/// three bytes in hexadecimal.
pub fn from_string(name: &str) -> (parsed: Result<Color, String>)
    ensures
        parsed_as(parsed, parse_color(name@)),
        listed_color(name@) matches Some((r, g, b)) ==> parse_color(name@) == Ok::<Color, Seq<char>>(
            Color::Rgb { r, g, b },
        ),
{
    proof {
        if listed_color(name@) is Some {
            listed_names_are_plain(name@);
        }
    }
    let len: usize = name.unicode_len();
    if len == 0 {
        return Err(owned("Empty string"));
    }
    if name.get_char(0) == '#' {
        let bytes = hex_values(name, 1);
        if bytes.len() != 3 {
            return Err(owned("Could not parse 3 hex values from string"));
        }
        Ok(Color::Rgb { r: bytes[0], g: bytes[1], b: bytes[2] })
    } else {
        color_from_lookup(palette_lookup(name))
    }
}

/// The lower-case hexadecimal digit for a value below 16.
pub open spec fn hex_char(nibble: int) -> char {
    if nibble < 10 {
        ((48 + nibble) as u8) as char
    } else {
        ((87 + nibble) as u8) as char
    }
}

/// The two hexadecimal digits of a byte, high digit first.
pub open spec fn hex_byte(byte: u8) -> Seq<char> {
    seq![hex_char(byte as int / 16), hex_char(byte as int % 16)]
}

/// `#` and the six hexadecimal digits of an RGB triple.
pub open spec fn hex_text(r: u8, g: u8, b: u8) -> Seq<char> {
    seq!['#'] + hex_byte(r) + hex_byte(g) + hex_byte(b)
}

/// The lower-case hexadecimal digit for a value below 16, as a string.
fn nibble_text(nibble: u8) -> (text: &'static str)
    requires
        nibble < 16,
    ensures
        text@ == seq![hex_char(nibble as int)],
{
    proof {
        reveal_strlit("0");
        reveal_strlit("1");
        reveal_strlit("2");
        reveal_strlit("3");
        reveal_strlit("4");
        reveal_strlit("5");
        reveal_strlit("6");
        reveal_strlit("7");
        reveal_strlit("8");
        reveal_strlit("9");
        reveal_strlit("a");
        reveal_strlit("b");
        reveal_strlit("c");
        reveal_strlit("d");
        reveal_strlit("e");
        reveal_strlit("f");
    }
    let text = if nibble == 0 {
        "0"
    } else if nibble == 1 {
        "1"
    } else if nibble == 2 {
        "2"
    } else if nibble == 3 {
        "3"
    } else if nibble == 4 {
        "4"
    } else if nibble == 5 {
        "5"
    } else if nibble == 6 {
        "6"
    } else if nibble == 7 {
        "7"
    } else if nibble == 8 {
        "8"
    } else if nibble == 9 {
        "9"
    } else if nibble == 10 {
        "a"
    } else if nibble == 11 {
        "b"
    } else if nibble == 12 {
        "c"
    } else if nibble == 13 {
        "d"
    } else if nibble == 14 {
        "e"
    } else {
        "f"
    };
    assert(text@ =~= seq![hex_char(nibble as int)]);
    text
}

/// Appends the two hexadecimal digits of a byte.
fn push_hex_byte(text: &mut String, byte: u8)
    ensures
        final(text)@ == old(text)@ + hex_byte(byte),
{
    text.append(nibble_text(byte / 16));
    text.append(nibble_text(byte % 16));
    assert(text@ =~= old(text)@ + hex_byte(byte));
}

impl Color {
    /// `#` and six hexadecimal digits for an RGB triple; the other colours have
    /// no such form.
    pub open spec fn spec_to_hex_string(self) -> Option<Seq<char>> {
        match self {
            Color::Rgb { r, g, b } => Some(hex_text(r, g, b)),
            _ => None,
        }
    }

    /// `#` and six hexadecimal digits for an RGB triple; the other colours have
    /// no such form.
    pub fn to_hex_string(&self) -> (text: Option<String>)
        ensures
            match self.spec_to_hex_string() {
                Some(digits) => text is Some && text->0@ == digits,
                None => text is None,
            },
    {
        match *self {
            Color::Rgb { r, g, b } => {
                let mut text = owned("#");
                proof {
                    reveal_strlit("#");
                    assert("#"@ =~= seq!['#']);
                }
                push_hex_byte(&mut text, r);
                push_hex_byte(&mut text, g);
                push_hex_byte(&mut text, b);
                Some(text)
            },
            _ => None,
        }
    }
}

/// A hexadecimal digit that was written for a value reads back as that value.
pub proof fn hex_char_reads_back(nibble: int)
    requires
        0 <= nibble < 16,
    ensures
        hex_digit(hex_char(nibble)) == Some(nibble as u8),
        hex_char(nibble) != '+',
{
}

/// The two digits written for a byte read back as that byte.
pub proof fn hex_byte_reads_back(byte: u8)
    ensures
        hex_group(hex_byte(byte)) == Some(byte),
{
    hex_char_reads_back(byte as int / 16);
    hex_char_reads_back(byte as int % 16);
}

/// Whatever parses at all is an RGB triple.
pub proof fn parsed_color_is_rgb(text: Seq<char>)
    requires
        parse_color(text) is Ok,
    ensures
        parse_color(text)->Ok_0 is Rgb,
{
}

/// Writing any RGB triple in hexadecimal and parsing the result gives the
/// triple back.
pub proof fn hex_text_parses(r: u8, g: u8, b: u8)
    ensures
        parse_color(hex_text(r, g, b)) == Ok::<Color, Seq<char>>(Color::Rgb { r, g, b }),
{
    let text = hex_text(r, g, b);
    let digits = text.skip(1);
    assert(digits =~= hex_byte(r) + hex_byte(g) + hex_byte(b));
    let second = digits.skip(2);
    let third = second.skip(2);
    assert(digits.take(2) =~= hex_byte(r));
    assert(second =~= hex_byte(g) + hex_byte(b));
    assert(second.take(2) =~= hex_byte(g));
    assert(third =~= hex_byte(b));
    assert(third.take(2) =~= hex_byte(b));
    assert(third.skip(2) =~= Seq::<char>::empty());
    hex_byte_reads_back(r);
    hex_byte_reads_back(g);
    hex_byte_reads_back(b);
    assert(hex_groups(third.skip(2)) =~= Seq::<u8>::empty());
    assert(hex_groups(third) =~= seq![b]);
    assert(hex_groups(second) =~= seq![g, b]);
    assert(hex_groups(digits) =~= seq![r, g, b]);
}

/// Parsing is idempotent through the hexadecimal form: a colour string that
/// parses gives a colour whose hexadecimal form parses to the same colour.
pub proof fn parse_is_idempotent(text: Seq<char>)
    requires
        parse_color(text) is Ok,
    ensures
        parse_color(text)->Ok_0.spec_to_hex_string() is Some,
        parse_color(parse_color(text)->Ok_0.spec_to_hex_string()->0) == parse_color(text),
{
    parsed_color_is_rgb(text);
    match parse_color(text)->Ok_0 {
        Color::Rgb { r, g, b } => {
            hex_text_parses(r, g, b);
        },
        _ => {},
    }
}

} // verus!

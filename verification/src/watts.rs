//! Power draw as decimal text.
//!
//! A power draw reaches this library as the text that prints its value in
//! watts, and leaves it inside a tooltip, character for character. The text
//! is a decimal numeral: digits, optionally a point and more digits,
//! optionally a minus sign in front; or one of the three names that
//! floating-point printing has for what is no number or not finite.

use vstd::prelude::*;
use vstd::string::*;
use vstd::utf8::is_ascii_chars;

verus! {

/// The ASCII code of the minus sign.
const MINUS_SIGN: u8 = 45;

/// The ASCII code of the decimal point.
const DECIMAL_POINT: u8 = 46;

/// The ASCII code of the digit zero.
const DIGIT_ZERO: u8 = 48;

/// The ASCII code of the digit nine.
const DIGIT_NINE: u8 = 57;

/// A decimal digit.
pub open spec fn is_digit(c: char) -> bool {
    '0' <= c <= '9'
}

/// One digit or more, and nothing else.
pub open spec fn is_digits(text: Seq<char>) -> bool {
    &&& text.len() > 0
    &&& forall|i: int| 0 <= i < text.len() ==> is_digit(#[trigger] text[i])
}

/// Whether `text` has its point at `dot`, with digits on both sides.
pub open spec fn is_split_at(text: Seq<char>, dot: int) -> bool {
    &&& 0 <= dot < text.len()
    &&& text[dot] == '.'
    &&& is_digits(text.take(dot))
    &&& is_digits(text.skip(dot + 1))
}

/// An unsigned numeral: digits, or digits, a point and digits.
pub open spec fn is_magnitude(text: Seq<char>) -> bool {
    is_digits(text) || exists|dot: int| is_split_at(text, dot)
}

/// A numeral with or without a minus sign.
pub open spec fn is_numeral(text: Seq<char>) -> bool {
    is_magnitude(text) || (text.len() > 0 && text[0] == '-' && is_magnitude(text.skip(1)))
}

/// What may stand for a power draw.
pub open spec fn is_decimal(text: Seq<char>) -> bool {
    is_numeral(text) || text == "NaN"@ || text == "inf"@ || text == "-inf"@
}

/// A minus sign belongs to no magnitude, so it settles which of the two
/// forms of a numeral is left.
proof fn lemma_sign_decides(text: Seq<char>)
    ensures
        text.len() > 0 && text[0] == '-' ==> (is_numeral(text) <==> is_magnitude(text.skip(1))),
        !(text.len() > 0 && text[0] == '-') ==> (is_numeral(text) <==> is_magnitude(text)),
{
    if text.len() > 0 && text[0] == '-' {
        assert(!is_digit(text[0]));
        assert forall|dot: int| !is_split_at(text, dot) by {
            if is_split_at(text, dot) {
                assert(text.take(dot)[0] == text[0]);
            }
        }
    }
}

/// A scan decides a magnitude. If the digits at the head of `text` end at
/// `point`, the text is a magnitude exactly when there is a digit at all
/// and either nothing follows the digits or a point and digits do.
proof fn lemma_scan_decides(text: Seq<char>, point: int)
    requires
        0 <= point <= text.len(),
        forall|i: int| 0 <= i < point ==> is_digit(#[trigger] text[i]),
        point < text.len() ==> !is_digit(text[point]),
    ensures
        is_magnitude(text) <==> point > 0 && (point == text.len() || (text[point] == '.'
            && is_digits(text.skip(point + 1)))),
{
    if point > 0 && point < text.len() && text[point] == '.' && is_digits(text.skip(point + 1)) {
        assert(is_split_at(text, point));
    }
    if is_digits(text) {
        assert(point == text.len());
    }
    assert forall|dot: int| is_split_at(text, dot) implies dot == point by {
        if dot < point {
            assert(is_digit(text[dot]));
        } else if dot > point {
            assert(text.take(dot)[point] == text[point]);
        }
    }
}

/// A numeral is made of ASCII characters alone.
proof fn lemma_numerals_are_ascii(text: Seq<char>)
    requires
        is_numeral(text),
    ensures
        is_ascii_chars(text),
{
    lemma_sign_decides(text);
    assert forall|i: int| 0 <= i < text.len() implies '\0' <= #[trigger] text[i] <= '\u{7f}' by {
        let signed = text[0] == '-';
        let magnitude = if signed {
            text.skip(1)
        } else {
            text
        };
        if !(signed && i == 0) {
            let j: int = if signed {
                i - 1
            } else {
                i
            };
            assert(magnitude[j] == text[i]);
            if !is_digits(magnitude) {
                let dot: int = choose|dot: int| is_split_at(magnitude, dot);
                if j < dot {
                    assert(magnitude.take(dot)[j] == magnitude[j]);
                } else if j > dot {
                    assert(magnitude.skip(dot + 1)[j - dot - 1] == magnitude[j]);
                }
            }
        }
    }
}

/// Whether `left` and `right` hold the same characters.
pub(crate) fn same_text(left: &str, right: &str) -> (same: bool)
    ensures
        same == (left@ == right@),
{
    left.to_owned() == right.to_owned()
}

/// Whether the character at `index` is `wanted`.
fn is_char_at(text: &str, index: usize, wanted: u8) -> (found: bool)
    requires
        text.is_ascii(),
        index < text@.len(),
        wanted < 128,
    ensures
        found == (text@[index as int] == wanted as char),
{
    text.get_ascii(index) == wanted
}

/// Whether the character at `index` is a digit.
fn is_digit_at(text: &str, index: usize) -> (digit: bool)
    requires
        text.is_ascii(),
        index < text@.len(),
    ensures
        digit == is_digit(text@[index as int]),
{
    let byte: u8 = text.get_ascii(index);
    DIGIT_ZERO <= byte && byte <= DIGIT_NINE
}

/// The index at which the digits that start at `from` end.
fn digits_end(text: &str, length: usize, from: usize) -> (end: usize)
    requires
        text.is_ascii(),
        length == text@.len(),
        from <= length,
    ensures
        from <= end <= length,
        forall|i: int| from <= i < end ==> is_digit(#[trigger] text@[i]),
        end < length ==> !is_digit(text@[end as int]),
{
    let mut end: usize = from;
    while end < length
        invariant
            text.is_ascii(),
            from <= end <= length,
            length == text@.len(),
            forall|i: int| from <= i < end ==> is_digit(#[trigger] text@[i]),
        ensures
            end < length ==> !is_digit(text@[end as int]),
        decreases length - end,
    {
        if !is_digit_at(text, end) {
            break ;
        }
        end += 1;
    }
    end
}

/// Tells whether `text` may stand for a power draw.
pub fn is_decimal_text(text: &str) -> (decimal: bool)
    ensures
        decimal == is_decimal(text@),
{
    if same_text(text, "NaN") || same_text(text, "inf") || same_text(text, "-inf") {
        return true;
    }
    if !text.is_ascii() {
        proof {
            if is_numeral(text@) {
                lemma_numerals_are_ascii(text@);
            }
        }
        return false;
    }
    let length: usize = text.unicode_len();
    let start: usize = if length > 0 && is_char_at(text, 0, MINUS_SIGN) {
        1
    } else {
        0
    };
    let point: usize = digits_end(text, length, start);
    let ghost magnitude = text@.skip(start as int);
    proof {
        lemma_sign_decides(text@);
        assert(text@.skip(0) =~= text@);
        assert forall|i: int| 0 <= i < point - start implies is_digit(#[trigger] magnitude[i]) by {
            assert(magnitude[i] == text@[start + i]);
        }
        lemma_scan_decides(magnitude, point - start);
    }
    if point == start || point == length {
        return point > start;
    }
    if !is_char_at(text, point, DECIMAL_POINT) {
        return false;
    }
    let end: usize = digits_end(text, length, point + 1);
    proof {
        let fraction = magnitude.skip(point - start + 1);
        assert(fraction =~= text@.skip(point + 1));
        if end == length && end > point + 1 {
            assert forall|i: int| 0 <= i < fraction.len() implies is_digit(#[trigger] fraction[i]) by {
                assert(fraction[i] == text@[point + 1 + i]);
            }
        } else if end < length {
            assert(fraction[end - point - 1] == text@[end as int]);
        }
    }
    end == length && end > point + 1
}

/// A power draw in watts, as the decimal text of its value.
#[derive(Debug, PartialEq, Eq)]
pub struct Watts {
    text: String,
}

impl View for Watts {
    type V = Seq<char>;

    closed spec fn view(&self) -> Seq<char> {
        self.text@
    }
}

impl Watts {
    /// What holds of every power draw: its text is a decimal numeral.
    #[verifier::type_invariant]
    pub open spec fn well_formed(self) -> bool {
        is_decimal(self@)
    }

    /// Takes `text` for a power draw if it is a decimal numeral, and refuses it otherwise.
    pub fn parse(text: &str) -> (watts: Option<Watts>)
        ensures
            watts is Some <==> is_decimal(text@),
            watts is Some ==> watts->Some_0@ == text@,
    {
        if is_decimal_text(text) {
            Some(Watts { text: text.to_owned() })
        } else {
            None
        }
    }

    /// The text of this power draw.
    pub fn as_str(&self) -> (text: &str)
        ensures
            text@ == self@,
            is_decimal(self@),
    {
        proof {
            use_type_invariant(self);
        }
        self.text.as_str()
    }
}

} // verus!

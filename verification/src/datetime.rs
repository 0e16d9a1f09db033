//! Decomposition of the `datetime` string into calendar and clock fields.
//!
//! The string is taken apart by literal splitting, in the order the pipeline
//! applies it: on `"T"` into a date and a time segment; the date on `"-"`;
//! the time on `":"`; the seconds fragment on `"."`; and the fractional tail
//! on `"-"`, whose first piece, truncated to two characters, is read as
//! milliseconds (tens precision, a deliberate truncation). A fractional tail
//! that opens a `+` offset is rejected rather than misread.

use vstd::prelude::*;

use crate::errors::ParseError;
use crate::num::all_digits;
use crate::num::digits_val;
use crate::num::is_digit;
use crate::num::lemma_digits_not_contains;
use crate::num::lemma_two_digits_bound;
use crate::num::parse_u16;
use crate::num::parse_u16_spec;
use crate::split::chars_of;
use crate::split::contains_char;
use crate::split::lemma_concat_contains;
use crate::split::lemma_singleton_contains;
use crate::split::lemma_split_len_pos;
use crate::split::lemma_split_no_sep;
use crate::split::lemma_split_prepend;
use crate::split::prefix_chars;
use crate::split::split_chars;
use crate::split::split_spec;

verus! {

/// The calendar and clock components carried by a well-formed `datetime`
/// string, each as the unsigned 16-bit value its segment spells.
#[derive(Clone, Copy, Debug, PartialEq, Eq, Structural)]
pub struct DateTimeParts {
    pub year: u16,
    pub month: u16,
    pub day: u16,
    pub hour: u16,
    pub minute: u16,
    pub second: u16,
    pub millisecond: u16,
}

/// What reading the seven numeric segments yields: the parts, or
/// `InvalidNumericField` if any segment is not an unsigned 16-bit numeral.
pub open spec fn fields_spec(
    year: Seq<char>,
    month: Seq<char>,
    day: Seq<char>,
    hour: Seq<char>,
    minute: Seq<char>,
    second: Seq<char>,
    millisecond: Seq<char>,
) -> Result<DateTimeParts, ParseError> {
    match (
        parse_u16_spec(year),
        parse_u16_spec(month),
        parse_u16_spec(day),
        parse_u16_spec(hour),
        parse_u16_spec(minute),
        parse_u16_spec(second),
        parse_u16_spec(millisecond),
    ) {
        (Some(y), Some(mo), Some(d), Some(h), Some(mi), Some(s), Some(ms)) => Ok(
            (DateTimeParts {
                year: y,
                month: mo,
                day: d,
                hour: h,
                minute: mi,
                second: s,
                millisecond: ms,
            }),
        ),
        _ => Err(ParseError::InvalidNumericField),
    }
}

/// What decomposing a `datetime` string yields, step by step:
/// split on `'T'` (exactly two segments), the date segment on `'-'` and the
/// time segment on `':'` (at least three pieces each), the third time piece
/// on `'.'` (at least two pieces), the tail on `'-'`; the tail's first piece
/// must be free of `'+'`, at least two characters long, and its first two
/// characters are the milliseconds numeral.
pub open spec fn decompose_spec(s: Seq<char>) -> Result<DateTimeParts, ParseError> {
    let segments = split_spec(s, 'T');
    if segments.len() != 2 {
        Err(ParseError::MalformedDateTime)
    } else {
        let date = split_spec(segments[0], '-');
        let time = split_spec(segments[1], ':');
        if date.len() < 3 || time.len() < 3 {
            Err(ParseError::MalformedDateTime)
        } else {
            let second_parts = split_spec(time[2], '.');
            if second_parts.len() < 2 {
                Err(ParseError::MalformedDateTime)
            } else {
                let frac = split_spec(second_parts[1], '-')[0];
                if frac.contains('+') {
                    Err(ParseError::UnsupportedOffsetSign)
                } else if frac.len() < 2 {
                    Err(ParseError::MalformedDateTime)
                } else {
                    fields_spec(
                        date[0],
                        date[1],
                        date[2],
                        time[0],
                        time[1],
                        second_parts[0],
                        frac.take(2),
                    )
                }
            }
        }
    }
}

/// Decomposes a `datetime` string into its calendar and clock fields.
pub fn decompose_datetime(s: &str) -> (r: Result<DateTimeParts, ParseError>)
    ensures
        r == decompose_spec(s@),
{
    let chars = chars_of(s);
    let segments = split_chars(&chars, 'T');
    if segments.len() != 2 {
        return Err(ParseError::MalformedDateTime);
    }
    let date = split_chars(&segments[0], '-');
    let time = split_chars(&segments[1], ':');
    if date.len() < 3 || time.len() < 3 {
        return Err(ParseError::MalformedDateTime);
    }
    let second_parts = split_chars(&time[2], '.');
    if second_parts.len() < 2 {
        return Err(ParseError::MalformedDateTime);
    }
    let frac_parts = split_chars(&second_parts[1], '-');
    proof {
        lemma_split_len_pos(second_parts@[1]@, '-');
    }
    let frac = &frac_parts[0];
    if contains_char(frac, '+') {
        return Err(ParseError::UnsupportedOffsetSign);
    }
    if frac.len() < 2 {
        return Err(ParseError::MalformedDateTime);
    }
    let millis = prefix_chars(frac, 2);
    let year = match parse_u16(&date[0]) {
        Some(v) => v,
        None => return Err(ParseError::InvalidNumericField),
    };
    let month = match parse_u16(&date[1]) {
        Some(v) => v,
        None => return Err(ParseError::InvalidNumericField),
    };
    let day = match parse_u16(&date[2]) {
        Some(v) => v,
        None => return Err(ParseError::InvalidNumericField),
    };
    let hour = match parse_u16(&time[0]) {
        Some(v) => v,
        None => return Err(ParseError::InvalidNumericField),
    };
    let minute = match parse_u16(&time[1]) {
        Some(v) => v,
        None => return Err(ParseError::InvalidNumericField),
    };
    let second = match parse_u16(&second_parts[0]) {
        Some(v) => v,
        None => return Err(ParseError::InvalidNumericField),
    };
    let millisecond = match parse_u16(&millis) {
        Some(v) => v,
        None => return Err(ParseError::InvalidNumericField),
    };
    Ok(DateTimeParts { year, month, day, hour, minute, second, millisecond })
}

/// A string that lacks the `"T"` separator never decomposes: whatever else
/// it holds, the result is `MalformedDateTime` — and, this function being
/// verified, never a panic.
pub proof fn lemma_missing_t_is_malformed(s: Seq<char>)
    requires
        !s.contains('T'),
    ensures
        decompose_spec(s) == Err::<DateTimeParts, ParseError>(ParseError::MalformedDateTime),
{
    lemma_split_no_sep(s, 'T');
}

/// Joining two sequences free of `c` with a separator other than `c` stays
/// free of `c`.
proof fn lemma_joined_not_contains(a: Seq<char>, p: char, b: Seq<char>, c: char)
    requires
        !a.contains(c),
        p != c,
        !b.contains(c),
    ensures
        !(a + seq![p] + b).contains(c),
{
    lemma_concat_contains(a + seq![p], b, c);
    lemma_concat_contains(a, seq![p], c);
    lemma_singleton_contains(p, c);
}

/// The text the nine segments spell in the supported shape:
/// `<year>-<month>-<day>T<hour>:<minute>:<second>.<frac>-<offh>:<offm>`.
pub open spec fn well_formed_datetime(
    year: Seq<char>,
    month: Seq<char>,
    day: Seq<char>,
    hour: Seq<char>,
    minute: Seq<char>,
    second: Seq<char>,
    frac: Seq<char>,
    off_hour: Seq<char>,
    off_minute: Seq<char>,
) -> Seq<char> {
    year + seq!['-'] + month + seq!['-'] + day + seq!['T'] + hour + seq![':'] + minute + seq![':']
        + second + seq!['.'] + frac + seq!['-'] + off_hour + seq![':'] + off_minute
}

/// Any well-formed `datetime` — nine all-digit segments in the supported
/// shape, the six calendar and clock segments each worth at most `u16::MAX`,
/// the fraction at least two digits — decomposes into exactly the values its
/// segments spell, the milliseconds being the fraction's first two digits.
pub proof fn lemma_well_formed_decomposes(
    year: Seq<char>,
    month: Seq<char>,
    day: Seq<char>,
    hour: Seq<char>,
    minute: Seq<char>,
    second: Seq<char>,
    frac: Seq<char>,
    off_hour: Seq<char>,
    off_minute: Seq<char>,
)
    requires
        year.len() > 0 && all_digits(year) && digits_val(year) <= u16::MAX,
        month.len() > 0 && all_digits(month) && digits_val(month) <= u16::MAX,
        day.len() > 0 && all_digits(day) && digits_val(day) <= u16::MAX,
        hour.len() > 0 && all_digits(hour) && digits_val(hour) <= u16::MAX,
        minute.len() > 0 && all_digits(minute) && digits_val(minute) <= u16::MAX,
        second.len() > 0 && all_digits(second) && digits_val(second) <= u16::MAX,
        frac.len() >= 2 && all_digits(frac),
        all_digits(off_hour),
        all_digits(off_minute),
    ensures
        decompose_spec(
            well_formed_datetime(
                year,
                month,
                day,
                hour,
                minute,
                second,
                frac,
                off_hour,
                off_minute,
            ),
        ) == Ok::<DateTimeParts, ParseError>(
            (DateTimeParts {
                year: digits_val(year) as u16,
                month: digits_val(month) as u16,
                day: digits_val(day) as u16,
                hour: digits_val(hour) as u16,
                minute: digits_val(minute) as u16,
                second: digits_val(second) as u16,
                millisecond: digits_val(frac.take(2)) as u16,
            }),
        ),
{
    let mo_d = month + seq!['-'] + day;
    let date_seg = year + seq!['-'] + mo_d;
    let fr_oh = frac + seq!['-'] + off_hour;
    let sec_frag = second + seq!['.'] + fr_oh;
    let sf_om = sec_frag + seq![':'] + off_minute;
    let mi_rest = minute + seq![':'] + sf_om;
    let time_seg = hour + seq![':'] + mi_rest;
    let s = date_seg + seq!['T'] + time_seg;
    assert(well_formed_datetime(year, month, day, hour, minute, second, frac, off_hour, off_minute)
        =~= s);

    // None of the separators is a digit, so no all-digit segment holds one.
    assert(!is_digit('T') && !is_digit('-') && !is_digit(':') && !is_digit('.') && !is_digit('+'));
    lemma_digits_not_contains(year, 'T');
    lemma_digits_not_contains(month, 'T');
    lemma_digits_not_contains(day, 'T');
    lemma_digits_not_contains(hour, 'T');
    lemma_digits_not_contains(minute, 'T');
    lemma_digits_not_contains(second, 'T');
    lemma_digits_not_contains(frac, 'T');
    lemma_digits_not_contains(off_hour, 'T');
    lemma_digits_not_contains(off_minute, 'T');
    lemma_joined_not_contains(month, '-', day, 'T');
    lemma_joined_not_contains(year, '-', mo_d, 'T');
    lemma_joined_not_contains(frac, '-', off_hour, 'T');
    lemma_joined_not_contains(second, '.', fr_oh, 'T');
    lemma_joined_not_contains(sec_frag, ':', off_minute, 'T');
    lemma_joined_not_contains(minute, ':', sf_om, 'T');
    lemma_joined_not_contains(hour, ':', mi_rest, 'T');

    // Split on 'T': exactly the date and the time segment.
    lemma_split_prepend(date_seg, 'T', time_seg);
    lemma_split_no_sep(time_seg, 'T');
    let segments = split_spec(s, 'T');
    assert(segments =~~= seq![date_seg, time_seg]);

    // The date segment on '-': year, month, day.
    lemma_digits_not_contains(year, '-');
    lemma_digits_not_contains(month, '-');
    lemma_digits_not_contains(day, '-');
    lemma_split_prepend(year, '-', mo_d);
    lemma_split_prepend(month, '-', day);
    lemma_split_no_sep(day, '-');
    let date = split_spec(date_seg, '-');
    assert(date =~~= seq![year, month, day]);

    // The time segment on ':': hour, minute, the seconds fragment, and the
    // offset's minute piece.
    lemma_digits_not_contains(hour, ':');
    lemma_digits_not_contains(minute, ':');
    lemma_digits_not_contains(second, ':');
    lemma_digits_not_contains(frac, ':');
    lemma_digits_not_contains(off_hour, ':');
    lemma_digits_not_contains(off_minute, ':');
    lemma_joined_not_contains(frac, '-', off_hour, ':');
    lemma_joined_not_contains(second, '.', fr_oh, ':');
    lemma_split_prepend(hour, ':', mi_rest);
    lemma_split_prepend(minute, ':', sf_om);
    lemma_split_prepend(sec_frag, ':', off_minute);
    lemma_split_no_sep(off_minute, ':');
    let time = split_spec(time_seg, ':');
    assert(time =~~= seq![hour, minute, sec_frag, off_minute]);

    // The seconds fragment on '.': the whole seconds and the tail.
    lemma_digits_not_contains(second, '.');
    lemma_digits_not_contains(frac, '.');
    lemma_digits_not_contains(off_hour, '.');
    lemma_joined_not_contains(frac, '-', off_hour, '.');
    lemma_split_prepend(second, '.', fr_oh);
    lemma_split_no_sep(fr_oh, '.');
    let second_parts = split_spec(sec_frag, '.');
    assert(second_parts =~~= seq![second, fr_oh]);

    // The tail on '-': the fraction comes first.
    lemma_digits_not_contains(frac, '-');
    lemma_digits_not_contains(off_hour, '-');
    lemma_split_prepend(frac, '-', off_hour);
    lemma_split_no_sep(off_hour, '-');
    let frac_parts = split_spec(fr_oh, '-');
    assert(frac_parts =~~= seq![frac, off_hour]);
    assert(frac_parts[0] == frac);

    // The fraction is all digits: no '+', and its first two digits are the
    // milliseconds numeral.
    lemma_digits_not_contains(frac, '+');
    let millis = frac.take(2);
    assert(millis.len() == 2);
    assert(all_digits(millis)) by {
        assert(forall|i: int| 0 <= i < millis.len() ==> is_digit(#[trigger] millis[i]));
    }
    lemma_two_digits_bound(millis);

    assert(parse_u16_spec(year) == Some(digits_val(year) as u16));
    assert(parse_u16_spec(month) == Some(digits_val(month) as u16));
    assert(parse_u16_spec(day) == Some(digits_val(day) as u16));
    assert(parse_u16_spec(hour) == Some(digits_val(hour) as u16));
    assert(parse_u16_spec(minute) == Some(digits_val(minute) as u16));
    assert(parse_u16_spec(second) == Some(digits_val(second) as u16));
    assert(parse_u16_spec(millis) == Some(digits_val(millis) as u16));
}

} // verus!

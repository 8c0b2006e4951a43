//! Time expressions: reading them into Unix timestamps, and writing
//! timestamps out.
//!
//! Calendar arithmetic and the grammar of natural-language dates are the
//! work of `chrono` and `interim`; what is decided here is which reading of
//! an expression wins.

use crate::error::DatadogError;
use crate::error::DatadogErrorView;
use crate::text::chars_of;
use crate::text::join;
use crate::text::decimal;
use crate::text::decimal_i64;
use crate::text::is_digit;
use crate::text::lowercased;
use crate::text::parse_i64;
use crate::text::parsed_i64;
use crate::text::to_lowercase;
use crate::text::trim;
use crate::text::trimmed;
use crate::text::view_text;
use vstd::prelude::*;
use vstd::string::*;

verus! {

/// Whether a character is an upper-case letter of the basic Latin alphabet.
pub open spec fn is_upper(c: char) -> bool {
    'A' <= c <= 'Z'
}

/// Whether a character is a letter of the basic Latin alphabet.
pub open spec fn is_letter(c: char) -> bool {
    'A' <= c <= 'Z' || 'a' <= c <= 'z'
}

/// The lower-case form of a letter of the basic Latin alphabet; every other
/// character is left as it is.
pub open spec fn lower(c: char) -> char {
    if is_upper(c) {
        ((c as u8) + 32) as char
    } else {
        c
    }
}

/// Whether a character is one that the natural-language reader passes
/// over between words.
pub open spec fn is_blank(c: char) -> bool {
    c == ' ' || c == '\t' || c == '\n' || c == '\u{c}'
}

/// Whether the text has only blanks before position `end`.
pub open spec fn blank_before(text: Seq<char>, end: int) -> bool {
    forall|j: int| 0 <= j < end && j < text.len() ==> is_blank(#[trigger] text[j])
}

/// Whether the first character at or after `from` that is no blank is a
/// digit.
pub open spec fn digit_follows(text: Seq<char>, from: int) -> bool
    decreases text.len() - from,
{
    if from < 0 || from >= text.len() {
        false
    } else if is_blank(text[from]) {
        digit_follows(text, from + 1)
    } else {
        is_digit(text[from])
    }
}

/// Whether the character at `i` is a `T` that stands alone between a date
/// and a time, as in `2024-01-01T10:00` or `2024-01-01 T 10:00`: something
/// other than blanks comes before it, no letter stands just before it, and
/// what follows it, after blanks if any, is a digit.
pub open spec fn separates_date_and_time(text: Seq<char>, i: int) -> bool {
    &&& 0 < i < text.len()
    &&& text[i] == 'T'
    &&& !is_letter(text[i - 1])
    &&& !blank_before(text, i)
    &&& digit_follows(text, i + 1)
}

/// An expression as the natural-language reader is given it: a `T` that
/// separates a date and a time becomes a blank, and every other letter is
/// put in lower case.
pub open spec fn plain_form(text: Seq<char>) -> Seq<char> {
    Seq::new(
        text.len(),
        |i: int|
            if separates_date_and_time(text, i) {
                ' '
            } else {
                lower(text[i])
            },
    )
}

/// Whether `text` has `count` letters in a row that end just before `end`.
pub open spec fn letters_before(text: Seq<char>, end: int, count: int) -> bool {
    &&& 0 <= count <= end <= text.len()
    &&& forall|i: int| end - count <= i < end ==> is_letter(#[trigger] text[i])
}

/// The longest word that the natural-language reader is given.
pub const MAX_WORD_LETTERS: usize = 15;

/// Whether no word of `text` has more letters than [`MAX_WORD_LETTERS`].
pub open spec fn words_are_short(text: Seq<char>) -> bool {
    forall|end: int| !#[trigger] letters_before(text, end, MAX_WORD_LETTERS as int + 1)
}

/// Whether the natural-language reader can be given `text`: it has no
/// upper-case letter and no word of more than [`MAX_WORD_LETTERS`] letters.
pub open spec fn is_plain(text: Seq<char>) -> bool {
    &&& forall|i: int| 0 <= i < text.len() ==> !is_upper(#[trigger] text[i])
    &&& words_are_short(text)
}

/// The time that `interim` reads out of an expression, relative to a
/// present moment given in seconds and nanoseconds; `None` where it reads
/// none.
pub uninterp spec fn natural_time_of(text: Seq<char>, now_secs: i64, now_nanos: u32) -> Option<i64>;

/// The time that `chrono` reads out of an RFC 3339 timestamp; `None` where
/// the text is none.
pub uninterp spec fn rfc3339_time_of(text: Seq<char>) -> Option<i64>;

/// The calendar date and time of a timestamp, written after a pattern;
/// `None` for a timestamp outside the calendar.
pub uninterp spec fn formatted_time(timestamp: i64, pattern: Seq<char>) -> Option<Seq<char>>;

/// The RFC 3339 form of a timestamp; `None` for a timestamp outside the
/// calendar.
pub uninterp spec fn rfc3339_text_of(timestamp: i64) -> Option<Seq<char>>;

/// `chrono::Utc::now` reads the wall clock. The reading is returned as
/// whole seconds since the epoch and the nanoseconds past them; nothing is
/// promised of it.
#[verifier::external_body]
pub(crate) fn wall_clock() -> (now: (i64, u32)) {
    let now = chrono::Utc::now();
    (now.timestamp(), now.timestamp_subsec_nanos())
}

/// `interim::parse_date_string` reads an English date or duration in the
/// US dialect, relative to the present moment, which is handed to it as the
/// `chrono` date-time of the given seconds and nanoseconds. The result is
/// its Unix timestamp, and `None` where the text is not understood or the
/// moment is outside the calendar.
///
/// The parser insists, by assertion, that a word after the hour of a time
/// is in lower case and shorter than sixteen letters; texts without
/// upper-case letters and without longer words are safe.
#[verifier::external_body]
fn read_natural_time(text: &str, now_secs: i64, now_nanos: u32) -> (time: Option<i64>)
    requires
        is_plain(text@),
    ensures
        time == natural_time_of(text@, now_secs, now_nanos),
{
    match chrono::DateTime::from_timestamp(now_secs, now_nanos) {
        Some(now) => match interim::parse_date_string(text, now, interim::Dialect::Us) {
            Ok(moment) => Some(moment.timestamp()),
            Err(_) => None,
        },
        None => None,
    }
}

/// `chrono::DateTime::parse_from_rfc3339` reads an RFC 3339 timestamp. The
/// result is its Unix timestamp, and `None` where the text is none.
#[verifier::external_body]
fn read_rfc3339(text: &str) -> (time: Option<i64>)
    ensures
        time == rfc3339_time_of(text@),
{
    match chrono::DateTime::parse_from_rfc3339(text) {
        Ok(moment) => Some(moment.timestamp()),
        Err(_) => None,
    }
}

/// The pattern after which timestamps are written for a human reader.
pub open spec fn calendar_pattern() -> Seq<char> {
    "%Y-%m-%d %H:%M:%S UTC"@
}

/// `chrono::DateTime::from_timestamp` and `format` write the calendar date
/// and time of a timestamp after a pattern; `None` for a timestamp outside
/// the calendar. Only the one pattern that the library uses is admitted,
/// since a malformed pattern makes the formatter panic.
#[verifier::external_body]
fn write_calendar_time(timestamp: i64, pattern: &str) -> (text: Option<String>)
    requires
        pattern@ == calendar_pattern(),
    ensures
        view_text(text) == formatted_time(timestamp, pattern@),
{
    match chrono::DateTime::from_timestamp(timestamp, 0) {
        Some(moment) => Some(moment.format(pattern).to_string()),
        None => None,
    }
}

/// `chrono::DateTime::from_timestamp` and `to_rfc3339` write a timestamp
/// in RFC 3339 form; `None` for a timestamp outside the calendar.
#[verifier::external_body]
fn write_rfc3339(timestamp: i64) -> (text: Option<String>)
    ensures
        view_text(text) == rfc3339_text_of(timestamp),
{
    match chrono::DateTime::from_timestamp(timestamp, 0) {
        Some(moment) => Some(moment.to_rfc3339()),
        None => None,
    }
}

/// Whether the first character at or after `from` that is no blank is a
/// digit.
fn is_digit_ahead(chars: &Vec<char>, from: usize) -> (found: bool)
    ensures
        found == digit_follows(chars@, from as int),
{
    let mut j: usize = from;
    while j < chars.len()
        invariant
            from <= j,
            digit_follows(chars@, from as int) == digit_follows(chars@, j as int),
        decreases chars.len() - j,
    {
        let c = chars[j];
        if c == ' ' || c == '\t' || c == '\n' || c == '\u{c}' {
            j = j + 1;
        } else {
            return '0' <= c && c <= '9';
        }
    }
    false
}

/// Puts an expression into the form that the natural-language reader is
/// given.
pub fn to_plain_form(text: &str) -> (plain: String)
    ensures
        plain@ == plain_form(text@),
{
    let chars = chars_of(text);
    let mut plain = String::new();
    let mut only_blanks = true;
    let mut i: usize = 0;
    while i < chars.len()
        invariant
            i <= chars.len(),
            chars@ == text@,
            plain@ == plain_form(text@).take(i as int),
            only_blanks == blank_before(text@, i as int),
        decreases chars.len() - i,
    {
        let c = chars[i];
        let separator = c == 'T' && 0 < i && !only_blanks && !is_basic_letter(chars[i - 1])
            && is_digit_ahead(&chars, i + 1);
        let next = if separator {
            ' '
        } else if 'A' <= c && c <= 'Z' {
            ((c as u8) + 32) as char
        } else {
            c
        };
        plain.push(next);
        proof {
            assert(plain@ =~= plain_form(text@).take(i + 1));
            if only_blanks && is_blank(c) {
                assert forall|j: int| 0 <= j < i + 1 && j < text@.len() implies is_blank(
                    #[trigger] text@[j],
                ) by {
                    if j < i {
                        assert(blank_before(text@, i as int));
                    }
                }
            } else if only_blanks {
                assert(!is_blank(text@[i as int]));
            } else {
                let j = choose|j: int| 0 <= j < i && j < text@.len() && !is_blank(#[trigger] text@[j]);
                assert(!is_blank(text@[j]));
            }
        }
        only_blanks = only_blanks && (c == ' ' || c == '\t' || c == '\n' || c == '\u{c}');
        i = i + 1;
    }
    proof {
        assert(plain_form(text@).take(i as int) =~= plain_form(text@));
    }
    plain
}

/// Whether a character is a letter of the basic Latin alphabet.
fn is_basic_letter(c: char) -> (letter: bool)
    ensures
        letter == is_letter(c),
{
    ('A' <= c && c <= 'Z') || ('a' <= c && c <= 'z')
}

/// Whether no word of `text` has more letters than [`MAX_WORD_LETTERS`].
pub fn has_short_words(text: &str) -> (short: bool)
    ensures
        short == words_are_short(text@),
{
    let chars = chars_of(text);
    let mut run: usize = 0;
    let mut i: usize = 0;
    while i < chars.len()
        invariant
            i <= chars.len(),
            chars@ == text@,
            run <= i,
            run <= MAX_WORD_LETTERS,
            letters_before(text@, i as int, run as int),
            run < i ==> !is_letter(text@[i - run - 1]),
            forall|end: int|
                end <= i ==> !#[trigger] letters_before(text@, end, MAX_WORD_LETTERS as int + 1),
        decreases chars.len() - i,
    {
        let c = chars[i];
        if ('A' <= c && c <= 'Z') || ('a' <= c && c <= 'z') {
            run = run + 1;
            if run > MAX_WORD_LETTERS {
                assert(letters_before(text@, i + 1, MAX_WORD_LETTERS as int + 1));
                return false;
            }
            proof {
                assert forall|end: int| end <= i + 1 implies !#[trigger] letters_before(
                    text@,
                    end,
                    MAX_WORD_LETTERS as int + 1,
                ) by {
                    if end == i + 1 {
                        if letters_before(text@, end, MAX_WORD_LETTERS as int + 1) {
                            assert(is_letter(text@[i + 1 - run - 1]));
                        }
                    }
                }
            }
        } else {
            run = 0;
            proof {
                assert forall|end: int| end <= i + 1 implies !#[trigger] letters_before(
                    text@,
                    end,
                    MAX_WORD_LETTERS as int + 1,
                ) by {
                    if end == i + 1 {
                        if letters_before(text@, end, MAX_WORD_LETTERS as int + 1) {
                            assert(is_letter(text@[i as int]));
                        }
                    }
                }
            }
        }
        i = i + 1;
    }
    proof {
        assert forall|end: int| !#[trigger] letters_before(
            text@,
            end,
            MAX_WORD_LETTERS as int + 1,
        ) by {}
    }
    true
}

/// The plain form has no upper-case letter.
pub proof fn lemma_plain_form_is_lower(text: Seq<char>)
    ensures
        forall|i: int| 0 <= i < plain_form(text).len() ==> !is_upper(#[trigger] plain_form(text)[i]),
{
}

/// The time that the natural-language reader finds in an expression,
/// relative to a present moment: what `interim` reads out of the plain
/// form of the expression, and nothing where a word of it is too long for
/// the reader.
pub open spec fn natural_reading(text: Seq<char>, now_secs: i64, now_nanos: u32) -> Option<i64> {
    if words_are_short(plain_form(text)) {
        natural_time_of(plain_form(text), now_secs, now_nanos)
    } else {
        None
    }
}

/// The time that an expression stands for, at a present moment. In this
/// order: `now`, in any case and with blanks around it, is the present
/// moment; a decimal integer is a Unix timestamp; an English date or
/// duration is read relative to the present moment; an RFC 3339 timestamp
/// is read as such. Anything else is an error that quotes the expression.
pub open spec fn parsed_time(text: Seq<char>, now_secs: i64, now_nanos: u32) -> Result<
    i64,
    DatadogErrorView,
> {
    if lowercased(trimmed(text)) == "now"@ {
        Ok(now_secs)
    } else if parsed_i64(text) is Some {
        Ok(parsed_i64(text)->0)
    } else if natural_reading(text, now_secs, now_nanos) is Some {
        Ok(natural_reading(text, now_secs, now_nanos)->0)
    } else if rfc3339_time_of(text) is Some {
        Ok(rfc3339_time_of(text)->0)
    } else {
        Err(
            DatadogErrorView::DateParseError(
                "Unable to parse time expression: '"@ + text + "'"@,
            ),
        )
    }
}

/// What [`parse_time`] returns, as a view.
pub open spec fn view_time(outcome: Result<i64, DatadogError>) -> Result<i64, DatadogErrorView> {
    match outcome {
        Ok(time) => Ok(time),
        Err(failure) => Err(failure@),
    }
}

/// Reads a time expression at the present moment `now_secs` seconds and
/// `now_nanos` nanoseconds after the epoch.
pub fn parse_time_at(input: &str, now_secs: i64, now_nanos: u32) -> (outcome: Result<
    i64,
    DatadogError,
>)
    ensures
        view_time(outcome) == parsed_time(input@, now_secs, now_nanos),
{
    if to_lowercase(trim(input)).as_str().eq("now") {
        return Ok(now_secs);
    }
    if let Some(timestamp) = parse_i64(input) {
        return Ok(timestamp);
    }
    let plain = to_plain_form(input);
    if has_short_words(plain.as_str()) {
        proof {
            lemma_plain_form_is_lower(input@);
        }
        if let Some(time) = read_natural_time(plain.as_str(), now_secs, now_nanos) {
            return Ok(time);
        }
    }
    if let Some(time) = read_rfc3339(input) {
        return Ok(time);
    }
    let mut message = join("Unable to parse time expression: '", input);
    message.append("'");
    Err(DatadogError::DateParseError(message))
}

/// Parse a time expression into a Unix timestamp, at the moment that the
/// wall clock shows. Supports natural language (`1 hour ago`,
/// `yesterday`), RFC 3339 (`2024-01-01T00:00:00Z`), Unix timestamps
/// (`1704067200`) and `now`.
///
/// Natural language is read without regard to case. A `T` counts as the
/// separator of a date and a time where it stands alone after something
/// and before a digit, with or without blanks around it; any other `T` is
/// read as the letter.
pub fn parse_time(input: &str) -> (outcome: Result<i64, DatadogError>)
    ensures
        exists|now_secs: i64, now_nanos: u32|
            view_time(outcome) == #[trigger] parsed_time(input@, now_secs, now_nanos),
{
    let (now_secs, now_nanos) = wall_clock();
    parse_time_at(input, now_secs, now_nanos)
}

/// The human-readable form of a timestamp: its calendar date and time in
/// UTC, or a notice that quotes the timestamp where it is outside the
/// calendar.
pub open spec fn timestamp_text(timestamp: i64) -> Seq<char> {
    match formatted_time(timestamp, calendar_pattern()) {
        Some(text) => text,
        None => "Invalid timestamp: "@ + decimal(timestamp as int),
    }
}

/// Convert timestamp to human-readable format.
pub fn format_timestamp(timestamp: i64) -> (text: String)
    ensures
        text@ == timestamp_text(timestamp),
{
    match write_calendar_time(timestamp, "%Y-%m-%d %H:%M:%S UTC") {
        Some(text) => text,
        None => join("Invalid timestamp: ", decimal_i64(timestamp).as_str()),
    }
}

/// The RFC 3339 form of a timestamp, or the failure that reports a
/// timestamp outside the calendar.
pub fn timestamp_to_rfc3339(timestamp: i64) -> (outcome: Result<String, DatadogError>)
    ensures
        match outcome {
            Ok(text) => rfc3339_text_of(timestamp) == Some(text@),
            Err(failure) => rfc3339_text_of(timestamp) is None && failure@
                == DatadogErrorView::InvalidInput("Invalid timestamp"@),
        },
{
    match write_rfc3339(timestamp) {
        Some(text) => Ok(text),
        None => Err(DatadogError::InvalidInput("Invalid timestamp".to_string())),
    }
}

} // verus!

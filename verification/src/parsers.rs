//! From the text of a table cell to the value it stands for.
//!
//! Dates are read by `chrono`; what it accepts is referred to by name
//! (`chrono_parsed`). Numbers are read here, digit by digit.

use vstd::prelude::*;
use vstd::string::StringExecFns;
use vstd::string::StringSliceAdditionalSpecFns;
use vstd::utf8::encode_utf8;
use vstd::utf8::is_ascii_chars;
use vstd::utf8::is_ascii_chars_encode_utf8;

use crate::date::chrono_parse;
use crate::date::chrono_parsed;
use crate::date::dotted_date;
use crate::date::dotted_month;
use crate::date::is_calendar_date;
use crate::date::worded_date;
use crate::date::worded_month;
use crate::date::Date;
use crate::error::CrawlError;
use crate::text::all_digits;
use crate::text::bounded_decimal;
use crate::text::decimal_value;
use crate::text::find_char;
use crate::text::first_index_of;
use crate::text::from_chars;
use crate::text::len_without_suffix;
use crate::text::lemma_first_index_of;
use crate::text::parse_digits;
use crate::text::push_all;
use crate::text::strip_char;
use crate::text::to_chars;
use crate::text::without_char;
use crate::text::without_suffix;

verus! {

/// An amount of energy in kWh as an exact decimal: `mantissa` divided by ten
/// to the power of `scale`.
#[derive(Clone, Copy, Debug, PartialEq, Eq, Structural)]
pub struct Usage {
    pub mantissa: u64,
    pub scale: usize,
}

/// The date that `chrono` reads from `text` under `format`, if any.
pub open spec fn date_read(text: Seq<char>, format: Seq<char>) -> Result<Date, CrawlError> {
    match chrono_parsed(text, format) {
        Some((year, month, day)) => Ok(Date { year, month, day }),
        None => Err(CrawlError::DateParseError),
    }
}

/// The text handed on for a date in dotted notation: a text of seven bytes
/// (as `str::len` counts them) is taken for a year and a month and gets the
/// first day of the month.
pub open spec fn with_day(text: Seq<char>) -> Seq<char> {
    if encode_utf8(text).len() as usize == 7 {
        text + ".01"@
    } else {
        text
    }
}

/// What `parse_date` returns for `text`.
pub open spec fn dotted_date_read(text: Seq<char>) -> Result<Date, CrawlError> {
    date_read(with_day(text), "%Y.%m.%d"@)
}

/// What `parse_claim_month` returns for `text`.
pub open spec fn claim_month_read(text: Seq<char>) -> Result<Date, CrawlError> {
    date_read(text + " 01일"@, "%Y년 %m월 %d일"@)
}

/// The date that `parsed` names, or the failure to read one.
pub open spec fn date_from(parsed: Option<(i32, u32, u32)>) -> Result<Date, CrawlError> {
    match parsed {
        Some((year, month, day)) => Ok(Date { year, month, day }),
        None => Err(CrawlError::DateParseError),
    }
}

/// Makes a date of the year, month and day that a text was read as.
pub fn date_from_parsed(parsed: Option<(i32, u32, u32)>) -> (r: Result<Date, CrawlError>)
    ensures
        r == date_from(parsed),
{
    match parsed {
        Some((year, month, day)) => Ok(Date { year, month, day }),
        None => Err(CrawlError::DateParseError),
    }
}

/// Hands `text` to `chrono` under `format`.
fn read_date(text: &str, format: &str) -> (r: Result<Date, CrawlError>)
    ensures
        r == date_read(text@, format@),
        r matches Ok(date) ==> date.is_valid(),
        format@ == "%Y.%m.%d"@ ==> forall|y: int, m: int, d: int|
            0 <= y <= 9999 && is_calendar_date(y, m, d) && text@ == #[trigger] dotted_date(y, m, d)
                ==> r == Ok::<Date, CrawlError>(
                Date { year: y as i32, month: m as u32, day: d as u32 },
            ),
        format@ == "%Y.%m.%d"@ ==> forall|y: int, m: int, d: int|
            0 <= y <= 9999 && 0 <= m <= 99 && 0 <= d <= 99 && !is_calendar_date(y, m, d) && text@
                == #[trigger] dotted_date(y, m, d) ==> r == Err::<Date, CrawlError>(
                CrawlError::DateParseError,
            ),
        format@ == "%Y년 %m월 %d일"@ ==> forall|y: int, m: int, d: int|
            0 <= y <= 9999 && is_calendar_date(y, m, d) && text@ == #[trigger] worded_date(y, m, d)
                ==> r == Ok::<Date, CrawlError>(
                Date { year: y as i32, month: m as u32, day: d as u32 },
            ),
{
    date_from_parsed(chrono_parse(text, format))
}

/// Reads a date in dotted notation: `2023.05.17`, or `2023.05` for the first
/// day of that month.
///
/// Which texts are dates is for `chrono` to say, under the format `%Y.%m.%d`.
/// A year of four digits with a month of two, and with or without a day of
/// two, is always read as the date it names, and refused where the calendar
/// has no such date.
pub fn parse_date(date_str: &str) -> (r: Result<Date, CrawlError>)
    ensures
        r == dotted_date_read(date_str@),
        r matches Ok(date) ==> date.is_valid(),
        r matches Err(e) ==> e == CrawlError::DateParseError,
        forall|y: int, m: int, d: int|
            0 <= y <= 9999 && is_calendar_date(y, m, d) && date_str@ == #[trigger] dotted_date(
                y,
                m,
                d,
            ) ==> r == Ok::<Date, CrawlError>(
                Date { year: y as i32, month: m as u32, day: d as u32 },
            ),
        forall|y: int, m: int|
            0 <= y <= 9999 && 1 <= m <= 12 && date_str@ == #[trigger] dotted_month(y, m) ==> r
                == Ok::<Date, CrawlError>(Date { year: y as i32, month: m as u32, day: 1 }),
        forall|y: int, m: int, d: int|
            0 <= y <= 9999 && 0 <= m <= 99 && 0 <= d <= 99 && !is_calendar_date(y, m, d)
                && date_str@ == #[trigger] dotted_date(y, m, d) ==> r == Err::<Date, CrawlError>(
                CrawlError::DateParseError,
            ),
        forall|y: int, m: int|
            0 <= y <= 9999 && (m == 0 || 12 < m <= 99) && date_str@ == #[trigger] dotted_month(
                y,
                m,
            ) ==> r == Err::<Date, CrawlError>(CrawlError::DateParseError),
{
    proof {
        reveal_strlit(".01");
        assert forall|y: int, m: int, d: int|
            0 <= y <= 9999 && 0 <= m <= 99 && 0 <= d <= 99 && date_str@ == #[trigger] dotted_date(
                y,
                m,
                d,
            ) implies encode_utf8(date_str@).len() == 10 by {
            lemma_dotted_date_is_ascii(y, m, d);
            is_ascii_chars_encode_utf8(date_str@);
        }
        assert forall|y: int, m: int|
            0 <= y <= 9999 && 0 <= m <= 99 && date_str@ == #[trigger] dotted_month(y, m) implies {
            &&& encode_utf8(date_str@).len() == 7
            &&& date_str@ + ".01"@ == dotted_date(y, m, 1)
        } by {
            lemma_dotted_date_is_ascii(y, m, 1);
            assert(is_ascii_chars(date_str@)) by {
                assert(date_str@ =~= dotted_date(y, m, 1).take(7));
            }
            is_ascii_chars_encode_utf8(date_str@);
            assert(date_str@ + ".01"@ =~= dotted_date(y, m, 1));
        }
    }
    if date_str.len() == 7 {
        let mut padded = String::from_str(date_str);
        padded.append(".01");
        read_date(padded.as_str(), "%Y.%m.%d")
    } else {
        read_date(date_str, "%Y.%m.%d")
    }
}

/// A well-formed date in dotted notation is plain ASCII, ten characters long.
pub proof fn lemma_dotted_date_is_ascii(y: int, m: int, d: int)
    requires
        0 <= y <= 9999,
        0 <= m <= 99,
        0 <= d <= 99,
    ensures
        dotted_date(y, m, d).len() == 10,
        is_ascii_chars(dotted_date(y, m, d)),
{
    let s = dotted_date(y, m, d);
    assert(s.len() == 10);
    assert forall|i: int| 0 <= i < s.len() implies '\0' <= #[trigger] s[i] <= '\u{7f}' by {
        assert(0 <= y / 100 <= 99 && 0 <= y % 100 <= 99);
        if i == 0 {
        } else if i == 1 {
        } else if i == 2 {
        } else if i == 3 {
        } else if i == 4 {
        } else if i == 5 {
        } else if i == 6 {
        } else if i == 7 {
        } else if i == 8 {
        } else {
        }
    }
}

/// Reads a claim month in the portal's wording, `2023년 05월`, as the first
/// day of that month. Which texts are months is for `chrono` to say, under
/// the format `%Y년 %m월 %d일` and with ` 01일` added to the text. A year of
/// four digits and a month of two in this wording are always read as the
/// month they name.
pub fn parse_claim_month(date_str: &str) -> (r: Result<Date, CrawlError>)
    ensures
        r == claim_month_read(date_str@),
        r matches Ok(date) ==> date.is_valid(),
        r matches Err(e) ==> e == CrawlError::DateParseError,
        forall|y: int, m: int|
            0 <= y <= 9999 && 1 <= m <= 12 && date_str@ == #[trigger] worded_month(y, m) ==> r
                == Ok::<Date, CrawlError>(Date { year: y as i32, month: m as u32, day: 1 }),
{
    proof {
        reveal_strlit(" 01일");
        assert forall|y: int, m: int|
            0 <= y <= 9999 && 1 <= m <= 12 && date_str@ == #[trigger] worded_month(
                y,
                m,
            ) implies date_str@ + " 01일"@ == worded_date(y, m, 1) by {
            assert(date_str@ + " 01일"@ =~= worded_date(y, m, 1));
        }
    }
    let mut padded = String::from_str(date_str);
    padded.append(" 01일");
    read_date(padded.as_str(), "%Y년 %m월 %d일")
}

/// The part of `s` before the first `delimiter`; all of `s` where it has none.
pub open spec fn first_piece(s: Seq<char>, delimiter: char) -> Seq<char> {
    s.take(first_index_of(s, delimiter))
}

/// What follows the first `delimiter` in `s`, up to the next one; `None`
/// where `s` has no `delimiter`.
pub open spec fn second_piece(s: Seq<char>, delimiter: char) -> Option<Seq<char>> {
    let cut = first_index_of(s, delimiter);
    if cut < s.len() {
        Some(first_piece(s.skip(cut + 1), delimiter))
    } else {
        None
    }
}

/// The date in `piece`, or `None` where there is no piece or no date in it.
pub open spec fn date_in(piece: Option<Seq<char>>) -> Option<Date> {
    match piece {
        Some(text) => match dotted_date_read(text) {
            Ok(date) => Some(date),
            Err(_) => None,
        },
        None => None,
    }
}

/// Cuts `chars` at the first two occurrences of `delimiter`: the first piece,
/// and the second where there is one.
fn split_two(chars: &Vec<char>, delimiter: char) -> (r: (String, Option<String>))
    ensures
        r.0@ == first_piece(chars@, delimiter),
        match r.1 {
            Some(second) => second_piece(chars@, delimiter) == Some(second@),
            None => second_piece(chars@, delimiter) is None,
        },
{
    let cut = find_char(chars, 0, delimiter);
    assert(chars@.skip(0) == chars@);
    let first = from_chars(chars, 0, cut);
    if cut < chars.len() {
        let end = find_char(chars, cut + 1, delimiter);
        let second = from_chars(chars, cut + 1, end);
        assert(chars@.subrange(cut + 1, end as int) == chars@.skip(cut + 1).take(end - cut - 1));
        (first, Some(second))
    } else {
        (first, None)
    }
}

/// Reads a period such as `2023.05.01-2023.05.31`: the text before the first
/// `-` and the text between the first and the second `-`, each read as
/// `parse_date` reads it. A side that is no date, or is missing, gives `None`.
pub fn parse_date_range(date_range: &str) -> (r: (Option<Date>, Option<Date>))
    ensures
        r.0 == date_in(Some(first_piece(date_range@, '-'))),
        r.1 == date_in(second_piece(date_range@, '-')),
        r.0 matches Some(date) ==> date.is_valid(),
        r.1 matches Some(date) ==> date.is_valid(),
{
    let chars = to_chars(date_range);
    let (first, second) = split_two(&chars, '-');
    let start = match parse_date(first.as_str()) {
        Ok(date) => Some(date),
        Err(_) => None,
    };
    let end = match second {
        Some(text) => match parse_date(text.as_str()) {
            Ok(date) => Some(date),
            Err(_) => None,
        },
        None => None,
    };
    (start, end)
}

/// The way of payment named before the first `/` of `s`, if any is named.
pub open spec fn method_in(s: Seq<char>) -> Option<Seq<char>> {
    if first_piece(s, '/').len() > 0 {
        Some(first_piece(s, '/'))
    } else {
        None
    }
}

/// Reads a cell such as `CARD/2023.01.01`: the way of payment before the
/// first `/`, unless it is empty, and the day of payment after it, read as
/// `parse_date` reads it. No `/`, or no date behind it, gives no day.
pub fn parse_payment_method(payment_str: &str) -> (r: (Option<String>, Option<Date>))
    ensures
        match r.0 {
            Some(method) => method_in(payment_str@) == Some(method@),
            None => method_in(payment_str@) is None,
        },
        r.1 == date_in(second_piece(payment_str@, '/')),
        r.1 matches Some(date) ==> date.is_valid(),
{
    let chars = to_chars(payment_str);
    let (first, second) = split_two(&chars, '/');
    proof {
        lemma_first_index_of(chars@, '/');
    }
    let method = if first.as_str().unicode_len() > 0 {
        Some(first)
    } else {
        None
    };
    let date = match second {
        Some(text) => match parse_date(text.as_str()) {
            Ok(date) => Some(date),
            Err(_) => None,
        },
        None => None,
    };
    (method, date)
}

/// The whole number that `s` denotes and that lies between `min` and `max`:
/// decimal digits, with `+` or `-` in front of them or nothing.
pub open spec fn signed_decimal(s: Seq<char>, min: int, max: int) -> Option<int> {
    if s.len() > 0 && s[0] == '-' {
        match bounded_decimal(s.skip(1), -min) {
            Some(v) => Some(-v),
            None => None,
        }
    } else if s.len() > 0 && s[0] == '+' {
        bounded_decimal(s.skip(1), max)
    } else {
        bounded_decimal(s, max)
    }
}

/// Reading a number within narrower bounds gives the same number where it
/// lies within them, and nothing where it does not.
pub proof fn lemma_signed_decimal_narrow(s: Seq<char>, min: int, max: int, low: int, high: int)
    requires
        min <= low <= 0 <= high <= max,
    ensures
        signed_decimal(s, low, high) == match signed_decimal(s, min, max) {
            Some(v) => if low <= v <= high {
                Some(v)
            } else {
                None::<int>
            },
            None => None::<int>,
        },
{
    if s.len() > 0 && (s[0] == '-' || s[0] == '+') {
        if all_digits(s.skip(1)) {
            crate::text::lemma_decimal_value_nonnegative(s.skip(1));
        }
    } else if all_digits(s) {
        crate::text::lemma_decimal_value_nonnegative(s);
    }
}

/// Reads `chars` as a whole number of 64 bits.
pub fn parse_i64(chars: &Vec<char>) -> (r: Option<i64>)
    ensures
        match r {
            Some(v) => signed_decimal(chars@, i64::MIN as int, i64::MAX as int) == Some(v as int),
            None => signed_decimal(chars@, i64::MIN as int, i64::MAX as int) is None,
        },
{
    assert(chars@.subrange(0, chars.len() as int) == chars@);
    if chars.len() > 0 && chars[0] == '-' {
        assert(chars@.subrange(1, chars.len() as int) == chars@.skip(1));
        match parse_digits(chars, 1, chars.len(), 0x8000_0000_0000_0000) {
            Some(v) => {
                if v == 0x8000_0000_0000_0000 {
                    Some(i64::MIN)
                } else {
                    Some(-(v as i64))
                }
            },
            None => None,
        }
    } else if chars.len() > 0 && chars[0] == '+' {
        assert(chars@.subrange(1, chars.len() as int) == chars@.skip(1));
        match parse_digits(chars, 1, chars.len(), 0x7fff_ffff_ffff_ffff) {
            Some(v) => Some(v as i64),
            None => None,
        }
    } else {
        match parse_digits(chars, 0, chars.len(), 0x7fff_ffff_ffff_ffff) {
            Some(v) => Some(v as i64),
            None => None,
        }
    }
}

/// The text of an amount once the currency sign and what follows it are cut
/// off and the separators `,` are taken out.
pub open spec fn amount_digits(s: Seq<char>) -> Seq<char> {
    without_char(first_piece(s, '원'), ',')
}

/// What `parse_amount` returns for `s`.
pub open spec fn amount_read(s: Seq<char>) -> Result<i64, CrawlError> {
    match signed_decimal(amount_digits(s), i64::MIN as int, i64::MAX as int) {
        Some(v) => Ok(v as i64),
        None => Err(CrawlError::AmountParseError),
    }
}

/// Reads an amount of money such as `12,345원`: the text before the first
/// `원`, without the separators `,`, must be a whole number of 64 bits,
/// with or without a sign. Anything else, a decimal point too, is refused.
pub fn parse_amount(amount_str: &str) -> (r: Result<i64, CrawlError>)
    ensures
        r == amount_read(amount_str@),
{
    let chars = to_chars(amount_str);
    let cut = find_char(&chars, 0, '원');
    assert(chars@.skip(0) == chars@);
    let mut part: Vec<char> = Vec::new();
    push_all(&mut part, &chars);
    part.truncate(cut);
    assert(part@ == first_piece(amount_str@, '원'));
    let digits = strip_char(&part, ',');
    match parse_i64(&digits) {
        Some(v) => Ok(v),
        None => Err(CrawlError::AmountParseError),
    }
}

/// Reads a paid amount; it is written as any other amount.
pub fn parse_paid(amount_str: &str) -> (r: Result<i64, CrawlError>)
    ensures
        r == amount_read(amount_str@),
{
    parse_amount(amount_str)
}

/// The text of a usage once the separators `,` are taken out and the unit
/// `kWh` is cut off its end.
pub open spec fn usage_digits(s: Seq<char>) -> Seq<char> {
    without_suffix(without_char(s, ','), "kWh"@)
}

/// The digits before and after the decimal point of `s`, joined.
pub open spec fn decimal_mantissa(s: Seq<char>) -> Seq<char> {
    let point = first_index_of(s, '.');
    if point < s.len() {
        s.take(point) + s.skip(point + 1)
    } else {
        s
    }
}

/// The number of characters after the decimal point of `s`.
pub open spec fn decimal_scale(s: Seq<char>) -> int {
    let point = first_index_of(s, '.');
    if point < s.len() {
        s.len() - point - 1
    } else {
        0
    }
}

/// The non-negative decimal number that `s` denotes: digits, with at most one
/// decimal point among them, worth no more than `u64::MAX` once the point is
/// left out.
pub open spec fn decimal_read(s: Seq<char>) -> Option<Usage> {
    match bounded_decimal(decimal_mantissa(s), u64::MAX as int) {
        Some(v) => Some(Usage { mantissa: v as u64, scale: decimal_scale(s) as usize }),
        None => None,
    }
}

/// What `parse_use_kwh` returns for `s`.
pub open spec fn usage_read(s: Seq<char>) -> Result<Usage, CrawlError> {
    match decimal_read(usage_digits(s)) {
        Some(usage) => Ok(usage),
        None => Err(CrawlError::UsageParseError),
    }
}

/// Reads an amount of energy such as `1,234.5kWh`: without the separators
/// `,` and the unit `kWh` at its end, the text must be a non-negative
/// decimal number.
pub fn parse_use_kwh(kwh_str: &str) -> (r: Result<Usage, CrawlError>)
    ensures
        r == usage_read(kwh_str@),
{
    let chars = to_chars(kwh_str);
    let no_commas = strip_char(&chars, ',');
    let unit = to_chars("kWh");
    let end = len_without_suffix(&no_commas, &unit);
    let ghost cleaned = usage_digits(kwh_str@);
    assert(cleaned == no_commas@.take(end as int));
    let mut text: Vec<char> = Vec::new();
    push_all(&mut text, &no_commas);
    text.truncate(end);
    assert(text@ == cleaned);
    let point = find_char(&text, 0, '.');
    assert(text@.skip(0) == text@);
    let mut digits: Vec<char> = Vec::new();
    push_all(&mut digits, &text);
    digits.truncate(point);
    let mut scale: usize = 0;
    if point < text.len() {
        let mut i: usize = point + 1;
        while i < text.len()
            invariant
                point < i <= text.len(),
                digits@ == text@.take(point as int) + text@.subrange(point + 1, i as int),
            decreases text.len() - i,
        {
            digits.push(text[i]);
            assert(text@.subrange(point + 1, i + 1) == text@.subrange(point + 1, i as int).push(
                text@[i as int],
            ));
            i += 1;
        }
        assert(text@.subrange(point + 1, text.len() as int) == text@.skip(point + 1));
        scale = text.len() - point - 1;
    }
    assert(digits@ == decimal_mantissa(cleaned));
    assert(digits@.subrange(0, digits.len() as int) == digits@);
    match parse_digits(&digits, 0, digits.len(), u64::MAX) {
        Some(v) => Ok(Usage { mantissa: v, scale }),
        None => Err(CrawlError::UsageParseError),
    }
}

} // verus!

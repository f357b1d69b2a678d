//! The customer's contract as the portal shows it, and the identifiers that
//! stand for its wording.

use vstd::prelude::*;

use crate::error::CrawlError;
use crate::parsers::signed_decimal;
use crate::text::from_chars;
use crate::text::same_text;
use crate::text::strip_char;
use crate::text::strip_text;
use crate::text::to_chars;
use crate::text::without_char;
use crate::text::without_text;

verus! {

/// The name of the table of contract types.
pub const CONTRACT_TYPE: &'static str = "contract_type";

/// The name of the table of purposes.
pub const PURPOSE: &'static str = "purpose";

/// The identifier of a purpose that the table does not list.
pub const PURPOSE_ID: i16 = 1;

/// The identifier of a contract type that the table does not list.
pub const CONTRACT_TYPE_ID: i16 = 25;

/// The purposes the portal names, each with its identifier.
pub open spec fn purpose_table() -> Seq<(Seq<char>, i16)> {
    seq![
        ("-"@, 1i16),
        ("고압"@, 4i16),
        ("고압선택1"@, 6i16),
        ("고압선택2"@, 7i16),
        ("고압선택3"@, 8i16),
        ("고압선택4"@, 9i16),
        ("고압A"@, 10i16),
        ("고압A선택1"@, 11i16),
        ("고압A선택2"@, 12i16),
        ("고압A선택3"@, 13i16),
        ("고압B"@, 14i16),
        ("고압B선택1"@, 15i16),
        ("고압B선택2"@, 16i16),
        ("고압B선택3"@, 17i16),
        ("고압C"@, 18i16),
        ("고압C선택1"@, 19i16),
        ("고압C선택2"@, 20i16),
        ("고압C선택3"@, 21i16),
        ("저압"@, 23i16),
        ("저압선택1"@, 24i16),
        ("저압선택2"@, 25i16),
        ("저압선택3"@, 26i16),
        ("저압선택4"@, 27i16),
    ]
}

/// The contract types the portal names, each with its identifier.
pub open spec fn contract_table() -> Seq<(Seq<char>, i16)> {
    seq![
        ("가로등(갑)"@, 1i16),
        ("가로등(을)"@, 26i16),
        ("교육용(갑)"@, 2i16),
        ("교육용(을)"@, 3i16),
        ("농사용(갑)"@, 4i16),
        ("농 사용(을)"@, 27i16),
        ("산업용(갑)I"@, 6i16),
        ("산업용(갑)II"@, 7i16),
        ("산업용(을)"@, 8i16),
        ("심야전력(갑)"@, 9i16),
        ("심야전력(을)I"@, 10i16),
        ("심야전력(을)II"@, 11i16),
        ("일반용 보완"@, 12i16),
        ("일반용(갑)I"@, 13i16),
        ("일반용(갑)II"@, 14i16),
        ("일반용(을)"@, 15i16),
        ("주택용"@, 20i16),
        ("-"@, 25i16),
    ]
}

/// What a table of wordings says, each wording as its characters.
pub open spec fn table_view(table: Seq<(&'static str, i16)>) -> Seq<(Seq<char>, i16)> {
    table.map_values(|row: (&'static str, i16)| (row.0@, row.1))
}

/// The table of purposes.
pub fn purpose_vec() -> (table: Vec<(&'static str, i16)>)
    ensures
        table_view(table@) == purpose_table(),
{
    let table = vec![
        ("-", 1i16),
        ("고압", 4i16),
        ("고압선택1", 6i16),
        ("고압선택2", 7i16),
        ("고압선택3", 8i16),
        ("고압선택4", 9i16),
        ("고압A", 10i16),
        ("고압A선택1", 11i16),
        ("고압A선택2", 12i16),
        ("고압A선택3", 13i16),
        ("고압B", 14i16),
        ("고압B선택1", 15i16),
        ("고압B선택2", 16i16),
        ("고압B선택3", 17i16),
        ("고압C", 18i16),
        ("고압C선택1", 19i16),
        ("고압C선택2", 20i16),
        ("고압C선택3", 21i16),
        ("저압", 23i16),
        ("저압선택1", 24i16),
        ("저압선택2", 25i16),
        ("저압선택3", 26i16),
        ("저압선택4", 27i16),
    ];
    assert(table_view(table@) =~= purpose_table());
    table
}

/// The table of contract types.
pub fn contract_vec() -> (table: Vec<(&'static str, i16)>)
    ensures
        table_view(table@) == contract_table(),
{
    let table = vec![
        ("가로등(갑)", 1i16),
        ("가로등(을)", 26i16),
        ("교육용(갑)", 2i16),
        ("교육용(을)", 3i16),
        ("농사용(갑)", 4i16),
        ("농 사용(을)", 27i16),
        ("산업용(갑)I", 6i16),
        ("산업용(갑)II", 7i16),
        ("산업용(을)", 8i16),
        ("심야전력(갑)", 9i16),
        ("심야전력(을)I", 10i16),
        ("심야전력(을)II", 11i16),
        ("일반용 보완", 12i16),
        ("일반용(갑)I", 13i16),
        ("일반용(갑)II", 14i16),
        ("일반용(을)", 15i16),
        ("주택용", 20i16),
        ("-", 25i16),
    ];
    assert(table_view(table@) =~= contract_table());
    table
}

/// The identifier that `table` gives for the wording `input`: that of the
/// first row with this wording, or `default` where no row has it.
pub open spec fn looked_up(table: Seq<(Seq<char>, i16)>, input: Seq<char>, default: i16) -> i16
    decreases table.len(),
{
    if table.len() == 0 {
        default
    } else if table[0].0 == input {
        table[0].1
    } else {
        looked_up(table.drop_first(), input, default)
    }
}

/// What `extract_id` returns for the wording `input` and the table `kind`.
pub open spec fn id_read(input: Seq<char>, kind: Seq<char>) -> Result<i16, CrawlError> {
    if kind == "contract_type"@ {
        Ok(looked_up(contract_table(), input, 25))
    } else if kind == "purpose"@ {
        Ok(looked_up(purpose_table(), input, 1))
    } else {
        Err(CrawlError::UnknownIdKind)
    }
}

/// Looks the wording `input` up in `table`.
fn look_up(table: &Vec<(&'static str, i16)>, input: &str, default: i16) -> (id: i16)
    ensures
        id == looked_up(table_view(table@), input@, default),
{
    let ghost whole = table_view(table@);
    let mut i: usize = 0;
    assert(whole.skip(0) == whole);
    while i < table.len()
        invariant
            i <= table.len(),
            whole == table_view(table@),
            looked_up(whole.skip(i as int), input@, default) == looked_up(whole, input@, default),
        decreases table.len() - i,
    {
        let ghost rest = whole.skip(i as int);
        assert(rest[0] == (table@[i as int].0@, table@[i as int].1));
        assert(rest.drop_first() == whole.skip(i + 1));
        if same_text(input, table[i].0) {
            return table[i].1;
        }
        i += 1;
    }
    default
}

/// The identifier that stands for the wording `input` in the table named
/// `kind`: `contract_type` or `purpose`. A wording that the table does not
/// list gets the table's default; any other `kind` is refused.
pub fn extract_id(input: &str, kind: &str) -> (r: Result<i16, CrawlError>)
    ensures
        r == id_read(input@, kind@),
{
    if same_text(kind, CONTRACT_TYPE) {
        let table = contract_vec();
        Ok(look_up(&table, input, CONTRACT_TYPE_ID))
    } else if same_text(kind, PURPOSE) {
        let table = purpose_vec();
        Ok(look_up(&table, input, PURPOSE_ID))
    } else {
        Err(CrawlError::UnknownIdKind)
    }
}

/// What `regex::Regex::find` returns for `text` under `pattern`: the text
/// of the leftmost match, `Some(None)` where there is no match, and `None`
/// where `regex::Regex::new` refuses the pattern.
pub uninterp spec fn regex_first_match(pattern: Seq<char>, text: Seq<char>) -> Option<
    Option<Seq<char>>,
>;

/// What `regex::Regex::replace_all` makes of `text` when every match of
/// `pattern` is replaced by nothing; `None` where `regex::Regex::new`
/// refuses the pattern.
pub uninterp spec fn regex_without_matches(pattern: Seq<char>, text: Seq<char>) -> Option<
    Seq<char>,
>;

/// The characters of a match that may be missing.
pub open spec fn found_view(found: Option<Option<String>>) -> Option<Option<Seq<char>>> {
    match found {
        Some(Some(text)) => Some(Some(text@)),
        Some(None) => Some(None),
        None => None,
    }
}

/// `regex::Regex::new`, then `regex::Regex::find` and `Match::as_str`: the
/// leftmost match of `pattern` in `text`. Believed of it: the outcome
/// depends on the two texts alone.
#[verifier::external_body]
fn regex_find(pattern: &str, text: &str) -> (found: Option<Option<String>>)
    ensures
        found_view(found) == regex_first_match(pattern@, text@),
{
    match regex::Regex::new(pattern) {
        Ok(re) => Some(re.find(text).map(|m| m.as_str().to_string())),
        Err(_) => None,
    }
}

/// `regex::Regex::new`, then `regex::Regex::replace_all` with an empty
/// replacement: `text` without the matches of `pattern`. Believed of it:
/// the outcome depends on the two texts alone.
#[verifier::external_body]
fn regex_remove_all(pattern: &str, text: &str) -> (left: Option<String>)
    ensures
        match left {
            Some(kept) => regex_without_matches(pattern@, text@) == Some(kept@),
            None => regex_without_matches(pattern@, text@) is None,
        },
{
    match regex::Regex::new(pattern) {
        Ok(re) => Some(re.replace_all(text, "").to_string()),
        Err(_) => None,
    }
}

/// The number that a run of digits found in a text stands for: 0 where no
/// run was found, a failure where the search itself failed or the run is no
/// number of 16 bits.
pub open spec fn day_read(found: Option<Option<Seq<char>>>) -> Result<i16, CrawlError> {
    match found {
        None => Err(CrawlError::NumberParseError),
        Some(None) => Ok(0i16),
        Some(Some(digits)) => match signed_decimal(digits, i16::MIN as int, i16::MAX as int) {
            Some(v) => Ok(v as i16),
            None => Err(CrawlError::NumberParseError),
        },
    }
}

/// The number that the run of digits `found` stands for.
pub fn day_from_match(found: Option<Option<String>>) -> (r: Result<i16, CrawlError>)
    ensures
        r == day_read(found_view(found)),
{
    match found {
        None => Err(CrawlError::NumberParseError),
        Some(None) => Ok(0),
        Some(Some(digits)) => {
            let chars = to_chars(digits.as_str());
            proof {
                crate::parsers::lemma_signed_decimal_narrow(
                    chars@,
                    i64::MIN as int,
                    i64::MAX as int,
                    i16::MIN as int,
                    i16::MAX as int,
                );
            }
            match crate::parsers::parse_i64(&chars) {
                Some(v) => {
                    if -32768 <= v && v <= 32767 {
                        Ok(v as i16)
                    } else {
                        Err(CrawlError::NumberParseError)
                    }
                },
                None => Err(CrawlError::NumberParseError),
            }
        },
    }
}

/// The first number in `input`, such as the day in `매월 15일`: the
/// leftmost run of digits as the pattern `\d+` finds it, or 0 where there
/// is none.
pub fn parse_day(input: &str) -> (r: Result<i16, CrawlError>)
    ensures
        r == day_read(regex_first_match("\\d+"@, input@)),
{
    day_from_match(regex_find("\\d+", input))
}

/// The wording of a purpose as the table lists it: the pricing plan
/// without the name of the contract and without blanks.
pub open spec fn purpose_wording(contract_name: Seq<char>, pricing_plan: Seq<char>) -> Seq<char> {
    without_char(without_text(pricing_plan, contract_name), ' ')
}

/// What the purpose of a contract is, given the name of the contract
/// without its voltage class.
pub open spec fn purpose_read(contract_name: Option<Seq<char>>, pricing_plan: Seq<char>) -> Result<
    i16,
    CrawlError,
> {
    match contract_name {
        None => Err(CrawlError::NumberParseError),
        Some(name) => Ok(looked_up(purpose_table(), purpose_wording(name, pricing_plan), 1)),
    }
}

/// The identifier of the purpose that `pricing_plan` names, once the name
/// of the contract is taken out of it.
pub fn purpose_from_name(contract_name: Option<String>, pricing_plan: &str) -> (r: Result<
    i16,
    CrawlError,
>)
    ensures
        r == purpose_read(crate::extract::opt_view(contract_name), pricing_plan@),
{
    match contract_name {
        None => Err(CrawlError::NumberParseError),
        Some(name) => {
            let plan = to_chars(pricing_plan);
            let needle = to_chars(name.as_str());
            let without_name = strip_text(&plan, &needle);
            let wording = strip_char(&without_name, ' ');
            assert(wording@.subrange(0, wording.len() as int) == wording@);
            let text = from_chars(&wording, 0, wording.len());
            let table = purpose_vec();
            Ok(look_up(&table, text.as_str(), PURPOSE_ID))
        },
    }
}

/// The identifier of the purpose of a contract: the wording of
/// `pricing_plan` that is left when the contract, without its voltage class
/// (`고압` or `저압` and the character after it), and all blanks are taken
/// out of it.
pub fn purpose_id(contract: &str, pricing_plan: &str) -> (r: Result<i16, CrawlError>)
    ensures
        r == purpose_read(regex_without_matches("(고압.|저압.)"@, contract@), pricing_plan@),
{
    purpose_from_name(regex_remove_all("(고압.|저압.)", contract), pricing_plan)
}

/// What the portal says of a customer's contract.
#[derive(Debug)]
pub struct UserInfo {
    pub user_number: String,
    pub contract_type_id: i16,
    pub purpose_id: i16,
    /// The contracted power in kW.
    pub contract_power: i16,
    /// The day of the month on which the meter is read.
    pub inspection_day: i16,
    pub instrument_number: String,
}

} // verus!

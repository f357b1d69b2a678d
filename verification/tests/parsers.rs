use kepco_crawler::date::Date;
use kepco_crawler::error::CrawlError;
use kepco_crawler::parsers::date_from_parsed;
use kepco_crawler::parsers::parse_amount;
use kepco_crawler::parsers::parse_claim_month;
use kepco_crawler::parsers::parse_date;
use kepco_crawler::parsers::parse_date_range;
use kepco_crawler::parsers::parse_i64;
use kepco_crawler::parsers::parse_paid;
use kepco_crawler::parsers::parse_payment_method;
use kepco_crawler::parsers::parse_use_kwh;
use kepco_crawler::parsers::Usage;

fn ymd(year: i32, month: u32, day: u32) -> Date {
    Date { year, month, day }
}

fn as_float(usage: Usage) -> f64 {
    usage.mantissa as f64 / 10f64.powi(usage.scale as i32)
}

#[test]
fn parse_date_reads_year_month_as_first_day() {
    assert_eq!(parse_date("2023.05"), Ok(ymd(2023, 5, 1)));
    assert_eq!(parse_date("1999.12"), Ok(ymd(1999, 12, 1)));
}

#[test]
fn parse_date_reads_full_dates() {
    assert_eq!(parse_date("2023.01.01"), Ok(ymd(2023, 1, 1)));
    assert_eq!(parse_date("2024.02.29"), Ok(ymd(2024, 2, 29)));
    assert_eq!(parse_date("0001.01.31"), Ok(ymd(1, 1, 31)));
}

#[test]
fn parse_date_round_trips_every_month() {
    for month in 1..=12u32 {
        let text = format!("2023.{:02}", month);
        assert_eq!(parse_date(&text), Ok(ymd(2023, month, 1)));
        let full = format!("2023.{:02}.28", month);
        assert_eq!(parse_date(&full), Ok(ymd(2023, month, 28)));
    }
}

#[test]
fn parse_date_refuses_what_is_no_date() {
    assert_eq!(parse_date(""), Err(CrawlError::DateParseError));
    assert_eq!(parse_date("hello"), Err(CrawlError::DateParseError));
    assert_eq!(parse_date("2023-05-01"), Err(CrawlError::DateParseError));
    assert_eq!(parse_date("2023.13.01"), Err(CrawlError::DateParseError));
    assert_eq!(parse_date("2023.02.30"), Err(CrawlError::DateParseError));
    assert_eq!(parse_date("2023.05.01x"), Err(CrawlError::DateParseError));
    assert_eq!(parse_date("2023.5"), Err(CrawlError::DateParseError));
    assert_eq!(parse_date("2023.00"), Err(CrawlError::DateParseError));
    assert_eq!(parse_date("2023.13"), Err(CrawlError::DateParseError));
    assert_eq!(parse_date("2023.04.31"), Err(CrawlError::DateParseError));
    assert_eq!(parse_date("2023.01.00"), Err(CrawlError::DateParseError));
    assert_eq!(parse_date("1900.02.29"), Err(CrawlError::DateParseError));
}

#[test]
fn parse_claim_month_reads_the_portal_wording() {
    assert_eq!(parse_claim_month("2023년 05월"), Ok(ymd(2023, 5, 1)));
    assert_eq!(parse_claim_month("2023년 12월"), Ok(ymd(2023, 12, 1)));
    assert_eq!(parse_claim_month("0000년 01월"), Ok(ymd(0, 1, 1)));
    assert_eq!(parse_claim_month("9999년 09월"), Ok(ymd(9999, 9, 1)));
    assert_eq!(parse_claim_month("2023년 13월"), Err(CrawlError::DateParseError));
    assert_eq!(parse_claim_month("2023.05"), Err(CrawlError::DateParseError));
    assert_eq!(parse_claim_month(""), Err(CrawlError::DateParseError));
}

#[test]
fn date_from_parsed_wraps_the_parts() {
    assert_eq!(date_from_parsed(Some((2023, 5, 1))), Ok(ymd(2023, 5, 1)));
    assert_eq!(date_from_parsed(None), Err(CrawlError::DateParseError));
}

#[test]
fn parse_date_range_reads_both_sides() {
    assert_eq!(
        parse_date_range("2023.04.15-2023.05.14"),
        (Some(ymd(2023, 4, 15)), Some(ymd(2023, 5, 14)))
    );
}

#[test]
fn parse_date_range_keeps_the_side_that_is_a_date() {
    assert_eq!(parse_date_range("2023.04.15-soon"), (Some(ymd(2023, 4, 15)), None));
    assert_eq!(parse_date_range("then-2023.05.14"), (None, Some(ymd(2023, 5, 14))));
    assert_eq!(parse_date_range("2023.04.15"), (Some(ymd(2023, 4, 15)), None));
    assert_eq!(parse_date_range(""), (None, None));
    assert_eq!(
        parse_date_range("2023.04-2023.05-2023.06"),
        (Some(ymd(2023, 4, 1)), Some(ymd(2023, 5, 1)))
    );
}

#[test]
fn parse_amount_reads_the_examples() {
    assert_eq!(parse_amount("12,345원"), Ok(12345));
    assert_eq!(parse_amount("1,234"), Ok(1234));
}

#[test]
fn parse_amount_cuts_at_the_currency_sign() {
    assert_eq!(parse_amount("45,000원 (부가세 포함)"), Ok(45000));
    assert_eq!(parse_amount("0원"), Ok(0));
    assert_eq!(parse_amount("-1,500원"), Ok(-1500));
    assert_eq!(parse_amount("+7"), Ok(7));
}

#[test]
fn parse_amount_refuses_what_is_no_number() {
    assert_eq!(parse_amount(""), Err(CrawlError::AmountParseError));
    assert_eq!(parse_amount("원"), Err(CrawlError::AmountParseError));
    assert_eq!(parse_amount("12a45원"), Err(CrawlError::AmountParseError));
    assert_eq!(parse_amount("-"), Err(CrawlError::AmountParseError));
    assert_eq!(parse_amount(" 12"), Err(CrawlError::AmountParseError));
    assert_eq!(parse_amount("9223372036854775808"), Err(CrawlError::AmountParseError));
    assert_eq!(parse_amount("abc원"), Err(CrawlError::AmountParseError));
    assert_eq!(parse_amount("12a"), Err(CrawlError::AmountParseError));
}

#[test]
fn parse_amount_refuses_a_decimal_point() {
    assert_eq!(parse_amount("1.5원"), Err(CrawlError::AmountParseError));
    assert_eq!(parse_amount("1.234.567원"), Err(CrawlError::AmountParseError));
    assert_eq!(parse_amount("1,234.0"), Err(CrawlError::AmountParseError));
    assert_eq!(parse_paid("45.000원"), Err(CrawlError::AmountParseError));
}

#[test]
fn parse_amount_reaches_both_ends_of_its_range() {
    assert_eq!(parse_amount("9,223,372,036,854,775,807원"), Ok(i64::MAX));
    assert_eq!(parse_amount("-9223372036854775808"), Ok(i64::MIN));
    assert_eq!(parse_amount("-9223372036854775809"), Err(CrawlError::AmountParseError));
}

#[test]
fn parse_paid_reads_as_parse_amount_does() {
    assert_eq!(parse_paid("50,000원"), Ok(50000));
    assert_eq!(parse_paid("fifty"), Err(CrawlError::AmountParseError));
}

#[test]
fn parse_i64_reads_signed_digits() {
    let chars: Vec<char> = "-42".chars().collect();
    assert_eq!(parse_i64(&chars), Some(-42));
    let chars: Vec<char> = "007".chars().collect();
    assert_eq!(parse_i64(&chars), Some(7));
    let chars: Vec<char> = "4 2".chars().collect();
    assert_eq!(parse_i64(&chars), None);
}

#[test]
fn parse_use_kwh_reads_the_example() {
    let usage = parse_use_kwh("123.4kWh").unwrap();
    assert_eq!(usage, Usage { mantissa: 1234, scale: 1 });
    assert_eq!(as_float(usage), 123.4);
}

#[test]
fn parse_use_kwh_strips_separators_and_unit() {
    assert_eq!(parse_use_kwh("120kWh"), Ok(Usage { mantissa: 120, scale: 0 }));
    assert_eq!(parse_use_kwh("1,234.50kWh"), Ok(Usage { mantissa: 123450, scale: 2 }));
    assert_eq!(parse_use_kwh("1,000"), Ok(Usage { mantissa: 1000, scale: 0 }));
    assert_eq!(parse_use_kwh("5."), Ok(Usage { mantissa: 5, scale: 0 }));
    assert_eq!(parse_use_kwh(".5kWh"), Ok(Usage { mantissa: 5, scale: 1 }));
    assert_eq!(parse_use_kwh("0kWh"), Ok(Usage { mantissa: 0, scale: 0 }));
}

#[test]
fn parse_use_kwh_refuses_what_is_no_number() {
    assert_eq!(parse_use_kwh(""), Err(CrawlError::UsageParseError));
    assert_eq!(parse_use_kwh("kWh"), Err(CrawlError::UsageParseError));
    assert_eq!(parse_use_kwh("."), Err(CrawlError::UsageParseError));
    assert_eq!(parse_use_kwh("-5kWh"), Err(CrawlError::UsageParseError));
    assert_eq!(parse_use_kwh("1.2.3kWh"), Err(CrawlError::UsageParseError));
    assert_eq!(parse_use_kwh("12 kWh"), Err(CrawlError::UsageParseError));
    assert_eq!(parse_use_kwh("kWh12"), Err(CrawlError::UsageParseError));
    assert_eq!(parse_use_kwh("18446744073709551616"), Err(CrawlError::UsageParseError));
}

#[test]
fn parse_payment_method_reads_method_and_date() {
    assert_eq!(
        parse_payment_method("CARD/2023.01.01"),
        (Some("CARD".to_string()), Some(ymd(2023, 1, 1)))
    );
    assert_eq!(parse_payment_method("CARD"), (Some("CARD".to_string()), None));
}

#[test]
fn parse_payment_method_survives_odd_cells() {
    assert_eq!(parse_payment_method(""), (None, None));
    assert_eq!(parse_payment_method("/2023.01.01"), (None, Some(ymd(2023, 1, 1))));
    assert_eq!(parse_payment_method("자동이체/soon"), (Some("자동이체".to_string()), None));
    assert_eq!(
        parse_payment_method("CARD/2023.01/rest"),
        (Some("CARD".to_string()), Some(ymd(2023, 1, 1)))
    );
}

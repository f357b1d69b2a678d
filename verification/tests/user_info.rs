use kepco_crawler::error::CrawlError;
use kepco_crawler::flow::Action;
use kepco_crawler::flow::OnFailure;
use kepco_crawler::locator::Locator;
use kepco_crawler::pp::account_script;
use kepco_crawler::pp::charge_info_steps;
use kepco_crawler::pp::click_script_for;
use kepco_crawler::pp::pp_login;
use kepco_crawler::pp::pp_user_info;
use kepco_crawler::pp::user_info_steps;
use kepco_crawler::pp::UserInfoCells;
use kepco_crawler::request::PpRequestBody;
use kepco_crawler::response::basic_response;
use kepco_crawler::response::MetaResponseData;
use kepco_crawler::response_errors::crawl_failure;
use kepco_crawler::response_errors::ErrorResponseCode;
use kepco_crawler::response_errors::ErrorResponseMeta;
use kepco_crawler::text::strip_text;
use kepco_crawler::user_info::contract_vec;
use kepco_crawler::user_info::day_from_match;
use kepco_crawler::user_info::extract_id;
use kepco_crawler::user_info::parse_day;
use kepco_crawler::user_info::purpose_from_name;
use kepco_crawler::user_info::purpose_id;
use kepco_crawler::user_info::purpose_vec;

fn request(test_mode: Option<bool>) -> PpRequestBody {
    PpRequestBody {
        userId: "me".to_string(),
        userPw: "secret".to_string(),
        userNum: "0123456789".to_string(),
        testMode: test_mode,
    }
}

#[test]
fn test_state_defaults_to_false() {
    assert!(!request(None).test_state());
    assert!(!request(Some(false)).test_state());
    assert!(request(Some(true)).test_state());
}

#[test]
fn purpose_vec_lists_the_purposes() {
    let table = purpose_vec();
    assert_eq!(table.len(), 23);
    assert_eq!(table[0], ("-", 1));
    assert_eq!(table[1], ("고압", 4));
    assert_eq!(table[8], ("고압A선택2", 12));
    assert_eq!(table[22], ("저압선택4", 27));
}

#[test]
fn contract_vec_lists_the_contract_types() {
    let table = contract_vec();
    assert_eq!(table.len(), 18);
    assert_eq!(table[0], ("가로등(갑)", 1));
    assert_eq!(table[5], ("농 사용(을)", 27));
    assert_eq!(table[16], ("주택용", 20));
    assert_eq!(table[17], ("-", 25));
}

#[test]
fn extract_id_looks_the_wording_up() {
    assert_eq!(extract_id("주택용", "contract_type"), Ok(20));
    assert_eq!(extract_id("산업용(갑)II", "contract_type"), Ok(7));
    assert_eq!(extract_id("-", "contract_type"), Ok(25));
    assert_eq!(extract_id("unheard of", "contract_type"), Ok(25));
    assert_eq!(extract_id("고압A선택2", "purpose"), Ok(12));
    assert_eq!(extract_id("-", "purpose"), Ok(1));
    assert_eq!(extract_id("", "purpose"), Ok(1));
    assert_eq!(extract_id("저압", "purpose"), Ok(23));
}

#[test]
fn extract_id_refuses_an_unknown_table() {
    assert_eq!(extract_id("주택용", "colour"), Err(CrawlError::UnknownIdKind));
    assert_eq!(extract_id("주택용", ""), Err(CrawlError::UnknownIdKind));
}

#[test]
fn parse_day_finds_the_first_number() {
    assert_eq!(parse_day("매월 15일"), Ok(15));
    assert_eq!(parse_day("300kW"), Ok(300));
    assert_eq!(parse_day("a1b22c"), Ok(1));
    assert_eq!(parse_day("007"), Ok(7));
    assert_eq!(parse_day("no number"), Ok(0));
    assert_eq!(parse_day(""), Ok(0));
    assert_eq!(parse_day("32767"), Ok(32767));
    assert_eq!(parse_day("32768"), Err(CrawlError::NumberParseError));
    assert_eq!(parse_day("99999999999999999999999"), Err(CrawlError::NumberParseError));
}

#[test]
fn day_from_match_reads_what_was_found() {
    assert_eq!(day_from_match(Some(Some("15".to_string()))), Ok(15));
    assert_eq!(day_from_match(Some(Some("-3".to_string()))), Ok(-3));
    assert_eq!(day_from_match(Some(None)), Ok(0));
    assert_eq!(day_from_match(None), Err(CrawlError::NumberParseError));
    assert_eq!(day_from_match(Some(Some("x".to_string()))), Err(CrawlError::NumberParseError));
    assert_eq!(day_from_match(Some(Some("-32769".to_string()))), Err(CrawlError::NumberParseError));
}

#[test]
fn purpose_id_takes_the_contract_out_of_the_plan() {
    assert_eq!(purpose_id("산업용(을) 고압A", "산업용(을) 고압A 선택2"), Ok(12));
    assert_eq!(purpose_id("일반용(갑)I 저압 ", "일반용(갑)I 저압 선택1"), Ok(24));
    assert_eq!(purpose_id("주택용", "주택용"), Ok(1));
    assert_eq!(purpose_id("", "고압B"), Ok(14));
}

#[test]
fn purpose_from_name_reads_the_plan() {
    assert_eq!(purpose_from_name(Some("산업용(을) ".to_string()), "산업용(을) 고압C 선택3"), Ok(21));
    assert_eq!(purpose_from_name(Some(String::new()), "저 압"), Ok(23));
    assert_eq!(purpose_from_name(None, "저압"), Err(CrawlError::NumberParseError));
}

#[test]
fn strip_text_takes_out_each_occurrence() {
    let chars = |s: &str| s.chars().collect::<Vec<char>>();
    let text = |v: Vec<char>| v.into_iter().collect::<String>();
    assert_eq!(text(strip_text(&chars("abcabcab"), &chars("abc"))), "ab");
    assert_eq!(text(strip_text(&chars("aaaa"), &chars("aa"))), "");
    assert_eq!(text(strip_text(&chars("aaa"), &chars("aa"))), "a");
    assert_eq!(text(strip_text(&chars("abc"), &chars(""))), "abc");
    assert_eq!(text(strip_text(&chars("ab"), &chars("abc"))), "ab");
    assert_eq!(text(strip_text(&chars("xaby"), &chars("ab"))), "xy");
}

#[test]
fn pp_user_info_reads_the_contract() {
    let cells = UserInfoCells {
        user_number: "0123456789".to_string(),
        contract: "산업용(을) 고압A".to_string(),
        contract_power: "300 kW".to_string(),
        inspection_day: "매월 15일".to_string(),
        instrument_number: "M-77".to_string(),
        pricing_plan: "산업용(을) 고압A 선택2".to_string(),
    };
    let info = pp_user_info(cells).unwrap();
    assert_eq!(info.user_number, "0123456789");
    assert_eq!(info.contract_type_id, 25);
    assert_eq!(info.purpose_id, 12);
    assert_eq!(info.contract_power, 300);
    assert_eq!(info.inspection_day, 15);
    assert_eq!(info.instrument_number, "M-77");
}

#[test]
fn pp_user_info_fails_on_a_number_too_large() {
    let cells = UserInfoCells {
        user_number: "0123456789".to_string(),
        contract: "주택용".to_string(),
        contract_power: "40000".to_string(),
        inspection_day: "15".to_string(),
        instrument_number: "M-77".to_string(),
        pricing_plan: "주택용".to_string(),
    };
    assert_eq!(pp_user_info(cells).unwrap_err(), CrawlError::NumberParseError);
}

#[test]
fn account_script_quotes_the_selector() {
    assert_eq!(
        account_script("0123456789"),
        "var a = document.querySelector(\"ul > li > a[href='#0123456789']\"); if (a) { a.click(); } else { throw new Error('Account not found'); }"
    );
    assert_eq!(
        account_script("a\"b\\c"),
        "var a = document.querySelector(\"ul > li > a[href='#a\\\"b\\\\c']\"); if (a) { a.click(); } else { throw new Error('Account not found'); }"
    );
    assert_eq!(
        account_script("t\tn\nr\rb\u{8}f\u{c}e\u{1b}z\u{0}한"),
        "var a = document.querySelector(\"ul > li > a[href='#t\\tn\\nr\\rb\\bf\\fe\\u001bz\\u0000한']\"); if (a) { a.click(); } else { throw new Error('Account not found'); }"
    );
}

#[test]
fn the_account_script_fails_where_no_entry_matches() {
    let script = click_script_for("\"#none\"");
    assert_eq!(
        script,
        "var a = document.querySelector(\"#none\"); if (a) { a.click(); } else { throw new Error('Account not found'); }"
    );
    assert!(script.contains("else { throw new Error("));
}

#[test]
fn pp_login_picks_the_account_by_script() {
    let steps = pp_login("me", "secret", "0123456789");
    assert_eq!(steps.len(), 10);
    assert_eq!(steps[2].on_failure, OnFailure::Proceed);
    assert_eq!(steps[4].on_failure, OnFailure::Abort);
    match &steps[6].action {
        Action::Click { locator } => assert_eq!(
            *locator,
            Locator::Css("#intro_form > form > fieldset > input.intro_btn".to_string())
        ),
        other => panic!("unexpected step {:?}", other),
    }
    match &steps[8].action {
        Action::RunScript { script } => assert_eq!(*script, account_script("0123456789")),
        other => panic!("unexpected step {:?}", other),
    }
    match &steps[9].action {
        Action::Wait { timeout_ms, interval_ms, .. } => {
            assert_eq!(*timeout_ms, 10000);
            assert_eq!(*interval_ms, 30);
        }
        other => panic!("unexpected step {:?}", other),
    }
    assert_eq!(user_info_steps().len(), 2);
    assert_eq!(charge_info_steps().len(), 2);
}

#[test]
fn failures_are_told_with_code_and_status() {
    assert_eq!(ErrorResponseCode::create_client().code, 5001);
    assert_eq!(ErrorResponseCode::pp_login().code, 5002);
    assert_eq!(ErrorResponseCode::pp_user_info().code, 5003);
    assert_eq!(ErrorResponseCode::clean_client().message, "Could not clean_client!");
    assert_eq!(ErrorResponseCode::clean_client().status_code, 500);
    let told = ErrorResponseCode::pp_login().with_message("no overlay".to_string());
    assert_eq!(told.message, "Could not pp_login! no overlay");
    assert_eq!(told.code, 5002);
    let with_facts = ErrorResponseCode::pp_login()
        .with_metadata(vec![ErrorResponseMeta::Integer(3), ErrorResponseMeta::String("x".to_string())]);
    assert_eq!(with_facts.meta.len(), 2);
    assert_eq!(with_facts.message, "Could not pp_login!");
    let mut named = std::collections::BTreeMap::new();
    named.insert("when".to_string(), ErrorResponseMeta::TimestampTz("2023-05-01T00:00:00+00:00".to_string()));
    let with_named = ErrorResponseCode::create_client().with_kv_metadata(named);
    assert_eq!(with_named.meta.len(), 1);
    assert_eq!(with_named.status_code, 500);
    assert_eq!(crawl_failure(CrawlError::DriverUnavailable).code, 5001);
    assert_eq!(crawl_failure(CrawlError::DriverUnavailable).message, "Could not create_client!");
    assert_eq!(crawl_failure(CrawlError::SessionConnectFailed).message, "Could not create_client!");
    assert_eq!(crawl_failure(CrawlError::WaitTimeout).code, 5002);
    assert_eq!(crawl_failure(CrawlError::WaitTimeout).message, "Could not pp_login!");
}

#[test]
fn basic_response_carries_data_and_times() {
    let response = basic_response(7u8, "1.5s".to_string(), "2023-05-01T00:00:00Z".to_string());
    assert_eq!(response.data, 7);
    assert_eq!(response.meta.time_taken, "1.5s");
    assert_eq!(response.meta.times_tamp, "2023-05-01T00:00:00Z");
    assert_eq!(MetaResponseData {}, MetaResponseData {});
}

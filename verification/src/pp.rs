//! The power-planner portal as the customer's own pages show it: the login
//! by script, and the pages that describe the contract.

use vstd::prelude::*;
use vstd::string::StringExecFns;

use crate::error::CrawlError;
use crate::flow::Action;
use crate::flow::ActionView;
use crate::flow::OnFailure;
use crate::flow::Step;
use crate::flow::steps_view;
use crate::locator::by_css;
use crate::locator::by_id;
use crate::locator::by_xpath;
use crate::locator::join3;
use crate::locator::LocatorView;
use crate::login::appear_step;
use crate::login::wait_present;
use crate::user_info::day_read;
use crate::user_info::extract_id;
use crate::user_info::id_read;
use crate::user_info::parse_day;
use crate::user_info::purpose_id;
use crate::user_info::purpose_read;
use crate::user_info::regex_first_match;
use crate::user_info::regex_without_matches;
use crate::user_info::UserInfo;
use crate::wait::hidden_by_style;
use crate::wait::HiddenTest;
use crate::wait::WaitCondition;
use crate::wait::WaitConditionView;

verus! {

/// The address of the portal.
pub const PP_URL: &'static str = "https://pp.kepco.co.kr";

/// The address of the portal's home page.
pub const HOME_URL: &'static str = "https://pp.kepco.co.kr/rm/rm0101.do?menu_id=O010101";

/// The address of the page that describes the customer.
pub const USER_INFO_URL: &'static str = "https://pp.kepco.co.kr/mb/mb0101.do?menu_id=O010601";

/// The address of the page that names the pricing plan.
pub const USER_SELECT_CHARGE_URL: &'static str =
    "https://pp.kepco.co.kr/pf/pf0101_1.do?menu_id=O010501";

/// The character that stands for `n` in base sixteen, in lower case.
pub open spec fn hex_digit(n: int) -> char {
    if n < 10 {
        ((n + 0x30) as u8) as char
    } else {
        ((n - 10 + 0x61) as u8) as char
    }
}

/// How a character is written inside a JSON string: the quote and the
/// backslash behind a backslash, the control characters below the blank by
/// their short names (`b`, `f`, `n`, `r`, `t` behind a backslash) or as
/// `u00` and two digits in base sixteen behind one, every other character
/// as it is.
pub open spec fn json_escaped(c: char) -> Seq<char> {
    if c == '"' {
        seq!['\\', '"']
    } else if c == '\\' {
        seq!['\\', '\\']
    } else if c == '\u{8}' {
        seq!['\\', 'b']
    } else if c == '\u{c}' {
        seq!['\\', 'f']
    } else if c == '\n' {
        seq!['\\', 'n']
    } else if c == '\r' {
        seq!['\\', 'r']
    } else if c == '\t' {
        seq!['\\', 't']
    } else if (c as u32) < 0x20 {
        seq!['\\', 'u', '0', '0', hex_digit((c as u32) as int / 16), hex_digit((c as u32) as int % 16)]
    } else {
        seq![c]
    }
}

/// The characters of `text` as they are written inside a JSON string.
pub open spec fn json_body(text: Seq<char>) -> Seq<char>
    decreases text.len(),
{
    if text.len() == 0 {
        Seq::empty()
    } else {
        json_body(text.drop_last()) + json_escaped(text.last())
    }
}

/// `text` as a JSON string: in quotes, with its special characters escaped.
pub open spec fn json_quoted(text: Seq<char>) -> Seq<char> {
    seq!['"'] + json_body(text) + seq!['"']
}

/// `serde_json::to_string` on a text: the text as a JSON string. A text is
/// always written; the empty text stands in for the failure that the call
/// never reports for one.
#[verifier::external_body]
fn json_quote(text: &str) -> (quoted: String)
    ensures
        quoted@ == json_quoted(text@),
{
    match serde_json::to_string(text) {
        Ok(quoted) => quoted,
        Err(_) => String::new(),
    }
}

/// The selector of the entry for the account `user_num` in the list of
/// accounts.
pub open spec fn account_selector(user_num: Seq<char>) -> Seq<char> {
    "ul > li > a[href='#"@ + user_num + "']"@
}

/// The script that clicks the element which the quoted selector finds, and
/// fails where it finds none.
pub open spec fn click_script(quoted_selector: Seq<char>) -> Seq<char> {
    "var a = document.querySelector("@ + quoted_selector
        + "); if (a) { a.click(); } else { throw new Error('Account not found'); }"@
}

/// Writes the script that clicks the element which `quoted_selector` finds.
/// Where the page has no such element the script throws, so that the step
/// which runs it fails.
pub fn click_script_for(quoted_selector: &str) -> (script: String)
    ensures
        script@ == click_script(quoted_selector@),
{
    join3(
        "var a = document.querySelector(",
        quoted_selector,
        "); if (a) { a.click(); } else { throw new Error('Account not found'); }",
    )
}

/// Writes the script that picks the account `user_num`: it clicks the entry
/// of the list whose link is the account's number, and throws where the
/// list has no such entry.
pub fn account_script(user_num: &str) -> (script: String)
    ensures
        script@ == click_script(json_quoted(account_selector(user_num@))),
{
    let selector = join3("ul > li > a[href='#", user_num, "']");
    let quoted = json_quote(selector.as_str());
    click_script_for(quoted.as_str())
}

/// A wait of at most `timeout_ms` for the overlay to go away, looking every
/// thirty milliseconds.
pub open spec fn quick_overlay_step(timeout_ms: u64) -> (ActionView, OnFailure) {
    (
        ActionView::Wait {
            locator: LocatorView::Id("backgroundLayer"@),
            condition: WaitConditionView::Hidden {
                attribute: "style"@,
                marker: "display: none"@,
                test: HiddenTest::Contains,
            },
            timeout_ms,
            interval_ms: 30,
        },
        OnFailure::Abort,
    )
}

/// A step that waits at most `timeout_ms` for the overlay to go away.
pub fn wait_overlay_quick(timeout_ms: u64) -> (step: Step)
    ensures
        step@ == quick_overlay_step(timeout_ms),
{
    Step {
        action: Action::Wait {
            locator: by_id("backgroundLayer"),
            condition: hidden_by_style(),
            timeout_ms,
            interval_ms: 30,
        },
        on_failure: OnFailure::Abort,
    }
}

/// Typing `text` into the element `id`; the flow fails if it cannot.
pub open spec fn must_type_step(id: Seq<char>, text: Seq<char>) -> (ActionView, OnFailure) {
    (ActionView::Type { locator: LocatorView::Id(id), text }, OnFailure::Abort)
}

/// The steps of the login by script: as the login by clicks, but the form
/// is submitted through its button's selector, typing must succeed, the
/// account is picked by `script`, and the overlay gets ten seconds. The
/// step that runs the script fails the login when the script does, as it
/// does where no entry of the list is the account's.
pub open spec fn pp_login_plan(user_id: Seq<char>, user_pw: Seq<char>, script: Seq<char>) -> Seq<
    (ActionView, OnFailure),
> {
    seq![
        (ActionView::Navigate { url: "https://pp.kepco.co.kr"@ }, OnFailure::Abort),
        appear_step("notice_auto_popup"@),
        (
            ActionView::Click { locator: LocatorView::XPath("/html/body/div[2]/div[3]/label"@) },
            OnFailure::Proceed,
        ),
        appear_step("RSA_USER_ID"@),
        must_type_step("RSA_USER_ID"@, user_id),
        must_type_step("RSA_USER_PWD"@, user_pw),
        (
            ActionView::Click {
                locator: LocatorView::Css("#intro_form > form > fieldset > input.intro_btn"@),
            },
            OnFailure::Abort,
        ),
        quick_overlay_step(10000),
        (ActionView::RunScript { script }, OnFailure::Abort),
        quick_overlay_step(10000),
    ]
}

/// A step that types `text` into the element `id` and fails the flow if it
/// cannot.
pub fn must_type(id: &str, text: &str) -> (step: Step)
    ensures
        step@ == must_type_step(id@, text@),
{
    Step {
        action: Action::Type { locator: by_id(id), text: String::from_str(text) },
        on_failure: OnFailure::Abort,
    }
}

/// The steps that log `user_id` in and pick the account `user_num` by
/// script.
pub fn pp_login(user_id: &str, user_pw: &str, user_num: &str) -> (steps: Vec<Step>)
    ensures
        steps_view(steps@) == pp_login_plan(
            user_id@,
            user_pw@,
            click_script(json_quoted(account_selector(user_num@))),
        ),
{
    let mut steps: Vec<Step> = Vec::new();
    steps.push(
        Step {
            action: Action::Navigate { url: String::from_str(PP_URL) },
            on_failure: OnFailure::Abort,
        },
    );
    steps.push(wait_present("notice_auto_popup"));
    steps.push(
        Step {
            action: Action::Click { locator: by_xpath("/html/body/div[2]/div[3]/label") },
            on_failure: OnFailure::Proceed,
        },
    );
    steps.push(wait_present("RSA_USER_ID"));
    steps.push(must_type("RSA_USER_ID", user_id));
    steps.push(must_type("RSA_USER_PWD", user_pw));
    steps.push(
        Step {
            action: Action::Click {
                locator: by_css("#intro_form > form > fieldset > input.intro_btn"),
            },
            on_failure: OnFailure::Abort,
        },
    );
    steps.push(wait_overlay_quick(10000));
    steps.push(
        Step {
            action: Action::RunScript { script: account_script(user_num) },
            on_failure: OnFailure::Abort,
        },
    );
    steps.push(wait_overlay_quick(10000));
    assert(steps_view(steps@) =~= pp_login_plan(
        user_id@,
        user_pw@,
        click_script(json_quoted(account_selector(user_num@))),
    ));
    steps
}

/// The steps that bring up the page which describes the customer.
pub open spec fn user_info_plan() -> Seq<(ActionView, OnFailure)> {
    seq![
        (
            ActionView::Navigate { url: "https://pp.kepco.co.kr/mb/mb0101.do?menu_id=O010601"@ },
            OnFailure::Abort,
        ),
        (
            ActionView::Wait {
                locator: LocatorView::Css("#table2"@),
                condition: WaitConditionView::Present,
                timeout_ms: 30000,
                interval_ms: 250,
            },
            OnFailure::Abort,
        ),
    ]
}

/// The steps that bring up the page which names the pricing plan.
pub open spec fn charge_info_plan() -> Seq<(ActionView, OnFailure)> {
    seq![
        (
            ActionView::Navigate { url: "https://pp.kepco.co.kr/pf/pf0101_1.do?menu_id=O010501"@ },
            OnFailure::Abort,
        ),
        quick_overlay_step(15000),
    ]
}

/// The steps that bring up the page which describes the customer.
pub fn user_info_steps() -> (steps: Vec<Step>)
    ensures
        steps_view(steps@) == user_info_plan(),
{
    let mut steps: Vec<Step> = Vec::new();
    steps.push(
        Step {
            action: Action::Navigate { url: String::from_str(USER_INFO_URL) },
            on_failure: OnFailure::Abort,
        },
    );
    steps.push(
        Step {
            action: Action::Wait {
                locator: by_css("#table2"),
                condition: WaitCondition::Present,
                timeout_ms: 30000,
                interval_ms: 250,
            },
            on_failure: OnFailure::Abort,
        },
    );
    assert(steps_view(steps@) =~= user_info_plan());
    steps
}

/// The steps that bring up the page which names the pricing plan.
pub fn charge_info_steps() -> (steps: Vec<Step>)
    ensures
        steps_view(steps@) == charge_info_plan(),
{
    let mut steps: Vec<Step> = Vec::new();
    steps.push(
        Step {
            action: Action::Navigate { url: String::from_str(USER_SELECT_CHARGE_URL) },
            on_failure: OnFailure::Abort,
        },
    );
    steps.push(wait_overlay_quick(15000));
    assert(steps_view(steps@) =~= charge_info_plan());
    steps
}

/// The texts that the portal's pages show of a customer's contract.
#[derive(Debug)]
pub struct UserInfoCells {
    pub user_number: String,
    pub contract: String,
    pub contract_power: String,
    pub inspection_day: String,
    pub instrument_number: String,
    pub pricing_plan: String,
}

/// The numbers that the texts of a contract stand for: the identifiers of
/// the contract type and of the purpose, the contracted power and the day
/// of inspection. They are looked at in this order; the first that cannot
/// be read decides the failure.
pub open spec fn contract_read(
    contract: Seq<char>,
    pricing_plan: Seq<char>,
    contract_power: Seq<char>,
    inspection_day: Seq<char>,
) -> Result<(i16, i16, i16, i16), CrawlError> {
    match id_read(contract, "contract_type"@) {
        Err(e) => Err(e),
        Ok(contract_type_id) => match purpose_read(
            regex_without_matches("(고압.|저압.)"@, contract),
            pricing_plan,
        ) {
            Err(e) => Err(e),
            Ok(purpose) => match day_read(regex_first_match("\\d+"@, contract_power)) {
                Err(e) => Err(e),
                Ok(power) => match day_read(regex_first_match("\\d+"@, inspection_day)) {
                    Err(e) => Err(e),
                    Ok(day) => Ok((contract_type_id, purpose, power, day)),
                },
            },
        },
    }
}

/// Reads what the portal's pages show of a customer's contract. The
/// customer number and the number of the meter are taken as they stand.
pub fn pp_user_info(cells: UserInfoCells) -> (r: Result<UserInfo, CrawlError>)
    ensures
        match r {
            Ok(info) => contract_read(
                cells.contract@,
                cells.pricing_plan@,
                cells.contract_power@,
                cells.inspection_day@,
            ) == Ok::<(i16, i16, i16, i16), CrawlError>(
                (
                    info.contract_type_id,
                    info.purpose_id,
                    info.contract_power,
                    info.inspection_day,
                ),
            ) && info.user_number == cells.user_number && info.instrument_number
                == cells.instrument_number,
            Err(e) => contract_read(
                cells.contract@,
                cells.pricing_plan@,
                cells.contract_power@,
                cells.inspection_day@,
            ) == Err::<(i16, i16, i16, i16), CrawlError>(e),
        },
{
    let contract_type_id = match extract_id(cells.contract.as_str(), "contract_type") {
        Err(e) => {
            return Err(e);
        },
        Ok(id) => id,
    };
    let purpose = match purpose_id(cells.contract.as_str(), cells.pricing_plan.as_str()) {
        Err(e) => {
            return Err(e);
        },
        Ok(id) => id,
    };
    let contract_power = match parse_day(cells.contract_power.as_str()) {
        Err(e) => {
            return Err(e);
        },
        Ok(n) => n,
    };
    let inspection_day = match parse_day(cells.inspection_day.as_str()) {
        Err(e) => {
            return Err(e);
        },
        Ok(n) => n,
    };
    Ok(
        UserInfo {
            user_number: cells.user_number,
            contract_type_id,
            purpose_id: purpose,
            contract_power,
            inspection_day,
            instrument_number: cells.instrument_number,
        },
    )
}

} // verus!

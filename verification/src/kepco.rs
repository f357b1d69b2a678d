//! The customer portal: the steps that lead to its list of bills, and the
//! way from the list of one year to the pages of the months before it.

use vstd::prelude::*;
use vstd::string::StringExecFns;

use crate::error::CrawlError;
use crate::flow::Action;
use crate::flow::ActionView;
use crate::flow::OnFailure;
use crate::flow::Step;
use crate::flow::steps_view;
use crate::locator::by_id;
use crate::locator::by_xpath;
use crate::locator::LocatorView;
use crate::login::appear_step;
use crate::login::type_into;
use crate::login::wait_present;
use crate::period::get_option_index;
use crate::period::is_labelled;
use crate::period::month_label;
use crate::period::period_label;
use crate::record::KepcoData;
use crate::wait::hidden_by_aria;
use crate::wait::HiddenTest;
use crate::wait::WaitConditionView;

verus! {

/// The address of the customer portal.
pub const KEPCO_URL: &'static str = "https://online.kepco.co.kr";

/// The element that holds the list of bills.
pub const BILL_LIST_ID: &'static str = "mf_wfm_layout_ui_generator";

/// The control that offers the earlier months.
pub const MONTH_SELECT_ID: &'static str = "mf_wfm_layout_slb_searchYm_input_0";

/// A wait of at most twenty seconds for the portal's progress message to be
/// hidden, looking once a second.
pub open spec fn progress_step() -> (ActionView, OnFailure) {
    (
        ActionView::Wait {
            locator: LocatorView::Id("mf_wq_uuid_1_wq_processMsgComp"@),
            condition: WaitConditionView::Hidden {
                attribute: "aria-hidden"@,
                marker: "true"@,
                test: HiddenTest::Equals,
            },
            timeout_ms: 20000,
            interval_ms: 1000,
        },
        OnFailure::Abort,
    )
}

/// A click on the element `id` that the flow cannot do without.
pub open spec fn click_id_step(id: Seq<char>) -> (ActionView, OnFailure) {
    (ActionView::Click { locator: LocatorView::Id(id) }, OnFailure::Abort)
}

/// A click on the element at `path` that is tried up to ten times.
pub open spec fn patient_click_step(path: Seq<char>) -> (ActionView, OnFailure) {
    (
        ActionView::ClickWithRetries { locator: LocatorView::XPath(path), max_attempts: 10 },
        OnFailure::Abort,
    )
}

/// Typing `text` into the element `id`, for what it is worth.
pub open spec fn type_step(id: Seq<char>, text: Seq<char>) -> (ActionView, OnFailure) {
    (ActionView::Type { locator: LocatorView::Id(id), text }, OnFailure::Proceed)
}

/// The steps from the portal's front page to the list of the bills of one
/// year: open the site map, open the login form, type login and password
/// and submit, open the page of the bills, wait for it to settle, type the
/// customer number and search, scroll to the foot of the page and open the
/// details, choose one year, and wait for the page to settle.
pub open spec fn kepco_plan(user_id: Seq<char>, user_pw: Seq<char>, user_num: Seq<char>) -> Seq<
    (ActionView, OnFailure),
> {
    seq![
        (ActionView::Navigate { url: "https://online.kepco.co.kr"@ }, OnFailure::Abort),
        appear_step("mf_wfm_header_gnb_btnSiteMap"@),
        click_id_step("mf_wfm_header_gnb_btnSiteMap"@),
        appear_step("mf_wfm_header_gnb_mobileGoLogin"@),
        click_id_step("mf_wfm_header_gnb_mobileGoLogin"@),
        appear_step("mf_wfm_header_gnb_login_popup_wframe_ui_id"@),
        type_step("mf_wfm_header_gnb_login_popup_wframe_ui_id"@, user_id),
        type_step("mf_wfm_header_gnb_login_popup_wframe_ui_pw"@, user_pw),
        click_id_step("mf_wfm_header_gnb_login_popup_wframe_btn_login"@),
        patient_click_step("/html/body/div[2]/div[3]/div/div/div[4]/div/div[2]/div[1]/a[3]"@),
        appear_step("mf_wfm_layout_inp_searchCustNo"@),
        progress_step(),
        type_step("mf_wfm_layout_inp_searchCustNo"@, user_num),
        click_id_step("mf_wfm_layout_btn_search"@),
        appear_step("mf_wfm_layout_ui_generator_0_btn_moveDetail"@),
        (
            ActionView::RunScript { script: "window.scrollTo(0, document.body.scrollHeight);"@ },
            OnFailure::Abort,
        ),
        click_id_step("mf_wfm_layout_ui_generator_0_btn_moveDetail"@),
        patient_click_step("//option[text()='1년']"@),
        progress_step(),
    ]
}

/// The steps from the list of one year back to the page that offers the
/// earlier months: go back, wait for the control, wait for the page to
/// settle.
pub open spec fn kepco_return_plan() -> Seq<(ActionView, OnFailure)> {
    seq![
        (ActionView::Back, OnFailure::Abort),
        appear_step("mf_wfm_layout_slb_searchYm_input_0"@),
        progress_step(),
    ]
}

/// The steps that bring up the bill of the month at `index`: choose the
/// option, wait for the page to settle, type the customer number and
/// search, and wait for the list to appear.
pub open spec fn kepco_month_plan(index: usize, user_num: Seq<char>) -> Seq<
    (ActionView, OnFailure),
> {
    seq![
        (
            ActionView::SelectOption {
                select: LocatorView::Id("mf_wfm_layout_slb_searchYm_input_0"@),
                index,
            },
            OnFailure::Abort,
        ),
        progress_step(),
        type_step("mf_wfm_layout_inp_searchCustNo"@, user_num),
        click_id_step("mf_wfm_layout_btn_search"@),
        appear_step("mf_wfm_layout_ui_generator"@),
    ]
}

/// A step that waits for the portal's progress message to be hidden.
pub fn wait_progress() -> (step: Step)
    ensures
        step@ == progress_step(),
{
    Step {
        action: Action::Wait {
            locator: by_id("mf_wq_uuid_1_wq_processMsgComp"),
            condition: hidden_by_aria(),
            timeout_ms: 20000,
            interval_ms: 1000,
        },
        on_failure: OnFailure::Abort,
    }
}

/// A step that clicks the element `id`.
pub fn click_id(id: &str) -> (step: Step)
    ensures
        step@ == click_id_step(id@),
{
    Step { action: Action::Click { locator: by_id(id) }, on_failure: OnFailure::Abort }
}

/// A step that clicks the element at `path`, trying up to ten times.
pub fn patient_click(path: &str) -> (step: Step)
    ensures
        step@ == patient_click_step(path@),
{
    Step {
        action: Action::ClickWithRetries { locator: by_xpath(path), max_attempts: 10 },
        on_failure: OnFailure::Abort,
    }
}

/// The steps that log `user_id` in at the customer portal and bring up the
/// bills of one year for the customer `user_num`.
pub fn kepco_steps(user_id: &str, user_pw: &str, user_num: &str) -> (steps: Vec<Step>)
    ensures
        steps_view(steps@) == kepco_plan(user_id@, user_pw@, user_num@),
{
    let mut steps: Vec<Step> = Vec::new();
    steps.push(
        Step {
            action: Action::Navigate { url: String::from_str(KEPCO_URL) },
            on_failure: OnFailure::Abort,
        },
    );
    steps.push(wait_present("mf_wfm_header_gnb_btnSiteMap"));
    steps.push(click_id("mf_wfm_header_gnb_btnSiteMap"));
    steps.push(wait_present("mf_wfm_header_gnb_mobileGoLogin"));
    steps.push(click_id("mf_wfm_header_gnb_mobileGoLogin"));
    steps.push(wait_present("mf_wfm_header_gnb_login_popup_wframe_ui_id"));
    steps.push(type_into("mf_wfm_header_gnb_login_popup_wframe_ui_id", user_id));
    steps.push(type_into("mf_wfm_header_gnb_login_popup_wframe_ui_pw", user_pw));
    steps.push(click_id("mf_wfm_header_gnb_login_popup_wframe_btn_login"));
    steps.push(patient_click("/html/body/div[2]/div[3]/div/div/div[4]/div/div[2]/div[1]/a[3]"));
    steps.push(wait_present("mf_wfm_layout_inp_searchCustNo"));
    steps.push(wait_progress());
    steps.push(type_into("mf_wfm_layout_inp_searchCustNo", user_num));
    steps.push(click_id("mf_wfm_layout_btn_search"));
    steps.push(wait_present("mf_wfm_layout_ui_generator_0_btn_moveDetail"));
    steps.push(
        Step {
            action: Action::RunScript {
                script: String::from_str("window.scrollTo(0, document.body.scrollHeight);"),
            },
            on_failure: OnFailure::Abort,
        },
    );
    steps.push(click_id("mf_wfm_layout_ui_generator_0_btn_moveDetail"));
    steps.push(patient_click("//option[text()='1년']"));
    steps.push(wait_progress());
    assert(steps_view(steps@) =~= kepco_plan(user_id@, user_pw@, user_num@));
    steps
}

/// The steps that lead from the list of one year back to the page that
/// offers the earlier months.
pub fn kepco_return_steps() -> (steps: Vec<Step>)
    ensures
        steps_view(steps@) == kepco_return_plan(),
{
    let mut steps: Vec<Step> = Vec::new();
    steps.push(Step { action: Action::Back, on_failure: OnFailure::Abort });
    steps.push(wait_present(MONTH_SELECT_ID));
    steps.push(wait_progress());
    assert(steps_view(steps@) =~= kepco_return_plan());
    steps
}

/// The steps that bring up the bill of the month at `index` for the
/// customer `user_num`.
pub fn kepco_month_steps(index: usize, user_num: &str) -> (steps: Vec<Step>)
    ensures
        steps_view(steps@) == kepco_month_plan(index, user_num@),
{
    let mut steps: Vec<Step> = Vec::new();
    steps.push(
        Step {
            action: Action::SelectOption { select: by_id(MONTH_SELECT_ID), index },
            on_failure: OnFailure::Abort,
        },
    );
    steps.push(wait_progress());
    steps.push(type_into("mf_wfm_layout_inp_searchCustNo", user_num));
    steps.push(click_id("mf_wfm_layout_btn_search"));
    steps.push(wait_present(BILL_LIST_ID));
    assert(steps_view(steps@) =~= kepco_month_plan(index, user_num@));
    steps
}

/// The label of the month that the list of one year ends with: that of the
/// claim month of its last bill, or `N/A` where the list is empty or its
/// last bill names no month. The earlier months are those that the control
/// offers after this one.
pub open spec fn last_label(bills: Seq<KepcoData>) -> Seq<char> {
    if bills.len() > 0 && bills.last().claim_date is Some {
        month_label(bills.last().claim_date->Some_0)
    } else {
        "N/A"@
    }
}

/// Writes the label of the month that the list `bills` ends with.
pub fn reference_label(bills: &Vec<KepcoData>) -> (label: String)
    ensures
        label@ == last_label(bills@),
{
    if bills.len() > 0 {
        match &bills[bills.len() - 1].claim_date {
            Some(date) => period_label(date),
            None => String::from_str("N/A"),
        }
    } else {
        String::from_str("N/A")
    }
}

/// Finds where the months before the list of one year begin: one past the
/// first option that carries `label`, the label of the month the list ends
/// with. Where no option carries it, there is no telling.
pub fn earlier_months_start(labels: &Vec<Option<String>>, label: &str) -> (r: Result<
    usize,
    CrawlError,
>)
    ensures
        match r {
            Ok(start) => 1 <= start <= labels.len() && is_labelled(labels@, start - 1, label@)
                && forall|j: int| 0 <= j < start - 1 ==> !is_labelled(labels@, j, label@),
            Err(e) => e == CrawlError::OptionNotFound && forall|j: int|
                0 <= j < labels.len() ==> !is_labelled(labels@, j, label@),
        },
{
    match get_option_index(labels, label) {
        Ok(found) => Ok(found + 1),
        Err(e) => Err(e),
    }
}

} // verus!

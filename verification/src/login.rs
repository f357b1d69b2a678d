//! Logging in to the power-planner portal and reaching its table of monthly
//! claims: the steps, and the state that each step leaves the login in.

use vstd::prelude::*;
use vstd::string::StringExecFns;

use crate::error::CrawlError;
use crate::flow::Action;
use crate::flow::ActionView;
use crate::flow::Flow;
use crate::flow::FlowStatus;
use crate::flow::OnFailure;
use crate::flow::Step;
use crate::flow::steps_view;
use crate::locator::by_id;
use crate::locator::by_xpath;
use crate::locator::join3;
use crate::locator::xpath_around;
use crate::locator::LocatorView;
use crate::wait::hidden_by_style;
use crate::wait::HiddenTest;
use crate::wait::WaitCondition;
use crate::wait::WaitConditionView;

verus! {

/// How far a login has come.
#[derive(Clone, Copy, Debug, PartialEq, Eq, Structural)]
pub enum LoginState {
    Start,
    NoticeDismissed,
    CredentialsFormReady,
    CredentialsSubmitted,
    OverlayCleared,
    AccountMenuOpen,
    AccountSelected,
    LoggedIn,
    Failed,
}

/// How long a wait for an element to appear may take, in milliseconds.
pub const APPEAR_TIMEOUT_MS: u64 = 30000;

/// How often a wait for an element to appear looks, in milliseconds.
pub const APPEAR_INTERVAL_MS: u64 = 250;

/// How long the portal's overlay may stay after a login step, in milliseconds.
pub const OVERLAY_TIMEOUT_MS: u64 = 20000;

/// How often a wait for the overlay looks, in milliseconds.
pub const OVERLAY_INTERVAL_MS: u64 = 500;

/// The number of steps of a login.
pub const LOGIN_STEPS: usize = 11;

/// A wait for the element `id` to appear.
pub open spec fn appear_step(id: Seq<char>) -> (ActionView, OnFailure) {
    (
        ActionView::Wait {
            locator: LocatorView::Id(id),
            condition: WaitConditionView::Present,
            timeout_ms: 30000,
            interval_ms: 250,
        },
        OnFailure::Abort,
    )
}

/// A wait of at most `timeout_ms` for the portal's overlay to go away.
pub open spec fn overlay_step(timeout_ms: u64) -> (ActionView, OnFailure) {
    (
        ActionView::Wait {
            locator: LocatorView::Id("backgroundLayer"@),
            condition: WaitConditionView::Hidden {
                attribute: "style"@,
                marker: "display: none"@,
                test: HiddenTest::Contains,
            },
            timeout_ms,
            interval_ms: 500,
        },
        OnFailure::Abort,
    )
}

/// A click on the element at `path` that the flow cannot do without.
pub open spec fn click_step(path: Seq<char>) -> (ActionView, OnFailure) {
    (ActionView::Click { locator: LocatorView::XPath(path) }, OnFailure::Abort)
}

/// The steps of a login: open the portal at `entry_url`, wait for the notice
/// and try to dismiss it, wait for the form, type the login and the
/// password, submit, wait for the overlay to clear, open the list of
/// accounts, pick the account `user_num`, and wait for the overlay again.
/// Only waits and clicks can fail the login; the click that dismisses the
/// notice cannot, and neither can the typing.
pub open spec fn login_plan(
    entry_url: Seq<char>,
    user_id: Seq<char>,
    user_pw: Seq<char>,
    user_num: Seq<char>,
) -> Seq<(ActionView, OnFailure)> {
    seq![
        (ActionView::Navigate { url: entry_url }, OnFailure::Abort),
        appear_step("notice_auto_popup"@),
        (
            ActionView::Click { locator: LocatorView::XPath("/html/body/div[2]/div[3]/label"@) },
            OnFailure::Proceed,
        ),
        appear_step("RSA_USER_ID"@),
        (
            ActionView::Type { locator: LocatorView::Id("RSA_USER_ID"@), text: user_id },
            OnFailure::Proceed,
        ),
        (
            ActionView::Type { locator: LocatorView::Id("RSA_USER_PWD"@), text: user_pw },
            OnFailure::Proceed,
        ),
        click_step("/html/body/div[1]/div[2]/div[1]/form/fieldset/input[1]"@),
        overlay_step(20000),
        click_step("/html/body/div[1]/div[1]/div/div/a[2]"@),
        click_step("/html/body/div[1]/div[1]/div/div/ul/li[1]/a[text()='"@ + user_num + "']"@),
        overlay_step(20000),
    ]
}

/// The state of a login that has `cursor` steps behind it and stands at
/// `status`.
pub open spec fn login_state_at(cursor: int, status: FlowStatus) -> LoginState {
    if status is Failed {
        LoginState::Failed
    } else if cursor <= 2 {
        LoginState::Start
    } else if cursor == 3 {
        LoginState::NoticeDismissed
    } else if cursor <= 6 {
        LoginState::CredentialsFormReady
    } else if cursor == 7 {
        LoginState::CredentialsSubmitted
    } else if cursor == 8 {
        LoginState::OverlayCleared
    } else if cursor == 9 {
        LoginState::AccountMenuOpen
    } else if cursor == 10 {
        LoginState::AccountSelected
    } else {
        LoginState::LoggedIn
    }
}

/// A step that waits for the element `id` to appear.
pub fn wait_present(id: &str) -> (step: Step)
    ensures
        step@ == appear_step(id@),
{
    Step {
        action: Action::Wait {
            locator: by_id(id),
            condition: WaitCondition::Present,
            timeout_ms: APPEAR_TIMEOUT_MS,
            interval_ms: APPEAR_INTERVAL_MS,
        },
        on_failure: OnFailure::Abort,
    }
}

/// A step that waits at most `timeout_ms` for the portal's overlay to go
/// away.
pub fn wait_overlay(timeout_ms: u64) -> (step: Step)
    ensures
        step@ == overlay_step(timeout_ms),
{
    Step {
        action: Action::Wait {
            locator: by_id("backgroundLayer"),
            condition: hidden_by_style(),
            timeout_ms,
            interval_ms: OVERLAY_INTERVAL_MS,
        },
        on_failure: OnFailure::Abort,
    }
}

/// A step that clicks the element at `path`.
pub fn click_xpath(path: &str) -> (step: Step)
    ensures
        step@ == click_step(path@),
{
    Step { action: Action::Click { locator: by_xpath(path) }, on_failure: OnFailure::Abort }
}

/// A step that types `text` into the element `id`, for what it is worth.
pub fn type_into(id: &str, text: &str) -> (step: Step)
    ensures
        step@ == (
            ActionView::Type { locator: LocatorView::Id(id@), text: text@ },
            OnFailure::Proceed,
        ),
{
    Step {
        action: Action::Type { locator: by_id(id), text: String::from_str(text) },
        on_failure: OnFailure::Proceed,
    }
}

/// The steps that log `user_id` in at the portal and pick the account
/// `user_num`.
pub fn login_steps(entry_url: &str, user_id: &str, user_pw: &str, user_num: &str) -> (steps: Vec<
    Step,
>)
    ensures
        steps_view(steps@) == login_plan(entry_url@, user_id@, user_pw@, user_num@),
        steps.len() == LOGIN_STEPS,
{
    let mut steps: Vec<Step> = Vec::new();
    steps.push(
        Step {
            action: Action::Navigate { url: String::from_str(entry_url) },
            on_failure: OnFailure::Abort,
        },
    );
    steps.push(wait_present("notice_auto_popup"));
    steps.push(
        Step {
            action: Action::Click { locator: by_xpath("/html/body/div[2]/div[3]/label") },
            on_failure: OnFailure::Proceed,
        },
    );
    steps.push(wait_present("RSA_USER_ID"));
    steps.push(type_into("RSA_USER_ID", user_id));
    steps.push(type_into("RSA_USER_PWD", user_pw));
    steps.push(click_xpath("/html/body/div[1]/div[2]/div[1]/form/fieldset/input[1]"));
    steps.push(wait_overlay(OVERLAY_TIMEOUT_MS));
    steps.push(click_xpath("/html/body/div[1]/div[1]/div/div/a[2]"));
    let entry = join3("/html/body/div[1]/div[1]/div/div/ul/li[1]/a[text()='", user_num, "']");
    steps.push(click_xpath(entry.as_str()));
    steps.push(wait_overlay(OVERLAY_TIMEOUT_MS));
    assert(steps_view(steps@) =~= login_plan(entry_url@, user_id@, user_pw@, user_num@));
    steps
}

/// The state that the login `flow` is in.
pub fn login_state(flow: &Flow) -> (state: LoginState)
    ensures
        state == login_state_at(flow.cursor as int, flow.status),
{
    match flow.status {
        FlowStatus::Failed(_) => LoginState::Failed,
        _ => {
            if flow.cursor <= 2 {
                LoginState::Start
            } else if flow.cursor == 3 {
                LoginState::NoticeDismissed
            } else if flow.cursor <= 6 {
                LoginState::CredentialsFormReady
            } else if flow.cursor == 7 {
                LoginState::CredentialsSubmitted
            } else if flow.cursor == 8 {
                LoginState::OverlayCleared
            } else if flow.cursor == 9 {
                LoginState::AccountMenuOpen
            } else if flow.cursor == 10 {
                LoginState::AccountSelected
            } else {
                LoginState::LoggedIn
            }
        },
    }
}

/// A login is logged in exactly when its flow has finished, and has failed
/// exactly when its flow has.
pub proof fn lemma_login_ends(cursor: int, status: FlowStatus)
    requires
        0 <= cursor <= LOGIN_STEPS,
        status == FlowStatus::Running ==> cursor < LOGIN_STEPS,
        status == FlowStatus::Finished ==> cursor == LOGIN_STEPS,
    ensures
        login_state_at(cursor, status) == LoginState::LoggedIn <==> status == FlowStatus::Finished,
        login_state_at(cursor, status) == LoginState::Failed <==> status is Failed,
{
}

/// The steps from the portal's first page after login to its table of
/// monthly claims: follow the link of the menu, whose target the page
/// names, and wait for the overlay to go away.
pub open spec fn navigation_plan(base_url: Seq<char>) -> Seq<(ActionView, OnFailure)> {
    seq![
        (
            ActionView::FollowLink {
                locator: LocatorView::XPath("/html/body/div[1]/div[2]/div[1]/ul[4]/li[5]/a"@),
                base: base_url,
            },
            OnFailure::Abort,
        ),
        overlay_step(20000),
    ]
}

/// The steps that lead from the logged-in portal at `base_url` to its table
/// of monthly claims.
pub fn navigation_steps(base_url: &str) -> (steps: Vec<Step>)
    ensures
        steps_view(steps@) == navigation_plan(base_url@),
{
    let mut steps: Vec<Step> = Vec::new();
    steps.push(
        Step {
            action: Action::FollowLink {
                locator: by_xpath("/html/body/div[1]/div[2]/div[1]/ul[4]/li[5]/a"),
                base: String::from_str(base_url),
            },
            on_failure: OnFailure::Abort,
        },
    );
    steps.push(wait_overlay(OVERLAY_TIMEOUT_MS));
    assert(steps_view(steps@) =~= navigation_plan(base_url@));
    steps
}

/// The address that a link leads to: `base` followed by the link's `href`.
/// A link that names no target cannot be followed.
pub fn link_target(base: &str, href: Option<String>) -> (r: Result<String, CrawlError>)
    ensures
        match href {
            Some(path) => r matches Ok(url) && url@ == base@ + path@,
            None => r == Err::<String, CrawlError>(CrawlError::ElementNotFound),
        },
{
    match href {
        Some(path) => {
            let url = join3(base, path.as_str(), "");
            proof {
                reveal_strlit("");
                assert(base@ + path@ + ""@ =~= base@ + path@);
            }
            Ok(url)
        },
        None => Err(CrawlError::ElementNotFound),
    }
}

} // verus!

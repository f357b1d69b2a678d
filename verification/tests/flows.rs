use kepco_crawler::date::Date;
use kepco_crawler::driver::binary_path_key;
use kepco_crawler::driver::click_retry;
use kepco_crawler::driver::connect_retry;
use kepco_crawler::driver::shutdown_chromedriver;
use kepco_crawler::driver::ChromeOptions;
use kepco_crawler::driver::RetryPolicy;
use kepco_crawler::driver::RetryStep;
use kepco_crawler::driver::Shutdown;
use kepco_crawler::error::CrawlError;
use kepco_crawler::flow::Action;
use kepco_crawler::flow::Flow;
use kepco_crawler::flow::FlowStatus;
use kepco_crawler::flow::OnFailure;
use kepco_crawler::flow::StepOutcome;
use kepco_crawler::kepco::earlier_months_start;
use kepco_crawler::kepco::kepco_month_steps;
use kepco_crawler::kepco::kepco_return_steps;
use kepco_crawler::kepco::kepco_steps;
use kepco_crawler::kepco::reference_label;
use kepco_crawler::locator::Locator;
use kepco_crawler::login::link_target;
use kepco_crawler::login::login_state;
use kepco_crawler::login::login_steps;
use kepco_crawler::login::navigation_steps;
use kepco_crawler::login::LoginState;
use kepco_crawler::period::get_option_index;
use kepco_crawler::period::period_label;
use kepco_crawler::period::period_steps;
use kepco_crawler::period::PeriodIterator;
use kepco_crawler::period::PeriodPolicy;
use kepco_crawler::period::PeriodStatus;
use kepco_crawler::period::VisitOutcome;
use kepco_crawler::wait::decide_poll;
use kepco_crawler::wait::hidden_by_aria;
use kepco_crawler::wait::hidden_by_style;
use kepco_crawler::wait::meets;
use kepco_crawler::wait::Observation;
use kepco_crawler::wait::PollStep;
use kepco_crawler::wait::WaitCondition;

fn login() -> Flow {
    Flow::new(login_steps("https://pp.kepco.co.kr/intro.do", "me", "secret", "0123456789"))
}

fn seen(value: &str) -> Observation {
    Observation::Found(Some(value.to_string()))
}

#[test]
fn login_passes_through_its_states_in_order() {
    let mut flow = login();
    let mut states = vec![login_state(&flow)];
    while !flow.is_over() {
        flow.report(StepOutcome::Done);
        let state = login_state(&flow);
        if *states.last().unwrap() != state {
            states.push(state);
        }
    }
    assert_eq!(
        states,
        vec![
            LoginState::Start,
            LoginState::NoticeDismissed,
            LoginState::CredentialsFormReady,
            LoginState::CredentialsSubmitted,
            LoginState::OverlayCleared,
            LoginState::AccountMenuOpen,
            LoginState::AccountSelected,
            LoginState::LoggedIn,
        ]
    );
    assert_eq!(flow.status, FlowStatus::Finished);
    assert_eq!(flow.cursor, 11);
}

#[test]
fn login_goes_on_when_the_notice_stays() {
    let mut flow = login();
    flow.report(StepOutcome::Done);
    flow.report(StepOutcome::Done);
    flow.report(StepOutcome::Failed(CrawlError::ClickFailed));
    assert_eq!(flow.status, FlowStatus::Running);
    assert_eq!(login_state(&flow), LoginState::NoticeDismissed);
}

#[test]
fn login_fails_on_an_unmet_wait() {
    let mut flow = login();
    flow.report(StepOutcome::Done);
    flow.report(StepOutcome::Failed(CrawlError::WaitTimeout));
    assert_eq!(flow.status, FlowStatus::Failed(CrawlError::WaitTimeout));
    assert_eq!(login_state(&flow), LoginState::Failed);
    assert!(flow.current().is_none());
    flow.report(StepOutcome::Done);
    flow.report(StepOutcome::Failed(CrawlError::ClickFailed));
    assert_eq!(flow.status, FlowStatus::Failed(CrawlError::WaitTimeout));
    assert_eq!(flow.cursor, 1);
}

#[test]
fn login_can_fail_from_every_step_but_the_optional_ones() {
    for failing in 0..11usize {
        let mut flow = login();
        for _ in 0..failing {
            flow.report(StepOutcome::Done);
        }
        let optional = flow.current().unwrap().on_failure == OnFailure::Proceed;
        flow.report(StepOutcome::Failed(CrawlError::ElementNotFound));
        assert_eq!(optional, failing == 2 || failing == 4 || failing == 5);
        if optional {
            assert_ne!(login_state(&flow), LoginState::Failed);
        } else {
            assert_eq!(login_state(&flow), LoginState::Failed);
        }
    }
}

#[test]
fn a_finished_login_stays_finished() {
    let mut flow = login();
    for _ in 0..11 {
        flow.report(StepOutcome::Done);
    }
    assert!(flow.is_over());
    flow.report(StepOutcome::Failed(CrawlError::WaitTimeout));
    assert_eq!(flow.status, FlowStatus::Finished);
    assert_eq!(login_state(&flow), LoginState::LoggedIn);
}

#[test]
fn login_steps_carry_the_credentials() {
    let flow = login();
    match &flow.steps[0].action {
        Action::Navigate { url } => assert_eq!(url, "https://pp.kepco.co.kr/intro.do"),
        other => panic!("unexpected first step {:?}", other),
    }
    match &flow.steps[4].action {
        Action::Type { locator, text } => {
            assert_eq!(*locator, Locator::Id("RSA_USER_ID".to_string()));
            assert_eq!(text, "me");
        }
        other => panic!("unexpected step {:?}", other),
    }
    match &flow.steps[9].action {
        Action::Click { locator } => assert_eq!(
            *locator,
            Locator::XPath(
                "/html/body/div[1]/div[1]/div/div/ul/li[1]/a[text()='0123456789']".to_string()
            )
        ),
        other => panic!("unexpected step {:?}", other),
    }
    match &flow.steps[10].action {
        Action::Wait { timeout_ms, interval_ms, .. } => {
            assert_eq!(*timeout_ms, 20000);
            assert_eq!(*interval_ms, 500);
        }
        other => panic!("unexpected step {:?}", other),
    }
}

#[test]
fn an_empty_flow_is_finished_at_once() {
    let flow = Flow::new(Vec::new());
    assert_eq!(flow.status, FlowStatus::Finished);
    assert!(flow.current().is_none());
}

#[test]
fn navigation_follows_the_link_and_waits() {
    let steps = navigation_steps("https://pp.kepco.co.kr");
    assert_eq!(steps.len(), 2);
    match &steps[0].action {
        Action::FollowLink { locator, base } => {
            assert_eq!(
                *locator,
                Locator::XPath("/html/body/div[1]/div[2]/div[1]/ul[4]/li[5]/a".to_string())
            );
            assert_eq!(base, "https://pp.kepco.co.kr");
        }
        other => panic!("unexpected step {:?}", other),
    }
    assert_eq!(steps[0].on_failure, OnFailure::Abort);
    assert_eq!(steps[1].on_failure, OnFailure::Abort);
}

#[test]
fn link_target_joins_base_and_href() {
    assert_eq!(
        link_target("https://pp.kepco.co.kr", Some("/cc/cc0102.do?menu_id=O010402".to_string())),
        Ok("https://pp.kepco.co.kr/cc/cc0102.do?menu_id=O010402".to_string())
    );
    assert_eq!(link_target("https://pp.kepco.co.kr", None), Err(CrawlError::ElementNotFound));
}

#[test]
fn kepco_steps_are_nineteen() {
    let steps = kepco_steps("me", "secret", "0123456789");
    assert_eq!(steps.len(), 19);
    match &steps[12].action {
        Action::Type { locator, text } => {
            assert_eq!(*locator, Locator::Id("mf_wfm_layout_inp_searchCustNo".to_string()));
            assert_eq!(text, "0123456789");
        }
        other => panic!("unexpected step {:?}", other),
    }
    match &steps[17].action {
        Action::ClickWithRetries { locator, max_attempts } => {
            assert_eq!(*locator, Locator::XPath("//option[text()='1년']".to_string()));
            assert_eq!(*max_attempts, 10);
        }
        other => panic!("unexpected step {:?}", other),
    }
    assert_eq!(kepco_return_steps().len(), 3);
    let month = kepco_month_steps(4, "0123456789");
    assert_eq!(month.len(), 5);
    match &month[0].action {
        Action::SelectOption { index, .. } => assert_eq!(*index, 4),
        other => panic!("unexpected step {:?}", other),
    }
}

#[test]
fn a_wait_ends_when_the_overlay_is_hidden() {
    let hidden = hidden_by_style();
    assert!(meets(&hidden, &seen("z-index: 9; display: none;")));
    assert!(!meets(&hidden, &seen("display: block")));
    assert!(!meets(&hidden, &seen("")));
    assert!(!meets(&hidden, &Observation::Found(None)));
    assert!(!meets(&hidden, &Observation::Missing));
    let aria = hidden_by_aria();
    assert!(meets(&aria, &seen("true")));
    assert!(!meets(&aria, &seen("true ")));
    assert!(!meets(&aria, &seen("false")));
    assert!(meets(&WaitCondition::Present, &Observation::Found(None)));
    assert!(!meets(&WaitCondition::Present, &Observation::Missing));
}

#[test]
fn a_wait_polls_until_its_time_is_up() {
    let hidden = hidden_by_style();
    assert_eq!(decide_poll(&hidden, &seen("display: none"), 0, 20000, 500), PollStep::Done);
    assert_eq!(decide_poll(&hidden, &seen("display: none"), 30000, 20000, 500), PollStep::Done);
    assert_eq!(
        decide_poll(&hidden, &seen("display: block"), 0, 20000, 500),
        PollStep::Retry { sleep_ms: 500 }
    );
    assert_eq!(
        decide_poll(&hidden, &seen("display: block"), 19800, 20000, 500),
        PollStep::Retry { sleep_ms: 200 }
    );
    assert_eq!(
        decide_poll(&hidden, &seen("display: block"), 20000, 20000, 500),
        PollStep::TimedOut
    );
    assert_eq!(decide_poll(&hidden, &Observation::Missing, 20001, 20000, 30), PollStep::TimedOut);
    assert_eq!(
        decide_poll(&WaitCondition::Present, &Observation::Missing, 10, 1000, 1000),
        PollStep::Retry { sleep_ms: 990 }
    );
}

#[test]
fn periods_are_visited_one_by_one() {
    let mut it = PeriodIterator::new(1, 4, PeriodPolicy::AbortRequest);
    let mut visited = Vec::new();
    while let Some(index) = it.current() {
        visited.push(index);
        it.report(VisitOutcome::Collected);
    }
    assert_eq!(visited, vec![1, 2, 3]);
    assert_eq!(it.status, PeriodStatus::Done);
    it.report(VisitOutcome::Failed(CrawlError::WaitTimeout));
    assert_eq!(it.status, PeriodStatus::Done);
    assert_eq!(it.next, 4);
}

#[test]
fn no_periods_are_left_when_the_start_is_past_the_end() {
    assert_eq!(PeriodIterator::new(1, 1, PeriodPolicy::SkipPeriod).current(), None);
    assert_eq!(PeriodIterator::new(5, 2, PeriodPolicy::SkipPeriod).status, PeriodStatus::Done);
    assert_eq!(PeriodIterator::new(0, 0, PeriodPolicy::AbortRequest).current(), None);
}

#[test]
fn a_failed_period_is_handled_as_the_policy_says() {
    let failed = VisitOutcome::Failed(CrawlError::WaitTimeout);
    let mut it = PeriodIterator::new(1, 4, PeriodPolicy::AbortRequest);
    it.report(VisitOutcome::Collected);
    it.report(failed);
    assert_eq!(it.status, PeriodStatus::Failed(CrawlError::WaitTimeout));
    assert_eq!(it.current(), None);
    let mut it = PeriodIterator::new(1, 4, PeriodPolicy::KeepCollected);
    it.report(failed);
    assert_eq!(it.status, PeriodStatus::Done);
    assert_eq!(it.next, 1);
    let mut it = PeriodIterator::new(1, 4, PeriodPolicy::SkipPeriod);
    it.report(failed);
    assert_eq!(it.current(), Some(2));
    it.report(failed);
    it.report(failed);
    assert_eq!(it.status, PeriodStatus::Done);
}

#[test]
fn period_steps_select_search_and_wait() {
    let steps = period_steps(3);
    assert_eq!(steps.len(), 3);
    match &steps[0].action {
        Action::SelectOption { select, index } => {
            assert_eq!(*select, Locator::Id("year".to_string()));
            assert_eq!(*index, 3);
        }
        other => panic!("unexpected step {:?}", other),
    }
    match &steps[2].action {
        Action::Wait { timeout_ms, .. } => assert_eq!(*timeout_ms, 10000),
        other => panic!("unexpected step {:?}", other),
    }
}

#[test]
fn the_option_with_the_label_is_found() {
    let labels = vec![
        Some("2023년 07월".to_string()),
        None,
        Some("2023년 06월".to_string()),
        Some("2023년 05월".to_string()),
        Some("2023년 06월".to_string()),
    ];
    assert_eq!(get_option_index(&labels, "2023년 06월"), Ok(2));
    assert_eq!(get_option_index(&labels, "2023년 07월"), Ok(0));
    assert_eq!(get_option_index(&labels, "2023년 04월"), Err(CrawlError::OptionNotFound));
    assert_eq!(get_option_index(&labels, "N/A"), Err(CrawlError::OptionNotFound));
    assert_eq!(get_option_index(&Vec::new(), ""), Err(CrawlError::OptionNotFound));
}

#[test]
fn the_earlier_months_begin_after_the_month_the_list_ends_with() {
    let labels = vec![
        Some("2023년 07월".to_string()),
        None,
        Some("2023년 06월".to_string()),
        Some("2023년 05월".to_string()),
    ];
    assert_eq!(earlier_months_start(&labels, "2023년 07월"), Ok(1));
    assert_eq!(earlier_months_start(&labels, "2023년 06월"), Ok(3));
    assert_eq!(earlier_months_start(&labels, "2023년 05월"), Ok(4));
    assert_eq!(earlier_months_start(&labels, "N/A"), Err(CrawlError::OptionNotFound));
}

#[test]
fn labels_are_written_with_two_digits_for_the_month() {
    assert_eq!(period_label(&Date { year: 2023, month: 5, day: 1 }), "2023년 05월");
    assert_eq!(period_label(&Date { year: 2023, month: 12, day: 31 }), "2023년 12월");
    assert_eq!(period_label(&Date { year: 987, month: 1, day: 1 }), "987년 01월");
    assert_eq!(period_label(&Date { year: -12, month: 10, day: 1 }), "-12년 10월");
    assert_eq!(period_label(&Date { year: 0, month: 3, day: 1 }), "0년 03월");
    assert_eq!(reference_label(&Vec::new()), "N/A");
}

#[test]
fn connecting_is_tried_a_bounded_number_of_times() {
    let policy = RetryPolicy { max_attempts: 5, first_pause_ms: 300, longest_pause_ms: 2000 };
    assert_eq!(connect_retry(policy, 0), RetryStep::Retry { pause_ms: 300 });
    assert_eq!(connect_retry(policy, 1), RetryStep::Retry { pause_ms: 300 });
    assert_eq!(connect_retry(policy, 2), RetryStep::Retry { pause_ms: 600 });
    assert_eq!(connect_retry(policy, 3), RetryStep::Retry { pause_ms: 1200 });
    assert_eq!(connect_retry(policy, 4), RetryStep::Retry { pause_ms: 2000 });
    assert_eq!(connect_retry(policy, 5), RetryStep::GiveUp(CrawlError::DriverUnavailable));
    assert_eq!(connect_retry(policy, 99), RetryStep::GiveUp(CrawlError::DriverUnavailable));
    let none = RetryPolicy { max_attempts: 0, first_pause_ms: 1, longest_pause_ms: 1 };
    assert_eq!(connect_retry(none, 0), RetryStep::GiveUp(CrawlError::DriverUnavailable));
    let steep = RetryPolicy { max_attempts: 80, first_pause_ms: 9, longest_pause_ms: u64::MAX };
    assert_eq!(connect_retry(steep, 70), RetryStep::Retry { pause_ms: u64::MAX });
    let capped = RetryPolicy { max_attempts: 3, first_pause_ms: 5000, longest_pause_ms: 1000 };
    assert_eq!(connect_retry(capped, 1), RetryStep::Retry { pause_ms: 1000 });
}

#[test]
fn a_click_is_tried_again_until_its_tries_are_used_up() {
    assert_eq!(click_retry(0, 10), RetryStep::Retry { pause_ms: 1000 });
    assert_eq!(click_retry(9, 10), RetryStep::Retry { pause_ms: 1000 });
    assert_eq!(click_retry(10, 10), RetryStep::GiveUp(CrawlError::ClickFailed));
    assert_eq!(click_retry(0, 0), RetryStep::GiveUp(CrawlError::ClickFailed));
}

#[test]
fn shutting_down_twice_does_no_harm() {
    assert_eq!(shutdown_chromedriver(false), Shutdown::Kill);
    assert_eq!(shutdown_chromedriver(true), Shutdown::Nothing);
    assert_eq!(shutdown_chromedriver(true), Shutdown::Nothing);
}

#[test]
fn chrome_options_end_with_the_profile_directory() {
    let options = ChromeOptions::new("/usr/bin/google-chrome".to_string(), "/tmp/profile-1");
    assert_eq!(options.binary, "/usr/bin/google-chrome");
    assert_eq!(
        options.args,
        vec![
            "--headless",
            "--disable-gpu",
            "--disable-translate",
            "--disable-background-timer-throttling",
            "--disable-client-side-phishing-detection",
            "--disable-default-apps",
            "--disable-features=TranslateUI",
            "--no-first-run",
            "--mute-audio",
            "--window-size=774,857",
            "--user-data-dir=/tmp/profile-1",
        ]
    );
    assert_eq!(binary_path_key(true), "CHROME_BINARY_PATH");
    assert_eq!(binary_path_key(false), "CHROME_BINARY_PATH_TEST");
}

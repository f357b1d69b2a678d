//! Going through the earlier periods that a page offers, one after the
//! other: each visit changes the page, so no two are ever under way at once.

use vstd::prelude::*;

use crate::date::Date;
use crate::error::CrawlError;
use crate::flow::Action;
use crate::flow::ActionView;
use crate::flow::OnFailure;
use crate::flow::Step;
use crate::flow::steps_view;
use crate::locator::by_id;
use crate::locator::LocatorView;
use crate::login::click_step;
use crate::login::click_xpath;
use crate::login::overlay_step;
use crate::login::wait_overlay;
use crate::text::from_chars;
use crate::text::decimal_digits;
use crate::text::push_decimal;
use crate::text::push_str;
use crate::text::to_chars;

verus! {

/// What becomes of the crawl when a period cannot be visited.
#[derive(Clone, Copy, Debug, PartialEq, Eq, Structural)]
pub enum PeriodPolicy {
    /// The whole request fails.
    AbortRequest,
    /// The visits end; what was collected so far is kept.
    KeepCollected,
    /// The period is left out; the visits go on with the next.
    SkipPeriod,
}

/// Where the visits stand.
#[derive(Clone, Copy, Debug, PartialEq, Eq, Structural)]
pub enum PeriodStatus {
    /// The option at `next` is to be visited.
    Visiting,
    /// No option is left to visit.
    Done,
    /// A visit failed and took the request with it.
    Failed(CrawlError),
}

/// How the visit of one period went.
#[derive(Clone, Copy, Debug, PartialEq, Eq, Structural)]
pub enum VisitOutcome {
    /// The page of the period was reached and its batch collected.
    Collected,
    /// The period could not be selected, or its page did not settle.
    Failed(CrawlError),
}

/// The visits of the options `next`, `next + 1`, ... up to `total`.
#[derive(Clone, Copy, Debug, PartialEq, Eq, Structural)]
pub struct PeriodIterator {
    pub next: usize,
    pub total: usize,
    pub policy: PeriodPolicy,
    pub status: PeriodStatus,
}

/// Where visits stand that have the options below `next` behind them.
pub open spec fn visits_at(next: int, total: int) -> PeriodStatus {
    if next < total {
        PeriodStatus::Visiting
    } else {
        PeriodStatus::Done
    }
}

/// Where the visits stand after `outcome` is reported for the option at
/// `it.next`. Visits that are over stay as they are. A collected period, or
/// a failed one under `SkipPeriod`, leads on to the next option. A failed
/// one ends the visits under `KeepCollected` and fails them under
/// `AbortRequest`.
pub open spec fn after_visit(it: PeriodIterator, outcome: VisitOutcome) -> PeriodIterator {
    if it.status != PeriodStatus::Visiting || it.next >= it.total {
        it
    } else {
        match (outcome, it.policy) {
            (VisitOutcome::Failed(e), PeriodPolicy::AbortRequest) => PeriodIterator {
                status: PeriodStatus::Failed(e),
                ..it
            },
            (VisitOutcome::Failed(_), PeriodPolicy::KeepCollected) => PeriodIterator {
                status: PeriodStatus::Done,
                ..it
            },
            _ => PeriodIterator {
                next: (it.next + 1) as usize,
                status: visits_at(it.next + 1, it.total as int),
                ..it
            },
        }
    }
}

impl PeriodIterator {
    /// Visits that are under way have an option to visit.
    pub open spec fn wf(&self) -> bool {
        self.status == PeriodStatus::Visiting ==> self.next < self.total
    }

    /// The visits of the options from `start` on, of `total` options in all.
    /// The options before `start` are taken as covered already.
    pub fn new(start: usize, total: usize, policy: PeriodPolicy) -> (it: PeriodIterator)
        ensures
            it.wf(),
            it == (PeriodIterator {
                next: start,
                total,
                policy,
                status: visits_at(start as int, total as int),
            }),
    {
        let status = if start < total {
            PeriodStatus::Visiting
        } else {
            PeriodStatus::Done
        };
        PeriodIterator { next: start, total, policy, status }
    }

    /// The option to visit next, if any is left.
    pub fn current(&self) -> (index: Option<usize>)
        ensures
            index == if self.status == PeriodStatus::Visiting && self.next < self.total {
                Some(self.next)
            } else {
                None::<usize>
            },
    {
        match self.status {
            PeriodStatus::Visiting => {
                if self.next < self.total {
                    Some(self.next)
                } else {
                    None
                }
            },
            _ => None,
        }
    }

    /// Takes note of how the visit of the current option went.
    pub fn report(&mut self, outcome: VisitOutcome)
        ensures
            old(self).wf() ==> final(self).wf(),
            *final(self) == after_visit(*old(self), outcome),
    {
        match self.status {
            PeriodStatus::Visiting => {
                if self.next < self.total {
                    match (outcome, self.policy) {
                        (VisitOutcome::Failed(e), PeriodPolicy::AbortRequest) => {
                            self.status = PeriodStatus::Failed(e);
                        },
                        (VisitOutcome::Failed(_), PeriodPolicy::KeepCollected) => {
                            self.status = PeriodStatus::Done;
                        },
                        _ => {
                            self.next = self.next + 1;
                            if self.next >= self.total {
                                self.status = PeriodStatus::Done;
                            }
                        },
                    }
                }
            },
            _ => {},
        }
    }
}

/// Visits go forward one option at a time and never come back; under
/// `SkipPeriod` and `KeepCollected` they never fail.
pub proof fn lemma_visits_in_order(it: PeriodIterator, outcome: VisitOutcome)
    requires
        it.wf(),
    ensures
        it.next <= after_visit(it, outcome).next <= it.next + 1,
        after_visit(it, outcome).total == it.total,
        after_visit(it, outcome).policy == it.policy,
        it.policy != PeriodPolicy::AbortRequest && !(it.status is Failed) ==> !(after_visit(
            it,
            outcome,
        ).status is Failed),
        it.status == PeriodStatus::Visiting && outcome == VisitOutcome::Collected ==> after_visit(
            it,
            outcome,
        ).next == it.next + 1,
{
}

/// The steps that bring up the page of one period of the power-planner
/// table: choose the option, ask for the search, and wait at most ten
/// seconds for the overlay to go away.
pub open spec fn period_plan(index: usize) -> Seq<(ActionView, OnFailure)> {
    seq![
        (
            ActionView::SelectOption { select: LocatorView::Id("year"@), index },
            OnFailure::Abort,
        ),
        click_step("//*[@id='txt']/div[2]/p/span[1]/a"@),
        overlay_step(10000),
    ]
}

/// The steps that bring up the page of the period at `index`.
pub fn period_steps(index: usize) -> (steps: Vec<Step>)
    ensures
        steps_view(steps@) == period_plan(index),
{
    let mut steps: Vec<Step> = Vec::new();
    steps.push(
        Step {
            action: Action::SelectOption { select: by_id("year"), index },
            on_failure: OnFailure::Abort,
        },
    );
    steps.push(click_xpath("//*[@id='txt']/div[2]/p/span[1]/a"));
    steps.push(wait_overlay(10000));
    assert(steps_view(steps@) =~= period_plan(index));
    steps
}

/// Whether the option at `i` carries the label `text`.
pub open spec fn is_labelled(labels: Seq<Option<String>>, i: int, text: Seq<char>) -> bool {
    labels[i] matches Some(label) && label@ == text
}

/// Finds the option that carries the label `text`: the first of them, by
/// its place. An option whose label could not be read never matches.
pub fn get_option_index(labels: &Vec<Option<String>>, text: &str) -> (r: Result<usize, CrawlError>)
    ensures
        match r {
            Ok(i) => i < labels.len() && is_labelled(labels@, i as int, text@) && forall|j: int|
                0 <= j < i ==> !is_labelled(labels@, j, text@),
            Err(e) => e == CrawlError::OptionNotFound && forall|j: int|
                0 <= j < labels.len() ==> !is_labelled(labels@, j, text@),
        },
{
    let wanted = to_chars(text);
    let mut i: usize = 0;
    while i < labels.len()
        invariant
            i <= labels.len(),
            wanted@ == text@,
            forall|j: int| 0 <= j < i ==> !is_labelled(labels@, j, text@),
        decreases labels.len() - i,
    {
        match &labels[i] {
            Some(label) => {
                let have = to_chars(label.as_str());
                let same = have.len() == wanted.len() && crate::text::matches_at(
                    &have,
                    &wanted,
                    0,
                );
                assert(same ==> have@.subrange(0, wanted@.len() as int) == have@);
                assert(have@ == wanted@ ==> have@.subrange(0, wanted@.len() as int) == wanted@);
                if same {
                    return Ok(i);
                }
            },
            None => {},
        }
        i += 1;
    }
    Err(CrawlError::OptionNotFound)
}

/// What the customer portal calls the month of `date`: the year, `년`, the
/// month in two digits, `월`. Years before 0 are written with `-`.
pub open spec fn month_label(date: Date) -> Seq<char> {
    let year = if date.year < 0 {
        seq!['-'] + decimal_digits((-date.year) as nat)
    } else {
        decimal_digits(date.year as nat)
    };
    let month = if date.month < 10 {
        seq!['0'] + decimal_digits(date.month as nat)
    } else {
        decimal_digits(date.month as nat)
    };
    year + "년 "@ + month + "월"@
}

/// Writes the label of the month of `date`.
pub fn period_label(date: &Date) -> (label: String)
    ensures
        label@ == month_label(*date),
{
    let mut out: Vec<char> = Vec::new();
    if date.year < 0 {
        out.push('-');
        let positive: u64 = (-(date.year as i64)) as u64;
        push_decimal(&mut out, positive);
    } else {
        push_decimal(&mut out, date.year as u64);
    }
    let ghost year = out@;
    push_str(&mut out, "년 ");
    if date.month < 10 {
        out.push('0');
    }
    push_decimal(&mut out, date.month as u64);
    push_str(&mut out, "월");
    assert(out@ =~= month_label(*date));
    assert(out@.subrange(0, out.len() as int) == out@);
    from_chars(&out, 0, out.len())
}

} // verus!

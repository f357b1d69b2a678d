//! A crawl as a sequence of browser steps, and the bookkeeping of how far it
//! has come.
//!
//! The library decides; the caller acts. The caller asks a flow for its
//! current step, performs it in the browser, and reports how it went. Steps
//! that change the page are thereby taken one after the other, never two at
//! a time.

use vstd::prelude::*;

use crate::error::CrawlError;
use crate::locator::Locator;
use crate::locator::LocatorView;
use crate::wait::WaitCondition;
use crate::wait::WaitConditionView;

verus! {

/// Something the browser is asked to do.
#[derive(Debug)]
pub enum Action {
    /// Load the page at `url`.
    Navigate { url: String },
    /// Look for `locator` every `interval_ms` until `condition` holds, for at
    /// most `timeout_ms`.
    Wait { locator: Locator, condition: WaitCondition, timeout_ms: u64, interval_ms: u64 },
    /// Click the first element that `locator` finds.
    Click { locator: Locator },
    /// Click the first element that `locator` finds, trying again after a
    /// pause while it cannot be found or clicked, `max_attempts` times at most.
    ClickWithRetries { locator: Locator, max_attempts: u32 },
    /// Type `text` into the first element that `locator` finds.
    Type { locator: Locator, text: String },
    /// Run `script` in the page.
    RunScript { script: String },
    /// Read the `href` of the first element that `locator` finds and load
    /// the page at `base` followed by it.
    FollowLink { locator: Locator, base: String },
    /// Choose the option number `index` (from 0) of the selection control
    /// that `select` finds.
    SelectOption { select: Locator, index: usize },
    /// Go back one page in the browser's history.
    Back,
}

/// An action with its texts as characters.
pub enum ActionView {
    Navigate { url: Seq<char> },
    Wait { locator: LocatorView, condition: WaitConditionView, timeout_ms: u64, interval_ms: u64 },
    Click { locator: LocatorView },
    ClickWithRetries { locator: LocatorView, max_attempts: u32 },
    Type { locator: LocatorView, text: Seq<char> },
    RunScript { script: Seq<char> },
    FollowLink { locator: LocatorView, base: Seq<char> },
    SelectOption { select: LocatorView, index: usize },
    Back,
}

impl View for Action {
    type V = ActionView;

    open spec fn view(&self) -> ActionView {
        match self {
            Action::Navigate { url } => ActionView::Navigate { url: url@ },
            Action::Wait { locator, condition, timeout_ms, interval_ms } => ActionView::Wait {
                locator: locator@,
                condition: condition@,
                timeout_ms: *timeout_ms,
                interval_ms: *interval_ms,
            },
            Action::Click { locator } => ActionView::Click { locator: locator@ },
            Action::ClickWithRetries { locator, max_attempts } => ActionView::ClickWithRetries {
                locator: locator@,
                max_attempts: *max_attempts,
            },
            Action::Type { locator, text } => ActionView::Type { locator: locator@, text: text@ },
            Action::RunScript { script } => ActionView::RunScript { script: script@ },
            Action::FollowLink { locator, base } => ActionView::FollowLink {
                locator: locator@,
                base: base@,
            },
            Action::SelectOption { select, index } => ActionView::SelectOption {
                select: select@,
                index: *index,
            },
            Action::Back => ActionView::Back,
        }
    }
}

/// What the failure of a step means for the flow.
#[derive(Clone, Copy, Debug, PartialEq, Eq, Structural)]
pub enum OnFailure {
    /// The flow fails with the step.
    Abort,
    /// The step was worth a try; the flow goes on.
    Proceed,
}

/// One step of a flow.
#[derive(Debug)]
pub struct Step {
    pub action: Action,
    pub on_failure: OnFailure,
}

impl View for Step {
    type V = (ActionView, OnFailure);

    open spec fn view(&self) -> (ActionView, OnFailure) {
        (self.action@, self.on_failure)
    }
}

/// The steps of a flow, each with its texts as characters.
pub open spec fn steps_view(steps: Seq<Step>) -> Seq<(ActionView, OnFailure)> {
    Seq::new(steps.len(), |i: int| steps[i]@)
}

/// Where a flow stands.
#[derive(Clone, Copy, Debug, PartialEq, Eq, Structural)]
pub enum FlowStatus {
    /// The step at the cursor is to be taken next.
    Running,
    /// Every step has been taken.
    Finished,
    /// A step failed that the flow could not do without.
    Failed(CrawlError),
}

/// How a step went: done, or the failure it ended in.
#[derive(Clone, Copy, Debug, PartialEq, Eq, Structural)]
pub enum StepOutcome {
    Done,
    Failed(CrawlError),
}

/// A sequence of steps and the place the crawl has reached in it.
#[derive(Debug)]
pub struct Flow {
    pub steps: Vec<Step>,
    pub cursor: usize,
    pub status: FlowStatus,
}

/// The status of a flow of `len` steps that has `cursor` of them behind it
/// and has not failed.
pub open spec fn status_at(cursor: int, len: int) -> FlowStatus {
    if cursor < len {
        FlowStatus::Running
    } else {
        FlowStatus::Finished
    }
}

/// Where a flow stands after the report `outcome` on its current step, as
/// cursor and status. A flow that has finished or failed stays as it is. A
/// step that is done, or that failed but was only worth a try, is left
/// behind. Any other failure fails the flow, which keeps the failure.
pub open spec fn after_report(
    steps: Seq<(ActionView, OnFailure)>,
    cursor: int,
    status: FlowStatus,
    outcome: StepOutcome,
) -> (int, FlowStatus) {
    if status != FlowStatus::Running || !(0 <= cursor < steps.len()) {
        (cursor, status)
    } else {
        match outcome {
            StepOutcome::Failed(e) if steps[cursor].1 == OnFailure::Abort => (
                cursor,
                FlowStatus::Failed(e),
            ),
            _ => (cursor + 1, status_at(cursor + 1, steps.len() as int)),
        }
    }
}

impl Flow {
    /// The cursor and the status fit the steps: a running flow has a step
    /// to take, a finished one has none left.
    pub open spec fn wf(&self) -> bool {
        &&& self.cursor <= self.steps.len()
        &&& self.status == FlowStatus::Running ==> self.cursor < self.steps.len()
        &&& self.status == FlowStatus::Finished ==> self.cursor == self.steps.len()
    }

    /// A flow at the start of `steps`.
    pub fn new(steps: Vec<Step>) -> (flow: Flow)
        ensures
            flow.wf(),
            flow.steps == steps,
            flow.cursor == 0,
            flow.status == status_at(0, steps.len() as int),
    {
        let status = if steps.len() > 0 {
            FlowStatus::Running
        } else {
            FlowStatus::Finished
        };
        Flow { steps, cursor: 0, status }
    }

    /// The step to take next; none once the flow has finished or failed.
    pub fn current(&self) -> (step: Option<&Step>)
        ensures
            step is Some <==> self.status == FlowStatus::Running && self.cursor
                < self.steps.len(),
            step matches Some(s) ==> *s == self.steps[self.cursor as int],
    {
        match self.status {
            FlowStatus::Running => {
                if self.cursor < self.steps.len() {
                    Some(&self.steps[self.cursor])
                } else {
                    None
                }
            },
            _ => None,
        }
    }

    /// Whether the flow has come to its end, well or badly.
    pub fn is_over(&self) -> (over: bool)
        ensures
            over == (self.status != FlowStatus::Running),
    {
        match self.status {
            FlowStatus::Running => false,
            _ => true,
        }
    }

    /// Takes note of how the current step went.
    pub fn report(&mut self, outcome: StepOutcome)
        ensures
            old(self).wf() ==> final(self).wf(),
            final(self).steps == old(self).steps,
            (final(self).cursor as int, final(self).status) == after_report(
                steps_view(old(self).steps@),
                old(self).cursor as int,
                old(self).status,
                outcome,
            ),
    {
        match self.status {
            FlowStatus::Running => {
                if self.cursor < self.steps.len() {
                    let abort = match self.steps[self.cursor].on_failure {
                        OnFailure::Abort => true,
                        OnFailure::Proceed => false,
                    };
                    match outcome {
                        StepOutcome::Failed(e) if abort => {
                            self.status = FlowStatus::Failed(e);
                        },
                        _ => {
                            self.cursor = self.cursor + 1;
                            if self.cursor >= self.steps.len() {
                                self.status = FlowStatus::Finished;
                            }
                        },
                    }
                }
            },
            _ => {},
        }
    }
}

/// A flow that has finished or failed takes no more notice of reports.
pub proof fn lemma_over_is_final(
    steps: Seq<(ActionView, OnFailure)>,
    cursor: int,
    status: FlowStatus,
    outcome: StepOutcome,
)
    requires
        status != FlowStatus::Running,
    ensures
        after_report(steps, cursor, status, outcome) == (cursor, status),
{
}

/// A report never takes a flow backwards, and a flow fails only on a step
/// that it cannot do without, with the failure that was reported.
pub proof fn lemma_report_moves_on(
    steps: Seq<(ActionView, OnFailure)>,
    cursor: int,
    status: FlowStatus,
    outcome: StepOutcome,
)
    requires
        0 <= cursor <= steps.len(),
        status == FlowStatus::Running ==> cursor < steps.len(),
    ensures
        cursor <= after_report(steps, cursor, status, outcome).0 <= cursor + 1,
        status == FlowStatus::Running && after_report(steps, cursor, status, outcome).1
            is Failed ==> steps[cursor].1 == OnFailure::Abort && outcome
            == StepOutcome::Failed(after_report(steps, cursor, status, outcome).1->Failed_0),
        status == FlowStatus::Running && outcome == StepOutcome::Done ==> after_report(
            steps,
            cursor,
            status,
            outcome,
        ) == (cursor + 1, status_at(cursor + 1, steps.len() as int)),
{
}

} // verus!

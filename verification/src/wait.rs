//! Waiting for a page to settle: what to make of each look at the page.
//!
//! The caller looks at the page, tells what it saw and how long it has been
//! waiting, and is told whether to stop, to give up, or to sleep and look
//! again.

use vstd::prelude::*;
use vstd::string::StringExecFns;

use crate::text::contains;
use crate::text::contains_text;
use crate::text::matches_at;
use crate::text::to_chars;

verus! {

/// How an attribute says that its element is hidden.
#[derive(Clone, Copy, Debug, PartialEq, Eq, Structural)]
pub enum HiddenTest {
    /// The marker occurs somewhere in the attribute.
    Contains,
    /// The attribute is the marker.
    Equals,
}

/// What a wait is for.
#[derive(Debug)]
pub enum WaitCondition {
    /// The element is in the page.
    Present,
    /// The element is in the page and its attribute says that it is hidden.
    Hidden { attribute: String, marker: String, test: HiddenTest },
}

/// A wait condition with its texts as characters.
pub enum WaitConditionView {
    Present,
    Hidden { attribute: Seq<char>, marker: Seq<char>, test: HiddenTest },
}

impl View for WaitCondition {
    type V = WaitConditionView;

    open spec fn view(&self) -> WaitConditionView {
        match self {
            WaitCondition::Present => WaitConditionView::Present,
            WaitCondition::Hidden { attribute, marker, test } => WaitConditionView::Hidden {
                attribute: attribute@,
                marker: marker@,
                test: *test,
            },
        }
    }
}

/// What one look at the page showed.
#[derive(Debug)]
pub enum Observation {
    /// No element matches the locator.
    Missing,
    /// The element is there; with it the value of the attribute that the
    /// condition names, or `None` where the element has no such attribute or
    /// would not give it.
    Found(Option<String>),
}

/// An observation with its text as characters.
pub enum ObservationView {
    Missing,
    Found(Option<Seq<char>>),
}

impl View for Observation {
    type V = ObservationView;

    open spec fn view(&self) -> ObservationView {
        match self {
            Observation::Missing => ObservationView::Missing,
            Observation::Found(None) => ObservationView::Found(None),
            Observation::Found(Some(value)) => ObservationView::Found(Some(value@)),
        }
    }
}

/// What to do after a look at the page.
#[derive(Clone, Copy, Debug, PartialEq, Eq, Structural)]
pub enum PollStep {
    /// The condition holds: the wait is over.
    Done,
    /// The condition does not hold yet: sleep this long, then look again.
    Retry { sleep_ms: u64 },
    /// The condition does not hold and the time is up.
    TimedOut,
}

/// Whether what was seen meets the condition.
pub open spec fn is_met(condition: WaitConditionView, seen: ObservationView) -> bool {
    match (condition, seen) {
        (WaitConditionView::Present, ObservationView::Found(_)) => true,
        (
            WaitConditionView::Hidden { attribute, marker, test },
            ObservationView::Found(Some(value)),
        ) => match test {
            HiddenTest::Contains => contains_text(value, marker),
            HiddenTest::Equals => value == marker,
        },
        _ => false,
    }
}

/// What follows from a look at the page after `elapsed_ms` of a wait that
/// may take `timeout_ms` and looks every `interval_ms`.
pub open spec fn poll_step(
    condition: WaitConditionView,
    seen: ObservationView,
    elapsed_ms: u64,
    timeout_ms: u64,
    interval_ms: u64,
) -> PollStep {
    if is_met(condition, seen) {
        PollStep::Done
    } else if elapsed_ms >= timeout_ms {
        PollStep::TimedOut
    } else if interval_ms <= timeout_ms - elapsed_ms {
        PollStep::Retry { sleep_ms: interval_ms }
    } else {
        PollStep::Retry { sleep_ms: (timeout_ms - elapsed_ms) as u64 }
    }
}

/// Whether what was seen meets the condition.
pub fn meets(condition: &WaitCondition, seen: &Observation) -> (b: bool)
    ensures
        b == is_met(condition@, seen@),
{
    match seen {
        Observation::Missing => false,
        Observation::Found(value) => match condition {
            WaitCondition::Present => true,
            WaitCondition::Hidden { attribute, marker, test } => match value {
                None => false,
                Some(text) => {
                    let hay = to_chars(text.as_str());
                    let needle = to_chars(marker.as_str());
                    match test {
                        HiddenTest::Contains => contains(&hay, &needle),
                        HiddenTest::Equals => {
                            let same = hay.len() == needle.len() && matches_at(&hay, &needle, 0);
                            assert(same ==> hay@.subrange(0, needle@.len() as int) == hay@);
                            assert(hay@ == needle@ ==> hay@.subrange(0, needle@.len() as int)
                                == needle@);
                            same
                        },
                    }
                },
            },
        },
    }
}

/// Decides what follows from a look at the page: the wait ends as soon as
/// the condition holds, whatever the time; it times out when the condition
/// does not hold and the time is up; otherwise the caller sleeps for the
/// interval, or for what is left of the time if that is less.
pub fn decide_poll(
    condition: &WaitCondition,
    seen: &Observation,
    elapsed_ms: u64,
    timeout_ms: u64,
    interval_ms: u64,
) -> (step: PollStep)
    ensures
        step == poll_step(condition@, seen@, elapsed_ms, timeout_ms, interval_ms),
        step is Done <==> is_met(condition@, seen@),
        step matches PollStep::Retry { sleep_ms } ==> elapsed_ms + sleep_ms <= timeout_ms,
{
    if meets(condition, seen) {
        PollStep::Done
    } else if elapsed_ms >= timeout_ms {
        PollStep::TimedOut
    } else if interval_ms <= timeout_ms - elapsed_ms {
        PollStep::Retry { sleep_ms: interval_ms }
    } else {
        PollStep::Retry { sleep_ms: timeout_ms - elapsed_ms }
    }
}

/// The condition that an overlay is hidden by its style: the attribute
/// `style` holds `display: none`.
pub fn hidden_by_style() -> (condition: WaitCondition)
    ensures
        condition@ == (WaitConditionView::Hidden {
            attribute: "style"@,
            marker: "display: none"@,
            test: HiddenTest::Contains,
        }),
{
    WaitCondition::Hidden {
        attribute: String::from_str("style"),
        marker: String::from_str("display: none"),
        test: HiddenTest::Contains,
    }
}

/// The condition that an element is hidden for assistive technology: the
/// attribute `aria-hidden` is `true`.
pub fn hidden_by_aria() -> (condition: WaitCondition)
    ensures
        condition@ == (WaitConditionView::Hidden {
            attribute: "aria-hidden"@,
            marker: "true"@,
            test: HiddenTest::Equals,
        }),
{
    WaitCondition::Hidden {
        attribute: String::from_str("aria-hidden"),
        marker: String::from_str("true"),
        test: HiddenTest::Equals,
    }
}

} // verus!

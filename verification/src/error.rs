//! The failures a crawl can end in.

use vstd::prelude::*;

verus! {

/// Why a step of the crawl, or the reading of one field, failed.
#[derive(Clone, Copy, Debug, PartialEq, Eq, Structural)]
pub enum CrawlError {
    /// The browser driver could not be reached within the allowed attempts.
    DriverUnavailable,
    /// The session with the browser driver could not be set up.
    SessionConnectFailed,
    /// The browser did not load the requested address.
    NavigationFailed,
    /// No element matches the locator.
    ElementNotFound,
    /// A wait ran out of time before its condition held.
    WaitTimeout,
    /// The element was found but would not take the click.
    ClickFailed,
    /// The page refused or failed the script.
    ScriptExecutionFailed,
    /// The text is no date in the expected notation.
    DateParseError,
    /// The text is no amount of money.
    AmountParseError,
    /// The text is no amount of energy.
    UsageParseError,
    /// The text holds a number that does not fit its field.
    NumberParseError,
    /// The selection control offers no option with the wanted label.
    OptionNotFound,
    /// The table of identifiers asked for is none of the known ones.
    UnknownIdKind,
}

} // verus!

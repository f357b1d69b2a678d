//! The browser driver: how it is started, how often a connection to it is
//! tried, and how it is shut down.
//!
//! Starting, connecting and killing are the caller's part. What is decided
//! here is what the caller does next.

use vstd::prelude::*;
use vstd::string::StringExecFns;

use crate::error::CrawlError;
use crate::locator::join3;

verus! {

/// The address at which the driver listens.
pub const LOCAL_URL: &'static str = "http://localhost:4450";

/// The argument that tells the driver its port.
pub const DRIVER_PORT_ARG: &'static str = "--port=4450";

/// How long the driver is given after its start before the first
/// connection is tried, in milliseconds.
pub const START_GRACE_MS: u64 = 2000;

/// How long to pause before another click is tried, in milliseconds.
pub const CLICK_PAUSE_MS: u64 = 1000;

/// How often something is tried, and how long the pauses in between are.
#[derive(Clone, Copy, Debug, PartialEq, Eq, Structural)]
pub struct RetryPolicy {
    /// The number of tries after which no more is made.
    pub max_attempts: u32,
    /// The pause after the first failure, in milliseconds.
    pub first_pause_ms: u64,
    /// The longest pause, in milliseconds.
    pub longest_pause_ms: u64,
}

/// What to do after a failed try.
#[derive(Clone, Copy, Debug, PartialEq, Eq, Structural)]
pub enum RetryStep {
    /// Pause this long, then try again.
    Retry { pause_ms: u64 },
    /// Enough was tried.
    GiveUp(CrawlError),
}

/// The smaller of two numbers.
pub open spec fn at_most(a: int, limit: int) -> int {
    if a <= limit {
        a
    } else {
        limit
    }
}

/// The pause after the failure number `failures` (from 1): the first pause,
/// doubled with each further failure, but never more than the longest.
pub open spec fn pause_after(policy: RetryPolicy, failures: nat) -> int
    decreases failures,
{
    if failures <= 1 {
        at_most(policy.first_pause_ms as int, policy.longest_pause_ms as int)
    } else {
        at_most(2 * pause_after(policy, (failures - 1) as nat), policy.longest_pause_ms as int)
    }
}

/// What follows on the failure number `failures` of a connection to the
/// driver: another try after a pause while tries are left, or the end.
pub open spec fn connect_step(policy: RetryPolicy, failures: u32) -> RetryStep {
    if failures >= policy.max_attempts {
        RetryStep::GiveUp(CrawlError::DriverUnavailable)
    } else {
        RetryStep::Retry { pause_ms: pause_after(policy, failures as nat) as u64 }
    }
}

/// No pause is longer than the longest, and none is negative.
pub proof fn lemma_pause_bounded(policy: RetryPolicy, failures: nat)
    ensures
        0 <= pause_after(policy, failures) <= policy.longest_pause_ms,
    decreases failures,
{
    if failures > 1 {
        lemma_pause_bounded(policy, (failures - 1) as nat);
    }
}

/// Decides what follows on the failure number `failures` of a connection
/// to the driver. A connection is tried `max_attempts` times at most; then
/// the driver counts as unavailable.
pub fn connect_retry(policy: RetryPolicy, failures: u32) -> (step: RetryStep)
    ensures
        step == connect_step(policy, failures),
        step matches RetryStep::Retry { pause_ms } ==> pause_ms <= policy.longest_pause_ms,
{
    if failures >= policy.max_attempts {
        return RetryStep::GiveUp(CrawlError::DriverUnavailable);
    }
    let mut pause: u64 = if policy.first_pause_ms <= policy.longest_pause_ms {
        policy.first_pause_ms
    } else {
        policy.longest_pause_ms
    };
    let mut n: u32 = 1;
    while n < failures
        invariant
            1 <= n,
            n <= failures || (failures == 0 && n == 1),
            pause == pause_after(policy, n as nat),
            pause <= policy.longest_pause_ms,
        decreases failures - n,
    {
        pause = if pause <= policy.longest_pause_ms / 2 && pause * 2 <= policy.longest_pause_ms {
            pause * 2
        } else {
            policy.longest_pause_ms
        };
        n += 1;
    }
    proof {
        assert(pause_after(policy, 0) == pause_after(policy, 1));
        lemma_pause_bounded(policy, failures as nat);
    }
    RetryStep::Retry { pause_ms: pause }
}

/// What follows on the failure number `failures` of a click that may be
/// tried `max_attempts` times.
pub open spec fn click_step_after(failures: u32, max_attempts: u32) -> RetryStep {
    if failures >= max_attempts {
        RetryStep::GiveUp(CrawlError::ClickFailed)
    } else {
        RetryStep::Retry { pause_ms: 1000 }
    }
}

/// Decides what follows when a click has failed `failures` times: another
/// try after a second while fewer than `max_attempts` were made, else the
/// click has failed for good. With `failures` 0 it says whether a first try
/// is made at all.
pub fn click_retry(failures: u32, max_attempts: u32) -> (step: RetryStep)
    ensures
        step == click_step_after(failures, max_attempts),
{
    if failures >= max_attempts {
        RetryStep::GiveUp(CrawlError::ClickFailed)
    } else {
        RetryStep::Retry { pause_ms: CLICK_PAUSE_MS }
    }
}

/// What is left to do to a driver process at the end of a request.
#[derive(Clone, Copy, Debug, PartialEq, Eq, Structural)]
pub enum Shutdown {
    /// The process has ended by itself.
    Nothing,
    /// The process still runs and is to be killed.
    Kill,
}

/// Decides how to shut the driver down: a process that has ended is left
/// alone, so that shutting down twice does no harm.
pub fn shutdown_chromedriver(already_exited: bool) -> (action: Shutdown)
    ensures
        action == if already_exited {
            Shutdown::Nothing
        } else {
            Shutdown::Kill
        },
{
    if already_exited {
        Shutdown::Nothing
    } else {
        Shutdown::Kill
    }
}

/// The name of the environment variable that holds the path of the
/// browser: one for requests in test mode, one for the others.
pub fn binary_path_key(test: bool) -> (key: &'static str)
    ensures
        key@ == if test {
            "CHROME_BINARY_PATH"@
        } else {
            "CHROME_BINARY_PATH_TEST"@
        },
{
    if test {
        "CHROME_BINARY_PATH"
    } else {
        "CHROME_BINARY_PATH_TEST"
    }
}

/// How the browser is to be started.
#[derive(Debug)]
pub struct ChromeOptions {
    /// The path of the browser.
    pub binary: String,
    /// The arguments the browser is started with.
    pub args: Vec<String>,
}

/// The arguments that every browser is started with.
pub open spec fn common_args() -> Seq<Seq<char>> {
    seq![
        "--headless"@,
        "--disable-gpu"@,
        "--disable-translate"@,
        "--disable-background-timer-throttling"@,
        "--disable-client-side-phishing-detection"@,
        "--disable-default-apps"@,
        "--disable-features=TranslateUI"@,
        "--no-first-run"@,
        "--mute-audio"@,
        "--window-size=774,857"@,
    ]
}

/// The characters of each argument.
pub open spec fn args_view(args: Seq<String>) -> Seq<Seq<char>> {
    Seq::new(args.len(), |i: int| args[i]@)
}

impl ChromeOptions {
    /// The options for the browser at `binary` that keeps its profile in
    /// `user_data_dir`: the common arguments, then the one that names the
    /// directory.
    pub fn new(binary: String, user_data_dir: &str) -> (options: ChromeOptions)
        ensures
            options.binary == binary,
            args_view(options.args@) == common_args().push(
                "--user-data-dir="@ + user_data_dir@,
            ),
    {
        let mut args: Vec<String> = Vec::new();
        args.push(String::from_str("--headless"));
        args.push(String::from_str("--disable-gpu"));
        args.push(String::from_str("--disable-translate"));
        args.push(String::from_str("--disable-background-timer-throttling"));
        args.push(String::from_str("--disable-client-side-phishing-detection"));
        args.push(String::from_str("--disable-default-apps"));
        args.push(String::from_str("--disable-features=TranslateUI"));
        args.push(String::from_str("--no-first-run"));
        args.push(String::from_str("--mute-audio"));
        args.push(String::from_str("--window-size=774,857"));
        let dir = join3("--user-data-dir=", user_data_dir, "");
        proof {
            reveal_strlit("");
            assert("--user-data-dir="@ + user_data_dir@ + ""@ =~= "--user-data-dir="@
                + user_data_dir@);
        }
        args.push(dir);
        assert(args_view(args@) =~= common_args().push("--user-data-dir="@ + user_data_dir@));
        ChromeOptions { binary, args }
    }
}

} // verus!

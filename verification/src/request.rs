//! What a client sends to ask for a crawl.

use vstd::prelude::*;

verus! {

/// The body of a request against the power-planner portal.
#[allow(non_snake_case)]
#[derive(Debug, Clone)]
pub struct PpRequestBody {
    /// The portal login.
    pub userId: String,
    /// The portal password.
    pub userPw: String,
    /// The customer number whose records are wanted.
    pub userNum: String,
    /// Whether to run against the test browser binary.
    pub testMode: Option<bool>,
}

impl PpRequestBody {
    /// Whether the request asks for test mode; a request that does not say is
    /// not in test mode.
    pub open spec fn spec_test_state(&self) -> bool {
        self.testMode == Some(true)
    }

    /// Whether the request asks for test mode.
    #[verifier::when_used_as_spec(spec_test_state)]
    pub fn test_state(&self) -> (r: bool)
        ensures
            r == self.spec_test_state(),
    {
        match self.testMode {
            Some(b) => b,
            None => false,
        }
    }
}

/// The body of a request for the paid amounts of every period.
#[allow(non_snake_case)]
pub struct PpAllPeriodsPaidRequestBody {
    pub userId: String,
    pub userPw: String,
    pub userNum: String,
}

/// The body of a request for the paid amounts shown on the portal.
#[allow(non_snake_case)]
pub struct PpKepcoRequestBody {
    pub userId: String,
    pub userPw: String,
    pub userNum: String,
}

/// The body of a request against the customer portal.
#[allow(non_snake_case)]
pub struct KepcoRequestBody {
    pub userId: String,
    pub userPw: String,
    pub userNum: String,
}

} // verus!

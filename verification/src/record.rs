//! The billing records that a crawl produces.

use vstd::prelude::*;

use crate::date::Date;
use crate::parsers::Usage;
use crate::response::MetaResponseData;

verus! {

/// A record that belongs to a claim period. Within one answer no two records
/// share a period.
pub trait ClaimDated {
    /// The period the record is about; `None` where the page named none.
    spec fn claim_period(&self) -> Option<Date>;

    /// The period the record is about.
    fn claim(&self) -> (r: Option<Date>)
        ensures
            r == self.claim_period(),
    ;
}

/// One month as the customer portal bills it.
#[derive(Debug)]
pub struct KepcoData {
    /// The month the bill is for.
    pub claim_date: Option<Date>,
    /// The first day of the metered period.
    pub start_date: Option<Date>,
    /// The last day of the metered period.
    pub end_date: Option<Date>,
    /// The energy used, in kWh.
    pub usage: Usage,
    /// The amount billed.
    pub amount: i64,
    /// The amount paid.
    pub paid: i64,
    /// The amount still owed.
    pub unpaid: i64,
    /// How the bill was paid.
    pub payment_method: Option<String>,
    /// When the bill was paid.
    pub payment_date: Option<Date>,
}

/// One month as the power-planner portal lists it.
#[derive(Debug, Clone, Copy, PartialEq, Eq, Structural)]
pub struct PpAllPeriodsPaidData {
    /// The month the bill is for.
    pub claim_date: Date,
    /// The energy used, in kWh.
    pub usage: Usage,
    /// The amount paid.
    pub paid: i64,
}

/// One month of paid amounts as the power-planner portal lists it.
#[derive(Debug, Clone, Copy, PartialEq, Eq, Structural)]
pub struct PpKepcoData {
    /// The month the bill is for.
    pub claim_date: Date,
    /// The energy used, in kWh.
    pub usage: Usage,
    /// The amount paid.
    pub paid: i64,
}

impl ClaimDated for KepcoData {
    open spec fn claim_period(&self) -> Option<Date> {
        self.claim_date
    }

    fn claim(&self) -> (r: Option<Date>) {
        self.claim_date
    }
}

impl ClaimDated for PpAllPeriodsPaidData {
    open spec fn claim_period(&self) -> Option<Date> {
        Some(self.claim_date)
    }

    fn claim(&self) -> (r: Option<Date>) {
        Some(self.claim_date)
    }
}

impl ClaimDated for PpKepcoData {
    open spec fn claim_period(&self) -> Option<Date> {
        Some(self.claim_date)
    }

    fn claim(&self) -> (r: Option<Date>) {
        Some(self.claim_date)
    }
}

/// The answer to a request for three years of bills.
#[derive(Debug)]
pub struct ThreeYearKepcoDataResponse {
    pub data: Vec<KepcoData>,
    pub meta: MetaResponseData,
}

/// The answer to a request for the paid amounts of every period.
#[derive(Debug)]
pub struct PpAllPeriodsPaidDataResponse {
    pub data: Vec<PpAllPeriodsPaidData>,
    pub meta: MetaResponseData,
}

/// The answer to a request for the paid amounts shown on the portal.
#[derive(Debug)]
pub struct PpKepcoPaidDataResponse {
    pub data: Vec<PpKepcoData>,
    pub meta: MetaResponseData,
}

} // verus!

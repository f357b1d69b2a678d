//! From the cells of one table row to one billing record, and from the
//! outcomes of all rows to the batch of a page.
//!
//! Reading the cells is the caller's part: it may read the rows side by side,
//! since no two rows share a cell. A row that cannot be read is left out of
//! the batch; the other rows are not touched by it.

use vstd::prelude::*;

use crate::date::worded_month;
use crate::date::Date;
use crate::error::CrawlError;
use crate::locator::xpath_around;
use crate::locator::CellQuery;
use crate::locator::Locator;
use crate::locator::LocatorView;
use crate::parsers::amount_read;
use crate::parsers::claim_month_read;
use crate::parsers::date_in;
use crate::parsers::dotted_date_read;
use crate::parsers::first_piece;
use crate::parsers::method_in;
use crate::parsers::parse_amount;
use crate::parsers::parse_claim_month;
use crate::parsers::parse_date;
use crate::parsers::parse_date_range;
use crate::parsers::parse_paid;
use crate::parsers::parse_payment_method;
use crate::parsers::parse_use_kwh;
use crate::parsers::second_piece;
use crate::parsers::usage_read;
use crate::parsers::Usage;
use crate::record::KepcoData;
use crate::record::PpAllPeriodsPaidData;

verus! {

/// The characters of a text that may be missing.
pub open spec fn opt_view(text: Option<String>) -> Option<Seq<char>> {
    match text {
        Some(t) => Some(t@),
        None => None,
    }
}

/// The texts of one row of the power-planner table; `None` for a cell that
/// the page does not have.
#[derive(Debug)]
pub struct PpRowCells {
    pub claim_date: Option<String>,
    pub usage: Option<String>,
    pub paid: Option<String>,
}

/// A row of the power-planner table as characters.
pub struct PpRowCellsView {
    pub claim_date: Option<Seq<char>>,
    pub usage: Option<Seq<char>>,
    pub paid: Option<Seq<char>>,
}

impl View for PpRowCells {
    type V = PpRowCellsView;

    open spec fn view(&self) -> PpRowCellsView {
        PpRowCellsView {
            claim_date: opt_view(self.claim_date),
            usage: opt_view(self.usage),
            paid: opt_view(self.paid),
        }
    }
}

/// Where the cells of one row of the power-planner table are found.
#[derive(Debug)]
pub struct PpRowQueries {
    pub claim_date: Locator,
    pub usage: Locator,
    pub paid: Locator,
}

/// The locators of the cells of the row whose key is `row_key`.
pub fn pp_row_queries(row_key: &str) -> (queries: PpRowQueries)
    ensures
        queries.claim_date@ == LocatorView::XPath(
            "//*[@id='"@ + row_key@ + "']/td[1]/a/span"@,
        ),
        queries.usage@ == LocatorView::XPath("//*[@id='"@ + row_key@ + "']/td[4]"@),
        queries.paid@ == LocatorView::XPath("//*[@id='"@ + row_key@ + "']/td[8]"@),
{
    PpRowQueries {
        claim_date: xpath_around("//*[@id='", row_key, "']/td[1]/a/span"),
        usage: xpath_around("//*[@id='", row_key, "']/td[4]"),
        paid: xpath_around("//*[@id='", row_key, "']/td[8]"),
    }
}

/// The record that a row of the power-planner table stands for. The claim
/// month, the usage and the paid amount are looked at in this order; the
/// first that is missing or cannot be read decides the failure.
pub open spec fn pp_row_read(cells: PpRowCellsView) -> Result<PpAllPeriodsPaidData, CrawlError> {
    match cells.claim_date {
        None => Err(CrawlError::ElementNotFound),
        Some(claim_text) => match claim_month_read(claim_text) {
            Err(e) => Err(e),
            Ok(claim_date) => match cells.usage {
                None => Err(CrawlError::ElementNotFound),
                Some(usage_text) => match usage_read(usage_text) {
                    Err(e) => Err(e),
                    Ok(usage) => match cells.paid {
                        None => Err(CrawlError::ElementNotFound),
                        Some(paid_text) => match amount_read(paid_text) {
                            Err(e) => Err(e),
                            Ok(paid) => Ok(PpAllPeriodsPaidData { claim_date, usage, paid }),
                        },
                    },
                },
            },
        },
    }
}

/// What a claim month in the portal's wording is read as: the first day of
/// the month it names.
pub open spec fn worded_month_is_read(y: int, m: int) -> bool {
    claim_month_read(worded_month(y, m)) == Ok::<Date, CrawlError>(
        Date { year: y as i32, month: m as u32, day: 1 },
    )
}

/// Reads one row of the power-planner table. A claim month of four digits
/// for the year and two for the month, in the portal's wording, is read as
/// the first day of that month.
pub fn extract_data_year(cells: &PpRowCells) -> (r: Result<PpAllPeriodsPaidData, CrawlError>)
    ensures
        r == pp_row_read(cells@),
        forall|y: int, m: int|
            0 <= y <= 9999 && 1 <= m <= 12 && cells@.claim_date == Some(
                #[trigger] worded_month(y, m),
            ) ==> worded_month_is_read(y, m),
{
    let claim_date = match &cells.claim_date {
        None => {
            return Err(CrawlError::ElementNotFound);
        },
        Some(text) => match parse_claim_month(text.as_str()) {
            Err(e) => {
                return Err(e);
            },
            Ok(date) => date,
        },
    };
    let usage = match &cells.usage {
        None => {
            return Err(CrawlError::ElementNotFound);
        },
        Some(text) => match parse_use_kwh(text.as_str()) {
            Err(e) => {
                return Err(e);
            },
            Ok(usage) => usage,
        },
    };
    let paid = match &cells.paid {
        None => {
            return Err(CrawlError::ElementNotFound);
        },
        Some(text) => match parse_paid(text.as_str()) {
            Err(e) => {
                return Err(e);
            },
            Ok(paid) => paid,
        },
    };
    Ok(PpAllPeriodsPaidData { claim_date, usage, paid })
}

/// The texts of one entry of the customer portal's list of bills; `None` for
/// a cell that the page does not have.
#[derive(Debug)]
pub struct KepcoRowCells {
    pub claim_date: Option<String>,
    pub date_range: Option<String>,
    pub usage: Option<String>,
    pub amount: Option<String>,
    pub paid: Option<String>,
    pub unpaid: Option<String>,
    pub payment: Option<String>,
}

/// An entry of the customer portal's list as characters.
pub struct KepcoRowCellsView {
    pub claim_date: Option<Seq<char>>,
    pub date_range: Option<Seq<char>>,
    pub usage: Option<Seq<char>>,
    pub amount: Option<Seq<char>>,
    pub paid: Option<Seq<char>>,
    pub unpaid: Option<Seq<char>>,
    pub payment: Option<Seq<char>>,
}

impl View for KepcoRowCells {
    type V = KepcoRowCellsView;

    open spec fn view(&self) -> KepcoRowCellsView {
        KepcoRowCellsView {
            claim_date: opt_view(self.claim_date),
            date_range: opt_view(self.date_range),
            usage: opt_view(self.usage),
            amount: opt_view(self.amount),
            paid: opt_view(self.paid),
            unpaid: opt_view(self.unpaid),
            payment: opt_view(self.payment),
        }
    }
}

/// A bill of the customer portal with its one text as characters.
pub struct KepcoDataView {
    pub claim_date: Option<Date>,
    pub start_date: Option<Date>,
    pub end_date: Option<Date>,
    pub usage: Usage,
    pub amount: i64,
    pub paid: i64,
    pub unpaid: i64,
    pub payment_method: Option<Seq<char>>,
    pub payment_date: Option<Date>,
}

impl View for KepcoData {
    type V = KepcoDataView;

    open spec fn view(&self) -> KepcoDataView {
        KepcoDataView {
            claim_date: self.claim_date,
            start_date: self.start_date,
            end_date: self.end_date,
            usage: self.usage,
            amount: self.amount,
            paid: self.paid,
            unpaid: self.unpaid,
            payment_method: opt_view(self.payment_method),
            payment_date: self.payment_date,
        }
    }
}

/// Where the cells of one entry of the customer portal's list are found.
#[derive(Debug)]
pub struct KepcoRowQueries {
    pub claim_date: CellQuery,
    pub date_range: CellQuery,
    pub usage: CellQuery,
    pub amount: CellQuery,
    pub paid: CellQuery,
    pub unpaid: CellQuery,
    pub payment: CellQuery,
}

/// The XPath of the spans below the element `row_key` whose `id` holds `mark`.
pub open spec fn span_path(row_key: Seq<char>, mark: Seq<char>) -> Seq<char> {
    "//*[@id='"@ + row_key + ("']//span[contains(@id, '"@ + mark + "')]"@)
}

/// The query for match number `index` among the spans below `row_key` whose
/// `id` holds `mark`.
fn span_query(row_key: &str, mark: &str, index: usize) -> (query: CellQuery)
    ensures
        query@ == (LocatorView::XPath(span_path(row_key@, mark@)), index),
{
    let tail = crate::locator::join3("']//span[contains(@id, '", mark, "')]");
    let locator = xpath_around("//*[@id='", row_key, tail.as_str());
    assert("//*[@id='"@ + row_key@ + tail@ == span_path(row_key@, mark@));
    CellQuery { locator, index }
}

/// The queries for the cells of the entry whose key is `row_key`, on the
/// page of one year. The paid amount is the second span that `_txt_pay`
/// marks; every other cell is the first span with its mark.
pub fn kepco_row_queries(row_key: &str) -> (queries: KepcoRowQueries)
    ensures
        queries.claim_date@ == (LocatorView::XPath(span_path(row_key@, "_txt_payYm"@)), 0usize),
        queries.date_range@ == (LocatorView::XPath(span_path(row_key@, "_txt_gigan"@)), 0usize),
        queries.usage@ == (LocatorView::XPath(span_path(row_key@, "_txt_useKwh"@)), 0usize),
        queries.amount@ == (LocatorView::XPath(span_path(row_key@, "_txt_monthPay"@)), 0usize),
        queries.paid@ == (LocatorView::XPath(span_path(row_key@, "_txt_pay"@)), 1usize),
        queries.unpaid@ == (LocatorView::XPath(span_path(row_key@, "_txt_payAmt"@)), 0usize),
        queries.payment@ == (
            LocatorView::XPath(span_path(row_key@, "_txt_payGubnNDay"@)),
            0usize,
        ),
{
    KepcoRowQueries {
        claim_date: span_query(row_key, "_txt_payYm", 0),
        date_range: span_query(row_key, "_txt_gigan", 0),
        usage: span_query(row_key, "_txt_useKwh", 0),
        amount: span_query(row_key, "_txt_monthPay", 0),
        paid: span_query(row_key, "_txt_pay", 1),
        unpaid: span_query(row_key, "_txt_payAmt", 0),
        payment: span_query(row_key, "_txt_payGubnNDay", 0),
    }
}

/// The queries for the cells of the one entry that the page of a single
/// month shows below `row_key`. It shows no period; its payment cell, marked
/// `_txt_payGubn`, names the way of payment alone.
pub fn kepco_month_queries(row_key: &str) -> (queries: KepcoRowQueries)
    ensures
        queries.claim_date@ == (LocatorView::XPath(span_path(row_key@, "_txt_payYm"@)), 0usize),
        queries.date_range@ == (LocatorView::XPath(span_path(row_key@, "_txt_gigan"@)), 0usize),
        queries.usage@ == (LocatorView::XPath(span_path(row_key@, "_txt_useKwh"@)), 0usize),
        queries.amount@ == (LocatorView::XPath(span_path(row_key@, "_txt_monthPay"@)), 0usize),
        queries.paid@ == (LocatorView::XPath(span_path(row_key@, "_txt_pay"@)), 1usize),
        queries.unpaid@ == (LocatorView::XPath(span_path(row_key@, "_txt_payAmt"@)), 0usize),
        queries.payment@ == (LocatorView::XPath(span_path(row_key@, "_txt_payGubn"@)), 0usize),
{
    KepcoRowQueries {
        claim_date: span_query(row_key, "_txt_payYm", 0),
        date_range: span_query(row_key, "_txt_gigan", 0),
        usage: span_query(row_key, "_txt_useKwh", 0),
        amount: span_query(row_key, "_txt_monthPay", 0),
        paid: span_query(row_key, "_txt_pay", 1),
        unpaid: span_query(row_key, "_txt_payAmt", 0),
        payment: span_query(row_key, "_txt_payGubn", 0),
    }
}

/// The numbers of a bill: usage, then billed, paid and unpaid amount. They
/// are looked at in this order; the first that is missing or cannot be read
/// decides the failure.
pub open spec fn figures_read(cells: KepcoRowCellsView) -> Result<(Usage, i64, i64, i64), CrawlError> {
    match cells.usage {
        None => Err(CrawlError::ElementNotFound),
        Some(usage_text) => match usage_read(usage_text) {
            Err(e) => Err(e),
            Ok(usage) => match cells.amount {
                None => Err(CrawlError::ElementNotFound),
                Some(amount_text) => match amount_read(amount_text) {
                    Err(e) => Err(e),
                    Ok(amount) => match cells.paid {
                        None => Err(CrawlError::ElementNotFound),
                        Some(paid_text) => match amount_read(paid_text) {
                            Err(e) => Err(e),
                            Ok(paid) => match cells.unpaid {
                                None => Err(CrawlError::ElementNotFound),
                                Some(unpaid_text) => match amount_read(unpaid_text) {
                                    Err(e) => Err(e),
                                    Ok(unpaid) => Ok((usage, amount, paid, unpaid)),
                                },
                            },
                        },
                    },
                },
            },
        },
    }
}

/// The claim month of a bill: none where the page shows none, a failure
/// where it shows one that is no date.
pub open spec fn claim_read(cell: Option<Seq<char>>) -> Result<Option<Date>, CrawlError> {
    match cell {
        None => Ok(None),
        Some(text) => match dotted_date_read(text) {
            Ok(date) => Ok(Some(date)),
            Err(e) => Err(e),
        },
    }
}

/// The bill that an entry on the page of one year stands for. The claim
/// month is looked at first, then the numbers. The period and the payment
/// never fail the entry: what is missing or cannot be read is `None`.
pub open spec fn kepco_year_read(cells: KepcoRowCellsView) -> Result<KepcoDataView, CrawlError> {
    match claim_read(cells.claim_date) {
        Err(e) => Err(e),
        Ok(claim_date) => match figures_read(cells) {
            Err(e) => Err(e),
            Ok((usage, amount, paid, unpaid)) => Ok(
                KepcoDataView {
                    claim_date,
                    start_date: match cells.date_range {
                        Some(range) => date_in(Some(first_piece(range, '-'))),
                        None => None,
                    },
                    end_date: match cells.date_range {
                        Some(range) => date_in(second_piece(range, '-')),
                        None => None,
                    },
                    usage,
                    amount,
                    paid,
                    unpaid,
                    payment_method: match cells.payment {
                        Some(payment) => method_in(payment),
                        None => None,
                    },
                    payment_date: match cells.payment {
                        Some(payment) => date_in(second_piece(payment, '/')),
                        None => None,
                    },
                },
            ),
        },
    }
}

/// The bill that the entry on the page of a single month stands for: no
/// period, no day of payment, and the way of payment as the page words it.
pub open spec fn kepco_month_read(cells: KepcoRowCellsView) -> Result<KepcoDataView, CrawlError> {
    match claim_read(cells.claim_date) {
        Err(e) => Err(e),
        Ok(claim_date) => match figures_read(cells) {
            Err(e) => Err(e),
            Ok((usage, amount, paid, unpaid)) => Ok(
                KepcoDataView {
                    claim_date,
                    start_date: None,
                    end_date: None,
                    usage,
                    amount,
                    paid,
                    unpaid,
                    payment_method: cells.payment,
                    payment_date: None,
                },
            ),
        },
    }
}

/// Reads the claim month of a bill.
fn read_claim(cell: &Option<String>) -> (r: Result<Option<Date>, CrawlError>)
    ensures
        r == claim_read(opt_view(*cell)),
{
    match cell {
        None => Ok(None),
        Some(text) => match parse_date(text.as_str()) {
            Ok(date) => Ok(Some(date)),
            Err(e) => Err(e),
        },
    }
}

/// Reads one amount of money that a bill must show.
fn read_required_amount(cell: &Option<String>) -> (r: Result<i64, CrawlError>)
    ensures
        r == match opt_view(*cell) {
            None => Err::<i64, CrawlError>(CrawlError::ElementNotFound),
            Some(text) => amount_read(text),
        },
{
    match cell {
        None => Err(CrawlError::ElementNotFound),
        Some(text) => parse_amount(text.as_str()),
    }
}

/// Reads the numbers of a bill.
fn read_figures(cells: &KepcoRowCells) -> (r: Result<(Usage, i64, i64, i64), CrawlError>)
    ensures
        r == figures_read(cells@),
{
    let usage = match &cells.usage {
        None => {
            return Err(CrawlError::ElementNotFound);
        },
        Some(text) => match parse_use_kwh(text.as_str()) {
            Err(e) => {
                return Err(e);
            },
            Ok(usage) => usage,
        },
    };
    let amount = match read_required_amount(&cells.amount) {
        Err(e) => {
            return Err(e);
        },
        Ok(v) => v,
    };
    let paid = match read_required_amount(&cells.paid) {
        Err(e) => {
            return Err(e);
        },
        Ok(v) => v,
    };
    let unpaid = match read_required_amount(&cells.unpaid) {
        Err(e) => {
            return Err(e);
        },
        Ok(v) => v,
    };
    Ok((usage, amount, paid, unpaid))
}

/// Reads one entry of the customer portal's page of one year.
pub fn extract_kepco_year(cells: &KepcoRowCells) -> (r: Result<KepcoData, CrawlError>)
    ensures
        match r {
            Ok(record) => kepco_year_read(cells@) == Ok::<KepcoDataView, CrawlError>(record@),
            Err(e) => kepco_year_read(cells@) == Err::<KepcoDataView, CrawlError>(e),
        },
{
    let claim_date = match read_claim(&cells.claim_date) {
        Err(e) => {
            return Err(e);
        },
        Ok(date) => date,
    };
    let (usage, amount, paid, unpaid) = match read_figures(cells) {
        Err(e) => {
            return Err(e);
        },
        Ok(figures) => figures,
    };
    let (start_date, end_date) = match &cells.date_range {
        Some(range) => parse_date_range(range.as_str()),
        None => (None, None),
    };
    let (payment_method, payment_date) = match &cells.payment {
        Some(payment) => parse_payment_method(payment.as_str()),
        None => (None, None),
    };
    Ok(
        KepcoData {
            claim_date,
            start_date,
            end_date,
            usage,
            amount,
            paid,
            unpaid,
            payment_method,
            payment_date,
        },
    )
}

/// Reads the entry of the customer portal's page of a single month.
pub fn extract_data_month(cells: KepcoRowCells) -> (r: Result<KepcoData, CrawlError>)
    ensures
        match r {
            Ok(record) => kepco_month_read(cells@) == Ok::<KepcoDataView, CrawlError>(record@),
            Err(e) => kepco_month_read(cells@) == Err::<KepcoDataView, CrawlError>(e),
        },
{
    let claim_date = match read_claim(&cells.claim_date) {
        Err(e) => {
            return Err(e);
        },
        Ok(date) => date,
    };
    let (usage, amount, paid, unpaid) = match read_figures(&cells) {
        Err(e) => {
            return Err(e);
        },
        Ok(figures) => figures,
    };
    Ok(
        KepcoData {
            claim_date,
            start_date: None,
            end_date: None,
            usage,
            amount,
            paid,
            unpaid,
            payment_method: cells.payment,
            payment_date: None,
        },
    )
}

/// The records of the rows that were read, in the order of the rows.
pub open spec fn successes<T>(outcomes: Seq<Result<T, CrawlError>>) -> Seq<T>
    decreases outcomes.len(),
{
    if outcomes.len() == 0 {
        Seq::empty()
    } else {
        match outcomes.last() {
            Ok(record) => successes(outcomes.drop_last()).push(record),
            Err(_) => successes(outcomes.drop_last()),
        }
    }
}

/// The number of rows that could not be read.
pub open spec fn failure_count<T>(outcomes: Seq<Result<T, CrawlError>>) -> nat
    decreases outcomes.len(),
{
    if outcomes.len() == 0 {
        0
    } else {
        failure_count(outcomes.drop_last()) + if outcomes.last() is Err {
            1nat
        } else {
            0nat
        }
    }
}

/// Every row is either in the batch or among the failures.
pub proof fn lemma_batch_size<T>(outcomes: Seq<Result<T, CrawlError>>)
    ensures
        successes(outcomes).len() + failure_count(outcomes) == outcomes.len(),
    decreases outcomes.len(),
{
    if outcomes.len() > 0 {
        lemma_batch_size(outcomes.drop_last());
    }
}

/// Joins the outcomes of the rows of one page into its batch: the records of
/// the rows that were read, in the order of the rows. A row that failed is
/// left out and costs the batch nothing else.
pub fn collect_batch<T>(outcomes: Vec<Result<T, CrawlError>>) -> (batch: Vec<T>)
    ensures
        batch@ == successes(outcomes@),
        batch.len() == outcomes.len() - failure_count(outcomes@),
{
    let ghost input = outcomes@;
    let mut batch: Vec<T> = Vec::new();
    for outcome in it: outcomes
        invariant
            it.seq() == input,
            batch@ == successes(input.take(it.index() as int)),
    {
        assert(input.take(it.index() + 1).drop_last() == input.take(it.index() as int));
        match outcome {
            Ok(record) => {
                batch.push(record);
            },
            Err(_) => {},
        }
    }
    assert(input.take(input.len() as int) == input);
    proof {
        lemma_batch_size(input);
    }
    batch
}

/// The outcome of each row of the power-planner table.
pub open spec fn pp_outcomes(rows: Seq<PpRowCells>) -> Seq<Result<PpAllPeriodsPaidData, CrawlError>> {
    Seq::new(rows.len(), |i: int| pp_row_read(rows[i]@))
}

/// Whether the claim month of row `i` is the month `m` of the year `y` in
/// the portal's wording.
pub open spec fn names_month(rows: Seq<PpRowCells>, i: int, y: int, m: int) -> bool {
    0 <= i < rows.len() && 0 <= y <= 9999 && 1 <= m <= 12 && rows[i]@.claim_date == Some(
        worded_month(y, m),
    )
}

/// The batch of a page of the power-planner table, from the cells of its
/// rows: each row is read on its own, and the rows that cannot be read are
/// left out. A claim month in the portal's wording is read as the first day
/// of the month it names.
pub fn pp_batch(rows: &Vec<PpRowCells>) -> (batch: Vec<PpAllPeriodsPaidData>)
    ensures
        batch@ == successes(pp_outcomes(rows@)),
        batch.len() == rows.len() - failure_count(pp_outcomes(rows@)),
        forall|i: int, y: int, m: int| #[trigger]
            names_month(rows@, i, y, m) ==> worded_month_is_read(y, m),
{
    let mut outcomes: Vec<Result<PpAllPeriodsPaidData, CrawlError>> = Vec::new();
    let mut i: usize = 0;
    while i < rows.len()
        invariant
            i <= rows.len(),
            outcomes@ == pp_outcomes(rows@.take(i as int)),
            forall|k: int, y: int, m: int|
                k < i && #[trigger] names_month(rows@, k, y, m) ==> worded_month_is_read(y, m),
        decreases rows.len() - i,
    {
        let outcome = extract_data_year(&rows[i]);
        assert forall|y: int, m: int| #[trigger]
            names_month(rows@, i as int, y, m) implies worded_month_is_read(y, m) by {
            assert(rows@[i as int]@.claim_date == Some(worded_month(y, m)));
        }
        outcomes.push(outcome);
        assert(outcomes@ =~= pp_outcomes(rows@.take(i + 1)));
        i += 1;
    }
    assert(rows@.take(rows.len() as int) == rows@);
    collect_batch(outcomes)
}

/// Whether `outcomes` holds, row by row, what the entries of a page of one
/// year stand for.
pub open spec fn are_kepco_outcomes(
    rows: Seq<KepcoRowCells>,
    outcomes: Seq<Result<KepcoData, CrawlError>>,
) -> bool {
    &&& outcomes.len() == rows.len()
    &&& forall|i: int|
        0 <= i < rows.len() ==> match #[trigger] outcomes[i] {
            Ok(record) => kepco_year_read(rows[i]@) == Ok::<KepcoDataView, CrawlError>(record@),
            Err(e) => kepco_year_read(rows[i]@) == Err::<KepcoDataView, CrawlError>(e),
        }
}

/// The batch of a page of one year of the customer portal, from the cells of
/// its entries: each entry is read on its own, and the entries that cannot
/// be read are left out.
pub fn kepco_batch(rows: &Vec<KepcoRowCells>) -> (batch: Vec<KepcoData>)
    ensures
        exists|outcomes: Seq<Result<KepcoData, CrawlError>>|
            are_kepco_outcomes(rows@, outcomes) && batch@ == #[trigger] successes(outcomes),
        batch.len() <= rows.len(),
{
    let mut outcomes: Vec<Result<KepcoData, CrawlError>> = Vec::new();
    let mut i: usize = 0;
    while i < rows.len()
        invariant
            i <= rows.len(),
            are_kepco_outcomes(rows@.take(i as int), outcomes@),
        decreases rows.len() - i,
    {
        let outcome = extract_kepco_year(&rows[i]);
        outcomes.push(outcome);
        i += 1;
    }
    assert(rows@.take(rows.len() as int) == rows@);
    let ghost held = outcomes@;
    let batch = collect_batch(outcomes);
    assert(are_kepco_outcomes(rows@, held) && batch@ == successes(held));
    batch
}

} // verus!

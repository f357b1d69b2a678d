use kepco_crawler::date::Date;
use kepco_crawler::error::CrawlError;
use kepco_crawler::extract::collect_batch;
use kepco_crawler::extract::extract_data_month;
use kepco_crawler::extract::extract_data_year;
use kepco_crawler::extract::extract_kepco_year;
use kepco_crawler::extract::kepco_batch;
use kepco_crawler::extract::kepco_month_queries;
use kepco_crawler::extract::kepco_row_queries;
use kepco_crawler::extract::pp_batch;
use kepco_crawler::extract::pp_row_queries;
use kepco_crawler::extract::KepcoRowCells;
use kepco_crawler::extract::PpRowCells;
use kepco_crawler::locator::CellQuery;
use kepco_crawler::locator::Locator;
use kepco_crawler::parsers::Usage;
use kepco_crawler::record::PpAllPeriodsPaidData;

fn text(s: &str) -> Option<String> {
    Some(s.to_string())
}

fn pp_cells(date: &str, usage: &str, paid: &str) -> PpRowCells {
    PpRowCells { claim_date: text(date), usage: text(usage), paid: text(paid) }
}

fn full_bill() -> KepcoRowCells {
    KepcoRowCells {
        claim_date: text("2023.05"),
        date_range: text("2023.04.15-2023.05.14"),
        usage: text("1,234.5kWh"),
        amount: text("45,000원"),
        paid: text("40,000원"),
        unpaid: text("5,000원"),
        payment: text("CARD/2023.05.20"),
    }
}

#[test]
fn extract_data_year_reads_a_row() {
    let r = extract_data_year(&pp_cells("2023년 05월", "120kWh", "45,000원"));
    assert_eq!(
        r,
        Ok(PpAllPeriodsPaidData {
            claim_date: Date { year: 2023, month: 5, day: 1 },
            usage: Usage { mantissa: 120, scale: 0 },
            paid: 45000,
        })
    );
}

#[test]
fn extract_data_year_names_the_first_failure() {
    assert_eq!(
        extract_data_year(&pp_cells("May", "x", "y")),
        Err(CrawlError::DateParseError)
    );
    assert_eq!(
        extract_data_year(&pp_cells("2023년 05월", "x", "y")),
        Err(CrawlError::UsageParseError)
    );
    assert_eq!(
        extract_data_year(&pp_cells("2023년 05월", "1kWh", "y")),
        Err(CrawlError::AmountParseError)
    );
    let missing = PpRowCells { claim_date: None, usage: text("1kWh"), paid: text("1원") };
    assert_eq!(extract_data_year(&missing), Err(CrawlError::ElementNotFound));
    let missing = PpRowCells { claim_date: text("2023년 05월"), usage: None, paid: text("1원") };
    assert_eq!(extract_data_year(&missing), Err(CrawlError::ElementNotFound));
    let missing = PpRowCells { claim_date: text("2023년 05월"), usage: text("1kWh"), paid: None };
    assert_eq!(extract_data_year(&missing), Err(CrawlError::ElementNotFound));
}

#[test]
fn failed_rows_are_left_out_and_cost_nothing_else() {
    let rows = vec![
        pp_cells("2023년 05월", "120kWh", "45,000원"),
        pp_cells("broken", "120kWh", "45,000원"),
        pp_cells("2023년 06월", "150kWh", "50,000원"),
        pp_cells("2023년 07월", "many", "50,000원"),
        pp_cells("2023년 04월", "100kWh", "40,000원"),
    ];
    let batch = pp_batch(&rows);
    assert_eq!(batch.len(), 5 - 2);
    let months: Vec<u32> = batch.iter().map(|r| r.claim_date.month).collect();
    assert_eq!(months, vec![5, 6, 4]);
}

#[test]
fn a_page_of_failures_gives_an_empty_batch() {
    let rows = vec![pp_cells("a", "b", "c"), pp_cells("d", "e", "f")];
    assert!(pp_batch(&rows).is_empty());
    assert!(pp_batch(&Vec::new()).is_empty());
}

#[test]
fn collect_batch_keeps_the_order_of_the_rows() {
    let outcomes: Vec<Result<u8, CrawlError>> = vec![
        Ok(1),
        Err(CrawlError::ElementNotFound),
        Ok(2),
        Err(CrawlError::DateParseError),
        Ok(3),
    ];
    assert_eq!(collect_batch(outcomes), vec![1, 2, 3]);
    let none: Vec<Result<u8, CrawlError>> = vec![Err(CrawlError::WaitTimeout)];
    assert_eq!(collect_batch(none), Vec::<u8>::new());
}

#[test]
fn extract_kepco_year_reads_a_bill() {
    let bill = extract_kepco_year(&full_bill()).unwrap();
    assert_eq!(bill.claim_date, Some(Date { year: 2023, month: 5, day: 1 }));
    assert_eq!(bill.start_date, Some(Date { year: 2023, month: 4, day: 15 }));
    assert_eq!(bill.end_date, Some(Date { year: 2023, month: 5, day: 14 }));
    assert_eq!(bill.usage, Usage { mantissa: 12345, scale: 1 });
    assert_eq!(bill.amount, 45000);
    assert_eq!(bill.paid, 40000);
    assert_eq!(bill.unpaid, 5000);
    assert_eq!(bill.payment_method, Some("CARD".to_string()));
    assert_eq!(bill.payment_date, Some(Date { year: 2023, month: 5, day: 20 }));
}

#[test]
fn extract_kepco_year_takes_missing_optional_cells() {
    let mut cells = full_bill();
    cells.claim_date = None;
    cells.date_range = None;
    cells.payment = None;
    let bill = extract_kepco_year(&cells).unwrap();
    assert_eq!(bill.claim_date, None);
    assert_eq!(bill.start_date, None);
    assert_eq!(bill.end_date, None);
    assert_eq!(bill.payment_method, None);
    assert_eq!(bill.payment_date, None);
    assert_eq!(bill.amount, 45000);
}

#[test]
fn extract_kepco_year_fails_on_what_a_bill_must_show() {
    let mut cells = full_bill();
    cells.claim_date = text("someday");
    assert_eq!(extract_kepco_year(&cells).unwrap_err(), CrawlError::DateParseError);
    let mut cells = full_bill();
    cells.usage = None;
    assert_eq!(extract_kepco_year(&cells).unwrap_err(), CrawlError::ElementNotFound);
    let mut cells = full_bill();
    cells.amount = text("a lot");
    assert_eq!(extract_kepco_year(&cells).unwrap_err(), CrawlError::AmountParseError);
    let mut cells = full_bill();
    cells.paid = None;
    assert_eq!(extract_kepco_year(&cells).unwrap_err(), CrawlError::ElementNotFound);
    let mut cells = full_bill();
    cells.unpaid = text("?");
    assert_eq!(extract_kepco_year(&cells).unwrap_err(), CrawlError::AmountParseError);
    let mut cells = full_bill();
    cells.usage = text("kWh");
    assert_eq!(extract_kepco_year(&cells).unwrap_err(), CrawlError::UsageParseError);
}

#[test]
fn extract_data_month_keeps_the_payment_as_worded() {
    let mut cells = full_bill();
    cells.payment = text("자동이체");
    let bill = extract_data_month(cells).unwrap();
    assert_eq!(bill.payment_method, Some("자동이체".to_string()));
    assert_eq!(bill.payment_date, None);
    assert_eq!(bill.start_date, None);
    assert_eq!(bill.end_date, None);
    assert_eq!(bill.claim_date, Some(Date { year: 2023, month: 5, day: 1 }));
    assert_eq!(bill.unpaid, 5000);
}

#[test]
fn kepco_batch_leaves_out_broken_bills() {
    let mut broken = full_bill();
    broken.amount = None;
    let mut other = full_bill();
    other.claim_date = text("2023.04");
    let batch = kepco_batch(&vec![full_bill(), broken, other]);
    assert_eq!(batch.len(), 2);
    assert_eq!(batch[0].claim_date, Some(Date { year: 2023, month: 5, day: 1 }));
    assert_eq!(batch[1].claim_date, Some(Date { year: 2023, month: 4, day: 1 }));
}

#[test]
fn row_queries_name_the_cells_of_the_row() {
    let q = pp_row_queries("row7");
    assert_eq!(q.claim_date, Locator::XPath("//*[@id='row7']/td[1]/a/span".to_string()));
    assert_eq!(q.usage, Locator::XPath("//*[@id='row7']/td[4]".to_string()));
    assert_eq!(q.paid, Locator::XPath("//*[@id='row7']/td[8]".to_string()));
}

#[test]
fn kepco_queries_name_the_spans_of_the_entry() {
    let q = kepco_row_queries("box1");
    let span = |mark: &str, index: usize| CellQuery {
        locator: Locator::XPath(format!("//*[@id='box1']//span[contains(@id, '{}')]", mark)),
        index,
    };
    assert_eq!(q.claim_date, span("_txt_payYm", 0));
    assert_eq!(q.date_range, span("_txt_gigan", 0));
    assert_eq!(q.usage, span("_txt_useKwh", 0));
    assert_eq!(q.amount, span("_txt_monthPay", 0));
    assert_eq!(q.paid, span("_txt_pay", 1));
    assert_eq!(q.unpaid, span("_txt_payAmt", 0));
    assert_eq!(q.payment, span("_txt_payGubnNDay", 0));
    let m = kepco_month_queries("box1");
    assert_eq!(m.payment, span("_txt_payGubn", 0));
    assert_eq!(m.paid, span("_txt_pay", 1));
}

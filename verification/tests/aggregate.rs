use kepco_crawler::aggregate::aggregate;
use kepco_crawler::aggregate::claim_precedes;
use kepco_crawler::aggregate::merge_batches;
use kepco_crawler::date::Date;
use kepco_crawler::extract::pp_batch;
use kepco_crawler::extract::PpRowCells;
use kepco_crawler::parsers::Usage;
use kepco_crawler::record::KepcoData;
use kepco_crawler::record::PpAllPeriodsPaidData;

fn month(year: i32, month: u32) -> Date {
    Date { year, month, day: 1 }
}

fn record(year: i32, m: u32, paid: i64) -> PpAllPeriodsPaidData {
    PpAllPeriodsPaidData {
        claim_date: month(year, m),
        usage: Usage { mantissa: 100, scale: 0 },
        paid,
    }
}

fn cells(date: &str, usage: &str, paid: &str) -> PpRowCells {
    PpRowCells {
        claim_date: Some(date.to_string()),
        usage: Some(usage.to_string()),
        paid: Some(paid.to_string()),
    }
}

#[test]
fn aggregate_keeps_one_record_for_each_period() {
    let input = vec![
        record(2023, 5, 1),
        record(2023, 6, 2),
        record(2023, 5, 3),
        record(2023, 4, 4),
        record(2023, 6, 5),
    ];
    let out = aggregate(input);
    assert_eq!(out.len(), 3);
    assert_eq!(out, vec![record(2023, 6, 2), record(2023, 5, 1), record(2023, 4, 4)]);
}

#[test]
fn aggregate_keeps_the_record_of_the_earliest_batch() {
    let current = vec![record(2023, 6, 10), record(2023, 5, 11)];
    let second = vec![record(2023, 5, 20), record(2022, 12, 21)];
    let third = vec![record(2022, 12, 30), record(2023, 6, 31), record(2021, 1, 32)];
    let all = merge_batches(vec![current, second, third]);
    assert_eq!(all.len(), 7);
    let out = aggregate(all);
    assert_eq!(
        out,
        vec![record(2023, 6, 10), record(2023, 5, 11), record(2022, 12, 21), record(2021, 1, 32)]
    );
}

#[test]
fn aggregate_is_strictly_descending() {
    let input = vec![
        record(2020, 1, 1),
        record(2024, 2, 2),
        record(2022, 7, 3),
        record(2022, 6, 4),
        record(2024, 2, 5),
        record(2021, 12, 6),
    ];
    let out = aggregate(input);
    for pair in out.windows(2) {
        assert!(pair[1].claim_date.precedes(&pair[0].claim_date));
    }
    assert_eq!(out.len(), 5);
}

#[test]
fn aggregate_twice_changes_nothing() {
    let input = vec![record(2023, 1, 1), record(2023, 3, 2), record(2023, 1, 3), record(2023, 2, 4)];
    let once = aggregate(input);
    let twice = aggregate(once.clone());
    assert_eq!(once, twice);
}

#[test]
fn aggregate_of_nothing_is_nothing() {
    let out = aggregate(Vec::<PpAllPeriodsPaidData>::new());
    assert!(out.is_empty());
    let merged = merge_batches(Vec::<Vec<PpAllPeriodsPaidData>>::new());
    assert!(merged.is_empty());
}

#[test]
fn aggregate_puts_bills_without_a_month_last() {
    let bill = |claim: Option<Date>, amount: i64| KepcoData {
        claim_date: claim,
        start_date: None,
        end_date: None,
        usage: Usage { mantissa: 1, scale: 0 },
        amount,
        paid: 0,
        unpaid: 0,
        payment_method: None,
        payment_date: None,
    };
    let out = aggregate(vec![
        bill(None, 1),
        bill(Some(month(2023, 1)), 2),
        bill(None, 3),
        bill(Some(month(2023, 2)), 4),
    ]);
    let amounts: Vec<i64> = out.iter().map(|b| b.amount).collect();
    assert_eq!(amounts, vec![4, 2, 1]);
}

#[test]
fn claim_precedes_orders_periods() {
    assert!(claim_precedes(&None, &Some(month(2023, 1))));
    assert!(!claim_precedes(&Some(month(2023, 1)), &None));
    assert!(!claim_precedes(&None, &None));
    assert!(claim_precedes(&Some(month(2022, 12)), &Some(month(2023, 1))));
    assert!(!claim_precedes(&Some(month(2023, 1)), &Some(month(2023, 1))));
}

#[test]
fn three_rows_come_out_latest_first() {
    let rows = vec![
        cells("2023년 05월", "120kWh", "45,000원"),
        cells("2023년 06월", "150kWh", "50,000원"),
        cells("2023년 04월", "100kWh", "40,000원"),
    ];
    let batch = pp_batch(&rows);
    assert_eq!(batch.len(), 3);
    let out = aggregate(merge_batches(vec![batch]));
    assert_eq!(
        out,
        vec![
            PpAllPeriodsPaidData {
                claim_date: month(2023, 6),
                usage: Usage { mantissa: 150, scale: 0 },
                paid: 50000,
            },
            PpAllPeriodsPaidData {
                claim_date: month(2023, 5),
                usage: Usage { mantissa: 120, scale: 0 },
                paid: 45000,
            },
            PpAllPeriodsPaidData {
                claim_date: month(2023, 4),
                usage: Usage { mantissa: 100, scale: 0 },
                paid: 40000,
            },
        ]
    );
}

//! Merging the batches of a crawl into one answer: one record for each claim
//! period, the latest period first.

use vstd::prelude::*;

use crate::date::Date;
use crate::record::ClaimDated;

verus! {

/// Whether period `a` comes before period `b`. A record without a period
/// comes before every record that has one.
pub open spec fn period_before(a: Option<Date>, b: Option<Date>) -> bool {
    match (a, b) {
        (None, Some(_)) => true,
        (Some(x), Some(y)) => x.is_before(y),
        _ => false,
    }
}

/// The claim period of the record at position `i`.
pub open spec fn period_at<T: ClaimDated>(s: Seq<T>, i: int) -> Option<Date> {
    s[i].claim_period()
}

/// Whether the record at `i` is about a later period than the one at `j`.
pub open spec fn later_first<T: ClaimDated>(s: Seq<T>, i: int, j: int) -> bool {
    period_before(period_at(s, j), period_at(s, i))
}

/// Every record of `s` is about a later period than the records after it.
pub open spec fn strictly_descending<T: ClaimDated>(s: Seq<T>) -> bool {
    forall|i: int, j: int| 0 <= i < j < s.len() ==> #[trigger] later_first(s, i, j)
}

/// Whether the records at `j` and `i` are about different periods.
pub open spec fn periods_differ<T: ClaimDated>(s: Seq<T>, j: int, i: int) -> bool {
    period_at(s, j) != period_at(s, i)
}

/// Whether `s[i]` is the first record of `s` about its period.
pub open spec fn is_first_of_period<T: ClaimDated>(s: Seq<T>, i: int) -> bool {
    &&& 0 <= i < s.len()
    &&& forall|j: int| 0 <= j < i ==> #[trigger] periods_differ(s, j, i)
}

/// Whether `out[k]` is the first record that `input` has about its period.
pub open spec fn kept_from<T: ClaimDated>(input: Seq<T>, out: Seq<T>, k: int) -> bool {
    exists|i: int| #[trigger] is_first_of_period(input, i) && input[i] == out[k]
}

/// Whether `out` has a record about the period of `input[i]`.
pub open spec fn period_held<T: ClaimDated>(input: Seq<T>, out: Seq<T>, i: int) -> bool {
    exists|k: int| 0 <= k < out.len() && #[trigger] period_at(out, k) == period_at(input, i)
}

/// Whether `out` is what aggregation makes of `input`: the latest period
/// first, each record the first that `input` has about its period, and no
/// period of `input` left out.
pub open spec fn is_aggregate<T: ClaimDated>(input: Seq<T>, out: Seq<T>) -> bool {
    &&& strictly_descending(out)
    &&& forall|k: int| 0 <= k < out.len() ==> #[trigger] kept_from(input, out, k)
    &&& forall|i: int| 0 <= i < input.len() ==> #[trigger] period_held(input, out, i)
}

/// Whether `a` comes before `b`.
pub fn claim_precedes(a: &Option<Date>, b: &Option<Date>) -> (r: bool)
    ensures
        r == period_before(*a, *b),
{
    match (a, b) {
        (None, Some(_)) => true,
        (Some(x), Some(y)) => x.precedes(y),
        _ => false,
    }
}

/// The batches one after the other, in the order given: the batch of the
/// page first shown, then those of the earlier periods as they were visited.
pub open spec fn concatenated<T>(batches: Seq<Vec<T>>) -> Seq<T>
    decreases batches.len(),
{
    if batches.len() == 0 {
        Seq::empty()
    } else {
        concatenated(batches.drop_last()) + batches.last()@
    }
}

/// Joins the batches into one list, keeping their order and the order within
/// each.
pub fn merge_batches<T>(batches: Vec<Vec<T>>) -> (all: Vec<T>)
    ensures
        all@ == concatenated(batches@),
{
    let mut all: Vec<T> = Vec::new();
    let ghost input = batches@;
    for batch in it: batches
        invariant
            it.seq() == input,
            all@ == concatenated(input.take(it.index() as int)),
    {
        let mut batch = batch;
        assert(input.take(it.index() + 1).drop_last() == input.take(it.index() as int));
        all.append(&mut batch);
    }
    assert(input.take(input.len() as int) == input);
    all
}

/// A first record of its period stays one when a record is added at the end.
proof fn lemma_first_stays<T: ClaimDated>(seen: Seq<T>, record: T, i: int)
    requires
        is_first_of_period(seen, i),
    ensures
        is_first_of_period(seen.push(record), i),
        seen.push(record)[i] == seen[i],
{
    let next = seen.push(record);
    assert forall|j: int| 0 <= j < i implies #[trigger] periods_differ(next, j, i) by {
        assert(periods_differ(seen, j, i));
    }
}

/// A record about a period that is already held changes nothing.
proof fn lemma_aggregate_skip<T: ClaimDated>(seen: Seq<T>, out: Seq<T>, record: T, at: int)
    requires
        is_aggregate(seen, out),
        0 <= at < out.len(),
        out[at].claim_period() == record.claim_period(),
    ensures
        is_aggregate(seen.push(record), out),
{
    let next = seen.push(record);
    assert forall|k: int| 0 <= k < out.len() implies #[trigger] kept_from(next, out, k) by {
        assert(kept_from(seen, out, k));
        let i = choose|i: int| #[trigger] is_first_of_period(seen, i) && seen[i] == out[k];
        lemma_first_stays(seen, record, i);
    }
    assert forall|i: int| 0 <= i < next.len() implies #[trigger] period_held(next, out, i) by {
        if i < seen.len() {
            assert(period_held(seen, out, i));
            let k = choose|k: int|
                0 <= k < out.len() && #[trigger] period_at(out, k) == period_at(seen, i);
            assert(period_at(out, k) == period_at(next, i));
        } else {
            assert(period_at(out, at) == period_at(next, i));
        }
    }
}

/// A record about a new period goes where the order wants it.
proof fn lemma_aggregate_insert<T: ClaimDated>(seen: Seq<T>, before: Seq<T>, record: T, at: int)
    requires
        is_aggregate(seen, before),
        0 <= at <= before.len(),
        forall|k: int|
            0 <= k < at ==> period_before(record.claim_period(), #[trigger] period_at(before, k)),
        at < before.len() ==> period_before(period_at(before, at), record.claim_period()),
    ensures
        is_aggregate(seen.push(record), before.insert(at, record)),
{
    let next = seen.push(record);
    let out = before.insert(at, record);
    let period = record.claim_period();
    let n = seen.len() as int;
    assert forall|k: int| 0 <= k < before.len() implies #[trigger] period_at(before, k)
        != period by {
        if k > at {
            assert(later_first(before, at, k));
        }
    }
    assert(is_first_of_period(next, n)) by {
        assert forall|j: int| 0 <= j < n implies #[trigger] periods_differ(next, j, n) by {
            assert(period_held(seen, before, j));
            let k = choose|k: int|
                0 <= k < before.len() && #[trigger] period_at(before, k) == period_at(seen, j);
            assert(period_at(before, k) != period);
        }
    }
    assert forall|k: int| 0 <= k < out.len() implies #[trigger] kept_from(next, out, k) by {
        if k == at {
            assert(is_first_of_period(next, n) && next[n] == out[k]);
        } else {
            let held = if k < at { k } else { k - 1 };
            assert(out[k] == before[held]);
            assert(kept_from(seen, before, held));
            let i = choose|i: int| #[trigger] is_first_of_period(seen, i) && seen[i] == before[held];
            lemma_first_stays(seen, record, i);
        }
    }
    assert forall|i: int| 0 <= i < next.len() implies #[trigger] period_held(next, out, i) by {
        if i < n {
            assert(period_held(seen, before, i));
            let k = choose|k: int|
                0 <= k < before.len() && #[trigger] period_at(before, k) == period_at(seen, i);
            let moved = if k < at { k } else { k + 1 };
            assert(out[moved] == before[k]);
            assert(period_at(out, moved) == period_at(next, i));
        } else {
            assert(period_at(out, at) == period_at(next, i));
        }
    }
    assert forall|i: int, j: int| 0 <= i < j < out.len() implies #[trigger] later_first(
        out,
        i,
        j,
    ) by {
        if j == at {
            assert(period_before(period, period_at(before, i)));
        } else if i == at {
            assert(out[j] == before[j - 1]);
            if j - 1 > at {
                assert(later_first(before, at, j - 1));
            }
        } else {
            let hi = if i < at { i } else { i - 1 };
            let hj = if j < at { j } else { j - 1 };
            assert(out[i] == before[hi] && out[j] == before[hj]);
            assert(later_first(before, hi, hj));
        }
    }
}

/// Merges the records of a crawl: of the records about one period the first
/// stays, and the latest period comes first.
pub fn aggregate<T: ClaimDated>(records: Vec<T>) -> (out: Vec<T>)
    ensures
        is_aggregate(records@, out@),
        out.len() <= records.len(),
{
    let mut out: Vec<T> = Vec::new();
    let ghost input = records@;
    for record in it: records
        invariant
            it.seq() == input,
            is_aggregate(input.take(it.index() as int), out@),
            out.len() <= it.index(),
    {
        let ghost n = it.index() as int;
        let ghost seen = input.take(n);
        let ghost before = out@;
        assert(input.take(n + 1) == seen.push(record));
        let period = record.claim();
        let mut at: usize = 0;
        while at < out.len() && claim_precedes(&period, &out[at].claim())
            invariant
                at <= out.len(),
                out@ == before,
                period == record.claim_period(),
                forall|k: int|
                    0 <= k < at ==> period_before(period, #[trigger] period_at(out@, k)),
            decreases out.len() - at,
        {
            at += 1;
        }
        let known = at < out.len() && !claim_precedes(&out[at].claim(), &period);
        if known {
            proof {
                lemma_aggregate_skip(seen, before, record, at as int);
            }
        } else {
            proof {
                lemma_aggregate_insert(seen, before, record, at as int);
            }
            out.insert(at, record);
        }
    }
    assert(input.take(input.len() as int) == input);
    out
}

/// The claim periods of `s`, record by record.
pub open spec fn periods_of<T: ClaimDated>(s: Seq<T>) -> Seq<Option<Date>> {
    Seq::new(s.len(), |i: int| period_at(s, i))
}

/// Two aggregates of one input hold the same period at each position.
proof fn lemma_same_period_at<T: ClaimDated>(input: Seq<T>, a: Seq<T>, b: Seq<T>, k: int)
    requires
        is_aggregate(input, a),
        is_aggregate(input, b),
        0 <= k < a.len(),
    ensures
        k < b.len(),
        period_at(a, k) == period_at(b, k),
    decreases k,
{
    assert(kept_from(input, a, k));
    let i = choose|i: int| #[trigger] is_first_of_period(input, i) && input[i] == a[k];
    assert(period_held(input, b, i));
    let m = choose|m: int| 0 <= m < b.len() && #[trigger] period_at(b, m) == period_at(input, i);
    assert(period_at(b, m) == period_at(a, k));
    if m < k {
        lemma_same_period_at(input, a, b, m);
        assert(later_first(a, m, k));
    } else if m > k {
        assert(later_first(b, k, m));
        assert(kept_from(input, b, k));
        let i2 = choose|i2: int| #[trigger] is_first_of_period(input, i2) && input[i2] == b[k];
        assert(period_held(input, a, i2));
        let n = choose|n: int|
            0 <= n < a.len() && #[trigger] period_at(a, n) == period_at(input, i2);
        assert(period_at(a, n) == period_at(b, k));
        if n < k {
            lemma_same_period_at(input, a, b, n);
            assert(later_first(b, n, k));
        } else if n > k {
            assert(later_first(a, k, n));
        }
    }
}

/// Aggregation has one result: what `is_aggregate` holds of is determined by
/// the input.
pub proof fn lemma_aggregate_unique<T: ClaimDated>(input: Seq<T>, a: Seq<T>, b: Seq<T>)
    requires
        is_aggregate(input, a),
        is_aggregate(input, b),
    ensures
        a == b,
{
    if a.len() > 0 {
        lemma_same_period_at(input, a, b, a.len() - 1);
    }
    if b.len() > 0 {
        lemma_same_period_at(input, b, a, b.len() - 1);
    }
    assert forall|k: int| 0 <= k < a.len() implies a[k] == b[k] by {
        lemma_same_period_at(input, a, b, k);
        assert(kept_from(input, a, k));
        let i = choose|i: int| #[trigger] is_first_of_period(input, i) && input[i] == a[k];
        assert(kept_from(input, b, k));
        let j = choose|j: int| #[trigger] is_first_of_period(input, j) && input[j] == b[k];
        assert(period_at(input, i) == period_at(input, j));
        if i < j {
            assert(periods_differ(input, i, j));
        } else if j < i {
            assert(periods_differ(input, j, i));
        }
    }
    assert(a =~= b);
}

/// The result of aggregation is its own aggregate.
pub proof fn lemma_aggregate_fixed<T: ClaimDated>(input: Seq<T>, out: Seq<T>)
    requires
        is_aggregate(input, out),
    ensures
        is_aggregate(out, out),
{
    assert forall|k: int| 0 <= k < out.len() implies #[trigger] kept_from(out, out, k) by {
        assert forall|j: int| 0 <= j < k implies #[trigger] periods_differ(out, j, k) by {
            assert(later_first(out, j, k));
        }
        assert(is_first_of_period(out, k) && out[k] == out[k]);
    }
    assert forall|i: int| 0 <= i < out.len() implies #[trigger] period_held(out, out, i) by {
        assert(period_at(out, i) == period_at(out, i));
    }
}

/// Aggregating what aggregation returned changes nothing.
pub proof fn lemma_aggregate_idempotent<T: ClaimDated>(input: Seq<T>, once: Seq<T>, twice: Seq<T>)
    requires
        is_aggregate(input, once),
        is_aggregate(once, twice),
    ensures
        twice == once,
{
    lemma_aggregate_fixed(input, once);
    lemma_aggregate_unique(once, once, twice);
}

/// Aggregation returns as many records as the input has distinct periods,
/// and the periods are the same.
pub proof fn lemma_aggregate_periods<T: ClaimDated>(input: Seq<T>, out: Seq<T>)
    requires
        is_aggregate(input, out),
    ensures
        periods_of(out).no_duplicates(),
        periods_of(out).to_set() == periods_of(input).to_set(),
        out.len() == periods_of(input).to_set().len(),
{
    let po = periods_of(out);
    let pi = periods_of(input);
    assert forall|i: int, j: int| 0 <= i < po.len() && 0 <= j < po.len() && i != j implies po[i]
        != po[j] by {
        if i < j {
            assert(later_first(out, i, j));
        } else {
            assert(later_first(out, j, i));
        }
    }
    assert forall|p: Option<Date>| po.to_set().contains(p) <==> pi.to_set().contains(p) by {
        if po.contains(p) {
            let k = choose|k: int| 0 <= k < po.len() && po[k] == p;
            assert(kept_from(input, out, k));
            let i = choose|i: int| #[trigger] is_first_of_period(input, i) && input[i] == out[k];
            assert(pi[i] == p);
        }
        if pi.contains(p) {
            let i = choose|i: int| 0 <= i < pi.len() && pi[i] == p;
            assert(period_held(input, out, i));
            let k = choose|k: int|
                0 <= k < out.len() && #[trigger] period_at(out, k) == period_at(input, i);
            assert(po[k] == p);
        }
    }
    assert(po.to_set() =~= pi.to_set());
    po.unique_seq_to_set();
}

} // verus!

//! Pairing of request and usage series, and the average utilization of a
//! workload.

use vstd::prelude::*;
use crate::band::{band_of, classify, Band};
use crate::models::{MemoryRequest, MemoryUsage, MetricPoint};
use crate::sequences::lemma_filter_push;
use crate::text::uppercase_of;

verus! {

/// How many units of a ratio make the whole request: a ratio is held in
/// millionths of a percent, so a usage equal to the request is 100 000 000.
pub const RATIO_UNITS: u128 = 100_000_000;

/// The largest ratio that one sample can give: the largest usage over a
/// request of one.
pub const MAX_RATIO: u128 = 1_844_674_407_370_955_161_500_000_000;

/// One classified workload: its two names, its band and its average
/// utilization in millionths of a percent.
#[derive(Debug, Clone)]
pub struct PodRow {
    pub namespace: String,
    pub name: String,
    pub band: Band,
    pub usage: u128,
}

/// What a row is.
pub struct PodRowView {
    pub namespace: Seq<char>,
    pub name: Seq<char>,
    pub band: Band,
    pub usage: nat,
}

impl View for PodRow {
    type V = PodRowView;

    open spec fn view(&self) -> PodRowView {
        PodRowView {
            namespace: self.namespace@,
            name: self.name@,
            band: self.band,
            usage: self.usage as nat,
        }
    }
}

impl PodRow {
    /// A copy of this row.
    pub fn copy(&self) -> (row: PodRow)
        ensures
            row@ == self@,
    {
        PodRow {
            namespace: self.namespace.clone(),
            name: self.name.clone(),
            band: self.band,
            usage: self.usage,
        }
    }
}

/// The views of a sequence of rows, in order.
pub open spec fn row_views(rows: Seq<PodRow>) -> Seq<PodRowView> {
    rows.map_values(|r: PodRow| r@)
}

/// The utilization of one sample in millionths of a percent, rounded down.
/// The request is above zero.
pub open spec fn sample_ratio(request: u64, usage: u64) -> nat
    recommends
        request > 0,
{
    (usage as nat * RATIO_UNITS as nat / request as nat) as nat
}

/// The ratios of the first `n` pairs of samples, taken position by position.
/// A pair whose request is zero gives none.
pub open spec fn ratios_upto(request: Seq<MetricPoint>, usage: Seq<MetricPoint>, n: nat) -> Seq<nat>
    recommends
        n <= request.len(),
        n <= usage.len(),
    decreases n,
{
    if n == 0 {
        Seq::empty()
    } else {
        let before = ratios_upto(request, usage, (n - 1) as nat);
        if request[n - 1].value > 0 {
            before.push(sample_ratio(request[n - 1].value, usage[n - 1].value))
        } else {
            before
        }
    }
}

/// The ratios of all pairs of the two series: as many pairs as the shorter
/// series has samples.
pub open spec fn paired_ratios(request: Seq<MetricPoint>, usage: Seq<MetricPoint>) -> Seq<nat> {
    ratios_upto(
        request,
        usage,
        if request.len() <= usage.len() {
            request.len()
        } else {
            usage.len()
        },
    )
}

/// The sum of a sequence of numbers.
pub open spec fn total(s: Seq<nat>) -> nat
    decreases s.len(),
{
    if s.len() == 0 {
        0
    } else {
        total(s.drop_last()) + s.last()
    }
}

/// The arithmetic mean of a non-empty sequence, rounded down.
pub open spec fn mean(s: Seq<nat>) -> nat
    recommends
        s.len() > 0,
{
    total(s) / s.len()
}

/// The average utilization of two paired series, in millionths of a percent:
/// the mean of their ratios, or none where no pair has a request above zero.
pub open spec fn average_of(request: Seq<MetricPoint>, usage: Seq<MetricPoint>) -> Option<nat> {
    let ratios = paired_ratios(request, usage);
    if ratios.len() == 0 {
        None
    } else {
        Some(mean(ratios))
    }
}

/// The position of the request series that counts for a workload: the last
/// one with both of its names.
pub open spec fn request_index(
    requests: Seq<MemoryRequest>,
    namespace: Seq<char>,
    pod_name: Seq<char>,
) -> Option<int>
    decreases requests.len(),
{
    if requests.len() == 0 {
        None
    } else if requests.last()@.namespace == namespace && requests.last()@.pod_name == pod_name {
        Some(requests.len() - 1)
    } else {
        request_index(requests.drop_last(), namespace, pod_name)
    }
}

/// The row of one usage series: none where no request series has its names,
/// or where no pair of samples has a request above zero.
pub open spec fn row_of(requests: Seq<MemoryRequest>, usage: MemoryUsage) -> Option<PodRowView> {
    match request_index(requests, usage@.namespace, usage@.pod_name) {
        None => None,
        Some(i) => match average_of(requests[i]@.metrics, usage@.metrics) {
            None => None,
            Some(average) => Some(
                PodRowView {
                    namespace: usage@.namespace,
                    name: usage@.pod_name,
                    band: band_of(average),
                    usage: average,
                },
            ),
        },
    }
}

/// The rows of all usage series, in the order of the usage series.
pub open spec fn rows_of(requests: Seq<MemoryRequest>, usages: Seq<MemoryUsage>) -> Seq<PodRowView> {
    usages.filter_map(|u: MemoryUsage| row_of(requests, u))
}

/// Whether a band passes the one-time filter: with no filter every band does,
/// with one the band whose label equals it, both taken in upper case.
pub open spec fn passes_filter(filter: Option<Seq<char>>, band: Band) -> bool {
    match filter {
        None => true,
        Some(f) => uppercase_of(crate::band::band_label(band)) == uppercase_of(f),
    }
}

/// The rows of all usage series that pass the one-time filter, in the order
/// of the usage series.
pub open spec fn filtered_rows_of(
    requests: Seq<MemoryRequest>,
    usages: Seq<MemoryUsage>,
    filter: Option<Seq<char>>,
) -> Seq<PodRowView> {
    rows_of(requests, usages).filter(|r: PodRowView| passes_filter(filter, r.band))
}

/// The request series that counts for a workload has its two names, and no
/// later request series has them; there is none exactly if no request series
/// has them.
pub proof fn lemma_request_index_is_last(
    requests: Seq<MemoryRequest>,
    namespace: Seq<char>,
    pod_name: Seq<char>,
)
    ensures
        match request_index(requests, namespace, pod_name) {
            Some(i) => {
                &&& 0 <= i < requests.len()
                &&& requests[i]@.namespace == namespace
                &&& requests[i]@.pod_name == pod_name
                &&& forall|j: int|
                    i < j < requests.len() ==> !((#[trigger] requests[j])@.namespace == namespace
                        && requests[j]@.pod_name == pod_name)
            },
            None => forall|j: int|
                0 <= j < requests.len() ==> !((#[trigger] requests[j])@.namespace == namespace
                    && requests[j]@.pod_name == pod_name),
        },
    decreases requests.len(),
{
    if requests.len() > 0 {
        lemma_request_index_is_last(requests.drop_last(), namespace, pod_name);
        assert(forall|j: int|
            0 <= j < requests.len() - 1 ==> requests.drop_last()[j] == #[trigger] requests[j]);
    }
}

/// Every usage series gives at most one row, and the band of each row is the
/// band of its average.
pub proof fn lemma_rows_are_classified(requests: Seq<MemoryRequest>, usages: Seq<MemoryUsage>)
    ensures
        rows_of(requests, usages).len() <= usages.len(),
        forall|i: int|
            0 <= i < rows_of(requests, usages).len() ==> (#[trigger] rows_of(
                requests,
                usages,
            )[i]).band == band_of(rows_of(requests, usages)[i].usage),
    decreases usages.len(),
{
    if usages.len() > 0 {
        lemma_rows_are_classified(requests, usages.drop_last());
        let before = rows_of(requests, usages.drop_last());
        match row_of(requests, usages.last()) {
            Some(row) => {
                assert(rows_of(requests, usages) == before + seq![row]);
            },
            None => {
                assert(rows_of(requests, usages) == before);
            },
        }
    }
}

/// The sum of a sequence grows by what is appended.
pub proof fn lemma_total_push(s: Seq<nat>, x: nat)
    ensures
        total(s.push(x)) == total(s) + x,
{
    assert(s.push(x).drop_last() =~= s);
}

/// The mean of a non-empty sequence is its sum divided by its length, rounded
/// down: as many times the mean do not exceed the sum, and as many times the
/// next number do.
pub proof fn lemma_mean_bounds(s: Seq<nat>)
    requires
        s.len() > 0,
    ensures
        mean(s) * s.len() <= total(s) < (mean(s) + 1) * s.len(),
{
    let t = total(s) as int;
    let n = s.len() as int;
    assert((t / n) * n <= t < (t / n + 1) * n) by (nonlinear_arith)
        requires
            n > 0,
            t >= 0,
    ;
}

/// The utilization of one sample in millionths of a percent, rounded down.
pub fn ratio_of(request: u64, usage: u64) -> (ratio: u128)
    requires
        request > 0,
    ensures
        ratio == sample_ratio(request, usage),
        ratio <= MAX_RATIO,
{
    let scaled: u128 = (usage as u128) * RATIO_UNITS;
    let ratio: u128 = scaled / (request as u128);
    assert(scaled as int / request as int <= scaled as int) by (nonlinear_arith)
        requires
            request >= 1,
            scaled >= 0,
    ;
    ratio
}

/// More pairs give at least as many ratios.
pub proof fn lemma_ratios_grow(request: Seq<MetricPoint>, usage: Seq<MetricPoint>, m: nat, n: nat)
    requires
        m <= n,
    ensures
        ratios_upto(request, usage, m).len() <= ratios_upto(request, usage, n).len(),
        ratios_upto(request, usage, n).len() <= n,
    decreases n,
{
    if n > 0 {
        if m < n {
            lemma_ratios_grow(request, usage, m, (n - 1) as nat);
        } else {
            lemma_ratios_grow(request, usage, (n - 1) as nat, (n - 1) as nat);
        }
    }
}

/// The number of pairs of samples whose request is above zero.
pub fn count_valid_pairs(request: &Vec<MetricPoint>, usage: &Vec<MetricPoint>) -> (count: usize)
    ensures
        count == paired_ratios(request@, usage@).len(),
{
    let pairs: usize = if request.len() <= usage.len() {
        request.len()
    } else {
        usage.len()
    };
    let mut count: usize = 0;
    let mut i: usize = 0;
    while i < pairs
        invariant
            i <= pairs,
            pairs <= request.len(),
            pairs <= usage.len(),
            count == ratios_upto(request@, usage@, i as nat).len(),
            count <= i,
        decreases pairs - i,
    {
        if request[i].value > 0 {
            count = count + 1;
        }
        i = i + 1;
    }
    count
}

/// One step of a mean that is kept as whole parts and rests: a sum held as
/// `c * whole + rest` takes one more ratio, and neither part outgrows its
/// bound while fewer than `c` ratios are in it.
proof fn lemma_mean_step(c: int, k: int, whole: int, rest: int, ratio: int)
    requires
        0 <= k < c,
        0 <= ratio <= MAX_RATIO,
        0 <= whole <= k * (MAX_RATIO as int / c),
        0 <= rest <= k * (c - 1),
        c <= u64::MAX,
    ensures
        c * (whole + ratio / c) + (rest + ratio % c) == c * whole + rest + ratio,
        0 <= whole + ratio / c <= (k + 1) * (MAX_RATIO as int / c),
        0 <= rest + ratio % c <= (k + 1) * (c - 1),
        (k + 1) * (MAX_RATIO as int / c) <= MAX_RATIO,
        (k + 1) * (c - 1) <= u64::MAX * u64::MAX,
{
    let cap = MAX_RATIO as int / c;
    vstd::arithmetic::div_mod::lemma_fundamental_div_mod(ratio, c);
    vstd::arithmetic::div_mod::lemma_fundamental_div_mod(MAX_RATIO as int, c);
    vstd::arithmetic::div_mod::lemma_div_is_ordered(ratio, MAX_RATIO as int, c);
    vstd::arithmetic::div_mod::lemma_mod_pos_bound(ratio, c);
    vstd::arithmetic::div_mod::lemma_mod_pos_bound(MAX_RATIO as int, c);
    vstd::arithmetic::div_mod::lemma_div_pos_is_pos(ratio, c);
    vstd::arithmetic::mul::lemma_mul_is_distributive_add(c, whole, ratio / c);
    assert((k + 1) * cap == k * cap + cap) by (nonlinear_arith);
    assert((k + 1) * (c - 1) == k * (c - 1) + (c - 1)) by (nonlinear_arith);
    assert((k + 1) * cap <= c * cap) by (nonlinear_arith)
        requires
            k + 1 <= c,
            cap >= 0,
    ;
    assert((k + 1) * (c - 1) <= u64::MAX * u64::MAX) by (nonlinear_arith)
        requires
            0 <= k + 1 <= c,
            c <= u64::MAX,
    ;
}

/// The average utilization of one workload in millionths of a percent. Samples
/// are paired position by position, as far as the shorter series goes; a pair
/// whose request is zero is left out. `None` where no pair is left.
pub fn average_utilization(request: &Vec<MetricPoint>, usage: &Vec<MetricPoint>) -> (average: Option<
    u128,
>)
    ensures
        match average {
            Some(a) => average_of(request@, usage@) == Some(a as nat),
            None => average_of(request@, usage@).is_none(),
        },
{
    let pairs: usize = if request.len() <= usage.len() {
        request.len()
    } else {
        usage.len()
    };
    let count: usize = count_valid_pairs(request, usage);
    if count == 0 {
        return None;
    }
    // The sum of the ratios may not fit any integer type, so it is held as
    // `c * whole + rest`: each ratio adds its quotient by `c` to the one and
    // its remainder to the other.
    let c: u128 = count as u128;
    let mut whole: u128 = 0;
    let mut rest: u128 = 0;
    let mut i: usize = 0;
    let ghost mut k: int = 0;
    while i < pairs
        invariant
            i <= pairs,
            pairs <= request.len(),
            pairs <= usage.len(),
            c == count,
            c > 0,
            count == ratios_upto(request@, usage@, pairs as nat).len(),
            k == ratios_upto(request@, usage@, i as nat).len(),
            c * whole + rest == total(ratios_upto(request@, usage@, i as nat)),
            whole <= k * (MAX_RATIO / c),
            rest <= k * (c - 1),
        decreases pairs - i,
    {
        let r: u64 = request[i].value;
        let u: u64 = usage[i].value;
        if r > 0 {
            let ratio: u128 = ratio_of(r, u);
            proof {
                lemma_total_push(ratios_upto(request@, usage@, i as nat), ratio as nat);
                lemma_ratios_grow(request@, usage@, (i + 1) as nat, pairs as nat);
                lemma_mean_step(c as int, k, whole as int, rest as int, ratio as int);
                k = k + 1;
            }
            whole = whole + ratio / c;
            rest = rest + ratio % c;
        }
        i = i + 1;
    }
    proof {
        vstd::arithmetic::div_mod::lemma_hoist_over_denominator(rest as int, whole as int, c as nat);
        assert(whole * c == c * whole) by (nonlinear_arith);
        assert(rest as int / c as int <= k) by (nonlinear_arith)
            requires
                0 <= rest <= k * (c - 1),
                c > 0,
                k >= 0,
        ;
        vstd::arithmetic::div_mod::lemma_fundamental_div_mod(MAX_RATIO as int, c as int);
        vstd::arithmetic::div_mod::lemma_mod_pos_bound(MAX_RATIO as int, c as int);
        lemma_ratios_grow(request@, usage@, pairs as nat, pairs as nat);
        assert(k * (MAX_RATIO / c) <= MAX_RATIO) by (nonlinear_arith)
            requires
                0 <= k <= c,
                c > 0,
                MAX_RATIO / c >= 0,
                c * (MAX_RATIO / c) <= MAX_RATIO,
        ;
    }
    Some(whole + rest / c)
}

/// Finds the request series that counts for a workload: the last one with
/// both of its names.
pub fn find_request(requests: &Vec<MemoryRequest>, namespace: &String, pod_name: &String) -> (found:
    Option<usize>)
    ensures
        match found {
            Some(i) => request_index(requests@, namespace@, pod_name@) == Some(i as int),
            None => request_index(requests@, namespace@, pod_name@).is_none(),
        },
        found.is_some() ==> found.unwrap() < requests.len(),
{
    let mut found: Option<usize> = None;
    let mut i: usize = 0;
    while i < requests.len()
        invariant
            i <= requests.len(),
            match found {
                Some(k) => k < i && request_index(requests@.take(i as int), namespace@, pod_name@)
                    == Some(k as int),
                None => request_index(requests@.take(i as int), namespace@, pod_name@).is_none(),
            },
        decreases requests.len() - i,
    {
        proof {
            assert(requests@.take(i + 1).drop_last() =~= requests@.take(i as int));
        }
        if requests[i].namespace == *namespace && requests[i].pod_name == *pod_name {
            found = Some(i);
        }
        i = i + 1;
    }
    proof {
        assert(requests@.take(i as int) =~= requests@);
    }
    found
}

/// The row of one usage series, if it has one.
pub fn correlate_one(requests: &Vec<MemoryRequest>, usage: &MemoryUsage) -> (row: Option<PodRow>)
    ensures
        match row {
            Some(r) => row_of(requests@, *usage) == Some(r@),
            None => row_of(requests@, *usage).is_none(),
        },
{
    match find_request(requests, &usage.namespace, &usage.pod_name) {
        None => None,
        Some(i) => match average_utilization(&requests[i].metrics, &usage.metrics) {
            None => None,
            Some(average) => Some(
                PodRow {
                    namespace: usage.namespace.clone(),
                    name: usage.pod_name.clone(),
                    band: classify(average),
                    usage: average,
                },
            ),
        },
    }
}

/// Correlates the usage series with the request series: one row for each
/// usage series that has a request series of the same names and at least one
/// pair of samples with a request above zero, in the order of the usage
/// series.
pub fn correlate(requests: &Vec<MemoryRequest>, usages: &Vec<MemoryUsage>) -> (rows: Vec<PodRow>)
    ensures
        row_views(rows@) == rows_of(requests@, usages@),
{
    let mut rows: Vec<PodRow> = Vec::new();
    let mut j: usize = 0;
    while j < usages.len()
        invariant
            j <= usages.len(),
            row_views(rows@) == rows_of(requests@, usages@.take(j as int)),
        decreases usages.len() - j,
    {
        let ghost before = row_views(rows@);
        proof {
            assert(usages@.take(j + 1).drop_last() =~= usages@.take(j as int));
        }
        match correlate_one(requests, &usages[j]) {
            Some(row) => {
                rows.push(row);
                proof {
                    assert(row_views(rows@) =~= before + seq![row@]);
                }
            },
            None => {},
        }
        j = j + 1;
    }
    proof {
        assert(usages@.take(j as int) =~= usages@);
    }
    rows
}

/// Whether a band passes the one-time filter.
pub fn band_passes(filter: Option<&str>, band: Band) -> (passes: bool)
    ensures
        passes == passes_filter(
            match filter {
                Some(f) => Some(f@),
                None => None,
            },
            band,
        ),
{
    match filter {
        None => true,
        Some(f) => {
            let label: String = band.label();
            label.as_str().to_uppercase() == f.to_uppercase()
        },
    }
}

/// Correlates the usage series with the request series and keeps the rows
/// that pass the one-time filter, in the order of the usage series.
pub fn compare_data(requests: &Vec<MemoryRequest>, usages: &Vec<MemoryUsage>, filter: Option<&str>) -> (rows:
    Vec<PodRow>)
    ensures
        row_views(rows@) == filtered_rows_of(
            requests@,
            usages@,
            match filter {
                Some(f) => Some(f@),
                None => None,
            },
        ),
{
    let all: Vec<PodRow> = correlate(requests, usages);
    let ghost wanted: Option<Seq<char>> = match filter {
        Some(f) => Some(f@),
        None => None,
    };
    let ghost pred = |r: PodRowView| passes_filter(wanted, r.band);
    let mut rows: Vec<PodRow> = Vec::new();
    let mut i: usize = 0;
    proof {
        reveal(Seq::filter);
        assert(row_views(all@).take(0).filter(pred) =~= Seq::<PodRowView>::empty());
    }
    while i < all.len()
        invariant
            i <= all.len(),
            wanted == match filter {
                Some(f) => Some(f@),
                None => None,
            },
            pred == |r: PodRowView| passes_filter(wanted, r.band),
            row_views(rows@) == row_views(all@).take(i as int).filter(pred),
        decreases all.len() - i,
    {
        proof {
            lemma_filter_push(row_views(all@).take(i as int), pred, all[i as int]@);
            assert(row_views(all@).take(i + 1) =~= row_views(all@).take(i as int).push(
                all[i as int]@,
            ));
        }
        if band_passes(filter, all[i].band) {
            let ghost before = row_views(rows@);
            let row: PodRow = all[i].copy();
            rows.push(row);
            proof {
                assert(row_views(rows@) =~= before.push(all[i as int]@));
            }
        }
        i = i + 1;
    }
    proof {
        assert(row_views(all@).take(i as int) =~= row_views(all@));
    }
    rows
}

} // verus!

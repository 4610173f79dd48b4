//! Streaming statistics over the samples that the simulation produces.

use vstd::prelude::*;
use vstd::seq_lib::to_multiset_insert;
use crate::bathroom::{elapsed_since, Bathroom};
use crate::person::{Gender, Person};
use crate::scan::{leading, lemma_leading_bounds, lemma_leading_unique};

verus! {

/// Every sample is at most each sample that follows it.
pub open spec fn is_sorted(s: Seq<u64>) -> bool {
    forall|i: int, j: int| 0 <= i <= j < s.len() ==> s[i] <= s[j]
}

/// The sum of all samples.
pub open spec fn total(s: Seq<u64>) -> nat
    decreases s.len(),
{
    if s.len() == 0 {
        0
    } else {
        total(s.drop_last()) + s.last() as nat
    }
}

/// The sum of the samples divided by their number, rounded down; 0 where
/// there is no sample.
pub open spec fn mean(s: Seq<u64>) -> nat {
    if s.len() == 0 {
        0
    } else {
        total(s) / s.len()
    }
}

/// The test for a sample that is below `m`.
pub open spec fn below(m: u64) -> spec_fn(u64) -> bool {
    |x: u64| x < m
}

/// The number of leading samples that are below `m`. In a sorted sequence
/// this is the first place at which `m` can stand.
pub open spec fn insert_point(s: Seq<u64>, m: u64) -> int {
    leading(s, below(m))
}

/// The sample at index `i`, or 0 where there is none.
pub open spec fn at_or_zero(s: Seq<u64>, i: int) -> u64 {
    if 0 <= i < s.len() {
        s[i]
    } else {
        0
    }
}

/// The sample that stands `percent` hundredths of the way through `s`, at
/// index `len * percent / 100` rounded down; 0 where `s` is empty.
pub open spec fn ranked(s: Seq<u64>, percent: nat) -> u64 {
    at_or_zero(s, (s.len() * percent / 100) as int)
}

/// Putting `m` at its `insert_point` keeps a sorted sequence sorted.
pub proof fn lemma_insert_keeps_sorted(s: Seq<u64>, m: u64)
    requires
        is_sorted(s),
    ensures
        is_sorted(s.insert(insert_point(s, m), m)),
{
    lemma_leading_bounds(s, below(m));
    let p = insert_point(s, m);
    let r = s.insert(p, m);
    assert forall|i: int, j: int| 0 <= i <= j < r.len() implies r[i] <= r[j] by {
        if j < p {
            assert(r[i] == s[i] && r[j] == s[j]);
        } else if j == p {
            if i < p {
                assert(r[i] == s[i]);
            }
        } else {
            assert(r[j] == s[j - 1]);
            assert(s[p] <= s[j - 1]);
            if i < p {
                assert(r[i] == s[i]);
            } else if i > p {
                assert(r[i] == s[i - 1]);
            }
        }
    }
}

/// The first index of `sorted` at which `m` can be put so that the samples
/// stay sorted, found by halving the range.
pub fn insertion_index(sorted: &Vec<u64>, m: u64) -> (p: usize)
    requires
        is_sorted(sorted@),
    ensures
        p == insert_point(sorted@, m),
        p <= sorted@.len(),
{
    let mut lo: usize = 0;
    let mut hi: usize = sorted.len();
    while lo < hi
        invariant
            lo <= hi <= sorted@.len(),
            is_sorted(sorted@),
            forall|i: int| 0 <= i < lo ==> below(m)(#[trigger] sorted@[i]),
            forall|i: int| hi <= i < sorted@.len() ==> sorted@[i] >= m,
        decreases hi - lo,
    {
        let mid: usize = lo + (hi - lo) / 2;
        if sorted[mid] < m {
            lo = mid + 1;
        } else {
            hi = mid;
        }
    }
    proof {
        lemma_leading_unique(sorted@, below(m), lo as int);
    }
    lo
}

/// The sum of the samples, which always fits in 128 bits.
fn sum_of(samples: &Vec<u64>) -> (sum: u128)
    ensures
        sum == total(samples@),
        sum <= samples@.len() * u64::MAX,
{
    let mut sum: u128 = 0;
    let mut i: usize = 0;
    while i < samples.len()
        invariant
            i <= samples@.len(),
            sum == total(samples@.take(i as int)),
            sum <= i * u64::MAX,
        decreases samples@.len() - i,
    {
        proof {
            assert(samples@.take(i + 1).drop_last() == samples@.take(i as int));
            assert(i * u64::MAX + u64::MAX == (i + 1) * u64::MAX) by (nonlinear_arith);
            assert((i + 1) * u64::MAX <= usize::MAX * u64::MAX) by (nonlinear_arith)
                requires
                    i + 1 <= usize::MAX,
            ;
            assert(usize::MAX * u64::MAX <= u64::MAX * u64::MAX) by (nonlinear_arith)
                requires
                    usize::MAX <= u64::MAX,
            ;
        }
        sum = sum + samples[i] as u128;
        i = i + 1;
    }
    proof {
        assert(samples@.take(samples@.len() as int) == samples@);
    }
    sum
}

/// The sample of `sorted` at index `len * percent / 100`, or 0 where
/// `sorted` is empty.
fn pick(sorted: &Vec<u64>, percent: u8) -> (v: u64)
    requires
        percent < 100,
    ensures
        v == ranked(sorted@, percent as nat),
{
    let len: usize = sorted.len();
    if len == 0 {
        return 0;
    }
    proof {
        assert(len * percent <= usize::MAX * 100) by (nonlinear_arith)
            requires
                len <= usize::MAX,
                percent < 100,
        ;
        assert(len * percent / 100 < len) by (nonlinear_arith)
            requires
                len > 0,
                0 <= percent < 100,
        ;
    }
    let at: u128 = (len as u128) * (percent as u128) / 100;
    sorted[at as usize]
}

/// A set of samples with the figures that are derived from it.
///
/// `measures` holds the samples in the order in which they came,
/// `ordered_measures` holds them sorted. The other fields are brought up to
/// date by the `update_` methods.
#[derive(Debug)]
pub struct Statistic {
    pub measures: Vec<u64>,
    pub avg: u64,
    pub min: u64,
    pub max: u64,
    pub median: u64,
    pub percentile_10: u64,
    pub percentile_25: u64,
    pub percentile_75: u64,
    pub percentile_90: u64,
    pub ordered_measures: Vec<u64>,
}

/// A statistic without samples, all figures 0.
pub fn new_statistic() -> (s: Statistic)
    ensures
        s.is_new(),
        s.wf(),
{
    Statistic {
        measures: Vec::new(),
        avg: 0,
        min: 0,
        max: 0,
        median: 0,
        percentile_10: 0,
        percentile_25: 0,
        percentile_75: 0,
        percentile_90: 0,
        ordered_measures: Vec::new(),
    }
}

impl Statistic {
    /// `ordered_measures` holds the samples of `measures`, each as often as
    /// it occurs there, in ascending order.
    pub open spec fn wf(&self) -> bool {
        &&& is_sorted(self.ordered_measures@)
        &&& self.ordered_measures@.to_multiset() == self.measures@.to_multiset()
    }

    /// There is no sample and every figure is 0.
    pub open spec fn is_new(&self) -> bool {
        &&& self.measures@ == Seq::<u64>::empty()
        &&& self.ordered_measures@ == Seq::<u64>::empty()
        &&& self.avg == 0
        &&& self.min == 0
        &&& self.max == 0
        &&& self.median == 0
        &&& self.percentile_10 == 0
        &&& self.percentile_25 == 0
        &&& self.percentile_75 == 0
        &&& self.percentile_90 == 0
    }

    /// `self` is `before` with one more sample: at the end of `measures`,
    /// and in `ordered_measures` at the place that keeps them sorted. The
    /// derived figures are those of `before`.
    pub open spec fn follows(&self, before: &Statistic, sample: u64) -> bool {
        &&& self.measures@ == before.measures@.push(sample)
        &&& self.ordered_measures@ == before.ordered_measures@.insert(
            insert_point(before.ordered_measures@, sample),
            sample,
        )
        &&& self.same_figures(before)
    }

    /// The derived figures of `self` and `other` are the same.
    pub open spec fn same_figures(&self, other: &Statistic) -> bool {
        &&& self.avg == other.avg
        &&& self.min == other.min
        &&& self.max == other.max
        &&& self.median == other.median
        &&& self.percentile_10 == other.percentile_10
        &&& self.percentile_25 == other.percentile_25
        &&& self.percentile_75 == other.percentile_75
        &&& self.percentile_90 == other.percentile_90
    }

    /// The samples of `self` and `other` are the same, in both orders.
    pub open spec fn same_samples(&self, other: &Statistic) -> bool {
        &&& self.measures@ == other.measures@
        &&& self.ordered_measures@ == other.ordered_measures@
    }

    /// Every derived figure is what the samples give.
    pub open spec fn up_to_date(&self) -> bool {
        &&& self.avg == mean(self.measures@)
        &&& self.min == at_or_zero(self.ordered_measures@, 0)
        &&& self.max == at_or_zero(self.ordered_measures@, self.ordered_measures@.len() - 1)
        &&& self.median == ranked(self.ordered_measures@, 50)
        &&& self.percentile_10 == ranked(self.ordered_measures@, 10)
        &&& self.percentile_25 == ranked(self.ordered_measures@, 25)
        &&& self.percentile_75 == ranked(self.ordered_measures@, 75)
        &&& self.percentile_90 == ranked(self.ordered_measures@, 90)
    }

    /// Records one sample: at the end of `measures`, and in
    /// `ordered_measures` at the place that keeps them sorted.
    pub fn add_measure(&mut self, measure: u64)
        requires
            old(self).wf(),
        ensures
            final(self).wf(),
            final(self).follows(old(self), measure),
    {
        self.measures.push(measure);
        let at: usize = insertion_index(&self.ordered_measures, measure);
        proof {
            lemma_insert_keeps_sorted(self.ordered_measures@, measure);
            to_multiset_insert(self.ordered_measures@, at as int, measure);
            old(self).measures@.to_multiset_ensures();
        }
        self.ordered_measures.insert(at, measure);
    }

    /// Sets `avg` to the sum of the samples divided by their number, rounded
    /// down, or to 0 where there is no sample, and returns it.
    pub fn update_avg(&mut self) -> (avg: u64)
        ensures
            avg == mean(old(self).measures@),
            *final(self) == (Statistic { avg, ..*old(self) }),
    {
        let count: usize = self.measures.len();
        if count == 0 {
            self.avg = 0;
        } else {
            let sum: u128 = sum_of(&self.measures);
            proof {
                assert(sum / (count as u128) <= u64::MAX) by (nonlinear_arith)
                    requires
                        sum <= count * u64::MAX,
                        count > 0,
                ;
            }
            self.avg = (sum / (count as u128)) as u64;
        }
        self.avg
    }

    /// Sets `min` to the first of the sorted samples, or to 0 where there is
    /// none, and returns it.
    pub fn update_min(&mut self) -> (min: u64)
        ensures
            min == at_or_zero(old(self).ordered_measures@, 0),
            *final(self) == (Statistic { min, ..*old(self) }),
    {
        if self.ordered_measures.len() == 0 {
            self.min = 0;
        } else {
            self.min = self.ordered_measures[0];
        }
        self.min
    }

    /// Sets `max` to the last of the sorted samples, or to 0 where there is
    /// none, and returns it.
    pub fn update_max(&mut self) -> (max: u64)
        ensures
            max == at_or_zero(old(self).ordered_measures@, old(self).ordered_measures@.len() - 1),
            *final(self) == (Statistic { max, ..*old(self) }),
    {
        let count: usize = self.ordered_measures.len();
        if count == 0 {
            self.max = 0;
        } else {
            self.max = self.ordered_measures[count - 1];
        }
        self.max
    }

    /// Sets `median` to the sorted sample at index `len / 2`, or to 0 where
    /// there is none, and returns it.
    pub fn update_median(&mut self) -> (median: u64)
        ensures
            median == ranked(old(self).ordered_measures@, 50),
            median == at_or_zero(
                old(self).ordered_measures@,
                old(self).ordered_measures@.len() as int / 2,
            ),
            *final(self) == (Statistic { median, ..*old(self) }),
    {
        self.median = pick(&self.ordered_measures, 50);
        self.median
    }

    /// Sets `percentile_10` to the sorted sample at index `len * 10 / 100`,
    /// or to 0 where there is none, and returns it.
    pub fn update_percentile_10(&mut self) -> (p: u64)
        ensures
            p == ranked(old(self).ordered_measures@, 10),
            *final(self) == (Statistic { percentile_10: p, ..*old(self) }),
    {
        self.percentile_10 = pick(&self.ordered_measures, 10);
        self.percentile_10
    }

    /// Sets `percentile_25` to the sorted sample at index `len * 25 / 100`,
    /// or to 0 where there is none, and returns it.
    pub fn update_percentile_25(&mut self) -> (p: u64)
        ensures
            p == ranked(old(self).ordered_measures@, 25),
            *final(self) == (Statistic { percentile_25: p, ..*old(self) }),
    {
        self.percentile_25 = pick(&self.ordered_measures, 25);
        self.percentile_25
    }

    /// Sets `percentile_75` to the sorted sample at index `len * 75 / 100`,
    /// or to 0 where there is none, and returns it.
    pub fn update_percentile_75(&mut self) -> (p: u64)
        ensures
            p == ranked(old(self).ordered_measures@, 75),
            *final(self) == (Statistic { percentile_75: p, ..*old(self) }),
    {
        self.percentile_75 = pick(&self.ordered_measures, 75);
        self.percentile_75
    }

    /// Sets `percentile_90` to the sorted sample at index `len * 90 / 100`,
    /// or to 0 where there is none, and returns it.
    pub fn update_percentile_90(&mut self) -> (p: u64)
        ensures
            p == ranked(old(self).ordered_measures@, 90),
            *final(self) == (Statistic { percentile_90: p, ..*old(self) }),
    {
        self.percentile_90 = pick(&self.ordered_measures, 90);
        self.percentile_90
    }

    /// Brings every derived figure up to date with the samples.
    pub fn update_statistics(&mut self)
        ensures
            final(self).up_to_date(),
            final(self).same_samples(old(self)),
            final(self).measures == old(self).measures,
            final(self).ordered_measures == old(self).ordered_measures,
            old(self).wf() ==> final(self).wf(),
    {
        self.update_avg();
        self.update_min();
        self.update_max();
        self.update_median();
        self.update_percentile_10();
        self.update_percentile_25();
        self.update_percentile_75();
        self.update_percentile_90();
    }
}

/// The sum of samples that all lie between `lo` and `hi` lies between
/// their number times `lo` and their number times `hi`.
pub proof fn lemma_total_between(s: Seq<u64>, lo: u64, hi: u64)
    requires
        forall|i: int| 0 <= i < s.len() ==> lo <= #[trigger] s[i] <= hi,
    ensures
        s.len() * lo <= total(s) <= s.len() * hi,
    decreases s.len(),
{
    if s.len() > 0 {
        let t = s.drop_last();
        assert forall|i: int| 0 <= i < t.len() implies lo <= #[trigger] t[i] <= hi by {
            assert(t[i] == s[i]);
        }
        lemma_total_between(t, lo, hi);
        assert(s.len() * lo == t.len() * lo + lo) by (nonlinear_arith)
            requires
                s.len() == t.len() + 1,
        ;
        assert(s.len() * hi == t.len() * hi + hi) by (nonlinear_arith)
            requires
                s.len() == t.len() + 1,
        ;
    }
}

/// Without samples every figure of an up-to-date statistic is 0.
pub proof fn lemma_no_sample_no_figure(s: Statistic)
    requires
        s.wf(),
        s.up_to_date(),
        s.measures@.len() == 0,
    ensures
        s.avg == 0,
        s.min == 0,
        s.max == 0,
        s.median == 0,
        s.percentile_10 == 0,
        s.percentile_25 == 0,
        s.percentile_75 == 0,
        s.percentile_90 == 0,
{
    s.measures@.to_multiset_ensures();
    s.ordered_measures@.to_multiset_ensures();
}

/// In an up-to-date statistic `min` is the least sample and `max` the
/// greatest: both are samples, and every sample lies between them.
pub proof fn lemma_min_and_max_bound_the_samples(s: Statistic)
    requires
        s.wf(),
        s.up_to_date(),
    ensures
        forall|i: int| 0 <= i < s.measures@.len() ==> s.min <= #[trigger] s.measures@[i] <= s.max,
        s.measures@.len() > 0 ==> s.measures@.contains(s.min) && s.measures@.contains(s.max),
{
    let sorted = s.ordered_measures@;
    s.measures@.to_multiset_ensures();
    sorted.to_multiset_ensures();
    assert forall|i: int| 0 <= i < s.measures@.len() implies s.min <= #[trigger] s.measures@[i]
        <= s.max by {
        let v = s.measures@[i];
        assert(s.measures@.contains(v));
        assert(s.measures@.to_multiset().count(v) > 0);
        assert(sorted.to_multiset().count(v) > 0);
        assert(sorted.contains(v));
        let j = choose|j: int| 0 <= j < sorted.len() && sorted[j] == v;
        assert(sorted[0] <= sorted[j] <= sorted[sorted.len() - 1]);
    }
    if s.measures@.len() > 0 {
        assert(sorted.len() > 0) by {
            assert(sorted.to_multiset().len() == s.measures@.to_multiset().len());
        }
        assert(sorted.contains(sorted[0]));
        assert(sorted.to_multiset().count(sorted[0]) > 0);
        assert(s.measures@.to_multiset().count(sorted[0]) > 0);
        assert(sorted.contains(sorted[sorted.len() - 1]));
        assert(sorted.to_multiset().count(sorted[sorted.len() - 1]) > 0);
        assert(s.measures@.to_multiset().count(sorted[sorted.len() - 1]) > 0);
    }
}

/// In an up-to-date statistic the figures that are read off the sorted
/// samples ascend: from `min` over the percentiles and the median to
/// `max`.
pub proof fn lemma_figures_ascend(s: Statistic)
    requires
        s.wf(),
        s.up_to_date(),
    ensures
        s.min <= s.percentile_10 <= s.percentile_25 <= s.median,
        s.median <= s.percentile_75 <= s.percentile_90 <= s.max,
{
    let sorted = s.ordered_measures@;
    let n = sorted.len();
    if n > 0 {
        assert(0 <= n * 10 / 100 <= n * 25 / 100 <= n * 50 / 100);
        assert(n * 50 / 100 <= n * 75 / 100 <= n * 90 / 100 <= n - 1);
    }
}

/// In an up-to-date statistic `avg` lies between `min` and `max`.
pub proof fn lemma_avg_between_min_and_max(s: Statistic)
    requires
        s.wf(),
        s.up_to_date(),
    ensures
        s.min <= s.avg <= s.max,
{
    let n = s.measures@.len();
    if n == 0 {
        lemma_no_sample_no_figure(s);
    } else {
        lemma_min_and_max_bound_the_samples(s);
        lemma_total_between(s.measures@, s.min, s.max);
        let sum = total(s.measures@);
        assert(s.min <= sum / n <= s.max) by (nonlinear_arith)
            requires
                n > 0,
                n * s.min <= sum <= n * s.max,
        ;
    }
}

/// The statistics of one run: per gender the queue's length and the time
/// for which the gender had the bathroom, sampled at each switch, and the
/// time that each person spent from joining the queue to leaving; and the
/// number of switches.
#[derive(Debug)]
pub struct MetricsCollector {
    pub male_queue_size: Statistic,
    pub female_queue_size: Statistic,
    pub gender_switches: u64,
    pub time_bathroom_was_male: Statistic,
    pub time_bathroom_was_female: Statistic,
    pub male_personal_total_time_spent: Statistic,
    pub female_personal_total_time_spent: Statistic,
    pub male_personal_total_wait_time: Statistic,
    pub female_personal_total_wait_time: Statistic,
}

/// A collector that has seen nothing yet.
pub fn new_metrics_collector() -> (m: MetricsCollector)
    ensures
        m.wf(),
        m.gender_switches == 0,
        m.male_queue_size.is_new(),
        m.female_queue_size.is_new(),
        m.time_bathroom_was_male.is_new(),
        m.time_bathroom_was_female.is_new(),
        m.male_personal_total_time_spent.is_new(),
        m.female_personal_total_time_spent.is_new(),
        m.male_personal_total_wait_time.is_new(),
        m.female_personal_total_wait_time.is_new(),
{
    MetricsCollector {
        male_queue_size: new_statistic(),
        female_queue_size: new_statistic(),
        gender_switches: 0,
        time_bathroom_was_male: new_statistic(),
        time_bathroom_was_female: new_statistic(),
        male_personal_total_time_spent: new_statistic(),
        female_personal_total_time_spent: new_statistic(),
        male_personal_total_wait_time: new_statistic(),
        female_personal_total_wait_time: new_statistic(),
    }
}

impl MetricsCollector {
    /// Every statistic is well formed.
    pub open spec fn wf(&self) -> bool {
        &&& self.male_queue_size.wf()
        &&& self.female_queue_size.wf()
        &&& self.time_bathroom_was_male.wf()
        &&& self.time_bathroom_was_female.wf()
        &&& self.male_personal_total_time_spent.wf()
        &&& self.female_personal_total_time_spent.wf()
        &&& self.male_personal_total_wait_time.wf()
        &&& self.female_personal_total_wait_time.wf()
    }

    /// Every statistic is up to date with its samples.
    pub open spec fn up_to_date(&self) -> bool {
        &&& self.male_queue_size.up_to_date()
        &&& self.female_queue_size.up_to_date()
        &&& self.time_bathroom_was_male.up_to_date()
        &&& self.time_bathroom_was_female.up_to_date()
        &&& self.male_personal_total_time_spent.up_to_date()
        &&& self.female_personal_total_time_spent.up_to_date()
        &&& self.male_personal_total_wait_time.up_to_date()
        &&& self.female_personal_total_wait_time.up_to_date()
    }

    /// `self` and `other` hold the same samples and the same number of
    /// switches.
    pub open spec fn same_samples(&self, other: &MetricsCollector) -> bool {
        &&& self.gender_switches == other.gender_switches
        &&& self.male_queue_size.same_samples(&other.male_queue_size)
        &&& self.female_queue_size.same_samples(&other.female_queue_size)
        &&& self.time_bathroom_was_male.same_samples(&other.time_bathroom_was_male)
        &&& self.time_bathroom_was_female.same_samples(&other.time_bathroom_was_female)
        &&& self.male_personal_total_time_spent.same_samples(
            &other.male_personal_total_time_spent,
        )
        &&& self.female_personal_total_time_spent.same_samples(
            &other.female_personal_total_time_spent,
        )
        &&& self.male_personal_total_wait_time.same_samples(&other.male_personal_total_wait_time)
        &&& self.female_personal_total_wait_time.same_samples(
            &other.female_personal_total_wait_time,
        )
    }

    /// `self` is `before` after a switch away from gender `g` was
    /// recorded: one more switch, and one more sample each in the
    /// statistics of `g`'s time in the bathroom and of `g`'s queue.
    pub open spec fn after_switch(
        &self,
        before: &MetricsCollector,
        g: Gender,
        duration: u64,
        queue_len: u64,
    ) -> bool {
        &&& self.gender_switches == before.gender_switches + 1
        &&& self.male_personal_total_time_spent == before.male_personal_total_time_spent
        &&& self.female_personal_total_time_spent == before.female_personal_total_time_spent
        &&& self.male_personal_total_wait_time == before.male_personal_total_wait_time
        &&& self.female_personal_total_wait_time == before.female_personal_total_wait_time
        &&& match g {
            Gender::Male => {
                &&& self.time_bathroom_was_male.follows(&before.time_bathroom_was_male, duration)
                &&& self.male_queue_size.follows(&before.male_queue_size, queue_len)
                &&& self.time_bathroom_was_female == before.time_bathroom_was_female
                &&& self.female_queue_size == before.female_queue_size
            },
            Gender::Female => {
                &&& self.time_bathroom_was_female.follows(
                    &before.time_bathroom_was_female,
                    duration,
                )
                &&& self.female_queue_size.follows(&before.female_queue_size, queue_len)
                &&& self.time_bathroom_was_male == before.time_bathroom_was_male
                &&& self.male_queue_size == before.male_queue_size
            },
        }
    }

    /// `self` is `before` after someone of gender `g` left who spent
    /// `total_time` from joining the queue to leaving: one more sample in
    /// the statistic of `g`'s total time.
    pub open spec fn after_departure(
        &self,
        before: &MetricsCollector,
        g: Gender,
        total_time: u64,
    ) -> bool {
        &&& self.gender_switches == before.gender_switches
        &&& self.male_queue_size == before.male_queue_size
        &&& self.female_queue_size == before.female_queue_size
        &&& self.time_bathroom_was_male == before.time_bathroom_was_male
        &&& self.time_bathroom_was_female == before.time_bathroom_was_female
        &&& self.male_personal_total_wait_time == before.male_personal_total_wait_time
        &&& self.female_personal_total_wait_time == before.female_personal_total_wait_time
        &&& match g {
            Gender::Male => {
                &&& self.male_personal_total_time_spent.follows(
                    &before.male_personal_total_time_spent,
                    total_time,
                )
                &&& self.female_personal_total_time_spent
                    == before.female_personal_total_time_spent
            },
            Gender::Female => {
                &&& self.female_personal_total_time_spent.follows(
                    &before.female_personal_total_time_spent,
                    total_time,
                )
                &&& self.male_personal_total_time_spent == before.male_personal_total_time_spent
            },
        }
    }

    /// Brings every statistic up to date with its samples.
    pub fn update_statistics(&mut self)
        ensures
            final(self).up_to_date(),
            final(self).same_samples(old(self)),
            old(self).wf() ==> final(self).wf(),
    {
        self.male_queue_size.update_statistics();
        self.female_queue_size.update_statistics();
        self.time_bathroom_was_male.update_statistics();
        self.time_bathroom_was_female.update_statistics();
        self.male_personal_total_time_spent.update_statistics();
        self.female_personal_total_time_spent.update_statistics();
        self.male_personal_total_wait_time.update_statistics();
        self.female_personal_total_wait_time.update_statistics();
    }

    /// Records that the bathroom passed the turn on at `now`. `before` is
    /// the bathroom as it was just before. Where its window never began
    /// the bathroom went unused and nothing is recorded. Otherwise the
    /// switch is counted, and the window's length and the length of the
    /// queue of the gender that had the turn are sampled. Says whether
    /// anything was recorded.
    pub fn record_switch(&mut self, before: &Bathroom, now: u64) -> (recorded: bool)
        requires
            old(self).wf(),
            old(self).gender_switches < u64::MAX,
        ensures
            final(self).wf(),
            recorded == (before.first_user_entered_at is Some),
            !recorded ==> *final(self) == *old(self),
            recorded ==> final(self).after_switch(
                old(self),
                before.allowed_gender,
                elapsed_since(before.first_user_entered_at, now),
                before@.queue(before.allowed_gender).len() as u64,
            ),
    {
        if before.first_user_entered_at.is_none() {
            return false;
        }
        let duration: u64 = before.elapsed(now);
        self.gender_switches = self.gender_switches + 1;
        match before.allowed_gender {
            Gender::Male => {
                self.time_bathroom_was_male.add_measure(duration);
                self.male_queue_size.add_measure(before.male_queue.len() as u64);
            },
            Gender::Female => {
                self.time_bathroom_was_female.add_measure(duration);
                self.female_queue_size.add_measure(before.female_queue.len() as u64);
            },
        }
        true
    }

    /// Records that `person` left the bathroom: the time from joining the
    /// queue to leaving is sampled for their gender.
    pub fn record_departure(&mut self, person: &Person)
        requires
            old(self).wf(),
            person.joined_queue_at is Some,
            person.left_bathroom_at is Some,
        ensures
            final(self).wf(),
            final(self).after_departure(
                old(self),
                person.gender,
                elapsed_since(person.joined_queue_at, person.left_bathroom_at.unwrap()),
            ),
    {
        let joined: u64 = person.joined_queue_at.unwrap();
        let left: u64 = person.left_bathroom_at.unwrap();
        let total_time: u64 = if left >= joined {
            left - joined
        } else {
            0
        };
        match person.gender {
            Gender::Male => self.male_personal_total_time_spent.add_measure(total_time),
            Gender::Female => self.female_personal_total_time_spent.add_measure(total_time),
        }
    }
}

} // verus!

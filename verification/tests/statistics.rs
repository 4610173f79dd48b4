use bathroom_simulation::metrics_collector::{
    insertion_index, new_metrics_collector, new_statistic, Statistic,
};

fn filled(samples: &[u64]) -> Statistic {
    let mut s = new_statistic();
    for m in samples {
        s.add_measure(*m);
    }
    s
}

#[test]
fn new_statistic_is_empty_and_zero() {
    let s = new_statistic();
    assert!(s.measures.is_empty());
    assert!(s.ordered_measures.is_empty());
    assert_eq!(
        (s.avg, s.min, s.max, s.median, s.percentile_10, s.percentile_25, s.percentile_75, s.percentile_90),
        (0, 0, 0, 0, 0, 0, 0, 0)
    );
}

#[test]
fn four_samples_give_the_expected_figures() {
    let mut s = filled(&[10, 20, 30, 40]);
    s.update_statistics();
    assert_eq!(s.min, 10);
    assert_eq!(s.max, 40);
    assert_eq!(s.median, 30);
    assert_eq!(s.avg, 25);
    assert_eq!(s.percentile_10, 10);
    assert_eq!(s.percentile_25, 20);
    assert_eq!(s.percentile_75, 40);
    assert_eq!(s.percentile_90, 40);
}

#[test]
fn four_samples_in_any_order_give_the_same_figures() {
    let mut s = filled(&[40, 10, 30, 20]);
    s.update_statistics();
    assert_eq!(s.measures, vec![40, 10, 30, 20]);
    assert_eq!(s.ordered_measures, vec![10, 20, 30, 40]);
    assert_eq!((s.min, s.max, s.median, s.avg), (10, 40, 30, 25));
}

#[test]
fn empty_statistic_finalizes_to_zero() {
    let mut s = new_statistic();
    assert_eq!(s.update_avg(), 0);
    assert_eq!(s.update_min(), 0);
    assert_eq!(s.update_max(), 0);
    assert_eq!(s.update_median(), 0);
    assert_eq!(s.update_percentile_10(), 0);
    assert_eq!(s.update_percentile_25(), 0);
    assert_eq!(s.update_percentile_75(), 0);
    assert_eq!(s.update_percentile_90(), 0);
    s.update_statistics();
    assert_eq!((s.avg, s.min, s.max, s.median), (0, 0, 0, 0));
}

#[test]
fn percentiles_use_the_truncated_index() {
    // Seven samples: the indices are 7*10/100 = 0, 7*25/100 = 1, 7/2 = 3,
    // 7*75/100 = 5 and 7*90/100 = 6.
    let mut s = filled(&[70, 10, 60, 20, 50, 30, 40]);
    assert_eq!(s.update_percentile_10(), 10);
    assert_eq!(s.update_percentile_25(), 20);
    assert_eq!(s.update_median(), 40);
    assert_eq!(s.update_percentile_75(), 60);
    assert_eq!(s.update_percentile_90(), 70);
    assert_eq!(s.percentile_75, 60);
}

#[test]
fn percentiles_of_a_hundred_samples() {
    let samples: Vec<u64> = (1..=100).rev().collect();
    let mut s = filled(&samples);
    s.update_statistics();
    assert_eq!(s.min, 1);
    assert_eq!(s.percentile_10, 11);
    assert_eq!(s.percentile_25, 26);
    assert_eq!(s.median, 51);
    assert_eq!(s.percentile_75, 76);
    assert_eq!(s.percentile_90, 91);
    assert_eq!(s.max, 100);
    assert_eq!(s.avg, 50);
}

#[test]
fn average_rounds_down() {
    let mut s = filled(&[1, 2]);
    assert_eq!(s.update_avg(), 1);
    let mut t = filled(&[5]);
    assert_eq!(t.update_avg(), 5);
}

#[test]
fn average_of_huge_samples_does_not_overflow() {
    let mut s = filled(&[u64::MAX, u64::MAX, u64::MAX - 3]);
    assert_eq!(s.update_avg(), u64::MAX - 1);
    assert_eq!(s.update_max(), u64::MAX);
    assert_eq!(s.update_min(), u64::MAX - 3);
}

#[test]
fn single_sample_is_every_figure() {
    let mut s = filled(&[42]);
    s.update_statistics();
    assert_eq!(
        (s.avg, s.min, s.max, s.median, s.percentile_10, s.percentile_25, s.percentile_75, s.percentile_90),
        (42, 42, 42, 42, 42, 42, 42, 42)
    );
}

#[test]
fn add_measure_keeps_arrival_order_and_sorted_order() {
    let mut s = new_statistic();
    for m in [5u64, 3, 9, 3, 7, 0, 9] {
        s.add_measure(m);
    }
    assert_eq!(s.measures, vec![5, 3, 9, 3, 7, 0, 9]);
    assert_eq!(s.ordered_measures, vec![0, 3, 3, 5, 7, 9, 9]);
    // The figures wait for an update.
    assert_eq!((s.avg, s.min, s.max), (0, 0, 0));
}

#[test]
fn insertion_index_is_the_first_fitting_place() {
    let sorted: Vec<u64> = vec![1, 3, 3, 3, 8];
    assert_eq!(insertion_index(&sorted, 0), 0);
    assert_eq!(insertion_index(&sorted, 1), 0);
    assert_eq!(insertion_index(&sorted, 2), 1);
    assert_eq!(insertion_index(&sorted, 3), 1);
    assert_eq!(insertion_index(&sorted, 4), 4);
    assert_eq!(insertion_index(&sorted, 8), 4);
    assert_eq!(insertion_index(&sorted, 9), 5);
    assert_eq!(insertion_index(&Vec::new(), 9), 0);
}

#[test]
fn figures_ascend_and_bound_the_samples() {
    let mut s = filled(&[13, 2, 99, 47, 47, 5, 0, 61, 8, 21, 34]);
    s.update_statistics();
    assert!(s.min <= s.percentile_10);
    assert!(s.percentile_10 <= s.percentile_25);
    assert!(s.percentile_25 <= s.median);
    assert!(s.median <= s.percentile_75);
    assert!(s.percentile_75 <= s.percentile_90);
    assert!(s.percentile_90 <= s.max);
    assert!(s.min <= s.avg && s.avg <= s.max);
    for m in &s.measures {
        assert!(s.min <= *m && *m <= s.max);
    }
    assert_eq!((s.min, s.max, s.avg), (0, 99, 30));
}

#[test]
fn update_changes_only_its_own_figure() {
    let mut s = filled(&[10, 20, 30, 40]);
    assert_eq!(s.update_max(), 40);
    assert_eq!((s.avg, s.min, s.max, s.median), (0, 0, 40, 0));
    assert_eq!(s.measures, vec![10, 20, 30, 40]);
}

#[test]
fn new_collector_is_empty() {
    let m = new_metrics_collector();
    assert_eq!(m.gender_switches, 0);
    assert!(m.male_queue_size.measures.is_empty());
    assert!(m.female_queue_size.measures.is_empty());
    assert!(m.time_bathroom_was_male.measures.is_empty());
    assert!(m.time_bathroom_was_female.measures.is_empty());
    assert!(m.male_personal_total_time_spent.measures.is_empty());
    assert!(m.female_personal_total_time_spent.measures.is_empty());
    assert!(m.male_personal_total_wait_time.measures.is_empty());
    assert!(m.female_personal_total_wait_time.measures.is_empty());
}

#[test]
fn collector_update_finalizes_every_statistic() {
    let mut m = new_metrics_collector();
    for v in [10u64, 20, 30, 40] {
        m.male_queue_size.add_measure(v);
        m.female_personal_total_time_spent.add_measure(v * 2);
    }
    m.time_bathroom_was_female.add_measure(7);
    m.update_statistics();
    assert_eq!((m.male_queue_size.avg, m.male_queue_size.median), (25, 30));
    assert_eq!(
        (m.female_personal_total_time_spent.min, m.female_personal_total_time_spent.max),
        (20, 80)
    );
    assert_eq!(m.time_bathroom_was_female.median, 7);
    assert_eq!(m.female_queue_size.avg, 0);
    assert_eq!(m.gender_switches, 0);
}

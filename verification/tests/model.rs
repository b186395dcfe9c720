use docker_activity::model::{RawSample, Record};

fn sample(cpu: (u64, u64), system: (Option<u64>, Option<u64>)) -> RawSample {
    RawSample {
        id: "abc123".to_string(),
        name: "/web".to_string(),
        read: 1234,
        pid_count: Some(12),
        pid_limit: Some(20),
        memory_usage: Some(14),
        memory_limit: None,
        cpu_usage: cpu.1,
        pre_cpu_usage: cpu.0,
        system_cpu_usage: system.1,
        pre_system_cpu_usage: system.0,
        online_cpus: Some(2),
        per_cpu_samples: None,
    }
}

fn cpu_ratio(record: &Record) -> f64 {
    record.cpu_delta as f64 / record.system_delta as f64
}

fn cpu_percent(record: &Record) -> f64 {
    cpu_ratio(record) * record.cpu_factor as f64 * 100.0
}

#[test]
fn record_copies_identity_and_figures() {
    let record = Record::from(sample((100, 500), (Some(1000), Some(2000))));
    assert_eq!(record.container_id, "abc123");
    assert_eq!(record.container_name, "web");
    assert_eq!(record.ts, 1234);
    assert_eq!(record.pid_count, Some(12));
    assert_eq!(record.pid_limit, Some(20));
    assert_eq!(record.memory_usage, Some(14));
    assert_eq!(record.memory_limit, None);
    assert_eq!(record.cpu_count, 2);
    assert_eq!(record.energy_delta, None);
}

#[test]
fn record_holds_exact_deltas() {
    let record = Record::from(sample((100, 500), (Some(1000), Some(2000))));
    assert_eq!(record.cpu_delta, 400);
    assert_eq!(record.system_delta, 1000);
    assert_eq!(cpu_ratio(&record), 0.4);
}

#[test]
fn percent_scales_ratio_by_cpu_count_where_no_per_cpu_counters() {
    let record = Record::from(sample((100, 500), (Some(1000), Some(2000))));
    assert_eq!(record.cpu_factor, 2);
    assert_eq!(cpu_percent(&record), 80.0);
}

#[test]
fn percent_scales_ratio_by_per_cpu_counters_where_reported() {
    let mut raw = sample((0, 250), (Some(0), Some(1000)));
    raw.per_cpu_samples = Some(8);
    let record = Record::from(raw);
    assert_eq!(record.cpu_factor, 8);
    assert_eq!(record.cpu_count, 2);
    assert_eq!(cpu_percent(&record), 200.0);
}

#[test]
fn cpu_count_defaults_to_one() {
    let mut raw = sample((0, 1), (Some(0), Some(4)));
    raw.online_cpus = None;
    let record = Record::from(raw);
    assert_eq!(record.cpu_count, 1);
    assert_eq!(record.cpu_factor, 1);
    assert_eq!(cpu_percent(&record), 25.0);
}

#[test]
fn unreported_system_counters_count_as_zero() {
    let record = Record::from(sample((0, 10), (None, Some(40))));
    assert_eq!(record.system_delta, 40);
    let record = Record::from(sample((0, 10), (None, None)));
    assert_eq!(record.system_delta, 0);
}

#[test]
fn zero_system_delta_gives_non_finite_percent() {
    let record = Record::from(sample((100, 500), (Some(2000), Some(2000))));
    assert_eq!(record.system_delta, 0);
    assert_eq!(record.cpu_delta, 400);
    assert!(!cpu_percent(&record).is_finite());
    assert!(cpu_percent(&record).is_infinite());
}

#[test]
fn zero_system_delta_and_zero_cpu_delta_gives_nan() {
    let record = Record::from(sample((500, 500), (Some(2000), Some(2000))));
    assert_eq!(record.system_delta, 0);
    assert_eq!(record.cpu_delta, 0);
    assert!(cpu_percent(&record).is_nan());
}

#[test]
fn cpu_terms_depend_only_on_the_counters_of_the_sample() {
    let first = Record::from(sample((100, 500), (Some(1000), Some(2000))));
    let mut other = sample((100, 500), (Some(1000), Some(2000)));
    other.id = "def456".to_string();
    other.name = "db".to_string();
    other.read = 99;
    other.pid_count = None;
    other.memory_usage = Some(1 << 40);
    let second = Record::from(other);
    assert_eq!(first.cpu_delta, second.cpu_delta);
    assert_eq!(first.system_delta, second.system_delta);
    assert_eq!(first.cpu_factor, second.cpu_factor);
    assert_eq!(cpu_percent(&first), cpu_percent(&second));
}

#[test]
fn consecutive_samples_use_their_own_pair_of_counters() {
    let readings: [(u64, u64); 4] = [(0, 0), (10, 100), (40, 200), (45, 400)];
    let mut deltas = Vec::new();
    for pair in readings.windows(2) {
        let record = Record::from(sample(
            (pair[0].0, pair[1].0),
            (Some(pair[0].1), Some(pair[1].1)),
        ));
        deltas.push((record.cpu_delta, record.system_delta));
    }
    assert_eq!(deltas, vec![(10, 100), (30, 100), (5, 200)]);
}

#[test]
fn counters_at_the_top_of_the_range_do_not_overflow() {
    let record = Record::from(sample((0, u64::MAX), (Some(0), Some(u64::MAX))));
    assert_eq!(record.cpu_delta, u64::MAX);
    assert_eq!(record.system_delta, u64::MAX);
}

#[test]
fn counters_advance_accepts_equal_and_growing_counters() {
    assert!(sample((5, 5), (Some(7), Some(7))).counters_advance());
    assert!(sample((5, 6), (None, Some(7))).counters_advance());
    assert!(sample((5, 6), (None, None)).counters_advance());
}

#[test]
fn counters_advance_rejects_counters_that_went_backwards() {
    assert!(!sample((6, 5), (Some(7), Some(8))).counters_advance());
    assert!(!sample((5, 6), (Some(8), Some(7))).counters_advance());
    assert!(!sample((5, 6), (Some(8), None)).counters_advance());
}

#[test]
fn with_energy_sets_the_energy_of_the_interval() {
    let record = Record::from(sample((100, 500), (Some(1000), Some(2000))));
    let record = record.with_energy(Some(500));
    assert_eq!(record.energy_delta, Some(500));
    assert_eq!(cpu_ratio(&record) * 500.0, 200.0);
}

#[test]
fn with_energy_of_nothing_leaves_the_record() {
    let record = Record::from(sample((100, 500), (Some(1000), Some(2000))));
    let record = record.with_energy(Some(7)).with_energy(None);
    assert_eq!(record.energy_delta, Some(7));
    assert_eq!(record.container_name, "web");
    assert_eq!(record.cpu_delta, 400);
}

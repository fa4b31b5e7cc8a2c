use apex::observability::error::ObsError;
use apex::observability::metrics::{Counter, Gauge, Label};
use apex::observability::registry::{MetricEntry, Registry, MAX_METRICS};

#[test]
fn label_length_limits() {
    let long = "k".repeat(65);
    let max = "k".repeat(64);
    assert!(Label::new(&long, "v").is_none());
    assert!(Label::new("k", &long).is_none());
    let l = Label::new(&max, "v").unwrap();
    assert_eq!(l.key, max);
    assert_eq!(l.value, "v");
}

#[test]
fn counter_counts_and_clones_share() {
    let c = Counter::new(vec![Label::new("topic", "scan").unwrap()]);
    assert_eq!(c.get(), 0);
    c.inc_by(5);
    c.inc();
    assert_eq!(c.get(), 6);
    let d = c.clone();
    d.inc();
    assert_eq!(c.get(), 7);
    assert_eq!(c.labels.len(), 1);
}

#[test]
fn gauge_moves_both_ways() {
    let g = Gauge::new(vec![]);
    g.set(10);
    g.add(5);
    g.sub(20);
    assert_eq!(g.get(), -5);
}

#[test]
fn registry_registers_and_rejects_duplicates() {
    let mut r: Registry<u32> = Registry::new();
    assert!(r.is_empty());
    let c = r.register_counter("msgs", vec![]).unwrap();
    c.inc();
    assert_eq!(r.len(), 1);
    let err = r.register_gauge("msgs", vec![]).unwrap_err();
    assert_eq!(err, ObsError::DuplicateMetric { name: "msgs".into() });
    assert_eq!(err.to_string(), "metric 'msgs' already registered");
    assert_eq!(r.len(), 1);
    match r.get("msgs") {
        Some(MetricEntry::Counter(k)) => assert_eq!(k.get(), 1),
        _ => panic!("expected the registered counter"),
    }
    assert!(r.get("other").is_none());
}

#[test]
fn registry_rejects_long_names() {
    let mut r: Registry<u32> = Registry::new();
    let name = "n".repeat(65);
    let err = r.register_counter(&name, vec![]).unwrap_err();
    assert_eq!(err, ObsError::NameTooLong { len: 65 });
    assert_eq!(err.to_string(), "metric name too long: 65 bytes (max 64)");
    assert!(r.is_empty());
}

#[test]
fn registry_is_bounded() {
    let mut r: Registry<u32> = Registry::new();
    for i in 0..MAX_METRICS {
        r.register_counter(&format!("m{i}"), vec![]).unwrap();
    }
    assert_eq!(r.len(), MAX_METRICS);
    let err = r.register_gauge("one_more", vec![]).unwrap_err();
    assert_eq!(err, ObsError::RegistryFull);
    assert_eq!(err.to_string(), "metric registry full (max 1024 entries)");
    // A duplicate is reported before the capacity.
    let err = r.register_gauge("m0", vec![]).unwrap_err();
    assert_eq!(err, ObsError::DuplicateMetric { name: "m0".into() });
}

#[test]
fn registry_histogram_buckets_checked_last() {
    let mut r: Registry<u32> = Registry::new();
    let err = r.register_histogram("h", None).unwrap_err();
    assert_eq!(err, ObsError::InvalidBuckets);
    assert!(r.is_empty());
    assert_eq!(r.register_histogram("h", Some(9)).unwrap(), 9);
    match r.get("h") {
        Some(MetricEntry::Histogram(h)) => assert_eq!(h, 9),
        _ => panic!("expected the histogram"),
    }
    let long = "h".repeat(70);
    assert_eq!(r.register_histogram(&long, None).unwrap_err(), ObsError::NameTooLong { len: 70 });
}

#[test]
fn registry_snapshot_in_order() {
    let mut r: Registry<u32> = Registry::new();
    r.register_gauge("b", vec![]).unwrap();
    r.register_counter("a", vec![]).unwrap();
    let snap = r.snapshot();
    assert_eq!(snap.len(), 2);
    assert_eq!(snap[0].0, "b");
    assert!(matches!(snap[0].1, MetricEntry::Gauge(_)));
    assert_eq!(snap[1].0, "a");
    assert!(matches!(snap[1].1, MetricEntry::Counter(_)));
}

#[test]
fn obs_error_messages() {
    assert_eq!(
        ObsError::LabelTooLong { len: 70 }.to_string(),
        "label too long: 70 bytes (max 64)"
    );
    assert_eq!(
        ObsError::InvalidBuckets.to_string(),
        "histogram bucket boundaries must be strictly increasing"
    );
}

#[test]
fn registry_handles_share_their_metric() {
    let mut r: Registry<u32> = Registry::new();
    let g = r.register_gauge("depth", vec![]).unwrap();
    g.set(-3);
    match r.get("depth") {
        Some(MetricEntry::Gauge(k)) => {
            assert_eq!(k.get(), -3);
            k.add(5);
        }
        _ => panic!("expected the registered gauge"),
    }
    assert_eq!(g.get(), 2);
    let c = r.register_counter("hits", vec![]).unwrap();
    c.inc_by(4);
    let snap = r.snapshot();
    match &snap[1].1 {
        MetricEntry::Counter(k) => assert_eq!(k.get(), 4),
        _ => panic!("expected the registered counter"),
    }
}

use neolink::monitor::{classify_sample, FdMonitor, Sample};

#[test]
fn sample_stops_when_unobservable() {
    assert_eq!(classify_sample(None, Some(1024)), Sample::Stop);
    assert_eq!(classify_sample(Some(3), None), Sample::Stop);
    assert_eq!(classify_sample(None, None), Sample::Stop);
}

#[test]
fn sample_skipped_on_zero_limit() {
    assert_eq!(classify_sample(Some(3), Some(0)), Sample::Skip);
}

#[test]
fn sample_recorded_otherwise() {
    assert_eq!(classify_sample(Some(3), Some(1024)), Sample::Record { open: 3, limit: 1024 });
}

#[test]
fn peak_tracks_maximum() {
    let mut m = FdMonitor::new();
    m.record(10, 1);
    assert_eq!(m.peak(), 10);
    m.record(4, 0);
    assert_eq!(m.peak(), 10);
    m.record(25, 2);
    assert_eq!(m.peak(), 25);
    assert_eq!(m.ticks(), 3);
}

#[test]
fn hourly_every_sixtieth_sample() {
    let mut m = FdMonitor::new();
    for i in 1..=180u64 {
        let r = m.record(1, 0);
        assert_eq!(r.hourly, i % 60 == 0);
    }
}

#[test]
fn warns_once_per_threshold() {
    let mut m = FdMonitor::new();
    assert!(m.record(1, 49).warnings.is_empty());
    assert_eq!(m.record(1, 50).warnings, vec![50]);
    assert!(m.record(1, 60).warnings.is_empty());
    assert_eq!(m.record(1, 80).warnings, vec![75]);
    assert!(m.record(1, 80).warnings.is_empty());
    assert_eq!(m.record(1, 95).warnings, vec![90]);
    assert!(m.record(1, 99).warnings.is_empty());
    assert_eq!(m.warn_level(), 90);
}

#[test]
fn jump_warns_every_crossed_threshold() {
    let mut m = FdMonitor::new();
    assert_eq!(m.record(1, 91).warnings, vec![50, 75, 90]);
    assert_eq!(m.warn_level(), 90);
}

#[test]
fn no_rearm_between_forty_and_fifty() {
    let mut m = FdMonitor::new();
    assert_eq!(m.record(1, 55).warnings, vec![50]);
    assert!(m.record(1, 45).warnings.is_empty());
    assert_eq!(m.warn_level(), 50);
    assert!(m.record(1, 55).warnings.is_empty());
}

#[test]
fn rearm_below_forty() {
    let mut m = FdMonitor::new();
    assert_eq!(m.record(1, 77).warnings, vec![50, 75]);
    assert!(m.record(1, 39).warnings.is_empty());
    assert_eq!(m.warn_level(), 0);
    assert_eq!(m.record(1, 52).warnings, vec![50]);
}

#[test]
fn saturated_percentage_warns_all() {
    let mut m = FdMonitor::new();
    assert_eq!(m.record(300, 255).warnings, vec![50, 75, 90]);
}

#[test]
fn warning_law_on_a_history() {
    let pcts = [30u8, 55, 60, 45, 52, 80, 39, 60, 95, 95];
    let expected: [Vec<u8>; 10] = [
        vec![],
        vec![50],
        vec![],
        vec![],
        vec![],
        vec![75],
        vec![],
        vec![50],
        vec![75, 90],
        vec![],
    ];
    let mut m = FdMonitor::new();
    for (pct, want) in pcts.iter().zip(expected.iter()) {
        assert_eq!(&m.record(1, *pct).warnings, want);
    }
}

#[test]
fn peak_law_on_a_history() {
    let opens = [5u64, 3, 9, 9, 2, 11, 0];
    let mut m = FdMonitor::new();
    assert_eq!(m.peak(), 0);
    let mut prev = 0;
    for (k, open) in opens.iter().enumerate() {
        m.record(*open, 0);
        assert_eq!(m.peak(), *opens[..=k].iter().max().unwrap());
        assert!(m.peak() >= prev);
        prev = m.peak();
    }
}

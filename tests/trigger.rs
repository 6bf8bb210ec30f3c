use hexodsp::trigger::{ClockEdges, TrigLevel, TrigSignal, Trigger, TriggerSampleClock};

#[test]
fn low_signal_never_triggers() {
    let mut t = Trigger::new();
    for _ in 0..100 {
        assert!(!t.check_trigger(TrigLevel::Low));
    }
}

#[test]
fn one_rising_edge_one_trigger() {
    let mut t = Trigger::new();
    assert!(!t.check_trigger(TrigLevel::Low));
    assert!(t.check_trigger(TrigLevel::High));
    assert!(!t.check_trigger(TrigLevel::High));
    assert!(!t.check_trigger(TrigLevel::Mid));
    // a second rise before a release is no new edge
    assert!(!t.check_trigger(TrigLevel::High));
    assert!(!t.check_trigger(TrigLevel::Low));
    assert!(t.check_trigger(TrigLevel::High));
}

#[test]
fn mid_level_neither_rises_nor_releases() {
    let mut t = Trigger::new();
    assert!(!t.check_trigger(TrigLevel::Mid));
    assert!(t.check_trigger(TrigLevel::High));
    t.reset();
    assert!(t.check_trigger(TrigLevel::High));
}

#[test]
fn sample_clock_measures_period() {
    let mut c = TriggerSampleClock::new();
    // held at start: the first high sample is no edge
    assert_eq!(c.next(TrigLevel::High), 0);
    assert_eq!(c.next(TrigLevel::Low), 0);
    // the first edge only starts the count
    assert_eq!(c.next(TrigLevel::High), 0);
    for _ in 0..3 {
        assert_eq!(c.next(TrigLevel::Low), 0);
    }
    assert_eq!(c.next(TrigLevel::High), 4);
    for _ in 0..2 {
        assert_eq!(c.next(TrigLevel::Low), 4);
    }
    assert_eq!(c.next(TrigLevel::High), 3);
    c.reset();
    assert_eq!(c.next(TrigLevel::Low), 0);
    assert_eq!(c.next(TrigLevel::High), 0);
    assert_eq!(c.next(TrigLevel::Low), 0);
    assert_eq!(c.next(TrigLevel::High), 2);
}

#[test]
fn sample_clock_zero_until_two_edges() {
    let mut c = TriggerSampleClock::new();
    let levels = [TrigLevel::Low, TrigLevel::High, TrigLevel::Low, TrigLevel::Low, TrigLevel::High];
    let got: Vec<u32> = levels.iter().map(|l| c.next(*l)).collect();
    assert_eq!(got, vec![0, 0, 0, 0, 3]);
}

#[test]
fn trig_signal_pulse_length() {
    let mut s = TrigSignal::new();
    assert!(!s.next());
    s.trigger();
    let mut high = 0;
    while s.next() {
        high += 1;
    }
    // two milliseconds at 44.1 kHz, rounded up
    assert_eq!(high, 89);

    s.set_sample_rate(48000);
    s.trigger();
    let mut high = 0;
    while s.next() {
        high += 1;
    }
    assert_eq!(high, 96);

    s.trigger();
    assert!(s.next());
    s.reset();
    assert!(!s.next());
}

#[test]
fn trig_signal_default_matches_new() {
    let mut s = TrigSignal::default();
    s.set_sample_rate(1);
    s.trigger();
    assert!(s.next());
    assert!(!s.next());
}

#[test]
fn clock_edges_report_period() {
    let mut c = ClockEdges::new();
    assert_eq!(c.next(TrigLevel::High), None);
    assert_eq!(c.next(TrigLevel::Low), None);
    // the first edge only starts the count
    assert_eq!(c.next(TrigLevel::High), None);
    assert_eq!(c.next(TrigLevel::Mid), None);
    assert_eq!(c.next(TrigLevel::Low), None);
    assert_eq!(c.next(TrigLevel::Mid), None);
    assert_eq!(c.next(TrigLevel::High), Some(4));
    assert_eq!(c.next(TrigLevel::Low), None);
    assert_eq!(c.next(TrigLevel::High), Some(2));
    c.reset();
    assert_eq!(c.next(TrigLevel::High), None);
    assert_eq!(c.next(TrigLevel::Low), None);
    assert_eq!(c.next(TrigLevel::High), None);
    assert_eq!(c.next(TrigLevel::Low), None);
    assert_eq!(c.next(TrigLevel::High), Some(2));
}

use doorknob::silence::SilenceDetector;

fn run(detector: &mut SilenceDetector, ticks: &[bool]) -> usize {
    let mut flushes: usize = 0;
    for &silent in ticks {
        if detector.observe_tick(silent) {
            flushes += 1;
        }
    }
    flushes
}

#[test]
fn edge_triggering_counts_transitions() {
    // Activity-to-silence transitions sit after positions 0 and 3.
    let mut d = SilenceDetector::new();
    let flushes = run(&mut d, &[false, true, true, false, true]);
    assert_eq!(flushes, 2);
}

#[test]
fn no_double_flush_on_consecutive_silence() {
    let mut d = SilenceDetector::new();
    let flushes = run(&mut d, &[false, true, true, true, true, true]);
    assert_eq!(flushes, 1);
}

#[test]
fn silence_from_the_start_flushes_once() {
    let mut d = SilenceDetector::new();
    let flushes = run(&mut d, &[true, true, true]);
    assert_eq!(flushes, 1);
}

#[test]
fn activity_rearms_the_detector() {
    let mut d = SilenceDetector::new();
    assert!(!d.observe_tick(false));
    assert!(d.observe_tick(true));
    assert!(!d.observe_tick(true));
    assert!(!d.observe_tick(false));
    assert!(d.observe_tick(true));
}

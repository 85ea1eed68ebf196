use flakeid::gen::FlakeErr;
use flakeid::seq::SeqGen;

#[test]
fn test_fresh_millisecond_resets_sequence() {
    let mut counter = SeqGen::default();
    assert_eq!(counter.next(10), Ok((10, 0)));
    assert_eq!(counter.next(11), Ok((11, 0)));
    assert_eq!(counter.next(1000), Ok((1000, 0)));
}

#[test]
fn test_same_millisecond_increments_sequence() {
    let mut counter = SeqGen::default();
    assert_eq!(counter.next(10), Ok((10, 0)));
    assert_eq!(counter.next(10), Ok((10, 1)));
    assert_eq!(counter.next(10), Ok((10, 2)));
    assert_eq!(counter.next(11), Ok((11, 0)));
}

#[test]
fn test_exhaustion_boundary() {
    let mut counter = SeqGen::default();
    for expected in 0..=u16::MAX {
        assert_eq!(counter.next(42), Ok((42, expected)));
    }
    // All 65,536 sequence numbers for this millisecond are spent; the next
    // call at the same millisecond fails and leaves the counter unchanged.
    assert_eq!(counter.next(42), Err(FlakeErr::Exhausted));
    assert_eq!(counter.next(42), Err(FlakeErr::Exhausted));
    // The next millisecond recovers.
    assert_eq!(counter.next(43), Ok((43, 0)));
}

#[test]
fn test_drift_rejection() {
    let mut counter = SeqGen::default();
    assert_eq!(counter.next(100), Ok((100, 0)));
    // A clock reading earlier than the last recorded timestamp is refused
    // and the counter state is unchanged...
    assert_eq!(counter.next(99), Err(FlakeErr::TimeDrift));
    assert_eq!(counter.next(0), Err(FlakeErr::TimeDrift));
    // ...so a later well-clocked call continues as if it never happened.
    assert_eq!(counter.next(100), Ok((100, 1)));
    assert_eq!(counter.next(101), Ok((101, 0)));
}

#[test]
fn test_try_next_uses_wall_clock() {
    let mut counter = SeqGen::default();
    let (ts, _seq) = counter.try_next().expect("clock went backwards from zero");
    // A plausible wall-clock reading: past 2020-01-01 in milliseconds.
    assert!(ts > 1_577_836_800_000);
}

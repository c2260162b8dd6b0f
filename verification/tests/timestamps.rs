use subtensor_node::timestamp::{pending_block_timestamp, slot_at, MockTimestamp};

#[test]
fn slot_is_whole_durations_elapsed() {
    assert_eq!(slot_at(0, 12000), 0);
    assert_eq!(slot_at(11999, 12000), 0);
    assert_eq!(slot_at(12000, 12000), 1);
    assert_eq!(slot_at(1_700_000_000_123, 12000), 141_666_666);
}

#[test]
fn pending_block_is_one_slot_ahead() {
    assert_eq!(pending_block_timestamp(25_000, 12_000), 37_000);
    let now = 1_700_000_005_000u64;
    let d = 12_000u64;
    assert_eq!(slot_at(pending_block_timestamp(now, d), d), slot_at(now, d) + 1);
}

#[test]
fn pending_block_at_epoch() {
    assert_eq!(pending_block_timestamp(0, 6000), 6000);
    assert_eq!(slot_at(pending_block_timestamp(0, 6000), 6000), 1);
}

#[test]
fn mock_timestamp_starts_at_zero() {
    let m = MockTimestamp::new(12_000);
    assert_eq!(m.now_ms(), 0);
    assert_eq!(m.slot_duration_ms(), 12_000);
}

#[test]
fn mock_timestamp_advances_one_slot_per_block() {
    let mut m = MockTimestamp::new(250);
    let stamps: Vec<u64> = (0..5).map(|_| m.advance()).collect();
    assert_eq!(stamps, vec![250, 500, 750, 1000, 1250]);
    for (k, t) in stamps.iter().enumerate() {
        assert_eq!(slot_at(*t, 250), k as u64 + 1);
    }
    assert_eq!(m.now_ms(), 1250);
    assert_eq!(m.slot_duration_ms(), 250);
}

#[test]
fn mock_timestamp_with_zero_duration_stays() {
    let mut m = MockTimestamp::new(0);
    assert_eq!(m.advance(), 0);
    assert_eq!(m.advance(), 0);
}

#[test]
fn mock_timestamp_nth_call_is_n_slots() {
    let d = 12_000u64;
    let mut m = MockTimestamp::new(d);
    let mut previous = m.now_ms();
    for n in 1..=10u64 {
        let t = m.advance();
        assert_eq!(t, n * d);
        assert!(t > previous);
        assert_eq!(t - previous, d);
        previous = t;
    }
}

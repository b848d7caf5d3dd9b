use cornflake::clock::{epoch_millis, read_epoch_millis};
use cornflake::{Config, CornFlake, CornFlakeError};
use std::time::{Duration, SystemTime, UNIX_EPOCH};

fn unix_millis() -> u64 {
    let elapsed = SystemTime::now().duration_since(UNIX_EPOCH).unwrap();
    elapsed.as_secs() * 1000 + u64::from(elapsed.subsec_millis())
}

#[test]
fn initialize_and_run_default() {
    let c: Config = Default::default();
    let mut f = CornFlake::new(&c).unwrap();

    for _ in 1..1000000 {
        println!("{} ", f.next_id().unwrap());
    }
}

#[test]
fn millis_are_counted_from_the_epoch() {
    assert_eq!(epoch_millis(1451602800, 0, 1451602800), Some(0));
    assert_eq!(epoch_millis(1451602801, 999_999, 1451602800), Some(1000));
    assert_eq!(epoch_millis(1451602801, 1_000_000, 1451602800), Some(1001));
    assert_eq!(epoch_millis(1451602810, 999_999_999, 1451602800), Some(10_999));
    assert_eq!(epoch_millis(1_790_000_000, 123_456_789, 1451602800), Some(338_397_200_123));
}

#[test]
fn a_reading_before_the_epoch_has_no_millis() {
    assert_eq!(epoch_millis(1451602799, 999_999_999, 1451602800), None);
    assert_eq!(epoch_millis(0, 0, 1), None);
}

#[test]
fn a_count_that_does_not_fit_has_no_millis() {
    let most_seconds = u64::MAX / 1000;
    assert_eq!(epoch_millis(most_seconds, 0, 0), Some(most_seconds * 1000));
    assert_eq!(epoch_millis(most_seconds, 615_000_000, 0), Some(u64::MAX));
    assert_eq!(epoch_millis(most_seconds, 616_000_000, 0), None);
    assert_eq!(epoch_millis(most_seconds + 1, 0, 0), None);
    assert_eq!(epoch_millis(u64::MAX, 0, 0), None);
}

#[test]
fn the_clock_is_read_in_millis_since_the_epoch() {
    let before = unix_millis();
    let reading = read_epoch_millis(0).unwrap();
    let after = unix_millis();
    assert!(before <= reading && reading <= after);
    let shifted = read_epoch_millis(1451602800).unwrap();
    assert!(after - 1451602800 * 1000 <= shifted);
}

#[test]
fn an_epoch_yet_to_come_is_a_read_error() {
    assert_eq!(read_epoch_millis(u64::MAX), Err(CornFlakeError::ClockReadError));
    let config = Config { node_id_bits: 10, sequence_bits: 10, node_id: 3, epoch: u64::MAX };
    let mut flake = CornFlake::new(&config).unwrap();
    assert_eq!(flake.next_id(), Err(CornFlakeError::ClockReadError));
    assert_eq!(flake.to_string(), "flake-0-3-0");
}

#[test]
fn a_clock_error_becomes_a_read_error() {
    let error = UNIX_EPOCH.duration_since(UNIX_EPOCH + Duration::from_secs(1)).unwrap_err();
    assert_eq!(CornFlakeError::from(error), CornFlakeError::ClockReadError);
}

#[test]
fn identifiers_by_the_system_clock_increase_and_carry_the_node() {
    let config = Config { node_id_bits: 10, sequence_bits: 2, node_id: 777, epoch: 1451602800 };
    let mut flake = CornFlake::new(&config).unwrap();
    let started = unix_millis() - 1451602800 * 1000;
    let mut last = 0u64;
    for _ in 0..2000 {
        let id = flake.next_id().unwrap();
        assert!(id > last);
        assert_eq!((id >> 2) & 1023, 777);
        assert!(id >> 12 >= started);
        last = id;
    }
    assert!(last >> 12 <= unix_millis() - 1451602800 * 1000);
}

#[test]
fn a_used_up_millisecond_is_waited_out() {
    let config = Config { node_id_bits: 10, sequence_bits: 0, node_id: 1, epoch: 1451602800 };
    let mut flake = CornFlake::new(&config).unwrap();
    let mut last_millis = 0u64;
    for _ in 0..50 {
        let id = flake.next_id().unwrap();
        assert_eq!(id & 1023, 1);
        assert!(id >> 10 > last_millis);
        last_millis = id >> 10;
    }
}

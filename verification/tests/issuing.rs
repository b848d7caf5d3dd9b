use cornflake::{Config, CornFlake, CornFlakeError};

fn generator(node_id_bits: i8, sequence_bits: i8, node_id: u64) -> CornFlake {
    let config = Config { node_id_bits, sequence_bits, node_id, epoch: 1451602800 };
    CornFlake::new(&config).unwrap()
}

#[test]
fn two_calls_in_one_millisecond() {
    let mut flake = generator(10, 10, 5);
    let t: u64 = 339_000_000_123;
    assert_eq!(flake.next_id_at(t), Ok(Some((t << 20) | (5 << 10) | 0)));
    assert_eq!(flake.next_id_at(t), Ok(Some((t << 20) | (5 << 10) | 1)));
}

#[test]
fn two_calls_in_one_millisecond_differ_in_the_sequence_field_alone() {
    let mut flake = generator(7, 9, 100);
    let t: u64 = 12_345;
    let first = flake.next_id_at(t).unwrap().unwrap();
    let second = flake.next_id_at(t).unwrap().unwrap();
    assert!(first < second);
    assert_eq!(second, first + 1);
    assert_eq!(first >> 9, second >> 9);
    assert_eq!(first & 511, 0);
    assert_eq!(second & 511, 1);
    assert_eq!(first, 809_093_120);
}

#[test]
fn a_millisecond_serves_exactly_its_sequence_numbers() {
    let mut flake = generator(4, 3, 9);
    let t: u64 = 1000;
    for sequence in 0u64..8 {
        assert_eq!(flake.next_id_at(t), Ok(Some((t << 7) | (9 << 3) | sequence)));
    }
    assert_eq!(flake.next_id_at(t), Ok(None));
    assert_eq!(flake.next_id_at(t), Ok(None));
    assert_eq!(flake.next_id_at(t + 1), Ok(Some(((t + 1) << 7) | (9 << 3))));
    assert_eq!(flake.next_id_at(t + 1), Ok(Some(((t + 1) << 7) | (9 << 3) | 1)));
}

#[test]
fn a_sequence_field_of_no_bits_serves_one_identifier_a_millisecond() {
    let mut flake = generator(5, 0, 17);
    assert_eq!(flake.next_id_at(3), Ok(Some((3 << 5) | 17)));
    assert_eq!(flake.next_id_at(3), Ok(None));
    assert_eq!(flake.next_id_at(4), Ok(Some((4 << 5) | 17)));
}

#[test]
fn the_first_call_at_the_epoch_itself_starts_at_sequence_zero() {
    let mut flake = generator(10, 10, 5);
    assert_eq!(flake.next_id_at(0), Ok(Some(5 << 10)));
    assert_eq!(flake.next_id_at(0), Ok(Some((5 << 10) | 1)));
    assert_eq!(flake.next_id_at(0), Ok(Some(5122)));
}

#[test]
fn the_epoch_millisecond_serves_exactly_its_sequence_numbers() {
    let mut flake = generator(4, 2, 9);
    for sequence in 0u64..4 {
        assert_eq!(flake.next_id_at(0), Ok(Some((9 << 2) | sequence)));
    }
    assert_eq!(flake.next_id_at(0), Ok(None));
    assert_eq!(flake.next_id_at(1), Ok(Some((1 << 6) | (9 << 2))));
}

#[test]
fn a_new_generator_without_sequence_bits_issues_at_the_epoch_itself() {
    let mut flake = generator(5, 0, 17);
    assert_eq!(flake.next_id_at(0), Ok(Some(17)));
    assert_eq!(flake.next_id_at(0), Ok(None));
    assert_eq!(flake.next_id_at(1), Ok(Some((1 << 5) | 17)));
}

#[test]
fn a_wait_ends_at_the_first_later_reading() {
    let mut flake = generator(10, 0, 3);
    assert_eq!(flake.next_id_at(7), Ok(Some((7 << 10) | 3)));
    assert_eq!(flake.next_id_at(7), Ok(None));
    assert_eq!(flake.next_id_at(7), Ok(None));
    assert_eq!(flake.to_string(), "flake-7-3-0");
    assert_eq!(flake.next_id_at(8), Ok(Some((8 << 10) | 3)));
    assert_eq!(flake.next_id_at(9), Ok(Some((9 << 10) | 3)));
}

#[test]
fn a_millisecond_with_spare_sequence_numbers_issues_again() {
    let mut flake = generator(10, 10, 5);
    let mut last = flake.next_id_at(44).unwrap().unwrap();
    for _ in 1..1024 {
        let next = flake.next_id_at(44).unwrap().unwrap();
        assert_eq!(next, last + 1);
        last = next;
    }
    assert_eq!(last & 1023, 1023);
    assert_eq!(flake.next_id_at(44), Ok(None));
}

#[test]
fn a_new_generator_reports_no_backward_jump() {
    for reading in [0u64, 1, 1 << 41, u64::MAX] {
        let mut flake = generator(10, 10, 5);
        assert!(flake.next_id_at(reading).unwrap().is_some());
    }
}

#[test]
fn a_later_millisecond_starts_at_sequence_zero() {
    let mut flake = generator(10, 10, 1);
    assert_eq!(flake.next_id_at(50), Ok(Some((50 << 20) | (1 << 10))));
    assert_eq!(flake.next_id_at(50), Ok(Some((50 << 20) | (1 << 10) | 1)));
    assert_eq!(flake.next_id_at(51), Ok(Some((51 << 20) | (1 << 10))));
}

#[test]
fn a_backward_jump_is_reported() {
    let mut flake = generator(10, 10, 5);
    let issued = flake.next_id_at(2000).unwrap().unwrap();
    assert_eq!(flake.next_id_at(1999), Err(CornFlakeError::ClockMovedBackwards));
    assert_eq!(flake.next_id_at(0), Err(CornFlakeError::ClockMovedBackwards));
    assert_eq!(flake.next_id_at(2000), Ok(Some(issued + 1)));
}

#[test]
fn a_backward_jump_in_a_used_up_millisecond_is_reported() {
    let mut flake = generator(10, 1, 5);
    assert!(flake.next_id_at(2000).unwrap().is_some());
    assert!(flake.next_id_at(2000).unwrap().is_some());
    assert_eq!(flake.next_id_at(2000), Ok(None));
    assert_eq!(flake.next_id_at(1999), Err(CornFlakeError::ClockMovedBackwards));
    assert_eq!(flake.next_id_at(2001), Ok(Some((2001 << 11) | (5 << 1))));
}

#[test]
fn identifiers_increase_over_any_run_of_readings() {
    let mut flake = generator(6, 2, 33);
    let readings: [u64; 14] = [5, 5, 5, 5, 5, 4, 6, 6, 2, 9, 9, 9, 9, 100];
    let mut issued: Vec<u64> = Vec::new();
    for reading in readings {
        if let Ok(Some(id)) = flake.next_id_at(reading) {
            issued.push(id);
        }
    }
    assert_eq!(issued.len(), 11);
    for pair in issued.windows(2) {
        assert!(pair[0] < pair[1]);
    }
}

#[test]
fn a_timestamp_too_large_for_its_field_loses_its_high_bits() {
    let mut flake = generator(12, 10, 1);
    let t: u64 = 1 << 42;
    assert_eq!(flake.next_id_at(t - 1), Ok(Some(((t - 1) << 22) | (1 << 10))));
    assert_eq!(flake.next_id_at(t), Ok(Some(1 << 10)));
}

#[test]
fn the_readable_form_shows_the_state_in_hexadecimal() {
    let mut flake = generator(10, 10, 171);
    assert_eq!(flake.to_string(), "flake-0-ab-0");
    flake.next_id_at(255).unwrap();
    flake.next_id_at(255).unwrap();
    assert_eq!(flake.to_string(), "flake-ff-ab-1");
}

use cornflake::config::DEFAULT_EPOCH;
use cornflake::{Config, CornFlake, CornFlakeConfigError};

#[test]
fn default_config_has_ten_bit_fields() {
    let config = Config::default();
    assert_eq!(config.node_id_bits, 10);
    assert_eq!(config.sequence_bits, 10);
    assert_eq!(config.node_id, 0);
    assert_eq!(config.epoch, 1451602800);
    assert_eq!(DEFAULT_EPOCH, 1451602800);
}

#[test]
fn every_valid_configuration_constructs() {
    for node_id_bits in 0i8..=22 {
        for sequence_bits in 0i8..=(22 - node_id_bits) {
            let largest = (1u64 << node_id_bits) - 1;
            for node_id in [0, largest / 2, largest] {
                let config = Config { node_id_bits, sequence_bits, node_id, epoch: 7 };
                let flake = CornFlake::new(&config).unwrap();
                assert_eq!(flake.node_id(), node_id);
            }
        }
    }
}

#[test]
fn too_wide_fields_are_refused() {
    for (node_id_bits, sequence_bits) in [(11i8, 12i8), (23, 0), (0, 23), (22, 1), (127, 127)] {
        let config = Config { node_id_bits, sequence_bits, node_id: 0, epoch: 0 };
        assert_eq!(
            CornFlake::new(&config).err(),
            Some(CornFlakeConfigError::TooFewTimestampBits)
        );
    }
}

#[test]
fn widths_are_judged_before_the_node_id() {
    let config = Config { node_id_bits: 12, sequence_bits: 12, node_id: u64::MAX, epoch: 0 };
    assert_eq!(CornFlake::new(&config).err(), Some(CornFlakeConfigError::TooFewTimestampBits));
}

#[test]
fn node_id_at_the_limit_is_refused() {
    let config = Config { node_id_bits: 10, sequence_bits: 10, node_id: 1024, epoch: 1451602800 };
    assert_eq!(CornFlake::new(&config).err(), Some(CornFlakeConfigError::NodeIdTooBig(1024)));
}

#[test]
fn node_id_just_below_the_limit_is_accepted() {
    let config = Config { node_id_bits: 10, sequence_bits: 10, node_id: 1023, epoch: 1451602800 };
    assert_eq!(CornFlake::new(&config).unwrap().node_id(), 1023);
}

#[test]
fn node_id_beyond_the_limit_is_refused_with_its_value() {
    for node_id_bits in 0i8..=22 {
        let limit = 1u64 << node_id_bits;
        for node_id in [limit, limit + 1, u64::MAX] {
            let config = Config { node_id_bits, sequence_bits: 0, node_id, epoch: 0 };
            assert_eq!(
                CornFlake::new(&config).err(),
                Some(CornFlakeConfigError::NodeIdTooBig(node_id))
            );
        }
    }
}

#[test]
fn a_node_field_of_no_bits_holds_node_zero_only() {
    let fits = Config { node_id_bits: 0, sequence_bits: 22, node_id: 0, epoch: 0 };
    assert!(CornFlake::new(&fits).is_ok());
    let too_big = Config { node_id_bits: 0, sequence_bits: 22, node_id: 1, epoch: 0 };
    assert_eq!(CornFlake::new(&too_big).err(), Some(CornFlakeConfigError::NodeIdTooBig(1)));
}

#[test]
fn negative_widths_are_no_counts() {
    assert!(Config::default().widths_are_counts());
    assert!(Config { node_id_bits: 0, sequence_bits: 0, node_id: 0, epoch: 0 }.widths_are_counts());
    assert!(!Config { node_id_bits: -1, sequence_bits: 3, node_id: 0, epoch: 0 }.widths_are_counts());
    assert!(!Config { node_id_bits: 3, sequence_bits: -128, node_id: 0, epoch: 0 }.widths_are_counts());
}

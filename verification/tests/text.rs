use cornflake::text::{decimal, hexadecimal, hexadecimal_byte};
use cornflake::{Config, CornFlakeConfigError};

#[test]
fn numbers_in_decimal() {
    assert_eq!(decimal(0), "0");
    assert_eq!(decimal(9), "9");
    assert_eq!(decimal(10), "10");
    assert_eq!(decimal(1024), "1024");
    assert_eq!(decimal(u64::MAX), "18446744073709551615");
    for number in [1u64, 99, 100, 1451602800, 1 << 42] {
        assert_eq!(decimal(number), format!("{}", number));
    }
}

#[test]
fn numbers_in_hexadecimal() {
    assert_eq!(hexadecimal(0), "0");
    assert_eq!(hexadecimal(15), "f");
    assert_eq!(hexadecimal(16), "10");
    assert_eq!(hexadecimal(0xdead_beef), "deadbeef");
    assert_eq!(hexadecimal(u64::MAX), "ffffffffffffffff");
    for number in [1u64, 255, 256, 1451602800, 1 << 42] {
        assert_eq!(hexadecimal(number), format!("{:x}", number));
    }
}

#[test]
fn signed_bytes_in_hexadecimal() {
    assert_eq!(hexadecimal_byte(0), "0");
    assert_eq!(hexadecimal_byte(10), "a");
    assert_eq!(hexadecimal_byte(127), "7f");
    assert_eq!(hexadecimal_byte(-1), "ff");
    assert_eq!(hexadecimal_byte(-128), "80");
    for byte in i8::MIN..=i8::MAX {
        assert_eq!(hexadecimal_byte(byte), format!("{:x}", byte));
    }
}

#[test]
fn a_configuration_in_readable_form() {
    assert_eq!(Config::default().to_string(), "config-a-0-a");
    let config = Config { node_id_bits: 12, sequence_bits: 10, node_id: 4095, epoch: 0 };
    assert_eq!(config.to_string(), "config-c-fff-a");
    assert_eq!(
        config.to_string(),
        format!("config-{:x}-{:x}-{:x}", config.node_id_bits, config.node_id, config.sequence_bits)
    );
}

#[test]
fn configuration_errors_in_words() {
    let widths = CornFlakeConfigError::TooFewTimestampBits;
    assert_eq!(widths.to_string(), "TooFewTimestampBits (less then 41bit)");
    assert_eq!(widths.description(), "TooFewTimestampBits (less then 41bit)");
    let node = CornFlakeConfigError::NodeIdTooBig(1024);
    assert_eq!(node.to_string(), "NodeIdTooBig: 1024");
    assert_eq!(node.description(), "NodeIdTooBig");
    assert_eq!(CornFlakeConfigError::NodeIdTooBig(0).to_string(), "NodeIdTooBig: 0");
}

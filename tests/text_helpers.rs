use imu_rust::engine::ImuConfig;
use imu_rust::error::ProtocolFault;
use imu_rust::text::{parse_hex_u8, parse_trimmed_hex_u8};

#[test]
fn hex_bytes_parse_with_or_without_prefix() {
    assert_eq!(parse_hex_u8("0x4A"), Ok(0x4A));
    assert_eq!(parse_hex_u8("0X4a"), Ok(0x4A));
    assert_eq!(parse_hex_u8("4b"), Ok(0x4B));
    assert_eq!(parse_hex_u8("  0xff \n"), Ok(255));
    assert_eq!(parse_hex_u8("+7"), Ok(7));
    assert_eq!(parse_hex_u8("0"), Ok(0));
}

#[test]
fn bad_hex_bytes_are_rejected_with_the_input_named() {
    let e = parse_hex_u8("0x100").unwrap_err();
    assert!(e.starts_with("invalid hex byte '0x100': "));
    assert!(parse_hex_u8("zz").is_err());
    assert!(parse_hex_u8("").is_err());
    assert!(parse_hex_u8("0x").is_err());
    assert!(parse_hex_u8("-1").is_err());
}

#[test]
fn device_path_names_the_bus() {
    assert_eq!(ImuConfig { bus: 1, address: 0x4A, hz: 100 }.device_path(), "/dev/i2c-1");
    assert_eq!(ImuConfig { bus: 0, address: 0x4A, hz: 100 }.device_path(), "/dev/i2c-0");
    assert_eq!(ImuConfig { bus: 255, address: 0x4B, hz: 1 }.device_path(), "/dev/i2c-255");
}

#[test]
fn protocol_faults_have_tags() {
    assert_eq!(ProtocolFault::ShortPacket.tag(), "packet shorter than header");
    assert_eq!(ProtocolFault::PacketTooLong.tag(), "packet longer than send buffer");
}

#[test]
fn trimmed_hex_parse_names_the_original_input() {
    assert_eq!(parse_trimmed_hex_u8("0x4A", " 0x4A "), Ok(0x4A));
    let e = parse_trimmed_hex_u8("0xG1", " 0xG1\t").unwrap_err();
    assert!(e.starts_with("invalid hex byte ' 0xG1\t': "));
    assert!(e.len() > "invalid hex byte ' 0xG1\t': ".len());
    let e = parse_hex_u8("  zz ").unwrap_err();
    assert!(e.starts_with("invalid hex byte '  zz ': "));
    assert!(parse_hex_u8("\u{3000}0x10\u{a0}") == Ok(16));
}

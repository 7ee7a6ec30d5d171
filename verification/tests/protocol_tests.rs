use qwiic_relay_rs::{Addresses, Command, QwiicRelayConfig, RelayState, RelayStatus, VerificationConfig};

#[test]
fn test_config_creation() {
    let config = QwiicRelayConfig::new(2);
    assert_eq!(config.relay_count, 2);
    assert_eq!(config.write_delay_us, 10);
    assert_eq!(config.state_change_delay_ms, 10);
    assert_eq!(config.init_delay_ms, 200);

    let default_config = QwiicRelayConfig::default();
    assert_eq!(default_config.relay_count, 4);
    assert_eq!(default_config.write_delay_us, 10);
    assert_eq!(default_config.state_change_delay_ms, 10);
    assert_eq!(default_config.init_delay_ms, 200);
}

#[test]
fn test_config_with_different_relay_counts() {
    let single = QwiicRelayConfig::new(1);
    assert_eq!(single.relay_count, 1);

    let dual = QwiicRelayConfig::new(2);
    assert_eq!(dual.relay_count, 2);

    let quad = QwiicRelayConfig::new(4);
    assert_eq!(quad.relay_count, 4);
}

#[test]
fn test_addresses_enum_values() {
    assert_eq!(u16::from(Addresses::SingleRelayDefault), 0x18);
    assert_eq!(u16::from(Addresses::SingleRelayJumperClosed), 0x19);
    assert_eq!(u16::from(Addresses::QuadRelayDefault), 0x6D);
    assert_eq!(u16::from(Addresses::QuadRelayJumperClosed), 0x6C);
    assert_eq!(u16::from(Addresses::DualSolidState), 0x0A);
    assert_eq!(u16::from(Addresses::DualSolidStateJumperClosed), 0x0B);
    assert_eq!(u16::from(Addresses::QuadSolidState), 0x08);
    assert_eq!(u16::from(Addresses::QuadSolidStateJumperClosed), 0x09);
}

#[test]
fn test_command_enum_values() {
    assert_eq!(u8::from(Command::DualQuadToggleBase), 0x00);
    assert_eq!(u8::from(Command::ToggleRelayOne), 0x01);
    assert_eq!(u8::from(Command::ToggleRelayTwo), 0x02);
    assert_eq!(u8::from(Command::ToggleRelayThree), 0x03);
    assert_eq!(u8::from(Command::ToggleRelayFour), 0x04);
    assert_eq!(u8::from(Command::RelayOneStatus), 0x05);
    assert_eq!(u8::from(Command::RelayTwoStatus), 0x06);
    assert_eq!(u8::from(Command::RelayThreeStatus), 0x07);
    assert_eq!(u8::from(Command::RelayFourStatus), 0x08);
    assert_eq!(u8::from(Command::TurnAllOff), 0x0A);
    assert_eq!(u8::from(Command::TurnAllOn), 0x0B);
    assert_eq!(u8::from(Command::ToggleAll), 0x0C);
}

#[test]
fn test_relay_state_enum_values() {
    assert_eq!(u8::from(RelayState::Off), 0x00);
    assert_eq!(u8::from(RelayState::On), 0x01);
    assert_eq!(u8::from(RelayState::SingleFirmwareVersion), 0x04);
    assert_eq!(u8::from(RelayState::SingleStatusVersion), 0x05);
}

#[test]
fn test_relay_status_enum_values() {
    assert_eq!(u8::from(RelayStatus::Off), 0);
    assert_eq!(u8::from(RelayStatus::On), 1);
}

#[test]
fn test_relay_status_from_bool() {
    assert_eq!(RelayStatus::from(false), RelayStatus::Off);
    assert_eq!(RelayStatus::from(true), RelayStatus::On);
}

#[test]
fn test_relay_status_to_bool() {
    assert_eq!(bool::from(RelayStatus::Off), false);
    assert_eq!(bool::from(RelayStatus::On), true);
}

#[test]
fn test_relay_status_from_u8() {
    assert_eq!(RelayStatus::from(0u8), RelayStatus::Off);
    assert_eq!(RelayStatus::from(1u8), RelayStatus::On);
    assert_eq!(RelayStatus::from(255u8), RelayStatus::On);
    assert_eq!(RelayStatus::from(10u8), RelayStatus::On);
}

#[test]
fn test_relay_status_to_u8() {
    assert_eq!(u8::from(RelayStatus::Off), 0);
    assert_eq!(u8::from(RelayStatus::On), 1);
}

#[test]
fn test_relay_status_equality() {
    assert_eq!(RelayStatus::Off, RelayStatus::Off);
    assert_eq!(RelayStatus::On, RelayStatus::On);
    assert_ne!(RelayStatus::Off, RelayStatus::On);
}

#[test]
fn test_config_clone() {
    let original = QwiicRelayConfig::new(3);
    let cloned = original.clone();
    assert_eq!(original.relay_count, cloned.relay_count);
}

#[test]
fn test_config_copy() {
    let original = QwiicRelayConfig::new(2);
    let copied = original;
    assert_eq!(copied.relay_count, 2);
}

#[test]
fn test_config_with_timing() {
    let config = QwiicRelayConfig::with_timing(2, 15, 25, 300);
    assert_eq!(config.relay_count, 2);
    assert_eq!(config.write_delay_us, 15);
    assert_eq!(config.state_change_delay_ms, 25);
    assert_eq!(config.init_delay_ms, 300);
}

#[test]
fn test_config_for_solid_state() {
    let config = QwiicRelayConfig::for_solid_state(4);
    assert_eq!(config.relay_count, 4);
    assert_eq!(config.write_delay_us, 5);
    assert_eq!(config.state_change_delay_ms, 5);
    assert_eq!(config.init_delay_ms, 100);
}

#[test]
fn test_config_for_mechanical() {
    let config = QwiicRelayConfig::for_mechanical(2);
    assert_eq!(config.relay_count, 2);
    assert_eq!(config.write_delay_us, 15);
    assert_eq!(config.state_change_delay_ms, 20);
    assert_eq!(config.init_delay_ms, 250);
}

#[test]
fn test_config_setters() {
    let mut config = QwiicRelayConfig::new(1);

    config.set_write_delay_us(25);
    assert_eq!(config.write_delay_us, 25);

    config.set_state_change_delay_ms(30);
    assert_eq!(config.state_change_delay_ms, 30);

    config.set_init_delay_ms(500);
    assert_eq!(config.init_delay_ms, 500);
}

#[test]
fn status_round_trips_through_bool_and_byte() {
    for byte in 0..=255u8 {
        let status = RelayStatus::from(byte);
        assert_eq!(status, if byte == 0 { RelayStatus::Off } else { RelayStatus::On });
        assert_eq!(RelayStatus::from(bool::from(status)), status);
        assert_eq!(u8::from(status) == byte, byte <= 1);
        if byte != 0 {
            assert_eq!(u8::from(status), 1);
        }
    }
    for status in [RelayStatus::Off, RelayStatus::On] {
        assert_eq!(RelayStatus::from(u8::from(status)), status);
        assert_eq!(RelayStatus::from(bool::from(status)), status);
    }
    for on in [false, true] {
        assert_eq!(bool::from(RelayStatus::from(on)), on);
    }
}

#[test]
fn constructors_fill_every_field() {
    let strict = VerificationConfig::strict();
    let lenient = VerificationConfig::lenient();
    assert_eq!(
        QwiicRelayConfig::new(3),
        QwiicRelayConfig {
            relay_count: 3,
            verification: strict,
            write_delay_us: 10,
            state_change_delay_ms: 10,
            init_delay_ms: 200,
        }
    );
    assert_eq!(
        QwiicRelayConfig::with_verification(1, lenient),
        QwiicRelayConfig {
            relay_count: 1,
            verification: lenient,
            write_delay_us: 10,
            state_change_delay_ms: 10,
            init_delay_ms: 200,
        }
    );
    assert_eq!(
        QwiicRelayConfig::with_verification_and_timing(2, lenient, 1, 2, 3),
        QwiicRelayConfig {
            relay_count: 2,
            verification: lenient,
            write_delay_us: 1,
            state_change_delay_ms: 2,
            init_delay_ms: 3,
        }
    );
    assert_eq!(QwiicRelayConfig::with_timing(0, 0, 0, 0).verification, strict);
    assert_eq!(QwiicRelayConfig::for_solid_state(255).verification, strict);
    assert_eq!(QwiicRelayConfig::for_mechanical(4).verification, strict);
    assert_eq!(QwiicRelayConfig::default(), QwiicRelayConfig::new(4));
}

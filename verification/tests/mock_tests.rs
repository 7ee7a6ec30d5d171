use qwiic_relay_rs::RelayError;
use std::sync::{Arc, Mutex};

// Mock I2C device for testing
struct MockI2CDevice {
    relay_states: Arc<Mutex<[bool; 5]>>, // Index 0 unused, 1-4 for relays
    fail_count: Arc<Mutex<u8>>,
    should_fail_toggle: bool,
}

impl MockI2CDevice {
    fn new() -> Self {
        MockI2CDevice {
            relay_states: Arc::new(Mutex::new([false; 5])),
            fail_count: Arc::new(Mutex::new(0)),
            should_fail_toggle: false,
        }
    }

    fn with_failures(fail_count: u8) -> Self {
        MockI2CDevice {
            relay_states: Arc::new(Mutex::new([false; 5])),
            fail_count: Arc::new(Mutex::new(fail_count)),
            should_fail_toggle: true,
        }
    }

    fn toggle_relay(&self, relay_num: u8) -> Result<(), RelayError> {
        if self.should_fail_toggle {
            let mut count = self.fail_count.lock().unwrap();
            if *count > 0 {
                *count -= 1;
                // Simulate failure - don't actually toggle
                return Ok(());
            }
        }

        let mut states = self.relay_states.lock().unwrap();
        states[relay_num as usize] = !states[relay_num as usize];
        Ok(())
    }

    fn get_state(&self, relay_num: u8) -> bool {
        let states = self.relay_states.lock().unwrap();
        states[relay_num as usize]
    }

    fn set_state(&self, relay_num: u8, state: bool) -> Result<(), RelayError> {
        let states = self.relay_states.lock().unwrap();
        let current = states[relay_num as usize];
        drop(states);

        if current != state {
            self.toggle_relay(relay_num)?;
        }
        Ok(())
    }
}

#[test]
fn test_successful_relay_on_with_verification() {
    let mock_device = MockI2CDevice::new();

    // Simulate turning relay 1 on
    assert!(!mock_device.get_state(1));
    mock_device.set_state(1, true).unwrap();
    assert!(mock_device.get_state(1));
}

#[test]
fn test_successful_relay_off_with_verification() {
    let mock_device = MockI2CDevice::new();

    // Set relay 1 to on first
    mock_device.set_state(1, true).unwrap();
    assert!(mock_device.get_state(1));

    // Turn it off
    mock_device.set_state(1, false).unwrap();
    assert!(!mock_device.get_state(1));
}

#[test]
fn test_retry_logic_succeeds_after_failures() {
    let mock_device = MockI2CDevice::with_failures(2);

    // Should fail twice, then succeed on third attempt
    assert!(!mock_device.get_state(1));

    // First two toggles will be ignored due to failures
    mock_device.toggle_relay(1).unwrap();
    assert!(!mock_device.get_state(1)); // Still off

    mock_device.toggle_relay(1).unwrap();
    assert!(!mock_device.get_state(1)); // Still off

    // Third toggle should work
    mock_device.toggle_relay(1).unwrap();
    assert!(mock_device.get_state(1)); // Now on
}

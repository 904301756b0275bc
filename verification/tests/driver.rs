use pca9554::Address;
use pca9554::MockBus;
use pca9554::MockError;
use pca9554::MockTransaction;
use pca9554::PCA9554;
use pca9554::Port;

#[test]
fn test_read_inputs() {
    let addr = Address::ADDR_0x24;
    let expected_value = Port::p00();
    let expected = vec![MockTransaction::WriteRead {
        addr: 0x24,
        data: vec![0x00],
        response: expected_value.bits(),
        fail: false,
    }];

    let mut i2c = MockBus::new(expected);
    let device = PCA9554::new(&i2c, addr);
    let result = device.read_inputs(&mut i2c).unwrap();
    assert_eq!(result, expected_value);
}

#[test]
fn test_read_empty() {
    let addr = Address::ADDR_0x24;
    let expected = vec![MockTransaction::WriteRead {
        addr: 0x24,
        data: vec![0x00],
        response: 0,
        fail: false,
    }];
    let expected_result = Port::empty();

    let mut i2c = MockBus::new(expected);
    let device = PCA9554::new(&i2c, addr);
    let result = device.read_inputs(&mut i2c).unwrap();
    assert_eq!(result, expected_result);
}

#[test]
fn test_read_outputs() {
    let addr = Address::ADDR_0x22;
    let expected = vec![MockTransaction::WriteRead {
        addr: 0x22,
        data: vec![0x01],
        response: 0xAA,
        fail: false,
    }];
    let expected_result = Port::p01().union(Port::p03()).union(Port::p05()).union(Port::p07());

    let mut i2c = MockBus::new(expected);
    let device = PCA9554::new(&i2c, addr);
    let result = device.read_outputs(&mut i2c).unwrap();
    assert_eq!(result, expected_result);
}

#[test]
fn test_new_keeps_address() {
    let i2c = MockBus::new(vec![]);
    let device = PCA9554::new(&i2c, Address::ADDR_0x26);
    assert_eq!(device.address(), Address::ADDR_0x26);
}

#[test]
fn test_write_outputs_payload() {
    let expected = vec![MockTransaction::Write {
        addr: 0x20,
        data: vec![0x01, 0xF0],
        fail: false,
    }];
    let mut i2c = MockBus::new(expected);
    let device = PCA9554::new(&i2c, Address::ADDR_0x20);
    let result = device.write_outputs(&mut i2c, Port::from_bits(0xF0));
    assert_eq!(result, Ok(()));
    assert!(i2c.done());
}

#[test]
fn test_clear_outputs_matches_write_empty() {
    // The two calls must issue the identical transaction: [0x01, 0x00].
    let script = || {
        vec![MockTransaction::Write {
            addr: 0x25,
            data: vec![0x01, 0x00],
            fail: false,
        }]
    };

    let mut i2c_clear = MockBus::new(script());
    let device_clear = PCA9554::new(&i2c_clear, Address::ADDR_0x25);
    assert_eq!(device_clear.clear_outputs(&mut i2c_clear), Ok(()));
    assert!(i2c_clear.done());

    let mut i2c_write = MockBus::new(script());
    let device_write = PCA9554::new(&i2c_write, Address::ADDR_0x25);
    assert_eq!(device_write.write_outputs(&mut i2c_write, Port::empty()), Ok(()));
    assert!(i2c_write.done());
}

#[test]
fn test_write_config_payload() {
    let expected = vec![MockTransaction::Write {
        addr: 0x21,
        data: vec![0x03, 0x5C],
        fail: false,
    }];
    let mut i2c = MockBus::new(expected);
    let device = PCA9554::new(&i2c, Address::ADDR_0x21);
    assert_eq!(device.write_config(&mut i2c, Port::from_bits(0x5C)), Ok(()));
    assert!(i2c.done());
}

#[test]
fn test_read_config_request() {
    let expected = vec![MockTransaction::WriteRead {
        addr: 0x23,
        data: vec![0x03],
        response: 0x0F,
        fail: false,
    }];
    let mut i2c = MockBus::new(expected);
    let device = PCA9554::new(&i2c, Address::ADDR_0x23);
    let result = device.read_config(&mut i2c).unwrap();
    assert_eq!(result, Port::from_bits(0x0F));
    assert!(i2c.done());
}

#[test]
fn test_set_inverted_payload() {
    let expected = vec![MockTransaction::Write {
        addr: 0x27,
        data: vec![0x02, 0x81],
        fail: false,
    }];
    let mut i2c = MockBus::new(expected);
    let device = PCA9554::new(&i2c, Address::ADDR_0x27);
    assert_eq!(device.set_inverted(&mut i2c, Port::from_bits(0x81)), Ok(()));
    assert!(i2c.done());
}

#[test]
fn test_is_inverted_request() {
    let expected = vec![MockTransaction::WriteRead {
        addr: 0x27,
        data: vec![0x02],
        response: 0x80,
        fail: false,
    }];
    let mut i2c = MockBus::new(expected);
    let device = PCA9554::new(&i2c, Address::ADDR_0x27);
    let result = device.is_inverted(&mut i2c).unwrap();
    assert_eq!(result, Port::p07());
    assert!(i2c.done());
}

#[test]
fn test_error_propagates_from_read() {
    let expected = vec![MockTransaction::WriteRead {
        addr: 0x24,
        data: vec![0x00],
        response: 0x55,
        fail: true,
    }];
    let mut i2c = MockBus::new(expected);
    let device = PCA9554::new(&i2c, Address::ADDR_0x24);
    let result = device.read_inputs(&mut i2c);
    assert_eq!(result, Err(MockError::Injected));
    // Exactly one transaction was attempted: the script of one is consumed.
    assert!(i2c.done());
}

#[test]
fn test_error_propagates_from_write() {
    let expected = vec![MockTransaction::Write {
        addr: 0x24,
        data: vec![0x01, 0xFF],
        fail: true,
    }];
    let mut i2c = MockBus::new(expected);
    let device = PCA9554::new(&i2c, Address::ADDR_0x24);
    let result = device.write_outputs(&mut i2c, Port::from_bits(0xFF));
    assert_eq!(result, Err(MockError::Injected));
    assert!(i2c.done());
}

#[test]
fn test_distinct_addresses_distinct_targets() {
    // Each instance hits the address it was constructed with.
    let mut i2c_a = MockBus::new(vec![MockTransaction::WriteRead {
        addr: 0x20,
        data: vec![0x00],
        response: 0x01,
        fail: false,
    }]);
    let device_a = PCA9554::new(&i2c_a, Address::ADDR_0x20);
    assert!(device_a.read_inputs(&mut i2c_a).is_ok());
    assert!(i2c_a.done());

    let mut i2c_b = MockBus::new(vec![MockTransaction::WriteRead {
        addr: 0x27,
        data: vec![0x00],
        response: 0x01,
        fail: false,
    }]);
    let device_b = PCA9554::new(&i2c_b, Address::ADDR_0x27);
    assert!(device_b.read_inputs(&mut i2c_b).is_ok());
    assert!(i2c_b.done());

    // An instance never targets another instance's address: a bus expecting
    // 0x20 rejects the transaction of a driver strapped to 0x21.
    let mut i2c_c = MockBus::new(vec![MockTransaction::WriteRead {
        addr: 0x20,
        data: vec![0x00],
        response: 0x01,
        fail: false,
    }]);
    let device_c = PCA9554::new(&i2c_c, Address::ADDR_0x21);
    assert_eq!(device_c.read_inputs(&mut i2c_c), Err(MockError::Unexpected));
    assert!(!i2c_c.done());
}

#[test]
fn test_exhausted_script_is_unexpected() {
    let mut i2c = MockBus::new(vec![]);
    let device = PCA9554::new(&i2c, Address::ADDR_0x24);
    assert_eq!(device.read_inputs(&mut i2c), Err(MockError::Unexpected));
    assert!(i2c.done());
}

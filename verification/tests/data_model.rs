use pca9554::Address;
use pca9554::Port;

#[test]
fn test_address_decode_partition() {
    // Exactly the 8 strap addresses decode; every other byte fails.
    for value in 0..=255u8 {
        let decoded = Address::try_from(value);
        if (0x20..=0x27).contains(&value) {
            let addr = decoded.expect("valid strap address must decode");
            assert_eq!(addr.byte(), value);
        } else {
            assert_eq!(decoded, Err(()));
        }
    }
}

#[test]
fn test_address_decode_matching_variant() {
    assert_eq!(Address::try_from(0x20), Ok(Address::ADDR_0x20));
    assert_eq!(Address::try_from(0x21), Ok(Address::ADDR_0x21));
    assert_eq!(Address::try_from(0x22), Ok(Address::ADDR_0x22));
    assert_eq!(Address::try_from(0x23), Ok(Address::ADDR_0x23));
    assert_eq!(Address::try_from(0x24), Ok(Address::ADDR_0x24));
    assert_eq!(Address::try_from(0x25), Ok(Address::ADDR_0x25));
    assert_eq!(Address::try_from(0x26), Ok(Address::ADDR_0x26));
    assert_eq!(Address::try_from(0x27), Ok(Address::ADDR_0x27));
}

#[test]
fn test_port_roundtrip_all_bytes() {
    // Decoding any byte into a Port and re-encoding yields the byte back.
    for b in 0..=255u8 {
        assert_eq!(Port::from_bits(b).bits(), b);
    }
}

#[test]
fn test_port_named_pins() {
    assert_eq!(Port::p00().bits(), 0x01);
    assert_eq!(Port::p01().bits(), 0x02);
    assert_eq!(Port::p02().bits(), 0x04);
    assert_eq!(Port::p03().bits(), 0x08);
    assert_eq!(Port::p04().bits(), 0x10);
    assert_eq!(Port::p05().bits(), 0x20);
    assert_eq!(Port::p06().bits(), 0x40);
    assert_eq!(Port::p07().bits(), 0x80);
    assert_eq!(Port::empty().bits(), 0x00);
}

#[test]
fn test_port_set_algebra() {
    let low = Port::from_bits(0x0F);
    let odd = Port::from_bits(0xAA);

    assert_eq!(low.union(odd), Port::from_bits(0xAF));
    assert_eq!(low.intersection(odd), Port::from_bits(0x0A));
    assert_eq!(low.complement(), Port::from_bits(0xF0));
    assert_eq!(low.symmetric_difference(odd), Port::from_bits(0xA5));

    assert!(low.contains(Port::from_bits(0x05)));
    assert!(!low.contains(Port::p07()));
    assert!(odd.contains(Port::empty()));
    assert_eq!(Port::p01().union(Port::p03()).union(Port::p05()).union(Port::p07()), odd);
}

#[test]
fn test_port_response_decode_examples() {
    // The worked response-byte examples of the register read decode rule.
    assert_eq!(Port::from_bits(0x01), Port::p00());
    assert_eq!(Port::from_bits(0x00), Port::empty());
    assert_eq!(
        Port::from_bits(0xAA),
        Port::p01().union(Port::p03()).union(Port::p05()).union(Port::p07())
    );
}

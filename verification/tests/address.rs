use erc6909_stylus::address::Address;

#[test]
fn zero_address_is_all_zero() {
    assert_eq!(Address::zero(), Address::from([0u8; 20]));
    assert_eq!(Address::zero().into_bytes(), [0u8; 20]);
    assert_eq!(Address::zero(), Address { hi: 0, lo: 0 });
    assert_ne!(Address::zero(), Address::from_low_u64_be(1));
}

#[test]
fn low_u64_sits_in_the_last_eight_bytes() {
    let mut bytes = [0u8; 20];
    bytes[19] = 1;
    assert_eq!(Address::from_low_u64_be(1), Address::from(bytes));
    let mut bytes = [0u8; 20];
    bytes[12] = 0x01;
    bytes[13] = 0x02;
    bytes[19] = 0x08;
    assert_eq!(Address::from_low_u64_be(0x0102_0000_0000_0008), Address::from(bytes));
    assert_eq!(Address::from_low_u64_be(0x0102_0000_0000_0008).into_bytes(), bytes);
}

#[test]
fn bytes_are_read_most_significant_first() {
    let mut bytes = [0u8; 20];
    for i in 0..20 {
        bytes[i] = (i as u8) + 1;
    }
    let address = Address::from(bytes);
    assert_eq!(address.hi, 0x0102_0304);
    assert_eq!(address.lo, 0x0506_0708_090a_0b0c_0d0e_0f10_1112_1314);
    assert_eq!(address.into_bytes(), bytes);
}

#[test]
fn bytes_round_trip_at_the_upper_end() {
    let bytes = [0xffu8; 20];
    let address = Address::from(bytes);
    assert_eq!(address, Address { hi: u32::MAX, lo: u128::MAX });
    assert_eq!(address.into_bytes(), bytes);
}

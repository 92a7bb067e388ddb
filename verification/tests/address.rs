use protected_mint::Address;

#[test]
fn addresses_compare_bytewise() {
    let a = Address { bytes: [5; 32] };
    let mut b = Address { bytes: [5; 32] };
    assert_eq!(a, b);
    assert!(a == b);
    b.bytes[31] = 6;
    assert_ne!(a, b);
    b.bytes[31] = 5;
    b.bytes[0] = 4;
    assert!(a != b);
}

#[test]
fn to_vec_keeps_the_bytes_in_order() {
    let mut a = Address { bytes: [0; 32] };
    let mut expected: Vec<u8> = Vec::new();
    for i in 0..32u8 {
        a.bytes[i as usize] = i * 3;
        expected.push(i * 3);
    }
    assert_eq!(a.to_vec(), expected);
    assert_eq!(a.to_vec().len(), 32);
}

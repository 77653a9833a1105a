use logic::account::AccountHash;

#[test]
fn bytes_are_read_most_significant_first() {
    let mut bytes = [0u8; 32];
    bytes[15] = 1;
    bytes[31] = 2;
    assert_eq!(AccountHash::from_bytes(&bytes), AccountHash::new(1, 2));
    bytes[0] = 0x80;
    bytes[16] = 0xff;
    assert_eq!(
        AccountHash::from_bytes(&bytes),
        AccountHash::new((0x80u128 << 120) + 1, (0xffu128 << 120) + 2)
    );
    assert_eq!(AccountHash::from_bytes(&[0xff; 32]), AccountHash::new(u128::MAX, u128::MAX));
    assert_eq!(AccountHash::from_bytes(&[0; 32]), AccountHash::new(0, 0));
}

#[test]
fn halves_agree_with_the_standard_reading() {
    let mut bytes = [0u8; 32];
    for (i, b) in bytes.iter_mut().enumerate() {
        *b = (i * 7 + 3) as u8;
    }
    let mut hi = [0u8; 16];
    let mut lo = [0u8; 16];
    hi.copy_from_slice(&bytes[..16]);
    lo.copy_from_slice(&bytes[16..]);
    assert_eq!(
        AccountHash::from_bytes(&bytes),
        AccountHash::new(u128::from_be_bytes(hi), u128::from_be_bytes(lo))
    );
}

#[test]
fn keys_name_their_accounts() {
    let a = AccountHash::new(5, 6);
    assert_eq!(a.key(), (5, 6));
    assert_eq!(AccountHash::from_key((5, 6)), a);
    assert!(a.same(&AccountHash::new(5, 6)));
    assert!(!a.same(&AccountHash::new(6, 5)));
    assert!(!a.same(&AccountHash::new(5, 7)));
}

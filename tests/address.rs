use meme_token::address::Address;

#[test]
fn addresses_compare_by_every_byte() {
    let a = Address::new([3; 32]);
    let mut bytes = [3u8; 32];
    assert!(a.same_as(&Address::new(bytes)));
    bytes[31] = 4;
    assert!(!a.same_as(&Address::new(bytes)));
    bytes[31] = 3;
    bytes[0] = 0;
    assert!(!a.same_as(&Address::new(bytes)));
}

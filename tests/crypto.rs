use address_finder::{
    generate_private_key, key_pair_of, private_key_to_address, public_key_to_address,
    FoundAddress,
};

fn key(n: u8) -> [u8; 32] {
    let mut k = [0u8; 32];
    k[31] = n;
    k
}

#[test]
fn address_of_key_one() {
    assert_eq!(
        private_key_to_address(&key(1)).unwrap(),
        "0x7e5f4552091a69125d5dfcb7b8c2659029395bdf"
    );
}

#[test]
fn address_of_key_two() {
    assert_eq!(
        private_key_to_address(&key(2)).unwrap(),
        "0x2b5ad5c4795c026514f8317c7a215e218dccd6cf"
    );
}

#[test]
fn zero_key_has_no_address() {
    assert!(private_key_to_address(&[0u8; 32]).is_none());
    assert!(private_key_to_address(&[0xffu8; 32]).is_none());
}

#[test]
fn address_of_generator_point() {
    let x = "79be667ef9dcbbac55a06295ce870b07029bfcdb2dce28d959f2815b16f81798";
    let y = "483ada7726a3c4655da4fbfc0e1108a8fd17b448a68554199c47d08ffb10d4b8";
    let mut pk = [0u8; 65];
    pk[0] = 4;
    let bytes = hex::decode(format!("{x}{y}")).unwrap();
    pk[1..].copy_from_slice(&bytes);
    assert_eq!(public_key_to_address(&pk), "0x7e5f4552091a69125d5dfcb7b8c2659029395bdf");
}

#[test]
fn generated_keys_are_valid_and_differ() {
    let a = generate_private_key();
    let b = generate_private_key();
    assert_ne!(a, b);
    let addr = private_key_to_address(&a).unwrap();
    assert_eq!(addr.len(), 42);
    assert!(addr.starts_with("0x"));
}

#[test]
fn key_pair_holds_hex_of_the_key() {
    let mut k = key(1);
    k[0] = 0xab;
    let found = FoundAddress { private_key: k, address: "0xabc".to_string() };
    let pair = key_pair_of(&found);
    assert_eq!(
        pair.private_key,
        "ab00000000000000000000000000000000000000000000000000000000000001"
    );
    assert_eq!(pair.public_address, "0xabc");
}

use load_tests::identity::{generate_id, id_from_bytes};

#[test]
fn id_lists_bytes_last_first_as_hex() {
    assert_eq!(id_from_bytes(&vec![0x01, 0xab]), "ab01");
    assert_eq!(id_from_bytes(&vec![0x00, 0x0f, 0xf0, 0xff]), "fff00f00");
    assert_eq!(id_from_bytes(&Vec::new()), "");
}

#[test]
fn generated_id_has_two_hex_digits_per_byte() {
    let id = generate_id(16);
    assert_eq!(id.len(), 32);
    assert!(id.chars().all(|c| c.is_ascii_hexdigit() && !c.is_ascii_uppercase()));
    assert_eq!(generate_id(0), "");
}

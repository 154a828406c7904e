use qlty::utils::{generate_random_id, random_id_from_bytes};

#[test]
fn random_id_has_the_requested_length_and_safe_characters() {
    let id = generate_random_id(32).unwrap();
    assert_eq!(id.chars().count(), 32);
    assert!(id
        .chars()
        .all(|c| c.is_ascii_alphanumeric() || c == '-' || c == '_'));
}

#[test]
fn random_id_from_bytes_maps_each_byte() {
    assert_eq!(random_id_from_bytes(&[0, 25, 26, 51, 52, 61, 62, 63]), "AZaz09-_");
    assert_eq!(random_id_from_bytes(&[64, 127, 255]), "A_\u{5f}");
    assert_eq!(random_id_from_bytes(&[]), "");
}

#[test]
fn empty_random_id_needs_no_randomness() {
    assert_eq!(generate_random_id(0), Some(String::new()));
}

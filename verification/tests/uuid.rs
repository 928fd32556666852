use mockable::uuid::DefaultUuidGenerator;
use mockable::uuid::UuidGenerator;

#[test]
fn generated_identifiers_are_of_version_four_and_differ() {
    let generator = DefaultUuidGenerator;
    let one = generator.generate_v4();
    let other = generator.generate_v4();
    assert_eq!(one.get_version_num(), 4);
    assert_eq!(other.get_version_num(), 4);
    assert_ne!(one, other);
}

#[test]
fn generated_identifiers_hold_the_bits_of_version_four() {
    let generator = DefaultUuidGenerator;
    for _ in 0..64 {
        let id = generator.generate_v4();
        let bytes = id.as_bytes();
        assert_eq!(bytes.len(), 16);
        assert_eq!(bytes[6] / 16, 4);
        assert_eq!(bytes[8] / 64, 2);
    }
}

use backend::codes::{format_code, generate_code, new_identifier, now_millis};

#[test]
fn codes_keep_leading_zeros() {
    assert_eq!(format_code(42), "000042");
    assert_eq!(format_code(0), "000000");
    assert_eq!(format_code(999999), "999999");
    assert_eq!(format_code(123456), "123456");
}

#[test]
fn generated_codes_are_six_digits() {
    for _ in 0..50 {
        let c = generate_code();
        assert_eq!(c.len(), 6);
        assert!(c.chars().all(|ch| ch.is_ascii_digit()));
    }
}

#[test]
fn identifiers_are_hyphenated_uuids() {
    let a = new_identifier();
    let b = new_identifier();
    assert_eq!(a.len(), 36);
    assert_eq!(a.matches('-').count(), 4);
    assert_ne!(a, b);
}

#[test]
fn the_clock_is_in_milliseconds() {
    assert!(now_millis() > 1_600_000_000_000);
}

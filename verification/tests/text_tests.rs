use shoko_external_importer::text::decimal;

#[test]
fn decimal_of_single_digits() {
    assert_eq!(decimal(0), "0");
    assert_eq!(decimal(7), "7");
    assert_eq!(decimal(9), "9");
}

#[test]
fn decimal_of_longer_numbers() {
    assert_eq!(decimal(10), "10");
    assert_eq!(decimal(12345), "12345");
    assert_eq!(decimal(1_000_000), "1000000");
    assert_eq!(decimal(9_876_543_210), "9876543210");
}

#[test]
fn decimal_of_the_largest_number() {
    assert_eq!(decimal(usize::MAX), usize::MAX.to_string());
}

use moai::amount_to_ui_amount_string;

fn digits_value(s: &str) -> u64 {
    s.chars().filter(|c| *c != '.').collect::<String>().parse().unwrap()
}

#[test]
fn pads_small_amount_to_one_integer_digit() {
    assert_eq!(amount_to_ui_amount_string(5, 9), "0.000000005");
}

#[test]
fn zero_decimals_gives_plain_integer() {
    assert_eq!(amount_to_ui_amount_string(0, 0), "0");
    assert_eq!(amount_to_ui_amount_string(94000000, 0), "94000000");
}

#[test]
fn zero_amount_with_decimals() {
    assert_eq!(amount_to_ui_amount_string(0, 9), "0.000000000");
    assert_eq!(amount_to_ui_amount_string(0, 1), "0.0");
}

#[test]
fn price_of_one_token_in_currency_units() {
    assert_eq!(amount_to_ui_amount_string(94000000, 9), "0.094000000");
    assert_eq!(amount_to_ui_amount_string(4000000, 9), "0.004000000");
}

#[test]
fn integer_part_longer_than_one_digit() {
    assert_eq!(amount_to_ui_amount_string(1234567890, 9), "1.234567890");
    assert_eq!(amount_to_ui_amount_string(12345, 2), "123.45");
    assert_eq!(amount_to_ui_amount_string(100, 2), "1.00");
}

#[test]
fn largest_amount() {
    assert_eq!(amount_to_ui_amount_string(u64::MAX, 0), "18446744073709551615");
    assert_eq!(amount_to_ui_amount_string(u64::MAX, 9), "18446744073.709551615");
}

#[test]
fn many_decimals() {
    let s = amount_to_ui_amount_string(7, 255);
    assert_eq!(s.len(), 257);
    assert!(s.starts_with("0."));
    assert!(s.ends_with("007"));
}

#[test]
fn formatting_is_repeatable_and_reads_back() {
    for (amount, decimals) in [(5u64, 9u8), (0, 0), (0, 3), (1234567890, 9), (u64::MAX, 9), (42, 1)] {
        let a = amount_to_ui_amount_string(amount, decimals);
        let b = amount_to_ui_amount_string(amount, decimals);
        assert_eq!(a, b);
        assert_eq!(digits_value(&a), amount);
        if decimals > 0 {
            let point = a.find('.').unwrap();
            assert_eq!(a.len() - point - 1, decimals as usize);
        }
    }
}

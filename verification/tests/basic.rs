use greeter::age_comparator;
use greeter::greet;

#[test]
fn add_small_sum() {
    assert_eq!(greeter::add(2, 2), 4);
}

#[test]
fn add_zero_identity() {
    assert_eq!(greeter::add(0, 0), 0);
    assert_eq!(greeter::add(0, u64::MAX), u64::MAX);
    assert_eq!(greeter::add(u64::MAX, 0), u64::MAX);
}

#[test]
fn add_wraps_on_overflow() {
    assert_eq!(greeter::add(u64::MAX, 1), 0);
    assert_eq!(greeter::add(u64::MAX, u64::MAX), u64::MAX - 1);
    assert_eq!(greeter::add(u64::MAX - 2, 5), 2);
}

#[test]
fn greet_world() {
    assert_eq!(greet("World"), "Hello, World!");
}

#[test]
fn greet_empty() {
    assert_eq!(greet(""), "Hello, !");
}

#[test]
fn greet_keeps_name_unchanged() {
    assert_eq!(greet("two words"), "Hello, two words!");
    assert_eq!(greet("!"), "Hello, !!");
}

#[test]
fn age_above_threshold() {
    assert_eq!(age_comparator(20), "You are 20 Eligible To Vote");
}

#[test]
fn age_below_threshold() {
    assert_eq!(age_comparator(15), "You are 15 Not Eligible To Vote");
}

#[test]
fn age_at_threshold() {
    assert_eq!(age_comparator(18), "Congrats You gained the Rights to Vote");
}

#[test]
fn age_just_past_threshold() {
    assert_eq!(age_comparator(19), "You are 19 Eligible To Vote");
    assert_eq!(age_comparator(17), "You are 17 Not Eligible To Vote");
}

#[test]
fn age_negative() {
    assert_eq!(age_comparator(-5), "You are -5 Not Eligible To Vote");
}

#[test]
fn age_extremes() {
    assert_eq!(age_comparator(i8::MIN), "You are -128 Not Eligible To Vote");
    assert_eq!(age_comparator(i8::MAX), "You are 127 Eligible To Vote");
}

#[test]
fn age_single_digit_and_zero() {
    assert_eq!(age_comparator(0), "You are 0 Not Eligible To Vote");
    assert_eq!(age_comparator(7), "You are 7 Not Eligible To Vote");
}

#[test]
fn age_three_digits() {
    assert_eq!(age_comparator(100), "You are 100 Eligible To Vote");
}

#[test]
fn decimal_rendering() {
    assert_eq!(greeter::decimal::u8_decimal(0), "0");
    assert_eq!(greeter::decimal::u8_decimal(9), "9");
    assert_eq!(greeter::decimal::u8_decimal(10), "10");
    assert_eq!(greeter::decimal::u8_decimal(99), "99");
    assert_eq!(greeter::decimal::u8_decimal(100), "100");
    assert_eq!(greeter::decimal::u8_decimal(255), "255");
    assert_eq!(greeter::decimal::i8_decimal(-1), "-1");
    assert_eq!(greeter::decimal::i8_decimal(-10), "-10");
    assert_eq!(greeter::decimal::i8_decimal(-128), "-128");
    assert_eq!(greeter::decimal::digit_str(3), "3");
}

#[test]
fn repeated_calls_identical() {
    assert_eq!(greeter::add(7, 9), greeter::add(7, 9));
    assert_eq!(greet("Ada"), greet("Ada"));
    assert_eq!(age_comparator(33), age_comparator(33));
    assert_eq!(age_comparator(18), age_comparator(18));
}

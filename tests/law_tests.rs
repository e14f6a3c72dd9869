use fizzy::{fizz_buzz, Fizzy, Matcher};

#[test]
fn plain_values_are_written_in_decimal() {
    let fizzer = fizz_buzz::<i64>();
    for n in -300_i64..=300 {
        if n % 3 != 0 && n % 5 != 0 {
            assert_eq!(fizzer.substitute(n), format!("{}", n));
        }
    }
}

#[test]
fn multiples_give_fizz_buzz_and_fizzbuzz() {
    let fizzer = fizz_buzz::<i64>();
    for n in -300_i64..=300 {
        let out = fizzer.substitute(n);
        if n % 15 == 0 {
            assert_eq!(out, "fizzbuzz");
        } else if n % 3 == 0 {
            assert_eq!(out, "fizz");
        } else if n % 5 == 0 {
            assert_eq!(out, "buzz");
        }
    }
}

#[test]
fn zero_is_a_multiple_of_every_divisor() {
    assert_eq!(fizz_buzz::<u32>().substitute(0), "fizzbuzz");
}

#[test]
fn rule_order_decides_text_order() {
    let abc: Fizzy<u32> = Fizzy::new()
        .add_matcher(Matcher::new(3, "A"))
        .add_matcher(Matcher::new(5, "B"))
        .add_matcher(Matcher::new(7, "C"));
    let cba: Fizzy<u32> = Fizzy::new()
        .add_matcher(Matcher::new(7, "C"))
        .add_matcher(Matcher::new(5, "B"))
        .add_matcher(Matcher::new(3, "A"));
    assert_eq!(abc.substitute(105), "ABC");
    assert_eq!(cba.substitute(105), "CBA");
    assert_eq!(abc.substitute(35), "BC");
}

#[test]
fn unmatched_values_keep_their_exact_text() {
    let none: Fizzy<i64> = Fizzy::new();
    assert_eq!(none.apply(&[0, 7, -7, 10]), vec!["0", "7", "-7", "10"]);
    assert_eq!(none.substitute(i64::MIN), "-9223372036854775808");
    assert_eq!(none.substitute(i64::MAX), "9223372036854775807");
    assert_eq!(Fizzy::<u64>::new().substitute(u64::MAX), "18446744073709551615");
    assert_eq!(Fizzy::<i16>::new().substitute(i16::MIN), "-32768");
    assert_eq!(fizz_buzz::<i32>().substitute(-7), "-7");
    assert_eq!(fizz_buzz::<i32>().substitute(-9), "fizz");
}

#[test]
fn empty_texts_fall_back_to_decimal() {
    let silent: Fizzy<u16> = Fizzy::new().add_matcher(Matcher::new(2, ""));
    assert_eq!(silent.apply(&[4, 5]), vec!["4", "5"]);
}

#[test]
fn same_values_in_every_type_give_same_outputs() {
    let from_u8 = fizz_buzz::<u8>().apply(&[15, 9, 10, 98, 0]);
    let from_u16 = fizz_buzz::<u16>().apply(&[15, 9, 10, 98, 0]);
    let from_u32 = fizz_buzz::<u32>().apply(&[15, 9, 10, 98, 0]);
    let from_i16 = fizz_buzz::<i16>().apply(&[15, 9, 10, 98, 0]);
    let from_i64 = fizz_buzz::<i64>().apply(&[15, 9, 10, 98, 0]);
    assert_eq!(from_u8, vec!["fizzbuzz", "fizz", "buzz", "98", "fizzbuzz"]);
    assert_eq!(from_u8, from_u16);
    assert_eq!(from_u8, from_u32);
    assert_eq!(from_u8, from_i16);
    assert_eq!(from_u8, from_i64);
}

#[test]
fn unbounded_input_prefix_matches_bounded_range() {
    let fizzer = fizz_buzz::<u64>();
    let lazy: Vec<String> = (1_u64..).map(|n| fizzer.substitute(n)).take(16).collect();
    let bounded: Vec<u64> = (1..=16).collect();
    assert_eq!(lazy, fizzer.apply(&bounded));
}

#[test]
fn check_returns_text_only_for_multiples() {
    let m = Matcher::new(4_i32, "four");
    assert_eq!(m.check(8), Some(String::from("four")));
    assert_eq!(m.check(-12), Some(String::from("four")));
    assert_eq!(m.check(6), None);
}

#[test]
fn negative_divisors_and_extreme_values() {
    let m = Matcher::new(-1_i32, "x");
    assert_eq!(m.check(i32::MIN), Some(String::from("x")));
    let n = Matcher::new(-3_i64, "y");
    assert_eq!(n.check(9), Some(String::from("y")));
    assert_eq!(n.check(10), None);
}

#[test]
fn largest_values_of_narrow_types() {
    assert_eq!(fizz_buzz::<u8>().apply(&[255, 254, 253]), vec!["fizzbuzz", "254", "253"]);
    assert_eq!(fizz_buzz::<i16>().substitute(i16::MAX), "32767");
}

#[test]
fn empty_input_gives_empty_output() {
    assert_eq!(fizz_buzz::<u32>().apply(&[]), Vec::<String>::new());
}

use lib::fibonacci::fibonacci;
use lib::fizz_buzz::fizz_buzzer;
use lib::leap_year::is_leap;
use lib::roman_numerals::to_roman_numeral;

#[test]
fn convert_non_multiples_of_three_or_and_five_to_textual_representation() {
    assert_eq!("1", fizz_buzzer(1));
    assert_eq!("2", fizz_buzzer(2));
    assert_eq!("4", fizz_buzzer(4));
}

#[test]
fn convert_multiples_of_three_to_fizz() {
    assert_eq!("fizz", fizz_buzzer(3));
    assert_eq!("fizz", fizz_buzzer(6));
    assert_eq!("fizz", fizz_buzzer(9));
}

#[test]
fn convert_multiples_of_five_to_buzz() {
    assert_eq!("buzz", fizz_buzzer(5));
    assert_eq!("buzz", fizz_buzzer(10));
    assert_eq!("buzz", fizz_buzzer(20));
}

#[test]
fn convert_multiples_of_three_and_five_to_fizzbuzz() {
    assert_eq!("fizzbuzz", fizz_buzzer(15));
    assert_eq!("fizzbuzz", fizz_buzzer(30));
    assert_eq!("fizzbuzz", fizz_buzzer(45));
}

#[test]
fn multiples_of_three_start_with_fizz() {
    for base in 0u8..50 {
        let number = base * 3;
        assert!(fizz_buzzer(number).starts_with("fizz"));
    }
}

#[test]
fn multiples_of_five_end_with_buzz() {
    for base in 0u8..50 {
        let number = base * 5;
        assert!(fizz_buzzer(number).ends_with("buzz"));
    }
}

#[test]
fn multiples_of_three_and_five_are_fizz_buzz() {
    for base in 0u8..10 {
        let number = base * 15;
        assert_eq!("fizzbuzz", fizz_buzzer(number));
    }
}

#[test]
fn multiples_of_neither_three_or_five_output_the_number() {
    for number in 0u16..=255 {
        let number = number as u8;
        if number % 3 != 0 && number % 5 != 0 {
            assert_eq!(format!("{}", number), fizz_buzzer(number));
        }
    }
}

#[test]
fn years_not_divisible_by_four_are_not_leap_years() {
    assert_eq!(false, is_leap(1970));
    assert_eq!(false, is_leap(2030));
    assert_eq!(false, is_leap(1990));
}

#[test]
fn years_divisible_by_one_hundred_are_not_leap_years() {
    assert_eq!(false, is_leap(1700));
    assert_eq!(false, is_leap(1900));
    assert_eq!(false, is_leap(2100));
}

#[test]
fn years_divisible_by_four_hundred_are_leap_years() {
    assert_eq!(true, is_leap(1600));
    assert_eq!(true, is_leap(2000));
    assert_eq!(true, is_leap(2400));
}

#[test]
fn years_divisible_by_four_but_not_by_one_hundred_are_leap_years() {
    for year in (1804u16..=1896).step_by(4) {
        assert_eq!(true, is_leap(year));
    }
    for year in (1904u16..=2020).step_by(4) {
        assert_eq!(true, is_leap(year));
    }
}

#[test]
fn fibonacci_number_is_the_sum_of_the_two_preceding_ones() {
    assert_eq!(0, fibonacci(0));
    assert_eq!(1, fibonacci(1));
    assert_eq!(1, fibonacci(2));
    assert_eq!(2, fibonacci(3));
    assert_eq!(3, fibonacci(4));
    assert_eq!(5, fibonacci(5));
    assert_eq!(8, fibonacci(6));
    assert_eq!(13, fibonacci(7));
    assert_eq!(144, fibonacci(12));
}

#[test]
fn roman_numeral_of_number_is() {
    assert_eq!("I", to_roman_numeral(1));
    assert_eq!("II", to_roman_numeral(2));
    assert_eq!("III", to_roman_numeral(3));
    assert_eq!("IV", to_roman_numeral(4));
    assert_eq!("V", to_roman_numeral(5));
    assert_eq!("VI", to_roman_numeral(6));
    assert_eq!("VII", to_roman_numeral(7));
    assert_eq!("VIII", to_roman_numeral(8));
    assert_eq!("IX", to_roman_numeral(9));
    assert_eq!("X", to_roman_numeral(10));
    assert_eq!("XI", to_roman_numeral(11));
    assert_eq!("XXXIX", to_roman_numeral(39));
    assert_eq!("XL", to_roman_numeral(40));
    assert_eq!("XLIV", to_roman_numeral(44));
    assert_eq!("L", to_roman_numeral(50));
    assert_eq!("LX", to_roman_numeral(60));
    assert_eq!("LXX", to_roman_numeral(70));
    assert_eq!("LXXXIX", to_roman_numeral(89));
    assert_eq!("XC", to_roman_numeral(90));
    assert_eq!("C", to_roman_numeral(100));
    assert_eq!("CD", to_roman_numeral(400));
    assert_eq!("D", to_roman_numeral(500));
    assert_eq!("CM", to_roman_numeral(900));
    assert_eq!("M", to_roman_numeral(1000));
    assert_eq!("DCCCXLVI", to_roman_numeral(846));
    assert_eq!("MCMXCIX", to_roman_numeral(1999));
    assert_eq!("MMVIII", to_roman_numeral(2008));
}

#[test]
fn fizz_buzz_of_zero_is_fizzbuzz() {
    assert_eq!("fizzbuzz", fizz_buzzer(0));
}

#[test]
fn fizz_buzz_of_the_largest_input_is_fizzbuzz() {
    assert_eq!("fizzbuzz", fizz_buzzer(255));
}

#[test]
fn fibonacci_of_the_largest_supported_index() {
    assert_eq!(46368, fibonacci(24));
}

#[test]
fn roman_numeral_of_zero_is_empty() {
    assert_eq!("", to_roman_numeral(0));
}

#[test]
fn roman_numeral_of_large_numbers() {
    assert_eq!("MMMCMXCIX", to_roman_numeral(3999));
    assert_eq!("MMMM", to_roman_numeral(4000));
}

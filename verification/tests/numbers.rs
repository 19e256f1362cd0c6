use vecadd_bench::guessing::check_guess;
use vecadd_bench::numbers::fizzbuzz_kind;
use vecadd_bench::numbers::is_even;
use vecadd_bench::numbers::sum_and_largest;
use vecadd_bench::numbers::FizzBuzzKind;

#[test]
fn parity_of_a_few_numbers() {
    assert!(is_even(0));
    assert!(is_even(4));
    assert!(is_even(-4));
    assert!(!is_even(5));
    assert!(!is_even(-3));
}

#[test]
fn fizzbuzz_classification() {
    assert_eq!(fizzbuzz_kind(15), FizzBuzzKind::FizzBuzz);
    assert_eq!(fizzbuzz_kind(45), FizzBuzzKind::FizzBuzz);
    assert_eq!(fizzbuzz_kind(9), FizzBuzzKind::Fizz);
    assert_eq!(fizzbuzz_kind(63), FizzBuzzKind::Fizz);
    assert_eq!(fizzbuzz_kind(10), FizzBuzzKind::Buzz);
    assert_eq!(fizzbuzz_kind(7), FizzBuzzKind::Plain);
}

#[test]
fn sum_and_largest_of_the_walked_array() {
    let arr: Vec<i32> = vec![45, 15, 20, 63, 30, 42, 5, 10, 35, 2];
    let (sum, largest) = sum_and_largest(&arr);
    assert_eq!(sum, 267);
    assert_eq!(largest, Some(63));
}

#[test]
fn sum_and_largest_of_nothing() {
    let arr: Vec<i32> = vec![];
    let (sum, largest) = sum_and_largest(&arr);
    assert_eq!(sum, 0);
    assert_eq!(largest, None);
}

#[test]
fn guesses_compare_against_the_secret() {
    assert_eq!(check_guess(45, 45), 0);
    assert_eq!(check_guess(30, 45), -1);
    assert_eq!(check_guess(90, 45), 1);
}

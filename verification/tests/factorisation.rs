use utils::factorisation::are_all_factors;
use utils::factorisation::are_any_factors;
use utils::factorisation::get_all_factors;
use utils::factorisation::is_factor;
use utils::factorisation::is_prime;
use utils::factorisation::lowest_non_one;

#[test]
fn is_factor_checks_divisibility() {
    assert!(is_factor(6, 3));
    assert!(is_factor(6, 2));
    assert!(!is_factor(7, 3));
    assert!(is_factor(-6, 3));
    assert!(is_factor(6, -3));
}

#[test]
fn any_and_all_factors() {
    assert!(are_any_factors(12, &[5, 4, 7]));
    assert!(!are_any_factors(12, &[5, 7, 11]));
    assert!(are_all_factors(12, &[2, 3, 4, 6]));
    assert!(!are_all_factors(12, &[2, 5]));
}

#[test]
fn lowest_non_one_finds_the_least_proper_divisor() {
    assert_eq!(lowest_non_one(4), Some(2));
    assert_eq!(lowest_non_one(9), Some(3));
    assert_eq!(lowest_non_one(15), Some(3));
    assert_eq!(lowest_non_one(35), Some(5));
    assert_eq!(lowest_non_one(7), None);
    assert_eq!(lowest_non_one(2), None);
    assert_eq!(lowest_non_one(1), None);
}

#[test]
fn get_all_factors_lists_every_divisor_sorted() {
    assert_eq!(get_all_factors(12), vec![1, 2, 3, 4, 6, 12]);
    assert_eq!(get_all_factors(36), vec![1, 2, 3, 4, 6, 9, 12, 18, 36]);
    assert_eq!(get_all_factors(7), vec![1, 7]);
    assert_eq!(get_all_factors(2), vec![1, 2]);
}

#[test]
fn get_all_factors_below_two() {
    assert_eq!(get_all_factors(1), vec![1, 1]);
    assert_eq!(get_all_factors(0), vec![0, 1]);
    assert_eq!(get_all_factors(-5), vec![-5, 1]);
}

#[test]
fn primality_by_factor_count() {
    assert!(is_prime(2));
    assert!(is_prime(3));
    assert!(is_prime(7));
    assert!(is_prime(13));
    assert!(!is_prime(4));
    assert!(!is_prime(6));
    assert!(!is_prime(9));
    assert!(!is_prime(49));
    // The factor-count rule calls everything below 2 prime: its list is
    // just 1 and the number itself.
    assert!(is_prime(1));
    assert!(is_prime(0));
    assert!(is_prime(-5));
}

use rlox::primes::{is_prime, n_primes, primes_in_range, primes_sequence};

#[test]
fn test_is_prime() {
    assert!(!is_prime(0));
    assert!(!is_prime(1));
    assert!(is_prime(2));
    assert!(is_prime(3));
    assert!(is_prime(5));
}

#[test]
fn test_n_primes() {
    let first_5_primes = n_primes(5);
    assert_eq!(first_5_primes, vec![2, 3, 5, 7, 11]);
}

#[test]
fn test_primes_in_range() {
    let primes = primes_in_range(10..30);
    assert_eq!(primes, vec![11, 13, 17, 19, 23, 29]);
}

#[test]
fn test_primes_sequence() {
    let primes: Vec<u32> = primes_sequence(10);
    assert_eq!(primes, vec![2, 3, 5, 7, 11, 13, 17, 19, 23, 29]);
}

#[test]
fn squares_and_large_numbers() {
    assert!(!is_prime(4));
    assert!(!is_prime(9));
    assert!(!is_prime(25));
    assert!(!is_prime(65537 * 3));
    assert!(is_prime(65537));
    assert!(is_prime(4294967291));
    assert!(!is_prime(4294967295));
    assert!(!is_prime(4294836225));
}

#[test]
fn empty_and_reversed_ranges_hold_no_prime() {
    assert_eq!(primes_in_range(0..2), Vec::<u32>::new());
    assert_eq!(primes_in_range(7..7), Vec::<u32>::new());
    assert_eq!(primes_in_range(30..10), Vec::<u32>::new());
    assert_eq!(primes_in_range(2..3), vec![2]);
    assert_eq!(n_primes(0), Vec::<u32>::new());
}

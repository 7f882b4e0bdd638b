use numeric_kernels::fibonacci;
use numeric_kernels::is_prime;
use numeric_kernels::matrix_multiply;

#[test]
fn fibonacci_base_values() {
    assert_eq!(fibonacci(0), 0);
    assert_eq!(fibonacci(1), 1);
}

#[test]
fn fibonacci_negative_inputs_come_back_unchanged() {
    assert_eq!(fibonacci(-1), -1);
    assert_eq!(fibonacci(-5), -5);
    assert_eq!(fibonacci(-100), -100);
}

#[test]
fn fibonacci_recurrence_on_concrete_values() {
    for n in 2i32..=25i32 {
        assert_eq!(fibonacci(n), fibonacci(n - 1) + fibonacci(n - 2));
    }
}

#[test]
fn fibonacci_tenth_value() {
    assert_eq!(fibonacci(10), 55);
}

#[test]
fn prime_rejects_negatives_zero_and_one() {
    assert!(!is_prime(-5));
    assert!(!is_prime(-1));
    assert!(!is_prime(0));
    assert!(!is_prime(1));
}

#[test]
fn prime_accepts_small_primes() {
    assert!(is_prime(2));
    assert!(is_prime(3));
    assert!(is_prime(5));
    assert!(is_prime(7));
    assert!(is_prime(11));
    assert!(is_prime(13));
}

#[test]
fn prime_rejects_small_composites() {
    assert!(!is_prime(4));
    assert!(!is_prime(6));
    assert!(!is_prime(8));
    assert!(!is_prime(9));
    assert!(!is_prime(100));
}

#[test]
fn prime_accepts_seventeen() {
    assert!(is_prime(17));
}

#[test]
fn prime_handles_perfect_squares() {
    assert!(!is_prime(25));
    assert!(!is_prime(49));
    assert!(!is_prime(46340 * 46340));
}

#[test]
fn prime_handles_largest_inputs() {
    assert!(is_prime(2147483647));
    assert!(!is_prime(2147483646));
}

#[test]
fn matrix_product_entries_equal_twice_the_size() {
    for size in [0usize, 1, 2, 5, 10] {
        let product = matrix_multiply(size);
        assert_eq!(product.len(), size * size);
        for entry in &product {
            assert_eq!(*entry, 2 * size as u64);
            assert_eq!(*entry as f64, 2.0 * size as f64);
        }
    }
}

#[test]
fn matrix_product_of_size_zero_is_empty() {
    assert!(matrix_multiply(0).is_empty());
}

#[test]
fn matrix_product_of_size_two() {
    let product = matrix_multiply(2);
    assert_eq!(product, vec![4u64, 4, 4, 4]);
    let as_floats: Vec<f64> = product.iter().map(|entry| *entry as f64).collect();
    assert_eq!(as_floats, vec![4.0f64, 4.0, 4.0, 4.0]);
}

//! Test suite for the Fibonacci library: known values, the agreement of
//! the two algorithms, the recurrence and monotonicity of the computed
//! sequence, the overflow boundary, and determinism.

use python_rust::checked_fibonacci_iterative;
use python_rust::checked_fibonacci_recursive;
use python_rust::fibonacci;
use python_rust::fibonacci_iterative;
use python_rust::fibonacci_recursive;
use python_rust::FibError;

#[test]
fn test_base_case_zero() {
    assert_eq!(fibonacci(0), 0);
}

#[test]
fn test_base_case_one() {
    assert_eq!(fibonacci(1), 1);
}

#[test]
fn test_known_value_10() {
    assert_eq!(fibonacci(10), 55);
}

#[test]
fn test_known_value_20() {
    assert_eq!(fibonacci(20), 6765);
}

#[test]
fn test_known_value_35() {
    assert_eq!(fibonacci(35), 9227465);
}

#[test]
fn test_maximum_safe_value() {
    assert_eq!(fibonacci(93), 12200160415121876738);
}

#[test]
fn test_iterative_known_values() {
    assert_eq!(fibonacci_iterative(0), 0);
    assert_eq!(fibonacci_iterative(1), 1);
    assert_eq!(fibonacci_iterative(10), 55);
    assert_eq!(fibonacci_iterative(20), 6765);
    assert_eq!(fibonacci_iterative(35), 9227465);
    assert_eq!(fibonacci_iterative(93), 12200160415121876738);
}

#[test]
fn test_recursive_known_values() {
    assert_eq!(fibonacci_recursive(0), 0);
    assert_eq!(fibonacci_recursive(1), 1);
    assert_eq!(fibonacci_recursive(10), 55);
    assert_eq!(fibonacci_recursive(20), 6765);
    assert_eq!(fibonacci_recursive(35), 9227465);
}

#[test]
fn test_iterative_matches_recursive() {
    // The recursive variant is exponential, so the comparison stops well
    // short of the overflow boundary.
    for n in 0..=30u32 {
        assert_eq!(fibonacci_iterative(n), fibonacci_recursive(n));
    }
}

#[test]
fn test_recurrence_law() {
    for n in 2..=93u32 {
        assert_eq!(
            fibonacci_iterative(n),
            fibonacci_iterative(n - 1) + fibonacci_iterative(n - 2)
        );
    }
}

#[test]
fn test_monotonic() {
    for n in 1..=93u32 {
        assert!(fibonacci_iterative(n) >= fibonacci_iterative(n - 1));
    }
}

#[test]
fn test_checked_in_range() {
    assert_eq!(checked_fibonacci_iterative(0), Ok(0));
    assert_eq!(checked_fibonacci_iterative(93), Ok(12200160415121876738));
    assert_eq!(checked_fibonacci_recursive(35), Ok(9227465));
}

#[test]
fn test_checked_out_of_range() {
    assert_eq!(checked_fibonacci_iterative(94), Err(FibError::OutOfRange));
    assert_eq!(checked_fibonacci_recursive(94), Err(FibError::OutOfRange));
    assert_eq!(checked_fibonacci_iterative(u32::MAX), Err(FibError::OutOfRange));
}

#[test]
fn test_idempotent() {
    assert_eq!(fibonacci_iterative(40), fibonacci_iterative(40));
    assert_eq!(fibonacci_recursive(25), fibonacci_recursive(25));
    assert_eq!(fibonacci(60), fibonacci(60));
    assert_eq!(
        checked_fibonacci_iterative(94),
        checked_fibonacci_iterative(94)
    );
}

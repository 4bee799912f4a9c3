use value_types::factorial::factorial;

#[test]
fn factorial_of_zero_and_one() {
    assert_eq!(factorial(0), 1);
    assert_eq!(factorial(1), 1);
}

#[test]
fn factorial_of_small_numbers() {
    assert_eq!(factorial(2), 2);
    assert_eq!(factorial(5), 120);
    assert_eq!(factorial(10), 3628800);
}

#[test]
fn largest_factorial_that_fits() {
    assert_eq!(factorial(12), 479001600);
}

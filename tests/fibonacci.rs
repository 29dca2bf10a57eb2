use hello_wasm::{fib_wasm, fibonacci, MAX_INDEX_U32, MAX_INDEX_U64};

#[test]
fn fibonacci_known_values() {
    assert_eq!(fibonacci(0), 0);
    assert_eq!(fibonacci(1), 1);
    assert_eq!(fibonacci(2), 1);
    assert_eq!(fibonacci(10), 55);
    assert_eq!(fibonacci(20), 6765);
}

#[test]
fn fibonacci_benchmark_index() {
    assert_eq!(fibonacci(35), 9227465);
}

#[test]
fn fibonacci_recurrence_holds() {
    for n in 2..=25u32 {
        assert_eq!(fibonacci(n), fibonacci(n - 1) + fibonacci(n - 2));
    }
}

#[test]
fn fibonacci_repeated_calls_agree() {
    for n in 0..=20u32 {
        assert_eq!(fibonacci(n), fibonacci(n));
    }
    assert_eq!(fibonacci(30), fibonacci(30));
}

#[test]
fn fib_wasm_known_values() {
    assert_eq!(fib_wasm(0), 0);
    assert_eq!(fib_wasm(1), 1);
    assert_eq!(fib_wasm(2), 1);
    assert_eq!(fib_wasm(10), 55);
    assert_eq!(fib_wasm(20), 6765);
}

#[test]
fn fib_wasm_recurrence_holds() {
    for n in 2..=25u32 {
        assert_eq!(fib_wasm(n), fib_wasm(n - 1) + fib_wasm(n - 2));
    }
}

#[test]
fn widths_agree() {
    for n in 0..=28u32 {
        assert_eq!(fib_wasm(n) as u64, fibonacci(n));
    }
}

#[test]
fn largest_indices() {
    assert_eq!(MAX_INDEX_U32, 47);
    assert_eq!(MAX_INDEX_U64, 93);
}

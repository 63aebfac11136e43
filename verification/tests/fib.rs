use rust_wasm::fib;

#[test]
fn fib_45_works() {
    assert_eq!(1134903170, fib(45));
}

#[test]
fn fib_0_works() {
    assert_eq!(0, fib(0));
}

#[test]
fn fib_1_works() {
    assert_eq!(1, fib(1));
}

#[test]
fn fib_small_values_exact() {
    assert_eq!(1, fib(2));
    assert_eq!(2, fib(3));
    assert_eq!(3, fib(4));
    assert_eq!(5, fib(5));
    assert_eq!(8, fib(6));
    assert_eq!(55, fib(10));
    assert_eq!(6765, fib(20));
}

#[test]
fn fib_recurrence_holds() {
    for n in 2i32..=25i32 {
        assert_eq!(fib(n), fib(n - 1) + fib(n - 2));
    }
}

#[test]
fn fib_negative_identity() {
    assert_eq!(-1, fib(-1));
    assert_eq!(-5, fib(-5));
    assert_eq!(-100, fib(-100));
}

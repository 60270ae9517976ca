use veritynet::p2p::decimal::render_decimal;
use veritynet::{core_hello, log_filter};

#[test]
fn it_works() {
    let _ = env_logger::builder().is_test(true).try_init();

    println!("Running test: it_works");
    let result = 2 + 2;
    assert_eq!(result, 4);
    core_hello();
    println!("Test completed successfully.");
}

#[test]
fn core_hello_gives_the_greeting() {
    assert_eq!(core_hello(), "Hello from VerityNet Core!");
}

#[test]
fn log_filter_defaults_to_info() {
    assert_eq!(log_filter(None), "info");
}

#[test]
fn log_filter_keeps_what_was_asked_for() {
    assert_eq!(log_filter(Some("debug")), "debug");
    assert_eq!(log_filter(Some("")), "");
}

#[test]
fn decimal_of_small_numbers() {
    assert_eq!(render_decimal(0), "0");
    assert_eq!(render_decimal(7), "7");
    assert_eq!(render_decimal(9), "9");
    assert_eq!(render_decimal(10), "10");
    assert_eq!(render_decimal(42), "42");
    assert_eq!(render_decimal(100), "100");
}

#[test]
fn decimal_of_large_numbers() {
    assert_eq!(render_decimal(65535), "65535");
    assert_eq!(render_decimal(4294967295), "4294967295");
    assert_eq!(render_decimal(u64::MAX), "18446744073709551615");
    assert_eq!(render_decimal(1234567890), "1234567890");
}

#[test]
fn decimal_agrees_with_the_standard_library() {
    let mut n: u64 = 1;
    for _ in 0..60 {
        assert_eq!(render_decimal(n), n.to_string());
        assert_eq!(render_decimal(n - 1), (n - 1).to_string());
        n = n.wrapping_mul(3).wrapping_add(1);
    }
}

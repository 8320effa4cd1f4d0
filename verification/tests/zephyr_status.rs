use std::time::Duration;

use rust_hello::zephyr::{
    c_string, log_record, status_to_result, status_to_value, timeout_ms, ChannelRef, LogLevel,
};

#[test]
fn zero_status_is_success() {
    assert_eq!(status_to_result(0), Ok(()));
}

#[test]
fn nonzero_status_is_error_with_code() {
    assert_eq!(status_to_result(-11), Err(-11));
    assert_eq!(status_to_result(-16), Err(-16));
    assert_eq!(status_to_result(1), Err(1));
    assert_eq!(status_to_result(i32::MIN), Err(i32::MIN));
}

#[test]
fn status_with_value() {
    assert_eq!(status_to_value(0, 42u64), Ok(42u64));
    assert_eq!(status_to_value(-11, 42u64), Err(-11));
    let r = ChannelRef { addr: 0x20 };
    assert_eq!(status_to_value(0, r), Ok(r));
    assert_eq!(status_to_value(-12, r), Err(-12));
}

#[test]
fn timeout_in_range_passes_unchanged() {
    assert_eq!(timeout_ms(0), 0);
    assert_eq!(timeout_ms(Duration::from_secs(1).as_millis()), 1000);
    assert_eq!(timeout_ms(Duration::from_millis(1000).as_millis()), 1000);
    assert_eq!(timeout_ms(Duration::from_secs(3).as_millis()), 3000);
    assert_eq!(timeout_ms(u32::MAX as u128), u32::MAX);
}

#[test]
fn timeout_out_of_range_is_truncated() {
    assert_eq!(timeout_ms(1u128 << 32), 0);
    assert_eq!(timeout_ms((1u128 << 32) + 5), 5);
    assert_eq!(timeout_ms(Duration::MAX.as_millis()), u32::MAX);
    assert_eq!(timeout_ms(u128::MAX), u32::MAX);
}

#[test]
fn log_level_numbers() {
    assert_eq!(LogLevel::Error.as_u8(), 1);
    assert_eq!(LogLevel::Wrn.as_u8(), 2);
    assert_eq!(LogLevel::Inf.as_u8(), 3);
    assert_eq!(LogLevel::Dbg.as_u8(), 4);
}

#[test]
fn c_string_appends_nul() {
    assert_eq!(c_string("abc"), Some(vec![b'a', b'b', b'c', 0]));
    assert_eq!(c_string(""), Some(vec![0]));
    assert_eq!(c_string("é"), Some(vec![0xc3, 0xa9, 0]));
}

#[test]
fn c_string_refuses_inner_nul() {
    assert_eq!(c_string("a\0b"), None);
    assert_eq!(c_string("\0"), None);
    assert_eq!(c_string("Product firmware v0.1.2\0"), None);
    assert_eq!(c_string("Rust listener sequence: %llu\n\0"), None);
}

#[test]
fn log_record_carries_level_and_text() {
    assert_eq!(
        log_record(LogLevel::Inf, "Rust thread started!"),
        Some((3, b"Rust thread started!\0".to_vec()))
    );
    assert_eq!(log_record(LogLevel::Error, "x"), Some((1, vec![b'x', 0])));
    assert_eq!(log_record(LogLevel::Wrn, "bad\0"), None);
}

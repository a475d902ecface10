use nucleo_h743zi::counter_log::{decimal_bytes, format_counter_line, CounterLog, COUNTER_MESSAGE};

#[test]
fn decimal_of_small_and_large_values() {
    assert_eq!(decimal_bytes(0), b"0".to_vec());
    assert_eq!(decimal_bytes(7), b"7".to_vec());
    assert_eq!(decimal_bytes(10), b"10".to_vec());
    assert_eq!(decimal_bytes(42), b"42".to_vec());
    assert_eq!(decimal_bytes(1_000_000), b"1000000".to_vec());
    assert_eq!(decimal_bytes(i32::MAX), b"2147483647".to_vec());
}

#[test]
fn decimal_of_negative_values() {
    assert_eq!(decimal_bytes(-7), b"-7".to_vec());
    assert_eq!(decimal_bytes(-120), b"-120".to_vec());
    assert_eq!(decimal_bytes(i32::MIN), b"-2147483648".to_vec());
}

#[test]
fn decimal_matches_display() {
    for n in [0, 1, 9, 99, 100, 12345, -1, -99999, i32::MIN, i32::MAX] {
        assert_eq!(decimal_bytes(n), n.to_string().into_bytes());
    }
}

#[test]
fn line_for_a_counter() {
    assert_eq!(format_counter_line(3), b"3: This is a very useful logger\n".to_vec());
    assert_eq!(COUNTER_MESSAGE, ": This is a very useful logger\n");
}

#[test]
fn demo_lines_count_up_from_zero() {
    let mut log = CounterLog::new();
    assert_eq!(log.counter, 0);
    assert_eq!(log.current_line(), b"0: This is a very useful logger\n".to_vec());
    log.advance();
    assert_eq!(log.current_line(), b"1: This is a very useful logger\n".to_vec());
    log.advance();
    assert_eq!(log.current_line(), b"2: This is a very useful logger\n".to_vec());
    log.advance();
    assert_eq!(log.counter, 3);
}

#[test]
fn demo_line_at_the_last_count() {
    let mut log = CounterLog { counter: i32::MAX - 1 };
    assert_eq!(log.current_line(), b"2147483646: This is a very useful logger\n".to_vec());
    log.advance();
    assert_eq!(log.counter, i32::MAX);
    assert_eq!(log.current_line(), b"2147483647: This is a very useful logger\n".to_vec());
}

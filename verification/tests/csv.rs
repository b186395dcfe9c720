use docker_activity::format::csv::{push_decimal, push_signed_decimal, CsvFormatter};
use docker_activity::model::Record;

fn record() -> Record {
    Record {
        container_id: "hello".to_string(),
        container_name: "world".to_string(),
        ts: 1234,
        pid_count: Some(12),
        pid_limit: Some(20),
        memory_usage: Some(14),
        memory_limit: None,
        cpu_delta: 89,
        system_delta: 100,
        cpu_factor: 1,
        cpu_count: 2,
        energy_delta: Some(23),
    }
}

fn decimal(n: u64) -> String {
    let mut out = String::new();
    push_decimal(&mut out, n);
    out
}

fn signed(n: i64) -> String {
    let mut out = String::new();
    push_signed_decimal(&mut out, n);
    out
}

#[test]
fn decimal_of_small_numbers() {
    assert_eq!(decimal(0), "0");
    assert_eq!(decimal(7), "7");
    assert_eq!(decimal(9), "9");
    assert_eq!(decimal(10), "10");
    assert_eq!(decimal(1234567890), "1234567890");
}

#[test]
fn decimal_of_the_largest_number() {
    assert_eq!(decimal(u64::MAX), "18446744073709551615");
}

#[test]
fn decimal_agrees_with_the_standard_rendering() {
    for n in [0u64, 1, 9, 10, 11, 99, 100, 101, 999, 1000, 65535, 4294967296] {
        assert_eq!(decimal(n), n.to_string());
    }
}

#[test]
fn decimal_is_appended_to_what_is_there() {
    let mut out = "n=".to_string();
    push_decimal(&mut out, 42);
    assert_eq!(out, "n=42");
}

#[test]
fn signed_decimal_of_negative_numbers() {
    assert_eq!(signed(-1), "-1");
    assert_eq!(signed(-1234), "-1234");
    assert_eq!(signed(0), "0");
    assert_eq!(signed(1234), "1234");
}

#[test]
fn signed_decimal_of_the_extremes() {
    assert_eq!(signed(i64::MIN), "-9223372036854775808");
    assert_eq!(signed(i64::MAX), "9223372036854775807");
}

#[test]
fn csv_line_has_the_ten_fields_in_order() {
    let line = CsvFormatter.format(&record(), "0.89", "0.2047");
    assert_eq!(
        line,
        Ok("hello,world,1234,12,20,14,0,0.89,2,0.2047".to_string())
    );
}

#[test]
fn csv_line_writes_missing_counts_as_zero() {
    let mut event = record();
    event.pid_count = None;
    event.pid_limit = None;
    event.memory_usage = None;
    event.memory_limit = None;
    let line = CsvFormatter.format(&event, "NaN", "0");
    assert_eq!(line, Ok("hello,world,1234,0,0,0,0,NaN,2,0".to_string()));
}

#[test]
fn csv_line_writes_a_negative_instant() {
    let mut event = record();
    event.ts = -5;
    let line = CsvFormatter.format(&event, "inf", "0");
    assert_eq!(line, Ok("hello,world,-5,12,20,14,0,inf,2,0".to_string()));
}

#[test]
fn csv_line_does_not_quote_texts() {
    let mut event = record();
    event.container_id = String::new();
    event.container_name = "a,b".to_string();
    let line = CsvFormatter.format(&event, "1", "2");
    assert_eq!(line, Ok(",a,b,1234,12,20,14,0,1,2,2".to_string()));
}

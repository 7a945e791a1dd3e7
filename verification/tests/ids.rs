use stud_bridge::ids::{decimal_string, format_request_id};

#[test]
fn decimal_writing_of_small_numbers() {
    assert_eq!(decimal_string(0), "0");
    assert_eq!(decimal_string(7), "7");
    assert_eq!(decimal_string(10), "10");
    assert_eq!(decimal_string(12345), "12345");
}

#[test]
fn decimal_writing_of_the_largest_value() {
    assert_eq!(decimal_string(u64::MAX), "18446744073709551615");
}

#[test]
fn request_id_layout() {
    assert_eq!(format_request_id(1, 1700000000000), "req_1_1700000000000");
    assert_eq!(format_request_id(42, 0), "req_42_0");
}

#[test]
fn distinct_counters_give_distinct_ids() {
    let a = format_request_id(1, 5);
    let b = format_request_id(2, 5);
    let c = format_request_id(12, 3);
    let d = format_request_id(1, 23);
    assert_ne!(a, b);
    assert_ne!(c, d);
}

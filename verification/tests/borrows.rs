use trisynk_demo::{consume_slice, increment};

#[test]
fn increments_forty_one() {
    assert_eq!(increment(41), 42);
}

#[test]
fn increments_small_values() {
    assert_eq!(increment(0), 1);
    assert_eq!(increment(-1), 0);
    assert_eq!(increment(-42), -41);
    assert_eq!(increment(i64::MIN), i64::MIN + 1);
    assert_eq!(increment(i64::MAX - 1), i64::MAX);
}

#[test]
fn increment_wraps_at_the_largest_value() {
    assert_eq!(increment(i64::MAX), i64::MIN);
}

#[test]
fn increment_leaves_the_callers_value() {
    let value = 41i64;
    let next = increment(value);
    assert_eq!(value, 41);
    assert_eq!(next, 42);
}

#[test]
fn counts_four_bytes() {
    let data = [1u8, 2, 3, 4];
    assert_eq!(consume_slice(&data), 4);
}

#[test]
fn counts_no_bytes() {
    let empty: [u8; 0] = [];
    assert_eq!(consume_slice(&empty), 0);
}

#[test]
fn counts_bytes_of_a_part_of_a_buffer() {
    let data: Vec<u8> = vec![9; 300];
    assert_eq!(consume_slice(&data), 300);
    assert_eq!(consume_slice(&data[10..25]), 15);
    assert_eq!(consume_slice(&data[300..]), 0);
}

#[test]
fn counting_leaves_the_bytes_in_place() {
    let data = vec![1u8, 2, 3, 4];
    let count = consume_slice(&data);
    assert_eq!(count, 4);
    assert_eq!(data, vec![1u8, 2, 3, 4]);
}

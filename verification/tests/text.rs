use mcp_manager::text::{decimal, join2, join3, join5};

#[test]
fn decimal_writes_single_digits() {
    assert_eq!(decimal(0), "0");
    assert_eq!(decimal(7), "7");
    assert_eq!(decimal(9), "9");
}

#[test]
fn decimal_writes_several_digits_without_leading_zeros() {
    assert_eq!(decimal(10), "10");
    assert_eq!(decimal(101), "101");
    assert_eq!(decimal(4096), "4096");
    assert_eq!(decimal(1234567890), "1234567890");
}

#[test]
fn decimal_writes_the_largest_number() {
    assert_eq!(decimal(u32::MAX), "4294967295");
}

#[test]
fn decimal_agrees_with_the_standard_formatting() {
    let mut n: u32 = 1;
    while n < 1_000_000_000 {
        assert_eq!(decimal(n), format!("{}", n));
        assert_eq!(decimal(n - 1), format!("{}", n - 1));
        n = n * 3 + 1;
    }
}

#[test]
fn parts_are_joined_in_order() {
    assert_eq!(join2("a", "b"), "ab");
    assert_eq!(join2("", ""), "");
    assert_eq!(join3("Server '", "echo", "' started"), "Server 'echo' started");
    assert_eq!(join5("1", "2", "3", "4", "5"), "12345");
}

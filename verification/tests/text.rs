use axumtest::text::{same_text, to_decimal};

#[test]
fn decimal_of_small_numbers() {
    for n in 0u64..10 {
        assert_eq!(to_decimal(n), format!("{}", n));
    }
}

#[test]
fn decimal_of_exact_values() {
    assert_eq!(to_decimal(0), "0");
    assert_eq!(to_decimal(10), "10");
    assert_eq!(to_decimal(99), "99");
    assert_eq!(to_decimal(100), "100");
    assert_eq!(to_decimal(1337), "1337");
    assert_eq!(to_decimal(1_000_000), "1000000");
    assert_eq!(to_decimal(9_007_199_254_740_993), "9007199254740993");
    assert_eq!(to_decimal(u64::MAX), "18446744073709551615");
}

#[test]
fn decimal_agrees_with_std_on_many_numbers() {
    let mut n: u64 = 1;
    for _ in 0..200 {
        assert_eq!(to_decimal(n), n.to_string());
        n = n.wrapping_mul(6364136223846793005).wrapping_add(1442695040888963407);
    }
}

#[test]
fn same_text_tells_equal_from_unequal() {
    assert!(same_text("", ""));
    assert!(same_text("GET", "GET"));
    assert!(same_text("/users", "/users"));
    assert!(same_text("héllo 😀", "héllo 😀"));
    assert!(!same_text("GET", "GE"));
    assert!(!same_text("GE", "GET"));
    assert!(!same_text("GET", "get"));
    assert!(!same_text("GET", "PUT"));
    assert!(!same_text("", " "));
    assert!(!same_text("é", "e"));
    assert!(!same_text("abc", "abd"));
    assert!(!same_text("xbc", "abc"));
}

use text_inject::text::{followed, decimal_string};

#[test]
fn decimal_of_small_numbers() {
    for (n, text) in [(0u32, "0"), (1, "1"), (7, "7"), (9, "9")] {
        assert_eq!(decimal_string(n), text);
    }
}

#[test]
fn decimal_has_no_leading_zeros() {
    for (n, text) in [(10u32, "10"), (99, "99"), (100, "100"), (1000, "1000"), (65534, "65534")] {
        assert_eq!(decimal_string(n), text);
    }
}

#[test]
fn decimal_of_the_largest_number() {
    assert_eq!(decimal_string(u32::MAX), "4294967295");
}

#[test]
fn decimal_agrees_with_the_standard_rendering() {
    let mut n: u32 = 1;
    for _ in 0..40 {
        assert_eq!(decimal_string(n), n.to_string());
        n = n.wrapping_mul(2654435761).wrapping_add(12345);
    }
}

#[test]
fn concat_puts_the_tail_after_the_head() {
    assert_eq!(followed("x11: ", "xdotool"), "x11: xdotool");
    assert_eq!(followed("", "tail"), "tail");
    assert_eq!(followed("head", ""), "head");
    assert_eq!(followed("", ""), "");
    assert_eq!(followed("é", "ü"), "éü");
}

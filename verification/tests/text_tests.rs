use dlm::progress_bars::message_progress_bar;
use dlm::text::{
    chars_of, contains_chars, find_first, find_last, find_last_occurrence,
    matches_at, parse_u64, push_decimal, same_chars, same_text, slice_of,
};
use dlm::utils::pretty_bytes_size;

#[test]
fn decimal_numbers_are_written() {
    let mut out = String::from("n=");
    push_decimal(&mut out, 0);
    assert_eq!(out, "n=0");
    for (n, text) in [(7u64, "7"), (10, "10"), (1024, "1024"), (u64::MAX, "18446744073709551615")] {
        let mut out = String::new();
        push_decimal(&mut out, n);
        assert_eq!(out, text);
    }
}

#[test]
fn decimal_numbers_are_read() {
    assert_eq!(parse_u64(&chars_of("0")), Some(0));
    assert_eq!(parse_u64(&chars_of("+0")), Some(0));
    assert_eq!(parse_u64(&chars_of("42")), Some(42));
    assert_eq!(parse_u64(&chars_of("18446744073709551615")), Some(u64::MAX));
    assert_eq!(parse_u64(&chars_of("18446744073709551616")), None);
    assert_eq!(parse_u64(&chars_of("99999999999999999999999")), None);
    assert_eq!(parse_u64(&chars_of("++1")), None);
    assert_eq!(parse_u64(&chars_of("1+")), None);
    assert_eq!(parse_u64(&chars_of("١٢")), None);
    assert_eq!(parse_u64(&chars_of("")), None);
}

#[test]
fn characters_are_found() {
    let v = chars_of("a.b.c?d.e");
    assert_eq!(find_first(&v, '.'), 1);
    assert_eq!(find_first(&v, '?'), 5);
    assert_eq!(find_first(&v, '!'), 9);
    assert_eq!(find_last(&v, 9, '.'), Some(7));
    assert_eq!(find_last(&v, 5, '.'), Some(3));
    assert_eq!(find_last(&v, 1, '.'), None);
    assert_eq!(find_last(&v, 0, 'a'), None);
    assert_eq!(slice_of(&v, 2, 5), chars_of("b.c"));
    assert_eq!(slice_of(&v, 4, 4), Vec::new());
}

#[test]
fn substrings_are_found() {
    let hay = chars_of("abcabcab");
    assert_eq!(find_last_occurrence(&hay, &chars_of("abc")), Some(3));
    assert_eq!(find_last_occurrence(&hay, &chars_of("ab")), Some(6));
    assert_eq!(find_last_occurrence(&hay, &chars_of("abcabcab")), Some(0));
    assert_eq!(find_last_occurrence(&hay, &chars_of("abcabcabc")), None);
    assert_eq!(find_last_occurrence(&hay, &chars_of("x")), None);
    assert_eq!(find_last_occurrence(&hay, &chars_of("")), Some(8));
    assert_eq!(find_last_occurrence(&chars_of(""), &chars_of("")), Some(0));
    assert!(contains_chars(&hay, &chars_of("cab")));
    assert!(!contains_chars(&hay, &chars_of("ba")));
    assert!(matches_at(&hay, &chars_of("cab"), 2));
    assert!(!matches_at(&hay, &chars_of("cab"), 3));
    assert!(!matches_at(&hay, &chars_of("ab"), 7));
    assert!(!matches_at(&hay, &chars_of("ab"), usize::MAX));
}

#[test]
fn texts_are_compared() {
    assert!(same_text("bytes", "bytes"));
    assert!(!same_text("bytes", "Bytes"));
    assert!(!same_text("bytes", "byte"));
    assert!(same_text("", ""));
    assert!(same_chars(&chars_of("é"), &chars_of("é")));
    assert!(!same_chars(&chars_of("a"), &chars_of("b")));
}

#[test]
fn sizes_are_shown_with_two_decimals() {
    assert_eq!(pretty_bytes_size(0), "0.00bytes");
    assert_eq!(pretty_bytes_size(6), "6.00bytes");
    assert_eq!(pretty_bytes_size(1024), "1024.00bytes");
    assert_eq!(pretty_bytes_size(1025), "1.00KiB");
    assert_eq!(pretty_bytes_size(1536), "1.50KiB");
    assert_eq!(pretty_bytes_size(2048), "2.00KiB");
    assert_eq!(pretty_bytes_size(1_048_576), "1024.00KiB");
    assert_eq!(pretty_bytes_size(1_048_577), "1.00MiB");
    assert_eq!(pretty_bytes_size(5 * 1_048_576 + 262_144), "5.25MiB");
    assert_eq!(pretty_bytes_size(1_073_741_824), "1024.00MiB");
    assert_eq!(pretty_bytes_size(1_073_741_825), "1.00GiB");
    assert_eq!(pretty_bytes_size(3 * 1_073_741_824), "3.00GiB");
    assert_eq!(pretty_bytes_size(u64::MAX), "17179869184.00GiB");
}

#[test]
fn sizes_are_rounded_to_the_nearest_hundredth() {
    // 1029 / 1024 = 1.00488...
    assert_eq!(pretty_bytes_size(1029), "1.00KiB");
    // 1030 / 1024 = 1.00585...
    assert_eq!(pretty_bytes_size(1030), "1.01KiB");
    // 2000 / 1024 = 1.953125
    assert_eq!(pretty_bytes_size(2000), "1.95KiB");
    // 1.125 and 1.375 lie halfway: the even hundredth is taken
    assert_eq!(pretty_bytes_size(1152), "1.12KiB");
    assert_eq!(pretty_bytes_size(1408), "1.38KiB");
    // 1.996... rounds up into the next whole number
    assert_eq!(pretty_bytes_size(2044), "2.00KiB");
}

#[test]
fn labels_have_a_fixed_width() {
    assert_eq!(message_progress_bar(""), " ".repeat(35));
    assert_eq!(message_progress_bar("pending"), format!("pending{}", " ".repeat(28)));
    let exact = "a".repeat(35);
    assert_eq!(message_progress_bar(&exact), exact);
    let long = "b".repeat(36);
    assert_eq!(message_progress_bar(&long), "b".repeat(35));
    assert_eq!(message_progress_bar("ééé").chars().count(), 35);
    let wide = "é".repeat(40);
    assert_eq!(message_progress_bar(&wide), "é".repeat(35));
}

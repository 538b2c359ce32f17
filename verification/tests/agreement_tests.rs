use dlm::headers::{parse_filename_header, ResponseHead};
use dlm::progress_bars::message_progress_bar;
use dlm::text::{chars_of, contains_chars, parse_u64, trimmed};
use dlm::utils::pretty_bytes_size;

fn head(status: u16) -> ResponseHead {
    ResponseHead {
        status,
        status_text: status.to_string(),
        content_length: None,
        accept_ranges: None,
        content_disposition: None,
        location: None,
    }
}

const TEXTS: [&str; 24] = [
    "",
    " ",
    "0",
    "+0",
    "-0",
    "00012",
    "12 ",
    " 12",
    "1_000",
    "18446744073709551615",
    "18446744073709551616",
    "+18446744073709551615",
    "٣",
    "1e3",
    "0x10",
    "\"a.txt\"",
    "attachment; filename=\"a.txt\"",
    "attachment; filename=\"a.txt\"; size=3",
    "inline; attachment; filename=\"b\"",
    "attachment; filename=attachment; filename=\"c\"",
    "\u{2003}wide space\u{3000}",
    "\t tabs\r\n",
    "\u{feff}mark",
    "\"",
];

#[test]
fn status_classes_agree_with_the_http_library() {
    for code in 100..=999u16 {
        let status = reqwest::StatusCode::from_u16(code).unwrap();
        assert_eq!(head(code).is_success(), status.is_success(), "{}", code);
        assert_eq!(head(code).is_redirection(), status.is_redirection(), "{}", code);
    }
}

#[test]
fn numbers_are_read_as_the_standard_library_reads_them() {
    for text in TEXTS {
        assert_eq!(parse_u64(&chars_of(text)), text.parse::<u64>().ok(), "{:?}", text);
    }
}

#[test]
fn trimming_agrees_with_the_standard_library() {
    for text in TEXTS {
        assert_eq!(trimmed(text), text.trim(), "{:?}", text);
    }
}

#[test]
fn substrings_are_found_as_the_standard_library_finds_them() {
    for hay in TEXTS {
        for needle in ["", "a", "12", "filename=", "attachment; filename=", "\"", "٣"] {
            assert_eq!(
                contains_chars(&chars_of(hay), &chars_of(needle)),
                hay.contains(needle),
                "{:?} in {:?}",
                needle,
                hay
            );
        }
    }
}

#[test]
fn header_file_name_is_the_quoted_end_of_the_last_piece() {
    for text in TEXTS {
        let expected = text
            .split("attachment; filename=")
            .last()
            .and_then(|s| s.strip_prefix('"'))
            .and_then(|s| s.strip_suffix('"'))
            .map(|s| s.to_string());
        assert_eq!(parse_filename_header(text.to_string()), expected, "{:?}", text);
    }
}

#[test]
fn labels_agree_with_padding_and_cutting_by_characters() {
    for text in TEXTS {
        let cut: String = text.chars().take(35).collect();
        let missing = 35 - cut.chars().count();
        assert_eq!(message_progress_bar(text), format!("{}{}", cut, " ".repeat(missing)));
    }
}

#[test]
fn sizes_agree_with_floating_point_formatting() {
    let kib = 1024.0f64;
    let mut sizes: Vec<u64> = (0..5000).collect();
    for shift in 10..53 {
        for delta in [0u64, 1, 2, 3, 5, 511, 512, 513, 1023] {
            sizes.push((1u64 << shift) + delta);
            sizes.push((1u64 << shift) - delta);
            sizes.push(3 * (1u64 << (shift - 2)) + delta);
        }
    }
    let mut seed = 0x2545F4914F6CDD1Du64;
    for _ in 0..20000 {
        seed ^= seed << 13;
        seed ^= seed >> 7;
        seed ^= seed << 17;
        sizes.push(seed >> 11);
        sizes.push(seed >> 30);
        sizes.push(seed >> 45);
    }
    for len in sizes {
        let float_len = len as f64;
        let expected = if float_len > kib * kib * kib {
            format!("{:.2}GiB", float_len / (kib * kib * kib))
        } else if float_len > kib * kib {
            format!("{:.2}MiB", float_len / (kib * kib))
        } else if float_len > kib {
            format!("{:.2}KiB", float_len / kib)
        } else {
            format!("{:.2}bytes", float_len)
        };
        assert_eq!(pretty_bytes_size(len), expected, "{}", len);
    }
}

use dlm::dlm_error::DlmError;
use dlm::file_link::{url_decode, FileLink};
use dlm::text::{char_is_whitespace, chars_of, string_of, trimmed};

#[test]
fn blank_url_is_refused() {
    for url in [" ", "\t\n", " \u{a0} "] {
        match FileLink::new(url.to_string()) {
            Err(DlmError::Other { message }) => {
                assert_eq!(message, "FileLink cannot be built from an empty URL")
            }
            _ => panic!("a blank URL should be refused"),
        }
    }
}

#[test]
fn trailing_slash_is_judged_on_the_trimmed_url() {
    match FileLink::new("  https://host/area51/ \n".to_string()) {
        Err(DlmError::Other { message }) => assert_eq!(
            message,
            "FileLink cannot be built with an invalid extension 'https://host/area51/'"
        ),
        _ => panic!("a URL that ends in a slash should be refused"),
    }
}

#[test]
fn url_is_kept_as_given() {
    let fl = FileLink::new("https://host/a.txt ".to_string()).unwrap();
    assert_eq!(fl.url, "https://host/a.txt ");
    assert_eq!(fl.filename_without_extension, "a");
    assert_eq!(fl.extension, Some("txt ".to_string()));
}

#[test]
fn concrete_filename_derivation() {
    let fl = FileLink::new("https://host/area51.txt".to_string()).unwrap();
    assert_eq!(fl.filename_without_extension, "area51");
    assert_eq!(fl.extension, Some("txt".to_string()));

    assert!(matches!(
        FileLink::new("https://host/area51/".to_string()),
        Err(DlmError::Other { .. })
    ));

    let fl = FileLink::new("https://host/search?q=1&fmt=json".to_string()).unwrap();
    assert_eq!(fl.extension, None);
    assert_eq!(fl.filename_without_extension, "search-q=1-fmt=json");

    let fl = FileLink::new("https://host/file.iso?id=123".to_string()).unwrap();
    assert_eq!(fl.extension, Some("iso".to_string()));
    assert_eq!(fl.filename_without_extension, "file");
}

#[test]
fn url_without_slash_is_its_own_last_segment() {
    let fl = FileLink::new("archive.tar.gz".to_string()).unwrap();
    assert_eq!(fl.filename_without_extension, "archive.tar");
    assert_eq!(fl.extension, Some("gz".to_string()));
}

#[test]
fn percent_escapes_are_decoded_before_the_split() {
    let fl = FileLink::new("https://host/my%20file%2Ebin".to_string()).unwrap();
    assert_eq!(fl.url, "https://host/my%20file%2Ebin");
    assert_eq!(fl.filename_without_extension, "my file");
    assert_eq!(fl.extension, Some("bin".to_string()));
    let fl = FileLink::new("https://host/a%2Fb.txt".to_string()).unwrap();
    assert_eq!(fl.filename_without_extension, "b");
}

#[test]
fn url_decode_values() {
    assert_eq!(url_decode("").unwrap(), "");
    assert_eq!(url_decode("plain").unwrap(), "plain");
    assert_eq!(url_decode("%41%62%7a%7A").unwrap(), "Abzz");
    assert_eq!(url_decode("a%20b%2fc").unwrap(), "a b/c");
    assert_eq!(url_decode("%C3%A9t%c3%a9").unwrap(), "été");
    assert_eq!(url_decode("%e2%82%ac").unwrap(), "€");
    assert_eq!(url_decode("été").unwrap(), "été");
    assert_eq!(url_decode("%00").unwrap(), "\0");
    assert_eq!(url_decode("%2525").unwrap(), "%25");
}

#[test]
fn malformed_percent_escape_is_a_failure() {
    for url in ["%", "%4", "abc%", "abc%4", "%zz", "%4g", "%g4", "%+f", "% 41", "%-1", "100%!"] {
        match url_decode(url) {
            Err(DlmError::UrlDecodeError { message }) => {
                assert_eq!(message, "a '%' is not followed by two hexadecimal digits")
            }
            _ => panic!("{:?} should not decode", url),
        }
        assert!(matches!(
            FileLink::new(format!("https://host/{}", url)),
            Err(DlmError::UrlDecodeError { .. })
        ));
    }
}

#[test]
fn escapes_that_are_not_utf8_are_a_failure() {
    match url_decode("%ff") {
        Err(DlmError::UrlDecodeError { message }) => {
            assert_eq!(message, "invalid utf-8 sequence of 1 bytes from index 0")
        }
        _ => panic!("a lone 0xff should not decode"),
    }
    match url_decode("ab%c3") {
        Err(DlmError::UrlDecodeError { message }) => {
            assert_eq!(message, "incomplete utf-8 byte sequence from index 2")
        }
        _ => panic!("a cut sequence should not decode"),
    }
    assert!(matches!(
        FileLink::new("https://host/%ed%a0%80.txt".to_string()),
        Err(DlmError::UrlDecodeError { .. })
    ));
}

#[test]
fn extension_ends_before_the_query() {
    let (ext, base) = FileLink::extract_extension_from_filename("a.tar.gz?x=1".to_string());
    assert_eq!(ext, Some("gz".to_string()));
    assert_eq!(base, "a.tar");
    let (ext, base) = FileLink::extract_extension_from_filename("a.b?c.d".to_string());
    assert_eq!(ext, Some("b".to_string()));
    assert_eq!(base, "a");
    let (ext, base) =
        FileLink::extract_extension_from_filename("atom-amd64.deb?s=1627025597&ext=.deb".to_string());
    assert_eq!(ext, Some("deb".to_string()));
    assert_eq!(base, "atom-amd64");
    let (ext, base) = FileLink::extract_extension_from_filename("a.b?c?d".to_string());
    assert_eq!(ext, Some("b".to_string()));
    assert_eq!(base, "a");
}

#[test]
fn dots_after_the_query_only() {
    let (ext, base) = FileLink::extract_extension_from_filename("search?file=a.txt".to_string());
    assert_eq!(ext, Some("txt".to_string()));
    assert_eq!(base, "search?file=a");
    let (ext, base) = FileLink::extract_extension_from_filename("get?f=a.txt?x".to_string());
    assert_eq!(ext, Some("txt".to_string()));
    assert_eq!(base, "get?f=a");
}

#[test]
fn names_at_the_edges() {
    assert_eq!(
        FileLink::extract_extension_from_filename(String::new()),
        (None, String::new())
    );
    assert_eq!(
        FileLink::extract_extension_from_filename(".".to_string()),
        (Some(String::new()), String::new())
    );
    assert_eq!(
        FileLink::extract_extension_from_filename(".bashrc".to_string()),
        (Some("bashrc".to_string()), String::new())
    );
    assert_eq!(
        FileLink::extract_extension_from_filename("name.".to_string()),
        (Some(String::new()), "name".to_string())
    );
    assert_eq!(
        FileLink::extract_extension_from_filename("a?b&c&d?e".to_string()),
        (None, "a-b-c-d-e".to_string())
    );
    assert_eq!(
        FileLink::extract_extension_from_filename("dépôt.données".to_string()),
        (Some("données".to_string()), "dépôt".to_string())
    );
}

#[test]
fn trimming_removes_white_space_at_both_ends() {
    assert_eq!(trimmed("  a b \t\n"), "a b");
    assert_eq!(trimmed("\u{2003}x\u{a0}"), "x");
    assert_eq!(trimmed("x"), "x");
    assert_eq!(trimmed("   "), "");
    assert_eq!(trimmed(""), "");
    assert_eq!(trimmed("_ _"), "_ _");
}

#[test]
fn strings_and_characters_convert_both_ways() {
    let v = chars_of("a€b");
    assert_eq!(v, vec!['a', '€', 'b']);
    assert_eq!(string_of(&v), "a€b");
    assert_eq!(string_of(&Vec::new()), "");
}

#[test]
fn white_space_is_what_unicode_says() {
    for code in 0..=0x10FFFFu32 {
        if let Some(c) = char::from_u32(code) {
            assert_eq!(char_is_whitespace(c), c.is_whitespace(), "U+{:04X}", code);
        }
    }
}

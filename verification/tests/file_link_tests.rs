use dlm::dlm_error::DlmError;
use dlm::file_link::FileLink;

#[test]
fn no_empty_string() {
    match FileLink::new("".to_string()) {
        Err(DlmError::Other { message }) => assert_eq!(
            message,
            "FileLink cannot be built from an empty URL".to_string()
        ),
        _ => assert_eq!(true, false),
    }
}

#[test]
fn happy_case() {
    let url = "https://www.google.com/area51.txt".to_string();
    match FileLink::new(url.clone()) {
        Ok(fl) => {
            assert_eq!(fl.url, url);
            assert_eq!(fl.filename_without_extension, "area51".to_string());
            assert_eq!(fl.extension, Some("txt".to_string()));
        }
        _ => assert_eq!(true, false),
    }
}

#[test]
fn trailing_slash() {
    let url = "https://www.google.com/area51/".to_string();
    match FileLink::new(url) {
        Err(DlmError::Other { message }) => assert_eq!(
            message,
            "FileLink cannot be built with an invalid extension 'https://www.google.com/area51/'".to_string()
        ),
        _ => assert_eq!(true, false),
    }
}

#[test]
fn no_extension() {
    let url = "https://www.google.com/area51".to_string();
    let fl = FileLink::new(url.clone()).unwrap();
    assert_eq!(fl.extension, None);
    assert_eq!(fl.filename_without_extension, "area51");
    assert_eq!(fl.url, url);
}

#[test]
fn no_extension_use_query_params() {
    let url = "https://oeis.org/search?q=id:A000001&fmt=json".to_string();
    let fl = FileLink::new(url.clone()).unwrap();
    assert_eq!(fl.extension, None);
    assert_eq!(
        fl.filename_without_extension,
        "search-q=id:A000001-fmt=json"
    );
    assert_eq!(fl.url, url);
}

#[test]
fn extract_extension_ok() {
    let (ext, filename) = FileLink::extract_extension_from_filename("area51.txt".to_string());
    assert_eq!(filename, "area51");
    assert_eq!(ext, Some("txt".to_string()));
}

#[test]
fn extract_extension_with_query_param() {
    let url =
        "https://releases.ubuntu.com/21.10/ubuntu-21.10-desktop-amd64.iso?id=123".to_string();
    let fl = FileLink::new(url.clone()).unwrap();
    assert_eq!(fl.extension, Some("iso".to_string()));
    assert_eq!(fl.filename_without_extension, "ubuntu-21.10-desktop-amd64");
    assert_eq!(fl.url, url);
}

#[test]
fn extract_extension_with_query_param_bis() {
    let url = "https://atom-installer.github.com/v1.58.0/atom-amd64.deb?s=1627025597&ext=.deb"
        .to_string();
    let fl = FileLink::new(url.clone()).unwrap();
    assert_eq!(fl.extension, Some("deb".to_string()));
    assert_eq!(fl.url, url);
}

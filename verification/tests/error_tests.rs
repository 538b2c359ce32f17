use dlm::dlm_error::DlmError;

#[test]
fn error_texts() {
    assert_eq!(DlmError::EmptyInputFile.to_text(), "the input file is empty");
    assert_eq!(DlmError::ConnectionClosed.to_text(), "connection closed");
    assert_eq!(DlmError::ConnectionTimeout.to_text(), "connection timeout");
    assert_eq!(DlmError::ResponseBodyError.to_text(), "response body error");
    assert_eq!(DlmError::DeadLineElapsedTimeout.to_text(), "deadline elapsed timeout");
    assert_eq!(
        DlmError::ResponseStatusNotSuccess { status_code: "404 Not Found".to_string() }.to_text(),
        "response status not success - \"404 Not Found\""
    );
    assert_eq!(
        DlmError::UrlDecodeError { message: "bad".to_string() }.to_text(),
        "URL decode error - \"bad\""
    );
    assert_eq!(
        DlmError::StdIoError { e: "disk full".to_string() }.to_text(),
        "standard I/O error - disk full"
    );
    assert_eq!(DlmError::TaskError { e: "panicked".to_string() }.to_text(), "task error - panicked");
    assert_eq!(
        DlmError::ChannelError { e: "closed".to_string() }.to_text(),
        "channel error - closed"
    );
    assert_eq!(
        DlmError::CliArgumentError { message: "'inputFile' does not exist".to_string() }.to_text(),
        "CLI argument error - \"'inputFile' does not exist\""
    );
    assert_eq!(
        DlmError::ClapError { e: "unknown flag".to_string() }.to_text(),
        "CLI argument error (unknown flag)"
    );
    assert_eq!(DlmError::ProgramInterrupted.to_text(), "Program interrupted");
    assert_eq!(DlmError::Other { message: "x".to_string() }.to_text(), "other error - \"x\"");
}

#[test]
fn quoted_text_is_escaped() {
    assert_eq!(
        DlmError::Other { message: "say \"hi\"\n".to_string() }.to_text(),
        "other error - \"say \\\"hi\\\"\\n\""
    );
}

#[test]
fn http_client_errors_are_told_apart_by_their_text() {
    assert!(matches!(
        DlmError::from_http_client_error(
            "request failed: error reading a body from connection: reset".to_string()
        ),
        DlmError::ResponseBodyError
    ));
    assert!(matches!(
        DlmError::from_http_client_error(
            "error sending request: connection closed before message completed".to_string()
        ),
        DlmError::ConnectionClosed
    ));
    assert!(matches!(
        DlmError::from_http_client_error(
            "error sending request: error trying to connect: operation timed out".to_string()
        ),
        DlmError::ConnectionTimeout
    ));
    match DlmError::from_http_client_error("builder error".to_string()) {
        DlmError::Other { message } => assert_eq!(message, "builder error"),
        _ => panic!("an unknown text should be kept as it is"),
    }
    match DlmError::from_http_client_error(String::new()) {
        DlmError::Other { message } => assert_eq!(message, ""),
        _ => panic!("an empty text should be kept as it is"),
    }
}

#[test]
fn body_error_is_looked_for_first() {
    let text = "connection closed before message completed; error reading a body from connection";
    assert!(matches!(
        DlmError::from_http_client_error(text.to_string()),
        DlmError::ResponseBodyError
    ));
}

//! The closed set of failures a download run can end in.

use crate::text::{chars_of, contains_chars};
use vstd::prelude::*;

verus! {

/// The text that Rust's `Debug` formatting gives for the string `s`: `s` in
/// double quotes, with its special characters escaped.
pub uninterp spec fn debug_quoted(s: Seq<char>) -> Seq<char>;

/// Binds the standard library's `Debug` formatting of a string slice; the
/// result is the named text [`debug_quoted`] of its characters.
#[verifier::external_body]
pub(crate) fn debug_quote(s: &str) -> (r: String)
    ensures
        r@ == debug_quoted(s@),
{
    format!("{:?}", s)
}

/// Why a run, or the download of one URL, failed.
///
/// Failures that come from the file system, the task runtime, the slot queue
/// or the command line carry the text of the underlying error.
#[derive(Debug)]
pub enum DlmError {
    EmptyInputFile,
    ConnectionClosed,
    ConnectionTimeout,
    ResponseBodyError,
    DeadLineElapsedTimeout,
    ResponseStatusNotSuccess { status_code: String },
    UrlDecodeError { message: String },
    StdIoError { e: String },
    TaskError { e: String },
    ChannelError { e: String },
    CliArgumentError { message: String },
    ClapError { e: String },
    ProgramInterrupted,
    Other { message: String },
}

/// A [`DlmError`] as a mathematical value.
pub enum DlmErrorView {
    EmptyInputFile,
    ConnectionClosed,
    ConnectionTimeout,
    ResponseBodyError,
    DeadLineElapsedTimeout,
    ResponseStatusNotSuccess { status_code: Seq<char> },
    UrlDecodeError { message: Seq<char> },
    StdIoError { e: Seq<char> },
    TaskError { e: Seq<char> },
    ChannelError { e: Seq<char> },
    CliArgumentError { message: Seq<char> },
    ClapError { e: Seq<char> },
    ProgramInterrupted,
    Other { message: Seq<char> },
}

impl View for DlmError {
    type V = DlmErrorView;

    open spec fn view(&self) -> DlmErrorView {
        match self {
            DlmError::EmptyInputFile => DlmErrorView::EmptyInputFile,
            DlmError::ConnectionClosed => DlmErrorView::ConnectionClosed,
            DlmError::ConnectionTimeout => DlmErrorView::ConnectionTimeout,
            DlmError::ResponseBodyError => DlmErrorView::ResponseBodyError,
            DlmError::DeadLineElapsedTimeout => DlmErrorView::DeadLineElapsedTimeout,
            DlmError::ResponseStatusNotSuccess { status_code } => DlmErrorView::ResponseStatusNotSuccess {
                status_code: status_code@,
            },
            DlmError::UrlDecodeError { message } => DlmErrorView::UrlDecodeError { message: message@ },
            DlmError::StdIoError { e } => DlmErrorView::StdIoError { e: e@ },
            DlmError::TaskError { e } => DlmErrorView::TaskError { e: e@ },
            DlmError::ChannelError { e } => DlmErrorView::ChannelError { e: e@ },
            DlmError::CliArgumentError { message } => DlmErrorView::CliArgumentError { message: message@ },
            DlmError::ClapError { e } => DlmErrorView::ClapError { e: e@ },
            DlmError::ProgramInterrupted => DlmErrorView::ProgramInterrupted,
            DlmError::Other { message } => DlmErrorView::Other { message: message@ },
        }
    }
}

impl DlmErrorView {
    /// The line that describes the failure to the user.
    pub open spec fn text(self) -> Seq<char> {
        match self {
            DlmErrorView::EmptyInputFile => "the input file is empty"@,
            DlmErrorView::ConnectionClosed => "connection closed"@,
            DlmErrorView::ConnectionTimeout => "connection timeout"@,
            DlmErrorView::ResponseBodyError => "response body error"@,
            DlmErrorView::DeadLineElapsedTimeout => "deadline elapsed timeout"@,
            DlmErrorView::ResponseStatusNotSuccess { status_code } => "response status not success - "@
                + debug_quoted(status_code),
            DlmErrorView::UrlDecodeError { message } => "URL decode error - "@ + debug_quoted(message),
            DlmErrorView::StdIoError { e } => "standard I/O error - "@ + e,
            DlmErrorView::TaskError { e } => "task error - "@ + e,
            DlmErrorView::ChannelError { e } => "channel error - "@ + e,
            DlmErrorView::CliArgumentError { message } => "CLI argument error - "@ + debug_quoted(
                message,
            ),
            DlmErrorView::ClapError { e } => "CLI argument error ("@ + e + ")"@,
            DlmErrorView::ProgramInterrupted => "Program interrupted"@,
            DlmErrorView::Other { message } => "other error - "@ + debug_quoted(message),
        }
    }

    /// The transient network conditions: the only failures worth another attempt.
    pub open spec fn is_network_error(self) -> bool {
        self is ConnectionClosed || self is ConnectionTimeout || self is ResponseBodyError
            || self is DeadLineElapsedTimeout
    }
}

/// How an HTTP client reports a response body that broke off.
pub open spec fn body_error_text() -> Seq<char> {
    "error reading a body from connection"@
}

/// How an HTTP client reports a connection that closed too early.
pub open spec fn connection_closed_text() -> Seq<char> {
    "connection closed before message completed"@
}

/// How an HTTP client reports a connection attempt that timed out.
pub open spec fn connection_timeout_text() -> Seq<char> {
    "error trying to connect: operation timed out"@
}

/// The failure that an HTTP client's error text stands for.
pub open spec fn http_client_failure(text: Seq<char>) -> DlmErrorView {
    if crate::text::has_substring(text, body_error_text()) {
        DlmErrorView::ResponseBodyError
    } else if crate::text::has_substring(text, connection_closed_text()) {
        DlmErrorView::ConnectionClosed
    } else if crate::text::has_substring(text, connection_timeout_text()) {
        DlmErrorView::ConnectionTimeout
    } else {
        DlmErrorView::Other { message: text }
    }
}

fn prefixed(prefix: &str, rest: &str) -> (r: String)
    ensures
        r@ == prefix@ + rest@,
{
    let mut out = prefix.to_owned();
    out.append(rest);
    out
}

impl DlmError {
    /// Tells the failure kind from the text of an HTTP client's error: the
    /// client gives no more structured signal than its message.
    pub fn from_http_client_error(e_string: String) -> (r: DlmError)
        ensures
            r@ == http_client_failure(e_string@),
    {
        let text = chars_of(e_string.as_str());
        if contains_chars(&text, &chars_of("error reading a body from connection")) {
            DlmError::ResponseBodyError
        } else if contains_chars(&text, &chars_of("connection closed before message completed")) {
            DlmError::ConnectionClosed
        } else if contains_chars(&text, &chars_of("error trying to connect: operation timed out")) {
            DlmError::ConnectionTimeout
        } else {
            DlmError::Other { message: e_string }
        }
    }

    /// Whether the failure is a transient network condition.
    pub fn is_network_error(&self) -> (r: bool)
        ensures
            r == self@.is_network_error(),
    {
        match self {
            DlmError::ConnectionClosed => true,
            DlmError::ConnectionTimeout => true,
            DlmError::ResponseBodyError => true,
            DlmError::DeadLineElapsedTimeout => true,
            _ => false,
        }
    }

    /// The line that describes the failure to the user.
    pub fn to_text(&self) -> (r: String)
        ensures
            r@ == self@.text(),
    {
        match self {
            DlmError::EmptyInputFile => "the input file is empty".to_owned(),
            DlmError::ConnectionClosed => "connection closed".to_owned(),
            DlmError::ConnectionTimeout => "connection timeout".to_owned(),
            DlmError::ResponseBodyError => "response body error".to_owned(),
            DlmError::DeadLineElapsedTimeout => "deadline elapsed timeout".to_owned(),
            DlmError::ResponseStatusNotSuccess { status_code } => prefixed(
                "response status not success - ",
                debug_quote(status_code.as_str()).as_str(),
            ),
            DlmError::UrlDecodeError { message } => prefixed(
                "URL decode error - ",
                debug_quote(message.as_str()).as_str(),
            ),
            DlmError::StdIoError { e } => prefixed("standard I/O error - ", e.as_str()),
            DlmError::TaskError { e } => prefixed("task error - ", e.as_str()),
            DlmError::ChannelError { e } => prefixed("channel error - ", e.as_str()),
            DlmError::CliArgumentError { message } => prefixed(
                "CLI argument error - ",
                debug_quote(message.as_str()).as_str(),
            ),
            DlmError::ClapError { e } => {
                let mut out = prefixed("CLI argument error (", e.as_str());
                out.append(")");
                out
            },
            DlmError::ProgramInterrupted => "Program interrupted".to_owned(),
            DlmError::Other { message } => prefixed("other error - ", debug_quote(message.as_str()).as_str()),
        }
    }
}

} // verus!

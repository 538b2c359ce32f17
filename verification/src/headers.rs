//! What the transfer protocol reads of an HTTP response.

use crate::dlm_error::{DlmError, DlmErrorView};
use crate::text::{
    chars_of, clone_text, find_last_occurrence, last_occurrence, parse_u64, parsed_u64, slice_of,
    string_of, text_of,
};
use vstd::prelude::*;

verus! {

/// An HTTP response without its body: the status, and the headers that the
/// transfer protocol reads, each as text if the response has it as text.
pub struct ResponseHead {
    /// The status code.
    pub status: u16,
    /// The status as shown in messages: code and reason.
    pub status_text: String,
    pub content_length: Option<String>,
    pub accept_ranges: Option<String>,
    pub content_disposition: Option<String>,
    pub location: Option<String>,
}

/// A [`ResponseHead`] as a mathematical value.
pub struct ResponseHeadView {
    pub status: u16,
    pub status_text: Seq<char>,
    pub content_length: Option<Seq<char>>,
    pub accept_ranges: Option<Seq<char>>,
    pub content_disposition: Option<Seq<char>>,
    pub location: Option<Seq<char>>,
}

impl View for ResponseHead {
    type V = ResponseHeadView;

    open spec fn view(&self) -> ResponseHeadView {
        ResponseHeadView {
            status: self.status,
            status_text: self.status_text@,
            content_length: text_of(self.content_length),
            accept_ranges: text_of(self.accept_ranges),
            content_disposition: text_of(self.content_disposition),
            location: text_of(self.location),
        }
    }
}

/// What precedes the file name in a `Content-Disposition` header.
pub open spec fn filename_marker() -> Seq<char> {
    "attachment; filename="@
}

/// What follows the last marker in a header value: the whole value where it
/// holds no marker.
pub open spec fn after_last_marker(value: Seq<char>) -> Seq<char> {
    let at = last_occurrence(value, filename_marker());
    if at < 0 {
        value
    } else {
        value.skip(at + filename_marker().len())
    }
}

/// The file name that a `Content-Disposition` header value gives: what
/// stands in double quotes after the last marker, if the value ends there.
pub open spec fn header_filename(value: Seq<char>) -> Option<Seq<char>> {
    let rest = after_last_marker(value);
    if rest.len() >= 2 && rest[0] == '"' && rest.last() == '"' {
        Some(rest.subrange(1, rest.len() - 1))
    } else {
        None
    }
}

impl ResponseHeadView {
    /// A status in the range 200 to 299.
    pub open spec fn is_success(self) -> bool {
        200 <= self.status < 300
    }

    /// A status in the range 300 to 399.
    pub open spec fn is_redirection(self) -> bool {
        300 <= self.status < 400
    }

    /// The size that the `Content-Length` header announces.
    pub open spec fn content_length_value(self) -> Option<u64> {
        match self.content_length {
            Some(text) => parsed_u64(text),
            None => None,
        }
    }

    /// The failure that stands for this response's status.
    pub open spec fn status_failure(self) -> DlmErrorView {
        DlmErrorView::ResponseStatusNotSuccess { status_code: self.status_text }
    }
}

impl ResponseHead {
    /// Whether the status is in the range 200 to 299.
    pub fn is_success(&self) -> (r: bool)
        ensures
            r == self@.is_success(),
    {
        200 <= self.status && self.status < 300
    }

    /// Whether the status is in the range 300 to 399.
    pub fn is_redirection(&self) -> (r: bool)
        ensures
            r == self@.is_redirection(),
    {
        300 <= self.status && self.status < 400
    }

    /// The size that the `Content-Length` header announces, if the header is
    /// there and holds a number.
    pub fn content_length_value(&self) -> (r: Option<u64>)
        ensures
            r == self@.content_length_value(),
    {
        match &self.content_length {
            Some(text) => parse_u64(&chars_of(text.as_str())),
            None => None,
        }
    }

    /// The value of the `Accept-Ranges` header.
    pub fn accept_ranges_value(&self) -> (r: Option<String>)
        ensures
            text_of(r) == self@.accept_ranges,
    {
        clone_text(&self.accept_ranges)
    }

    /// The value of the `Content-Disposition` header.
    pub fn content_disposition_value(&self) -> (r: Option<String>)
        ensures
            text_of(r) == self@.content_disposition,
    {
        clone_text(&self.content_disposition)
    }

    /// The value of the `Location` header.
    pub fn location_value(&self) -> (r: Option<String>)
        ensures
            text_of(r) == self@.location,
    {
        clone_text(&self.location)
    }

    /// The failure that stands for this response's status.
    pub fn status_failure(&self) -> (r: DlmError)
        ensures
            r@ == self@.status_failure(),
    {
        DlmError::ResponseStatusNotSuccess { status_code: self.status_text.clone() }
    }
}

/// Reads the file name out of a `Content-Disposition` header value.
pub fn parse_filename_header(content_disposition: String) -> (r: Option<String>)
    ensures
        text_of(r) == header_filename(content_disposition@),
{
    let value = chars_of(content_disposition.as_str());
    let marker = chars_of("attachment; filename=");
    let end: usize = value.len();
    let start: usize = match find_last_occurrence(&value, &marker) {
        Some(at) => {
            assert(at + marker@.len() <= end);
            at + marker.len()
        },
        None => 0,
    };
    let rest = slice_of(&value, start, end);
    assert(rest@ =~= after_last_marker(value@));
    if rest.len() >= 2 && rest[0] == '"' && rest[rest.len() - 1] == '"' {
        Some(string_of(&slice_of(&rest, 1, rest.len() - 1)))
    } else {
        None
    }
}

} // verus!

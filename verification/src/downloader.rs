//! The resumable transfer of one URL, as a state machine.
//!
//! The machine decides; its caller acts. [`download_link`] starts a transfer
//! and says what to do first. Whatever came of that is handed to
//! [`Download::step`] as an [`Event`], which answers with the next
//! [`Request`], until the request is [`Request::Finish`].

use crate::dlm_error::{DlmError, DlmErrorView};
use crate::file_link::{resolved, split_extension, FileLink, FileLinkView};
use crate::headers::{header_filename, parse_filename_header, ResponseHead, ResponseHeadView};
use crate::progress_bars::{message_progress_bar, padded_label};
use crate::text::{clone_text, decimal, push_decimal, same_text, text_of};
use crate::utils::{pretty_bytes_size, pretty_size};
use vstd::prelude::*;

verus! {

/// The extension of a file whose extension could not be found out.
pub open spec fn no_extension() -> Seq<char> {
    "NO_EXTENSION_FOUND"@
}

/// The only `Accept-Ranges` value with which a transfer can be resumed.
pub open spec fn range_unit() -> Seq<char> {
    "bytes"@
}

/// The `Range` header that asks for what is missing of a file of `total`
/// bytes, of which `existing` bytes are there.
pub open spec fn range_text(existing: u64, total: u64) -> Seq<char> {
    "bytes="@ + decimal(existing as nat) + "-"@ + decimal(total as nat)
}

/// The line logged when a partial file is there and cannot be resumed.
pub open spec fn overridden_text(tmp_name: Seq<char>, tmp_size: u64) -> Seq<char> {
    "Found part file "@ + tmp_name + " with size "@ + decimal(tmp_size as nat)
        + " but it will be overridden because the server does not support resuming the download (range bytes)"@
}

/// The line logged when a transfer starts that an interruption would lose.
pub open spec fn not_resumable_text(tmp_name: Seq<char>) -> Seq<char> {
    "The download of file "@ + tmp_name
        + " should not be interrupted because the server does not support resuming the download (range bytes)"@
}

/// The message of a transfer whose finished file was there already.
pub open spec fn skipped_text(name: Seq<char>, size: u64) -> Seq<char> {
    "Skipping "@ + name + " because the file is already completed ["@ + pretty_size(size) + "]"@
}

/// The message of a transfer that ran to its end.
pub open spec fn completed_text(name: Seq<char>, size: u64) -> Seq<char> {
    "Completed "@ + name + " ["@ + pretty_size(size) + "]"@
}

/// The line logged when a header names the file without an extension.
pub open spec fn header_without_extension_text(filename: Seq<char>, url: Seq<char>) -> Seq<char> {
    "Could not determine file extension based on header "@ + filename + " for "@ + url
}

/// The line logged when nothing names the extension of the file.
pub open spec fn placeholder_text(url: Seq<char>) -> Seq<char> {
    "Using placeholder file extension as it could not be determined for "@ + url
}

/// The failure of a transfer that was handed an event it did not wait for.
pub open spec fn unexpected_event_text() -> Seq<char> {
    "unexpected event"@
}

/// How the body of a file is asked for, given what is on disk already.
pub struct QueryRange {
    /// The `Range` header of the request: none to ask for the whole file.
    pub range: Option<String>,
    /// Where to set the progress bar, if it is to be moved.
    pub position: Option<u64>,
    /// A line to log.
    pub log: Option<String>,
}

/// A [`QueryRange`] as a mathematical value.
pub struct QueryRangeView {
    pub range: Option<Seq<char>>,
    pub position: Option<u64>,
    pub log: Option<Seq<char>>,
}

impl View for QueryRange {
    type V = QueryRangeView;

    open spec fn view(&self) -> QueryRangeView {
        QueryRangeView {
            range: text_of(self.range),
            position: self.position,
            log: text_of(self.log),
        }
    }
}

/// Whether a server that announced this size and this `Accept-Ranges` value
/// can be asked for a part of the file.
pub open spec fn resumable(content_length: Option<u64>, accept_ranges: Option<Seq<char>>) -> bool {
    accept_ranges == Some(range_unit()) && content_length is Some
}

/// The resume point.
///
/// With a partial file of `tmp_size` bytes and a server that can resume, the
/// missing range is asked for and the bar set to `tmp_size`. With a partial
/// file and a server that cannot, the whole file is asked for, the bar set to
/// zero and the loss logged. Without a partial file the whole file is asked
/// for, with a warning where the server announced no range support at all.
pub open spec fn query_range(
    content_length: Option<u64>,
    accept_ranges: Option<Seq<char>>,
    tmp_name: Seq<char>,
    tmp_size: Option<u64>,
) -> QueryRangeView {
    match tmp_size {
        Some(size) => if resumable(content_length, accept_ranges) {
            QueryRangeView {
                range: Some(range_text(size, content_length->0)),
                position: Some(size),
                log: None,
            }
        } else {
            QueryRangeView { range: None, position: Some(0), log: Some(overridden_text(tmp_name, size)) }
        },
        None => QueryRangeView {
            range: None,
            position: None,
            log: if accept_ranges is None {
                Some(not_resumable_text(tmp_name))
            } else {
                None
            },
        },
    }
}

/// Computes the resume point, as [`query_range`] says. `tmp_size` is the size
/// of the partial file at `tmp_name`, if there is one.
pub fn compute_query_range(
    content_length: Option<u64>,
    accept_ranges: &Option<String>,
    tmp_name: &str,
    tmp_size: Option<u64>,
) -> (r: QueryRange)
    ensures
        r@ == query_range(content_length, text_of(*accept_ranges), tmp_name@, tmp_size),
{
    match tmp_size {
        Some(size) => {
            let by_bytes = match accept_ranges {
                Some(unit) => same_text(unit.as_str(), "bytes"),
                None => false,
            };
            match content_length {
                Some(total) if by_bytes => {
                    let mut range = "bytes=".to_owned();
                    push_decimal(&mut range, size);
                    range.append("-");
                    push_decimal(&mut range, total);
                    QueryRange { range: Some(range), position: Some(size), log: None }
                },
                _ => {
                    let mut log = "Found part file ".to_owned();
                    log.append(tmp_name);
                    log.append(" with size ");
                    push_decimal(&mut log, size);
                    log.append(
                        " but it will be overridden because the server does not support resuming the download (range bytes)",
                    );
                    QueryRange { range: None, position: Some(0), log: Some(log) }
                },
            }
        },
        None => {
            let log = if accept_ranges.is_none() {
                let mut log = "The download of file ".to_owned();
                log.append(tmp_name);
                log.append(
                    " should not be interrupted because the server does not support resuming the download (range bytes)",
                );
                Some(log)
            } else {
                None
            };
            QueryRange { range: None, position: None, log }
        },
    }
}

/// What the announced size and range support of a file are, as far as the
/// response to the header-only probe tells: `None` where it announces a size
/// of zero, which servers do that answer such probes badly, and a request
/// for the body has to be asked instead.
pub open spec fn probed_capabilities(head: ResponseHeadView) -> Option<(Option<u64>, Option<Seq<char>>)> {
    match head.content_length_value() {
        Some(n) => if n == 0 {
            None
        } else {
            Some((Some(n), head.accept_ranges))
        },
        None => Some((None, None)),
    }
}

/// Reads size and range support off the response to the header-only probe,
/// as [`probed_capabilities`] says.
pub fn try_hard_to_extract_headers(head: &ResponseHead) -> (r: Option<(Option<u64>, Option<String>)>)
    ensures
        match r {
            Some((size, ranges)) => probed_capabilities(head@) == Some((size, text_of(ranges))),
            None => probed_capabilities(head@) is None,
        },
{
    match head.content_length_value() {
        Some(n) => if n == 0 {
            None
        } else {
            Some((Some(n), head.accept_ranges_value()))
        },
        None => Some((None, None)),
    }
}

/// What a transfer waits for.
#[derive(Clone, Copy, Debug, PartialEq, Eq, Structural)]
pub enum Step {
    /// The response to the request for headers that may name the file.
    Disposition,
    /// The response to the same request, redirects not followed.
    Location,
    /// The size of the finished file, if it is there.
    FinalFile,
    /// The response to the header-only probe.
    Probe,
    /// The response to the probe that asks for the body.
    Reprobe,
    /// The size of the partial file, if it is there.
    PartFile,
    /// The partial file to be opened.
    Open,
    /// The response that carries the file.
    Response,
    /// The next piece of the file.
    Chunk,
    /// The piece to be written and flushed.
    Write,
    /// The flush after an interruption.
    Interrupt,
    /// The flush after the last piece.
    LastFlush,
    /// The size of what was written.
    Measure,
    /// The partial file to be renamed.
    Rename,
    /// Nothing: the transfer is over.
    Done,
}

/// The state of one transfer.
pub struct Download {
    pub step: Step,
    pub url: String,
    pub output_dir: String,
    pub filename_without_extension: String,
    pub extension: String,
    pub content_length: Option<u64>,
    pub accept_ranges: Option<String>,
    pub range: Option<String>,
    /// The length of the piece being written; after the last piece, the size
    /// of the file.
    pub pending: u64,
}

/// A [`Download`] as a mathematical value.
pub struct DownloadView {
    pub step: Step,
    pub url: Seq<char>,
    pub output_dir: Seq<char>,
    pub filename_without_extension: Seq<char>,
    pub extension: Seq<char>,
    pub content_length: Option<u64>,
    pub accept_ranges: Option<Seq<char>>,
    pub range: Option<Seq<char>>,
    pub pending: u64,
}

impl View for Download {
    type V = DownloadView;

    open spec fn view(&self) -> DownloadView {
        DownloadView {
            step: self.step,
            url: self.url@,
            output_dir: self.output_dir@,
            filename_without_extension: self.filename_without_extension@,
            extension: self.extension@,
            content_length: self.content_length,
            accept_ranges: text_of(self.accept_ranges),
            range: text_of(self.range),
            pending: self.pending,
        }
    }
}

/// What came of the last request.
pub enum Event {
    /// The response to a `Head` or `Get` request arrived.
    Response(ResponseHead),
    /// The size of the file asked about, if it exists.
    FileSize(Option<u64>),
    /// A piece of the body arrived, of this length.
    Chunk(u64),
    /// The body has ended.
    EndOfBody,
    /// The stop signal came before the next piece.
    Interrupted,
    /// The request was carried out and has nothing to report.
    Completed,
    /// The request failed.
    Failed(DlmError),
}

/// An [`Event`] as a mathematical value.
pub enum EventView {
    Response(ResponseHeadView),
    FileSize(Option<u64>),
    Chunk(u64),
    EndOfBody,
    Interrupted,
    Completed,
    Failed(DlmErrorView),
}

impl View for Event {
    type V = EventView;

    open spec fn view(&self) -> EventView {
        match self {
            Event::Response(head) => EventView::Response(head@),
            Event::FileSize(size) => EventView::FileSize(*size),
            Event::Chunk(len) => EventView::Chunk(*len),
            Event::EndOfBody => EventView::EndOfBody,
            Event::Interrupted => EventView::Interrupted,
            Event::Completed => EventView::Completed,
            Event::Failed(e) => EventView::Failed(e@),
        }
    }
}

/// What the caller is to do next.
pub enum Request {
    /// Send a header-only request and report the response.
    Head { url: String, follow_redirects: bool },
    /// Send a request for the body, with this `Range` header if there is
    /// one, and report the response.
    Get { url: String, range: Option<String> },
    /// Report the size of the file at `path`, if it exists.
    FileSize { path: String },
    /// Open the partial file: at its end if `append`, else created anew and
    /// empty.
    OpenPart { path: String, append: bool },
    /// Wait for the next piece of the body or the stop signal, whichever
    /// comes first, and no longer than the timeout.
    NextChunk,
    /// Write the piece to the partial file and flush it.
    WriteChunk,
    /// Flush the partial file.
    Flush,
    /// Rename the partial file to the finished file.
    Rename { from: String, to: String },
    /// Nothing more: the transfer ended with this message or failure.
    Finish(Result<String, DlmError>),
}

/// A [`Request`] as a mathematical value.
pub enum RequestView {
    Head { url: Seq<char>, follow_redirects: bool },
    Get { url: Seq<char>, range: Option<Seq<char>> },
    FileSize { path: Seq<char> },
    OpenPart { path: Seq<char>, append: bool },
    NextChunk,
    WriteChunk,
    Flush,
    Rename { from: Seq<char>, to: Seq<char> },
    Finish(Result<Seq<char>, DlmErrorView>),
}

/// The outcome of a transfer as a mathematical value.
pub open spec fn outcome_view(outcome: Result<String, DlmError>) -> Result<Seq<char>, DlmErrorView> {
    match outcome {
        Ok(message) => Ok(message@),
        Err(e) => Err(e@),
    }
}

impl View for Request {
    type V = RequestView;

    open spec fn view(&self) -> RequestView {
        match self {
            Request::Head { url, follow_redirects } => RequestView::Head {
                url: url@,
                follow_redirects: *follow_redirects,
            },
            Request::Get { url, range } => RequestView::Get { url: url@, range: text_of(*range) },
            Request::FileSize { path } => RequestView::FileSize { path: path@ },
            Request::OpenPart { path, append } => RequestView::OpenPart { path: path@, append: *append },
            Request::NextChunk => RequestView::NextChunk,
            Request::WriteChunk => RequestView::WriteChunk,
            Request::Flush => RequestView::Flush,
            Request::Rename { from, to } => RequestView::Rename { from: from@, to: to@ },
            Request::Finish(outcome) => RequestView::Finish(outcome_view(*outcome)),
        }
    }
}

impl RequestView {
    /// Whether the request goes to the network.
    pub open spec fn is_network(self) -> bool {
        self is Head || self is Get
    }

    /// Whether the request changes what a file holds, or its name.
    pub open spec fn changes_files(self) -> bool {
        self is OpenPart || self is WriteChunk || self is Rename
    }
}

/// What a step of a transfer asks of its caller: lines and progress to show,
/// then one request.
pub struct Reaction {
    /// A line to print above the progress bars.
    pub log: Option<String>,
    /// The label to put on the transfer's progress bar.
    pub message: Option<String>,
    /// The length to give the progress bar.
    pub length: Option<u64>,
    /// The position to set the progress bar to.
    pub position: Option<u64>,
    /// By how much to advance the progress bar.
    pub advance: u64,
    pub request: Request,
}

/// A [`Reaction`] as a mathematical value.
pub struct ReactionView {
    pub log: Option<Seq<char>>,
    pub message: Option<Seq<char>>,
    pub length: Option<u64>,
    pub position: Option<u64>,
    pub advance: u64,
    pub request: RequestView,
}

impl View for Reaction {
    type V = ReactionView;

    open spec fn view(&self) -> ReactionView {
        ReactionView {
            log: text_of(self.log),
            message: text_of(self.message),
            length: self.length,
            position: self.position,
            advance: self.advance,
            request: self.request@,
        }
    }
}

/// A reaction that shows nothing.
pub open spec fn quiet(request: RequestView) -> ReactionView {
    ReactionView { log: None, message: None, length: None, position: None, advance: 0, request }
}

impl DownloadView {
    /// The name of the finished file.
    pub open spec fn final_name(self) -> Seq<char> {
        self.filename_without_extension + "."@ + self.extension
    }

    /// The path of the finished file.
    pub open spec fn final_path(self) -> Seq<char> {
        self.output_dir + "/"@ + self.final_name()
    }

    /// The path of the partial file.
    pub open spec fn part_path(self) -> Seq<char> {
        self.output_dir + "/"@ + self.filename_without_extension + ".part"@
    }

    /// The same transfer at another step.
    pub open spec fn at(self, step: Step) -> DownloadView {
        DownloadView { step, ..self }
    }

    /// The transfer ends.
    pub open spec fn finished(self, outcome: Result<Seq<char>, DlmErrorView>) -> (DownloadView, ReactionView) {
        (self.at(Step::Done), quiet(RequestView::Finish(outcome)))
    }

    /// An event came that the transfer was not waiting for.
    pub open spec fn unexpected(self) -> (DownloadView, ReactionView) {
        self.finished(Err(DlmErrorView::Other { message: unexpected_event_text() }))
    }

    /// The file's name is known: next, see whether the finished file is there.
    pub open spec fn named(self, extension: Seq<char>, basename: Seq<char>, log: Option<Seq<char>>) -> (
        DownloadView,
        ReactionView,
    ) {
        let next = DownloadView {
            step: Step::FinalFile,
            extension,
            filename_without_extension: basename,
            ..self
        };
        (next, ReactionView { log, ..quiet(RequestView::FileSize { path: next.final_path() }) })
    }

    /// No extension was found: the placeholder stands for it.
    pub open spec fn with_placeholder(self) -> (DownloadView, ReactionView) {
        self.named(no_extension(), self.filename_without_extension, Some(placeholder_text(self.url)))
    }

    /// A header named the file.
    pub open spec fn named_by_header(self, filename: Seq<char>) -> (DownloadView, ReactionView) {
        let (extension, basename) = split_extension(filename);
        match extension {
            Some(extension) => self.named(extension, basename, None),
            None => self.named(
                no_extension(),
                self.filename_without_extension,
                Some(header_without_extension_text(basename, self.url)),
            ),
        }
    }

    /// No header named the file: next, see whether the URL redirects.
    pub open spec fn ask_location(self) -> (DownloadView, ReactionView) {
        (
            self.at(Step::Location),
            quiet(RequestView::Head { url: self.url, follow_redirects: false }),
        )
    }

    /// The answer to the request for headers that may name the file: a
    /// status that is no success ends the transfer; a `Content-Disposition`
    /// header that holds a file name gives the name; else the URL is asked
    /// once more, redirects not followed.
    pub open spec fn after_disposition(self, head: ResponseHeadView) -> (DownloadView, ReactionView) {
        if !head.is_success() {
            self.finished(Err(head.status_failure()))
        } else {
            match head.content_disposition {
                Some(value) => match header_filename(value) {
                    Some(filename) => self.named_by_header(filename),
                    None => self.ask_location(),
                },
                None => self.ask_location(),
            }
        }
    }

    /// The answer to the request that follows no redirect: where it is a
    /// redirect with a `Location` header, that location is resolved as a URL
    /// and names the file; else the placeholder stands for the extension.
    pub open spec fn after_location(self, head: ResponseHeadView) -> (DownloadView, ReactionView) {
        if head.is_redirection() && head.location is Some {
            match resolved(head.location->0) {
                Err(e) => self.finished(Err(e)),
                Ok(link) => match link.extension {
                    Some(extension) => self.named(extension, link.filename_without_extension, None),
                    None => self.named(no_extension(), link.filename_without_extension, None),
                },
            }
        } else {
            self.with_placeholder()
        }
    }

    /// Size and range support are known: next, see whether a partial file is
    /// there.
    pub open spec fn probed(self, content_length: Option<u64>, accept_ranges: Option<Seq<char>>) -> (
        DownloadView,
        ReactionView,
    ) {
        let next = DownloadView { step: Step::PartFile, content_length, accept_ranges, ..self };
        (
            next,
            ReactionView {
                message: Some(padded_label(next.final_name())),
                length: content_length,
                ..quiet(RequestView::FileSize { path: next.part_path() })
            },
        )
    }

    /// The answer to the header-only probe: a status that is no success ends
    /// the transfer; an announced size of zero makes the body be asked for,
    /// for its headers; else size and range support are taken from it.
    pub open spec fn after_probe(self, head: ResponseHeadView) -> (DownloadView, ReactionView) {
        if !head.is_success() {
            self.finished(Err(head.status_failure()))
        } else {
            match probed_capabilities(head) {
                Some((content_length, accept_ranges)) => self.probed(content_length, accept_ranges),
                None => (self.at(Step::Reprobe), quiet(RequestView::Get { url: self.url, range: None })),
            }
        }
    }

    /// The size of the partial file, if there is one, decides how the body is
    /// asked for and how the partial file is opened: at its end to resume,
    /// else anew and empty.
    pub open spec fn after_part_file(self, tmp_size: Option<u64>) -> (DownloadView, ReactionView) {
        let plan = query_range(self.content_length, self.accept_ranges, self.part_path(), tmp_size);
        (
            DownloadView { step: Step::Open, range: plan.range, ..self },
            ReactionView {
                log: plan.log,
                position: plan.position,
                ..quiet(RequestView::OpenPart { path: self.part_path(), append: plan.range is Some })
            },
        )
    }

    /// The answer that carries the body: a status that is no success ends
    /// the transfer; else the pieces of the body are waited for.
    pub open spec fn after_response(self, head: ResponseHeadView) -> (DownloadView, ReactionView) {
        if !head.is_success() {
            self.finished(Err(head.status_failure()))
        } else {
            (self.at(Step::Chunk), quiet(RequestView::NextChunk))
        }
    }

    /// The next state of a transfer, and what it asks of its caller, when
    /// `event` comes in this state.
    ///
    /// A failed request ends the transfer with that failure, in every state.
    /// An event that the state does not wait for ends it too.
    pub open spec fn transition(self, event: EventView) -> (DownloadView, ReactionView) {
        match event {
            EventView::Failed(e) => self.finished(Err(e)),
            EventView::Response(head) => match self.step {
                Step::Disposition => self.after_disposition(head),
                Step::Location => self.after_location(head),
                Step::Probe => self.after_probe(head),
                Step::Reprobe => self.probed(head.content_length_value(), head.accept_ranges),
                Step::Response => self.after_response(head),
                _ => self.unexpected(),
            },
            EventView::FileSize(size) => match self.step {
                Step::FinalFile => match size {
                    Some(size) => self.finished(Ok(skipped_text(self.final_name(), size))),
                    None => (
                        self.at(Step::Probe),
                        quiet(RequestView::Head { url: self.url, follow_redirects: true }),
                    ),
                },
                Step::PartFile => self.after_part_file(size),
                Step::Measure => match size {
                    Some(size) => (
                        DownloadView { step: Step::Rename, pending: size, ..self },
                        quiet(RequestView::Rename { from: self.part_path(), to: self.final_path() }),
                    ),
                    None => self.unexpected(),
                },
                _ => self.unexpected(),
            },
            EventView::Chunk(len) => match self.step {
                Step::Chunk => (
                    DownloadView { step: Step::Write, pending: len, ..self },
                    quiet(RequestView::WriteChunk),
                ),
                _ => self.unexpected(),
            },
            EventView::EndOfBody => match self.step {
                Step::Chunk => (self.at(Step::LastFlush), quiet(RequestView::Flush)),
                _ => self.unexpected(),
            },
            EventView::Interrupted => match self.step {
                Step::Chunk => (self.at(Step::Interrupt), quiet(RequestView::Flush)),
                _ => self.unexpected(),
            },
            EventView::Completed => match self.step {
                Step::Open => (self.at(Step::Response), quiet(RequestView::Get { url: self.url, range: self.range })),
                Step::Write => (
                    self.at(Step::Chunk),
                    ReactionView { advance: self.pending, ..quiet(RequestView::NextChunk) },
                ),
                Step::Interrupt => self.finished(Err(DlmErrorView::ProgramInterrupted)),
                Step::LastFlush => (self.at(Step::Measure), quiet(RequestView::FileSize { path: self.part_path() })),
                Step::Rename => self.finished(Ok(completed_text(self.final_name(), self.pending))),
                _ => self.unexpected(),
            },
        }
    }
}

/// The state in which a transfer of `url` starts.
pub open spec fn initial(link: FileLinkView, output_dir: Seq<char>) -> DownloadView {
    DownloadView {
        step: Step::Disposition,
        url: link.url,
        output_dir,
        filename_without_extension: link.filename_without_extension,
        extension: Seq::empty(),
        content_length: None,
        accept_ranges: None,
        range: None,
        pending: 0,
    }
}

/// How the transfer of the URL `raw_link` into `output_dir` starts.
///
/// A URL that resolves to no target ends it at once. A URL that shows its
/// extension goes straight to the question whether the finished file is
/// there; for another, the server is asked for headers that name the file.
pub open spec fn started(raw_link: Seq<char>, output_dir: Seq<char>) -> (DownloadView, ReactionView) {
    match resolved(raw_link) {
        Err(e) => initial(
            FileLinkView { url: raw_link, filename_without_extension: Seq::empty(), extension: None },
            output_dir,
        ).finished(Err(e)),
        Ok(link) => match link.extension {
            Some(extension) => initial(link, output_dir).named(
                extension,
                link.filename_without_extension,
                None,
            ),
            None => (
                initial(link, output_dir),
                quiet(RequestView::Head { url: link.url, follow_redirects: true }),
            ),
        },
    }
}


fn quietly(request: Request) -> (r: Reaction)
    ensures
        r@ == quiet(request@),
{
    Reaction { log: None, message: None, length: None, position: None, advance: 0, request }
}

impl Download {
    /// The name of the finished file.
    pub fn final_name(&self) -> (r: String)
        ensures
            r@ == self@.final_name(),
    {
        let mut name = self.filename_without_extension.clone();
        name.append(".");
        name.append(self.extension.as_str());
        name
    }

    /// The path of the finished file.
    pub fn final_path(&self) -> (r: String)
        ensures
            r@ == self@.final_path(),
    {
        let mut path = self.output_dir.clone();
        path.append("/");
        path.append(self.final_name().as_str());
        path
    }

    /// The path of the partial file.
    pub fn part_path(&self) -> (r: String)
        ensures
            r@ == self@.part_path(),
    {
        let mut path = self.output_dir.clone();
        path.append("/");
        path.append(self.filename_without_extension.as_str());
        path.append(".part");
        path
    }

    /// Whether the transfer is over.
    pub fn is_done(&self) -> (r: bool)
        ensures
            r == (self@.step == Step::Done),
    {
        self.step == Step::Done
    }

    fn at(self, step: Step) -> (r: Download)
        ensures
            r@ == self@.at(step),
    {
        Download { step, ..self }
    }

    fn finished(self, outcome: Result<String, DlmError>) -> (r: (Download, Reaction))
        ensures
            (r.0@, r.1@) == self@.finished(outcome_view(outcome)),
    {
        (self.at(Step::Done), quietly(Request::Finish(outcome)))
    }

    fn unexpected(self) -> (r: (Download, Reaction))
        ensures
            (r.0@, r.1@) == self@.unexpected(),
    {
        self.finished(Err(DlmError::Other { message: "unexpected event".to_owned() }))
    }

    fn named(self, extension: String, basename: String, log: Option<String>) -> (r: (Download, Reaction))
        ensures
            (r.0@, r.1@) == self@.named(extension@, basename@, text_of(log)),
    {
        let next = Download { step: Step::FinalFile, extension, filename_without_extension: basename, ..self };
        let path = next.final_path();
        (next, Reaction { log, ..quietly(Request::FileSize { path }) })
    }

    fn with_placeholder(self) -> (r: (Download, Reaction))
        ensures
            (r.0@, r.1@) == self@.with_placeholder(),
    {
        let mut log = "Using placeholder file extension as it could not be determined for ".to_owned();
        log.append(self.url.as_str());
        let basename = self.filename_without_extension.clone();
        self.named("NO_EXTENSION_FOUND".to_owned(), basename, Some(log))
    }

    fn named_by_header(self, filename: String) -> (r: (Download, Reaction))
        ensures
            (r.0@, r.1@) == self@.named_by_header(filename@),
    {
        let (extension, basename) = FileLink::extract_extension_from_filename(filename);
        match extension {
            Some(extension) => self.named(extension, basename, None),
            None => {
                let mut log = "Could not determine file extension based on header ".to_owned();
                log.append(basename.as_str());
                log.append(" for ");
                log.append(self.url.as_str());
                let kept = self.filename_without_extension.clone();
                self.named("NO_EXTENSION_FOUND".to_owned(), kept, Some(log))
            },
        }
    }

    fn ask_location(self) -> (r: (Download, Reaction))
        ensures
            (r.0@, r.1@) == self@.ask_location(),
    {
        let url = self.url.clone();
        (self.at(Step::Location), quietly(Request::Head { url, follow_redirects: false }))
    }

    fn after_disposition(self, head: ResponseHead) -> (r: (Download, Reaction))
        ensures
            (r.0@, r.1@) == self@.after_disposition(head@),
    {
        if !head.is_success() {
            let failure = head.status_failure();
            self.finished(Err(failure))
        } else {
            match head.content_disposition {
                Some(value) => match parse_filename_header(value) {
                    Some(filename) => self.named_by_header(filename),
                    None => self.ask_location(),
                },
                None => self.ask_location(),
            }
        }
    }

    fn after_location(self, head: ResponseHead) -> (r: (Download, Reaction))
        ensures
            (r.0@, r.1@) == self@.after_location(head@),
    {
        let redirected = head.is_redirection();
        match head.location {
            Some(location) if redirected => match FileLink::new(location) {
                Err(e) => self.finished(Err(e)),
                Ok(link) => match link.extension {
                    Some(extension) => self.named(extension, link.filename_without_extension, None),
                    None => self.named(
                        "NO_EXTENSION_FOUND".to_owned(),
                        link.filename_without_extension,
                        None,
                    ),
                },
            },
            _ => self.with_placeholder(),
        }
    }

    fn probed(self, content_length: Option<u64>, accept_ranges: Option<String>) -> (r: (Download, Reaction))
        ensures
            (r.0@, r.1@) == self@.probed(content_length, text_of(accept_ranges)),
    {
        let next = Download { step: Step::PartFile, content_length, accept_ranges, ..self };
        let message = message_progress_bar(next.final_name().as_str());
        let path = next.part_path();
        (
            next,
            Reaction { message: Some(message), length: content_length, ..quietly(Request::FileSize { path }) },
        )
    }

    fn after_probe(self, head: ResponseHead) -> (r: (Download, Reaction))
        ensures
            (r.0@, r.1@) == self@.after_probe(head@),
    {
        if !head.is_success() {
            let failure = head.status_failure();
            self.finished(Err(failure))
        } else {
            match try_hard_to_extract_headers(&head) {
                Some((content_length, accept_ranges)) => self.probed(content_length, accept_ranges),
                None => {
                    let url = self.url.clone();
                    (self.at(Step::Reprobe), quietly(Request::Get { url, range: None }))
                },
            }
        }
    }

    fn after_part_file(self, tmp_size: Option<u64>) -> (r: (Download, Reaction))
        ensures
            (r.0@, r.1@) == self@.after_part_file(tmp_size),
    {
        let path = self.part_path();
        let plan = compute_query_range(self.content_length, &self.accept_ranges, path.as_str(), tmp_size);
        let append = plan.range.is_some();
        (
            Download { step: Step::Open, range: plan.range, ..self },
            Reaction {
                log: plan.log,
                position: plan.position,
                ..quietly(Request::OpenPart { path, append })
            },
        )
    }

    fn after_response(self, head: ResponseHead) -> (r: (Download, Reaction))
        ensures
            (r.0@, r.1@) == self@.after_response(head@),
    {
        if !head.is_success() {
            let failure = head.status_failure();
            self.finished(Err(failure))
        } else {
            (self.at(Step::Chunk), quietly(Request::NextChunk))
        }
    }

    /// Takes what came of the last request, and says what to do next, as
    /// [`DownloadView::transition`] lays down.
    pub fn step(self, event: Event) -> (r: (Download, Reaction))
        ensures
            (r.0@, r.1@) == self@.transition(event@),
    {
        match event {
            Event::Failed(e) => self.finished(Err(e)),
            Event::Response(head) => match self.step {
                Step::Disposition => self.after_disposition(head),
                Step::Location => self.after_location(head),
                Step::Probe => self.after_probe(head),
                Step::Reprobe => {
                    let content_length = head.content_length_value();
                    self.probed(content_length, head.accept_ranges)
                },
                Step::Response => self.after_response(head),
                _ => self.unexpected(),
            },
            Event::FileSize(size) => match self.step {
                Step::FinalFile => match size {
                    Some(size) => {
                        let mut message = "Skipping ".to_owned();
                        message.append(self.final_name().as_str());
                        message.append(" because the file is already completed [");
                        message.append(pretty_bytes_size(size).as_str());
                        message.append("]");
                        self.finished(Ok(message))
                    },
                    None => {
                        let url = self.url.clone();
                        (self.at(Step::Probe), quietly(Request::Head { url, follow_redirects: true }))
                    },
                },
                Step::PartFile => self.after_part_file(size),
                Step::Measure => match size {
                    Some(size) => {
                        let from = self.part_path();
                        let to = self.final_path();
                        (
                            Download { step: Step::Rename, pending: size, ..self },
                            quietly(Request::Rename { from, to }),
                        )
                    },
                    None => self.unexpected(),
                },
                _ => self.unexpected(),
            },
            Event::Chunk(len) => match self.step {
                Step::Chunk => (
                    Download { step: Step::Write, pending: len, ..self },
                    quietly(Request::WriteChunk),
                ),
                _ => self.unexpected(),
            },
            Event::EndOfBody => match self.step {
                Step::Chunk => (self.at(Step::LastFlush), quietly(Request::Flush)),
                _ => self.unexpected(),
            },
            Event::Interrupted => match self.step {
                Step::Chunk => (self.at(Step::Interrupt), quietly(Request::Flush)),
                _ => self.unexpected(),
            },
            Event::Completed => match self.step {
                Step::Open => {
                    let url = self.url.clone();
                    let range = clone_text(&self.range);
                    (self.at(Step::Response), quietly(Request::Get { url, range }))
                },
                Step::Write => {
                    let advance = self.pending;
                    (self.at(Step::Chunk), Reaction { advance, ..quietly(Request::NextChunk) })
                },
                Step::Interrupt => self.finished(Err(DlmError::ProgramInterrupted)),
                Step::LastFlush => {
                    let path = self.part_path();
                    (self.at(Step::Measure), quietly(Request::FileSize { path }))
                },
                Step::Rename => {
                    let mut message = "Completed ".to_owned();
                    message.append(self.final_name().as_str());
                    message.append(" [");
                    message.append(pretty_bytes_size(self.pending).as_str());
                    message.append("]");
                    self.finished(Ok(message))
                },
                _ => self.unexpected(),
            },
        }
    }
}

/// Starts the transfer of the URL `raw_link` into the directory `output_dir`,
/// as [`started`] lays down: the state of the transfer, and what to do first.
pub fn download_link(raw_link: &str, output_dir: &str) -> (r: (Download, Reaction))
    ensures
        (r.0@, r.1@) == started(raw_link@, output_dir@),
{
    match FileLink::new(raw_link.to_owned()) {
        Err(e) => {
            let state = Download {
                step: Step::Disposition,
                url: raw_link.to_owned(),
                output_dir: output_dir.to_owned(),
                filename_without_extension: String::new(),
                extension: String::new(),
                content_length: None,
                accept_ranges: None,
                range: None,
                pending: 0,
            };
            state.finished(Err(e))
        },
        Ok(link) => {
            let url = link.url.clone();
            let basename = link.filename_without_extension.clone();
            let state = Download {
                step: Step::Disposition,
                url: link.url,
                output_dir: output_dir.to_owned(),
                filename_without_extension: link.filename_without_extension,
                extension: String::new(),
                content_length: None,
                accept_ranges: None,
                range: None,
                pending: 0,
            };
            match link.extension {
                Some(extension) => state.named(extension, basename, None),
                None => (state, quietly(Request::Head { url, follow_redirects: true })),
            }
        },
    }
}


/// A finished file is not downloaded again.
///
/// For a URL that shows its extension, the transfer first asks whether the
/// finished file is there. Where it is, the transfer ends at once, with the
/// message that the file was skipped, and neither of the two requests went
/// to the network.
pub proof fn lemma_finished_file_is_skipped(raw_link: Seq<char>, output_dir: Seq<char>, size: u64)
    requires
        resolved(raw_link) is Ok,
        resolved(raw_link)->Ok_0.extension is Some,
    ensures
        ({
            let (state, first) = started(raw_link, output_dir);
            let (end, last) = state.transition(EventView::FileSize(Some(size)));
            &&& state.url == raw_link
            &&& first.request == RequestView::FileSize { path: state.final_path() }
            &&& !first.request.is_network()
            &&& last.request == RequestView::Finish(Ok(skipped_text(state.final_name(), size)))
            &&& !last.request.is_network()
            &&& end.step == Step::Done
        }),
{
}

/// Once the name of the file is known, a finished file of that name ends the
/// transfer, whatever the URL was.
pub proof fn lemma_named_file_is_skipped(state: DownloadView, size: u64)
    requires
        state.step == Step::FinalFile,
    ensures
        state.transition(EventView::FileSize(Some(size))) == state.finished(
            Ok(skipped_text(state.final_name(), size)),
        ),
{
}

/// A transfer is resumed where the partial file ends.
///
/// A server answers the probe with success, a size of `total` bytes and
/// `Accept-Ranges: bytes`, and a partial file of `existing` bytes, fewer than
/// `total`, is there. Then the partial file is opened at its end, the
/// progress bar is set to `existing`, and the body is asked for with the
/// `Range` header `bytes=<existing>-<total>`.
pub proof fn lemma_partial_file_is_resumed(
    state: DownloadView,
    head: ResponseHeadView,
    existing: u64,
    total: u64,
)
    requires
        state.step == Step::Probe,
        head.is_success(),
        head.content_length_value() == Some(total),
        head.accept_ranges == Some(range_unit()),
        existing < total,
    ensures
        ({
            let (probed, asked_size) = state.transition(EventView::Response(head));
            let (opening, open) = probed.transition(EventView::FileSize(Some(existing)));
            let (asking, get) = opening.transition(EventView::Completed);
            &&& asked_size.request == RequestView::FileSize { path: state.part_path() }
            &&& asked_size.length == Some(total)
            &&& open.request == RequestView::OpenPart { path: state.part_path(), append: true }
            &&& open.position == Some(existing)
            &&& get.request == RequestView::Get { url: state.url, range: Some(range_text(existing, total)) }
        }),
{
}

/// A transfer that cannot be resumed starts again from nothing.
///
/// The server's range support is known and is not `bytes`, or its size is
/// not known, and a partial file is there. Then the partial file is opened
/// anew and empty, the progress bar is set to zero, the loss is logged, and
/// the body is asked for without a `Range` header.
pub proof fn lemma_partial_file_is_discarded(state: DownloadView, existing: u64)
    requires
        state.step == Step::PartFile,
        !resumable(state.content_length, state.accept_ranges),
    ensures
        ({
            let (opening, open) = state.transition(EventView::FileSize(Some(existing)));
            let (asking, get) = opening.transition(EventView::Completed);
            &&& open.request == RequestView::OpenPart { path: state.part_path(), append: false }
            &&& open.position == Some(0u64)
            &&& open.log == Some(overridden_text(state.part_path(), existing))
            &&& get.request == RequestView::Get { url: state.url, range: None }
        }),
{
}

/// An interruption leaves the partial file as it is.
///
/// When the stop signal comes while the transfer waits for a piece of the
/// body, the partial file is flushed and the transfer ends as interrupted.
/// Nothing is logged, and no request opens, writes or renames a file.
pub proof fn lemma_interruption_flushes_and_ends(state: DownloadView)
    requires
        state.step == Step::Chunk,
    ensures
        ({
            let (flushing, flush) = state.transition(EventView::Interrupted);
            let (end, last) = flushing.transition(EventView::Completed);
            &&& flush.request == RequestView::Flush
            &&& flush.log is None
            &&& last.request == RequestView::Finish(Err(DlmErrorView::ProgramInterrupted))
            &&& last.log is None
            &&& end.step == Step::Done
            &&& !flush.request.changes_files()
            &&& !last.request.changes_files()
        }),
{
}

/// The partial file is opened at one point of a transfer only: when its size
/// has been looked up, before the body is asked for. So nothing empties it
/// while the body comes in, or after.
pub proof fn lemma_part_file_is_opened_once(state: DownloadView, event: EventView)
    requires
        state.transition(event).1.request is OpenPart,
    ensures
        state.step == Step::PartFile,
        event is FileSize,
        state.transition(event).0.step == Step::Open,
{
}

/// Where the file's name is known and no finished file of that name is
/// there, the server is asked about the file.
pub proof fn lemma_missing_file_is_probed(state: DownloadView)
    requires
        state.step == Step::FinalFile,
    ensures
        ({
            let (probing, probe) = state.transition(EventView::FileSize(None));
            &&& probe.request == RequestView::Head { url: state.url, follow_redirects: true }
            &&& probe.request.is_network()
            &&& probing.step == Step::Probe
        }),
{
}

/// The partial file gets its final name at one point of a transfer only:
/// when the body has ended, the last piece is flushed and the file is
/// measured.
pub proof fn lemma_rename_follows_the_body(state: DownloadView, event: EventView)
    requires
        state.transition(event).1.request is Rename,
    ensures
        state.step == Step::Measure,
        event is FileSize,
        state.transition(event).0.step == Step::Rename,
        state.transition(event).1.request == (RequestView::Rename {
            from: state.part_path(),
            to: state.final_path(),
        }),
{
}

/// A failed request ends the transfer with that failure, and a transfer that
/// is over stays over, whatever comes.
pub proof fn lemma_failure_ends_transfer(state: DownloadView, e: DlmErrorView, event: EventView)
    ensures
        state.transition(EventView::Failed(e)) == state.finished(Err(e)),
        state.transition(EventView::Failed(e)).0.step == Step::Done,
        state.step == Step::Done ==> state.transition(event).0.step == Step::Done,
        state.step == Step::Done ==> state.transition(event).1.request is Finish,
{
}

} // verus!

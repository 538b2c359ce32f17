//! A whole run: which lines become transfers, how each one is reported, and
//! how the run ends.

use crate::dlm_error::{DlmError, DlmErrorView};
use crate::progress_bar_manager::{
    pending_label, slot_count_for, ProgressBarManager, ProgressBarManagerView,
};
use crate::text::{chars_of, decimal, is_blank, push_decimal, slice_of, string_of, trim_chars};
use vstd::prelude::*;

verus! {

/// Whether a line of the input names a URL: it was read, and is not blank.
/// A line is its text or, where it could not be read, the text of the
/// failure.
pub open spec fn names_url(line: Result<String, String>) -> bool {
    match line {
        Ok(text) => !is_blank(text@),
        Err(_) => false,
    }
}

/// The number of lines that name a URL.
pub open spec fn url_count(lines: Seq<Result<String, String>>) -> nat
    decreases lines.len(),
{
    if lines.len() == 0 {
        0
    } else {
        url_count(lines.drop_last()) + if names_url(lines.last()) {
            1nat
        } else {
            0nat
        }
    }
}

/// `dir` without the `/` that may stand at its end.
pub open spec fn without_trailing_slash(dir: Seq<char>) -> Seq<char> {
    if dir.len() > 0 && dir.last() == '/' {
        dir.drop_last()
    } else {
        dir
    }
}

/// The first line logged by a run.
pub open spec fn starting_text(max_concurrent_downloads: u32) -> Seq<char> {
    "Starting dlm with at most "@ + decimal(max_concurrent_downloads as nat) + " concurrent downloads"@
}

/// The second line logged by a run.
pub open spec fn found_text(job_count: u64, input_file: Seq<char>) -> Seq<char> {
    "Found "@ + decimal(job_count as nat) + " URLs in input file "@ + input_file
}

/// The line logged for a line of the input that could not be read.
pub open spec fn unreadable_line_text(error_text: Seq<char>) -> Seq<char> {
    "Error with links iterator "@ + error_text
}

/// The line logged for a blank line of the input.
pub open spec fn empty_line_text() -> Seq<char> {
    "Skipping empty line"@
}

/// The line logged for a transfer that failed for good.
pub open spec fn unrecoverable_text(link: Seq<char>, error_text: Seq<char>) -> Seq<char> {
    "Unrecoverable error while processing "@ + link + ": "@ + error_text
}

/// What becomes of a line of the input.
pub enum Admission {
    /// The run is being cancelled: the line is passed over.
    Refused,
    /// The line names no URL: this is to be logged, and the line is counted
    /// as over.
    Report(String),
    /// The line names this URL: it is to be downloaded, once a slot is free.
    Download(String),
}

/// Counts the lines that name a URL.
pub fn count_non_empty_lines(lines: &Vec<Result<String, String>>) -> (r: usize)
    ensures
        r == url_count(lines@),
{
    let mut count: usize = 0;
    let mut i: usize = 0;
    while i < lines.len()
        invariant
            i <= lines.len(),
            count == url_count(lines@.take(i as int)),
            count <= i,
        decreases lines.len() - i,
    {
        let named = match &lines[i] {
            Ok(text) => trim_chars(&chars_of(text.as_str())).len() != 0,
            Err(_) => false,
        };
        proof {
            let upto = lines@.take(i + 1);
            assert(upto.drop_last() =~= lines@.take(i as int));
            assert(upto.last() == lines@[i as int]);
        }
        if named {
            count += 1;
        }
        i += 1;
    }
    assert(lines@.take(i as int) =~= lines@);
    count
}

/// Removes the `/` that may stand at the end of the output directory.
pub fn strip_trailing_slash(output_dir: &str) -> (r: String)
    ensures
        r@ == without_trailing_slash(output_dir@),
{
    let dir = chars_of(output_dir);
    if dir.len() > 0 && dir[dir.len() - 1] == '/' {
        let kept = slice_of(&dir, 0, dir.len() - 1);
        assert(kept@ =~= dir@.drop_last());
        string_of(&kept)
    } else {
        string_of(&dir)
    }
}

/// The two lines logged when a run starts.
pub fn startup_messages(max_concurrent_downloads: u32, job_count: u64, input_file: &str) -> (r: (String, String))
    ensures
        r.0@ == starting_text(max_concurrent_downloads),
        r.1@ == found_text(job_count, input_file@),
{
    let mut starting = "Starting dlm with at most ".to_owned();
    push_decimal(&mut starting, max_concurrent_downloads as u64);
    starting.append(" concurrent downloads");
    let mut found = "Found ".to_owned();
    push_decimal(&mut found, job_count);
    found.append(" URLs in input file ");
    found.append(input_file);
    (starting, found)
}

/// A run: its slots and job count, and whether it is being cancelled.
pub struct Batch {
    pbm: ProgressBarManager,
    stopped: bool,
}

/// A [`Batch`] as a mathematical value.
pub struct BatchView {
    /// The slots of the run and its count of finished jobs.
    pub pbm: ProgressBarManagerView,
    /// Whether the run is being cancelled.
    pub stopped: bool,
}

impl View for Batch {
    type V = BatchView;

    closed spec fn view(&self) -> BatchView {
        BatchView { pbm: self.pbm@, stopped: self.stopped }
    }
}

impl BatchView {
    /// The slots of the run are in order.
    pub open spec fn wf(self) -> bool {
        self.pbm.wf()
    }

    /// One more job is counted as over, and nothing else has changed.
    pub open spec fn counted_from(self, before: BatchView) -> bool {
        self == (BatchView {
            pbm: ProgressBarManagerView {
                position: if before.pbm.position < u64::MAX {
                    (before.pbm.position + 1) as u64
                } else {
                    u64::MAX
                },
                ..before.pbm
            },
            ..before
        })
    }
}

impl Batch {
    /// Starts a run over the lines of the input.
    ///
    /// Lines of which none names a URL start no run: there is nothing but
    /// the failure, and no slot has been made. Otherwise the run has one job
    /// for each line that names a URL, and as many slots as the concurrency
    /// limit allows, all of them waiting.
    pub fn start(lines: &Vec<Result<String, String>>, max_concurrent_downloads: u32) -> (r: Result<
        Batch,
        DlmError,
    >)
        ensures
            match r {
                Ok(batch) => {
                    &&& url_count(lines@) > 0
                    &&& batch@.wf()
                    &&& !batch@.stopped
                    &&& batch@.pbm.length == url_count(lines@)
                    &&& batch@.pbm.position == 0
                    &&& batch@.pbm.slot_count == slot_count_for(max_concurrent_downloads, batch@.pbm.length)
                    &&& batch@.pbm.idle == Seq::new(batch@.pbm.slot_count, |i: int| i as usize)
                    &&& !batch@.pbm.finished
                },
                Err(e) => url_count(lines@) == 0 && e@ == DlmErrorView::EmptyInputFile,
            },
    {
        let nb_of_lines = count_non_empty_lines(lines);
        if nb_of_lines == 0 {
            return Err(DlmError::EmptyInputFile);
        }
        Ok(Batch { pbm: ProgressBarManager::init(max_concurrent_downloads, nb_of_lines as u64), stopped: false })
    }

    /// Takes note that the run is to be cancelled. Once noted, it stays: no
    /// function of a run takes the note back.
    pub fn interrupt(&mut self)
        ensures
            final(self)@ == (BatchView { stopped: true, ..old(self)@ }),
    {
        self.stopped = true;
    }

    /// Whether the run is being cancelled.
    pub fn is_stopped(&self) -> (r: bool)
        ensures
            r == self@.stopped,
    {
        self.stopped
    }

    /// The number of jobs of the run.
    pub fn length(&self) -> (r: u64)
        ensures
            r == self@.pbm.length,
    {
        self.pbm.length()
    }

    /// The number of jobs that are over.
    pub fn position(&self) -> (r: u64)
        ensures
            r == self@.pbm.position,
    {
        self.pbm.position()
    }

    /// The number of slots.
    pub fn slot_count(&self) -> (r: usize)
        ensures
            r == self@.pbm.slot_count,
    {
        self.pbm.slot_count()
    }

    /// The number of slots that transfers hold.
    pub fn in_flight(&self) -> (r: usize)
        requires
            self@.wf(),
        ensures
            r == self@.pbm.in_flight(),
    {
        self.pbm.in_flight()
    }

    /// Whether a transfer holds `slot`.
    pub fn holds(&self, slot: usize) -> (r: bool)
        ensures
            r == self@.pbm.holds(slot),
    {
        self.pbm.holds(slot)
    }

    /// Takes the slot that has waited longest, if any waits: no transfer held
    /// it, and now the caller's does. With `None` nothing has changed, and
    /// the caller is to wait until a slot is given back.
    pub fn acquire(&mut self) -> (r: Option<usize>)
        requires
            old(self)@.wf(),
        ensures
            final(self)@.wf(),
            final(self)@.stopped == old(self)@.stopped,
            match r {
                Some(slot) => {
                    &&& old(self)@.pbm.idle.len() > 0
                    &&& slot == old(self)@.pbm.idle[0]
                    &&& final(self)@.pbm == ProgressBarManagerView {
                        idle: old(self)@.pbm.idle.drop_first(),
                        ..old(self)@.pbm
                    }
                    &&& !old(self)@.pbm.holds(slot)
                    &&& final(self)@.pbm.holds(slot)
                },
                None => old(self)@.pbm.idle.len() == 0 && final(self)@ == old(self)@,
            },
    {
        self.pbm.acquire()
    }

    /// Gives back a slot that a transfer holds, whatever came of the
    /// transfer. There is always room for it. The result is the label that
    /// the slot's progress bar shows from now on.
    pub fn release(&mut self, slot: usize) -> (label: String)
        requires
            old(self)@.wf(),
            old(self)@.pbm.holds(slot),
        ensures
            final(self)@.wf(),
            final(self)@ == (BatchView {
                pbm: ProgressBarManagerView { idle: old(self)@.pbm.idle.push(slot), ..old(self)@.pbm },
                ..old(self)@
            }),
            final(self)@.pbm.idle.len() <= final(self)@.pbm.slot_count,
            final(self)@.pbm.in_flight() == old(self)@.pbm.in_flight() - 1,
            label@ == pending_label(),
    {
        self.pbm.release(slot)
    }

    /// Decides what becomes of the next line of the input.
    ///
    /// Once the run is being cancelled every line is refused, and nothing is
    /// counted. A line that could not be read, and a blank line, is reported
    /// and counted as over. Any other line is a URL to download.
    pub fn consider(&mut self, line: Result<String, String>) -> (r: Admission)
        ensures
            old(self)@.wf() ==> final(self)@.wf(),
            match r {
                Admission::Refused => old(self)@.stopped && final(self)@ == old(self)@,
                Admission::Report(message) => {
                    &&& !old(self)@.stopped
                    &&& !names_url(line)
                    &&& message@ == match line {
                        Ok(_) => empty_line_text(),
                        Err(e) => unreadable_line_text(e@),
                    }
                    &&& final(self)@.counted_from(old(self)@)
                },
                Admission::Download(link) => {
                    &&& !old(self)@.stopped
                    &&& names_url(line)
                    &&& line matches Ok(text) && link@ == text@
                    &&& final(self)@ == old(self)@
                },
            },
    {
        if self.stopped {
            return Admission::Refused;
        }
        match line {
            Err(e) => {
                let mut message = "Error with links iterator ".to_owned();
                message.append(e.as_str());
                self.pbm.increment_global_progress();
                Admission::Report(message)
            },
            Ok(link) => {
                if trim_chars(&chars_of(link.as_str())).len() == 0 {
                    self.pbm.increment_global_progress();
                    Admission::Report("Skipping empty line".to_owned())
                } else {
                    Admission::Download(link)
                }
            },
        }
    }

    /// Takes the outcome of the transfer of `link`, and gives the line to log
    /// for it.
    ///
    /// A transfer that the cancelling of the run interrupted is passed over
    /// in silence and not counted. Every other transfer is counted as over,
    /// and reported: with its own message if it went well, else with its
    /// failure.
    pub fn conclude(&mut self, link: &str, processed: Result<String, DlmError>) -> (r: Option<String>)
        ensures
            old(self)@.wf() ==> final(self)@.wf(),
            match processed {
                Ok(info) => {
                    &&& r matches Some(message) && message@ == info@
                    &&& final(self)@.counted_from(old(self)@)
                },
                Err(e) => if e@ is ProgramInterrupted {
                    r is None && final(self)@ == old(self)@
                } else {
                    &&& r matches Some(message) && message@ == unrecoverable_text(link@, e@.text())
                    &&& final(self)@.counted_from(old(self)@)
                },
            },
    {
        match processed {
            Ok(info) => {
                self.pbm.increment_global_progress();
                Some(info)
            },
            Err(DlmError::ProgramInterrupted) => None,
            Err(e) => {
                let mut message = "Unrecoverable error while processing ".to_owned();
                message.append(link);
                message.append(": ");
                message.append(e.to_text().as_str());
                self.pbm.increment_global_progress();
                Some(message)
            },
        }
    }

    /// Ends the run, once no line is left and every transfer is over.
    ///
    /// The first part of the result lists the slots to close. Once no
    /// transfer holds a slot the slots are closed, whether the run was
    /// cancelled or not: each slot of the run is listed exactly once, and
    /// from then on none waits. `None` says that a transfer still holds a
    /// slot, or that the slots were closed before, and nothing has changed.
    ///
    /// The second part is how the run ended: in failure if it was cancelled,
    /// else well.
    pub fn finish(&mut self) -> (r: (Option<Vec<usize>>, Result<(), DlmError>))
        requires
            old(self)@.wf(),
        ensures
            final(self)@.wf(),
            r.1 is Err <==> old(self)@.stopped,
            r.1 matches Err(e) ==> e@ == DlmErrorView::ProgramInterrupted,
            match r.0 {
                Some(slots) => {
                    &&& !old(self)@.pbm.finished
                    &&& old(self)@.pbm.in_flight() == 0
                    &&& slots@ == old(self)@.pbm.idle
                    &&& slots@.no_duplicates()
                    &&& slots@.len() == old(self)@.pbm.slot_count
                    &&& forall|slot: usize| slot < old(self)@.pbm.slot_count ==> slots@.contains(slot)
                    &&& final(self)@ == BatchView {
                        pbm: ProgressBarManagerView { idle: Seq::empty(), finished: true, ..old(self)@.pbm },
                        ..old(self)@
                    }
                },
                None => {
                    &&& (old(self)@.pbm.finished || old(self)@.pbm.in_flight() > 0)
                    &&& final(self)@ == old(self)@
                },
            },
    {
        let closed = self.pbm.finish_all();
        let outcome = if self.stopped {
            Err(DlmError::ProgramInterrupted)
        } else {
            Ok(())
        };
        (closed, outcome)
    }
}

} // verus!

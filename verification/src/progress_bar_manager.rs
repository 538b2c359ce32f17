//! The transfer slots and the count of finished jobs.
//!
//! A slot stands for one progress bar. There are as many slots as transfers
//! may run at once; a transfer takes one before it starts and gives it back
//! when it ends, so the slots bound how many transfers run.
//!
//! The slots wait in a queue that belongs to one manager alone. Taking a
//! slot and giving it back never wait: where no slot is free the caller is
//! told so, and waiting is its part.

use crate::progress_bars;
use chrono::Local;
use vstd::prelude::*;

verus! {

/// The slots of a run and its count of finished jobs.
pub struct ProgressBarManager {
    main_len: u64,
    main_pos: u64,
    file_pb_count: usize,
    idle: Vec<usize>,
    finished: bool,
}

/// A [`ProgressBarManager`] as a mathematical value.
pub struct ProgressBarManagerView {
    /// The number of jobs of the run.
    pub length: u64,
    /// The number of jobs that are over.
    pub position: u64,
    /// The number of slots.
    pub slot_count: nat,
    /// The slots that no transfer holds, in the order in which they will be
    /// handed out.
    pub idle: Seq<usize>,
    /// Whether the slots have been closed.
    pub finished: bool,
}

impl ProgressBarManagerView {
    /// No slot waits twice, every waiting slot is one of the run's slots, and
    /// once the slots are closed none waits.
    pub open spec fn wf(self) -> bool {
        &&& self.idle.no_duplicates()
        &&& forall|i: int| 0 <= i < self.idle.len() ==> (#[trigger] self.idle[i]) < self.slot_count
        &&& self.finished ==> self.idle.len() == 0
    }

    /// Whether a transfer holds `slot`.
    pub open spec fn holds(self, slot: usize) -> bool {
        &&& slot < self.slot_count
        &&& !self.idle.contains(slot)
        &&& !self.finished
    }

    /// The number of slots that transfers hold.
    pub open spec fn in_flight(self) -> int {
        if self.finished {
            0
        } else {
            self.slot_count - self.idle.len()
        }
    }
}

/// The number of slots of a run: the concurrency limit, or the number of
/// jobs where that is smaller.
pub open spec fn slot_count_for(max_concurrent_downloads: u32, job_count: u64) -> nat {
    if max_concurrent_downloads <= job_count {
        max_concurrent_downloads as nat
    } else {
        job_count as nat
    }
}

/// The label of a progress bar that no transfer holds.
pub open spec fn pending_label() -> Seq<char> {
    progress_bars::padded_label("pending"@)
}

/// The line that shows `msg` above the progress bars at the time `timestamp`.
pub open spec fn log_line(timestamp: Seq<char>, msg: Seq<char>) -> Seq<char> {
    "["@ + timestamp + "] "@ + msg
}

/// Binds `Local::now` of `chrono`, and the formatting of that moment's local
/// date and time as `%Y-%m-%d %H:%M:%S`. The text depends on the clock and
/// on the machine's time zone: nothing is claimed of it.
#[verifier::external_body]
fn local_timestamp() -> (r: String) {
    Local::now().naive_local().format("%Y-%m-%d %H:%M:%S").to_string()
}

/// Distinct numbers below `n` are at most `n`.
pub proof fn lemma_distinct_below(s: Seq<usize>, n: nat)
    requires
        s.no_duplicates(),
        forall|i: int| 0 <= i < s.len() ==> (#[trigger] s[i]) < n,
    ensures
        s.len() <= n,
    decreases n,
{
    if s.len() > 0 {
        assert(s[0] < n);
        let top = (n - 1) as usize;
        if s.contains(top) {
            let at = choose|i: int| 0 <= i < s.len() && s[i] == top;
            let rest = s.remove(at);
            assert forall|i: int| 0 <= i < rest.len() implies (#[trigger] rest[i]) < n - 1 by {
                if i < at {
                    assert(rest[i] == s[i]);
                } else {
                    assert(rest[i] == s[i + 1]);
                }
            }
            assert(rest.no_duplicates()) by {
                assert forall|i: int, j: int| 0 <= i < rest.len() && 0 <= j < rest.len() && i != j implies rest[i]
                    != rest[j] by {
                    let a = if i < at {
                        i
                    } else {
                        i + 1
                    };
                    let b = if j < at {
                        j
                    } else {
                        j + 1
                    };
                    assert(rest[i] == s[a] && rest[j] == s[b]);
                }
            }
            lemma_distinct_below(rest, (n - 1) as nat);
        } else {
            assert forall|i: int| 0 <= i < s.len() implies (#[trigger] s[i]) < n - 1 by {
                assert(s[i] < n);
                assert(s.contains(s[i]));
            }
            lemma_distinct_below(s, (n - 1) as nat);
        }
    }
}

/// `n` distinct numbers below `n` are all the numbers below `n`.
pub proof fn lemma_distinct_below_is_all(s: Seq<usize>, n: nat, k: usize)
    requires
        s.no_duplicates(),
        forall|i: int| 0 <= i < s.len() ==> (#[trigger] s[i]) < n,
        s.len() == n,
        k < n,
    ensures
        s.contains(k),
{
    if !s.contains(k) {
        let more = s.push(k);
        assert(more.no_duplicates()) by {
            assert forall|i: int, j: int| 0 <= i < more.len() && 0 <= j < more.len() && i != j implies more[i]
                != more[j] by {
                if i < s.len() {
                    assert(s.contains(s[i]));
                }
                if j < s.len() {
                    assert(s.contains(s[j]));
                }
            }
        }
        lemma_distinct_below(more, n);
    }
}

impl View for ProgressBarManager {
    type V = ProgressBarManagerView;

    closed spec fn view(&self) -> ProgressBarManagerView {
        ProgressBarManagerView {
            length: self.main_len,
            position: self.main_pos,
            slot_count: self.file_pb_count as nat,
            idle: self.idle@,
            finished: self.finished,
        }
    }
}

impl ProgressBarManager {
    /// The slots and the job count of a run of `main_pb_len` jobs with at
    /// most `max_concurrent_downloads` transfers at once: every slot waits,
    /// in ascending order, and no job is over.
    pub fn init(max_concurrent_downloads: u32, main_pb_len: u64) -> (r: Self)
        ensures
            r@.wf(),
            r@.length == main_pb_len,
            r@.position == 0,
            r@.slot_count == slot_count_for(max_concurrent_downloads, main_pb_len),
            r@.idle == Seq::new(r@.slot_count, |i: int| i as usize),
            !r@.finished,
            r@.in_flight() == 0,
    {
        let file_pb_count: usize = if max_concurrent_downloads as u64 <= main_pb_len {
            max_concurrent_downloads as usize
        } else {
            main_pb_len as usize
        };
        let mut idle: Vec<usize> = Vec::new();
        let mut i: usize = 0;
        while i < file_pb_count
            invariant
                i <= file_pb_count,
                idle@ == Seq::new(i as nat, |k: int| k as usize),
            decreases file_pb_count - i,
        {
            idle.push(i);
            assert(idle@ =~= Seq::new((i + 1) as nat, |k: int| k as usize));
            i += 1;
        }
        ProgressBarManager { main_len: main_pb_len, main_pos: 0, file_pb_count, idle, finished: false }
    }

    /// Takes the slot that has waited longest, if any waits: no transfer held
    /// it, and now the caller's does. With `None` nothing has changed, and
    /// the caller is to wait until a slot is given back.
    pub fn acquire(&mut self) -> (r: Option<usize>)
        requires
            old(self)@.wf(),
        ensures
            final(self)@.wf(),
            match r {
                Some(slot) => {
                    &&& old(self)@.idle.len() > 0
                    &&& slot == old(self)@.idle[0]
                    &&& final(self)@ == ProgressBarManagerView {
                        idle: old(self)@.idle.drop_first(),
                        ..old(self)@
                    }
                    &&& !old(self)@.holds(slot)
                    &&& final(self)@.holds(slot)
                },
                None => old(self)@.idle.len() == 0 && final(self)@ == old(self)@,
            },
    {
        if self.idle.len() == 0 {
            None
        } else {
            let ghost before = self.idle@;
            let slot = self.idle.remove(0);
            proof {
                assert(self.idle@ =~= before.drop_first());
                assert forall|i: int| 0 <= i < self.idle@.len() implies self.idle@[i] != slot by {
                    assert(self.idle@[i] == before[i + 1]);
                }
                assert(before[0] == slot);
            }
            Some(slot)
        }
    }

    /// Whether a transfer holds `slot`.
    pub fn holds(&self, slot: usize) -> (r: bool)
        ensures
            r == self@.holds(slot),
    {
        if self.finished || slot >= self.file_pb_count {
            return false;
        }
        let mut i: usize = 0;
        while i < self.idle.len()
            invariant
                i <= self.idle@.len(),
                forall|j: int| 0 <= j < i ==> self.idle@[j] != slot,
            decreases self.idle@.len() - i,
        {
            if self.idle[i] == slot {
                return false;
            }
            i += 1;
        }
        true
    }

    /// Gives back a slot that a transfer holds: it waits again, behind the
    /// slots that wait already. There is always room for it. The result is
    /// the label that the slot's progress bar shows from now on.
    pub fn release(&mut self, slot: usize) -> (label: String)
        requires
            old(self)@.wf(),
            old(self)@.holds(slot),
        ensures
            final(self)@.wf(),
            final(self)@ == (ProgressBarManagerView { idle: old(self)@.idle.push(slot), ..old(self)@ }),
            final(self)@.idle.len() <= final(self)@.slot_count,
            final(self)@.in_flight() == old(self)@.in_flight() - 1,
            label@ == pending_label(),
    {
        let ghost before = self.idle@;
        self.idle.push(slot);
        proof {
            assert(self.idle@.no_duplicates()) by {
                assert forall|i: int, j: int|
                    0 <= i < self.idle@.len() && 0 <= j < self.idle@.len() && i != j implies self.idle@[i]
                    != self.idle@[j] by {
                    if i < before.len() {
                        assert(before.contains(before[i]));
                    }
                    if j < before.len() {
                        assert(before.contains(before[j]));
                    }
                }
            }
            lemma_distinct_below(self.idle@, self.file_pb_count as nat);
        }
        Self::reset_progress_bar()
    }

    /// Closes the slots, once every one of them waits: the result then lists
    /// them, each slot of the run exactly once, and from then on none waits.
    /// With `None` nothing has changed: a transfer still holds a slot, or the
    /// slots were closed before.
    pub fn finish_all(&mut self) -> (r: Option<Vec<usize>>)
        requires
            old(self)@.wf(),
        ensures
            final(self)@.wf(),
            match r {
                Some(slots) => {
                    &&& !old(self)@.finished
                    &&& old(self)@.in_flight() == 0
                    &&& slots@ == old(self)@.idle
                    &&& slots@.no_duplicates()
                    &&& slots@.len() == old(self)@.slot_count
                    &&& forall|slot: usize| slot < old(self)@.slot_count ==> slots@.contains(slot)
                    &&& final(self)@ == ProgressBarManagerView {
                        idle: Seq::empty(),
                        finished: true,
                        ..old(self)@
                    }
                },
                None => (old(self)@.finished || old(self)@.in_flight() > 0) && final(self)@ == old(self)@,
            },
    {
        proof {
            lemma_distinct_below(self.idle@, self.file_pb_count as nat);
        }
        if self.finished || self.idle.len() != self.file_pb_count {
            None
        } else {
            let mut slots: Vec<usize> = Vec::new();
            std::mem::swap(&mut slots, &mut self.idle);
            self.finished = true;
            proof {
                assert forall|slot: usize| slot < self.file_pb_count implies slots@.contains(slot) by {
                    lemma_distinct_below_is_all(slots@, self.file_pb_count as nat, slot);
                }
            }
            Some(slots)
        }
    }

    /// Counts one more job as over.
    pub fn increment_global_progress(&mut self)
        ensures
            old(self)@.wf() ==> final(self)@.wf(),
            final(self)@ == (ProgressBarManagerView {
                position: if old(self)@.position < u64::MAX {
                    (old(self)@.position + 1) as u64
                } else {
                    u64::MAX
                },
                ..old(self)@
            }),
    {
        if self.main_pos < u64::MAX {
            self.main_pos = self.main_pos + 1;
        }
    }

    /// The number of jobs that are over.
    pub fn position(&self) -> (r: u64)
        ensures
            r == self@.position,
    {
        self.main_pos
    }

    /// The number of jobs of the run.
    pub fn length(&self) -> (r: u64)
        ensures
            r == self@.length,
    {
        self.main_len
    }

    /// The number of slots.
    pub fn slot_count(&self) -> (r: usize)
        ensures
            r == self@.slot_count,
    {
        self.file_pb_count
    }

    /// The number of slots that transfers hold.
    pub fn in_flight(&self) -> (r: usize)
        requires
            self@.wf(),
        ensures
            r == self@.in_flight(),
    {
        proof {
            lemma_distinct_below(self@.idle, self@.slot_count);
        }
        if self.finished {
            0
        } else {
            self.file_pb_count - self.idle.len()
        }
    }

    /// The label of a progress bar for the file `s`.
    pub fn message_progress_bar(s: &str) -> (r: String)
        ensures
            r@ == progress_bars::padded_label(s@),
    {
        progress_bars::message_progress_bar(s)
    }

    /// The label that a progress bar gets when its slot is given back.
    pub fn reset_progress_bar() -> (r: String)
        ensures
            r@ == pending_label(),
    {
        progress_bars::message_progress_bar("pending")
    }

    /// The line that shows `msg` above the progress bars, with the local
    /// date and time of now in front.
    pub fn log_above_progress_bars(msg: &str) -> (r: String)
        ensures
            exists|timestamp: Seq<char>| r@ == log_line(timestamp, msg@),
    {
        let timestamp = local_timestamp();
        Self::log_above_progress_bar(timestamp.as_str(), msg)
    }

    /// The line that shows `msg` above the progress bars at the time
    /// `timestamp`.
    pub fn log_above_progress_bar(timestamp: &str, msg: &str) -> (r: String)
        ensures
            r@ == log_line(timestamp@, msg@),
    {
        let mut line = "[".to_owned();
        line.append(timestamp);
        line.append("] ");
        line.append(msg);
        line
    }
}

} // verus!

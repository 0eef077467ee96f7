//! The progress aggregator: folds worker events into a per-worker table.
use std::collections::HashMap;
use vstd::prelude::*;

use crate::fmt::{bytes_text, decimal, fmt_bytes, push_decimal, two_digits};

verus! {

broadcast use vstd::std_specs::hash::group_hash_axioms;

/// An event sent by a worker (or, for `Done`, by the orchestrator).
pub enum Message {
    StartFile { thread_id: usize, file_name: String, file_size: Option<u64> },
    Downloading { bytes_read: u64, thread_id: usize },
    Success { thread_id: usize },
    Error { thread_id: usize, err: String },
    Done,
}

/// The live state of the transfer that a worker is running.
pub struct Progress {
    pub file_name: String,
    pub file_size: Option<u64>,
    pub progress: u64,
    pub error: Option<String>,
    /// Milliseconds on the caller's clock when the transfer started.
    pub start_ms: u64,
    /// Cumulative average rate in bytes per second.
    pub download_rate: u64,
}

/// "Files downloaded: " in ASCII.
pub open spec fn files_downloaded_label() -> Seq<u8> {
    seq![70u8, 105, 108, 101, 115, 32, 100, 111, 119, 110, 108, 111, 97, 100, 101, 100, 58, 32]
}

/// "Files downloaded: <finished>/<total>".
pub open spec fn header_text(finished: nat, total: nat) -> Seq<u8> {
    files_downloaded_label() + decimal(finished) + seq![47u8] + decimal(total)
}

/// The event that ends a worker's task: `Success`, or `Error` with its description.
pub fn terminal_message(thread_id: usize, outcome: Result<(), String>) -> (m: Message)
    ensures
        match outcome {
            Ok(()) => m == (Message::Success { thread_id }),
            Err(e) => m == (Message::Error { thread_id, err: e }),
        },
{
    match outcome {
        Ok(()) => Message::Success { thread_id },
        Err(err) => Message::Error { thread_id, err },
    }
}

/// Where a table row's columns start on a screen `width` cells wide: the name
/// takes the left half, the percentage starts at the middle, the byte counts ten
/// cells later, and the rate fifteen cells before the right edge (or at the edge
/// of a narrower screen).
pub struct Columns {
    pub name_width: usize,
    pub percent_at: usize,
    pub bytes_at: usize,
    pub rate_at: usize,
}

pub fn columns(width: usize) -> (r: Columns)
    ensures
        r.name_width == width / 2,
        r.percent_at == width / 2,
        r.bytes_at == width / 2 + 10,
        r.rate_at == if width >= 15 {
            width - 15
        } else {
            0
        },
{
    let m = width / 2;
    Columns {
        name_width: m,
        percent_at: m,
        bytes_at: m + 10,
        rate_at: if width >= 15 {
            width - 15
        } else {
            0
        },
    }
}

/// The completed counter after one event, unless the watcher is quitting.
pub open spec fn next_finished(finished: nat, total: nat, m: Message) -> nat {
    if m is Success && finished < total {
        finished + 1
    } else {
        finished
    }
}

/// The completed counter after a run of events, starting from `finished`.
pub open spec fn finished_after(finished: nat, total: nat, ms: Seq<Message>) -> nat
    decreases ms.len(),
{
    if ms.len() == 0 {
        finished
    } else {
        next_finished(finished_after(finished, total, ms.drop_last()), total, ms.last())
    }
}

/// How many `Success` events a run holds.
pub open spec fn successes(ms: Seq<Message>) -> nat
    decreases ms.len(),
{
    if ms.len() == 0 {
        0
    } else {
        successes(ms.drop_last()) + if ms.last() is Success {
            1nat
        } else {
            0nat
        }
    }
}

/// Over any run of events for `total` files, the completed counter counts the
/// `Success` events, never passes `total`, and never goes down from one event
/// to the next.
pub proof fn lemma_completed_counter(finished: nat, total: nat, ms: Seq<Message>)
    requires
        finished <= total,
    ensures
        finished_after(finished, total, ms) == if finished + successes(ms) <= total {
            finished + successes(ms)
        } else {
            total
        },
        forall|i: int|
            0 < i <= ms.len() ==> finished_after(finished, total, #[trigger] ms.take(i - 1))
                <= finished_after(finished, total, ms.take(i)),
    decreases ms.len(),
{
    if ms.len() > 0 {
        lemma_completed_counter(finished, total, ms.drop_last());
    }
    assert forall|i: int| 0 < i <= ms.len() implies finished_after(
        finished,
        total,
        #[trigger] ms.take(i - 1),
    ) <= finished_after(finished, total, ms.take(i)) by {
        assert(ms.take(i).drop_last() =~= ms.take(i - 1));
    }
}

/// Bytes plus delta, saturating at the largest `u64`.
pub open spec fn add_bytes(a: u64, b: u64) -> u64 {
    if a as int + b as int > u64::MAX as int {
        u64::MAX
    } else {
        (a + b) as u64
    }
}

/// Average rate in bytes per second over `elapsed_ms` milliseconds (at least one),
/// saturating at the largest `u64`.
pub open spec fn rate_of(bytes: u64, elapsed_ms: u64) -> u64 {
    let e: int = if elapsed_ms == 0 { 1 } else { elapsed_ms as int };
    let r: int = (bytes as int * 1000) / e;
    if r > u64::MAX as int {
        u64::MAX
    } else {
        r as u64
    }
}

/// Milliseconds between two readings of the caller's clock, zero if it went back.
pub open spec fn elapsed(start_ms: u64, now_ms: u64) -> u64 {
    if now_ms >= start_ms {
        (now_ms - start_ms) as u64
    } else {
        0
    }
}

/// A fresh entry for a transfer that starts at `now_ms`.
pub open spec fn fresh(file_name: String, file_size: Option<u64>, now_ms: u64) -> Progress {
    Progress {
        file_name,
        file_size,
        progress: 0,
        error: None,
        start_ms: now_ms,
        download_rate: 0,
    }
}

/// Hundredths of a percent, rounded half up.
pub open spec fn percent_hundredths(done: nat, total: nat) -> nat
    recommends
        total > 0,
{
    (done * 10000 + total / 2) / total
}

/// "12.34%" for a known, non-zero total; empty otherwise.
pub open spec fn percent_text(done: u64, total: Option<u64>) -> Seq<u8> {
    match total {
        Some(t) if t > 0 => {
            let h = percent_hundredths(done as nat, t as nat);
            decimal(h / 100) + seq![46u8] + two_digits(h % 100) + seq![37u8]
        },
        _ => Seq::empty(),
    }
}

fn saturating_add_bytes(a: u64, b: u64) -> (r: u64)
    ensures
        r == add_bytes(a, b),
{
    if b > u64::MAX - a {
        u64::MAX
    } else {
        a + b
    }
}

fn average_rate(bytes: u64, elapsed_ms: u64) -> (r: u64)
    ensures
        r == rate_of(bytes, elapsed_ms),
{
    let e: u128 = if elapsed_ms == 0 { 1 } else { elapsed_ms as u128 };
    let r: u128 = (bytes as u128 * 1000) / e;
    if r > u64::MAX as u128 {
        u64::MAX
    } else {
        r as u64
    }
}

fn elapsed_ms(start_ms: u64, now_ms: u64) -> (r: u64)
    ensures
        r == elapsed(start_ms, now_ms),
{
    if now_ms >= start_ms {
        now_ms - start_ms
    } else {
        0
    }
}

impl Progress {
    /// An entry with no bytes yet, started at `now_ms`.
    pub fn new(file_name: String, file_size: Option<u64>, now_ms: u64) -> (r: Progress)
        ensures
            r == fresh(file_name, file_size, now_ms),
    {
        Progress { file_name, file_size, progress: 0, error: None, start_ms: now_ms, download_rate: 0 }
    }

    /// The total size, formatted, or "?" when unknown.
    pub fn fmt_file_size(&self) -> (r: Vec<u8>)
        ensures
            r@ == match self.file_size {
                Some(sz) => bytes_text(sz as nat),
                None => seq![63u8],
            },
    {
        match self.file_size {
            Some(sz) => fmt_bytes(sz),
            None => {
                let mut v: Vec<u8> = Vec::new();
                v.push(63u8);
                assert(v@ =~= seq![63u8]);
                v
            },
        }
    }

    /// The share received so far with two decimals ("42.50%"), or empty when the
    /// total is unknown or zero.
    pub fn fmt_progress_percent(&self) -> (r: Vec<u8>)
        ensures
            r@ == percent_text(self.progress, self.file_size),
    {
        let mut v: Vec<u8> = Vec::new();
        match self.file_size {
            Some(sz) => {
                if sz > 0 {
                    let h: u128 = ((self.progress as u128) * 10000 + (sz as u128) / 2) / (sz as u128);
                    push_decimal(&mut v, h / 100);
                    v.push(46u8);
                    let r: u128 = h % 100;
                    v.push(48u8 + (r / 10) as u8);
                    v.push(48u8 + (r % 10) as u8);
                    v.push(37u8);
                    assert(v@ =~= percent_text(self.progress, self.file_size));
                }
            },
            None => {},
        }
        assert(v@ =~= percent_text(self.progress, self.file_size));
        v
    }

    /// The bytes received so far, formatted.
    pub fn fmt_progress_bytes(&self) -> (r: Vec<u8>)
        ensures
            r@ == bytes_text(self.progress as nat),
    {
        fmt_bytes(self.progress)
    }

    /// The bytes received so far and the total, formatted and joined by "/".
    pub fn fmt_progress_of_size(&self) -> (r: Vec<u8>)
        ensures
            r@ == bytes_text(self.progress as nat) + seq![47u8] + match self.file_size {
                Some(sz) => bytes_text(sz as nat),
                None => seq![63u8],
            },
    {
        let mut v = self.fmt_progress_bytes();
        v.push(47u8);
        let mut size = self.fmt_file_size();
        v.append(&mut size);
        v
    }

    /// The average rate, formatted, followed by "/s".
    pub fn fmt_download_rate(&self) -> (r: Vec<u8>)
        ensures
            r@ == bytes_text(self.download_rate as nat) + seq![47u8, 115u8],
    {
        let mut v = fmt_bytes(self.download_rate);
        v.push(47u8);
        v.push(115u8);
        v
    }
}

/// The aggregator's private state: which transfer each worker is running, and
/// how many files have finished or failed out of how many were requested.
pub struct DownloadWatcher {
    status_map: HashMap<usize, Progress>,
    quitting: bool,
    num_files: usize,
    files_finished: usize,
    files_failed: usize,
}

impl DownloadWatcher {
    /// The counters stay within the number of files requested.
    pub closed spec fn wf(&self) -> bool {
        &&& self.files_finished <= self.num_files
        &&& self.files_failed <= self.num_files
    }

    pub closed spec fn table(&self) -> Map<usize, Progress> {
        self.status_map@
    }

    pub closed spec fn is_quitting(&self) -> bool {
        self.quitting
    }

    pub closed spec fn total(&self) -> nat {
        self.num_files as nat
    }

    pub closed spec fn finished(&self) -> nat {
        self.files_finished as nat
    }

    pub closed spec fn failed(&self) -> nat {
        self.files_failed as nat
    }

    /// An empty table for `num_files` requested files.
    pub fn new(num_files: usize) -> (r: DownloadWatcher)
        ensures
            r.wf(),
            r.table() == Map::<usize, Progress>::empty(),
            !r.is_quitting(),
            r.total() == num_files,
            r.finished() == 0,
            r.failed() == 0,
    {
        DownloadWatcher {
            status_map: HashMap::new(),
            quitting: false,
            num_files,
            files_finished: 0,
            files_failed: 0,
        }
    }

    /// Folds one event into the table at time `now_ms`, and returns whether the
    /// receive loop should stop, which it should only on `Done`. Once quitting,
    /// every other event is ignored. `StartFile` resets the worker's entry;
    /// `Downloading` and `Success` for a worker with no entry change no entry.
    pub fn process(&mut self, message: Message, now_ms: u64) -> (stop: bool)
        requires
            old(self).wf(),
        ensures
            final(self).wf(),
            final(self).finished() <= final(self).total(),
            final(self).failed() <= final(self).total(),
            stop == (message is Done),
            !(message is StartFile) ==> forall|k: usize|
                old(self).table().contains_key(k) && #[trigger] final(self).table().contains_key(k)
                    ==> final(self).table()[k].progress >= old(self).table()[k].progress,
            final(self).is_quitting() == old(self).is_quitting(),
            final(self).total() == old(self).total(),
            final(self).finished() >= old(self).finished(),
            !old(self).is_quitting() ==> final(self).finished() == next_finished(
                old(self).finished(),
                old(self).total(),
                message,
            ),
            final(self).failed() >= old(self).failed(),
            old(self).is_quitting() || message is Done ==> final(self).table() == old(self).table()
                && final(self).finished() == old(self).finished()
                && final(self).failed() == old(self).failed(),
            !old(self).is_quitting() ==> match message {
                Message::StartFile { thread_id, file_name, file_size } => {
                    &&& final(self).table() == old(self).table().insert(
                        thread_id,
                        fresh(file_name, file_size, now_ms),
                    )
                    &&& final(self).finished() == old(self).finished()
                    &&& final(self).failed() == old(self).failed()
                },
                Message::Downloading { bytes_read, thread_id } => {
                    &&& final(self).finished() == old(self).finished()
                    &&& final(self).failed() == old(self).failed()
                    &&& if old(self).table().contains_key(thread_id) {
                        let e = old(self).table()[thread_id];
                        let p = add_bytes(e.progress, bytes_read);
                        final(self).table() == old(self).table().insert(
                            thread_id,
                            Progress {
                                progress: p,
                                download_rate: rate_of(p, elapsed(e.start_ms, now_ms)),
                                ..e
                            },
                        )
                    } else {
                        final(self).table() == old(self).table()
                    }
                },
                Message::Success { thread_id } => {
                    &&& final(self).table() == old(self).table().remove(thread_id)
                    &&& final(self).finished() == if old(self).finished() < old(self).total() {
                        old(self).finished() + 1
                    } else {
                        old(self).finished()
                    }
                    &&& final(self).failed() == old(self).failed()
                },
                Message::Error { thread_id, err } => {
                    &&& final(self).table().dom() == old(self).table().dom().insert(thread_id)
                    &&& final(self).table()[thread_id].error == Some(err)
                    &&& (if old(self).table().contains_key(thread_id) {
                        final(self).table()[thread_id] == (Progress {
                            error: Some(err),
                            ..old(self).table()[thread_id]
                        })
                    } else {
                        let e = final(self).table()[thread_id];
                        &&& e.file_name@ == Seq::<char>::empty()
                        &&& e.file_size is None
                        &&& e.progress == 0
                        &&& e.start_ms == now_ms
                        &&& e.download_rate == 0
                    })
                    &&& forall|k: usize| k != thread_id && old(self).table().contains_key(k)
                        ==> #[trigger] final(self).table()[k] == old(self).table()[k]
                    &&& final(self).finished() == old(self).finished()
                    &&& final(self).failed() == if old(self).failed() < old(self).total() {
                        old(self).failed() + 1
                    } else {
                        old(self).failed()
                    }
                },
                Message::Done => true,
            },
    {
        if self.quitting {
            return match message {
                Message::Done => true,
                _ => false,
            };
        }
        match message {
            Message::Done => {
                return true;
            },
            Message::StartFile { thread_id, file_name, file_size } => {
                self.status_map.insert(thread_id, Progress::new(file_name, file_size, now_ms));
            },
            Message::Success { thread_id } => {
                self.status_map.remove(&thread_id);
                if self.files_finished < self.num_files {
                    self.files_finished = self.files_finished + 1;
                }
            },
            Message::Downloading { thread_id, bytes_read } => {
                match self.status_map.remove(&thread_id) {
                    Some(e) => {
                        let p = saturating_add_bytes(e.progress, bytes_read);
                        let rate = average_rate(p, elapsed_ms(e.start_ms, now_ms));
                        self.status_map.insert(
                            thread_id,
                            Progress { progress: p, download_rate: rate, ..e },
                        );
                        assert(self.status_map@ =~= old(self).status_map@.insert(
                            thread_id,
                            Progress { progress: p, download_rate: rate, ..e },
                        ));
                    },
                    None => {},
                }
            },
            Message::Error { thread_id, err } => {
                let e = match self.status_map.remove(&thread_id) {
                    Some(e) => e,
                    None => Progress::new(String::new(), None, now_ms),
                };
                self.status_map.insert(thread_id, Progress { error: Some(err), ..e });
                if self.files_failed < self.num_files {
                    self.files_failed = self.files_failed + 1;
                }
            },
        }
        false
    }

    /// The overall line: "Files downloaded: <finished>/<total>".
    pub fn header(&self) -> (r: Vec<u8>)
        ensures
            r@ == header_text(self.finished(), self.total()),
    {
        let mut v: Vec<u8> = Vec::new();
        let label: [u8; 18] = [70, 105, 108, 101, 115, 32, 100, 111, 119, 110, 108, 111, 97, 100, 101, 100, 58, 32];
        let mut i: usize = 0;
        while i < 18
            invariant
                i <= 18,
                v@ == label@.subrange(0, i as int),
            decreases 18 - i,
        {
            v.push(label[i]);
            i = i + 1;
            assert(v@ =~= label@.subrange(0, i as int));
        }
        assert(label@ =~= files_downloaded_label());
        push_decimal(&mut v, self.files_finished as u128);
        v.push(47u8);
        push_decimal(&mut v, self.num_files as u128);
        assert(v@ =~= header_text(self.finished(), self.total()));
        v
    }

    /// Stops further updates of the table; `Done` is still recognised.
    pub fn quit(&mut self)
        ensures
            final(self).is_quitting(),
            final(self).table() == old(self).table(),
            final(self).total() == old(self).total(),
            final(self).finished() == old(self).finished(),
            final(self).failed() == old(self).failed(),
            final(self).wf() == old(self).wf(),
    {
        self.quitting = true;
    }

    /// The live entries, keyed by worker.
    pub fn status_map(&self) -> (r: &HashMap<usize, Progress>)
        ensures
            r@ == self.table(),
    {
        &self.status_map
    }

    pub fn is_quitting_now(&self) -> (r: bool)
        ensures
            r == self.is_quitting(),
    {
        self.quitting
    }

    pub fn num_files(&self) -> (r: usize)
        ensures
            r == self.total(),
    {
        self.num_files
    }

    pub fn files_finished(&self) -> (r: usize)
        ensures
            r == self.finished(),
    {
        self.files_finished
    }

    pub fn files_failed(&self) -> (r: usize)
        ensures
            r == self.failed(),
    {
        self.files_failed
    }
}

} // verus!

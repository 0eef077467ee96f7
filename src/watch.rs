//! A read-through wrapper that reports the size of every non-empty read, and
//! the rule that decides, from a read's result, what it reports.
use vstd::prelude::*;

verus! {

/// Wraps a byte source `inner`; `f` is told the size of each non-empty read.
pub struct Watcher<R, F> {
    pub inner: R,
    pub f: F,
}

/// What a read of `n` bytes reports: `n` itself, or nothing at end of stream.
pub open spec fn delta_of(n: usize) -> Option<usize> {
    if n > 0 {
        Some(n)
    } else {
        None
    }
}

/// The bytes that the reports of a run of reads add up to.
pub open spec fn reported_total(reads: Seq<usize>) -> nat
    decreases reads.len(),
{
    if reads.len() == 0 {
        0
    } else {
        let rest = reported_total(reads.drop_last());
        match delta_of(reads.last()) {
            Some(d) => rest + d as nat,
            None => rest,
        }
    }
}

/// The bytes that a run of reads returned.
pub open spec fn read_total(reads: Seq<usize>) -> nat
    decreases reads.len(),
{
    if reads.len() == 0 {
        0
    } else {
        read_total(reads.drop_last()) + reads.last() as nat
    }
}

/// Decides whether a read that returned `n` bytes is reported, and with what.
pub fn observed_delta(n: usize) -> (r: Option<usize>)
    ensures
        r == delta_of(n),
{
    if n > 0 {
        Some(n)
    } else {
        None
    }
}

/// Over any run of reads, the reported deltas add up to the bytes read, and an
/// empty read is never reported.
pub proof fn lemma_reports_sum_to_bytes_read(reads: Seq<usize>)
    ensures
        reported_total(reads) == read_total(reads),
        forall|i: int| 0 <= i < reads.len() ==> (#[trigger] delta_of(reads[i]) is None <==> reads[i]
            == 0),
    decreases reads.len(),
{
    if reads.len() > 0 {
        lemma_reports_sum_to_bytes_read(reads.drop_last());
    }
}

impl<R, F> Watcher<R, F> {
    /// Wraps `inner`, reporting to `f`.
    pub fn new(inner: R, f: F) -> (r: Watcher<R, F>)
        ensures
            r.inner == inner,
            r.f == f,
    {
        Watcher { inner, f }
    }
}

#[verifier::external_type_specification]
#[verifier::external_body]
pub struct ExIoError(std::io::Error);

/// What a whole read result reports: the size of a non-empty successful read,
/// and nothing for an empty read or an error. The caller hands `result` back
/// to its own caller as it came.
pub fn reported(result: &std::io::Result<usize>) -> (r: Option<usize>)
    ensures
        r == match result {
            Ok(n) => delta_of(*n),
            Err(_) => None::<usize>,
        },
{
    match result {
        Ok(n) => observed_delta(*n),
        Err(_) => None,
    }
}

} // verus!

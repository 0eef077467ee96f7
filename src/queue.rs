//! The task queue: filled once up front, then drained one task per pop.
use std::collections::VecDeque;
use vstd::prelude::*;

verus! {

/// One download: where the body goes, where it comes from, and its sequence id.
pub struct Task {
    pub path: String,
    pub url: String,
    pub id: usize,
}

/// A pop-once queue of tasks, in the order they were pushed.
pub struct WorkQueue {
    items: VecDeque<Task>,
}

impl View for WorkQueue {
    type V = Seq<Task>;

    closed spec fn view(&self) -> Seq<Task> {
        self.items@
    }
}

/// The tasks built from paired lists: task `i` takes the `i`-th url and path and id `i`.
pub open spec fn tasks_of(urls: Seq<String>, paths: Seq<String>) -> Seq<Task> {
    Seq::new(urls.len(), |i: int| Task { path: paths[i], url: urls[i], id: i as usize })
}

/// Tasks built from paired lists carry distinct ids: task `i` has id `i`, so no
/// two tasks of one list share an id, and popping each once hands out every
/// (url, path) pair exactly once.
pub proof fn lemma_task_ids_distinct(urls: Seq<String>, paths: Seq<String>)
    requires
        urls.len() == paths.len(),
        urls.len() <= usize::MAX,
    ensures
        forall|i: int| 0 <= i < urls.len() ==> (#[trigger] tasks_of(urls, paths)[i]).id == i,
        forall|i: int, j: int|
            0 <= i < urls.len() && 0 <= j < urls.len() && i != j ==> (#[trigger] tasks_of(
                urls,
                paths,
            )[i]).id != (#[trigger] tasks_of(urls, paths)[j]).id,
{
}

impl WorkQueue {
    /// An empty queue.
    pub fn new() -> (r: WorkQueue)
        ensures
            r@ == Seq::<Task>::empty(),
    {
        WorkQueue { items: VecDeque::new() }
    }

    /// A queue of one task per (url, path) pair, numbered from zero in list order.
    pub fn from_pairs(urls: &Vec<String>, paths: &Vec<String>) -> (r: WorkQueue)
        requires
            urls@.len() == paths@.len(),
        ensures
            r@ == tasks_of(urls@, paths@),
    {
        let mut q = WorkQueue::new();
        let n = urls.len();
        let mut i: usize = 0;
        while i < n
            invariant
                n == urls@.len(),
                urls@.len() == paths@.len(),
                i <= n,
                q@ == tasks_of(urls@.subrange(0, i as int), paths@.subrange(0, i as int)),
            decreases n - i,
        {
            let t = Task { path: paths[i].clone(), url: urls[i].clone(), id: i };
            q.push(t);
            i = i + 1;
            assert(q@ =~= tasks_of(urls@.subrange(0, i as int), paths@.subrange(0, i as int)));
        }
        assert(urls@.subrange(0, n as int) =~= urls@);
        assert(paths@.subrange(0, n as int) =~= paths@);
        q
    }

    /// Adds a task at the back.
    pub fn push(&mut self, task: Task)
        ensures
            final(self)@ == old(self)@.push(task),
    {
        self.items.push_back(task);
    }

    /// Takes the task at the front; once empty, always `None`. A popped task is
    /// gone from the queue, and every other task stays.
    pub fn try_pop(&mut self) -> (r: Option<Task>)
        ensures
            match r {
                Some(t) => {
                    &&& old(self)@.len() > 0
                    &&& t == old(self)@[0]
                    &&& final(self)@ == old(self)@.drop_first()
                },
                None => {
                    &&& old(self)@.len() == 0
                    &&& final(self)@ == old(self)@
                },
            },
    {
        let r = self.items.pop_front();
        proof {
            if r is Some {
                assert(self.items@ =~= old(self)@.drop_first());
            }
        }
        r
    }

    /// Takes every task, front first: each queued task comes out exactly once
    /// and the queue is left empty.
    pub fn drain(&mut self) -> (r: Vec<Task>)
        ensures
            r@ == old(self)@,
            final(self)@ == Seq::<Task>::empty(),
    {
        let mut out: Vec<Task> = Vec::new();
        loop
            invariant
                out@ + self@ == old(self)@,
            ensures
                out@ == old(self)@,
                self@ == Seq::<Task>::empty(),
            decreases self@.len(),
        {
            match self.try_pop() {
                Some(t) => {
                    let ghost before = out@;
                    out.push(t);
                    assert(out@ + self@ =~= before + seq![t] + self@);
                },
                None => {
                    assert(out@ =~= out@ + self@);
                    break;
                },
            }
        }
        out
    }

    /// The number of tasks still queued.
    pub fn len(&self) -> (r: usize)
        ensures
            r == self@.len(),
    {
        self.items.len()
    }
}

} // verus!

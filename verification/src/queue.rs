//! The queue of requests that wait for a worker.

use crate::models::WebGWASRequestId;
use vstd::prelude::*;

verus! {

/// The identifiers of the pending requests, in the order in which they were
/// submitted. The queue itself favours neither end: a worker that serves
/// requests in turn takes the oldest, one that serves the latest first takes
/// the newest.
pub struct JobQueue {
    pending: Vec<WebGWASRequestId>,
}

impl View for JobQueue {
    type V = Seq<WebGWASRequestId>;

    /// The pending identifiers, oldest first.
    closed spec fn view(&self) -> Seq<WebGWASRequestId> {
        self.pending@
    }
}

impl JobQueue {
    /// A queue with nothing pending.
    pub fn new() -> (queue: Self)
        ensures
            queue@ == Seq::<WebGWASRequestId>::empty(),
    {
        JobQueue { pending: Vec::new() }
    }

    /// Appends a newly submitted request.
    pub fn push(&mut self, id: WebGWASRequestId)
        ensures
            final(self)@ == old(self)@.push(id),
    {
        self.pending.push(id);
    }

    /// Takes the request that has waited longest, if any is pending.
    pub fn pop_oldest(&mut self) -> (taken: Option<WebGWASRequestId>)
        ensures
            old(self)@.len() == 0 ==> taken.is_none() && final(self)@ == old(self)@,
            old(self)@.len() > 0 ==> taken == Some(old(self)@.first()),
            old(self)@.len() > 0 ==> final(self)@ == old(self)@.drop_first(),
    {
        if self.pending.len() == 0 {
            None
        } else {
            Some(self.pending.remove(0))
        }
    }

    /// Takes the request that was submitted last, if any is pending.
    pub fn pop_newest(&mut self) -> (taken: Option<WebGWASRequestId>)
        ensures
            old(self)@.len() == 0 ==> taken.is_none() && final(self)@ == old(self)@,
            old(self)@.len() > 0 ==> taken == Some(old(self)@.last()),
            old(self)@.len() > 0 ==> final(self)@ == old(self)@.drop_last(),
    {
        self.pending.pop()
    }

    /// The number of pending requests.
    pub fn len(&self) -> (n: usize)
        ensures
            n == self@.len(),
    {
        self.pending.len()
    }

    /// Whether nothing is pending.
    pub fn is_empty(&self) -> (empty: bool)
        ensures
            empty == (self@.len() == 0),
    {
        self.pending.len() == 0
    }
}

} // verus!

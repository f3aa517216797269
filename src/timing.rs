use vstd::prelude::*;

verus! {

/// An operation wrapped so that its completion is paired with the time it
/// took, measured from its first resumption.
///
/// Instants are ticks of one monotonic clock. `start` stays `None` until the
/// operation is first resumed, so time spent queued before that is never
/// counted.
pub struct Timed<Fut> {
    pub inner: Fut,
    pub start: Option<u64>,
}

/// The time from `start` to `now`, zero where the clock reads earlier than
/// `start`.
pub open spec fn elapsed(start: u64, now: u64) -> u64 {
    if now >= start {
        (now - start) as u64
    } else {
        0
    }
}

/// The start instant after a resumption at `now`: the first resumption
/// sets it, later ones keep it.
pub open spec fn start_after(start: Option<u64>, now: u64) -> Option<u64> {
    match start {
        Some(s) => Some(s),
        None => Some(now),
    }
}

/// The start instant after resumptions at each instant of `polls`, in order.
pub open spec fn start_after_all(start: Option<u64>, polls: Seq<u64>) -> Option<u64>
    decreases polls.len(),
{
    if polls.len() == 0 {
        start
    } else {
        start_after_all(start_after(start, polls[0]), polls.drop_first())
    }
}

/// Wraps any value in a timer that has not started.
pub trait TimedFuture: Sized {
    fn timed(self) -> (r: Timed<Self>)
        ensures
            r.inner == self,
            r.start is None,
    {
        Timed { inner: self, start: None }
    }
}

impl<F> TimedFuture for F {

}

impl<Fut> Timed<Fut> {
    /// Records one resumption of the wrapped operation: the clock read
    /// `before` just ahead of the inner poll, which gave `polled`, and
    /// `after` once it returned.
    ///
    /// The first resumption sets the start instant to its `before`. While
    /// the operation is suspended the result is `None`; once it completes
    /// with `v`, the result is `v` paired with the time from the start to
    /// `after`, so the time spent in the last poll is counted.
    pub fn on_poll<T>(&mut self, before: u64, polled: Option<T>, after: u64) -> (r: Option<(T, u64)>)
        ensures
            final(self).inner == old(self).inner,
            final(self).start == start_after(old(self).start, before),
            polled is None <==> r is None,
            polled is Some ==> r == Some(
                (polled->Some_0, elapsed(final(self).start->Some_0, after)),
            ),
    {
        let start: u64 = match self.start {
            Some(s) => s,
            None => before,
        };
        self.start = Some(start);
        match polled {
            None => None,
            Some(v) => {
                let d: u64 = if after >= start {
                    after - start
                } else {
                    0
                };
                Some((v, d))
            },
        }
    }
}

/// However long a timer waited before its first resumption, its start
/// instant after a run of resumptions (`polls`, the clock read before each)
/// is the first of them; the duration measured on completion, with the
/// clock reading `done` after the last poll, is therefore `done` minus that
/// first reading (or zero).
pub proof fn lemma_queueing_excluded(polls: Seq<u64>, done: u64)
    requires
        polls.len() > 0,
    ensures
        start_after_all(None, polls) == Some(polls[0]),
        start_after_all(None, polls) is Some ==> elapsed(start_after_all(None, polls)->Some_0, done)
            == (if done >= polls[0] { done - polls[0] } else { 0 }),
{
    lemma_started_stays(polls[0], polls.drop_first());
}

/// Once a timer has started, further resumptions keep its start instant.
pub proof fn lemma_started_stays(s: u64, polls: Seq<u64>)
    ensures
        start_after_all(Some(s), polls) == Some(s),
    decreases polls.len(),
{
    if polls.len() > 0 {
        lemma_started_stays(s, polls.drop_first());
    }
}

} // verus!

//! A sink that fails at the shutdown stage.

use vstd::prelude::*;
use core::marker::PhantomData;
use crate::protocol::{AcceptOutcome, PollOutcome};

verus! {

/// Error returned by `CloseErrSink::close`. It carries no payload: by the
/// time the shutdown stage fails, every offered item has already been
/// accepted, so there is nothing to hand back.
#[derive(Debug, PartialEq)]
pub struct Error();

/// This sink returns ready on `start_send`, ready on `poll_complete`, and
/// an error on `close`. It keeps no state: the three stages may be called
/// in any order, any number of times, with the same outcome each time.
#[derive(Debug, Default)]
pub struct CloseErrSink<I> {
    phantom_i: PhantomData<I>,
}

impl<I> CloseErrSink<I> {
    /// Offer an item to the sink. The accept stage always succeeds; the
    /// sink buffers nothing, so the item is simply discarded.
    pub fn start_send(&mut self, _item: I) -> (r: Result<AcceptOutcome<I>, Error>)
        ensures
            r == Ok::<AcceptOutcome<I>, Error>(AcceptOutcome::Accepted),
            *final(self) == *old(self),
    {
        Ok(AcceptOutcome::Accepted)
    }

    /// Drive buffered work to completion. The flush stage always
    /// succeeds.
    pub fn poll_complete(&mut self) -> (r: Result<PollOutcome, Error>)
        ensures
            r == Ok::<PollOutcome, Error>(PollOutcome::Ready),
            *final(self) == *old(self),
    {
        Ok(PollOutcome::Ready)
    }

    /// Shut the sink down. The shutdown stage always fails.
    pub fn close(&mut self) -> (r: Result<PollOutcome, Error>)
        ensures
            r == Err::<PollOutcome, Error>(Error()),
            *final(self) == *old(self),
    {
        Err(Error())
    }
}

/// Shutdown errors carry no payload, so any two of them are equal.
pub proof fn lemma_errors_equal(a: Error, b: Error)
    ensures
        a == b,
{
}

/// Shutting this sink down is a constant function of no state: `close`
/// pins every result to the same error, so the results of any two calls
/// are equal, however many calls (flushes included) came before.
pub proof fn lemma_close_idempotent(r1: Result<PollOutcome, Error>, r2: Result<PollOutcome, Error>)
    requires
        r1 == Err::<PollOutcome, Error>(Error()),
        r2 == Err::<PollOutcome, Error>(Error()),
    ensures
        r1 == r2,
{
}

} // verus!

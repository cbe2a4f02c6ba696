//! A sink that fails at the accept stage.

use vstd::prelude::*;
use core::marker::PhantomData;
use crate::protocol::{AcceptOutcome, PollOutcome};

verus! {

/// Error returned by `StartSendErrSink::start_send`. It carries the
/// rejected item: the sink never took the item, so ownership goes back to
/// the caller inside the error.
#[derive(Debug, PartialEq)]
pub struct Error<I>(pub I);

/// This sink returns an error on `start_send`, must not be polled for
/// completion after that, and returns ready on `close`.
///
/// After a failed accept a real sink's state is undefined and driving it
/// to completion may abort the process. This sink records in ghost state
/// whether an accept has failed, and `poll_complete` demands that none
/// has; since `start_send` always fails, a caller that has offered an item
/// can never invoke `poll_complete` again.
pub struct StartSendErrSink<I> {
    phantom_i: PhantomData<I>,
    accept_failed: Ghost<bool>,
}

impl<I> Default for StartSendErrSink<I> {
    /// A fresh sink, on which no accept has failed yet.
    fn default() -> (r: Self)
        ensures
            !r.accept_has_failed(),
    {
        StartSendErrSink { phantom_i: PhantomData, accept_failed: Ghost(false) }
    }
}

impl<I> StartSendErrSink<I> {
    /// Whether an accept stage of this sink has failed. `poll_complete`
    /// is in contract only while this is false.
    pub closed spec fn accept_has_failed(&self) -> bool {
        self.accept_failed@
    }

    /// Offer an item to the sink. The accept stage always fails, and the
    /// error hands the offered item back unchanged.
    pub fn start_send(&mut self, item: I) -> (r: Result<AcceptOutcome<I>, Error<I>>)
        ensures
            r == Err::<AcceptOutcome<I>, Error<I>>(Error(item)),
            final(self).accept_has_failed(),
    {
        proof {
            self.accept_failed@ = true;
        }
        Err(Error(item))
    }

    /// Drive buffered work to completion. Out of contract once an accept
    /// has failed: the sink's state is undefined then, and a real sink may
    /// abort. Before any accept nothing is buffered, so the stage
    /// trivially reports ready.
    pub fn poll_complete(&mut self) -> (r: Result<PollOutcome, Error<I>>)
        requires
            !old(self).accept_has_failed(),
        ensures
            r == Ok::<PollOutcome, Error<I>>(PollOutcome::Ready),
            *final(self) == *old(self),
    {
        Ok(PollOutcome::Ready)
    }

    /// Shut the sink down. This stage always succeeds, whatever was called
    /// before.
    pub fn close(&mut self) -> (r: Result<PollOutcome, Error<I>>)
        ensures
            r == Ok::<PollOutcome, Error<I>>(PollOutcome::Ready),
            *final(self) == *old(self),
    {
        Ok(PollOutcome::Ready)
    }
}

/// Errors built from equal items are equal: the error holds exactly the
/// rejected item and nothing else.
pub proof fn lemma_errors_equal<I>(x: I, y: I)
    requires
        x == y,
    ensures
        Error(x) == Error(y),
{
}

} // verus!

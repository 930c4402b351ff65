//! Laws of the signal future's state machine.

use vstd::prelude::*;

use crate::signal_future::{TrySignalFutureError, TrySignalFutureState};

verus! {

/// Taking the state twice leaves the same state as taking it once.
pub proof fn lemma_take_settles<T>(s: TrySignalFutureState<T>)
    ensures
        s.after_take().after_take() == s.after_take(),
{
}

/// A value delivered to the future is handed out by exactly one poll: the next poll reports
/// that the future is dead.
pub proof fn lemma_value_handed_out_once<T>(v: T)
    ensures
        TrySignalFutureState::Ready(v).poll_outcome() == Some(Ok::<T, TrySignalFutureError>(v)),
        TrySignalFutureState::Ready(v).after_take().poll_outcome() == Some(
            Err::<T, TrySignalFutureError>(TrySignalFutureError),
        ),
{
}

/// A pending future stays pending when polled.
pub proof fn lemma_pending_stays_pending<T>()
    ensures
        TrySignalFutureState::<T>::Pending.after_take() == TrySignalFutureState::<T>::Pending,
        TrySignalFutureState::<T>::Pending.poll_outcome() is None,
{
}

} // verus!

//! The state shared between a signal future and the callable that resolves it, and the
//! decisions taken on it when the future is polled, resolved or abandoned.

use vstd::prelude::*;

verus! {

/// Where a signal future stands.
#[derive(Default)]
pub enum TrySignalFutureState<T> {
    /// The signal has not been emitted yet.
    #[default]
    Pending,
    /// The signal was emitted with this value, which has not been handed out yet.
    Ready(T),
    /// The signal object is gone, or the value was already handed out.
    Dead,
    /// The future itself was dropped.
    Dropped,
}

/// The signal object of a fallible signal future was freed before the signal was emitted.
#[derive(Copy, Clone, Eq, PartialEq, Structural, Debug)]
pub struct TrySignalFutureError;

impl<T> TrySignalFutureState<T> {
    /// The state left behind after [`Self::take`] on `self`.
    pub open spec fn after_take(self) -> Self {
        match self {
            TrySignalFutureState::Pending => TrySignalFutureState::Pending,
            TrySignalFutureState::Ready(_) => TrySignalFutureState::Dead,
            TrySignalFutureState::Dead => TrySignalFutureState::Dead,
            TrySignalFutureState::Dropped => TrySignalFutureState::Dropped,
        }
    }

    /// Returns the current state and leaves behind its successor: a ready value can be taken
    /// only once, after which the state is dead.
    pub fn take(&mut self) -> (r: Self)
        ensures
            r == *old(self),
            *final(self) == old(self).after_take(),
    {
        let mut new_value = match self {
            TrySignalFutureState::Pending => TrySignalFutureState::Pending,
            TrySignalFutureState::Ready(_) | TrySignalFutureState::Dead => TrySignalFutureState::Dead,
            TrySignalFutureState::Dropped => TrySignalFutureState::Dropped,
        };
        std::mem::swap(self, &mut new_value);
        new_value
    }

    /// What a poll of the future yields for the state `self`: `None` while pending, the value
    /// once the signal was emitted, and an error once the state is dead.
    pub open spec fn poll_outcome(self) -> Option<Result<T, TrySignalFutureError>> {
        match self {
            TrySignalFutureState::Ready(v) => Some(Ok(v)),
            TrySignalFutureState::Dead => Some(Err(TrySignalFutureError)),
            _ => None,
        }
    }

    /// Polls the state: takes it and reports the outcome (`None` while the signal is pending).
    ///
    /// A dropped future is never polled.
    pub fn poll(&mut self) -> (r: Option<Result<T, TrySignalFutureError>>)
        requires
            !(*old(self) is Dropped),
        ensures
            r == old(self).poll_outcome(),
            *final(self) == old(self).after_take(),
    {
        let value = self.take();
        match value {
            TrySignalFutureState::Pending => None,
            TrySignalFutureState::Dead => Some(Err(TrySignalFutureError)),
            TrySignalFutureState::Ready(value) => Some(Ok(value)),
            TrySignalFutureState::Dropped => None,
        }
    }

    /// Records that the signal was emitted with `value`.
    pub fn resolve(&mut self, value: T)
        ensures
            *final(self) == TrySignalFutureState::Ready(value),
    {
        *self = TrySignalFutureState::Ready(value);
    }

    /// Records that the resolving callable went away: a pending state becomes dead, any other
    /// state stays. Returns whether the state changed, i.e. whether a waiting task must be woken.
    pub fn abandon(&mut self) -> (r: bool)
        ensures
            r == (*old(self) is Pending),
            *final(self) == (if *old(self) is Pending { TrySignalFutureState::Dead } else { *old(self) }),
    {
        if !matches!(self, TrySignalFutureState::Pending) {
            return false;
        }
        *self = TrySignalFutureState::Dead;
        true
    }

    /// Records that the future itself was dropped.
    pub fn drop_future(&mut self)
        ensures
            *final(self) == TrySignalFutureState::<T>::Dropped,
    {
        *self = TrySignalFutureState::Dropped;
    }
}

} // verus!

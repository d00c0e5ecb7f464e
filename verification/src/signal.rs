//! A one-shot, single-slot hand-off from an event callback to the one
//! consumer that waits for it.
//!
//! A [`Signal`] does not suspend or wake anything by itself. It keeps the
//! slot and the record of the waiting consumer, and tells its caller what to
//! do: [`Signal::set`] says whether a suspended consumer has to be woken, and
//! [`Signal::wait`] and [`Signal::resume`] say whether the consumer has its
//! value or has to stay suspended.

use vstd::prelude::*;

verus! {

/// The signal already holds a value that nobody has consumed yet.
#[derive(Clone, Copy, Debug, PartialEq, Eq, Structural)]
pub struct AlreadySet;

/// A misuse of the consumer side of a signal.
#[derive(Clone, Copy, Debug, PartialEq, Eq, Structural)]
pub enum WaitError {
    /// Another consumer is waiting on the signal and has not been served.
    AlreadyWaiting,
    /// Nobody is waiting on the signal, so there is nothing to resume.
    NotWaiting,
}

/// Whom a successful `set` has to wake.
#[derive(Clone, Copy, Debug, PartialEq, Eq, Structural)]
pub enum Wake {
    /// No consumer is suspended; the value waits in the slot.
    Nobody,
    /// The suspended consumer has to be scheduled to resume.
    Waiter,
}

/// What a consumer gets when it asks for the value.
#[derive(Debug, PartialEq, Eq)]
pub enum Delivery<T> {
    /// The value, which has left the slot.
    Ready(T),
    /// No value yet: the consumer is suspended until `set` wakes it.
    Pending,
}

/// The abstract state of a signal.
pub struct SignalState<T> {
    /// The value that was set and not yet consumed.
    pub value: Option<T>,
    /// Whether a consumer has started to wait and has not been served.
    pub waiting: bool,
}

impl<T> SignalState<T> {
    /// The state of a new signal: empty, with nobody waiting.
    pub open spec fn idle() -> Self {
        SignalState { value: None, waiting: false }
    }

    /// The state after `set(value)`. A value that is still in the slot is
    /// never overwritten, and a waiting consumer stays on record until it has
    /// taken the value.
    pub open spec fn after_set(self, value: T) -> Self {
        if self.value is Some {
            self
        } else {
            SignalState { value: Some(value), waiting: self.waiting }
        }
    }

    /// What `set` answers in this state.
    pub open spec fn set_answer(self) -> Result<Wake, AlreadySet> {
        if self.value is Some {
            Err(AlreadySet)
        } else if self.waiting {
            Ok(Wake::Waiter)
        } else {
            Ok(Wake::Nobody)
        }
    }

    /// The state after a consumer has taken the value, or has found the slot
    /// empty and stays (or becomes) suspended.
    pub open spec fn after_take(self) -> Self {
        if self.value is Some {
            SignalState { value: None, waiting: false }
        } else {
            SignalState { value: None, waiting: true }
        }
    }

    /// What a consumer that is entitled to the value gets in this state.
    pub open spec fn take_answer(self) -> Delivery<T> {
        match self.value {
            Some(value) => Delivery::Ready(value),
            None => Delivery::Pending,
        }
    }

    /// The state after a new consumer has called `wait`.
    pub open spec fn after_wait(self) -> Self {
        if self.waiting {
            self
        } else {
            self.after_take()
        }
    }

    /// What `wait` answers a new consumer in this state.
    pub open spec fn wait_answer(self) -> Result<Delivery<T>, WaitError> {
        if self.waiting {
            Err(WaitError::AlreadyWaiting)
        } else {
            Ok(self.take_answer())
        }
    }

    /// The state after the suspended consumer has called `resume`.
    pub open spec fn after_resume(self) -> Self {
        if self.waiting {
            self.after_take()
        } else {
            self
        }
    }

    /// What `resume` answers in this state.
    pub open spec fn resume_answer(self) -> Result<Delivery<T>, WaitError> {
        if self.waiting {
            Ok(self.take_answer())
        } else {
            Err(WaitError::NotWaiting)
        }
    }
}

/// A slot for at most one value, with a record of the consumer that waits
/// for it.
pub struct Signal<T> {
    slot: Option<T>,
    waiting: bool,
}

impl<T> View for Signal<T> {
    type V = SignalState<T>;

    closed spec fn view(&self) -> SignalState<T> {
        SignalState { value: self.slot, waiting: self.waiting }
    }
}

impl<T> Signal<T> {
    /// An empty signal that nobody waits on.
    pub fn new() -> (signal: Self)
        ensures
            signal@ == SignalState::<T>::idle(),
    {
        Signal { slot: None, waiting: false }
    }

    /// Whether a value is in the slot.
    pub fn is_set(&self) -> (set: bool)
        ensures
            set == (self@.value is Some),
    {
        self.slot.is_some()
    }

    /// Whether a consumer is on record as waiting.
    pub fn is_waiting(&self) -> (waiting: bool)
        ensures
            waiting == self@.waiting,
    {
        self.waiting
    }

    /// Stores `value` if the slot is empty, and says whether a suspended
    /// consumer has to be woken for it. A slot that still holds a value is
    /// left alone, and the answer is `AlreadySet`.
    pub fn set(&mut self, value: T) -> (answer: Result<Wake, AlreadySet>)
        ensures
            answer == old(self)@.set_answer(),
            final(self)@ == old(self)@.after_set(value),
    {
        if self.slot.is_some() {
            Err(AlreadySet)
        } else {
            self.slot = Some(value);
            if self.waiting {
                Ok(Wake::Waiter)
            } else {
                Ok(Wake::Nobody)
            }
        }
    }

    /// Starts to wait, for a consumer that is not yet on record. A value
    /// that is present is handed over at once and leaves the slot; without
    /// one the consumer goes on record and has to suspend. While another
    /// consumer is on record the answer is `AlreadyWaiting` and nothing
    /// changes.
    pub fn wait(&mut self) -> (answer: Result<Delivery<T>, WaitError>)
        ensures
            answer == old(self)@.wait_answer(),
            final(self)@ == old(self)@.after_wait(),
    {
        if self.waiting {
            Err(WaitError::AlreadyWaiting)
        } else {
            Ok(self.take())
        }
    }

    /// Asks again, for the consumer on record. It gets the value if one has
    /// been set since and goes off record, or stays suspended. Without a
    /// consumer on record the answer is `NotWaiting` and nothing changes.
    pub fn resume(&mut self) -> (answer: Result<Delivery<T>, WaitError>)
        ensures
            answer == old(self)@.resume_answer(),
            final(self)@ == old(self)@.after_resume(),
    {
        if self.waiting {
            Ok(self.take())
        } else {
            Err(WaitError::NotWaiting)
        }
    }

    fn take(&mut self) -> (delivery: Delivery<T>)
        ensures
            delivery == old(self)@.take_answer(),
            final(self)@ == old(self)@.after_take(),
    {
        match self.slot.take() {
            Some(value) => {
                self.waiting = false;
                Delivery::Ready(value)
            },
            None => {
                self.waiting = true;
                Delivery::Pending
            },
        }
    }
}

impl<T> Default for Signal<T> {
    fn default() -> (signal: Self)
        ensures
            signal@ == SignalState::<T>::idle(),
    {
        Signal::new()
    }
}

/// A value that is set before anybody waits is handed to the first consumer
/// that waits, at once, and leaves the slot empty behind it.
pub proof fn lemma_set_then_wait<T>(state: SignalState<T>, value: T)
    requires
        state == SignalState::<T>::idle(),
    ensures
        state.set_answer() == Ok::<Wake, AlreadySet>(Wake::Nobody),
        state.after_set(value).wait_answer() == Ok::<Delivery<T>, WaitError>(
            Delivery::Ready(value),
        ),
        state.after_set(value).after_wait() == SignalState::<T>::idle(),
{
}

/// A consumer that waits before the value is set is suspended, `set` asks for
/// it to be woken, and on resuming it gets exactly the value that was set,
/// which leaves the slot empty behind it.
pub proof fn lemma_wait_then_set<T>(state: SignalState<T>, value: T)
    requires
        state == SignalState::<T>::idle(),
    ensures
        state.wait_answer() == Ok::<Delivery<T>, WaitError>(Delivery::Pending),
        state.after_wait().set_answer() == Ok::<Wake, AlreadySet>(Wake::Waiter),
        state.after_wait().after_set(value).resume_answer() == Ok::<Delivery<T>, WaitError>(
            Delivery::Ready(value),
        ),
        state.after_wait().after_set(value).after_resume() == SignalState::<T>::idle(),
{
}

/// A second `set` that is not preceded by a consumption fails with
/// `AlreadySet` and leaves the first value in place, whoever is waiting.
pub proof fn lemma_set_twice<T>(state: SignalState<T>, first: T, second: T)
    requires
        state.value is None,
    ensures
        state.set_answer() is Ok,
        state.after_set(first).set_answer() == Err::<Wake, AlreadySet>(AlreadySet),
        state.after_set(first).after_set(second) == state.after_set(first),
        state.after_set(first).value == Some(first),
{
}

/// A value is consumed exactly once: whenever a consumer is handed a value,
/// the slot is empty and nobody is on record afterwards, so that only a new
/// `set` can serve a later consumer.
pub proof fn lemma_one_shot<T>(state: SignalState<T>)
    ensures
        state.wait_answer() matches Ok(Delivery::Ready(_)) ==> state.after_wait()
            == SignalState::<T>::idle(),
        state.resume_answer() matches Ok(Delivery::Ready(_)) ==> state.after_resume()
            == SignalState::<T>::idle(),
        state.wait_answer() is Err ==> state.after_wait() == state,
        state.resume_answer() is Err ==> state.after_resume() == state,
{
}

/// While one consumer is on record, a second one is turned away, whether or
/// not the value has arrived in the meantime.
pub proof fn lemma_single_waiter<T>(state: SignalState<T>, value: T)
    requires
        state == SignalState::<T>::idle(),
    ensures
        state.after_wait().wait_answer() == Err::<Delivery<T>, WaitError>(
            WaitError::AlreadyWaiting,
        ),
        state.after_wait().after_set(value).wait_answer() == Err::<Delivery<T>, WaitError>(
            WaitError::AlreadyWaiting,
        ),
{
}

} // verus!

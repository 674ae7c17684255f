//! The counter state machine: storage model, transition rules, and the
//! notifications each successful operation emits.

use vstd::prelude::*;
use core::marker::PhantomData;
use crate::action::{Action, flip, flip_n, lemma_flip_n_parity};

verus! {

/// What the host runtime supplies to the machine: the type of the
/// authenticated caller identity attributed to each notification.
pub trait Config {
    type AccountId;
}

/// The one failure this machine can signal: a decrement was asked for while
/// the counter was already zero.
#[derive(Clone, Copy, Debug, PartialEq, Eq, Structural)]
pub enum Error {
    CannotGoBelowZero,
}

/// A notification describing a committed state change, handed back to the
/// host runtime's event sink.
#[derive(Debug, PartialEq, Eq)]
pub enum Event<T: Config> {
    /// The mode was toggled; carries the caller and the new mode.
    ToggleAction(T::AccountId, Action),
    /// The counter was changed; carries the caller, the mode that was
    /// applied, and the new counter value.
    ActionMade(T::AccountId, Action, i32),
}

/// The enumerated command surface: which of the two operations the host
/// runtime routes a call to.
#[derive(Clone, Copy, Debug, PartialEq, Eq, Structural)]
pub enum Call {
    ToggleAction,
    MakeAction,
}

/// The counter state machine. Its two storage cells start out unwritten and
/// read as their defaults: mode `Some(Increment)`, counter `0`.
pub struct Pallet<T: Config> {
    /// The counter cell; `None` while never written.
    number: Option<i32>,
    /// The mode cell; `None` while never written. Written values are always
    /// `Some(action)`: the toggle operation never stores an unset mode.
    action: Option<Option<Action>>,
    config: PhantomData<T>,
}

impl<T: Config> Pallet<T> {
    /// The counter value an apply operation reads: the stored value, or the
    /// default `0` while the cell was never written.
    pub closed spec fn counter(self) -> int {
        match self.number {
            Some(n) => n as int,
            None => 0,
        }
    }

    /// The mode an operation reads: the stored action, or the default
    /// `Increment` while the cell was never written.
    pub closed spec fn mode(self) -> Action {
        match self.action {
            Some(Some(a)) => a,
            _ => Action::Increment,
        }
    }

    /// Well-formedness: the counter never goes negative, and the mode cell,
    /// once written, always holds a defined action.
    pub closed spec fn wf(self) -> bool {
        &&& self.counter() >= 0
        &&& self.action matches Some(stored) ==> stored is Some
    }

    /// Everything a toggle call does: the mode flips, the counter is
    /// untouched, and the one notification emitted carries the caller and
    /// the new mode. A toggle never fails.
    pub open spec fn toggle_spec(
        pre: Self,
        post: Self,
        caller: T::AccountId,
        r: Result<Event<T>, Error>,
    ) -> bool {
        &&& post.wf()
        &&& post.mode() == flip(pre.mode())
        &&& post.counter() == pre.counter()
        &&& r == Ok::<Event<T>, Error>(Event::ToggleAction(caller, flip(pre.mode())))
    }

    /// Everything an apply call does. With mode `Increment` the counter
    /// grows by one; with mode `Decrement` and a positive counter it shrinks
    /// by one; either way the one notification emitted carries the caller,
    /// the mode applied, and the new counter value. With mode `Decrement`
    /// and a zero counter the call fails with `CannotGoBelowZero`, the state
    /// is unchanged, and nothing is emitted.
    pub open spec fn make_spec(
        pre: Self,
        post: Self,
        caller: T::AccountId,
        r: Result<Event<T>, Error>,
    ) -> bool {
        &&& post.wf()
        &&& post.mode() == pre.mode()
        &&& pre.mode() is Increment ==> {
            &&& post.counter() == pre.counter() + 1
            &&& r == Ok::<Event<T>, Error>(
                Event::ActionMade(caller, pre.mode(), (pre.counter() + 1) as i32),
            )
        }
        &&& pre.mode() is Decrement && pre.counter() > 0 ==> {
            &&& post.counter() == pre.counter() - 1
            &&& r == Ok::<Event<T>, Error>(
                Event::ActionMade(caller, pre.mode(), (pre.counter() - 1) as i32),
            )
        }
        &&& pre.mode() is Decrement && pre.counter() == 0 ==> {
            &&& post.counter() == pre.counter()
            &&& r == Err::<Event<T>, Error>(Error::CannotGoBelowZero)
        }
    }

    /// A fresh machine: both cells unwritten, so the mode reads `Increment`
    /// and the counter reads `0`.
    pub fn new() -> (p: Pallet<T>)
        ensures
            p.wf(),
            p.mode() == Action::Increment,
            p.counter() == 0,
    {
        Pallet { number: None, action: None, config: PhantomData }
    }

    /// The counter cell's get-or-default read.
    pub fn unary_number(&self) -> (n: i32)
        ensures
            n as int == self.counter(),
    {
        match self.number {
            Some(n) => n,
            None => 0,
        }
    }

    /// The mode cell's get-or-default read. Under well-formedness the result
    /// is always a defined action.
    pub fn unary_action(&self) -> (a: Option<Action>)
        ensures
            self.wf() ==> a == Some(self.mode()),
    {
        match self.action {
            Some(stored) => stored,
            None => Some(Action::Increment),
        }
    }

    /// Flip the mode and emit a `ToggleAction` notification carrying the new
    /// mode. Never fails once the caller is authenticated.
    pub fn toggle_action(&mut self, caller: T::AccountId) -> (r: Result<Event<T>, Error>)
        requires
            old(self).wf(),
        ensures
            Self::toggle_spec(*old(self), *final(self), caller, r),
    {
        let new_mode = match self.unary_action() {
            Some(Action::Increment) => Action::Decrement,
            _ => Action::Increment,
        };
        self.action = Some(Some(new_mode));
        Ok(Event::ToggleAction(caller, new_mode))
    }

    /// Apply the current mode to the counter: increment it, or decrement it
    /// if that does not take it below zero, and emit an `ActionMade`
    /// notification carrying the new value. A decrement from zero aborts
    /// with `CannotGoBelowZero` and changes nothing.
    pub fn make_action(&mut self, caller: T::AccountId) -> (r: Result<Event<T>, Error>)
        requires
            old(self).wf(),
            old(self).mode() is Increment ==> old(self).counter() < i32::MAX,
        ensures
            Self::make_spec(*old(self), *final(self), caller, r),
    {
        let mode = match self.unary_action() {
            Some(a) => a,
            None => Action::Increment,
        };
        let n = self.unary_number();
        match mode {
            Action::Increment => {
                self.number = Some(n + 1);
                Ok(Event::ActionMade(caller, Action::Increment, n + 1))
            },
            Action::Decrement => {
                if n - 1 > -1 {
                    self.number = Some(n - 1);
                    Ok(Event::ActionMade(caller, Action::Decrement, n - 1))
                } else {
                    Err(Error::CannotGoBelowZero)
                }
            },
        }
    }

    /// Route a command to its handler: `Call::ToggleAction` to
    /// `toggle_action`, `Call::MakeAction` to `make_action`.
    pub fn dispatch(&mut self, call: Call, caller: T::AccountId) -> (r: Result<Event<T>, Error>)
        requires
            old(self).wf(),
            call is MakeAction && old(self).mode() is Increment ==> old(self).counter()
                < i32::MAX,
        ensures
            call is ToggleAction ==> Self::toggle_spec(*old(self), *final(self), caller, r),
            call is MakeAction ==> Self::make_spec(*old(self), *final(self), caller, r),
    {
        match call {
            Call::ToggleAction => self.toggle_action(caller),
            Call::MakeAction => self.make_action(caller),
        }
    }

    /// In every reachable state the counter is non-negative: well-formedness
    /// holds of a fresh machine and is preserved by both operations, and it
    /// bounds the counter from below.
    pub proof fn lemma_counter_nonnegative(p: Pallet<T>)
        requires
            p.wf(),
        ensures
            p.counter() >= 0,
    {
    }

    /// An apply call succeeds exactly when it is not a decrement from zero.
    /// A successful call emits exactly one notification, and its counter
    /// value field equals the post-call counter; a failed call emits none
    /// and leaves the state as it was.
    pub proof fn lemma_make_action_notification(
        pre: Self,
        post: Self,
        caller: T::AccountId,
        r: Result<Event<T>, Error>,
    )
        requires
            pre.wf(),
            Self::make_spec(pre, post, caller, r),
        ensures
            r is Ok <==> !(pre.mode() is Decrement && pre.counter() == 0),
            r matches Ok(e) ==> e == Event::<T>::ActionMade(caller, pre.mode(), post.counter() as i32),
            r is Err ==> post.counter() == pre.counter() && post.mode() == pre.mode(),
    {
    }

    /// Two toggle calls in a row return the mode to its prior value and
    /// leave the counter untouched throughout.
    pub proof fn lemma_toggle_twice(
        p0: Self,
        p1: Self,
        p2: Self,
        caller1: T::AccountId,
        caller2: T::AccountId,
        r1: Result<Event<T>, Error>,
        r2: Result<Event<T>, Error>,
    )
        requires
            Self::toggle_spec(p0, p1, caller1, r1),
            Self::toggle_spec(p1, p2, caller2, r2),
        ensures
            p2.mode() == p0.mode(),
            p2.counter() == p0.counter(),
    {
    }

    /// A chain of toggle calls, `states[0]` through `states[n]` with each
    /// consecutive pair related by one call: an even number of calls leaves
    /// the mode as it was, an odd number flips it exactly once relative to
    /// the original, and the counter is never touched.
    pub proof fn lemma_toggle_chain(
        states: Seq<Pallet<T>>,
        callers: Seq<T::AccountId>,
        results: Seq<Result<Event<T>, Error>>,
    )
        requires
            states.len() >= 1,
            callers.len() == states.len() - 1,
            results.len() == states.len() - 1,
            forall|i: int|
                0 <= i < states.len() - 1 ==> Self::toggle_spec(
                    states[i],
                    states[i + 1],
                    callers[i],
                    results[i],
                ),
        ensures
            states.last().mode() == flip_n(states[0].mode(), (states.len() - 1) as nat),
            states.last().mode() == if (states.len() - 1) % 2 == 0 {
                states[0].mode()
            } else {
                flip(states[0].mode())
            },
            states.last().counter() == states[0].counter(),
        decreases states.len(),
    {
        let n = states.len() - 1;
        if n > 0 {
            let prefix = states.subrange(0, n as int);
            assert forall|i: int| 0 <= i < prefix.len() - 1 implies Self::toggle_spec(
                #[trigger] prefix[i],
                prefix[i + 1],
                callers.subrange(0, n - 1)[i],
                results.subrange(0, n - 1)[i],
            ) by {
                assert(Self::toggle_spec(states[i], states[i + 1], callers[i], results[i]));
            }
            Self::lemma_toggle_chain(
                prefix,
                callers.subrange(0, n - 1),
                results.subrange(0, n - 1),
            );
            assert(Self::toggle_spec(states[n - 1], states[n as int], callers[n - 1], results[n - 1]));
        }
        lemma_flip_n_parity(states[0].mode(), n as nat);
    }
}

impl<T: Config> Default for Pallet<T> {
    /// The default machine is the fresh one: mode `Increment`, counter `0`.
    fn default() -> (p: Pallet<T>)
        ensures
            p.wf(),
            p.mode() == Action::Increment,
            p.counter() == 0,
    {
        Pallet::new()
    }
}

} // verus!

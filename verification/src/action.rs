//! The two-valued transition mode and what toggling does to it.

use vstd::prelude::*;

verus! {

/// The current transition mode: the next apply operation either increments
/// or decrements the counter.
#[derive(Clone, Copy, Debug, PartialEq, Eq, Structural)]
pub enum Action {
    Increment,
    Decrement,
}

/// The mode that one toggle produces from `a`.
pub open spec fn flip(a: Action) -> Action {
    match a {
        Action::Increment => Action::Decrement,
        Action::Decrement => Action::Increment,
    }
}

/// The mode after `n` toggles starting from `a`.
pub open spec fn flip_n(a: Action, n: nat) -> Action
    decreases n,
{
    if n == 0 {
        a
    } else {
        flip(flip_n(a, (n - 1) as nat))
    }
}

/// Two toggles return the mode to its prior value.
pub proof fn lemma_flip_twice(a: Action)
    ensures
        flip(flip(a)) == a,
{
}

/// An even number of toggles leaves the mode as it was; an odd number flips
/// it exactly once relative to the original.
pub proof fn lemma_flip_n_parity(a: Action, n: nat)
    ensures
        flip_n(a, n) == if n % 2 == 0 {
            a
        } else {
            flip(a)
        },
    decreases n,
{
    if n > 0 {
        lemma_flip_n_parity(a, (n - 1) as nat);
    }
}

} // verus!

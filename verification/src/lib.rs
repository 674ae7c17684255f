//! A verified counter state machine: a non-negative counter together with a
//! two-valued action mode, exposed through a transactional interface.
//!
//! The host runtime owns storage and caller authentication; it hands each
//! operation an authenticated caller identity and a mutable handle on the
//! machine's state. Every operation either commits its state change and
//! returns the notification it emits, or aborts with an error and leaves the
//! state untouched.

pub mod action;
pub mod pallet;

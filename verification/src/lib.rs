//! Atomic acquisition of a whole group of spin mutexes.
//!
//! A [`MutexGroup`] borrows an ordered collection of `spin::Mutex`es and
//! acquires all of them at once: its [`MutexGroup::lock`] either holds
//! every member of the group or none, retrying whole passes until it
//! succeeds, so a caller never sits on a partial set of locks while
//! waiting for the rest. Success yields a [`MutexGroupGuard`] that owns
//! one [`ResourceToken`] per resource, in construction order, and
//! releases them all when dropped.

mod group;
mod token;

pub use group::MutexGroup;
pub use group::MutexGroupGuard;
pub use group::MutexGroupGuardIter;
pub use group::lemma_empty_group_guard;
pub use group::lemma_guard_covers_group;
pub use token::ResourceToken;

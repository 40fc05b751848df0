//! The set of users who have a request in flight.
//!
//! A user is in the set from the moment a request of theirs is let in until
//! it has come to its end, however it ended. While a user is in the set, no
//! further request of theirs is let in; other users are not affected.
//!
//! The set is a plain value. A program that shares it between threads keeps
//! it behind a lock, which it holds for one operation at a time and never
//! while it waits or sends.

use std::collections::HashSet;
use vstd::prelude::*;

verus! {

/// The users who have a request in flight.
pub struct GuardSet {
    busy: HashSet<u64>,
}

impl View for GuardSet {
    type V = Set<u64>;

    closed spec fn view(&self) -> Set<u64> {
        self.busy@
    }
}

/// One operation on the set.
pub enum GuardOp {
    Acquire(u64),
    Release(u64),
}

/// The set after one operation.
pub open spec fn after_op(busy: Set<u64>, op: GuardOp) -> Set<u64> {
    match op {
        GuardOp::Acquire(user) => busy.insert(user),
        GuardOp::Release(user) => busy.remove(user),
    }
}

/// Whether an acquisition by `user` succeeds on the set `busy`.
pub open spec fn acquires(busy: Set<u64>, user: u64) -> bool {
    !busy.contains(user)
}

/// The set after a sequence of operations, the first of them first.
pub open spec fn after_ops(busy: Set<u64>, ops: Seq<GuardOp>) -> Set<u64>
    decreases ops.len(),
{
    if ops.len() == 0 {
        busy
    } else {
        after_op(after_ops(busy, ops.drop_last()), ops.last())
    }
}

impl GuardSet {
    /// The set with no user in it.
    pub fn new() -> (guard: Self)
        ensures
            guard@ == Set::<u64>::empty(),
    {
        Self { busy: HashSet::new() }
    }

    /// Whether `user` has a request in flight.
    pub fn is_busy(&self, user: u64) -> (busy: bool)
        ensures
            busy == self@.contains(user),
    {
        broadcast use vstd::std_specs::hash::group_hash_axioms;

        self.busy.contains(&user)
    }

    /// Puts `user` into the set. Returns whether `user` was not in it: whether
    /// a request of theirs may go ahead.
    pub fn try_acquire(&mut self, user: u64) -> (acquired: bool)
        ensures
            acquired == acquires(old(self)@, user),
            final(self)@ == after_op(old(self)@, GuardOp::Acquire(user)),
    {
        broadcast use vstd::std_specs::hash::group_hash_axioms;

        self.busy.insert(user)
    }

    /// Takes `user` out of the set. Returns whether `user` was in it.
    pub fn release(&mut self, user: u64) -> (released: bool)
        ensures
            released == old(self)@.contains(user),
            final(self)@ == after_op(old(self)@, GuardOp::Release(user)),
    {
        broadcast use vstd::std_specs::hash::group_hash_axioms;

        self.busy.remove(&user)
    }
}

/// From a user's successful acquisition until their release, whatever other
/// users do in between, the user stays in the set, so that no further
/// acquisition of theirs succeeds; once released, the user is out of the set,
/// so that their next acquisition succeeds.
pub proof fn lemma_single_flight(busy: Set<u64>, user: u64, others: Seq<GuardOp>)
    requires
        forall|i: int| 0 <= i < others.len() ==> others[i] != GuardOp::Release(user),
    ensures
        !acquires(after_ops(after_op(busy, GuardOp::Acquire(user)), others), user),
        acquires(
            after_op(
                after_ops(after_op(busy, GuardOp::Acquire(user)), others),
                GuardOp::Release(user),
            ),
            user,
        ),
    decreases others.len(),
{
    if others.len() > 0 {
        lemma_single_flight(busy, user, others.drop_last());
    }
}

/// What one user does leaves every other user as they were.
pub proof fn lemma_users_apart(busy: Set<u64>, op: GuardOp, other: u64)
    requires
        op != GuardOp::Acquire(other),
        op != GuardOp::Release(other),
    ensures
        acquires(after_op(busy, op), other) == acquires(busy, other),
{
}

} // verus!

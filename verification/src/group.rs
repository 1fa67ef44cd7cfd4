//! The group of mutexes, the all-or-nothing acquisition loop, and the
//! combined guard it returns.

use vstd::prelude::*;

use crate::token::ResourceToken;
use crate::token::cpu_relax;
use crate::token::try_acquire;

verus! {

/// An ordered, immutable collection of borrowed spin mutexes that can be
/// acquired atomically as a group. The group holds no acquisition state
/// itself, so it can be locked any number of times.
#[verifier::reject_recursive_types(T)]
pub struct MutexGroup<'a, T> {
    mutexes: Vec<&'a spin::Mutex<T>>,
}

impl<'a, T> View for MutexGroup<'a, T> {
    type V = Seq<&'a spin::Mutex<T>>;

    /// A group is its sequence of member mutexes, in construction order.
    closed spec fn view(&self) -> Seq<&'a spin::Mutex<T>> {
        self.mutexes@
    }
}

impl<'a, T> MutexGroup<'a, T> {
    /// Builds a group over the given mutexes, keeping exactly their order.
    /// Duplicates are not rejected; a group that names the same mutex
    /// twice can never complete an acquisition pass.
    pub fn new(mutexes: Vec<&'a spin::Mutex<T>>) -> (group: Self)
        ensures
            group@ == mutexes@,
    {
        MutexGroup { mutexes }
    }

    /// How many resources the group was built over.
    pub fn len(&self) -> (n: usize)
        ensures
            n == self@.len(),
    {
        self.mutexes.len()
    }

    /// Acquires every mutex in the group, busy-waiting until a pass in
    /// which all of them are free, and returns the combined guard: one
    /// token per member, in group order. It never returns holding a
    /// strict subset, and it never fails: under permanent contention (or
    /// a duplicated member) it spins forever.
    ///
    /// The acquisition protocol itself is the verified [`Self::try_lock_all`];
    /// this shell is trusted only for the unbounded repetition, which can
    /// carry no termination certificate. Between failed passes it relies
    /// on `core::hint::spin_loop` for a processor yield hint.
    #[verifier::external_body]
    pub fn lock(&self) -> (guard: MutexGroupGuard<'a, T>)
        ensures
            guard.resources() == self@,
            guard@.len() == self@.len(),
    {
        loop {
            if let Some(guard) = self.try_lock_all() {
                return guard;
            }
            core::hint::spin_loop();
        }
    }

    /// Like [`Self::lock`], but gives up after `passes` failed passes, so
    /// a caller can put its own retry budget around acquisition. A result
    /// of `None` holds nothing: every lock taken during a failed pass has
    /// been released again.
    pub fn lock_attempts(&self, passes: usize) -> (r: Option<MutexGroupGuard<'a, T>>)
        ensures
            r matches Some(guard) ==> {
                &&& guard.resources() == self@
                &&& guard@.len() == self@.len()
            },
            passes == 0 ==> r is None,
            passes > 0 && self@.len() == 0 ==> r is Some,
    {
        let mut made: usize = 0;
        while made < passes
            invariant
                made <= passes,
                made > 0 ==> self@.len() > 0,
            decreases passes - made,
        {
            match self.try_lock_all() {
                Some(guard) => {
                    return Some(guard);
                }
                None => {}
            }
            cpu_relax();
            made = made + 1;
        }
        None
    }

    /// One all-or-nothing acquisition pass: tries each mutex in group
    /// order without blocking; on the first refusal it drops every token
    /// taken earlier in the same pass (releasing those locks) and reports
    /// `None`, so it either returns a guard over the whole group or holds
    /// nothing at all.
    pub fn try_lock_all(&self) -> (r: Option<MutexGroupGuard<'a, T>>)
        ensures
            r matches Some(guard) ==> {
                &&& guard.resources() == self@
                &&& guard@.len() == self@.len()
            },
            self@.len() == 0 ==> r is Some,
    {
        let mut tokens: Vec<ResourceToken<'a, T>> = Vec::new();
        let n = self.mutexes.len();
        let mut idx: usize = 0;
        while idx < n
            invariant
                idx <= n,
                n == self@.len(),
                tokens@.len() == idx,
                forall|j: int| 0 <= j < idx ==> #[trigger] tokens@[j].resource() == self@[j],
            decreases n - idx,
        {
            match try_acquire(self.mutexes[idx]) {
                Some(t) => {
                    tokens.push(t);
                }
                None => {
                    return None;
                }
            }
            idx = idx + 1;
        }
        let guard = MutexGroupGuard { tokens };
        proof {
            assert(guard.resources() =~= self@);
        }
        Some(guard)
    }
}

/// Proof of a completed acquisition: owns one [`ResourceToken`] for every
/// resource of the group it was obtained from, in group order, and
/// releases all of them when dropped. It exists only in the fully-held
/// state; no guard over a strict subset can be observed.
#[verifier::reject_recursive_types(T)]
pub struct MutexGroupGuard<'a, T> {
    tokens: Vec<ResourceToken<'a, T>>,
}

impl<'a, T> View for MutexGroupGuard<'a, T> {
    type V = Seq<T>;

    /// A guard is the sequence of values its tokens protect, in group
    /// order.
    closed spec fn view(&self) -> Seq<T> {
        Seq::new(self.tokens@.len(), |i: int| self.tokens@[i].value())
    }
}

impl<'a, T> MutexGroupGuard<'a, T> {
    /// The mutexes the guard's tokens were acquired from, in order.
    pub closed spec fn resources(&self) -> Seq<&'a spin::Mutex<T>> {
        Seq::new(self.tokens@.len(), |i: int| self.tokens@[i].resource())
    }

    /// How many resources the guard holds.
    pub fn len(&self) -> (n: usize)
        ensures
            n == self@.len(),
    {
        self.tokens.len()
    }

    /// Reads the value of the `i`-th held resource.
    pub fn read_at(&self, i: usize) -> (r: &T)
        requires
            i < self@.len(),
        ensures
            *r == self@[i as int],
    {
        self.tokens[i].read()
    }

    /// Starts a fresh, non-destructive pass over the held resources. The
    /// pass may be made any number of times while the guard lives.
    pub fn iter<'s>(&'s self) -> (it: MutexGroupGuardIter<'s, 'a, T>)
        ensures
            it.values() == self@,
            it.pos() == 0,
    {
        MutexGroupGuardIter { guard: self, pos: 0 }
    }

    /// Decomposes the guard into its per-resource tokens, in group order.
    /// Each token keeps its resource exclusively held until it is dropped,
    /// so the resources can be mutated and released independently.
    pub fn into_tokens(self) -> (tokens: Vec<ResourceToken<'a, T>>)
        ensures
            tokens@.len() == self@.len(),
            forall|j: int| 0 <= j < tokens@.len() ==> #[trigger] tokens@[j].value() == self@[j],
            forall|j: int| 0 <= j < tokens@.len() ==> #[trigger] tokens@[j].resource() == self.resources()[j],
    {
        self.tokens
    }
}

/// Law: acquisition is all-or-nothing and order-preserving. A guard whose
/// tokens come from a group — what [`MutexGroup::lock`] and
/// [`MutexGroup::try_lock_all`] return — holds exactly one value per
/// group member, and its `i`-th token was taken from the `i`-th mutex the
/// group was constructed with, so no guard over a non-empty strict subset
/// exists and iteration order is construction order.
pub proof fn lemma_guard_covers_group<'a, T>(group: &MutexGroup<'a, T>, guard: &MutexGroupGuard<'a, T>)
    requires
        guard.resources() == group@,
    ensures
        guard@.len() == group@.len(),
        forall|i: int| 0 <= i < group@.len() ==> guard.resources()[i] == group@[i],
{
}

/// Law: the guard of an empty group holds no values — acquisition of zero
/// resources succeeds with a guard that iterates zero elements.
pub proof fn lemma_empty_group_guard<'a, T>(group: &MutexGroup<'a, T>, guard: &MutexGroupGuard<'a, T>)
    requires
        group@.len() == 0,
        guard.resources() == group@,
    ensures
        guard@ =~= Seq::<T>::empty(),
{
}

/// A read-only pass over the values a guard holds, yielding them in group
/// order. It borrows the guard and releases nothing.
#[verifier::reject_recursive_types(T)]
pub struct MutexGroupGuardIter<'a, 'b, T> {
    guard: &'a MutexGroupGuard<'b, T>,
    pos: usize,
}

impl<'a, 'b, T> MutexGroupGuardIter<'a, 'b, T> {
    /// The full sequence of values the pass walks over.
    pub closed spec fn values(&self) -> Seq<T> {
        self.guard@
    }

    /// How many values the pass has yielded so far.
    pub closed spec fn pos(&self) -> int {
        self.pos as int
    }

    /// Yields a reference to the next held value, or `None` once every
    /// value has been yielded.
    pub fn next(&mut self) -> (r: Option<&'a T>)
        ensures
            final(self).values() == old(self).values(),
            old(self).pos() < old(self).values().len() ==> {
                &&& r matches Some(v) && *v == old(self).values()[old(self).pos()]
                &&& final(self).pos() == old(self).pos() + 1
            },
            old(self).pos() >= old(self).values().len() ==> {
                &&& r is None
                &&& final(self).pos() == old(self).pos()
            },
    {
        let g = self.guard;
        if self.pos < g.tokens.len() {
            let r = g.tokens[self.pos].read();
            self.pos = self.pos + 1;
            Some(r)
        } else {
            None
        }
    }
}

} // verus!

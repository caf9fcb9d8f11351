//! The cycle guard of the recursive descent: it knows which directories are
//! open ancestors of the one being listed.

use vstd::prelude::*;
use std::collections::HashSet;
use crate::filesystem::dev_ino::{identity_key, lemma_identity_key_injective, DevIno};

verus! {

broadcast use vstd::std_specs::hash::group_hash_axioms;

const TABLE_INIT_SIZE: usize = 32;

/// The identities that are active, and the chain of directories entered and
/// not yet left, outermost first.
pub struct GuardState {
    pub active: Set<(u64, u64)>,
    pub chain: Seq<(u64, u64)>,
}

impl GuardState {
    /// Visiting `id` makes it active and tells whether it was not active
    /// before.
    pub open spec fn visited(self, id: (u64, u64)) -> (GuardState, bool) {
        (GuardState { active: self.active.insert(id), chain: self.chain }, !self.active.contains(id))
    }

    /// Pushing `id` makes it the innermost directory of the chain.
    pub open spec fn pushed(self, id: (u64, u64)) -> GuardState {
        GuardState { active: self.active, chain: self.chain.push(id) }
    }

    /// Popping leaves the innermost directory: it leaves the chain and is no
    /// longer active.
    pub open spec fn popped(self) -> GuardState {
        GuardState { active: self.active.remove(self.chain.last()), chain: self.chain.drop_last() }
    }

    /// The active identities are exactly those of the chain, each once.
    pub open spec fn balanced(self) -> bool {
        &&& self.chain.no_duplicates()
        &&& forall|id: (u64, u64)| self.active.contains(id) <==> self.chain.contains(id)
    }
}

/// Entering a directory that is already an open ancestor is refused, and the
/// refusal changes nothing.
pub proof fn lemma_reentry_refused(state: GuardState, id: (u64, u64))
    ensures
        !state.visited(id).0.visited(id).1,
        state.active.contains(id) ==> state.visited(id).0 == state && !state.visited(id).1,
{
    if state.active.contains(id) {
        assert(state.active.insert(id) =~= state.active);
    }
}

/// Once a directory was entered and left again, it can be entered once
/// more.
pub proof fn lemma_reentry_after_leave(state: GuardState, id: (u64, u64))
    ensures
        state.visited(id).0.pushed(id).popped().visited(id).1,
{
    let entered = state.visited(id).0.pushed(id);
    assert(entered.chain.last() == id);
}

/// Entering a directory that is no ancestor keeps the active identities in
/// step with the chain, and leaving it again restores the guard.
pub proof fn lemma_enter_keeps_balance(state: GuardState, id: (u64, u64))
    requires
        state.balanced(),
        state.visited(id).1,
    ensures
        state.visited(id).0.pushed(id).balanced(),
        state.visited(id).0.pushed(id).popped() == state,
{
    let entered = state.visited(id).0.pushed(id);
    assert(entered.chain.drop_last() =~= state.chain);
    assert(entered.active.remove(id) =~= state.active);
    assert forall|other: (u64, u64)| entered.active.contains(other) <==> entered.chain.contains(
        other,
    ) by {
        if state.chain.contains(other) {
            let i = choose|i: int| 0 <= i < state.chain.len() && state.chain[i] == other;
            assert(entered.chain[i] == other);
        }
        if other == id {
            assert(entered.chain[entered.chain.len() - 1] == id);
        }
    }
}

/// Leaving the innermost directory keeps the active identities in step with
/// the chain.
pub proof fn lemma_leave_keeps_balance(state: GuardState)
    requires
        state.balanced(),
        state.chain.len() > 0,
    ensures
        state.popped().balanced(),
{
    let left = state.popped();
    let top = state.chain.last();
    assert forall|id: (u64, u64)| left.active.contains(id) <==> left.chain.contains(id) by {
        if left.chain.contains(id) {
            let i = choose|i: int| 0 <= i < left.chain.len() && left.chain[i] == id;
            assert(state.chain[i] == id);
            assert(state.chain[state.chain.len() - 1] == top);
        }
        if state.chain.contains(id) && id != top {
            let i = choose|i: int| 0 <= i < state.chain.len() && state.chain[i] == id;
            assert(left.chain[i] == id);
        }
    }
}

/// The guard itself.
#[derive(Debug)]
pub struct LoopManager {
    /// Keys of the directories that are active.
    active_dir_set: HashSet<u128>,
    /// The directories entered and not yet left.
    dev_ino_stack: Vec<DevIno>,
}

impl View for LoopManager {
    type V = GuardState;

    closed spec fn view(&self) -> GuardState {
        GuardState {
            active: Set::new(|id: (u64, u64)| self.active_dir_set@.contains(identity_key(id))),
            chain: Seq::new(self.dev_ino_stack@.len(), |i: int| self.dev_ino_stack@[i]@),
        }
    }
}

impl LoopManager {
    pub fn new() -> (guard: Self)
        ensures
            guard@.active == Set::<(u64, u64)>::empty(),
            guard@.chain == Seq::<(u64, u64)>::empty(),
    {
        let guard = LoopManager { active_dir_set: HashSet::new(), dev_ino_stack: Vec::new() };
        assert(guard@.active =~= Set::<(u64, u64)>::empty());
        assert(guard@.chain =~= Seq::<(u64, u64)>::empty());
        guard
    }

    /// Makes room for a descent of ordinary depth. The guard's state does not
    /// change.
    pub fn init_loop_detection(&mut self)
        ensures
            final(self)@ == old(self)@,
    {
        self.active_dir_set.reserve(TABLE_INIT_SIZE);
        self.dev_ino_stack.reserve(TABLE_INIT_SIZE);
        assert(self@.active =~= old(self)@.active);
        assert(self@.chain =~= old(self)@.chain);
    }

    /// Marks the directory `(dev, ino)` as active. Returns false if it already
    /// was, which means that the descent has come back to one of its own
    /// ancestors.
    pub fn visit_dir(&mut self, dev: u64, ino: u64) -> (fresh: bool)
        ensures
            (final(self)@, fresh) == old(self)@.visited((dev, ino)),
    {
        let ent: DevIno = DevIno::new(dev, ino);
        let fresh = self.active_dir_set.insert(ent.key());
        proof {
            assert forall|id: (u64, u64)|
                self@.active.contains(id) <==> old(self)@.active.insert((dev, ino)).contains(
                    id,
                ) by {
                lemma_identity_key_injective(id, (dev, ino));
            }
            assert(self@.active =~= old(self)@.active.insert((dev, ino)));
            assert(self@.chain =~= old(self)@.chain);
        }
        fresh
    }

    /// Records that the directory `(dev, ino)` was entered.
    pub fn dev_ino_push(&mut self, dev: u64, ino: u64)
        ensures
            final(self)@ == old(self)@.pushed((dev, ino)),
    {
        let dev_ino: DevIno = DevIno::new(dev, ino);
        self.dev_ino_stack.push(dev_ino);
        assert(self@.chain =~= old(self)@.chain.push((dev, ino)));
        assert(self@.active =~= old(self)@.active);
    }

    /// Leaves the directory entered last. Every leave answers an enter, so
    /// the chain must not be empty.
    pub fn dev_ino_pop(&mut self)
        requires
            old(self)@.chain.len() > 0,
        ensures
            final(self)@ == old(self)@.popped(),
    {
        let dev_ino: DevIno = self.dev_ino_stack.pop().unwrap();
        let key: u128 = dev_ino.key();
        self.active_dir_set.remove(&key);
        proof {
            let top = old(self)@.chain.last();
            assert(dev_ino@ == top);
            assert forall|id: (u64, u64)|
                self@.active.contains(id) <==> old(self)@.active.remove(top).contains(id) by {
                lemma_identity_key_injective(id, top);
            }
            assert(self@.active =~= old(self)@.active.remove(top));
            assert(self@.chain =~= old(self)@.chain.drop_last());
        }
    }
}

} // verus!

//! The set of containers that currently have a watcher.

use vstd::hash_set::StringHashSet;
use vstd::prelude::*;

verus! {

/// Identifiers of the containers under active supervision.
///
/// Membership is the single source of truth for "is this container already
/// being watched": an identifier is in the set exactly while one watcher for
/// it is alive.
pub struct TaskRegistry {
    watched: StringHashSet,
}

impl View for TaskRegistry {
    type V = Set<Seq<char>>;

    closed spec fn view(&self) -> Set<Seq<char>> {
        self.watched@
    }
}

impl TaskRegistry {
    /// An empty registry: nothing is watched.
    pub fn new() -> (registry: Self)
        ensures
            registry@ == Set::<Seq<char>>::empty(),
    {
        TaskRegistry { watched: StringHashSet::new() }
    }

    /// Whether a watcher for `id` is registered.
    pub fn is_running(&self, id: &str) -> (running: bool)
        ensures
            running == self@.contains(id@),
    {
        self.watched.contains(id)
    }

    /// Checks that `id` is absent and inserts it, in one step.
    ///
    /// Returns `true` when the caller won the registration and has to start
    /// the watcher; `false` when `id` was already watched, in which case the
    /// registry is left as it was.
    pub fn try_register(&mut self, id: String) -> (won: bool)
        ensures
            won == !old(self)@.contains(id@),
            final(self)@ == old(self)@.insert(id@),
            !won ==> final(self)@ == old(self)@,
    {
        let won = self.watched.insert(id);
        proof {
            if !won {
                assert(old(self)@.insert(id@) =~= old(self)@);
            }
        }
        won
    }

    /// Removes `id`; does nothing when it is absent.
    pub fn unregister(&mut self, id: &str)
        ensures
            final(self)@ == old(self)@.remove(id@),
    {
        self.watched.remove(id);
    }
}

} // verus!

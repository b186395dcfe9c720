//! The population of watchers over time: what holds of it after any
//! sequence of lifecycle events and watcher exits.

use crate::orchestrator::OrchestratorView;
use vstd::multiset::Multiset;
use vstd::prelude::*;

verus! {

/// The orchestrator together with the watchers that are alive, each
/// counted by the name it was started for.
pub struct Population {
    pub orchestrator: OrchestratorView,
    pub alive: Multiset<Seq<char>>,
}

/// Something that happens to the population.
pub enum Happening {
    /// The runtime reports a lifecycle event of a container.
    Lifecycle { name: Seq<char>, action: Option<Seq<char>> },
    /// A watcher found its container gone, deregistered itself and ended.
    Deregistered { name: Seq<char> },
    /// A watcher ended without deregistering: its liveness check failed,
    /// or the registry could not be reached.
    Abandoned { name: Seq<char> },
}

impl Population {
    /// The population after one happening. An exit of a watcher that is
    /// not alive cannot happen and changes nothing.
    pub open spec fn after(self, happening: Happening) -> Population {
        match happening {
            Happening::Lifecycle { name, action } => if self.orchestrator.spawns(name, action) {
                Population {
                    orchestrator: self.orchestrator.after_event(name, action),
                    alive: self.alive.insert(name),
                }
            } else {
                self
            },
            Happening::Deregistered { name } => if self.alive.count(name) > 0 {
                Population {
                    orchestrator: self.orchestrator.after_exit(name),
                    alive: self.alive.remove(name),
                }
            } else {
                self
            },
            Happening::Abandoned { name } => if self.alive.count(name) > 0 {
                Population { alive: self.alive.remove(name), ..self }
            } else {
                self
            },
        }
    }

    /// The population after a sequence of happenings, in order.
    pub open spec fn after_all(self, happenings: Seq<Happening>) -> Population
        decreases happenings.len(),
    {
        if happenings.len() == 0 {
            self
        } else {
            self.after_all(happenings.drop_last()).after(happenings.last())
        }
    }

    /// No container has two watchers, and every watcher that is alive is
    /// registered.
    pub open spec fn sound(self) -> bool {
        forall|name: Seq<char>|
            {
                &&& #[trigger] self.alive.count(name) <= 1
                &&& self.alive.count(name) == 1 ==> self.orchestrator.tasks.contains(name)
            }
    }

    /// The population at startup: nothing registered, nothing alive.
    pub open spec fn initial(orchestrator: OrchestratorView) -> Population {
        Population { orchestrator, alive: Multiset::<Seq<char>>::empty() }
    }
}

/// One happening keeps the population sound.
pub proof fn lemma_step_keeps_sound(population: Population, happening: Happening)
    requires
        population.sound(),
    ensures
        population.after(happening).sound(),
{
    let next = population.after(happening);
    assert forall|name: Seq<char>|
        {
            &&& #[trigger] next.alive.count(name) <= 1
            &&& next.alive.count(name) == 1 ==> next.orchestrator.tasks.contains(name)
        } by {
        assert(population.alive.count(name) <= 1);
    }
}

/// Whatever lifecycle events arrive and whichever watchers end, in any
/// order, no container ever has more than one watcher alive.
pub proof fn lemma_never_two_watchers(
    population: Population,
    happenings: Seq<Happening>,
    name: Seq<char>,
)
    requires
        population.sound(),
    ensures
        population.after_all(happenings).sound(),
        population.after_all(happenings).alive.count(name) <= 1,
    decreases happenings.len(),
{
    if happenings.len() > 0 {
        lemma_never_two_watchers(population, happenings.drop_last(), name);
        lemma_step_keeps_sound(population.after_all(happenings.drop_last()), happenings.last());
    }
}

/// The population at startup is sound.
pub proof fn lemma_initial_is_sound(orchestrator: OrchestratorView)
    ensures
        Population::initial(orchestrator).sound(),
{
}

/// While a container is registered, lifecycle events that name it start
/// nothing and change nothing, however many arrive.
pub proof fn lemma_events_of_registered_container_are_ignored(
    population: Population,
    name: Seq<char>,
    actions: Seq<Option<Seq<char>>>,
)
    requires
        population.orchestrator.tasks.contains(name),
    ensures
        population.after_all(
            Seq::new(actions.len(), |i: int| Happening::Lifecycle { name, action: actions[i] }),
        ) == population,
    decreases actions.len(),
{
    let happenings = Seq::new(
        actions.len(),
        |i: int| Happening::Lifecycle { name, action: actions[i] },
    );
    if actions.len() > 0 {
        let shorter = actions.drop_last();
        lemma_events_of_registered_container_are_ignored(population, name, shorter);
        assert(happenings.drop_last() =~= Seq::new(
            shorter.len(),
            |i: int| Happening::Lifecycle { name, action: shorter[i] },
        ));
    }
}

/// Of two `start` events for the same container with nothing in between,
/// the second never starts a watcher, whatever the first did.
pub proof fn lemma_second_start_loses(orchestrator: OrchestratorView, name: Seq<char>)
    ensures
        !orchestrator.after_event(name, Some("start"@)).spawns(name, Some("start"@)),
{
}

/// A `start` of a container that the allow-list holds back starts nothing,
/// registered or not; events other than `start` start nothing either.
pub proof fn lemma_filtered_or_other_events_start_nothing(
    orchestrator: OrchestratorView,
    name: Seq<char>,
    action: Option<Seq<char>>,
)
    requires
        !orchestrator.permits(name) || action != Some("start"@),
    ensures
        !orchestrator.spawns(name, action),
        orchestrator.after_event(name, action) == orchestrator,
{
}

/// The containers started by a run of `start` events are all different,
/// none of them was registered before, and afterwards exactly they have
/// been added to the registry.
pub proof fn lemma_starts_admit_each_container_once(
    orchestrator: OrchestratorView,
    names: Seq<Seq<char>>,
)
    ensures
        orchestrator.started_by(names).no_duplicates(),
        forall|i: int|
            0 <= i < orchestrator.started_by(names).len() ==> !orchestrator.tasks.contains(
                #[trigger] orchestrator.started_by(names)[i],
            ),
        orchestrator.after_starts(names).tasks == orchestrator.tasks.union(
            orchestrator.started_by(names).to_set(),
        ),
        orchestrator.after_starts(names).names == orchestrator.names,
        orchestrator.after_starts(names).enrichment == orchestrator.enrichment,
    decreases names.len(),
{
    let started = orchestrator.started_by(names);
    if names.len() == 0 {
        assert(orchestrator.tasks.union(started.to_set()) =~= orchestrator.tasks);
    } else {
        let shorter = names.drop_last();
        let before = orchestrator.started_by(shorter);
        let state = orchestrator.after_starts(shorter);
        lemma_starts_admit_each_container_once(orchestrator, shorter);
        if state.spawns(names.last(), Some("start"@)) {
            assert(!state.tasks.contains(names.last()));
            assert forall|i: int| 0 <= i < before.len() implies before[i] != names.last() by {
                assert(before.to_set().contains(before[i]));
            }
            before.lemma_push_to_set_commute(names.last());
            assert(state.tasks.insert(names.last()) =~= orchestrator.tasks.union(
                started.to_set(),
            ));
        }
    }
}

} // verus!

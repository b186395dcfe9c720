//! The orchestrator: which containers get a watcher, and when.
//!
//! It keeps the allow-list and the registry of watched containers, and
//! answers every listing and lifecycle event with the watchers to start.
//! Starting them, and feeding them, is the driver's work.

use crate::config::Params;
use crate::enrichment::EnrichmentBuilder;
use crate::error::Error;
use crate::registry::TaskRegistry;
use crate::runtime::{first_names, lookup, ContainerSummary, EventMessage};
use crate::text::{lemma_split_on_nonempty, same_text, split_commas, split_on, texts};
use crate::watcher::{ContainerWatcher, ContainerWatcherView};
use vstd::hash_set::StringHashSet;
use vstd::prelude::*;
use vstd::string::*;

verus! {

/// The names an allow-list setting stands for: the pieces between its
/// commas, or none at all where nothing was set.
pub open spec fn allow_list(containers: Option<Seq<char>>) -> Set<Seq<char>> {
    match containers {
        Some(list) => split_on(list, ',').to_set(),
        None => Set::<Seq<char>>::empty(),
    }
}

/// An optional text as an optional sequence of characters.
pub open spec fn text_of(value: Option<String>) -> Option<Seq<char>> {
    match value {
        Some(text) => Some(text@),
        None => None,
    }
}

/// The views of a list of watchers, in order.
pub open spec fn watcher_views(watchers: Seq<ContainerWatcher>) -> Seq<ContainerWatcherView> {
    Seq::new(watchers.len(), |i: int| watchers[i]@)
}

/// Fresh watchers for the given names, in order.
pub open spec fn fresh_watchers(names: Seq<Seq<char>>, enrichers: Seq<Option<u64>>) -> Seq<
    ContainerWatcherView,
> {
    Seq::new(names.len(), |i: int| ContainerWatcherView::fresh(names[i], enrichers))
}

/// Decides which containers are watched.
pub struct Orchestrator {
    enrichment: EnrichmentBuilder,
    names: StringHashSet,
    tasks: TaskRegistry,
}

/// The state of an orchestrator.
pub struct OrchestratorView {
    /// How the chains of new watchers are built.
    pub enrichment: EnrichmentBuilder,
    /// The allow-list; empty where every container is to be watched.
    pub names: Set<Seq<char>>,
    /// The containers that have a registered watcher.
    pub tasks: Set<Seq<char>>,
}

impl View for Orchestrator {
    type V = OrchestratorView;

    closed spec fn view(&self) -> OrchestratorView {
        OrchestratorView { enrichment: self.enrichment, names: self.names@, tasks: self.tasks@ }
    }
}

impl OrchestratorView {
    /// The allow-list lets `name` through: it is empty or holds the name.
    pub open spec fn permits(self, name: Seq<char>) -> bool {
        self.names.is_empty() || self.names.contains(name)
    }

    /// No watcher is registered for `name`.
    pub open spec fn unwatched(self, name: Seq<char>) -> bool {
        !self.tasks.contains(name)
    }

    /// The state after an attempt to start a watch of `name`.
    pub open spec fn after_start(self, name: Seq<char>) -> OrchestratorView {
        OrchestratorView { tasks: self.tasks.insert(name), ..self }
    }

    /// The state after the watcher of `name` has deregistered itself.
    pub open spec fn after_exit(self, name: Seq<char>) -> OrchestratorView {
        OrchestratorView { tasks: self.tasks.remove(name), ..self }
    }

    /// The event makes the orchestrator start a watcher: it is a `start`
    /// of a container that the allow-list lets through and that has no
    /// watcher yet.
    pub open spec fn spawns(self, name: Seq<char>, action: Option<Seq<char>>) -> bool {
        &&& action == Some("start"@)
        &&& self.permits(name)
        &&& self.unwatched(name)
    }

    /// The state after a lifecycle event.
    pub open spec fn after_event(self, name: Seq<char>, action: Option<Seq<char>>) -> OrchestratorView {
        if self.spawns(name, action) {
            self.after_start(name)
        } else {
            self
        }
    }

    /// The state after one `start` for each of `names`, in order.
    pub open spec fn after_starts(self, names: Seq<Seq<char>>) -> OrchestratorView
        decreases names.len(),
    {
        if names.len() == 0 {
            self
        } else {
            self.after_starts(names.drop_last()).after_event(names.last(), Some("start"@))
        }
    }

    /// The containers a watcher is started for when one `start` for each of
    /// `names` arrives, in order.
    pub open spec fn started_by(self, names: Seq<Seq<char>>) -> Seq<Seq<char>>
        decreases names.len(),
    {
        if names.len() == 0 {
            Seq::<Seq<char>>::empty()
        } else {
            let before = self.started_by(names.drop_last());
            if self.after_starts(names.drop_last()).spawns(names.last(), Some("start"@)) {
                before.push(names.last())
            } else {
                before
            }
        }
    }
}

impl Orchestrator {
    /// The orchestrator of a run: the allow-list of the settings, and
    /// nothing watched yet. `counter_found` tells whether the host has an
    /// energy counter.
    pub fn new(params: &Params, counter_found: bool) -> (orchestrator: Orchestrator)
        ensures
            orchestrator@.names == allow_list(text_of(params.containers)),
            orchestrator@.tasks == Set::<Seq<char>>::empty(),
            orchestrator@.enrichment.powercap() == (!params.disable_powercap && counter_found),
    {
        let mut names = StringHashSet::new();
        match &params.containers {
            Some(list) => {
                let parts = split_commas(list.as_str());
                let ghost pieces = texts(parts@);
                let n: usize = parts.len();
                let mut i: usize = 0;
                proof {
                    assert(pieces.take(0).to_set() =~= Set::<Seq<char>>::empty());
                }
                while i < n
                    invariant
                        i <= n,
                        n == parts@.len(),
                        pieces == texts(parts@),
                        names@ == pieces.take(i as int).to_set(),
                    decreases n - i,
                {
                    proof {
                        assert(pieces.take(i as int + 1) =~= pieces.take(i as int).push(
                            pieces[i as int],
                        ));
                        pieces.take(i as int).lemma_push_to_set_commute(pieces[i as int]);
                    }
                    names.insert(parts[i].clone());
                    i = i + 1;
                }
                proof {
                    assert(pieces.take(n as int) =~= pieces);
                }
            },
            None => {},
        }
        Orchestrator {
            enrichment: params.enrichment_builder(counter_found),
            names,
            tasks: TaskRegistry::new(),
        }
    }

    /// Whether a watcher is registered for `name`.
    pub fn is_running(&self, name: &str) -> (running: bool)
        ensures
            running == !self@.unwatched(name@),
    {
        self.tasks.is_running(name)
    }

    /// Whether the allow-list lets `name` through.
    pub fn permits(&self, name: &str) -> (permitted: bool)
        ensures
            permitted == self@.permits(name@),
    {
        self.names.is_empty() || self.names.contains(name)
    }

    /// Registers `name` as watched, whether or not it already was.
    pub fn register_task(&mut self, name: String)
        ensures
            final(self)@ == old(self)@.after_start(name@),
    {
        self.tasks.try_register(name);
    }

    /// Takes note that the watcher of `name` has ended and asked to be
    /// deregistered. Does nothing where `name` is not registered.
    pub fn unregister(&mut self, name: &str)
        ensures
            final(self)@ == old(self)@.after_exit(name@),
    {
        self.tasks.unregister(name);
    }

    /// Attempts to start a watch of `container_name`.
    ///
    /// Where no watcher is registered for it, the name is registered and
    /// the new watcher is returned, with a fresh enrichment chain, for the
    /// driver to run. Where one is, nothing happens.
    pub fn handle_start_event(&mut self, container_name: String) -> (spawned: Option<
        ContainerWatcher,
    >)
        ensures
            final(self)@ == old(self)@.after_start(container_name@),
            spawned is Some <==> old(self)@.unwatched(container_name@),
            spawned is None ==> final(self)@ == old(self)@,
            spawned matches Some(watcher) ==> watcher@ == ContainerWatcherView::fresh(
                container_name@,
                old(self)@.enrichment.fresh(),
            ),
    {
        let key = container_name.clone();
        if self.tasks.try_register(key) {
            Some(ContainerWatcher::new(container_name, self.enrichment.build()))
        } else {
            None
        }
    }

    /// Takes a lifecycle event of the container `container_name`.
    ///
    /// Only a `start` of a container that the allow-list lets through is
    /// acted on, by an attempt to start a watch; everything else is
    /// ignored.
    pub fn handle_event(&mut self, container_name: String, action: Option<String>) -> (spawned:
        Option<ContainerWatcher>)
        ensures
            final(self)@ == old(self)@.after_event(container_name@, text_of(action)),
            spawned is Some <==> old(self)@.spawns(container_name@, text_of(action)),
            spawned matches Some(watcher) ==> watcher@ == ContainerWatcherView::fresh(
                container_name@,
                old(self)@.enrichment.fresh(),
            ),
    {
        if !self.permits(container_name.as_str()) {
            return None;
        }
        let is_start = match &action {
            Some(name) => same_text(name.as_str(), "start"),
            None => false,
        };
        if is_start {
            self.handle_start_event(container_name)
        } else {
            None
        }
    }

    /// Reads the listing of the running containers taken at startup: the
    /// first name of each entry that has one, or an error that says the
    /// listing failed.
    pub fn list_running(listing: Result<Vec<ContainerSummary>, String>) -> (running: Result<
        Vec<String>,
        Error,
    >)
        ensures
            match listing {
                Ok(entries) => running is Ok && texts(running->Ok_0@) == first_names(entries@),
                Err(message) => running is Err && running->Err_0 is Custom
                    && running->Err_0.text() == "couldn't list running containers: "@ + message@,
            },
    {
        match listing {
            Ok(entries) => {
                let mut names: Vec<String> = Vec::new();
                let n: usize = entries.len();
                let mut i: usize = 0;
                proof {
                    assert(entries@.take(0) =~= Seq::<ContainerSummary>::empty());
                    assert(texts(names@) =~= Seq::<Seq<char>>::empty());
                }
                while i < n
                    invariant
                        i <= n,
                        n == entries@.len(),
                        texts(names@) == first_names(entries@.take(i as int)),
                    decreases n - i,
                {
                    let ghost done = texts(names@);
                    proof {
                        assert(entries@.take(i as int + 1).drop_last() =~= entries@.take(i as int));
                        assert(entries@.take(i as int + 1).last() == entries@[i as int]);
                    }
                    match &entries[i].names {
                        Some(given) => {
                            if given.len() > 0 {
                                names.push(given[0].clone());
                                proof {
                                    assert(texts(names@) =~= done.push(given@[0]@));
                                }
                            }
                        },
                        None => {},
                    }
                    i = i + 1;
                }
                proof {
                    assert(entries@.take(n as int) =~= entries@);
                }
                Ok(names)
            },
            Err(message) => Err(
                Error::described("couldn't list running containers: ", message.as_str()),
            ),
        }
    }

    /// Takes the containers found running at startup: each is treated as
    /// if it had just started. Returns the watchers to run, in the order
    /// of the listing.
    pub fn adopt_running(&mut self, running: Vec<String>) -> (spawned: Vec<ContainerWatcher>)
        ensures
            final(self)@ == old(self)@.after_starts(texts(running@)),
            watcher_views(spawned@) == fresh_watchers(
                old(self)@.started_by(texts(running@)),
                old(self)@.enrichment.fresh(),
            ),
    {
        let ghost names = texts(running@);
        let ghost first = self@;
        let mut spawned: Vec<ContainerWatcher> = Vec::new();
        let n: usize = running.len();
        let mut i: usize = 0;
        proof {
            assert(names.take(0) =~= Seq::<Seq<char>>::empty());
            assert(watcher_views(spawned@) =~= fresh_watchers(
                first.started_by(names.take(0)),
                first.enrichment.fresh(),
            ));
        }
        while i < n
            invariant
                i <= n,
                n == running@.len(),
                names == texts(running@),
                self@ == first.after_starts(names.take(i as int)),
                self@.enrichment == first.enrichment,
                watcher_views(spawned@) == fresh_watchers(
                    first.started_by(names.take(i as int)),
                    first.enrichment.fresh(),
                ),
            decreases n - i,
        {
            let ghost done = watcher_views(spawned@);
            let ghost started = first.started_by(names.take(i as int));
            proof {
                assert(names.take(i as int + 1).drop_last() =~= names.take(i as int));
                assert(names.take(i as int + 1).last() == names[i as int]);
            }
            let name = running[i].clone();
            match self.handle_event(name, Some(String::from_str("start"))) {
                Some(watcher) => {
                    spawned.push(watcher);
                    proof {
                        assert(watcher_views(spawned@) =~= done.push(watcher@));
                        assert(fresh_watchers(started.push(names[i as int]), first.enrichment.fresh())
                            =~= done.push(watcher@));
                    }
                },
                None => {},
            }
            i = i + 1;
        }
        proof {
            assert(names.take(n as int) =~= names);
        }
        spawned
    }

    /// Takes an event of the lifecycle stream: where it names a container,
    /// it is handled as `handle_event` says; where it does not, it is
    /// ignored.
    pub fn on_event(&mut self, event: EventMessage) -> (spawned: Option<ContainerWatcher>)
        ensures
            match event.container_name() {
                Some(name) => {
                    &&& final(self)@ == old(self)@.after_event(name, text_of(event.action))
                    &&& spawned is Some <==> old(self)@.spawns(name, text_of(event.action))
                    &&& spawned matches Some(watcher) ==> watcher@ == ContainerWatcherView::fresh(
                        name,
                        old(self)@.enrichment.fresh(),
                    )
                },
                None => final(self)@ == old(self)@ && spawned is None,
            },
    {
        match get_container_name(&event) {
            Some(container_name) => self.handle_event(container_name, event.action),
            None => None,
        }
    }
}

/// Where an allow-list was set, a container is let through exactly when it
/// is one of the pieces of the setting: a setting never stands for "every
/// container", not even the empty one.
pub proof fn lemma_set_allow_list_always_filters(
    orchestrator: OrchestratorView,
    list: Seq<char>,
    name: Seq<char>,
)
    requires
        orchestrator.names == allow_list(Some(list)),
    ensures
        orchestrator.permits(name) == split_on(list, ',').contains(name),
{
    let pieces = split_on(list, ',');
    lemma_split_on_nonempty(list, ',');
    assert(pieces.contains(pieces[0]));
    assert(pieces.to_set().contains(pieces[0]));
}

/// Without an allow-list every container is let through.
pub proof fn lemma_no_allow_list_lets_everything_through(
    orchestrator: OrchestratorView,
    name: Seq<char>,
)
    requires
        orchestrator.names == allow_list(None),
    ensures
        orchestrator.permits(name),
{
}

/// The name of the container an event is about, where it names one.
pub fn get_container_name(event: &EventMessage) -> (name: Option<String>)
    ensures
        text_of(name) == event.container_name(),
{
    match &event.actor {
        Some(actor) => match &actor.attributes {
            Some(attributes) => find_value(attributes, "name"),
            None => None,
        },
        None => None,
    }
}

/// The value of the first pair whose key is `key`, if there is one.
pub fn find_value(pairs: &Vec<(String, String)>, key: &str) -> (value: Option<String>)
    ensures
        text_of(value) == lookup(pairs@, key@),
{
    let n: usize = pairs.len();
    let mut i: usize = 0;
    proof {
        assert(pairs@.skip(0) =~= pairs@);
    }
    while i < n
        invariant
            i <= n,
            n == pairs@.len(),
            lookup(pairs@, key@) == lookup(pairs@.skip(i as int), key@),
        decreases n - i,
    {
        proof {
            assert(pairs@.skip(i as int)[0] == pairs@[i as int]);
        }
        if same_text(pairs[i].0.as_str(), key) {
            return Some(pairs[i].1.clone());
        }
        proof {
            assert(pairs@.skip(i as int).skip(1) =~= pairs@.skip(i as int + 1));
        }
        i = i + 1;
    }
    None
}

} // verus!

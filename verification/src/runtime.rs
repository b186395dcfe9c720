//! What is exchanged with the container runtime, as plain values: the
//! queries the collector asks for and the answers and events it is given.

use crate::text::texts;
use vstd::prelude::*;
use vstd::string::*;

verus! {

/// A listing request: containers of every state are considered, and kept
/// where they match the filters.
#[derive(Debug, Clone)]
pub struct ContainerQuery {
    /// Names to match; no filter on names where empty.
    pub name: Vec<String>,
    /// States to match.
    pub status: Vec<String>,
}

/// `ContainerQuery` with its texts as sequences of characters.
pub struct ContainerQueryView {
    pub name: Seq<Seq<char>>,
    pub status: Seq<Seq<char>>,
}

impl View for ContainerQuery {
    type V = ContainerQueryView;

    open spec fn view(&self) -> ContainerQueryView {
        ContainerQueryView { name: texts(self.name@), status: texts(self.status@) }
    }
}

impl ContainerQueryView {
    /// Every running container.
    pub open spec fn running() -> ContainerQueryView {
        ContainerQueryView { name: Seq::<Seq<char>>::empty(), status: seq!["running"@] }
    }
}

impl ContainerQuery {
    /// The request for every running container.
    pub fn running() -> (query: ContainerQuery)
        ensures
            query@ == ContainerQueryView::running(),
    {
        let mut status: Vec<String> = Vec::new();
        status.push(String::from_str("running"));
        let query = ContainerQuery { name: Vec::new(), status };
        proof {
            assert(query@.name =~= Seq::<Seq<char>>::empty());
            assert(query@.status =~= seq!["running"@]);
        }
        query
    }
}

/// A subscription to the lifecycle events of the runtime.
#[derive(Debug, Clone)]
pub struct EventsQuery {
    /// Types of object whose events are wanted.
    pub types: Vec<String>,
}

impl EventsQuery {
    /// The subscription of the orchestrator: events of containers only,
    /// filtered by the runtime itself.
    pub fn containers() -> (query: EventsQuery)
        ensures
            texts(query.types@) == seq!["container"@],
    {
        let mut types: Vec<String> = Vec::new();
        types.push(String::from_str("container"));
        proof {
            assert(texts(types@) =~= seq!["container"@]);
        }
        EventsQuery { types }
    }
}

/// One entry of a listing.
#[derive(Debug, Clone)]
pub struct ContainerSummary {
    /// The names the container was given, where reported.
    pub names: Option<Vec<String>>,
}

impl ContainerSummary {
    /// The first name of the container, if it has one.
    pub open spec fn first_name(&self) -> Option<Seq<char>> {
        match self.names {
            Some(names) => if names@.len() > 0 {
                Some(names@[0]@)
            } else {
                None
            },
            None => None,
        }
    }
}

/// The first names of the entries of a listing, in order; entries without a
/// name are left out.
pub open spec fn first_names(listing: Seq<ContainerSummary>) -> Seq<Seq<char>>
    decreases listing.len(),
{
    if listing.len() == 0 {
        Seq::<Seq<char>>::empty()
    } else {
        let before = first_names(listing.drop_last());
        match listing.last().first_name() {
            Some(name) => before.push(name),
            None => before,
        }
    }
}

/// Who an event is about.
#[derive(Debug, Clone)]
pub struct EventActor {
    /// Identifier of the object, where reported.
    pub id: Option<String>,
    /// Attributes of the object as pairs of key and value, where reported.
    /// No key occurs twice.
    pub attributes: Option<Vec<(String, String)>>,
}

/// A lifecycle event of the runtime.
#[derive(Debug, Clone)]
pub struct EventMessage {
    /// What happened, where reported.
    pub action: Option<String>,
    /// Who it happened to, where reported.
    pub actor: Option<EventActor>,
}

/// The value of the first pair whose key is `key`.
pub open spec fn lookup(pairs: Seq<(String, String)>, key: Seq<char>) -> Option<Seq<char>>
    decreases pairs.len(),
{
    if pairs.len() == 0 {
        None
    } else if pairs[0].0@ == key {
        Some(pairs[0].1@)
    } else {
        lookup(pairs.skip(1), key)
    }
}

impl EventMessage {
    /// The name of the container the event is about: the attribute `name`
    /// of its actor.
    pub open spec fn container_name(&self) -> Option<Seq<char>> {
        match self.actor {
            Some(actor) => match actor.attributes {
                Some(attributes) => lookup(attributes@, "name"@),
                None => None,
            },
            None => None,
        }
    }
}

} // verus!

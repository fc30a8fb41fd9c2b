//! The peer registry and the rules that change it.
//!
//! Every change to the registry and every broadcast goes through
//! [`Registry::handle_event`], one event at a time. The registry touches no
//! queue and no socket: it answers each event with the [`Action`]s that the
//! event calls for, which the broker carries out, in order, before the next
//! event is looked at.

use vstd::prelude::*;
use vstd::string::*;

use crate::event::event_models;
use crate::event::Event;
use crate::event::EventModel;
use crate::text::broadcast_line;
use crate::text::format_broadcast_line;

verus! {

/// One registry entry: a peer's name and the connection whose outbound queue
/// receives its broadcasts.
#[derive(Debug, PartialEq, Eq)]
pub struct Peer {
    pub name: String,
    pub conn: u64,
}

/// [`Peer`] over mathematical text.
pub struct PeerModel {
    pub name: Seq<char>,
    pub conn: u64,
}

impl View for Peer {
    type V = PeerModel;

    open spec fn view(&self) -> PeerModel {
        PeerModel { name: self.name@, conn: self.conn }
    }
}

/// What an event calls for.
#[derive(Debug, PartialEq, Eq)]
pub enum Action {
    /// Create the outbound queue of connection `conn` and start the writer
    /// that drains it into the connection's socket.
    SpawnWriter { conn: u64 },
    /// Push `line` onto the outbound queue of connection `conn`. A queue that
    /// is closed swallows the line; the next action is carried out all the
    /// same.
    Deliver { conn: u64, line: String },
}

/// [`Action`] over mathematical text.
pub enum ActionModel {
    SpawnWriter { conn: u64 },
    Deliver { conn: u64, line: Seq<char> },
}

impl View for Action {
    type V = ActionModel;

    open spec fn view(&self) -> ActionModel {
        match self {
            Action::SpawnWriter { conn } => ActionModel::SpawnWriter { conn: *conn },
            Action::Deliver { conn, line } => ActionModel::Deliver { conn: *conn, line: line@ },
        }
    }
}

/// The actions of a batch, each as its model.
pub open spec fn action_models(actions: Seq<Action>) -> Seq<ActionModel> {
    actions.map_values(|action: Action| action@)
}

/// The names in a registry, in registration order.
pub open spec fn names(registry: Seq<PeerModel>) -> Seq<Seq<char>> {
    registry.map_values(|peer: PeerModel| peer.name)
}

/// Whether some entry of `registry` is called `name`.
pub open spec fn is_registered(registry: Seq<PeerModel>, name: Seq<char>) -> bool {
    names(registry).contains(name)
}

/// The connection registered under `name`, if there is one.
pub open spec fn conn_of(registry: Seq<PeerModel>, name: Seq<char>) -> Option<u64> {
    if is_registered(registry, name) {
        Some(registry[names(registry).index_of(name)].conn)
    } else {
        None
    }
}

/// The registry invariant: at most one entry per name.
pub open spec fn distinct_names(registry: Seq<PeerModel>) -> bool {
    names(registry).no_duplicates()
}

/// The line `"{from}: {msg}\n"` for every entry of `registry`, in
/// registration order; the sender's own entry is not left out.
pub open spec fn deliveries(
    registry: Seq<PeerModel>,
    from: Seq<char>,
    msg: Seq<char>,
) -> Seq<ActionModel> {
    Seq::new(
        registry.len(),
        |i: int| ActionModel::Deliver { conn: registry[i].conn, line: broadcast_line(from, msg) },
    )
}

/// The registry after one event: a new name is appended, a name that is
/// taken changes nothing (the first registration wins), a message changes
/// nothing.
pub open spec fn registry_after(registry: Seq<PeerModel>, event: EventModel) -> Seq<PeerModel> {
    match event {
        EventModel::NewPeer { name, conn } => if is_registered(registry, name) {
            registry
        } else {
            registry.push(PeerModel { name, conn })
        },
        EventModel::Message { .. } => registry,
    }
}

/// The actions that one event calls for, given the registry it meets.
pub open spec fn actions_for(registry: Seq<PeerModel>, event: EventModel) -> Seq<ActionModel> {
    match event {
        EventModel::NewPeer { name, conn } => if is_registered(registry, name) {
            Seq::empty()
        } else {
            seq![ActionModel::SpawnWriter { conn }]
        },
        EventModel::Message { from, msg } => deliveries(registry, from, msg),
    }
}

/// The registry after a sequence of events, processed in order.
pub open spec fn registry_after_all(
    registry: Seq<PeerModel>,
    events: Seq<EventModel>,
) -> Seq<PeerModel>
    decreases events.len(),
{
    if events.len() == 0 {
        registry
    } else {
        registry_after(registry_after_all(registry, events.drop_last()), events.last())
    }
}

/// The actions that a sequence of events calls for, in order: each event
/// meets the registry that the events before it left.
pub open spec fn actions_for_all(
    registry: Seq<PeerModel>,
    events: Seq<EventModel>,
) -> Seq<ActionModel>
    decreases events.len(),
{
    if events.len() == 0 {
        Seq::empty()
    } else {
        actions_for_all(registry, events.drop_last()) + actions_for(
            registry_after_all(registry, events.drop_last()),
            events.last(),
        )
    }
}

/// The peers that receive broadcasts, in the order in which they registered.
#[derive(Debug)]
pub struct Registry {
    peers: Vec<Peer>,
}

impl View for Registry {
    type V = Seq<PeerModel>;

    closed spec fn view(&self) -> Seq<PeerModel> {
        self.peers@.map_values(|peer: Peer| peer@)
    }
}

impl Registry {
    #[verifier::type_invariant]
    spec fn names_are_distinct(&self) -> bool {
        distinct_names(self@)
    }

    /// The empty registry.
    pub fn new() -> (registry: Registry)
        ensures
            registry@ == Seq::<PeerModel>::empty(),
            distinct_names(registry@),
    {
        let registry = Registry { peers: Vec::new() };
        assert(registry@ =~= Seq::<PeerModel>::empty());
        assert(names(registry@) =~= Seq::<Seq<char>>::empty());
        registry
    }

    /// The number of registered peers.
    pub fn peer_count(&self) -> (count: usize)
        ensures
            count == self@.len(),
    {
        self.peers.len()
    }

    /// The entry at position `index` of the registry, counted in registration
    /// order.
    pub fn peer(&self, index: usize) -> (peer: Option<&Peer>)
        ensures
            match peer {
                Some(entry) => index < self@.len() && entry@ == self@[index as int],
                None => index >= self@.len(),
            },
    {
        if index < self.peers.len() {
            Some(&self.peers[index])
        } else {
            None
        }
    }

    /// Where in the registry the peer called `name` stands.
    fn position(&self, name: &String) -> (found: Option<usize>)
        ensures
            match found {
                Some(index) => index < self@.len() && names(self@)[index as int] == name@,
                None => !is_registered(self@, name@),
            },
    {
        let mut i: usize = 0;
        while i < self.peers.len()
            invariant
                i <= self.peers.len(),
                forall|k: int| 0 <= k < i ==> names(self@)[k] != name@,
            decreases self.peers.len() - i,
        {
            assert(names(self@)[i as int] == self.peers[i as int].name@);
            if self.peers[i].name == *name {
                return Some(i);
            }
            i = i + 1;
        }
        None
    }

    /// Whether a peer called `name` is registered.
    pub fn is_registered(&self, name: &str) -> (found: bool)
        ensures
            found == is_registered(self@, name@),
    {
        self.position(&String::from_str(name)).is_some()
    }

    /// The connection that receives the broadcasts for `name`, if a peer of
    /// that name is registered.
    pub fn conn_of(&self, name: &str) -> (conn: Option<u64>)
        ensures
            conn == conn_of(self@, name@),
    {
        proof {
            use_type_invariant(self);
        }
        match self.position(&String::from_str(name)) {
            Some(index) => Some(self.peers[index].conn),
            None => None,
        }
    }

    /// Registers `conn` under `name` unless the name is taken. Returns
    /// whether the entry was added.
    pub fn register(&mut self, name: String, conn: u64) -> (added: bool)
        ensures
            added == !is_registered(old(self)@, name@),
            final(self)@ == registry_after(old(self)@, EventModel::NewPeer { name: name@, conn }),
            distinct_names(old(self)@),
            distinct_names(final(self)@),
    {
        proof {
            use_type_invariant(&*self);
        }
        if self.position(&name).is_some() {
            false
        } else {
            let ghost before = self@;
            let ghost entry = PeerModel { name: name@, conn };
            let mut peers: Vec<Peer> = Vec::new();
            proof {
                assert(names(peers@.map_values(|peer: Peer| peer@)) =~= Seq::<Seq<char>>::empty());
            }
            core::mem::swap(&mut self.peers, &mut peers);
            peers.push(Peer { name, conn });
            proof {
                assert(peers@.map_values(|peer: Peer| peer@) =~= before.push(entry));
                assert(names(before.push(entry)) =~= names(before).push(entry.name));
            }
            core::mem::swap(&mut self.peers, &mut peers);
            true
        }
    }

    /// Addresses the line `"{from}: {msg}\n"` to every registered peer, the
    /// sender included.
    pub fn broadcast(&self, from: &str, msg: &str) -> (actions: Vec<Action>)
        ensures
            actions@.len() == self@.len(),
            action_models(actions@) == deliveries(self@, from@, msg@),
    {
        let mut actions: Vec<Action> = Vec::new();
        let mut i: usize = 0;
        while i < self.peers.len()
            invariant
                i <= self.peers.len(),
                actions@.len() == i,
                forall|k: int|
                    0 <= k < i ==> (#[trigger] actions@[k])@ == deliveries(self@, from@, msg@)[k],
            decreases self.peers.len() - i,
        {
            let line = format_broadcast_line(from, msg);
            actions.push(Action::Deliver { conn: self.peers[i].conn, line });
            i = i + 1;
        }
        assert(action_models(actions@) =~= deliveries(self@, from@, msg@));
        actions
    }

    /// Applies one event to the registry and returns what it calls for.
    pub fn handle_event(&mut self, event: Event) -> (actions: Vec<Action>)
        ensures
            final(self)@ == registry_after(old(self)@, event@),
            action_models(actions@) == actions_for(old(self)@, event@),
            distinct_names(old(self)@),
            distinct_names(final(self)@),
    {
        proof {
            use_type_invariant(&*self);
        }
        match event {
            Event::Message { from, msg } => self.broadcast(from.as_str(), msg.as_str()),
            Event::NewPeer { name, conn } => {
                let mut actions: Vec<Action> = Vec::new();
                if self.register(name, conn) {
                    actions.push(Action::SpawnWriter { conn });
                    assert(action_models(actions@) =~= seq![ActionModel::SpawnWriter { conn }]);
                } else {
                    assert(action_models(actions@) =~= Seq::<ActionModel>::empty());
                }
                actions
            },
        }
    }

    /// Applies a sequence of events in order and returns, in order, what
    /// they call for.
    pub fn handle_all(&mut self, events: Vec<Event>) -> (actions: Vec<Action>)
        ensures
            final(self)@ == registry_after_all(old(self)@, event_models(events@)),
            action_models(actions@) == actions_for_all(old(self)@, event_models(events@)),
            distinct_names(final(self)@),
    {
        proof {
            use_type_invariant(&*self);
        }
        let ghost all = event_models(events@);
        let mut actions: Vec<Action> = Vec::new();
        assert(action_models(actions@) =~= Seq::<ActionModel>::empty());
        assert(all.take(0) =~= Seq::<EventModel>::empty());
        for event in it: events
            invariant
                all == event_models(events@),
                self@ == registry_after_all(old(self)@, all.take(it.index() as int)),
                action_models(actions@) == actions_for_all(old(self)@, all.take(it.index() as int)),
                distinct_names(self@),
        {
            let ghost done = all.take(it.index() as int);
            let ghost next = all.take(it.index() as int + 1);
            let ghost before = action_models(actions@);
            assert(next.drop_last() =~= done);
            assert(next.last() == event@);
            let mut more = self.handle_event(event);
            let ghost added = action_models(more@);
            actions.append(&mut more);
            assert(action_models(actions@) =~= before + added);
        }
        assert(all.take(all.len() as int) =~= all);
        actions
    }
}

} // verus!

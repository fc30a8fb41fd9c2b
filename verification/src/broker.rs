//! The broker: the single owner of the peer registry and of the outbound
//! queues.
//!
//! The broker is handed one event at a time. It lets the registry decide what
//! the event calls for and carries that out on the queues before it returns, so
//! that no two events' effects interleave. It never waits and never fails: a
//! line that a queue does not take is dropped, and the peers after it are
//! served all the same.

use vstd::prelude::*;

use crate::event::Event;
use crate::event::EventModel;
use crate::laws::lemma_broker_stays_well_formed;
use crate::laws::lemma_peers_are_served;
use crate::outbox::attempts;
use crate::outbox::attempts_for_all;
use crate::outbox::queues_after_all;
use crate::outbox::Attempt;
use crate::outbox::Outbox;
use crate::outbox::Performed;
use crate::registry::actions_for;
use crate::registry::distinct_names;
use crate::registry::registry_after;
use crate::registry::PeerModel;
use crate::registry::Registry;

verus! {

/// The broker as the contracts see it: the registry, and the connections
/// that have an outbound queue.
pub struct BrokerModel {
    pub registry: Seq<PeerModel>,
    pub queues: Seq<u64>,
}

/// Whether the connection of every registered peer has a queue.
pub open spec fn every_peer_has_a_queue(registry: Seq<PeerModel>, queues: Seq<u64>) -> bool {
    forall|i: int| 0 <= i < registry.len() ==> queues.contains((#[trigger] registry[i]).conn)
}

/// The broker's invariant: at most one entry per name, at most one queue per
/// connection, and a queue for the connection of every entry.
pub open spec fn well_formed(broker: BrokerModel) -> bool {
    &&& distinct_names(broker.registry)
    &&& broker.queues.no_duplicates()
    &&& every_peer_has_a_queue(broker.registry, broker.queues)
}

/// The broker of a relay that has just started: nobody is registered and no
/// queue is open.
pub open spec fn initial_broker() -> BrokerModel {
    BrokerModel { registry: Seq::empty(), queues: Seq::empty() }
}

/// The broker after one event.
pub open spec fn broker_after(broker: BrokerModel, event: EventModel) -> BrokerModel {
    BrokerModel {
        registry: registry_after(broker.registry, event),
        queues: queues_after_all(broker.queues, actions_for(broker.registry, event)),
    }
}

/// What the broker tries on its queues for one event: what the outbox tries
/// for each action that the registry calls for, in order.
pub open spec fn attempts_on(broker: BrokerModel, event: EventModel) -> Seq<Attempt> {
    attempts_for_all(broker.queues, actions_for(broker.registry, event))
}

/// The relay's broker.
pub struct Broker {
    registry: Registry,
    outbox: Outbox,
}

impl View for Broker {
    type V = BrokerModel;

    closed spec fn view(&self) -> BrokerModel {
        BrokerModel { registry: self.registry@, queues: self.outbox@ }
    }
}

impl Broker {
    #[verifier::type_invariant]
    spec fn is_well_formed(&self) -> bool {
        well_formed(self@)
    }

    /// A broker with an empty registry and no queues.
    pub fn new() -> (broker: Broker)
        ensures
            broker@ == initial_broker(),
            well_formed(broker@),
    {
        let registry = Registry::new();
        let outbox = Outbox::new();
        Broker { registry, outbox }
    }

    /// The peer registry.
    pub fn registry(&self) -> (registry: &Registry)
        ensures
            registry@ == self@.registry,
    {
        &self.registry
    }

    /// The outbound queues.
    pub fn outbox(&self) -> (outbox: &Outbox)
        ensures
            outbox@ == self@.queues,
    {
        &self.outbox
    }

    /// Applies one event: the registry changes as the event says, and what
    /// the event calls for is performed on the queues, in order. The result
    /// tells, action by action, what was done; a `WriterNeeded` in it holds
    /// the queue that a new writer is to drain. No line meets a connection
    /// without a queue.
    pub fn handle_event(&mut self, event: Event) -> (performed: Vec<Performed>)
        ensures
            final(self)@ == broker_after(old(self)@, event@),
            attempts(performed@) == attempts_on(old(self)@, event@),
            forall|i: int| 0 <= i < performed@.len() ==> !(performed@[i] is Undeliverable),
            well_formed(old(self)@),
            well_formed(final(self)@),
    {
        proof {
            use_type_invariant(&*self);
            lemma_broker_stays_well_formed(self@, event@);
            lemma_peers_are_served(self@, event@);
        }
        let mut taken = Broker::new();
        core::mem::swap(self, &mut taken);
        let Broker { mut registry, mut outbox } = taken;
        let actions = registry.handle_event(event);
        let performed = outbox.perform_all(actions);
        let mut next = Broker { registry, outbox };
        core::mem::swap(self, &mut next);
        assert forall|i: int| 0 <= i < performed@.len() implies !(performed@[i]
            is Undeliverable) by {
            assert(attempts(performed@)[i] == performed@[i].attempt());
        }
        performed
    }
}

} // verus!

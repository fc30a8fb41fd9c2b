//! What holds of the relay whatever its peers do.
//!
//! Each law is stated over the functions that the contracts of the registry,
//! the broker, the readers and the accept loop are stated over, so it holds of
//! every run that carries out their steps.

use vstd::prelude::*;

use crate::accept::accept_after;
use crate::accept::accept_step;
use crate::accept::AcceptInputModel;
use crate::accept::AcceptModel;
use crate::accept::AcceptPhase;
use crate::accept::AcceptStepModel;
use crate::broker::attempts_on;
use crate::broker::broker_after;
use crate::broker::every_peer_has_a_queue;
use crate::broker::initial_broker;
use crate::broker::well_formed;
use crate::broker::BrokerModel;
use crate::cipher::aes256_plaintext;
use crate::error::reach_of;
use crate::error::Reach;
use crate::error::RelayError;
use crate::event::EventModel;
use crate::outbox::attempt_for;
use crate::outbox::attempts_for_all;
use crate::outbox::queues_after;
use crate::outbox::queues_after_all;
use crate::outbox::Attempt;
use crate::reader::reader_after;
use crate::reader::reader_step;
use crate::reader::rejection_notice;
use crate::reader::submitted;
use crate::reader::ReaderInputModel;
use crate::reader::ReaderModel;
use crate::reader::ReaderStepModel;
use crate::registry::actions_for;
use crate::registry::conn_of;
use crate::registry::deliveries;
use crate::registry::distinct_names;
use crate::registry::is_registered;
use crate::registry::names;
use crate::registry::registry_after;
use crate::registry::registry_after_all;
use crate::registry::ActionModel;
use crate::registry::PeerModel;
use crate::text::broadcast_line;
use crate::writer::writer_step;
use crate::writer::WriterInputModel;
use crate::writer::WriterModel;
use crate::writer::WriterStepModel;

verus! {

/// The names that the `NewPeer` events of `events` announce, in order and
/// with repetitions.
pub open spec fn announced_names(events: Seq<EventModel>) -> Seq<Seq<char>>
    decreases events.len(),
{
    if events.len() == 0 {
        Seq::empty()
    } else {
        let before = announced_names(events.drop_last());
        match events.last() {
            EventModel::NewPeer { name, .. } => before.push(name),
            EventModel::Message { .. } => before,
        }
    }
}

/// The broker after a sequence of events, handled in order.
pub open spec fn broker_after_all(broker: BrokerModel, events: Seq<EventModel>) -> BrokerModel
    decreases events.len(),
{
    if events.len() == 0 {
        broker
    } else {
        broker_after(broker_after_all(broker, events.drop_last()), events.last())
    }
}

/// What the broker tries on its queues for a sequence of events, handled in
/// order.
pub open spec fn attempts_on_all(broker: BrokerModel, events: Seq<EventModel>) -> Seq<Attempt>
    decreases events.len(),
{
    if events.len() == 0 {
        Seq::empty()
    } else {
        attempts_on_all(broker, events.drop_last()) + attempts_on(
            broker_after_all(broker, events.drop_last()),
            events.last(),
        )
    }
}

/// The accept loop after a sequence of inputs, processed in order.
pub open spec fn accept_after_all(
    acceptor: AcceptModel,
    inputs: Seq<AcceptInputModel>,
) -> AcceptModel
    decreases inputs.len(),
{
    if inputs.len() == 0 {
        acceptor
    } else {
        accept_after(accept_after_all(acceptor, inputs.drop_last()), inputs.last())
    }
}

/// No event puts a second entry under a name: a registry with at most one
/// entry per name stays so.
pub proof fn lemma_registry_stays_unique(registry: Seq<PeerModel>, event: EventModel)
    requires
        distinct_names(registry),
    ensures
        distinct_names(registry_after(registry, event)),
{
    if let EventModel::NewPeer { name, conn } = event {
        if !is_registered(registry, name) {
            let entry = PeerModel { name, conn };
            assert(names(registry.push(entry)) =~= names(registry).push(name));
        }
    }
}

/// Entries are never removed, replaced or reordered: whatever events follow,
/// the registry still begins with the entries it had.
pub proof fn lemma_registry_only_grows(registry: Seq<PeerModel>, events: Seq<EventModel>)
    ensures
        registry_after_all(registry, events).len() >= registry.len(),
        registry_after_all(registry, events).take(registry.len() as int) == registry,
    decreases events.len(),
{
    if events.len() == 0 {
        assert(registry.take(registry.len() as int) =~= registry);
    } else {
        lemma_registry_only_grows(registry, events.drop_last());
        let before = registry_after_all(registry, events.drop_last());
        let after = registry_after(before, events.last());
        assert(after.take(registry.len() as int) =~= before.take(registry.len() as int));
    }
}

/// Processing events keeps the registry free of duplicate names, and the
/// names it then holds are those it held before together with those that
/// were announced.
pub proof fn lemma_registry_holds_announced_names(
    registry: Seq<PeerModel>,
    events: Seq<EventModel>,
)
    requires
        distinct_names(registry),
    ensures
        distinct_names(registry_after_all(registry, events)),
        names(registry_after_all(registry, events)).to_set() == names(registry).to_set().union(
            announced_names(events).to_set(),
        ),
    decreases events.len(),
{
    if events.len() == 0 {
        assert(announced_names(events).to_set() =~= Set::<Seq<char>>::empty());
        assert(names(registry).to_set().union(Set::<Seq<char>>::empty()) =~= names(
            registry,
        ).to_set());
    } else {
        let earlier = events.drop_last();
        let before = registry_after_all(registry, earlier);
        lemma_registry_holds_announced_names(registry, earlier);
        lemma_registry_stays_unique(before, events.last());
        match events.last() {
            EventModel::NewPeer { name, conn } => {
                announced_names(earlier).lemma_push_to_set_commute(name);
                if is_registered(before, name) {
                    assert(names(before).to_set().contains(name));
                    assert(names(before).to_set() =~= names(registry).to_set().union(
                        announced_names(events).to_set(),
                    ));
                } else {
                    let entry = PeerModel { name, conn };
                    assert(names(before.push(entry)) =~= names(before).push(name));
                    names(before).lemma_push_to_set_commute(name);
                    assert(names(before).to_set().insert(name) =~= names(registry).to_set().union(
                        announced_names(events).to_set(),
                    ));
                }
            },
            EventModel::Message { .. } => {},
        }
    }
}

/// A relay that starts with an empty registry holds, after any sequence of
/// events, exactly one entry for each distinct name that was announced:
/// repeated announcements of a name add nothing. Where all announced names
/// differ, it holds as many entries as there were announcements.
pub proof fn lemma_registry_counts_distinct_names(events: Seq<EventModel>)
    ensures
        registry_after_all(Seq::empty(), events).len() == announced_names(events).to_set().len(),
        announced_names(events).no_duplicates() ==> registry_after_all(
            Seq::empty(),
            events,
        ).len() == announced_names(events).len(),
{
    let empty = Seq::<PeerModel>::empty();
    let registry = registry_after_all(empty, events);
    assert(names(empty) =~= Seq::<Seq<char>>::empty());
    lemma_registry_holds_announced_names(empty, events);
    assert(names(empty).to_set() =~= Set::<Seq<char>>::empty());
    assert(names(registry).to_set() =~= announced_names(events).to_set());
    names(registry).unique_seq_to_set();
    if announced_names(events).no_duplicates() {
        announced_names(events).unique_seq_to_set();
    }
}

/// The first registration of a name wins for good: whatever events follow,
/// the name stays with the connection it was registered for.
pub proof fn lemma_first_registration_wins(
    registry: Seq<PeerModel>,
    events: Seq<EventModel>,
    name: Seq<char>,
)
    requires
        distinct_names(registry),
        is_registered(registry, name),
    ensures
        conn_of(registry_after_all(registry, events), name) == conn_of(registry, name),
{
    let after = registry_after_all(registry, events);
    lemma_registry_only_grows(registry, events);
    lemma_registry_holds_announced_names(registry, events);
    let first = names(registry).index_of(name);
    assert(after.take(registry.len() as int)[first] == registry[first]);
    assert(names(after)[first] == name);
    assert(names(after).index_of(name) == first);
}

/// A message that meets `n` registered peers leaves the registry as it was
/// and calls for exactly `n` deliveries: to every registered connection, in
/// registration order, the one line `"{from}: {msg}\n"`. The sender's own
/// entry is served like every other.
pub proof fn lemma_one_line_per_peer(registry: Seq<PeerModel>, from: Seq<char>, msg: Seq<char>)
    ensures
        registry_after(registry, EventModel::Message { from, msg }) == registry,
        actions_for(registry, EventModel::Message { from, msg }).len() == registry.len(),
        forall|i: int|
            0 <= i < registry.len() ==> #[trigger] actions_for(
                registry,
                EventModel::Message { from, msg },
            )[i] == (ActionModel::Deliver {
                conn: registry[i].conn,
                line: from + seq![':', ' '] + msg + seq!['\n'],
            }),
{
    assert(broadcast_line(from, msg) =~= from + seq![':', ' '] + msg + seq!['\n']);
}

/// Performing actions opens at most one queue per connection.
pub proof fn lemma_queues_stay_unique(queues: Seq<u64>, actions: Seq<ActionModel>)
    requires
        queues.no_duplicates(),
    ensures
        queues_after_all(queues, actions).no_duplicates(),
    decreases actions.len(),
{
    if actions.len() > 0 {
        lemma_queues_stay_unique(queues, actions.drop_last());
    }
}

/// No queue ever goes away: whatever actions are performed, the connections
/// that had a queue still have it.
pub proof fn lemma_queues_only_grow(queues: Seq<u64>, actions: Seq<ActionModel>)
    ensures
        queues_after_all(queues, actions).len() >= queues.len(),
        queues_after_all(queues, actions).take(queues.len() as int) == queues,
    decreases actions.len(),
{
    if actions.len() == 0 {
        assert(queues.take(queues.len() as int) =~= queues);
    } else {
        lemma_queues_only_grow(queues, actions.drop_last());
        let before = queues_after_all(queues, actions.drop_last());
        let after = queues_after(before, actions.last());
        assert(after.take(queues.len() as int) =~= before.take(queues.len() as int));
    }
}

/// The broker's invariant holds after every event: at most one entry per
/// name, at most one queue per connection, and a queue for every registered
/// connection.
pub proof fn lemma_broker_stays_well_formed(broker: BrokerModel, event: EventModel)
    requires
        well_formed(broker),
    ensures
        well_formed(broker_after(broker, event)),
{
    let actions = actions_for(broker.registry, event);
    let after = broker_after(broker, event);
    lemma_registry_stays_unique(broker.registry, event);
    lemma_queues_stay_unique(broker.queues, actions);
    lemma_queues_only_grow(broker.queues, actions);
    assert forall|i: int| 0 <= i < after.registry.len() implies after.queues.contains(
        (#[trigger] after.registry[i]).conn,
    ) by {
        if i < broker.registry.len() {
            assert(after.registry[i] == broker.registry[i]);
            let at = choose|k: int|
                0 <= k < broker.queues.len() && broker.queues[k] == broker.registry[i].conn;
            assert(after.queues.take(broker.queues.len() as int)[at] == broker.queues[at]);
            assert(after.queues[at] == broker.registry[i].conn);
        } else {
            let conn = after.registry[i].conn;
            assert(actions.len() == 1);
            assert(actions.drop_last() =~= Seq::<ActionModel>::empty());
            assert(queues_after_all(broker.queues, actions.drop_last()) == broker.queues);
            assert(after.queues == queues_after(broker.queues, actions.last()));
            if !broker.queues.contains(conn) {
                assert(broker.queues.push(conn).last() == conn);
            }
        }
    }
}

/// The broker's invariant holds in every state that a relay can reach: after
/// any sequence of events, handled from the start, no name has two entries,
/// no connection two queues, and every registered connection has its queue.
/// The registry the broker then holds is the one that the events alone
/// determine.
pub proof fn lemma_broker_is_always_well_formed(events: Seq<EventModel>)
    ensures
        well_formed(broker_after_all(initial_broker(), events)),
        broker_after_all(initial_broker(), events).registry == registry_after_all(
            Seq::empty(),
            events,
        ),
    decreases events.len(),
{
    if events.len() == 0 {
        assert(names(initial_broker().registry) =~= Seq::<Seq<char>>::empty());
    } else {
        lemma_broker_is_always_well_formed(events.drop_last());
        lemma_broker_stays_well_formed(
            broker_after_all(initial_broker(), events.drop_last()),
            events.last(),
        );
    }
}

/// Where every registered peer has a queue, no line meets a connection
/// without one. A message that meets `n` registered peers is pushed onto
/// exactly `n` queues, those of the registered connections in registration
/// order, whether or not a queue before took its line; it opens no queue and
/// leaves the registry as it was.
pub proof fn lemma_peers_are_served(broker: BrokerModel, event: EventModel)
    requires
        every_peer_has_a_queue(broker.registry, broker.queues),
    ensures
        attempts_on(broker, event).len() == actions_for(broker.registry, event).len(),
        forall|i: int|
            0 <= i < attempts_on(broker, event).len() ==> !(#[trigger] attempts_on(
                broker,
                event,
            )[i] is Undeliverable),
        event is Message ==> broker_after(broker, event) == broker,
        event is Message ==> attempts_on(broker, event) == Seq::new(
            broker.registry.len(),
            |i: int| Attempt::Pushed { conn: broker.registry[i].conn },
        ),
{
    let registry = broker.registry;
    let queues = broker.queues;
    let actions = actions_for(registry, event);
    match event {
        EventModel::NewPeer { .. } => {
            if actions.len() > 0 {
                assert(actions.len() == 1);
                assert(actions.drop_last() =~= Seq::<ActionModel>::empty());
                assert(attempts_for_all(queues, actions.drop_last()) =~= Seq::<Attempt>::empty());
                assert(queues_after_all(queues, actions.drop_last()) == queues);
                assert(attempts_for_all(queues, actions) =~= seq![
                    attempt_for(queues, actions.last()),
                ]);
            } else {
                assert(attempts_for_all(queues, actions) =~= Seq::<Attempt>::empty());
            }
        },
        EventModel::Message { from, msg } => {
            lemma_deliveries_are_pushed(registry, queues, from, msg, registry.len() as int);
            assert(actions.take(registry.len() as int) =~= actions);
        },
    }
}

/// The first `n` deliveries of a broadcast are pushed onto the queues of
/// the first `n` registered connections.
proof fn lemma_deliveries_are_pushed(
    registry: Seq<PeerModel>,
    queues: Seq<u64>,
    from: Seq<char>,
    msg: Seq<char>,
    n: int,
)
    requires
        every_peer_has_a_queue(registry, queues),
        0 <= n <= registry.len(),
    ensures
        queues_after_all(queues, deliveries(registry, from, msg).take(n)) == queues,
        attempts_for_all(queues, deliveries(registry, from, msg).take(n)) == Seq::new(
            n as nat,
            |i: int| Attempt::Pushed { conn: registry[i].conn },
        ),
    decreases n,
{
    let planned = deliveries(registry, from, msg).take(n);
    if n == 0 {
        assert(attempts_for_all(queues, planned) =~= Seq::new(
            0,
            |i: int| Attempt::Pushed { conn: registry[i].conn },
        ));
    } else {
        lemma_deliveries_are_pushed(registry, queues, from, msg, n - 1);
        assert(planned.drop_last() =~= deliveries(registry, from, msg).take(n - 1));
        assert(queues.contains(registry[n - 1].conn));
        assert(attempts_for_all(queues, planned) =~= Seq::new(
            n as nat,
            |i: int| Attempt::Pushed { conn: registry[i].conn },
        ));
    }
}

/// A line that does not decrypt ends the reader that got it, without an
/// error, and reaches nobody else. The reader submits no event, so the
/// broker is as it was, registry and queues, and nothing is tried on any
/// queue: no line is pushed and no writer is asked for. Every later input
/// to that reader is ignored.
pub proof fn lemma_decryption_failure_is_contained(
    reader: ReaderModel,
    line: Seq<char>,
    broker: BrokerModel,
    later: ReaderInputModel,
)
    requires
        reader.state is Relaying,
        aes256_plaintext(reader.key, line) is None,
    ensures
        reader_step(reader, ReaderInputModel::Line(line)) == (ReaderStepModel::Reject {
            log: rejection_notice(reader.state->name),
        }),
        submitted(reader_step(reader, ReaderInputModel::Line(line))) == Seq::<EventModel>::empty(),
        broker_after_all(broker, submitted(reader_step(reader, ReaderInputModel::Line(line))))
            == broker,
        attempts_on_all(broker, submitted(reader_step(reader, ReaderInputModel::Line(line))))
            == Seq::<Attempt>::empty(),
        reader_after(reader, ReaderInputModel::Line(line)).state is Closed,
        reader_step(reader_after(reader, ReaderInputModel::Line(line)), later)
            == ReaderStepModel::Ignore,
{
}

/// A connection that closes before it sent its name ends its reader with
/// `PeerDisconnectedImmediately` and leaves no trace: no event is submitted,
/// so the broker is as it was, without an entry or a queue for the
/// connection, and nothing is tried on any queue.
pub proof fn lemma_silent_disconnect_leaves_no_trace(reader: ReaderModel, broker: BrokerModel)
    requires
        reader.state is AwaitingName,
    ensures
        reader_step(reader, ReaderInputModel::EndOfStream) == (ReaderStepModel::Fail {
            error: RelayError::PeerDisconnectedImmediately,
        }),
        submitted(reader_step(reader, ReaderInputModel::EndOfStream)) == Seq::<EventModel>::empty(),
        broker_after_all(broker, submitted(reader_step(reader, ReaderInputModel::EndOfStream)))
            == broker,
        attempts_on_all(broker, submitted(reader_step(reader, ReaderInputModel::EndOfStream)))
            == Seq::<Attempt>::empty(),
        reader_after(reader, ReaderInputModel::EndOfStream).state is Closed,
{
}

/// Only a failed bind is fatal. Whatever a reader or a writer ends its task
/// with reaches that connection alone, and what a reader passes over reaches
/// nowhere; the accept loop gives up on a failed bind and on nothing else,
/// and once it listens, no input stops it.
pub proof fn lemma_only_a_failed_bind_is_fatal(
    reader: ReaderModel,
    reader_input: ReaderInputModel,
    writer: WriterModel,
    writer_input: WriterInputModel,
    acceptor: AcceptModel,
    accept_input: AcceptInputModel,
)
    ensures
        reader_step(reader, reader_input) matches ReaderStepModel::Fail { error } ==> reach_of(
            error,
        ) == Reach::Connection,
        reader_step(reader, reader_input) matches ReaderStepModel::PassOver { error }
            ==> reach_of(error) == Reach::Nowhere,
        writer_step(writer, writer_input) matches WriterStepModel::Fail { error } ==> reach_of(
            error,
        ) == Reach::Connection,
        accept_step(acceptor, accept_input) matches AcceptStepModel::Abort { error } ==> {
            &&& reach_of(error) == Reach::Startup
            &&& acceptor.phase == AcceptPhase::Binding
            &&& accept_input is BindFailed
        },
        acceptor.phase == AcceptPhase::Listening ==> accept_after(
            acceptor,
            accept_input,
        ).phase == AcceptPhase::Listening,
{
}

/// A reader keeps the name it announced: after any input it is still
/// relaying under that name or it has ended, and every message it submits
/// is sent in that name.
pub proof fn lemma_name_is_fixed(reader: ReaderModel, input: ReaderInputModel)
    requires
        reader.state is Relaying,
    ensures
        reader_after(reader, input).state is Closed || reader_after(reader, input).state
            == reader.state,
        forall|i: int|
            0 <= i < submitted(reader_step(reader, input)).len() ==> (#[trigger] submitted(
                reader_step(reader, input),
            )[i] matches EventModel::Message { from, .. } && from == reader.state->name),
{
}

/// A second connection that announces a name already in the registry is
/// passed over. The broker is as it was: the name stays with its first
/// holder, and no queue is opened and no writer asked for. Every later
/// message is pushed exactly as it would have been without the
/// announcement: onto the queue of every registered connection, the first
/// holder's among them, and never onto a queue of the second connection,
/// which has none.
pub proof fn lemma_duplicate_name_is_ignored(
    broker: BrokerModel,
    name: Seq<char>,
    conn: u64,
    from: Seq<char>,
    msg: Seq<char>,
)
    requires
        well_formed(broker),
        is_registered(broker.registry, name),
        !broker.queues.contains(conn),
    ensures
        broker_after(broker, EventModel::NewPeer { name, conn }) == broker,
        attempts_on(broker, EventModel::NewPeer { name, conn }) == Seq::<Attempt>::empty(),
        conn_of(broker_after(broker, EventModel::NewPeer { name, conn }).registry, name) == conn_of(
            broker.registry,
            name,
        ),
        attempts_on(
            broker_after(broker, EventModel::NewPeer { name, conn }),
            EventModel::Message { from, msg },
        ) == Seq::new(
            broker.registry.len(),
            |i: int| Attempt::Pushed { conn: broker.registry[i].conn },
        ),
        forall|i: int|
            0 <= i < broker.registry.len() ==> (#[trigger] broker.registry[i]).conn != conn,
{
    lemma_peers_are_served(broker, EventModel::Message { from, msg });
}

/// The count of served connections never goes down.
pub proof fn lemma_served_never_decreases(acceptor: AcceptModel, inputs: Seq<AcceptInputModel>)
    ensures
        accept_after_all(acceptor, inputs).served >= acceptor.served,
    decreases inputs.len(),
{
    if inputs.len() > 0 {
        lemma_served_never_decreases(acceptor, inputs.drop_last());
    }
}

/// A connection identifier is handed out once: the loop that gave `conn` to
/// one connection gives every later connection a greater one.
pub proof fn lemma_connection_ids_are_fresh(
    acceptor: AcceptModel,
    input: AcceptInputModel,
    later: Seq<AcceptInputModel>,
    next: AcceptInputModel,
)
    requires
        accept_step(acceptor, input) is SpawnReader,
    ensures
        accept_step(acceptor, input)->conn == acceptor.served,
        accept_step(accept_after_all(accept_after(acceptor, input), later), next)
            is SpawnReader ==> accept_step(
            accept_after_all(accept_after(acceptor, input), later),
            next,
        )->conn > accept_step(acceptor, input)->conn,
{
    lemma_served_never_decreases(accept_after(acceptor, input), later);
}

} // verus!

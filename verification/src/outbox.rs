//! The outbound queues: one unbounded channel of lines for every connection
//! that has a writer.
//!
//! The channels are those of the `futures` crate. The broker holds the sending
//! ends here; each receiving end is handed out once, to the writer that drains
//! it into the connection's socket. Pushing never waits: a queue takes any
//! number of lines, and a queue whose writer is gone swallows the line.

use futures::channel::mpsc::TrySendError;
use futures::channel::mpsc::UnboundedReceiver;
use futures::channel::mpsc::UnboundedSender;
use vstd::prelude::*;

use crate::registry::action_models;
use crate::registry::Action;
use crate::registry::ActionModel;

verus! {

/// The sending end of an unbounded channel.
#[verifier::external_type_specification]
#[verifier::external_body]
#[verifier::reject_recursive_types(T)]
pub struct ExUnboundedSender<T>(UnboundedSender<T>);

/// The receiving end of an unbounded channel.
#[verifier::external_type_specification]
#[verifier::external_body]
#[verifier::reject_recursive_types(T)]
pub struct ExUnboundedReceiver<T>(UnboundedReceiver<T>);

/// The error of a send that the channel did not take; it holds the message.
#[verifier::external_type_specification]
#[verifier::external_body]
#[verifier::reject_recursive_types(T)]
pub struct ExTrySendError<T>(TrySendError<T>);

/// `futures::channel::mpsc::unbounded`: a new channel of lines. Nothing is
/// claimed of the two ends.
#[verifier::external_body]
fn unbounded() -> (ends: (UnboundedSender<String>, UnboundedReceiver<String>)) {
    futures::channel::mpsc::unbounded()
}

/// `UnboundedSender::unbounded_send`: hands `line` to the channel without
/// waiting. Nothing is claimed of the outcome, which depends on whether the
/// receiving end is still there. The call panics only on a channel that
/// already holds more lines than memory can.
#[verifier::external_body]
fn unbounded_send(
    queue: &UnboundedSender<String>,
    line: String,
) -> (sent: Result<(), TrySendError<String>>) {
    queue.unbounded_send(line)
}

/// What became of a line that was pushed.
#[derive(Debug, Clone, Copy, PartialEq, Eq, Structural)]
pub enum Pushed {
    /// The queue took the line.
    Enqueued,
    /// The queue is closed, its writer gone: the line is dropped.
    Closed,
    /// The connection has no queue: the line is dropped.
    NoQueue,
}

impl Pushed {
    /// What became of a line, given what the channel answered: a channel
    /// refuses a line only when it is closed.
    pub fn from_send(sent: Result<(), TrySendError<String>>) -> (pushed: Pushed)
        ensures
            pushed == if sent is Ok {
                Pushed::Enqueued
            } else {
                Pushed::Closed
            },
    {
        match sent {
            Ok(_) => Pushed::Enqueued,
            Err(_) => Pushed::Closed,
        }
    }
}

/// What the outbox did for one action.
#[derive(Debug)]
pub enum Performed {
    /// A queue was opened for `conn`: start the writer that drains `queue`
    /// into the connection's socket.
    WriterNeeded { conn: u64, queue: UnboundedReceiver<String> },
    /// `conn` had a queue before: no second one was opened and no writer is
    /// to be started.
    WriterRunning { conn: u64 },
    /// The line was pushed onto the queue of `conn`, which took it.
    Enqueued { conn: u64 },
    /// The line was pushed onto the queue of `conn`, which is closed: the
    /// line is dropped.
    Dropped { conn: u64 },
    /// `conn` has no queue: the line is dropped.
    Undeliverable { conn: u64 },
}

/// What the outbox tries for one action. Whether a queue takes a line that
/// is pushed is not settled here: it depends on the writer at the other end.
pub enum Attempt {
    WriterNeeded { conn: u64 },
    WriterRunning { conn: u64 },
    Pushed { conn: u64 },
    Undeliverable { conn: u64 },
}

impl Performed {
    /// What was tried.
    pub open spec fn attempt(&self) -> Attempt {
        match self {
            Performed::WriterNeeded { conn, .. } => Attempt::WriterNeeded { conn: *conn },
            Performed::WriterRunning { conn } => Attempt::WriterRunning { conn: *conn },
            Performed::Enqueued { conn } => Attempt::Pushed { conn: *conn },
            Performed::Dropped { conn } => Attempt::Pushed { conn: *conn },
            Performed::Undeliverable { conn } => Attempt::Undeliverable { conn: *conn },
        }
    }
}

/// What was tried for each action of a batch.
pub open spec fn attempts(performed: Seq<Performed>) -> Seq<Attempt> {
    performed.map_values(|one: Performed| one.attempt())
}

/// What the outbox tries for `action` when `queues` are the connections
/// that have a queue.
pub open spec fn attempt_for(queues: Seq<u64>, action: ActionModel) -> Attempt {
    match action {
        ActionModel::SpawnWriter { conn } => if queues.contains(conn) {
            Attempt::WriterRunning { conn }
        } else {
            Attempt::WriterNeeded { conn }
        },
        ActionModel::Deliver { conn, .. } => if queues.contains(conn) {
            Attempt::Pushed { conn }
        } else {
            Attempt::Undeliverable { conn }
        },
    }
}

/// The connections that have a queue once `action` is performed: a writer
/// that is asked for gets a queue, and no queue ever goes away.
pub open spec fn queues_after(queues: Seq<u64>, action: ActionModel) -> Seq<u64> {
    match action {
        ActionModel::SpawnWriter { conn } => if queues.contains(conn) {
            queues
        } else {
            queues.push(conn)
        },
        ActionModel::Deliver { .. } => queues,
    }
}

/// The connections that have a queue once a sequence of actions is
/// performed in order.
pub open spec fn queues_after_all(queues: Seq<u64>, actions: Seq<ActionModel>) -> Seq<u64>
    decreases actions.len(),
{
    if actions.len() == 0 {
        queues
    } else {
        queues_after(queues_after_all(queues, actions.drop_last()), actions.last())
    }
}

/// What the outbox tries for each of a sequence of actions, performed in
/// order.
pub open spec fn attempts_for_all(queues: Seq<u64>, actions: Seq<ActionModel>) -> Seq<Attempt>
    decreases actions.len(),
{
    if actions.len() == 0 {
        Seq::empty()
    } else {
        attempts_for_all(queues, actions.drop_last()).push(
            attempt_for(queues_after_all(queues, actions.drop_last()), actions.last()),
        )
    }
}

/// The sending end of one connection's queue.
struct Queue {
    conn: u64,
    sender: UnboundedSender<String>,
}

/// The outbound queues of the relay. Its view lists the connections that
/// have a queue, in the order in which the queues were opened.
pub struct Outbox {
    queues: Vec<Queue>,
}

impl View for Outbox {
    type V = Seq<u64>;

    closed spec fn view(&self) -> Seq<u64> {
        self.queues@.map_values(|queue: Queue| queue.conn)
    }
}

impl Outbox {
    #[verifier::type_invariant]
    spec fn one_queue_per_connection(&self) -> bool {
        self@.no_duplicates()
    }

    /// An outbox without queues.
    pub fn new() -> (outbox: Outbox)
        ensures
            outbox@ == Seq::<u64>::empty(),
    {
        let outbox = Outbox { queues: Vec::new() };
        assert(outbox@ =~= Seq::<u64>::empty());
        outbox
    }

    /// The number of connections that have a queue.
    pub fn queue_count(&self) -> (count: usize)
        ensures
            count == self@.len(),
    {
        self.queues.len()
    }

    /// Where the queue of `conn` stands.
    fn position(&self, conn: u64) -> (found: Option<usize>)
        ensures
            match found {
                Some(index) => index < self@.len() && self@[index as int] == conn,
                None => !self@.contains(conn),
            },
    {
        let mut i: usize = 0;
        while i < self.queues.len()
            invariant
                i <= self.queues.len(),
                forall|k: int| 0 <= k < i ==> self@[k] != conn,
            decreases self.queues.len() - i,
        {
            if self.queues[i].conn == conn {
                return Some(i);
            }
            i = i + 1;
        }
        None
    }

    /// Whether `conn` has a queue.
    pub fn has_queue(&self, conn: u64) -> (found: bool)
        ensures
            found == self@.contains(conn),
    {
        self.position(conn).is_some()
    }

    /// Opens the queue of `conn` and returns its receiving end, unless the
    /// connection has a queue already.
    pub fn open(&mut self, conn: u64) -> (queue: Option<UnboundedReceiver<String>>)
        ensures
            queue is Some <==> !old(self)@.contains(conn),
            final(self)@ == queues_after(old(self)@, ActionModel::SpawnWriter { conn }),
            final(self)@.no_duplicates(),
    {
        proof {
            use_type_invariant(&*self);
        }
        if self.has_queue(conn) {
            None
        } else {
            let ghost before = self@;
            let (sender, receiver) = unbounded();
            let mut queues: Vec<Queue> = Vec::new();
            proof {
                assert(queues@.map_values(|queue: Queue| queue.conn) =~= Seq::<u64>::empty());
            }
            core::mem::swap(&mut self.queues, &mut queues);
            queues.push(Queue { conn, sender });
            proof {
                assert(queues@.map_values(|queue: Queue| queue.conn) =~= before.push(conn));
            }
            core::mem::swap(&mut self.queues, &mut queues);
            Some(receiver)
        }
    }

    /// Pushes `line` onto the queue of `conn` without waiting.
    pub fn push(&self, conn: u64, line: String) -> (pushed: Pushed)
        ensures
            pushed is NoQueue <==> !self@.contains(conn),
    {
        match self.position(conn) {
            Some(index) => Pushed::from_send(unbounded_send(&self.queues[index].sender, line)),
            None => Pushed::NoQueue,
        }
    }

    /// Performs one action: opens the queue of a writer that is asked for,
    /// or pushes a line that is to be delivered.
    pub fn perform(&mut self, action: Action) -> (performed: Performed)
        ensures
            performed.attempt() == attempt_for(old(self)@, action@),
            final(self)@ == queues_after(old(self)@, action@),
            final(self)@.no_duplicates(),
    {
        proof {
            use_type_invariant(&*self);
        }
        match action {
            Action::SpawnWriter { conn } => match self.open(conn) {
                Some(queue) => Performed::WriterNeeded { conn, queue },
                None => Performed::WriterRunning { conn },
            },
            Action::Deliver { conn, line } => match self.push(conn, line) {
                Pushed::Enqueued => Performed::Enqueued { conn },
                Pushed::Closed => Performed::Dropped { conn },
                Pushed::NoQueue => Performed::Undeliverable { conn },
            },
        }
    }

    /// Performs a sequence of actions in order. A line that its queue does
    /// not take holds nothing up: every action is performed.
    pub fn perform_all(&mut self, actions: Vec<Action>) -> (performed: Vec<Performed>)
        ensures
            attempts(performed@) == attempts_for_all(old(self)@, action_models(actions@)),
            final(self)@ == queues_after_all(old(self)@, action_models(actions@)),
            final(self)@.no_duplicates(),
    {
        proof {
            use_type_invariant(&*self);
        }
        let ghost all = action_models(actions@);
        let mut performed: Vec<Performed> = Vec::new();
        assert(attempts(performed@) =~= Seq::<Attempt>::empty());
        assert(all.take(0) =~= Seq::<ActionModel>::empty());
        for action in it: actions
            invariant
                all == action_models(actions@),
                self@ == queues_after_all(old(self)@, all.take(it.index() as int)),
                attempts(performed@) == attempts_for_all(old(self)@, all.take(it.index() as int)),
                self@.no_duplicates(),
        {
            let ghost done = all.take(it.index() as int);
            let ghost next = all.take(it.index() as int + 1);
            let ghost before = attempts(performed@);
            assert(next.drop_last() =~= done);
            assert(next.last() == action@);
            let one = self.perform(action);
            let ghost tried = one.attempt();
            performed.push(one);
            assert(attempts(performed@) =~= before.push(tried));
        }
        assert(all.take(all.len() as int) =~= all);
        performed
    }
}

} // verus!

//! The events that connection readers submit to the broker.

use vstd::prelude::*;

verus! {

/// A request to the broker. A connection reader constructs it, the broker
/// consumes it exactly once.
#[derive(Debug, PartialEq, Eq)]
pub enum Event {
    /// The connection `conn` announced itself under `name` and is ready to
    /// receive broadcasts.
    NewPeer { name: String, conn: u64 },
    /// A decrypted line `msg`, sent by the peer called `from`, to broadcast.
    Message { from: String, msg: String },
}

/// [`Event`] over mathematical text.
pub enum EventModel {
    NewPeer { name: Seq<char>, conn: u64 },
    Message { from: Seq<char>, msg: Seq<char> },
}

impl View for Event {
    type V = EventModel;

    open spec fn view(&self) -> EventModel {
        match self {
            Event::NewPeer { name, conn } => EventModel::NewPeer { name: name@, conn: *conn },
            Event::Message { from, msg } => EventModel::Message { from: from@, msg: msg@ },
        }
    }
}

/// The events of a batch, each as its model.
pub open spec fn event_models(events: Seq<Event>) -> Seq<EventModel> {
    events.map_values(|event: Event| event@)
}

} // verus!

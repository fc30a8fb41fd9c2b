//! The accept loop: what the relay does when its listening socket is bound and
//! each time a connection comes in.
//!
//! The loop hands every accepted connection an identifier of its own. The
//! broker's registry, its actions and the per-connection tasks all speak of a
//! connection by that identifier.

use vstd::prelude::*;
use vstd::string::*;

use crate::error::RelayError;

verus! {

/// What happened at the listening socket.
#[derive(Debug, PartialEq, Eq)]
pub enum AcceptInput {
    /// The address was bound.
    Bound,
    /// The address could not be bound.
    BindFailed,
    /// A connection was accepted. `peer_addr` is the peer's source address,
    /// where the socket could tell it.
    Accepted { peer_addr: Option<String> },
    /// Accepting a connection failed.
    AcceptFailed,
}

/// [`AcceptInput`] over mathematical text.
pub enum AcceptInputModel {
    Bound,
    BindFailed,
    Accepted { peer_addr: Option<Seq<char>> },
    AcceptFailed,
}

/// The text of an address, if there is one.
pub open spec fn address_text(peer_addr: Option<String>) -> Option<Seq<char>> {
    match peer_addr {
        Some(addr) => Some(addr@),
        None => None,
    }
}

impl View for AcceptInput {
    type V = AcceptInputModel;

    open spec fn view(&self) -> AcceptInputModel {
        match self {
            AcceptInput::Bound => AcceptInputModel::Bound,
            AcceptInput::BindFailed => AcceptInputModel::BindFailed,
            AcceptInput::Accepted { peer_addr } => AcceptInputModel::Accepted {
                peer_addr: address_text(*peer_addr),
            },
            AcceptInput::AcceptFailed => AcceptInputModel::AcceptFailed,
        }
    }
}

/// What the accept loop's caller does next.
#[derive(Debug, PartialEq, Eq)]
pub enum AcceptStep {
    /// Start the broker, then accept connections.
    StartBroker,
    /// Give up with `error`: the relay does not start.
    Abort { error: RelayError },
    /// Write `log`, if any, to the server's console, start the reader of the
    /// new connection under the identifier `conn`, and accept on.
    SpawnReader { conn: u64, log: Option<String> },
    /// Drop the accepted socket and accept on: the loop has no identifier
    /// left to give.
    Refuse,
    /// Accept on.
    Continue,
    /// The input does not fit the loop's phase: do nothing.
    Ignore,
}

/// [`AcceptStep`] over mathematical text.
pub enum AcceptStepModel {
    StartBroker,
    Abort { error: RelayError },
    SpawnReader { conn: u64, log: Option<Seq<char>> },
    Refuse,
    Continue,
    Ignore,
}

impl View for AcceptStep {
    type V = AcceptStepModel;

    open spec fn view(&self) -> AcceptStepModel {
        match self {
            AcceptStep::StartBroker => AcceptStepModel::StartBroker,
            AcceptStep::Abort { error } => AcceptStepModel::Abort { error: *error },
            AcceptStep::SpawnReader { conn, log } => AcceptStepModel::SpawnReader {
                conn: *conn,
                log: address_text(*log),
            },
            AcceptStep::Refuse => AcceptStepModel::Refuse,
            AcceptStep::Continue => AcceptStepModel::Continue,
            AcceptStep::Ignore => AcceptStepModel::Ignore,
        }
    }
}

/// Where the accept loop stands.
#[derive(Debug, Clone, Copy, PartialEq, Eq, Structural)]
pub enum AcceptPhase {
    /// The address is not bound yet.
    Binding,
    /// The loop accepts connections.
    Listening,
    /// The bind failed; the loop never runs.
    Aborted,
}

/// The accept loop as the contracts see it: its phase and the number of
/// connections it has started a reader for.
pub struct AcceptModel {
    pub phase: AcceptPhase,
    pub served: u64,
}

/// The console line `"Accepting from: {addr}"`.
pub open spec fn accept_notice(addr: Seq<char>) -> Seq<char> {
    "Accepting from: "@ + addr
}

/// The console line for an accepted connection, where its address is known.
pub open spec fn accept_log(peer_addr: Option<Seq<char>>) -> Option<Seq<char>> {
    match peer_addr {
        Some(addr) => Some(accept_notice(addr)),
        None => None,
    }
}

/// The accept loop after one input. A failed accept changes nothing: the
/// loop goes on.
pub open spec fn accept_after(acceptor: AcceptModel, input: AcceptInputModel) -> AcceptModel {
    match (acceptor.phase, input) {
        (AcceptPhase::Binding, AcceptInputModel::Bound) => AcceptModel {
            phase: AcceptPhase::Listening,
            ..acceptor
        },
        (AcceptPhase::Binding, AcceptInputModel::BindFailed) => AcceptModel {
            phase: AcceptPhase::Aborted,
            ..acceptor
        },
        (AcceptPhase::Listening, AcceptInputModel::Accepted { .. }) => if acceptor.served
            < u64::MAX {
            AcceptModel { served: (acceptor.served + 1) as u64, ..acceptor }
        } else {
            acceptor
        },
        _ => acceptor,
    }
}

/// The step that one input calls for. The `n`-th connection that gets a
/// reader, counted from zero, gets the identifier `n`; a connection that
/// comes in when all of them are given is refused.
pub open spec fn accept_step(acceptor: AcceptModel, input: AcceptInputModel) -> AcceptStepModel {
    match (acceptor.phase, input) {
        (AcceptPhase::Binding, AcceptInputModel::Bound) => AcceptStepModel::StartBroker,
        (AcceptPhase::Binding, AcceptInputModel::BindFailed) => AcceptStepModel::Abort {
            error: RelayError::Bind,
        },
        (AcceptPhase::Listening, AcceptInputModel::Accepted { peer_addr }) => if acceptor.served
            < u64::MAX {
            AcceptStepModel::SpawnReader { conn: acceptor.served, log: accept_log(peer_addr) }
        } else {
            AcceptStepModel::Refuse
        },
        (AcceptPhase::Listening, AcceptInputModel::AcceptFailed) => AcceptStepModel::Continue,
        _ => AcceptStepModel::Ignore,
    }
}

/// The relay's accept loop.
#[derive(Debug)]
pub struct AcceptLoop {
    phase: AcceptPhase,
    served: u64,
}

impl View for AcceptLoop {
    type V = AcceptModel;

    closed spec fn view(&self) -> AcceptModel {
        AcceptModel { phase: self.phase, served: self.served }
    }
}

impl AcceptLoop {
    /// An accept loop whose address is not bound yet.
    pub fn new() -> (acceptor: AcceptLoop)
        ensures
            acceptor@ == (AcceptModel { phase: AcceptPhase::Binding, served: 0 }),
    {
        AcceptLoop { phase: AcceptPhase::Binding, served: 0 }
    }

    /// Where the loop stands.
    pub fn phase(&self) -> (phase: AcceptPhase)
        ensures
            phase == self@.phase,
    {
        self.phase
    }

    /// The number of connections that got a reader so far.
    pub fn served(&self) -> (served: u64)
        ensures
            served == self@.served,
    {
        self.served
    }

    /// Takes what happened at the listening socket and says what to do next.
    pub fn on_input(&mut self, input: AcceptInput) -> (step: AcceptStep)
        ensures
            final(self)@ == accept_after(old(self)@, input@),
            step@ == accept_step(old(self)@, input@),
    {
        match input {
            AcceptInput::Bound => {
                if self.phase == AcceptPhase::Binding {
                    self.phase = AcceptPhase::Listening;
                    AcceptStep::StartBroker
                } else {
                    AcceptStep::Ignore
                }
            },
            AcceptInput::BindFailed => {
                if self.phase == AcceptPhase::Binding {
                    self.phase = AcceptPhase::Aborted;
                    AcceptStep::Abort { error: RelayError::Bind }
                } else {
                    AcceptStep::Ignore
                }
            },
            AcceptInput::Accepted { peer_addr } => {
                if self.phase != AcceptPhase::Listening {
                    AcceptStep::Ignore
                } else if self.served == u64::MAX {
                    AcceptStep::Refuse
                } else {
                    let conn: u64 = self.served;
                    self.served = conn + 1;
                    let log = match peer_addr {
                        Some(addr) => {
                            let mut notice = String::from_str("Accepting from: ");
                            notice.append(addr.as_str());
                            Some(notice)
                        },
                        None => None,
                    };
                    AcceptStep::SpawnReader { conn, log }
                }
            },
            AcceptInput::AcceptFailed => {
                if self.phase == AcceptPhase::Listening {
                    AcceptStep::Continue
                } else {
                    AcceptStep::Ignore
                }
            },
        }
    }
}

} // verus!

//! The inbound half of one connection.
//!
//! A [`ConnectionReader`] is told what its socket produced (a line, the end of
//! the stream, a read error) and answers with the one [`ReaderStep`] its caller
//! carries out. It owns no socket and submits nothing itself.

use vstd::prelude::*;
use vstd::string::*;

use crate::cipher::aes256_plaintext;
use crate::cipher::Cipher;
use crate::error::RelayError;
use crate::event::Event;
use crate::event::EventModel;
use crate::text::chat_text;
use crate::text::format_chat_text;

verus! {

/// Where a reader stands in the life of its connection.
#[derive(Debug, PartialEq, Eq)]
pub enum ReaderState {
    /// Nothing was read yet: the next line is the peer's name.
    AwaitingName,
    /// The peer announced itself as `name`: every further line is ciphertext.
    Relaying { name: String },
    /// The reader has ended; whatever arrives now is ignored.
    Closed,
}

/// [`ReaderState`] over mathematical text.
pub enum ReaderStateModel {
    AwaitingName,
    Relaying { name: Seq<char> },
    Closed,
}

impl View for ReaderState {
    type V = ReaderStateModel;

    open spec fn view(&self) -> ReaderStateModel {
        match self {
            ReaderState::AwaitingName => ReaderStateModel::AwaitingName,
            ReaderState::Relaying { name } => ReaderStateModel::Relaying { name: name@ },
            ReaderState::Closed => ReaderStateModel::Closed,
        }
    }
}

/// What the socket's read half produced.
#[derive(Debug, PartialEq, Eq)]
pub enum ReaderInput {
    /// One line, without its terminator.
    Line(String),
    /// The peer closed the connection.
    EndOfStream,
    /// The read failed.
    ReadFailed,
    /// The event of the last step could not be submitted: the broker's event
    /// stream is closed.
    SubmitFailed,
}

/// [`ReaderInput`] over mathematical text.
pub enum ReaderInputModel {
    Line(Seq<char>),
    EndOfStream,
    ReadFailed,
    SubmitFailed,
}

impl View for ReaderInput {
    type V = ReaderInputModel;

    open spec fn view(&self) -> ReaderInputModel {
        match self {
            ReaderInput::Line(line) => ReaderInputModel::Line(line@),
            ReaderInput::EndOfStream => ReaderInputModel::EndOfStream,
            ReaderInput::ReadFailed => ReaderInputModel::ReadFailed,
            ReaderInput::SubmitFailed => ReaderInputModel::SubmitFailed,
        }
    }
}

/// What the reader's caller does next.
#[derive(Debug, PartialEq, Eq)]
pub enum ReaderStep {
    /// Submit `event`, a `NewPeer`, to the broker and read on.
    Announce { event: Event },
    /// Write `log` to the server's console, submit `event`, a `Message`, to
    /// the broker and read on.
    Relay { event: Event, log: String },
    /// The line did not decrypt: write `log` to the server's console and end
    /// the task without an error. Nothing is submitted.
    Reject { log: String },
    /// The peer left: end the task without an error. Nothing is submitted.
    Finish,
    /// End the task with `error`. Nothing is submitted.
    Fail { error: RelayError },
    /// Pass over `error` and read on. Nothing is submitted.
    PassOver { error: RelayError },
    /// The reader had ended before: do nothing.
    Ignore,
}

/// [`ReaderStep`] over mathematical text.
pub enum ReaderStepModel {
    Announce { event: EventModel },
    Relay { event: EventModel, log: Seq<char> },
    Reject { log: Seq<char> },
    Finish,
    Fail { error: RelayError },
    PassOver { error: RelayError },
    Ignore,
}

impl View for ReaderStep {
    type V = ReaderStepModel;

    open spec fn view(&self) -> ReaderStepModel {
        match self {
            ReaderStep::Announce { event } => ReaderStepModel::Announce { event: event@ },
            ReaderStep::Relay { event, log } => ReaderStepModel::Relay { event: event@, log: log@ },
            ReaderStep::Reject { log } => ReaderStepModel::Reject { log: log@ },
            ReaderStep::Finish => ReaderStepModel::Finish,
            ReaderStep::Fail { error } => ReaderStepModel::Fail { error: *error },
            ReaderStep::PassOver { error } => ReaderStepModel::PassOver { error: *error },
            ReaderStep::Ignore => ReaderStepModel::Ignore,
        }
    }
}

/// The events that a step submits to the broker: one or none.
pub open spec fn submitted(step: ReaderStepModel) -> Seq<EventModel> {
    match step {
        ReaderStepModel::Announce { event } => seq![event],
        ReaderStepModel::Relay { event, .. } => seq![event],
        _ => Seq::empty(),
    }
}

/// The console line `"{name} used invalid password"`.
pub open spec fn rejection_notice(name: Seq<char>) -> Seq<char> {
    name + " used invalid password"@
}

/// A reader as the contracts see it: its connection, its passphrase and its
/// state.
pub struct ReaderModel {
    pub conn: u64,
    pub key: Seq<char>,
    pub state: ReaderStateModel,
}

/// The state of a reader called `name` once a line's decryption came out as
/// `outcome`: it reads on after a success and ends after a failure.
pub open spec fn state_after_decryption(
    name: Seq<char>,
    outcome: Option<Seq<char>>,
) -> ReaderStateModel {
    match outcome {
        Some(_) => ReaderStateModel::Relaying { name },
        None => ReaderStateModel::Closed,
    }
}

/// The step of a reader called `name` once a line's decryption came out as
/// `outcome`.
pub open spec fn step_on_decryption(
    name: Seq<char>,
    outcome: Option<Seq<char>>,
) -> ReaderStepModel {
    match outcome {
        Some(text) => ReaderStepModel::Relay {
            event: EventModel::Message { from: name, msg: text },
            log: chat_text(name, text),
        },
        None => ReaderStepModel::Reject { log: rejection_notice(name) },
    }
}

/// The reader after one input. The first line names the peer; a line that
/// decrypts and an event that could not be submitted leave the reader as it
/// is; everything else ends it.
pub open spec fn reader_after(reader: ReaderModel, input: ReaderInputModel) -> ReaderModel {
    let state = match (reader.state, input) {
        (_, ReaderInputModel::SubmitFailed) => reader.state,
        (ReaderStateModel::AwaitingName, ReaderInputModel::Line(line)) => {
            ReaderStateModel::Relaying { name: line }
        },
        (ReaderStateModel::Relaying { name }, ReaderInputModel::Line(line)) => {
            state_after_decryption(name, aes256_plaintext(reader.key, line))
        },
        _ => ReaderStateModel::Closed,
    };
    ReaderModel { state, ..reader }
}

/// The step that one input calls for.
pub open spec fn reader_step(reader: ReaderModel, input: ReaderInputModel) -> ReaderStepModel {
    match (reader.state, input) {
        (ReaderStateModel::Closed, _) => ReaderStepModel::Ignore,
        (ReaderStateModel::AwaitingName, ReaderInputModel::Line(line)) => {
            ReaderStepModel::Announce {
                event: EventModel::NewPeer { name: line, conn: reader.conn },
            }
        },
        (ReaderStateModel::AwaitingName, ReaderInputModel::EndOfStream) => {
            ReaderStepModel::Fail { error: RelayError::PeerDisconnectedImmediately }
        },
        (ReaderStateModel::Relaying { name }, ReaderInputModel::Line(line)) => {
            step_on_decryption(name, aes256_plaintext(reader.key, line))
        },
        (ReaderStateModel::Relaying { .. }, ReaderInputModel::EndOfStream) => {
            ReaderStepModel::Finish
        },
        (_, ReaderInputModel::ReadFailed) => ReaderStepModel::Fail {
            error: RelayError::SocketIo,
        },
        (_, ReaderInputModel::SubmitFailed) => ReaderStepModel::PassOver {
            error: RelayError::ChannelClosed,
        },
    }
}

/// The text of a decryption's outcome, if it succeeded.
pub open spec fn plaintext_of(outcome: Result<String, RelayError>) -> Option<Seq<char>> {
    match outcome {
        Ok(text) => Some(text@),
        Err(_) => None,
    }
}

/// The reader of one accepted connection.
pub struct ConnectionReader {
    conn: u64,
    cipher: Cipher,
    state: ReaderState,
}

impl View for ConnectionReader {
    type V = ReaderModel;

    closed spec fn view(&self) -> ReaderModel {
        ReaderModel { conn: self.conn, key: self.cipher.key(), state: self.state@ }
    }
}

impl ConnectionReader {
    /// The reader of connection `conn`, which has read nothing yet.
    pub fn new(conn: u64, cipher: Cipher) -> (reader: ConnectionReader)
        ensures
            reader@ == (ReaderModel {
                conn,
                key: cipher.key(),
                state: ReaderStateModel::AwaitingName,
            }),
    {
        ConnectionReader { conn, cipher, state: ReaderState::AwaitingName }
    }

    /// The connection this reader serves.
    pub fn conn(&self) -> (conn: u64)
        ensures
            conn == self@.conn,
    {
        self.conn
    }

    /// Where the reader stands.
    pub fn state(&self) -> (state: &ReaderState)
        ensures
            state@ == self@.state,
    {
        &self.state
    }

    /// Whether the reader has ended.
    pub fn has_ended(&self) -> (ended: bool)
        ensures
            ended == (self@.state is Closed),
    {
        match &self.state {
            ReaderState::Closed => true,
            _ => false,
        }
    }

    /// Takes what the socket produced and says what to do with it.
    pub fn on_input(&mut self, input: ReaderInput) -> (step: ReaderStep)
        ensures
            final(self)@ == reader_after(old(self)@, input@),
            step@ == reader_step(old(self)@, input@),
    {
        match input {
            ReaderInput::Line(line) => self.on_line(line),
            ReaderInput::EndOfStream => {
                let step = match &self.state {
                    ReaderState::AwaitingName => ReaderStep::Fail {
                        error: RelayError::PeerDisconnectedImmediately,
                    },
                    ReaderState::Relaying { .. } => ReaderStep::Finish,
                    ReaderState::Closed => ReaderStep::Ignore,
                };
                self.state = ReaderState::Closed;
                step
            },
            ReaderInput::ReadFailed => {
                let step = match &self.state {
                    ReaderState::Closed => ReaderStep::Ignore,
                    _ => ReaderStep::Fail { error: RelayError::SocketIo },
                };
                self.state = ReaderState::Closed;
                step
            },
            ReaderInput::SubmitFailed => match &self.state {
                ReaderState::Closed => ReaderStep::Ignore,
                _ => ReaderStep::PassOver { error: RelayError::ChannelClosed },
            },
        }
    }

    /// Takes one line: the peer's name if it is the first, ciphertext
    /// otherwise.
    pub fn on_line(&mut self, line: String) -> (step: ReaderStep)
        ensures
            final(self)@ == reader_after(old(self)@, ReaderInputModel::Line(line@)),
            step@ == reader_step(old(self)@, ReaderInputModel::Line(line@)),
    {
        match &self.state {
            ReaderState::AwaitingName => {
                let event = Event::NewPeer { name: line.clone(), conn: self.conn };
                self.state = ReaderState::Relaying { name: line };
                ReaderStep::Announce { event }
            },
            ReaderState::Relaying { .. } => {
                let outcome = self.cipher.decrypt(line.as_str());
                self.on_decrypted(outcome)
            },
            ReaderState::Closed => ReaderStep::Ignore,
        }
    }

    /// Takes the outcome of decrypting a line that arrived after the name.
    /// A reader that is not relaying has no such line and ignores the call.
    pub fn on_decrypted(&mut self, outcome: Result<String, RelayError>) -> (step: ReaderStep)
        ensures
            final(self)@ == (match old(self)@.state {
                ReaderStateModel::Relaying { name } => ReaderModel {
                    state: state_after_decryption(name, plaintext_of(outcome)),
                    ..old(self)@
                },
                _ => old(self)@,
            }),
            step@ == (match old(self)@.state {
                ReaderStateModel::Relaying { name } => step_on_decryption(
                    name,
                    plaintext_of(outcome),
                ),
                _ => ReaderStepModel::Ignore,
            }),
    {
        match &self.state {
            ReaderState::Relaying { name } => {
                match outcome {
                    Ok(text) => {
                        let log = format_chat_text(name.as_str(), text.as_str());
                        let event = Event::Message { from: name.clone(), msg: text };
                        ReaderStep::Relay { event, log }
                    },
                    Err(_) => {
                        let mut log = name.clone();
                        log.append(" used invalid password");
                        self.state = ReaderState::Closed;
                        ReaderStep::Reject { log }
                    },
                }
            },
            _ => ReaderStep::Ignore,
        }
    }
}

} // verus!

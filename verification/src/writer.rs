//! The outbound half of one connection.
//!
//! A [`ConnectionWriter`] is told what happened at its queue and its socket and
//! answers with the one [`WriterStep`] its caller carries out.

use vstd::prelude::*;
use vstd::string::*;
use vstd::utf8::encode_utf8;

use crate::error::RelayError;

verus! {

/// What happened at the writer's queue or socket.
#[derive(Debug, PartialEq, Eq)]
pub enum WriterInput {
    /// A line was taken from the outbound queue.
    Dequeued(String),
    /// The queue was closed and is empty.
    QueueClosed,
    /// The last write to the socket failed.
    WriteFailed,
}

/// [`WriterInput`] over mathematical text.
pub enum WriterInputModel {
    Dequeued(Seq<char>),
    QueueClosed,
    WriteFailed,
}

impl View for WriterInput {
    type V = WriterInputModel;

    open spec fn view(&self) -> WriterInputModel {
        match self {
            WriterInput::Dequeued(line) => WriterInputModel::Dequeued(line@),
            WriterInput::QueueClosed => WriterInputModel::QueueClosed,
            WriterInput::WriteFailed => WriterInputModel::WriteFailed,
        }
    }
}

/// What the writer's caller does next.
#[derive(Debug, PartialEq, Eq)]
pub enum WriterStep {
    /// Write all of `bytes` to the socket, then take the next line.
    Write { bytes: Vec<u8> },
    /// End the task without an error.
    Finish,
    /// End the task with `error`. The write is not tried again and the broker
    /// is not told.
    Fail { error: RelayError },
    /// The writer had ended before: do nothing.
    Ignore,
}

/// [`WriterStep`] over mathematical values.
pub enum WriterStepModel {
    Write { bytes: Seq<u8> },
    Finish,
    Fail { error: RelayError },
    Ignore,
}

impl View for WriterStep {
    type V = WriterStepModel;

    open spec fn view(&self) -> WriterStepModel {
        match self {
            WriterStep::Write { bytes } => WriterStepModel::Write { bytes: bytes@ },
            WriterStep::Finish => WriterStepModel::Finish,
            WriterStep::Fail { error } => WriterStepModel::Fail { error: *error },
            WriterStep::Ignore => WriterStepModel::Ignore,
        }
    }
}

/// A writer as the contracts see it.
pub struct WriterModel {
    pub conn: u64,
    pub ended: bool,
}

/// The writer after one input: it runs until its queue closes or a write
/// fails.
pub open spec fn writer_after(writer: WriterModel, input: WriterInputModel) -> WriterModel {
    match input {
        WriterInputModel::Dequeued(_) => writer,
        _ => WriterModel { ended: true, ..writer },
    }
}

/// The step that one input calls for: a dequeued line goes out verbatim, as
/// its UTF-8 bytes.
pub open spec fn writer_step(writer: WriterModel, input: WriterInputModel) -> WriterStepModel {
    if writer.ended {
        WriterStepModel::Ignore
    } else {
        match input {
            WriterInputModel::Dequeued(line) => WriterStepModel::Write { bytes: encode_utf8(line) },
            WriterInputModel::QueueClosed => WriterStepModel::Finish,
            WriterInputModel::WriteFailed => WriterStepModel::Fail { error: RelayError::SocketIo },
        }
    }
}

/// The writer of one registered connection.
#[derive(Debug)]
pub struct ConnectionWriter {
    conn: u64,
    ended: bool,
}

impl View for ConnectionWriter {
    type V = WriterModel;

    closed spec fn view(&self) -> WriterModel {
        WriterModel { conn: self.conn, ended: self.ended }
    }
}

impl ConnectionWriter {
    /// The writer of connection `conn`, which is running.
    pub fn new(conn: u64) -> (writer: ConnectionWriter)
        ensures
            writer@ == (WriterModel { conn, ended: false }),
    {
        ConnectionWriter { conn, ended: false }
    }

    /// The connection this writer serves.
    pub fn conn(&self) -> (conn: u64)
        ensures
            conn == self@.conn,
    {
        self.conn
    }

    /// Whether the writer has ended.
    pub fn has_ended(&self) -> (ended: bool)
        ensures
            ended == self@.ended,
    {
        self.ended
    }

    /// Takes what happened and says what to do next.
    pub fn on_input(&mut self, input: WriterInput) -> (step: WriterStep)
        ensures
            final(self)@ == writer_after(old(self)@, input@),
            step@ == writer_step(old(self)@, input@),
    {
        let was_ended: bool = self.ended;
        match input {
            WriterInput::Dequeued(line) => {
                if was_ended {
                    WriterStep::Ignore
                } else {
                    WriterStep::Write { bytes: line.as_str().as_bytes_vec() }
                }
            },
            WriterInput::QueueClosed => {
                self.ended = true;
                if was_ended {
                    WriterStep::Ignore
                } else {
                    WriterStep::Finish
                }
            },
            WriterInput::WriteFailed => {
                self.ended = true;
                if was_ended {
                    WriterStep::Ignore
                } else {
                    WriterStep::Fail { error: RelayError::SocketIo }
                }
            },
        }
    }
}

} // verus!

//! The persistence writer's decisions. The writer owns one connection, takes
//! counter values from its channel in order, and upserts each: an update of
//! the counter row, then an insert when the update changed no row. A failed
//! write is dropped; the next value supersedes it.
use vstd::prelude::*;
use crate::decimal::decimal_of;
use crate::database::counter_text;

verus! {

/// Where the writer stands.
#[derive(Debug, Clone, Copy, PartialEq, Eq, Structural)]
pub enum WriterPhase {
    /// Opening its connection.
    Connecting,
    /// Waiting for the next value.
    Waiting,
    /// The update of the current value is running.
    Updating,
    /// The insert of the current value is running.
    Inserting,
    /// Done: the connection failed or the channel closed.
    Stopped,
}

/// What the writer's loop must do next.
pub enum WriterCommand {
    /// Block on the channel for the next value.
    Receive,
    /// Run `UPDATE counter SET count = text WHERE id = 1`.
    Update(String),
    /// Run `INSERT INTO counter (id, count) VALUES (1, text)`.
    Insert(String),
    /// Leave the loop.
    Exit,
}

pub struct PersistenceWriter {
    phase: WriterPhase,
    current: u128,
}

impl PersistenceWriter {
    pub closed spec fn phase_spec(&self) -> WriterPhase {
        self.phase
    }

    /// The value whose write is running.
    pub closed spec fn current_spec(&self) -> u128 {
        self.current
    }

    pub fn new() -> (r: PersistenceWriter)
        ensures
            r.phase_spec() == WriterPhase::Connecting,
    {
        PersistenceWriter { phase: WriterPhase::Connecting, current: 0 }
    }

    pub fn phase(&self) -> (r: WriterPhase)
        ensures
            r == self.phase_spec(),
    {
        self.phase
    }

    /// The connection attempt finished: wait for values, or stop for good.
    pub fn on_connect(&mut self, connected: bool) -> (r: WriterCommand)
        requires
            old(self).phase_spec() == WriterPhase::Connecting,
        ensures
            connected ==> r is Receive && final(self).phase_spec() == WriterPhase::Waiting,
            !connected ==> r is Exit && final(self).phase_spec() == WriterPhase::Stopped,
    {
        if connected {
            self.phase = WriterPhase::Waiting;
            WriterCommand::Receive
        } else {
            self.phase = WriterPhase::Stopped;
            WriterCommand::Exit
        }
    }

    /// The channel gave a value, or `None` once every sender is gone.
    pub fn on_value(&mut self, value: Option<u128>) -> (r: WriterCommand)
        requires
            old(self).phase_spec() == WriterPhase::Waiting,
        ensures
            value matches Some(v) ==> (r matches WriterCommand::Update(text) && text@ == decimal_of(
                v as nat,
            ) && final(self).phase_spec() == WriterPhase::Updating && final(self).current_spec()
                == v),
            value is None ==> r is Exit && final(self).phase_spec() == WriterPhase::Stopped,
    {
        match value {
            Some(v) => {
                self.phase = WriterPhase::Updating;
                self.current = v;
                WriterCommand::Update(counter_text(v))
            },
            None => {
                self.phase = WriterPhase::Stopped;
                WriterCommand::Exit
            },
        }
    }

    /// The update finished with the number of rows it changed, or failed
    /// (`None`). With no row changed the same text is inserted; a failure
    /// drops the value.
    pub fn on_update(&mut self, rows_updated: Option<u64>) -> (r: WriterCommand)
        requires
            old(self).phase_spec() == WriterPhase::Updating,
        ensures
            rows_updated == Some(0u64) ==> (r matches WriterCommand::Insert(text) && text@
                == decimal_of(old(self).current_spec() as nat) && final(self).phase_spec()
                == WriterPhase::Inserting && final(self).current_spec() == old(self).current_spec()),
            rows_updated != Some(0u64) ==> r is Receive && final(self).phase_spec()
                == WriterPhase::Waiting,
    {
        match rows_updated {
            Some(rows) => if rows == 0 {
                self.phase = WriterPhase::Inserting;
                WriterCommand::Insert(counter_text(self.current))
            } else {
                self.phase = WriterPhase::Waiting;
                WriterCommand::Receive
            },
            None => {
                self.phase = WriterPhase::Waiting;
                WriterCommand::Receive
            },
        }
    }

    /// The insert finished, whether or not it succeeded: wait for the next
    /// value.
    pub fn on_insert(&mut self) -> (r: WriterCommand)
        requires
            old(self).phase_spec() == WriterPhase::Inserting,
        ensures
            r is Receive,
            final(self).phase_spec() == WriterPhase::Waiting,
    {
        self.phase = WriterPhase::Waiting;
        WriterCommand::Receive
    }
}

} // verus!

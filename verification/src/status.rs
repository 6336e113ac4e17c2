//! What a poll hands to the host: at most one row of one text column.

use vstd::prelude::*;

verus! {

/// Name of the single output column of both operations. Its type is
/// variable-length text.
pub const STATUS_COLUMN: &'static str = "status";

/// The four things a productive poll can report.
#[derive(Clone, Copy, Debug, PartialEq, Eq, Structural)]
pub enum Status {
    /// A start request found the slot empty and brought a session up.
    Started,
    /// A start request found a session active and left it alone.
    AlreadyRunning,
    /// A stop request found a session active and tore it down.
    Stopped,
    /// A stop request found the slot empty.
    NotRunning,
}

impl Status {
    /// The exact text of each status. Callers may match on it.
    pub open spec fn text_spec(self) -> Seq<char> {
        match self {
            Status::Started => "Profiling started with Pyroscope"@,
            Status::AlreadyRunning => "Profiling already running"@,
            Status::Stopped => "Profiling stopped successfully"@,
            Status::NotRunning => "No profiling session running"@,
        }
    }

    /// The text that goes into the `status` column.
    pub fn text(&self) -> (text: &'static str)
        ensures
            text@ == self.text_spec(),
    {
        match self {
            Status::Started => "Profiling started with Pyroscope",
            Status::AlreadyRunning => "Profiling already running",
            Status::Stopped => "Profiling stopped successfully",
            Status::NotRunning => "No profiling session running",
        }
    }
}

/// The rows of one poll. A producer tells the host that it is exhausted by
/// handing back an empty batch.
#[derive(Clone, Copy, Debug, PartialEq, Eq, Structural)]
pub enum Batch {
    /// No row: the call has nothing more to say.
    Empty,
    /// One row, holding one status.
    Row(Status),
}

impl Batch {
    /// Number of rows in the batch.
    pub open spec fn rows(self) -> nat {
        match self {
            Batch::Empty => 0,
            Batch::Row(_) => 1,
        }
    }

    /// Number of rows, as the host wants it for the length of its output
    /// chunk.
    pub fn len(&self) -> (n: usize)
        ensures
            n == self.rows(),
    {
        match self {
            Batch::Empty => 0,
            Batch::Row(_) => 1,
        }
    }

    /// The status in the batch, if it has a row.
    pub fn status(&self) -> (status: Option<Status>)
        ensures
            status == match *self {
                Batch::Empty => None::<Status>,
                Batch::Row(s) => Some(s),
            },
    {
        match self {
            Batch::Empty => None,
            Batch::Row(s) => Some(*s),
        }
    }
}

} // verus!

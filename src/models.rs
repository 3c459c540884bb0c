use vstd::prelude::*;

verus! {

/// A stored message, as the database hands it back.
#[derive(Debug, Clone)]
pub struct Message {
    pub id: i32,
    pub username: String,
    pub message: String,
    pub timestamp: i64,
}

/// A message that a client submitted and that is not stored yet.
#[derive(Debug, Clone)]
pub struct NewMessage {
    pub username: String,
    pub message: String,
}

/// Optional bounds on the timestamps of the messages to list.
#[derive(Debug, Clone, Copy, PartialEq, Eq, Structural)]
pub struct TimeRange {
    pub before: Option<i64>,
    pub after: Option<i64>,
}

/// A failed insert or select; the diagnostic is for the log only.
#[derive(Debug, Clone)]
pub struct PersistenceFailure {
    pub diagnostic: String,
}

impl TimeRange {
    /// True when a message with this timestamp lies in the range.
    pub open spec fn admits(self, timestamp: int) -> bool {
        &&& (self.before matches Some(b) ==> timestamp < b)
        &&& (self.after matches Some(a) ==> timestamp > a)
    }

    /// The range with no bounds, used when a request has no query string.
    pub fn unbounded() -> (r: TimeRange)
        ensures
            r.before is None,
            r.after is None,
    {
        TimeRange { before: None, after: None }
    }
}

} // verus!

//! What the acceptor of sessions decides: how many sessions may wait for
//! the application, and what becomes of one that cannot be handed over.

use vstd::prelude::*;
use crate::connection::{Connection, Step};

verus! {

/// How many sessions may wait for the application at a time. Whoever
/// brings another one waits until there is room.
pub const READY_QUEUE_CAPACITY: usize = 100;

/// The reason given to a session that could not be handed over.
pub open spec fn unqueued_reason() -> Seq<char> {
    "Failed to queue connection"@
}

/// A session could not be handed over, because the application no longer
/// takes any: the session is closed rather than lost.
pub fn unqueued(connection: &mut Connection) -> (step: Step)
    requires
        !old(connection)@.is_ended(),
    ensures
        (final(connection)@, step@) == old(connection)@.close(unqueued_reason()),
{
    connection.close("Failed to queue connection")
}

} // verus!

//! The decisions of one query call: after the connection attempt, run the
//! query or fail; after the query, reply with the table or the failure text.
//! The caller performs each action (connecting, sending the query, stopping
//! the connection's driver) and reports back what happened.
use vstd::prelude::*;

use crate::assembler::{assemble_result, assembled_from};
use crate::model::{QueryResult, QueryRows};

verus! {

/// Where one call stands.
#[derive(Debug, Clone, Copy, PartialEq, Eq, Structural)]
pub enum Stage {
    /// The connection is being opened.
    Connecting,
    /// The connection is open and its driver runs; the query is under way.
    Querying,
    /// The reply has been given.
    Finished,
}

/// What the caller observed after the last action.
#[derive(Debug)]
pub enum Event {
    /// The connection could not be opened; the driver's description of why.
    ConnectFailed(String),
    /// The connection is open and its driver has been started.
    Connected,
    /// The query failed; the driver's description of why.
    QueryFailed(String),
    /// The query returned these rows.
    RowsReceived(QueryRows),
}

/// What the caller does next.
#[derive(Debug)]
pub enum Action {
    /// Send the query, verbatim, over the open connection.
    RunQuery,
    /// Stop the connection's driver if `stop_driver`, then hand `outcome` back.
    Reply { outcome: Result<QueryResult, String>, stop_driver: bool },
}

/// Whether `event` can follow the action taken at `stage`.
pub open spec fn accepts(stage: Stage, event: Event) -> bool {
    match stage {
        Stage::Connecting => event is ConnectFailed || event is Connected,
        Stage::Querying => event is QueryFailed || (event matches Event::RowsReceived(q) && q.wf()),
        Stage::Finished => false,
    }
}

/// Decides the next stage and action from the current stage and what the
/// caller observed. A failure ends the call with the failure's text and no
/// partial result; the driver, once started, is stopped on every exit.
pub fn next_step(stage: Stage, event: Event) -> (r: (Stage, Action))
    requires
        accepts(stage, event),
    ensures
        event is Connected ==> r.0 == Stage::Querying && r.1 is RunQuery,
        event matches Event::ConnectFailed(m) ==> {
            &&& r.0 == Stage::Finished
            &&& r.1 matches Action::Reply { outcome: Err(e), stop_driver }
            &&& e@ == m@
            &&& !stop_driver
        },
        event matches Event::QueryFailed(m) ==> {
            &&& r.0 == Stage::Finished
            &&& r.1 matches Action::Reply { outcome: Err(e), stop_driver }
            &&& e@ == m@
            &&& stop_driver
        },
        event matches Event::RowsReceived(q) ==> {
            &&& r.0 == Stage::Finished
            &&& r.1 matches Action::Reply { outcome: Ok(t), stop_driver }
            &&& assembled_from(q, t)
            &&& stop_driver
        },
{
    match event {
        Event::ConnectFailed(m) => (
            Stage::Finished,
            Action::Reply { outcome: Err(m), stop_driver: false },
        ),
        Event::Connected => (Stage::Querying, Action::RunQuery),
        Event::QueryFailed(m) => (
            Stage::Finished,
            Action::Reply { outcome: Err(m), stop_driver: true },
        ),
        Event::RowsReceived(q) => {
            let table = assemble_result(&q);
            (Stage::Finished, Action::Reply { outcome: Ok(table), stop_driver: true })
        },
    }
}

} // verus!

//! The way from a connection into the event loop: a request is registered
//! as in flight before it is posted, and taken back where posting fails.

use crate::message::{Request, RequestView};
use crate::pending::{registered, resolved, PendingTable};
use crate::waiter::{register, Resolver, Waiter};
use vstd::prelude::*;

verus! {

/// What is posted into the queue of the event loop.
#[derive(Debug, Clone, PartialEq, Eq)]
pub enum Message {
    /// A request to dispatch.
    Request(Request),
}

impl Message {
    /// The request that a message carries.
    pub open spec fn request(self) -> RequestView {
        match self {
            Message::Request(request) => request@,
        }
    }
}

/// Why a request was not submitted.
#[derive(Debug, Clone, Copy, PartialEq, Eq, Structural)]
pub enum SubmitError {
    /// The event loop no longer takes messages.
    EventLoopClosed,
}

/// A request that is registered and ready to be posted.
#[derive(Debug)]
pub struct Submission {
    /// Where the response will arrive.
    pub waiter: Waiter,
    /// What to post into the queue of the event loop.
    pub message: Message,
}

/// Registers a request as in flight and hands out the message to post with
/// the waiter for its response.
pub fn submit(table: &mut PendingTable<Resolver>, request: Request) -> (submission: Submission)
    ensures
        submission.message.request() == request@,
        exists|resolver: Resolver| final(table)@ == registered(old(table)@, request.id@, resolver),
{
    let waiter = register(table, request.id.clone());
    Submission { waiter, message: Message::Request(request) }
}

/// Closes a submission once posting its message was tried. A message that
/// was posted leaves the table as it is. One that was not, because the
/// event loop is gone, has its request taken out of the table, and the
/// failure is reported.
pub fn confirm(table: &mut PendingTable<Resolver>, id: &str, posted: bool) -> (confirmed: Result<
    (),
    SubmitError,
>)
    ensures
        posted ==> confirmed is Ok && final(table)@ == old(table)@,
        !posted ==> confirmed == Err::<(), SubmitError>(SubmitError::EventLoopClosed),
        !posted ==> final(table)@ == resolved(old(table)@, id@),
{
    if posted {
        Ok(())
    } else {
        let _ = table.resolve(id);
        Err(SubmitError::EventLoopClosed)
    }
}

/// Gives up waiting for the request `id`, as after a wait that took too
/// long: takes its resolver out of the table and drops it. Says whether the
/// request was still in flight.
pub fn abandon(table: &mut PendingTable<Resolver>, id: &str) -> (in_flight: bool)
    ensures
        in_flight == old(table)@.contains_key(id@),
        final(table)@ == resolved(old(table)@, id@),
{
    table.resolve(id).is_some()
}

} // verus!

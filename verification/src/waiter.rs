//! One-shot channels as resolvers: the table keeps the sending half of a
//! `tokio` one-shot channel for each request in flight, and whoever waits
//! for the response keeps the receiving half.

use crate::message::Response;
use crate::pending::{registered, resolved, resolver_of, PendingTable};
use tokio::sync::oneshot::error::RecvError;
use tokio::sync::oneshot::{Receiver, Sender};
use vstd::prelude::*;

verus! {

/// `tokio::sync::oneshot::Sender`, taken as it is: nothing is known of what
/// is inside.
#[verifier::external_type_specification]
#[verifier::external_body]
#[verifier::reject_recursive_types(T)]
pub struct ExSender<T>(Sender<T>);

/// `tokio::sync::oneshot::Receiver`, taken as it is.
#[verifier::external_type_specification]
#[verifier::external_body]
#[verifier::reject_recursive_types(T)]
pub struct ExReceiver<T>(Receiver<T>);

/// `tokio::sync::oneshot::error::RecvError`, taken as it is. Nothing here
/// handles a value of it: it is what awaiting a `Receiver` yields once the
/// sender is gone, and the verifier asks for every type that the impls of a
/// declared type name.
#[verifier::external_type_specification]
#[verifier::external_body]
pub struct ExRecvError(RecvError);

/// The half of a channel that the table keeps.
pub type Resolver = Sender<Response>;

/// The half of a channel that is handed to whoever waits for the response.
pub type Waiter = Receiver<Response>;

/// Calls `tokio::sync::oneshot::channel`. Nothing is claimed of the pair.
#[verifier::external_body]
fn open_channel() -> (pair: (Resolver, Waiter)) {
    tokio::sync::oneshot::channel()
}

/// Calls `tokio::sync::oneshot::Sender::send`. The contract claims that a
/// value that could not be sent comes back as it was given.
#[verifier::external_body]
fn send(resolver: Resolver, response: Response) -> (sent: Result<(), Response>)
    ensures
        sent matches Err(returned) ==> returned == response,
{
    resolver.send(response)
}

/// What became of a response that was to be delivered.
#[derive(Debug, Clone, PartialEq, Eq)]
pub enum Resolution {
    /// The response was handed to the channel of the request.
    Delivered,
    /// The request was in flight, but nobody waits for its response any
    /// more. The response comes back.
    Abandoned(Response),
    /// No request with this id was in flight. The response comes back.
    Unknown(Response),
}

/// What became of a response that was sent, given what sending it returned.
pub open spec fn concluded(sent: Result<(), Response>) -> Resolution {
    match sent {
        Ok(()) => Resolution::Delivered,
        Err(returned) => Resolution::Abandoned(returned),
    }
}

/// Says what became of a response from what sending it returned.
pub fn conclude(sent: Result<(), Response>) -> (outcome: Resolution)
    ensures
        outcome == concluded(sent),
{
    match sent {
        Ok(()) => Resolution::Delivered,
        Err(returned) => Resolution::Abandoned(returned),
    }
}

/// Opens a channel for the request `id`, stores its sending half in the
/// table and returns its receiving half. A resolver that was stored under
/// the same id is dropped, so that whoever waits on it learns that no
/// response will come.
pub fn register(table: &mut PendingTable<Resolver>, id: String) -> (waiter: Waiter)
    ensures
        exists|resolver: Resolver| final(table)@ == registered(old(table)@, id@, resolver),
{
    let (resolver, waiter) = open_channel();
    let _ = table.register(id, resolver);
    waiter
}

/// Delivers `response` to the request `id`: takes its resolver out of the
/// table and sends the response through it. Where no such request is in
/// flight the table stays as it is and the response comes back.
pub fn resolve(table: &mut PendingTable<Resolver>, id: &str, response: Response) -> (outcome:
    Resolution)
    ensures
        final(table)@ == resolved(old(table)@, id@),
        outcome is Unknown <==> resolver_of(old(table)@, id@) is None,
        outcome matches Resolution::Unknown(returned) ==> returned == response,
        outcome matches Resolution::Abandoned(returned) ==> returned == response,
{
    match table.resolve(id) {
        Some(resolver) => conclude(send(resolver, response)),
        None => Resolution::Unknown(response),
    }
}

} // verus!

//! What the event-loop thread decides for each request that was posted to
//! it: which handler to run, and what response its outcome becomes.

use crate::api_manager::ApiManager;
use crate::message::{
    failure_response, not_found_response, success_response, Request, Response, ResponseView,
};
use crate::pending::{resolved, resolver_of, PendingTable};
use crate::waiter::{resolve, Resolution, Resolver};
use vstd::prelude::*;

verus! {

/// The response that the outcome of a handler becomes: its payload where
/// it succeeded, its message where it failed.
pub open spec fn completed(id: Seq<char>, outcome: Result<Seq<char>, Seq<char>>) -> ResponseView {
    match outcome {
        Ok(payload) => success_response(id, payload),
        Err(message) => failure_response(id, message),
    }
}

/// The text that the outcome of a handler holds.
pub open spec fn outcome_text(outcome: Result<String, String>) -> Result<Seq<char>, Seq<char>> {
    match outcome {
        Ok(payload) => Ok(payload@),
        Err(message) => Err(message@),
    }
}

/// Finds the handler for a request by the exact name of its method. Where
/// none is bound to it, the response that says so is returned in its place.
pub fn route<'a, H>(registry: &'a ApiManager<H>, request: &Request) -> (routed: Result<
    &'a H,
    Response,
>)
    ensures
        match routed {
            Ok(handler) => registry@.contains_key(request.method@) && *handler
                == registry@[request.method@],
            Err(response) => !registry@.contains_key(request.method@) && response@
                == not_found_response(request.id@),
        },
{
    match registry.lookup(request.method.as_str()) {
        Some(handler) => Ok(handler),
        None => Err(Response::not_found(request.id.clone())),
    }
}

/// Turns the outcome of a handler into the response to the request `id`.
pub fn complete(id: String, outcome: Result<String, String>) -> (response: Response)
    ensures
        response@ == completed(id@, outcome_text(outcome)),
{
    match outcome {
        Ok(payload) => Response::success(id, payload),
        Err(message) => Response::failure(id, message),
    }
}

/// What the event loop is to do with a request.
#[derive(Debug)]
pub enum Dispatch<'a, H> {
    /// Run this handler with the request's arguments, then `finish`.
    Invoke(&'a H),
    /// No handler is bound to the method: the request was answered with the
    /// response that says so.
    NotFound(Resolution),
}

/// Takes up a request on the event-loop thread. Where a handler is bound to
/// its method, that handler is handed out and the table stays as it is;
/// where none is, the request is resolved at once with the response that
/// says so.
pub fn begin<'a, H>(
    registry: &'a ApiManager<H>,
    table: &mut PendingTable<Resolver>,
    request: &Request,
) -> (step: Dispatch<'a, H>)
    ensures
        match step {
            Dispatch::Invoke(handler) => {
                &&& registry@.contains_key(request.method@)
                &&& *handler == registry@[request.method@]
                &&& final(table)@ == old(table)@
            },
            Dispatch::NotFound(outcome) => {
                &&& !registry@.contains_key(request.method@)
                &&& final(table)@ == resolved(old(table)@, request.id@)
                &&& outcome is Unknown <==> resolver_of(old(table)@, request.id@) is None
                &&& outcome matches Resolution::Unknown(returned) ==> returned@
                    == not_found_response(request.id@)
                &&& outcome matches Resolution::Abandoned(returned) ==> returned@
                    == not_found_response(request.id@)
            },
        },
{
    match route(registry, request) {
        Ok(handler) => Dispatch::Invoke(handler),
        Err(response) => Dispatch::NotFound(resolve(table, request.id.as_str(), response)),
    }
}

/// Resolves the request `id` with the response that the outcome of its
/// handler becomes.
pub fn finish(
    table: &mut PendingTable<Resolver>,
    id: String,
    outcome: Result<String, String>,
) -> (resolution: Resolution)
    ensures
        final(table)@ == resolved(old(table)@, id@),
        resolution is Unknown <==> resolver_of(old(table)@, id@) is None,
        resolution matches Resolution::Unknown(returned) ==> returned@ == completed(
            id@,
            outcome_text(outcome),
        ),
        resolution matches Resolution::Abandoned(returned) ==> returned@ == completed(
            id@,
            outcome_text(outcome),
        ),
{
    let response = complete(id.clone(), outcome);
    resolve(table, id.as_str(), response)
}

/// A request for a method that nobody registered is answered with status
/// 404 and the id of the request; a handler that failed is answered with a
/// status outside the success class and a message that is not empty.
pub proof fn lemma_failures_are_reported(id: Seq<char>, message: Seq<char>)
    ensures
        not_found_response(id).status == 404,
        not_found_response(id).id == id,
        !crate::message::status_is_success(completed(id, Err(message)).status),
        completed(id, Err(message)).message.len() > 0,
        completed(id, Err(message)).id == id,
{
    crate::message::lemma_failure_is_reported(id, message);
}

} // verus!

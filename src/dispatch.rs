//! The dispatcher: from a payload to the one downstream call that the
//! invocation makes, if any, and from that call's outcome to the
//! invocation's result.
use vstd::prelude::*;

use crate::action::{parse_action, requested_action};
use crate::config::Config;
use crate::error::DispatchError;
use crate::json::JsonValue;
use crate::registry::{
    lemma_registry_one_to_one, lookup_operation, operation_for, registered_name, Operation,
};

verus! {

/// One call of the downstream service: an operation on a cluster.
pub struct Request {
    pub operation: Operation,
    pub cluster_id: String,
}

/// What an invocation does once its payload is parsed.
pub enum Dispatch {
    /// Make this one downstream call; its outcome is the invocation's.
    Invoke(Request),
    /// The action names no registered operation: log it and succeed.
    Ignore(String),
}

/// Decides what the invocation for `payload` does. A payload that requests
/// no action fails with `MalformedEventError` and leads to no call. A
/// registered action leads to exactly one call, of its own operation, on
/// the configured cluster. Any other action leads to no call and succeeds.
pub fn handle(config: &Config, payload: &JsonValue) -> (r: Result<Dispatch, DispatchError>)
    ensures
        requested_action(*payload) is None ==> (r matches Err(e)
            && e == DispatchError::MalformedEventError),
        forall|op: Operation|
            #![trigger registered_name(op)]
            requested_action(*payload) == Some(registered_name(op)) ==> (r matches Ok(
                Dispatch::Invoke(req),
            ) && req.operation == op && req.cluster_id@ == config@),
        requested_action(*payload) is Some
            && operation_for(requested_action(*payload)->Some_0) is None ==> (r matches Ok(
                Dispatch::Ignore(a),
            ) && a@ == requested_action(*payload)->Some_0),
{
    proof {
        assert forall|op: Operation| operation_for(#[trigger] registered_name(op)) == Some(op) by {
            lemma_registry_one_to_one(op);
        }
    }
    match parse_action(payload) {
        Err(e) => Err(e),
        Ok(descriptor) => {
            let name = descriptor.name();
            match lookup_operation(name) {
                Some(op) => {
                    let cluster_id = config.cluster_id().clone();
                    Ok(Dispatch::Invoke(Request { operation: op, cluster_id }))
                },
                None => Ok(Dispatch::Ignore(name.clone())),
            }
        },
    }
}

/// The invocation's result once the downstream call has returned: success,
/// or the service's error unchanged inside `DownstreamError`.
pub fn complete(outcome: Result<(), String>) -> (r: Result<(), DispatchError>)
    ensures
        match outcome {
            Ok(()) => r is Ok,
            Err(m) => r matches Err(e) && e matches DispatchError::DownstreamError(c) && c@ == m@,
        },
{
    match outcome {
        Ok(()) => Ok(()),
        Err(m) => Err(DispatchError::DownstreamError(m)),
    }
}

} // verus!

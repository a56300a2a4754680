//! The action descriptor: the one field that the dispatcher reads from a
//! payload.
use vstd::prelude::*;

use crate::error::DispatchError;
use crate::json::{member, text_of, JsonValue};

verus! {

/// The field that holds the action in `scope`: `ACTION`, or `action` where
/// there is no `ACTION`.
pub open spec fn action_field(scope: JsonValue) -> Option<JsonValue> {
    match member(scope, "ACTION"@) {
        Some(v) => Some(v),
        None => member(scope, "action"@),
    }
}

/// The payload's action value: the action field of its `detail` member when
/// that has one, else the action field of the payload itself.
pub open spec fn action_value(payload: JsonValue) -> Option<JsonValue> {
    match member(payload, "detail"@) {
        Some(d) => match action_field(d) {
            Some(v) => Some(v),
            None => action_field(payload),
        },
        None => action_field(payload),
    }
}

/// The action that a payload requests: the text of its action value, when
/// that is a non-empty string.
pub open spec fn requested_action(payload: JsonValue) -> Option<Seq<char>> {
    match action_value(payload) {
        Some(v) => match text_of(v) {
            Some(t) => if t.len() > 0 {
                Some(t)
            } else {
                None
            },
            None => None,
        },
        None => None,
    }
}

/// A parsed action: a non-empty name, fixed once it is read.
pub struct ActionDescriptor {
    name: String,
}

impl View for ActionDescriptor {
    type V = Seq<char>;

    closed spec fn view(&self) -> Seq<char> {
        self.name@
    }
}

impl ActionDescriptor {
    #[verifier::type_invariant]
    spec fn inv(&self) -> bool {
        self.name@.len() > 0
    }

    /// The action's name.
    pub fn name(&self) -> (r: &String)
        ensures
            r@ == self@,
            r@.len() > 0,
    {
        proof {
            use_type_invariant(self);
        }
        &self.name
    }
}

/// The action field of `scope`.
fn find_action_field(scope: &JsonValue) -> (r: Option<&JsonValue>)
    ensures
        match r {
            Some(v) => action_field(*scope) == Some(*v),
            None => action_field(*scope) is None,
        },
{
    let upper_key = String::from_str("ACTION");
    match scope.get(&upper_key) {
        Some(v) => Some(v),
        None => {
            let lower_key = String::from_str("action");
            scope.get(&lower_key)
        },
    }
}

/// Reads the action descriptor out of a payload. Fails with
/// `MalformedEventError` exactly when the payload requests no action.
pub fn parse_action(payload: &JsonValue) -> (r: Result<ActionDescriptor, DispatchError>)
    ensures
        match r {
            Ok(d) => requested_action(*payload) == Some(d@),
            Err(e) => requested_action(*payload) is None && e == DispatchError::MalformedEventError,
        },
{
    let detail_key = String::from_str("detail");
    let field = match payload.get(&detail_key) {
        Some(d) => match find_action_field(d) {
            Some(v) => Some(v),
            None => find_action_field(payload),
        },
        None => find_action_field(payload),
    };
    match field {
        Some(v) => match v.as_text() {
            Some(t) => {
                if t.as_str().is_empty() {
                    Err(DispatchError::MalformedEventError)
                } else {
                    Ok(ActionDescriptor { name: t.clone() })
                }
            },
            None => Err(DispatchError::MalformedEventError),
        },
        None => Err(DispatchError::MalformedEventError),
    }
}

} // verus!

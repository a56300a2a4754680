//! The closed set of operations that an action can name.
use vstd::prelude::*;

verus! {

/// An operation of the registry. Each calls the downstream service once.
#[derive(Clone, Copy, Debug, PartialEq, Eq, Structural)]
pub enum Operation {
    /// Start the configured cluster.
    Start,
    /// Stop the configured cluster.
    Stop,
}

/// The name under which each operation is registered.
pub open spec fn registered_name(op: Operation) -> Seq<char> {
    match op {
        Operation::Start => "START"@,
        Operation::Stop => "STOP"@,
    }
}

/// The operation that `name` selects: an exact, case-sensitive match
/// against the registered names.
pub open spec fn operation_for(name: Seq<char>) -> Option<Operation> {
    if name == registered_name(Operation::Start) {
        Some(Operation::Start)
    } else if name == registered_name(Operation::Stop) {
        Some(Operation::Stop)
    } else {
        None
    }
}

impl Operation {
    /// The name under which this operation is registered.
    pub fn name(&self) -> (r: String)
        ensures
            r@ == registered_name(*self),
    {
        match self {
            Operation::Start => String::from_str("START"),
            Operation::Stop => String::from_str("STOP"),
        }
    }
}

/// Looks `name` up in the registry.
pub fn lookup_operation(name: &String) -> (r: Option<Operation>)
    ensures
        r == operation_for(name@),
{
    let start = String::from_str("START");
    let stop = String::from_str("STOP");
    if *name == start {
        Some(Operation::Start)
    } else if *name == stop {
        Some(Operation::Stop)
    } else {
        None
    }
}

/// Each operation is selected by its own registered name, and by no other
/// operation's: the registry maps names to operations one to one.
pub proof fn lemma_registry_one_to_one(op: Operation)
    ensures
        operation_for(registered_name(op)) == Some(op),
{
    reveal_strlit("START");
    reveal_strlit("STOP");
    assert(registered_name(Operation::Start) != registered_name(Operation::Stop)) by {
        assert(registered_name(Operation::Start).len() != registered_name(Operation::Stop).len());
    }
}

} // verus!

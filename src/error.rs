//! What can go wrong at startup or in one invocation.
use vstd::prelude::*;

verus! {

/// The dispatcher's failures. An unrecognised action is none of them.
#[derive(Debug, PartialEq, Eq)]
pub enum DispatchError {
    /// The cluster identifier setting is absent: no invocation can be served.
    ConfigurationError,
    /// The payload holds no usable action name.
    MalformedEventError,
    /// The downstream service refused the request; its message is kept as is.
    DownstreamError(String),
}

} // verus!

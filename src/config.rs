//! Process-wide configuration, built once at startup.
use vstd::prelude::*;

use crate::error::DispatchError;

verus! {

/// The configuration that every invocation reads: the identifier of the
/// cluster that the operations act on. Only `load` makes one, so no
/// invocation can be served without it.
pub struct Config {
    cluster_id: String,
}

impl View for Config {
    type V = Seq<char>;

    closed spec fn view(&self) -> Seq<char> {
        self.cluster_id@
    }
}

impl Config {
    /// Builds the configuration from the cluster identifier setting as read
    /// at startup; an absent setting is a `ConfigurationError`.
    pub fn load(cluster_id: Option<String>) -> (r: Result<Config, DispatchError>)
        ensures
            cluster_id is None <==> r is Err,
            match r {
                Ok(c) => c@ == cluster_id->Some_0@,
                Err(e) => e == DispatchError::ConfigurationError,
            },
    {
        match cluster_id {
            Some(id) => Ok(Config { cluster_id: id }),
            None => Err(DispatchError::ConfigurationError),
        }
    }

    /// The identifier of the cluster that the operations act on.
    pub fn cluster_id(&self) -> (r: &String)
        ensures
            r@ == self@,
    {
        &self.cluster_id
    }
}

} // verus!

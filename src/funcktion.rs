use vstd::prelude::*;
use crate::error::CallResult;
use crate::request::Request;
use crate::response::Response;

verus! {

/// The capability that every loaded plugin offers its host. A host knows a
/// plugin only through it, and may call one instance from several threads at
/// once; any state inside a plugin is the plugin's to guard.
pub trait Funcktion: Send + Sync {
    /// The plugin's name: a fixed, non-empty identifier.
    fn name(&self) -> &'static str;

    /// Runs the plugin on `req`. An implementation must not let an unwinding
    /// failure pass out of this call: it reports every failure as an `Err`.
    fn call(&self, req: Request) -> CallResult<Response>;
}

} // verus!

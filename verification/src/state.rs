//! The resolved, immutable per-run server state.

use vstd::prelude::*;

use crate::options::ServerOptions;
use crate::url::{synthesized_url, BaseUrl, BoundAddr};

verus! {

/// The resolved, immutable state shared read-only by every request of one
/// server run.
///
/// Created exactly once per run, after the listener is bound and before the
/// accept loop starts; nothing mutates it afterwards.
#[derive(Debug)]
pub struct ServerState {
    /// The base URL of the server, no longer optional.
    pub base_url: BaseUrl,
}

impl ServerState {
    /// Resolve the effective state: an explicitly configured base URL is
    /// used verbatim (the caller is trusted, e.g. behind a reverse proxy);
    /// otherwise `http://<host>:<port>` is synthesized from the address the
    /// listener actually bound to.
    pub fn new(options: ServerOptions, local_addr: BoundAddr) -> (r: ServerState)
        ensures
            options.base_url matches Some(u) ==> r.base_url == u,
            options.base_url is None ==> r.base_url@ == synthesized_url(
                local_addr.host@,
                local_addr.port,
            ),
    {
        let base_url = match options.base_url {
            Some(u) => u,
            None => local_addr.to_http_url(),
        };
        ServerState { base_url }
    }
}

} // verus!

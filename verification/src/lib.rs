//! Lifecycle coordination for an HTMX server-side-rendering HTTP server.
//!
//! The crate decides what externally visible base URL a server believes it is
//! reachable at (explicit configuration, the process environment, or the
//! address the listener actually bound to), and models the run-to-completion
//! sequence of a single server run, including graceful shutdown.

pub mod lifecycle;
pub mod options;
pub mod state;
pub mod url;

pub use lifecycle::{
    check_local_addr, serve_outcome, NewWithAutoReloadError, Run, RunEvent, RunPhase, ServeError,
};
pub use options::{EnvVarValue, ServerOptions, ServerOptionsFromEnvError};
pub use state::ServerState;
pub use url::{BaseUrl, BoundAddr};

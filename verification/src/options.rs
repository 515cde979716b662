//! Server options and their resolution from the process environment.

use vstd::prelude::*;
use vstd::string::StringExecFns;

use crate::url::{parse_uri, uri_parse, BaseUrl};

verus! {

/// What reading a variable from the process environment yielded: a value,
/// nothing, or bytes that are not valid unicode.
#[derive(Debug)]
pub enum EnvVarValue {
    /// The variable is not set.
    NotPresent,
    /// The variable is set, but its bytes are not valid unicode.
    NotUnicode,
    /// The variable is set to this (possibly empty) string.
    Present(String),
}

/// The options for the server.
///
/// Mutable until the server starts; `serve` consumes them into the resolved
/// per-run state.
#[derive(Debug)]
pub struct ServerOptions {
    /// The base HTTP URL of the server.
    ///
    /// If the server is running behind a reverse proxy, this should be set
    /// to the base URL of the proxy.
    ///
    /// If no base URL is set, the server will attempt to determine the base
    /// URL from its own TCP listener address.
    ///
    /// If `HTMX_SSR_BASE_URL` is set in the environment, it will be read and
    /// used as the base URL when resolving the options from the environment.
    pub base_url: Option<BaseUrl>,
}

impl Default for ServerOptions {
    /// No base URL: it will be inferred at serve time.
    fn default() -> (r: Self)
        ensures
            r.base_url is None,
    {
        ServerOptions { base_url: None }
    }
}

/// An error that can occur when trying to get the server options from the
/// environment.
#[derive(Debug)]
pub enum ServerOptionsFromEnvError {
    /// An environment variable was not unicode.
    NotUnicode {
        /// The name of the environment variable.
        name: &'static str,
    },
    /// The base URL from the environment failed to parse.
    BaseUrl {
        /// The name of the environment variable.
        name: &'static str,
        /// The string that was attempted to be parsed.
        url: String,
        /// The parse diagnostic.
        err: String,
    },
}

impl ServerOptionsFromEnvError {
    /// The text `message` renders.
    pub open spec fn message_spec(&self) -> Seq<char> {
        match self {
            ServerOptionsFromEnvError::NotUnicode { name } => "environment variable "@ + name@
                + " was not unicode"@,
            ServerOptionsFromEnvError::BaseUrl { name, url, err } => {
                "failed to parse the base URL from environment variable "@ + name@ + " (was `"@
                    + url@ + "`): "@ + err@
            },
        }
    }

    /// Render the error as text.
    pub fn message(&self) -> (r: String)
        ensures
            r@ == self.message_spec(),
    {
        match self {
            ServerOptionsFromEnvError::NotUnicode { name } => {
                let mut s = String::new();
                s.append("environment variable ");
                s.append(name);
                s.append(" was not unicode");
                proof {
                    assert(s@ =~= self.message_spec());
                }
                s
            },
            ServerOptionsFromEnvError::BaseUrl { name, url, err } => {
                let mut s = String::new();
                s.append("failed to parse the base URL from environment variable ");
                s.append(name);
                s.append(" (was `");
                s.append(url.as_str());
                s.append("`): ");
                s.append(err.as_str());
                proof {
                    assert(s@ =~= self.message_spec());
                }
                s
            },
        }
    }
}

/// What `ServerOptions::env_var` returns for a reading of variable `name`:
/// an absent or empty variable is no value, a non-unicode one is an error,
/// anything else is the value itself.
pub open spec fn env_var_result(
    name: &'static str,
    value: EnvVarValue,
    r: Result<Option<String>, ServerOptionsFromEnvError>,
) -> bool {
    match value {
        EnvVarValue::NotPresent => r matches Ok(o) && o is None,
        EnvVarValue::NotUnicode => r matches Err(e)
            && (e matches ServerOptionsFromEnvError::NotUnicode { name: n } && n@ == name@),
        EnvVarValue::Present(s) => if s@.len() == 0 {
            r matches Ok(o) && o is None
        } else {
            r matches Ok(o) && (o matches Some(v) && v@ == s@)
        },
    }
}

/// What resolving the options from a reading of `HTMX_SSR_BASE_URL` yields:
/// no reading (or an empty one) leaves the base URL unset; a non-unicode
/// reading is a `NotUnicode` error; a value either parses as a URI, giving
/// its canonical text as the base URL, or gives a `BaseUrl` error naming the
/// variable and echoing the raw string and the parse diagnostic.
pub open spec fn options_from_env_result(
    value: EnvVarValue,
    r: Result<ServerOptions, ServerOptionsFromEnvError>,
) -> bool {
    match value {
        EnvVarValue::NotPresent => r matches Ok(o) && o.base_url is None,
        EnvVarValue::NotUnicode => r matches Err(e)
            && (e matches ServerOptionsFromEnvError::NotUnicode { name }
            && name@ == "HTMX_SSR_BASE_URL"@),
        EnvVarValue::Present(s) => if s@.len() == 0 {
            r matches Ok(o) && o.base_url is None
        } else {
            match uri_parse(s@) {
                Ok(t) => r matches Ok(o) && (o.base_url matches Some(u) && u@ == t),
                Err(pe) => r matches Err(e)
                    && (e matches ServerOptionsFromEnvError::BaseUrl { name, url, err }
                    && name@ == "HTMX_SSR_BASE_URL"@ && url@ == s@ && err@ == pe),
            }
        },
    }
}

impl ServerOptions {
    /// The environment variable name for the base URL.
    pub const HTMX_SSR_BASE_URL: &'static str = "HTMX_SSR_BASE_URL";

    /// Interpret a reading of environment variable `name`.
    ///
    /// Absent, or present but empty, is treated identically to "not set".
    pub fn env_var(name: &'static str, value: EnvVarValue) -> (r: Result<
        Option<String>,
        ServerOptionsFromEnvError,
    >)
        ensures
            env_var_result(name, value, r),
    {
        match value {
            EnvVarValue::Present(v) => Ok(
                if v.as_str().is_empty() {
                    None
                } else {
                    Some(v)
                },
            ),
            EnvVarValue::NotPresent => Ok(None),
            EnvVarValue::NotUnicode => Err(ServerOptionsFromEnvError::NotUnicode { name }),
        }
    }

    /// Get the server options from a reading of the `HTMX_SSR_BASE_URL`
    /// environment variable.
    pub fn from_env_value(value: EnvVarValue) -> (r: Result<
        ServerOptions,
        ServerOptionsFromEnvError,
    >)
        ensures
            options_from_env_result(value, r),
    {
        let read = match Self::env_var(Self::HTMX_SSR_BASE_URL, value) {
            Ok(o) => o,
            Err(e) => return Err(e),
        };
        match read {
            None => Ok(ServerOptions { base_url: None }),
            Some(url) => match parse_uri(url.as_str()) {
                Ok(text) => Ok(ServerOptions { base_url: Some(BaseUrl::new(text)) }),
                Err(err) => Err(
                    ServerOptionsFromEnvError::BaseUrl {
                        name: Self::HTMX_SSR_BASE_URL,
                        url,
                        err,
                    },
                ),
            },
        }
    }
}

/// Two option values that agree on everything observable.
pub open spec fn options_agree(o1: ServerOptions, o2: ServerOptions) -> bool {
    match (o1.base_url, o2.base_url) {
        (Option::None, Option::None) => true,
        (Option::Some(u1), Option::Some(u2)) => u1@ == u2@,
        _ => false,
    }
}

/// Two errors that agree on everything observable.
pub open spec fn errors_agree(
    e1: ServerOptionsFromEnvError,
    e2: ServerOptionsFromEnvError,
) -> bool {
    match (e1, e2) {
        (
            ServerOptionsFromEnvError::NotUnicode { name: n1 },
            ServerOptionsFromEnvError::NotUnicode { name: n2 },
        ) => n1@ == n2@,
        (
            ServerOptionsFromEnvError::BaseUrl { name: n1, url: u1, err: x1 },
            ServerOptionsFromEnvError::BaseUrl { name: n2, url: u2, err: x2 },
        ) => n1@ == n2@ && u1@ == u2@ && x1@ == x2@,
        _ => false,
    }
}

/// Two resolution results that agree on everything observable.
pub open spec fn resolutions_agree(
    r1: Result<ServerOptions, ServerOptionsFromEnvError>,
    r2: Result<ServerOptions, ServerOptionsFromEnvError>,
) -> bool {
    match (r1, r2) {
        (Result::Ok(o1), Result::Ok(o2)) => options_agree(o1, o2),
        (Result::Err(e1), Result::Err(e2)) => errors_agree(e1, e2),
        _ => false,
    }
}

/// Resolving the options from the environment is a pure function of the
/// environment: two resolutions of the same reading agree on everything
/// observable.
pub proof fn lemma_env_resolution_idempotent(
    value: EnvVarValue,
    r1: Result<ServerOptions, ServerOptionsFromEnvError>,
    r2: Result<ServerOptions, ServerOptionsFromEnvError>,
)
    requires
        options_from_env_result(value, r1),
        options_from_env_result(value, r2),
    ensures
        resolutions_agree(r1, r2),
{
}

} // verus!

//! What a client is built with, and the rule that picks the client for a
//! request.

use vstd::prelude::*;

verus! {

/// A span of time: whole seconds and the nanoseconds beyond them.
#[derive(Clone, Copy, Debug, PartialEq, Eq, Structural)]
pub struct Timeout {
    pub secs: u64,
    pub nanos: u32,
}

/// Whether the transport follows redirects on its own.
#[derive(Clone, Copy, Debug, PartialEq, Eq, Structural)]
pub enum RedirectPolicy {
    /// Redirects are followed; the caller sees the final response.
    Follow,
    /// No redirect is followed; the caller sees the 3xx response.
    Never,
}

/// What a client is built with. It is fixed for the client's lifetime.
#[derive(Clone, Copy, Debug, PartialEq, Eq, Structural)]
pub struct ClientConfig {
    /// Idle connections kept per host.
    pub pool_max_idle_per_host: usize,
    /// How long an idle connection is kept.
    pub pool_idle_timeout: Timeout,
    /// The timeout of a request that brings none of its own.
    pub timeout: Timeout,
    /// The redirect policy.
    pub redirect: RedirectPolicy,
}

/// The one configuration that every client is built with, but for the
/// redirect policy.
pub open spec fn standard_config(allow_redirects: bool) -> ClientConfig {
    ClientConfig {
        pool_max_idle_per_host: 100,
        pool_idle_timeout: Timeout { secs: 90, nanos: 0 },
        timeout: Timeout { secs: 30, nanos: 0 },
        redirect: if allow_redirects {
            RedirectPolicy::Follow
        } else {
            RedirectPolicy::Never
        },
    }
}

/// The client that carries a request.
#[derive(Clone, Copy, Debug, PartialEq, Eq, Structural)]
pub enum ClientChoice {
    /// The shared client with its connection pool.
    Pooled,
    /// A client built for this request alone and dropped after it.
    Dedicated(ClientConfig),
}

/// The rule of the redirect flag: only an explicit `false` leaves the pool.
pub open spec fn client_for(allow_redirects: Option<bool>) -> ClientChoice {
    if allow_redirects == Some(false) {
        ClientChoice::Dedicated(standard_config(false))
    } else {
        ClientChoice::Pooled
    }
}

/// Applies the rule of the redirect flag.
pub fn select_client(allow_redirects: Option<bool>) -> (choice: ClientChoice)
    ensures
        choice == client_for(allow_redirects),
{
    match allow_redirects {
        Some(false) => ClientChoice::Dedicated(create_client_with_redirects(false)),
        _ => ClientChoice::Pooled,
    }
}

/// The configuration of a client with the given redirect behaviour.
pub fn create_client_with_redirects(allow_redirects: bool) -> (config: ClientConfig)
    ensures
        config == standard_config(allow_redirects),
{
    ClientConfig {
        pool_max_idle_per_host: 100,
        pool_idle_timeout: Timeout { secs: 90, nanos: 0 },
        timeout: Timeout { secs: 30, nanos: 0 },
        redirect: if allow_redirects {
            RedirectPolicy::Follow
        } else {
            RedirectPolicy::Never
        },
    }
}

/// The timeout that governs a call: its own, or else the client's.
pub fn effective_timeout(per_call: Option<Timeout>, config: &ClientConfig) -> (t: Timeout)
    ensures
        t == match per_call {
            Some(own) => own,
            None => config.timeout,
        },
{
    match per_call {
        Some(own) => own,
        None => config.timeout,
    }
}

} // verus!

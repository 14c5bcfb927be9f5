//! What `start` decides before the daemon forks: which auth token it applies,
//! whether that token is saved, and whether the user must log in first.
//!
//! A token given on the command line wins over one from the environment and
//! is saved; a token from the environment is used for this run only and never
//! saved. Without any token, a daemon started in the background (not
//! `--foreground`, not `--allow-unauthenticated`) logs the user in before it
//! forks.
use vstd::prelude::*;

verus! {

/// The pre-fork decisions of `start`.
#[derive(Debug, Clone, PartialEq, Eq)]
pub struct StartDecision {
    /// The token to apply once the engine runs, if any.
    pub token: Option<String>,
    /// Whether that token is saved (only a command-line token is).
    pub save_token: bool,
    /// Whether an interactive login runs before the fork.
    pub pre_login: bool,
}

/// Decide the token, whether it is saved, and whether to log in before
/// forking.
pub fn start_decision(
    cli_token: Option<String>,
    env_token: Option<String>,
    foreground: bool,
    allow_unauthenticated: bool,
) -> (r: StartDecision)
    ensures
        r.token == (if cli_token is Some {
            cli_token
        } else {
            env_token
        }),
        r.save_token == (cli_token is Some),
        r.pre_login == (r.token is None && !foreground && !allow_unauthenticated),
{
    let save_token = cli_token.is_some();
    let token = match cli_token {
        Some(t) => Some(t),
        None => env_token,
    };
    let pre_login = token.is_none() && !foreground && !allow_unauthenticated;
    StartDecision { token, save_token, pre_login }
}

} // verus!

//! The configuration that every handler reads and none changes.

use crate::budget::{money_of, Money};
use crate::errors::EctusError;
use crate::text::opt_text;
use vstd::prelude::*;

verus! {

#[derive(Debug, Clone)]
pub struct Config {
    /// The base address of the upstream service.
    pub api_url: String,
    /// The credential for the upstream service.
    pub api_key: Option<String>,
    /// The backend of a request that names none.
    pub orchestrator_backend: String,
    /// What a month may cost.
    pub budget_limit: Option<Money>,
    /// `hard` or `soft`.
    pub budget_policy: Option<String>,
}

/// What was given when the program was started.
#[derive(Debug, Clone)]
pub struct CliShim {
    pub api_url: String,
    pub api_key: Option<String>,
    pub orchestrator_backend: String,
    pub budget_limit: Option<Money>,
    pub budget_policy: Option<String>,
}

/// What the environment holds, each value under the name of its variable:
/// `ECTUS_R_API_URL`, `ECTUS_R_API_KEY`, `ORCH_BACKEND`,
/// `BUDGET_MONTHLY_USD_LIMIT` and `BUDGET_POLICY`.
#[derive(Debug, Clone)]
pub struct Environment {
    pub api_url: Option<String>,
    pub api_key: Option<String>,
    pub orchestrator_backend: Option<String>,
    pub budget_limit: Option<String>,
    pub budget_policy: Option<String>,
}

/// A text that was given where it is not empty, else the text of the
/// environment, else a default.
pub open spec fn text_setting(given: Seq<char>, env: Option<Seq<char>>, default: Seq<char>) -> Seq<
    char,
> {
    if given.len() > 0 {
        given
    } else {
        match env {
            Some(e) => e,
            None => default,
        }
    }
}

/// What was given, else what the environment holds.
pub open spec fn first_text(given: Option<Seq<char>>, env: Option<Seq<char>>) -> Option<Seq<char>> {
    match given {
        Some(g) => Some(g),
        None => env,
    }
}

/// The limit that was given, else the one that the environment spells.
pub open spec fn limit_setting(given: Option<Money>, env: Option<Seq<char>>) -> Option<Money> {
    match given {
        Some(g) => Some(g),
        None => match env {
            Some(e) => money_of(e),
            None => None,
        },
    }
}

fn pick_text(given: String, env: Option<String>, default: &str) -> (r: String)
    ensures
        r@ == text_setting(given@, opt_text(env), default@),
{
    if given.as_str().unicode_len() > 0 {
        given
    } else {
        match env {
            Some(e) => e,
            None => default.to_owned(),
        }
    }
}

fn pick_first(given: Option<String>, env: Option<String>) -> (r: Option<String>)
    ensures
        opt_text(r) == first_text(opt_text(given), opt_text(env)),
{
    match given {
        Some(g) => Some(g),
        None => env,
    }
}

impl Config {
    /// Merges what was given at the start with what the environment holds;
    /// what was given wins. This never fails.
    pub fn from_cli(cli: CliShim, env: Environment) -> (r: Result<Config, EctusError>)
        ensures
            r matches Ok(c) && {
                &&& c.api_url@ == text_setting(
                    cli.api_url@,
                    opt_text(env.api_url),
                    "http://localhost:8000"@,
                )
                &&& opt_text(c.api_key) == first_text(opt_text(cli.api_key), opt_text(env.api_key))
                &&& c.orchestrator_backend@ == text_setting(
                    cli.orchestrator_backend@,
                    opt_text(env.orchestrator_backend),
                    "kubernetes"@,
                )
                &&& c.budget_limit == limit_setting(cli.budget_limit, opt_text(env.budget_limit))
                &&& opt_text(c.budget_policy) == first_text(
                    opt_text(cli.budget_policy),
                    opt_text(env.budget_policy),
                )
            },
    {
        let budget_limit = match cli.budget_limit {
            Some(m) => Some(m),
            None => match &env.budget_limit {
                Some(t) => Money::parse(t.as_str()),
                None => None,
            },
        };
        Ok(
            Config {
                api_url: pick_text(cli.api_url, env.api_url, "http://localhost:8000"),
                api_key: pick_first(cli.api_key, env.api_key),
                orchestrator_backend: pick_text(
                    cli.orchestrator_backend,
                    env.orchestrator_backend,
                    "kubernetes",
                ),
                budget_limit,
                budget_policy: pick_first(cli.budget_policy, env.budget_policy),
            },
        )
    }
}

} // verus!

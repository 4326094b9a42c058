use ectusr2::budget::Money;
use ectusr2::config::{CliShim, Config, Environment};

fn cli() -> CliShim {
    CliShim {
        api_url: String::new(),
        api_key: None,
        orchestrator_backend: String::new(),
        budget_limit: None,
        budget_policy: None,
    }
}

fn env() -> Environment {
    Environment {
        api_url: None,
        api_key: None,
        orchestrator_backend: None,
        budget_limit: None,
        budget_policy: None,
    }
}

fn merged(cli: CliShim, env: Environment) -> Config {
    Config::from_cli(cli, env).unwrap()
}

#[test]
fn defaults_where_nothing_is_given() {
    let c = merged(cli(), env());
    assert_eq!(c.api_url, "http://localhost:8000");
    assert_eq!(c.api_key, None);
    assert_eq!(c.orchestrator_backend, "kubernetes");
    assert_eq!(c.budget_limit, None);
    assert_eq!(c.budget_policy, None);
}

#[test]
fn the_environment_fills_what_was_not_given() {
    let c = merged(
        cli(),
        Environment {
            api_url: Some("http://upstream:9000".to_string()),
            api_key: Some("SECRET-REDACTED".to_string()),
            orchestrator_backend: Some("local".to_string()),
            budget_limit: Some("250.75".to_string()),
            budget_policy: Some("hard".to_string()),
        },
    );
    assert_eq!(c.api_url, "http://upstream:9000");
    assert_eq!(c.api_key.as_deref(), Some("SECRET-REDACTED"));
    assert_eq!(c.orchestrator_backend, "local");
    assert_eq!(c.budget_limit, Money::parse("250.75"));
    assert_eq!(c.budget_limit.unwrap().units, 2_507_500_000_000_000);
    assert_eq!(c.budget_policy.as_deref(), Some("hard"));
}

#[test]
fn what_was_given_wins_over_the_environment() {
    let c = merged(
        CliShim {
            api_url: "http://given".to_string(),
            api_key: Some("given-key".to_string()),
            orchestrator_backend: "ecs".to_string(),
            budget_limit: Some(Money::dollars(10)),
            budget_policy: Some("soft".to_string()),
        },
        Environment {
            api_url: Some("http://env".to_string()),
            api_key: Some("env-key".to_string()),
            orchestrator_backend: Some("local".to_string()),
            budget_limit: Some("99".to_string()),
            budget_policy: Some("hard".to_string()),
        },
    );
    assert_eq!(c.api_url, "http://given");
    assert_eq!(c.api_key.as_deref(), Some("given-key"));
    assert_eq!(c.orchestrator_backend, "ecs");
    assert_eq!(c.budget_limit, Some(Money::dollars(10)));
    assert_eq!(c.budget_policy.as_deref(), Some("soft"));
}

#[test]
fn a_limit_in_the_environment_that_is_no_amount_is_no_limit() {
    for text in ["", "lots", "-5", "1e", " 10", "inf"] {
        let c = merged(cli(), Environment { budget_limit: Some(text.to_string()), ..env() });
        assert_eq!(c.budget_limit, None, "{:?}", text);
    }
}

#[test]
fn an_empty_text_in_the_environment_is_taken_as_it_is() {
    let c = merged(
        cli(),
        Environment {
            api_url: Some(String::new()),
            orchestrator_backend: Some(String::new()),
            ..env()
        },
    );
    assert_eq!(c.api_url, "");
    assert_eq!(c.orchestrator_backend, "");
}

use ectusr2::api::client::{ApiClient, HttpReply};
use ectusr2::budget::Money;
use ectusr2::config::Config;
use ectusr2::errors::EctusError;
use ectusr2::json::Json;
use ectusr2::orchestrator::{ClusterCall, ClusterReply};
use ectusr2::tools::{
    budget_config, budget_status, call, cost_answer, cost_estimate, list, money_json,
    orchestrator_scale, read_resources, upstream_done, ClusterWait, Report, ToolStep,
};

fn client() -> ApiClient {
    ApiClient::new("http://upstream".to_string(), Some("SECRET-REDACTED".to_string()))
}

fn config(backend: &str, limit: Option<&str>, policy: Option<&str>) -> Config {
    Config {
        api_url: "http://upstream".to_string(),
        api_key: None,
        orchestrator_backend: backend.to_string(),
        budget_limit: limit.map(|l| Money::parse(l).unwrap()),
        budget_policy: policy.map(|p| p.to_string()),
    }
}

fn args(text: &str) -> Json {
    Json::parse(text).unwrap()
}

fn value(text: &str) -> serde_json::Value {
    serde_json::from_str(text).unwrap()
}

fn done(step: ToolStep) -> serde_json::Value {
    match step {
        ToolStep::Done(Ok(text)) => value(&text),
        other => panic!("not done: {:?}", other),
    }
}

fn failed(step: ToolStep) -> EctusError {
    match step {
        ToolStep::Done(Err(e)) => e,
        other => panic!("not failed: {:?}", other),
    }
}

#[test]
fn the_tools_are_listed_by_name() {
    let tools = value(&list().render());
    let names: Vec<&str> =
        tools.as_array().unwrap().iter().map(|t| t["name"].as_str().unwrap()).collect();
    assert_eq!(
        names,
        [
            "generate_code",
            "run_qa",
            "refactor_code",
            "orchestrator_scale",
            "orchestrator_status",
            "pool_ensure",
            "cost_estimate",
            "budget_config",
            "budget_status"
        ]
    );
    let mut sorted = names.clone();
    sorted.sort();
    sorted.dedup();
    assert_eq!(sorted.len(), names.len());
    for t in tools.as_array().unwrap() {
        assert!(!t["description"].as_str().unwrap().is_empty());
        assert_eq!(t["inputSchema"], value("{\"type\":\"object\"}"));
    }
    assert_eq!(tools[0]["description"], "Generate production-ready code");
    assert_eq!(
        tools[7]["description"],
        "Configure budget policy (read-only in this build; use CLI/env)"
    );
}

#[test]
fn an_unknown_tool_fails_and_the_message_names_it() {
    for name in ["", "nope", "Cost_Estimate", "cost_estimate ", "tools/call"] {
        match failed(call(&client(), &config("local", None, None), name, args("{}"))) {
            EctusError::Input(m) => assert_eq!(m, format!("unknown tool: {}", name)),
            other => panic!("{:?}", other),
        }
    }
}

#[test]
fn five_kubernetes_replicas_for_a_month() {
    let r = cost_estimate(&args(
        "{\"backend\":\"kubernetes\",\"replicas\":5,\
         \"resources\":{\"cpu\":\"1\",\"memory\":\"1Gi\"},\"duration_hours\":24}",
    ))
    .unwrap();
    let v = value(&r);
    let monthly = v["monthly_projected_usd"].as_f64().unwrap();
    assert!((monthly - 5.0 * (1.0 * 0.035 + 1.0 * 0.004) * 24.0 * 30.0).abs() < 1e-9);
    assert_eq!(v["hourly_total_usd"].as_f64().unwrap(), 0.195);
    assert_eq!(v["backend"], "kubernetes");
    assert_eq!(v["replicas"], 5);
    assert_eq!(v["breakdown"], "replicas=5 cpu=1cores mem=1Gi gpu=0 -> perReplica=$0.0390/h");
    assert_eq!(
        r,
        "{\"backend\":\"kubernetes\",\
         \"breakdown\":\"replicas=5 cpu=1cores mem=1Gi gpu=0 -> perReplica=$0.0390/h\",\
         \"hourly_total_usd\":0.195,\"monthly_projected_usd\":140.4,\"replicas\":5}"
    );
}

#[test]
fn cost_estimate_with_nothing_said() {
    let v = value(&cost_estimate(&args("{}")).unwrap());
    assert_eq!(v["backend"], "kubernetes");
    assert_eq!(v["replicas"], 1);
    assert_eq!(v["hourly_total_usd"].as_f64().unwrap(), 0.039);
    assert_eq!(v["monthly_projected_usd"].as_f64().unwrap(), 28.08);
    for other in ["null", "[]", "7", "\"x\""] {
        assert_eq!(value(&cost_estimate(&args(other)).unwrap()), v, "{}", other);
    }
}

#[test]
fn cost_estimate_repeats() {
    let a = args("{\"backend\":\"ecs\",\"replicas\":3,\"resources\":{\"cpu\":\"250m\",\"memory\":\"2Gi\",\"gpu\":\"1\"}}");
    let first = cost_estimate(&a).unwrap();
    let second = cost_estimate(&a).unwrap();
    assert_eq!(first, second);
    let through_call = match call(&client(), &config("local", None, None), "cost_estimate", a) {
        ToolStep::Done(Ok(text)) => text,
        other => panic!("{:?}", other),
    };
    assert_eq!(through_call, first);
}

#[test]
fn the_duration_does_not_change_the_estimate() {
    let with = |d: &str| {
        cost_estimate(&args(&format!("{{\"replicas\":2,\"duration_hours\":{}}}", d))).unwrap()
    };
    let day = with("24");
    for d in ["0", "1", "0.5", "720", "100000", "\"a week\"", "null", "-3"] {
        assert_eq!(with(d), day, "{}", d);
    }
}

#[test]
fn replicas_that_are_no_count_are_one() {
    let with = |r: &str| value(&cost_estimate(&args(&format!("{{\"replicas\":{}}}", r))).unwrap());
    for r in ["-2", "1.5", "\"3\"", "null", "[2]"] {
        assert_eq!(with(r)["replicas"], 1, "{}", r);
    }
    assert_eq!(with("0")["replicas"], 0);
    assert_eq!(with("4294967295")["replicas"], 4294967295u32);
    assert_eq!(with("4294967296")["replicas"], 0);
    assert_eq!(with("4294967301")["replicas"], 5);
}

#[test]
fn resources_of_a_wrong_shape_fail() {
    let cases = [
        ("{\"resources\": null}", "resources must be an object"),
        ("{\"resources\": \"1 core\"}", "resources must be an object"),
        ("{\"resources\": [\"1\", \"1Gi\"]}", "resources must be an object"),
        ("{\"resources\": {}}", "resources.cpu must be a string"),
        ("{\"resources\": {\"cpu\": 1, \"memory\": \"1Gi\"}}", "resources.cpu must be a string"),
        ("{\"resources\": {\"cpu\": \"1\"}}", "resources.memory must be a string"),
        ("{\"resources\": {\"cpu\": \"1\", \"memory\": null}}", "resources.memory must be a string"),
        (
            "{\"resources\": {\"cpu\": \"1\", \"memory\": \"1Gi\", \"gpu\": 2}}",
            "resources.gpu must be a string",
        ),
    ];
    for (a, message) in cases {
        match cost_estimate(&args(a)) {
            Err(EctusError::Input(m)) => assert_eq!(m, message, "{}", a),
            other => panic!("{}: {:?}", a, other),
        }
        match failed(orchestrator_scale(&config("local", None, None), &args(a))) {
            EctusError::Input(m) => assert_eq!(m, message, "{}", a),
            other => panic!("{}: {:?}", a, other),
        }
    }
}

#[test]
fn resources_are_read_from_an_object() {
    let r = read_resources(&args("{\"cpu\": \"500m\", \"memory\": \"2Gi\", \"extra\": 1}")).unwrap();
    assert_eq!((r.cpu.as_str(), r.memory.as_str(), r.gpu), ("500m", "2Gi", None));
    let r = read_resources(&args("{\"cpu\": \"\", \"memory\": \"x\", \"gpu\": null}")).unwrap();
    assert_eq!((r.cpu.as_str(), r.memory.as_str(), r.gpu), ("", "x", None));
    let r = read_resources(&args("{\"cpu\": \"1\", \"memory\": \"1\", \"gpu\": \"2\"}")).unwrap();
    assert_eq!(r.gpu.as_deref(), Some("2"));
}

#[test]
fn scaling_on_the_local_backend() {
    let v = done(orchestrator_scale(
        &config("local", None, None),
        &args("{\"replicas\": 3, \"resources\": {\"cpu\": \"2\", \"memory\": \"4Gi\"}}"),
    ));
    assert_eq!(v["ok"], true);
    assert_eq!(v["action"], "scale");
    assert_eq!(v["backend"], "local");
    assert_eq!(v["replicas"], 3);
    assert_eq!(v["result"], "scaled to 3 (local stub)");
    // the rates of a backend that the table does not hold: 2 x 0.040 + 4 x 0.005
    assert!((v["estimate"]["monthly"].as_f64().unwrap() - 3.0 * 0.1 * 720.0).abs() < 1e-9);
}

#[test]
fn scaling_takes_the_configured_backend_where_none_is_named() {
    let v = done(orchestrator_scale(&config("nomad", None, None), &args("{}")));
    assert_eq!(v["backend"], "nomad");
    assert_eq!(v["replicas"], 1);
    assert_eq!(v["result"], "scaled to 1 (local stub)");
    let v = done(orchestrator_scale(&config("nomad", None, None), &args("{\"backend\": \"local\"}")));
    assert_eq!(v["backend"], "local");
}

#[test]
fn scaling_on_kubernetes_asks_for_a_patch() {
    let step = orchestrator_scale(
        &config("kubernetes", None, None),
        &args("{\"replicas\": 5, \"namespace\": \"prod\", \"name\": \"api\", \"model\": \"m\"}"),
    );
    let wait = match step {
        ToolStep::Cluster(wait) => wait,
        other => panic!("{:?}", other),
    };
    match &wait.call {
        ClusterCall::PatchDeployment { namespace, name, patch, summary } => {
            assert_eq!(namespace, "prod");
            assert_eq!(name, "api");
            assert_eq!(patch.render(), "{\"spec\":{\"replicas\":5}}");
            assert_eq!(summary, "scaled api to 5 in prod");
        }
        other => panic!("{:?}", other),
    }
    let v = value(&wait.done(ClusterReply::Patched).unwrap());
    assert_eq!(
        v,
        value(
            "{\"ok\":true,\"action\":\"scale\",\"backend\":\"kubernetes\",\"replicas\":5,\
             \"result\":\"scaled api to 5 in prod\",\"estimate\":{\"monthly\":140.4}}"
        )
    );
}

#[test]
fn a_failure_of_the_cluster_is_the_failure_of_the_tool() {
    let step = orchestrator_scale(&config("k8s", None, None), &args("{}"));
    let wait = match step {
        ToolStep::Cluster(wait) => wait,
        other => panic!("{:?}", other),
    };
    match wait.done(ClusterReply::Failed("deployments.apps not found".to_string())) {
        Err(EctusError::Backend(m)) => assert_eq!(m, "deployments.apps not found"),
        other => panic!("{:?}", other),
    }
}

#[test]
fn a_hard_limit_stops_the_scaling_whatever_the_override() {
    let cfg = config("kubernetes", Some("100"), Some("hard"));
    for over in ["false", "true"] {
        let v = done(orchestrator_scale(
            &cfg,
            &args(&format!("{{\"replicas\": 5, \"override\": {}}}", over)),
        ));
        assert_eq!(
            v,
            value(
                "{\"ok\":false,\
                 \"reason\":\"budget hard-limit exceeded (limit=$100.00, projected=$140.40)\",\
                 \"estimate\":{\"monthly\":140.4}}"
            )
        );
    }
}

#[test]
fn the_mode_is_read_without_regard_to_case_and_every_other_word_is_soft() {
    for word in ["hard", "HARD", "Hard"] {
        let v = done(orchestrator_scale(
            &config("local", Some("1"), Some(word)),
            &args("{\"override\": true}"),
        ));
        assert_eq!(v["ok"], false, "{}", word);
    }
    for word in ["soft", "SOFT", "", "strict", "hard "] {
        let cfg = config("local", Some("1"), Some(word));
        let v = done(orchestrator_scale(&cfg, &args("{\"override\": true}")));
        assert_eq!(v["ok"], true, "{:?}", word);
        let v = done(orchestrator_scale(&cfg, &args("{}")));
        assert_eq!(v["ok"], false, "{:?}", word);
    }
}

#[test]
fn a_soft_limit_stops_the_scaling_unless_overridden() {
    let cfg = config("local", Some("100"), Some("soft"));
    let v = done(orchestrator_scale(&cfg, &args("{\"replicas\": 5, \"backend\": \"kubernetes\", \"budget_enforce\": true}")));
    assert_eq!(v["ok"], false);
    assert_eq!(
        v["reason"],
        "budget soft-limit exceeded; override required (limit=$100.00, projected=$140.40)"
    );
    let v = done(orchestrator_scale(&cfg, &args("{\"replicas\": 5, \"override\": true}")));
    assert_eq!(v["ok"], true);
    let v = done(orchestrator_scale(&cfg, &args("{\"replicas\": 5, \"override\": \"yes\"}")));
    assert_eq!(v["ok"], false);
}

#[test]
fn a_projection_within_the_limit_scales() {
    for policy in [Some("hard"), Some("soft"), None] {
        // five replicas at 0.040 + 0.005 dollars an hour, for 720 hours
        let cfg = config("local", Some("162"), policy);
        let v = done(orchestrator_scale(&cfg, &args("{\"replicas\": 5}")));
        assert_eq!(v["ok"], true);
        assert_eq!(v["estimate"]["monthly"].as_f64(), Some(162.0));
    }
    let cfg = config("kubernetes", Some("140.4"), Some("hard"));
    assert!(matches!(orchestrator_scale(&cfg, &args("{\"replicas\": 5}")), ToolStep::Cluster(_)));
    let cfg = config("kubernetes", Some("140.39"), Some("hard"));
    assert!(matches!(orchestrator_scale(&cfg, &args("{\"replicas\": 5}")), ToolStep::Done(Ok(_))));
}

#[test]
fn a_budget_that_is_not_enforced_stops_nothing() {
    let cfg = config("local", Some("1"), Some("hard"));
    let v = done(orchestrator_scale(&cfg, &args("{\"replicas\": 50, \"budget_enforce\": false}")));
    assert_eq!(v["ok"], true);
    assert_eq!(v["replicas"], 50);
    let v = done(orchestrator_scale(&cfg, &args("{\"replicas\": 50, \"budget_enforce\": 0}")));
    assert_eq!(v["ok"], false);
}

#[test]
fn a_limit_without_a_mode_stops_nothing() {
    let cfg = config("local", Some("1"), None);
    let v = done(orchestrator_scale(&cfg, &args("{\"replicas\": 50}")));
    assert_eq!(v["ok"], true);
}

#[test]
fn status_of_the_local_backend() {
    let v = done(call(&client(), &config("local", None, None), "orchestrator_status", args("{}")));
    assert_eq!(v, value("{\"backend\":\"local\",\"status\":\"local: ok\"}"));
}

#[test]
fn status_of_kubernetes_lists_the_deployments() {
    let step = call(
        &client(),
        &config("local", None, None),
        "orchestrator_status",
        args("{\"backend\": \"K8s\", \"namespace\": \"prod\"}"),
    );
    let wait = match step {
        ToolStep::Cluster(wait) => wait,
        other => panic!("{:?}", other),
    };
    assert!(matches!(&wait.call, ClusterCall::ListDeployments { namespace } if namespace == "prod"));
    let reply = ClusterReply::Deployments(vec!["api".to_string(), "workers".to_string()]);
    assert_eq!(
        value(&wait.done(reply).unwrap()),
        value("{\"backend\":\"K8s\",\"status\":\"deployments in prod: api, workers\"}")
    );
}

#[test]
fn ensuring_a_pool() {
    let v = done(call(
        &client(),
        &config("local", None, None),
        "pool_ensure",
        args("{\"spec\": {\"image\": \"m:1\"}, \"name\": \"pool\"}"),
    ));
    assert_eq!(v, value("{\"backend\":\"local\",\"result\":\"pool ensured (local stub)\"}"));
    let v = done(call(&client(), &config("kubernetes", None, None), "pool_ensure", args("{}")));
    assert_eq!(
        v,
        value("{\"backend\":\"kubernetes\",\"result\":\"ensure_pool not implemented for k8s yet\"}")
    );
}

#[test]
fn a_report_for_a_pool_that_waited() {
    let wait = ClusterWait {
        call: ClusterCall::PatchDeployment {
            namespace: "ns".to_string(),
            name: "pool".to_string(),
            patch: Json::Null,
            summary: "ensured deployment pool in ns (replicas 2)".to_string(),
        },
        report: Report::Pool { backend: "kubernetes".to_string() },
    };
    assert_eq!(
        value(&wait.done(ClusterReply::Patched).unwrap()),
        value("{\"backend\":\"kubernetes\",\"result\":\"ensured deployment pool in ns (replicas 2)\"}")
    );
}

#[test]
fn the_configured_policy() {
    assert_eq!(
        value(&budget_config(&config("local", Some("250.5"), Some("hard"))).render()),
        value("{\"policy\":\"hard\",\"monthly_usd_limit\":250.5}")
    );
    assert_eq!(
        value(&budget_config(&config("local", None, None)).render()),
        value("{\"policy\":null,\"monthly_usd_limit\":null}")
    );
    let v = done(call(&client(), &config("local", Some("10"), None), "budget_config", args("{\"policy\": \"soft\"}")));
    assert_eq!(v, value("{\"policy\":null,\"monthly_usd_limit\":10.0}"));
}

#[test]
fn the_state_of_the_budget() {
    assert_eq!(
        budget_status(&config("local", Some("250.5"), Some("hard"))).render(),
        "{\"headroom_usd\":250.5,\"month_to_date_usd\":0.0,\"projected_eom_usd\":250.5}"
    );
    assert_eq!(
        budget_status(&config("local", None, None)).render(),
        "{\"headroom_usd\":0.0,\"month_to_date_usd\":0.0,\"projected_eom_usd\":0.0}"
    );
    let v = done(call(&client(), &config("local", Some("7"), None), "budget_status", args("{}")));
    assert_eq!(v["month_to_date_usd"].as_f64(), Some(0.0));
    assert_eq!(v["headroom_usd"].as_f64(), Some(7.0));
}

#[test]
fn the_upstream_tools_post_their_arguments() {
    let cases = [
        ("generate_code", "http://upstream/api/v1/generate"),
        ("run_qa", "http://upstream/api/v1/qa"),
        ("refactor_code", "http://upstream/api/v1/refactor"),
    ];
    for (name, url) in cases {
        let a = args("{\"prompt\": \"sort a list\", \"depth\": [1, 2.5, null]}");
        match call(&client(), &config("local", None, None), name, a) {
            ToolStep::Upstream(request) => {
                assert_eq!(request.url, url);
                assert_eq!(request.bearer.as_deref(), Some("SECRET-REDACTED"));
                assert_eq!(request.body, "{\"depth\":[1,2.5,null],\"prompt\":\"sort a list\"}");
            }
            other => panic!("{:?}", other),
        }
    }
}

#[test]
fn the_answer_of_the_upstream_service_is_the_answer_of_the_tool() {
    let reply = HttpReply::Answered {
        status: 200,
        reason: "OK".to_string(),
        body: " {\"code\" : \"fn main() {}\"} ".to_string(),
    };
    assert_eq!(upstream_done(reply).unwrap(), "{\"code\":\"fn main() {}\"}");
    let reply =
        HttpReply::Answered { status: 200, reason: "OK".to_string(), body: "done".to_string() };
    assert_eq!(upstream_done(reply).unwrap(), "\"done\"");
    let reply = HttpReply::Answered {
        status: 503,
        reason: "Service Unavailable".to_string(),
        body: "busy".to_string(),
    };
    match upstream_done(reply) {
        Err(EctusError::Http(m)) => assert_eq!(m, "status 503 Service Unavailable: busy"),
        other => panic!("{:?}", other),
    }
    match upstream_done(HttpReply::Failed("dns".to_string())) {
        Err(EctusError::Http(m)) => assert_eq!(m, "send request"),
        other => panic!("{:?}", other),
    }
}

#[test]
fn money_as_a_number_of_dollars() {
    assert_eq!(money_json(Money { units: 0 }).render(), "0.0");
    assert_eq!(money_json(Money::dollars(140)).render(), "140.0");
    assert_eq!(money_json(Money::parse("140.4").unwrap()).render(), "140.4");
    assert_eq!(money_json(Money { units: 1 }).render(), "1e-13");
    assert_eq!(money_json(Money { units: 39_062_500_000 }).render(), "0.00390625");
}

#[test]
fn the_answer_of_cost_estimate_from_given_figures() {
    let j = cost_answer("ecs", 2, Money::dollars(3), Money::dollars(2160), "two of them");
    assert_eq!(j.get_u64("replicas"), Some(2));
    let big = cost_answer("ecs", u32::MAX, Money::dollars(3), Money::dollars(2160), "many");
    assert_eq!(big.get_u64("replicas"), Some(4_294_967_295));
    assert_eq!(
        j.render(),
        "{\"backend\":\"ecs\",\"breakdown\":\"two of them\",\"hourly_total_usd\":3.0,\
         \"monthly_projected_usd\":2160.0,\"replicas\":2}"
    );
}

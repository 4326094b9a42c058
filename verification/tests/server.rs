use ectusr2::api::client::{ApiClient, HttpReply};
use ectusr2::budget::Money;
use ectusr2::config::Config;
use ectusr2::errors::EctusError;
use ectusr2::json::Json;
use ectusr2::mcp::server::{
    complete_cluster, complete_upstream, error, finish_cluster, finish_upstream, handle_line,
    handle_parsed, handle_request, parse_call_params, parse_error, respond, tool_reply,
    upstream_client, Dispatch, LineStep, QUEUE_CAPACITY,
};
use ectusr2::mcp::types::{JsonRpcRequest, JsonRpcResponse};
use ectusr2::orchestrator::ClusterReply;

fn client() -> ApiClient {
    ApiClient::new("http://upstream".to_string(), None)
}

fn config() -> Config {
    Config {
        api_url: "http://upstream".to_string(),
        api_key: None,
        orchestrator_backend: "local".to_string(),
        budget_limit: Some(Money::dollars(100)),
        budget_policy: Some("hard".to_string()),
    }
}

fn value(text: &str) -> serde_json::Value {
    serde_json::from_str(text).unwrap()
}

/// The line that a line of input is answered with at once.
fn answer(line: &str) -> serde_json::Value {
    match handle_line(&client(), &config(), line) {
        LineStep::Respond(out) => {
            assert!(!out.contains('\n'));
            value(&out)
        }
        other => panic!("{}: {:?}", line, other),
    }
}

/// What the tool said, taken out of the response to its call.
fn tool_text(response: &serde_json::Value) -> serde_json::Value {
    let content = response["result"]["content"].as_array().unwrap();
    assert_eq!(content.len(), 1);
    assert_eq!(content[0]["type"], "text");
    value(content[0]["text"].as_str().unwrap())
}

fn request(method: &str, id: &str, params: Option<&str>) -> JsonRpcRequest {
    JsonRpcRequest {
        jsonrpc: "2.0".to_string(),
        id: Json::parse(id).unwrap(),
        method: method.to_string(),
        params: params.map(|p| Json::parse(p).unwrap()),
    }
}

fn reply(d: Dispatch) -> JsonRpcResponse {
    match d {
        Dispatch::Reply(r) => r,
        other => panic!("{:?}", other),
    }
}

#[test]
fn the_queue_holds_a_hundred_lines() {
    assert_eq!(QUEUE_CAPACITY, 100);
}

#[test]
fn the_client_is_made_from_the_configuration() {
    let cfg = Config {
        api_url: "https://api.example".to_string(),
        api_key: Some("SECRET-REDACTED".to_string()),
        ..config()
    };
    let request = upstream_client(&cfg).post_json("/api/v1/qa", &Json::Null);
    assert_eq!(request.url, "https://api.example/api/v1/qa");
    assert_eq!(request.bearer.as_deref(), Some("SECRET-REDACTED"));
    let request = upstream_client(&config()).post_json("/x", &Json::Null);
    assert_eq!(request.url, "http://upstream/x");
    assert_eq!(request.bearer, None);
}

#[test]
fn blank_lines_are_passed_over() {
    for line in ["", " ", "\t", "   \r", "\u{a0}\u{3000}"] {
        assert!(matches!(handle_line(&client(), &config(), line), LineStep::Skip), "{:?}", line);
    }
}

#[test]
fn the_handshake() {
    let v = answer("{\"jsonrpc\":\"2.0\",\"id\":1,\"method\":\"initialize\"}");
    assert_eq!(
        v,
        value(
            "{\"jsonrpc\":\"2.0\",\"id\":1,\"result\":{\"protocolVersion\":\"2024-11-05\",\
             \"capabilities\":{\"tools\":{},\"resources\":{},\"prompts\":{}},\
             \"serverInfo\":{\"name\":\"ectusr2\",\"version\":\"0.1.0\"}}}"
        )
    );
}

#[test]
fn the_lists() {
    let v = answer("{\"jsonrpc\":\"2.0\",\"id\":\"a\",\"method\":\"tools/list\",\"params\":{}}");
    assert_eq!(v["id"], "a");
    assert_eq!(v["result"]["tools"].as_array().unwrap().len(), 9);
    assert_eq!(v["result"]["tools"][6]["name"], "cost_estimate");
    let v = answer("{\"jsonrpc\":\"2.0\",\"id\":2,\"method\":\"resources/list\"}");
    let resources = v["result"]["resources"].as_array().unwrap();
    assert_eq!(resources.len(), 3);
    assert_eq!(
        resources[0],
        value(
            "{\"uri\":\"ectus://metrics/generation\",\"name\":\"Code Generation Metrics\",\
             \"description\":\"Recent generation metrics\",\"mimeType\":\"application/json\"}"
        )
    );
    assert_eq!(resources[1]["uri"], "ectus://metrics/qa");
    assert_eq!(resources[2]["name"], "Template Library");
    let v = answer("{\"jsonrpc\":\"2.0\",\"id\":3,\"method\":\"prompts/list\"}");
    let prompts = v["result"]["prompts"].as_array().unwrap();
    assert_eq!(prompts.len(), 2);
    assert_eq!(prompts[0]["name"], "generate_code_template");
    assert_eq!(prompts[1]["name"], "run_qa_template");
}

#[test]
fn prompts_by_name() {
    let v = answer("{\"jsonrpc\":\"2.0\",\"id\":1,\"method\":\"prompts/get\",\"params\":{\"name\":\"generate_code_template\"}}");
    assert_eq!(
        v["result"],
        value("{\"messages\":[{\"role\":\"user\",\"content\":{\"type\":\"text\",\"text\":\"Generate production code for ...\"}}]}")
    );
    let v = answer("{\"jsonrpc\":\"2.0\",\"id\":1,\"method\":\"prompts/get\",\"params\":{\"name\":\"run_qa_template\"}}");
    assert_eq!(
        v["result"]["messages"][0]["content"]["text"],
        "Run QA on the following code ..."
    );
}

#[test]
fn an_unknown_prompt_is_an_empty_template_and_no_error() {
    let v = answer("{\"jsonrpc\":\"2.0\",\"id\":1,\"method\":\"prompts/get\",\"params\":{\"name\":\"nope\"}}");
    assert_eq!(v["result"], value("{\"messages\":[]}"));
    assert!(v.get("error").is_none());
}

#[test]
fn a_prompt_without_a_name_is_invalid() {
    for params in ["", ",\"params\":{}", ",\"params\":{\"name\":7}", ",\"params\":null", ",\"params\":[\"x\"]"] {
        let v = answer(&format!("{{\"jsonrpc\":\"2.0\",\"id\":1,\"method\":\"prompts/get\"{}}}", params));
        assert_eq!(v["error"]["code"], -32602, "{}", params);
        assert_eq!(v["error"]["message"], "missing name");
        assert!(v.get("result").is_none());
    }
}

#[test]
fn an_unknown_method_is_not_found() {
    for method in ["", "nope", "Initialize", "tools", "tools/call/x", "ping"] {
        let v = answer(&format!("{{\"jsonrpc\":\"2.0\",\"id\":[1,\"x\"],\"method\":\"{}\"}}", method));
        assert_eq!(
            v,
            value("{\"jsonrpc\":\"2.0\",\"id\":[1,\"x\"],\"error\":{\"code\":-32601,\"message\":\"method not found\"}}"),
            "{}",
            method
        );
    }
}

#[test]
fn the_id_comes_back_as_it_came() {
    for id in ["1", "-7.5", "\"abc\"", "null", "[1,{\"a\":null}]", "{\"deep\":{\"er\":true}}", "18446744073709551616"] {
        let v = answer(&format!("{{\"jsonrpc\":\"2.0\",\"id\":{},\"method\":\"initialize\"}}", id));
        assert_eq!(v["id"], value(id), "{}", id);
        let v = answer(&format!("{{\"jsonrpc\":\"2.0\",\"id\":{},\"method\":\"nope\"}}", id));
        assert_eq!(v["id"], value(id), "{}", id);
        let v = answer(&format!(
            "{{\"jsonrpc\":\"2.0\",\"id\":{},\"method\":\"tools/call\",\"params\":{{\"name\":\"budget_status\"}}}}",
            id
        ));
        assert_eq!(v["id"], value(id), "{}", id);
    }
}

#[test]
fn a_request_without_an_id_is_answered_with_a_null_id() {
    let v = answer("{\"jsonrpc\":\"2.0\",\"method\":\"initialize\"}");
    assert_eq!(v["id"], serde_json::Value::Null);
    assert!(v.get("result").is_some());
}

#[test]
fn a_line_that_is_no_json_is_a_parse_error_without_an_id() {
    for line in ["not json", "{", "{\"method\": }", "[1,", "\u{feff}{}", "}{"] {
        let v = answer(line);
        assert_eq!(v["jsonrpc"], "2.0");
        assert_eq!(v["id"], serde_json::Value::Null, "{}", line);
        assert_eq!(v["error"]["code"], -32700, "{}", line);
        assert!(v["error"]["message"].as_str().unwrap().starts_with("parse error: "));
        assert!(v.get("result").is_none());
    }
    assert_eq!(
        answer("not json")["error"]["message"],
        "parse error: expected ident at line 1 column 2"
    );
}

#[test]
fn a_document_that_is_no_request_is_a_parse_error_without_an_id() {
    let cases = [
        ("[]", "parse error: invalid type: expected a request object"),
        ("7", "parse error: invalid type: expected a request object"),
        ("\"initialize\"", "parse error: invalid type: expected a request object"),
        ("null", "parse error: invalid type: expected a request object"),
        ("{}", "parse error: missing field `method`"),
        ("{\"jsonrpc\":\"2.0\",\"id\":5}", "parse error: missing field `method`"),
        ("{\"jsonrpc\":\"2.0\",\"id\":5,\"method\":7}", "parse error: missing field `method`"),
        (
            "{\"jsonrpc\":2,\"id\":5,\"method\":\"initialize\"}",
            "parse error: invalid type: `jsonrpc` must be a string",
        ),
    ];
    for (line, message) in cases {
        let v = answer(line);
        assert_eq!(
            v,
            value(&format!(
                "{{\"jsonrpc\":\"2.0\",\"id\":null,\"error\":{{\"code\":-32700,\"message\":\"{}\"}}}}",
                message
            )),
            "{}",
            line
        );
    }
}

#[test]
fn a_malformed_line_does_not_disturb_the_next() {
    let good = "{\"jsonrpc\":\"2.0\",\"id\":9,\"method\":\"initialize\"}";
    let before = answer(good);
    let bad = answer("this is not json");
    assert_eq!(bad["error"]["code"], -32700);
    assert_eq!(bad["id"], serde_json::Value::Null);
    let after = answer(good);
    assert_eq!(before, after);
    assert_eq!(after["id"], 9);
    assert!(after.get("result").is_some());
}

#[test]
fn lines_are_answered_one_for_one_and_in_order() {
    let lines = [
        "{\"jsonrpc\":\"2.0\",\"id\":1,\"method\":\"tools/list\"}",
        "",
        "{\"jsonrpc\":\"2.0\",\"id\":2,\"method\":\"tools/call\",\"params\":{\"name\":\"cost_estimate\",\"arguments\":{\"replicas\":40}}}",
        "oops",
        "   ",
        "{\"jsonrpc\":\"2.0\",\"id\":3,\"method\":\"initialize\"}",
        "{\"jsonrpc\":\"2.0\",\"id\":4,\"method\":\"nope\"}",
    ];
    let mut out = Vec::new();
    for line in lines {
        match handle_line(&client(), &config(), line) {
            LineStep::Skip => {}
            LineStep::Respond(text) => out.push(value(&text)),
            other => panic!("{:?}", other),
        }
    }
    let ids: Vec<serde_json::Value> = out.iter().map(|v| v["id"].clone()).collect();
    assert_eq!(
        ids,
        [value("1"), value("2"), value("null"), value("3"), value("4")]
    );
    assert!(out[0].get("result").is_some());
    assert!(out[1].get("result").is_some());
    assert_eq!(out[2]["error"]["code"], -32700);
    assert!(out[3].get("result").is_some());
    assert_eq!(out[4]["error"]["code"], -32601);
}

#[test]
fn lines_that_wait_are_answered_in_their_turn() {
    let lines = [
        "{\"jsonrpc\":\"2.0\",\"id\":1,\"method\":\"tools/call\",\"params\":{\"name\":\"generate_code\",\"arguments\":{}}}",
        "{\"jsonrpc\":\"2.0\",\"id\":2,\"method\":\"initialize\"}",
        "{\"jsonrpc\":\"2.0\",\"id\":3,\"method\":\"tools/call\",\"params\":{\"name\":\"orchestrator_status\",\"arguments\":{\"backend\":\"k8s\"}}}",
        "not a request",
        "{\"jsonrpc\":\"2.0\",\"id\":5,\"method\":\"tools/call\",\"params\":{\"name\":\"run_qa\",\"arguments\":{}}}",
        "{\"jsonrpc\":\"2.0\",\"id\":6,\"method\":\"tools/list\"}",
    ];
    let mut out = Vec::new();
    for line in lines {
        let written = match handle_line(&client(), &config(), line) {
            LineStep::Skip => panic!("{}", line),
            LineStep::Respond(text) => text,
            LineStep::Upstream { id, request: _ } => finish_upstream(
                id,
                HttpReply::Answered { status: 200, reason: "OK".to_string(), body: "{}".to_string() },
            ),
            LineStep::Cluster { id, wait } => {
                finish_cluster(id, wait, ClusterReply::Failed("timed out".to_string()))
            }
        };
        out.push(value(&written));
    }
    assert_eq!(out.len(), lines.len());
    let ids: Vec<serde_json::Value> = out.iter().map(|v| v["id"].clone()).collect();
    assert_eq!(ids, [value("1"), value("2"), value("3"), value("null"), value("5"), value("6")]);
    for v in &out {
        assert!(v.get("result").is_some() != v.get("error").is_some());
    }
    assert_eq!(out[2]["error"]["message"], "timed out");
    assert_eq!(out[3]["error"]["code"], -32700);
}

#[test]
fn the_scenario_of_five_replicas() {
    let v = answer(
        "{\"method\":\"tools/call\",\"params\":{\"name\":\"cost_estimate\",\"arguments\":{\"backend\":\"kubernetes\",\"replicas\":5,\"resources\":{\"cpu\":\"1\",\"memory\":\"1Gi\"},\"duration_hours\":24}}}",
    );
    let said = tool_text(&v);
    let expected = 5.0 * (1.0 * 0.035 + 1.0 * 0.004) * 24.0 * 30.0;
    assert!((said["monthly_projected_usd"].as_f64().unwrap() - expected).abs() < 1e-9);
    assert_eq!(said["monthly_projected_usd"].as_f64().unwrap(), 140.4);
    assert_eq!(said["replicas"], 5);
    assert_eq!(said["backend"], "kubernetes");
}

#[test]
fn the_scenario_of_five_replicas_as_a_request() {
    let req = request(
        "tools/call",
        "1",
        Some("{\"name\":\"cost_estimate\",\"arguments\":{\"backend\":\"kubernetes\",\"replicas\":5,\"resources\":{\"cpu\":\"1\",\"memory\":\"1Gi\"},\"duration_hours\":24}}"),
    );
    let r = reply(handle_request(&client(), &config(), req));
    assert!(r.error.is_none());
    let v = value(&respond(&r));
    assert_eq!(tool_text(&v)["monthly_projected_usd"].as_f64().unwrap(), 140.4);
}

#[test]
fn a_call_without_the_name_of_a_tool_is_invalid() {
    for params in [
        "",
        ",\"params\":null",
        ",\"params\":{}",
        ",\"params\":{\"arguments\":{}}",
        ",\"params\":{\"name\":5}",
        ",\"params\":{\"name\":null,\"arguments\":{}}",
        ",\"params\":[\"cost_estimate\"]",
        ",\"params\":\"cost_estimate\"",
    ] {
        let v = answer(&format!("{{\"jsonrpc\":\"2.0\",\"id\":1,\"method\":\"tools/call\"{}}}", params));
        assert_eq!(
            v,
            value("{\"jsonrpc\":\"2.0\",\"id\":1,\"error\":{\"code\":-32602,\"message\":\"invalid params\"}}"),
            "{}",
            params
        );
    }
}

#[test]
fn the_call_of_an_unknown_tool_is_a_tool_failure_that_names_it() {
    let v = answer("{\"jsonrpc\":\"2.0\",\"id\":1,\"method\":\"tools/call\",\"params\":{\"name\":\"launch_rocket\",\"arguments\":{}}}");
    assert_eq!(
        v,
        value("{\"jsonrpc\":\"2.0\",\"id\":1,\"error\":{\"code\":-32000,\"message\":\"unknown tool: launch_rocket\"}}")
    );
}

#[test]
fn a_tool_that_fails_on_its_arguments_is_a_tool_failure() {
    let v = answer("{\"jsonrpc\":\"2.0\",\"id\":1,\"method\":\"tools/call\",\"params\":{\"name\":\"cost_estimate\",\"arguments\":{\"resources\":{\"cpu\":1}}}}");
    assert_eq!(v["error"]["code"], -32000);
    assert_eq!(v["error"]["message"], "resources.cpu must be a string");
}

#[test]
fn a_rejection_by_the_budget_is_a_result_and_no_error() {
    let v = answer("{\"jsonrpc\":\"2.0\",\"id\":1,\"method\":\"tools/call\",\"params\":{\"name\":\"orchestrator_scale\",\"arguments\":{\"replicas\":5,\"backend\":\"kubernetes\",\"override\":true}}}");
    assert!(v.get("error").is_none());
    let said = tool_text(&v);
    assert_eq!(said["ok"], false);
    assert_eq!(said["reason"], "budget hard-limit exceeded (limit=$100.00, projected=$140.40)");
    assert_eq!(said["estimate"]["monthly"].as_f64().unwrap(), 140.4);
}

#[test]
fn arguments_that_are_left_out_are_an_empty_object() {
    let (name, args) = parse_call_params(&Json::parse("{\"name\":\"t\"}").unwrap()).unwrap();
    assert_eq!(name, "t");
    assert_eq!(args.render(), "{}");
    let (name, args) =
        parse_call_params(&Json::parse("{\"name\":\"\",\"arguments\":[1,2]}").unwrap()).unwrap();
    assert_eq!(name, "");
    assert_eq!(args.render(), "[1,2]");
    let (_, args) =
        parse_call_params(&Json::parse("{\"name\":\"t\",\"arguments\":null}").unwrap()).unwrap();
    assert_eq!(args.render(), "null");
    assert!(parse_call_params(&Json::parse("{\"arguments\":{}}").unwrap()).is_none());
    assert!(parse_call_params(&Json::parse("[\"t\"]").unwrap()).is_none());
}

#[test]
fn a_request_for_the_upstream_service_waits_for_its_reply() {
    let line = "{\"jsonrpc\":\"2.0\",\"id\":\"g1\",\"method\":\"tools/call\",\"params\":{\"name\":\"generate_code\",\"arguments\":{\"prompt\":\"hello\"}}}";
    let (id, request) = match handle_line(&client(), &config(), line) {
        LineStep::Upstream { id, request } => (id, request),
        other => panic!("{:?}", other),
    };
    assert_eq!(request.url, "http://upstream/api/v1/generate");
    assert_eq!(request.body, "{\"prompt\":\"hello\"}");
    let out = finish_upstream(
        id,
        HttpReply::Answered { status: 200, reason: "OK".to_string(), body: "{\"code\":\"x\"}".to_string() },
    );
    assert_eq!(
        value(&out),
        value("{\"jsonrpc\":\"2.0\",\"id\":\"g1\",\"result\":{\"content\":[{\"type\":\"text\",\"text\":\"{\\\"code\\\":\\\"x\\\"}\"}]}}")
    );
}

#[test]
fn a_failure_of_the_upstream_service_is_a_tool_failure() {
    let r = complete_upstream(
        Json::from_u64(4),
        HttpReply::Answered { status: 500, reason: "Internal Server Error".to_string(), body: "boom".to_string() },
    );
    assert_eq!(
        value(&respond(&r)),
        value("{\"jsonrpc\":\"2.0\",\"id\":4,\"error\":{\"code\":-32000,\"message\":\"status 500 Internal Server Error: boom\"}}")
    );
    let r = complete_upstream(Json::from_u64(4), HttpReply::Failed("refused".to_string()));
    assert_eq!(r.error.unwrap().message, "send request");
}

#[test]
fn a_request_for_the_cluster_waits_for_its_reply() {
    let line = "{\"jsonrpc\":\"2.0\",\"id\":7,\"method\":\"tools/call\",\"params\":{\"name\":\"orchestrator_status\",\"arguments\":{\"backend\":\"kubernetes\"}}}";
    let (id, wait) = match handle_line(&client(), &config(), line) {
        LineStep::Cluster { id, wait } => (id, wait),
        other => panic!("{:?}", other),
    };
    let out = finish_cluster(id, wait, ClusterReply::Deployments(vec!["api".to_string()]));
    let v = value(&out);
    assert_eq!(v["id"], 7);
    assert_eq!(
        tool_text(&v),
        value("{\"backend\":\"kubernetes\",\"status\":\"deployments in default: api\"}")
    );
    let (id, wait) = match handle_line(&client(), &config(), line) {
        LineStep::Cluster { id, wait } => (id, wait),
        other => panic!("{:?}", other),
    };
    let r = complete_cluster(id, wait, ClusterReply::Failed("unauthorized".to_string()));
    assert_eq!(
        value(&respond(&r)),
        value("{\"jsonrpc\":\"2.0\",\"id\":7,\"error\":{\"code\":-32000,\"message\":\"unauthorized\"}}")
    );
}

#[test]
fn what_was_read_from_a_line_decides() {
    let step = handle_parsed(&client(), &config(), Err("it broke".to_string()));
    match step {
        LineStep::Respond(out) => assert_eq!(
            value(&out),
            value("{\"jsonrpc\":\"2.0\",\"id\":null,\"error\":{\"code\":-32700,\"message\":\"parse error: it broke\"}}")
        ),
        other => panic!("{:?}", other),
    }
    let step = handle_parsed(
        &client(),
        &config(),
        Ok(Json::parse("{\"id\":1,\"method\":\"nope\"}").unwrap()),
    );
    match step {
        LineStep::Respond(out) => assert_eq!(value(&out)["error"]["code"], -32601),
        other => panic!("{:?}", other),
    }
    assert_eq!(
        value(&parse_error("x")),
        value("{\"jsonrpc\":\"2.0\",\"id\":null,\"error\":{\"code\":-32700,\"message\":\"parse error: x\"}}")
    );
}

#[test]
fn responses_as_documents() {
    let r = JsonRpcResponse::success(Json::from_u64(1), Json::text("fine"));
    assert_eq!(r.to_json().render(), "{\"id\":1,\"jsonrpc\":\"2.0\",\"result\":\"fine\"}");
    let r = error(Json::Null, -5, "bad", Some(Json::parse("{\"why\":[1]}").unwrap()));
    assert_eq!(
        r.to_json().render(),
        "{\"error\":{\"code\":-5,\"data\":{\"why\":[1]},\"message\":\"bad\"},\"id\":null,\"jsonrpc\":\"2.0\"}"
    );
    let r = tool_reply(Json::text("x"), Ok("said".to_string()));
    assert_eq!(
        r.to_json().render(),
        "{\"id\":\"x\",\"jsonrpc\":\"2.0\",\"result\":{\"content\":[{\"text\":\"said\",\"type\":\"text\"}]}}"
    );
    let r = tool_reply(Json::text("x"), Err(EctusError::Backend("down".to_string())));
    assert_eq!(
        r.to_json().render(),
        "{\"error\":{\"code\":-32000,\"message\":\"down\"},\"id\":\"x\",\"jsonrpc\":\"2.0\"}"
    );
}

#[test]
fn requests_from_documents() {
    let j = Json::parse("{\"jsonrpc\":\"2.0\",\"id\":3,\"method\":\"m\",\"params\":{\"a\":1},\"extra\":true}").unwrap();
    let req = JsonRpcRequest::from_json(&j).unwrap();
    assert_eq!(req.jsonrpc, "2.0");
    assert_eq!(req.id.render(), "3");
    assert_eq!(req.method, "m");
    assert_eq!(req.params.unwrap().render(), "{\"a\":1}");
    let j = Json::parse("{\"jsonrpc\":\"1.0\",\"method\":\"m\",\"params\":null}").unwrap();
    let req = JsonRpcRequest::from_json(&j).unwrap();
    assert_eq!(req.jsonrpc, "1.0");
    assert!(matches!(req.id, Json::Null));
    assert!(req.params.is_none());
    let j = Json::parse("{\"method\":\"m\",\"params\":[]}").unwrap();
    let req = JsonRpcRequest::from_json(&j).unwrap();
    assert_eq!(req.jsonrpc, "2.0");
    assert_eq!(req.params.unwrap().render(), "[]");
    assert_eq!(
        JsonRpcRequest::from_json(&Json::parse("{\"id\":1}").unwrap()).unwrap_err(),
        "missing field `method`"
    );
}

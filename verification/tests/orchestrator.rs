use ectusr2::errors::EctusError;
use ectusr2::json::Json;
use ectusr2::orchestrator::kubernetes::KubeOrchestrator;
use ectusr2::orchestrator::{
    new_backend, Backend, ClusterCall, ClusterReply, LocalOrchestrator, Orchestrator,
    OrchestratorContext, Step,
};

fn ctx(namespace: Option<&str>, name: Option<&str>) -> OrchestratorContext {
    OrchestratorContext {
        namespace: namespace.map(|s| s.to_string()),
        name: name.map(|s| s.to_string()),
        model: None,
    }
}

fn answer(step: Step) -> String {
    match step {
        Step::Done(Ok(s)) => s,
        other => panic!("no answer: {:?}", other),
    }
}

fn value(j: &Json) -> serde_json::Value {
    serde_json::from_str(&j.render()).unwrap()
}

#[test]
fn the_local_backend_answers_at_once() {
    let local = LocalOrchestrator;
    let c = ctx(Some("ns"), Some("workers"));
    assert_eq!(answer(local.status(&c)), "local: ok");
    assert_eq!(answer(local.scale(&c, 3)), "scaled to 3 (local stub)");
    assert_eq!(answer(local.scale(&c, 0)), "scaled to 0 (local stub)");
    assert_eq!(answer(local.scale(&c, u32::MAX)), "scaled to 4294967295 (local stub)");
    assert_eq!(answer(local.ensure_pool(&c, "{}")), "pool ensured (local stub)");
}

#[test]
fn backends_are_picked_by_name_without_regard_to_case() {
    for name in ["kubernetes", "Kubernetes", "KUBERNETES", "k8s", "K8S", "K8s"] {
        assert!(matches!(new_backend(name), Backend::Kubernetes(_)), "{}", name);
    }
    for name in ["local", "", "kube", "k8", "kubernetes ", " k8s", "ecs", "nomad", "k\u{212a}s"] {
        assert!(matches!(new_backend(name), Backend::Local(_)), "{:?}", name);
    }
}

#[test]
fn a_picked_backend_does_what_its_kind_does() {
    let c = ctx(None, None);
    assert_eq!(answer(new_backend("local").status(&c)), "local: ok");
    assert_eq!(answer(new_backend("anything").scale(&c, 2)), "scaled to 2 (local stub)");
    assert_eq!(answer(new_backend("local").ensure_pool(&c, "x")), "pool ensured (local stub)");
    assert!(matches!(new_backend("k8s").status(&c), Step::Call(ClusterCall::ListDeployments { .. })));
    assert!(matches!(new_backend("k8s").scale(&c, 2), Step::Call(ClusterCall::PatchDeployment { .. })));
    assert_eq!(
        answer(new_backend("k8s").ensure_pool(&c, "x")),
        "ensure_pool not implemented for k8s yet"
    );
}

#[test]
fn kubernetes_status_lists_the_namespace() {
    let kube = KubeOrchestrator {};
    match kube.status(&ctx(Some("prod"), None)) {
        Step::Call(ClusterCall::ListDeployments { namespace }) => assert_eq!(namespace, "prod"),
        other => panic!("{:?}", other),
    }
    match kube.status(&ctx(None, Some("x"))) {
        Step::Call(ClusterCall::ListDeployments { namespace }) => assert_eq!(namespace, "default"),
        other => panic!("{:?}", other),
    }
}

#[test]
fn kubernetes_scale_patches_the_replicas() {
    let kube = KubeOrchestrator {};
    match kube.scale(&ctx(Some("prod"), Some("api")), 4) {
        Step::Call(ClusterCall::PatchDeployment { namespace, name, patch, summary }) => {
            assert_eq!(namespace, "prod");
            assert_eq!(name, "api");
            assert_eq!(patch.render(), "{\"spec\":{\"replicas\":4}}");
            assert_eq!(summary, "scaled api to 4 in prod");
        }
        other => panic!("{:?}", other),
    }
    match kube.scale(&ctx(None, None), 3_000_000_000) {
        Step::Call(ClusterCall::PatchDeployment { namespace, name, patch, summary }) => {
            assert_eq!(namespace, "default");
            assert_eq!(name, "ectusr2-workers");
            assert_eq!(patch.render(), "{\"spec\":{\"replicas\":3000000000}}");
            assert_eq!(patch.get("spec").unwrap().get_u64("replicas"), Some(3_000_000_000));
            assert_eq!(summary, "scaled ectusr2-workers to 3000000000 in default");
        }
        other => panic!("{:?}", other),
    }
}

#[test]
fn a_listing_concludes_with_the_names() {
    let call = ClusterCall::ListDeployments { namespace: "prod".to_string() };
    let names = |v: &[&str]| ClusterReply::Deployments(v.iter().map(|s| s.to_string()).collect());
    assert_eq!(call.conclude(names(&[])).unwrap(), "deployments in prod: ");
    assert_eq!(call.conclude(names(&["a"])).unwrap(), "deployments in prod: a");
    assert_eq!(call.conclude(names(&["a", "", "c"])).unwrap(), "deployments in prod: a, , c");
}

#[test]
fn a_patch_concludes_with_its_summary() {
    let call = ClusterCall::PatchDeployment {
        namespace: "ns".to_string(),
        name: "d".to_string(),
        patch: Json::Null,
        summary: "done".to_string(),
    };
    assert_eq!(call.conclude(ClusterReply::Patched).unwrap(), "done");
}

#[test]
fn a_failed_or_misplaced_reply_concludes_with_a_backend_failure() {
    let list = ClusterCall::ListDeployments { namespace: "ns".to_string() };
    let patch = ClusterCall::PatchDeployment {
        namespace: "ns".to_string(),
        name: "d".to_string(),
        patch: Json::Null,
        summary: "done".to_string(),
    };
    match list.conclude(ClusterReply::Failed("no route".to_string())) {
        Err(EctusError::Backend(m)) => assert_eq!(m, "no route"),
        other => panic!("{:?}", other),
    }
    match patch.conclude(ClusterReply::Failed("forbidden".to_string())) {
        Err(EctusError::Backend(m)) => assert_eq!(m, "forbidden"),
        other => panic!("{:?}", other),
    }
    match list.conclude(ClusterReply::Patched) {
        Err(EctusError::Backend(m)) => assert_eq!(m, "unexpected reply from the cluster"),
        other => panic!("{:?}", other),
    }
    match patch.conclude(ClusterReply::Deployments(vec![])) {
        Err(EctusError::Backend(m)) => assert_eq!(m, "unexpected reply from the cluster"),
        other => panic!("{:?}", other),
    }
}

#[test]
fn a_described_deployment() {
    let call = KubeOrchestrator::ensure_deployment(
        "prod",
        "pool",
        "{\"replicas\": 3, \"image\": \"model:1\", \"labels\": {\"tier\": \"gpu\"}, \"more\": 1}",
    );
    match call {
        ClusterCall::PatchDeployment { namespace, name, patch, summary } => {
            assert_eq!(namespace, "prod");
            assert_eq!(name, "pool");
            assert_eq!(summary, "ensured deployment pool in prod (replicas 3)");
            let expected: serde_json::Value = serde_json::from_str(
                "{\"apiVersion\":\"apps/v1\",\"kind\":\"Deployment\",\
                 \"metadata\":{\"name\":\"pool\",\"labels\":{\"tier\":\"gpu\"}},\
                 \"spec\":{\"replicas\":3,\"selector\":{\"matchLabels\":{\"app\":\"pool\"}},\
                 \"template\":{\"metadata\":{\"labels\":{\"app\":\"pool\"}},\
                 \"spec\":{\"containers\":[{\"name\":\"pool\",\"image\":\"model:1\"}]}}}}",
            )
            .unwrap();
            assert_eq!(value(&patch), expected);
        }
        other => panic!("{:?}", other),
    }
}

#[test]
fn a_deployment_described_by_nothing() {
    for spec in ["", "not json", "{}", "[]", "null", "{\"replicas\": \"3\", \"image\": 7}"] {
        match KubeOrchestrator::ensure_deployment("ns", "w", spec) {
            ClusterCall::PatchDeployment { patch, summary, .. } => {
                assert_eq!(summary, "ensured deployment w in ns (replicas 1)", "{:?}", spec);
                let expected: serde_json::Value = serde_json::from_str(
                    "{\"apiVersion\":\"apps/v1\",\"kind\":\"Deployment\",\
                     \"metadata\":{\"name\":\"w\",\"labels\":{\"app\":\"w\"}},\
                     \"spec\":{\"replicas\":1,\"selector\":{\"matchLabels\":{\"app\":\"w\"}},\
                     \"template\":{\"metadata\":{\"labels\":{\"app\":\"w\"}},\
                     \"spec\":{\"containers\":[{\"name\":\"w\",\"image\":\"busybox:stable\"}]}}}}",
                )
                .unwrap();
                assert_eq!(value(&patch), expected, "{:?}", spec);
            }
            other => panic!("{:?}", other),
        }
    }
}

#[test]
fn a_deployment_asks_for_the_replicas_as_they_are_described() {
    for n in [0u64, 2_147_483_647, 2_147_483_648, 4_294_967_295, 4_294_967_296, u64::MAX] {
        let spec = format!("{{\"replicas\": {}}}", n);
        match KubeOrchestrator::ensure_deployment("ns", "w", &spec) {
            ClusterCall::PatchDeployment { patch, summary, .. } => {
                assert_eq!(summary, format!("ensured deployment w in ns (replicas {})", n));
                assert_eq!(value(&patch)["spec"]["replicas"], serde_json::Value::from(n));
                assert_eq!(patch.get("spec").unwrap().get_u64("replicas"), Some(n));
            }
            other => panic!("{:?}", other),
        }
    }
}

#[test]
fn kubernetes_scale_asks_for_exactly_the_count() {
    let kube = KubeOrchestrator {};
    for n in [0u32, 1, 2_147_483_647, 2_147_483_648, u32::MAX] {
        match kube.scale(&ctx(None, None), n) {
            Step::Call(ClusterCall::PatchDeployment { patch, summary, .. }) => {
                assert_eq!(patch.get("spec").unwrap().get_u64("replicas"), Some(n as u64));
                assert_eq!(patch.render(), format!("{{\"spec\":{{\"replicas\":{}}}}}", n));
                assert_eq!(summary, format!("scaled ectusr2-workers to {} in default", n));
            }
            other => panic!("{:?}", other),
        }
    }
}

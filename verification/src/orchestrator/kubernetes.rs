//! The Kubernetes backend: what it asks of the cluster, and what it answers.

use crate::decimal::{digits_text, push_digits};
use crate::json::{
    count, json_parse, lemma_members_last, object, Items, Json, JsonView, Members,
};
use crate::orchestrator::{
    answer, ClusterCall, ClusterCallView, ContextView, Orchestrator, OrchestratorContext, Step,
    StepView,
};
use vstd::prelude::*;
use vstd::string::StringExecFns;

verus! {

#[derive(Debug)]
/// The backend that works on a Kubernetes cluster.
pub struct KubeOrchestrator {}

/// The namespace that a context addresses: `default` where it names none.
pub open spec fn namespace_of(ctx: ContextView) -> Seq<char> {
    match ctx.namespace {
        Some(n) => n,
        None => "default"@,
    }
}

/// The deployment that a context addresses: the workers where it names none.
pub open spec fn deployment_of(ctx: ContextView) -> Seq<char> {
    match ctx.name {
        Some(n) => n,
        None => "ectusr2-workers"@,
    }
}

/// The patch that sets the number of replicas to exactly `replicas`.
pub open spec fn scale_patch(replicas: u32) -> JsonView {
    object(
        Seq::empty().push(
            ("spec"@, object(Seq::empty().push(("replicas"@, count(replicas as u64))))),
        ),
    )
}

/// The number of replicas that a patch or a deployment asks for: the member
/// `replicas` of its member `spec`, where that is an unsigned integer.
pub open spec fn asked_replicas(patch: JsonView) -> Option<u64> {
    match patch.member("spec"@) {
        Some(spec) => spec.count_member("replicas"@),
        None => None,
    }
}

/// What is answered once the replicas are set.
pub open spec fn scale_summary(ctx: ContextView, replicas: u32) -> Seq<char> {
    "scaled "@ + deployment_of(ctx) + " to "@ + digits_text(replicas as nat) + " in "@
        + namespace_of(ctx)
}

/// What the status of the Kubernetes backend comes to: it asks for the
/// deployments of the namespace.
pub open spec fn kube_status(ctx: ContextView) -> StepView {
    StepView::Call(ClusterCallView::ListDeployments { namespace: namespace_of(ctx) })
}

/// What scaling on the Kubernetes backend comes to: it asks for a patch
/// that sets the number of replicas of the deployment.
pub open spec fn kube_scale(ctx: ContextView, replicas: u32) -> StepView {
    StepView::Call(
        ClusterCallView::PatchDeployment {
            namespace: namespace_of(ctx),
            name: deployment_of(ctx),
            patch: scale_patch(replicas),
            summary: scale_summary(ctx, replicas),
        },
    )
}

/// How many replicas a description asks for: one where it says nothing.
pub open spec fn wanted_replicas(parsed: JsonView) -> u64 {
    match parsed.count_member("replicas"@) {
        Some(n) => n,
        None => 1,
    }
}

/// The image that a description asks for.
pub open spec fn wanted_image(parsed: JsonView) -> Seq<char> {
    match parsed.text_member("image"@) {
        Some(image) => image,
        None => "busybox:stable"@,
    }
}

/// The labels that name a deployment: its name as `app`.
pub open spec fn app_label(name: Seq<char>) -> JsonView {
    object(Seq::empty().push(("app"@, JsonView::Str(name))))
}

/// The labels that a description asks for: its own, or the name of the
/// deployment as `app`.
pub open spec fn wanted_labels(name: Seq<char>, parsed: JsonView) -> JsonView {
    match parsed.member("labels"@) {
        Some(labels) => labels,
        None => app_label(name),
    }
}

/// The one container of a deployment.
pub open spec fn container(name: Seq<char>, image: Seq<char>) -> JsonView {
    object(
        Seq::empty().push(("name"@, JsonView::Str(name))).push(("image"@, JsonView::Str(image))),
    )
}

/// The pods of a deployment: labelled with its name, and of one container.
pub open spec fn pod_template(name: Seq<char>, image: Seq<char>) -> JsonView {
    object(
        Seq::empty().push(
            ("metadata"@, object(Seq::empty().push(("labels"@, app_label(name))))),
        ).push(
            (
                "spec"@,
                object(
                    Seq::empty().push(
                        ("containers"@, JsonView::Array(Seq::empty().push(container(name, image)))),
                    ),
                ),
            ),
        ),
    )
}

/// The deployment of one container that a description stands for.
pub open spec fn manifest(name: Seq<char>, parsed: JsonView) -> JsonView {
    object(
        Seq::empty().push(("apiVersion"@, JsonView::Str("apps/v1"@))).push(
            ("kind"@, JsonView::Str("Deployment"@)),
        ).push(
            (
                "metadata"@,
                object(
                    Seq::empty().push(("name"@, JsonView::Str(name))).push(
                        ("labels"@, wanted_labels(name, parsed)),
                    ),
                ),
            ),
        ).push(
            (
                "spec"@,
                object(
                    Seq::empty().push(("replicas"@, count(wanted_replicas(parsed)))).push(
                        (
                            "selector"@,
                            object(Seq::empty().push(("matchLabels"@, app_label(name)))),
                        ),
                    ).push(("template"@, pod_template(name, wanted_image(parsed)))),
                ),
            ),
        ),
    )
}

/// What is answered once a deployment is created or updated.
pub open spec fn ensured_summary(namespace: Seq<char>, name: Seq<char>, parsed: JsonView) -> Seq<
    char,
> {
    "ensured deployment "@ + name + " in "@ + namespace + " (replicas "@ + digits_text(
        wanted_replicas(parsed) as nat,
    ) + ")"@
}

/// The call that creates or updates the deployment that `parsed` describes.
pub open spec fn apply_call(namespace: Seq<char>, name: Seq<char>, parsed: JsonView) -> ClusterCallView {
    ClusterCallView::PatchDeployment {
        namespace,
        name,
        patch: manifest(name, parsed),
        summary: ensured_summary(namespace, name, parsed),
    }
}

/// The description that a text holds: the document it spells, or an empty
/// object where it spells none.
pub open spec fn described(spec: Seq<char>) -> JsonView {
    match json_parse(spec) {
        Ok(j) => j,
        Err(_) => object(Seq::empty()),
    }
}

fn namespace_or_default(ctx: &OrchestratorContext) -> (s: String)
    ensures
        s@ == namespace_of(ctx@),
{
    match &ctx.namespace {
        Some(n) => n.clone(),
        None => "default".to_owned(),
    }
}

fn deployment_or_default(ctx: &OrchestratorContext) -> (s: String)
    ensures
        s@ == deployment_of(ctx@),
{
    match &ctx.name {
        Some(n) => n.clone(),
        None => "ectusr2-workers".to_owned(),
    }
}

fn app_labels(name: &str) -> (j: Json)
    ensures
        j@ == app_label(name@),
{
    let mut m = Members::new();
    m.put("app", Json::text(name));
    m.finish()
}

impl KubeOrchestrator {
    /// The name under which patches are applied. They are applied on the
    /// server's side and by force: what another manager has set gives way.
    pub fn field_manager() -> (manager: &'static str)
        ensures
            manager@ == "ectusr2"@,
    {
        "ectusr2"
    }

    /// The deployment of one container that a description stands for: with
    /// the replicas, the image and the labels that the description names, and
    /// with one replica, a stock image and the name as label where it names
    /// none.
    pub fn deployment_manifest(name: &str, parsed: &Json) -> (j: Json)
        ensures
            j@ == manifest(name@, parsed@),
            asked_replicas(j@) == Some(wanted_replicas(parsed@)),
    {
        let replicas: u64 = match parsed.get_u64("replicas") {
            Some(n) => n,
            None => 1,
        };
        let image: &str = match parsed.get_str("image") {
            Some(s) => s,
            None => "busybox:stable",
        };
        let labels: Json = match parsed.get("labels") {
            Some(l) => l.duplicate(),
            None => app_labels(name),
        };
        let mut container = Members::new();
        container.put("name", Json::text(name));
        container.put("image", Json::text(image));
        let mut containers = Items::new();
        containers.put(container.finish());
        let mut pod = Members::new();
        pod.put("containers", containers.finish());
        let mut template_meta = Members::new();
        template_meta.put("labels", app_labels(name));
        let mut template = Members::new();
        template.put("metadata", template_meta.finish());
        template.put("spec", pod.finish());
        let mut selector = Members::new();
        selector.put("matchLabels", app_labels(name));
        let mut spec = Members::new();
        spec.put("replicas", Json::from_u64(replicas));
        spec.put("selector", selector.finish());
        spec.put("template", template.finish());
        let mut metadata = Members::new();
        metadata.put("name", Json::text(name));
        metadata.put("labels", labels);
        proof {
            reveal_strlit("replicas");
            reveal_strlit("selector");
            reveal_strlit("template");
            assert(spec@[1].0[0] != "replicas"@[0] && spec@[2].0[0] != "replicas"@[0]);
            lemma_members_last(spec@, "replicas"@, 0);
        }
        let mut top = Members::new();
        top.put("apiVersion", Json::text("apps/v1"));
        top.put("kind", Json::text("Deployment"));
        top.put("metadata", metadata.finish());
        top.put("spec", spec.finish());
        top.finish()
    }

    /// The call that creates or updates the deployment that `parsed`
    /// describes.
    pub fn apply_deployment(ns: &str, name: &str, parsed: &Json) -> (call: ClusterCall)
        ensures
            call@ == apply_call(ns@, name@, parsed@),
    {
        let replicas: u64 = match parsed.get_u64("replicas") {
            Some(n) => n,
            None => 1,
        };
        let mut summary = String::new();
        summary.append("ensured deployment ");
        summary.append(name);
        summary.append(" in ");
        summary.append(ns);
        summary.append(" (replicas ");
        push_digits(&mut summary, replicas as u128);
        summary.append(")");
        ClusterCall::PatchDeployment {
            namespace: ns.to_owned(),
            name: name.to_owned(),
            patch: KubeOrchestrator::deployment_manifest(name, parsed),
            summary,
        }
    }

    /// The call that creates or updates the deployment that the text `spec`
    /// describes. A text that is no JSON document describes nothing.
    pub fn ensure_deployment(ns: &str, name: &str, spec: &str) -> (call: ClusterCall)
        ensures
            call@ == apply_call(ns@, name@, described(spec@)),
    {
        let parsed: Json = match Json::parse(spec) {
            Ok(j) => j,
            Err(_) => Members::new().finish(),
        };
        KubeOrchestrator::apply_deployment(ns, name, &parsed)
    }
}

impl Orchestrator for KubeOrchestrator {
    fn status(&self, ctx: &OrchestratorContext) -> (step: Step)
        ensures
            step@ == kube_status(ctx@),
    {
        Step::Call(ClusterCall::ListDeployments { namespace: namespace_or_default(ctx) })
    }

    fn scale(&self, ctx: &OrchestratorContext, replicas: u32) -> (step: Step)
        ensures
            step@ == kube_scale(ctx@, replicas),
            asked_replicas(scale_patch(replicas)) == Some(replicas as u64),
    {
        let namespace = namespace_or_default(ctx);
        let name = deployment_or_default(ctx);
        let mut inner = Members::new();
        inner.put("replicas", Json::from_u64(replicas as u64));
        let mut patch = Members::new();
        patch.put("spec", inner.finish());
        let mut summary = String::new();
        summary.append("scaled ");
        summary.append(name.as_str());
        summary.append(" to ");
        push_digits(&mut summary, replicas as u128);
        summary.append(" in ");
        summary.append(namespace.as_str());
        Step::Call(ClusterCall::PatchDeployment { namespace, name, patch: patch.finish(), summary })
    }

    fn ensure_pool(&self, ctx: &OrchestratorContext, spec: &str) -> (step: Step)
        ensures
            step@ == answer("ensure_pool not implemented for k8s yet"@),
    {
        Step::Done(Ok("ensure_pool not implemented for k8s yet".to_owned()))
    }
}

} // verus!

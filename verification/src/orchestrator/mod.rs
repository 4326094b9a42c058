//! The orchestrator interface, and the backend that answers on the spot.
//!
//! An operation of a backend does not reach out to a cluster by itself. It
//! comes to a `Step`: either the answer, or a `ClusterCall` that says what is
//! to be asked of the cluster. Whoever carries the call out hands the
//! cluster's `ClusterReply` to `ClusterCall::conclude`, which gives the answer.

pub mod kubernetes;

use crate::decimal::{digits_text, push_digits};
use crate::errors::{outcome, EctusError, Failure};
use crate::json::{Json, JsonView};
use crate::orchestrator::kubernetes::KubeOrchestrator;
use crate::text::{ascii_lower, chars_of, lowered, opt_text, same_chars};
use vstd::prelude::*;
use vstd::string::StringExecFns;

verus! {

/// Where an operation applies: a namespace, the name of a deployment and a
/// model, each of which may be left open.
#[derive(Debug)]
pub struct OrchestratorContext {
    pub namespace: Option<String>,
    pub name: Option<String>,
    pub model: Option<String>,
}

/// What a context holds.
pub ghost struct ContextView {
    pub namespace: Option<Seq<char>>,
    pub name: Option<Seq<char>>,
    pub model: Option<Seq<char>>,
}

impl View for OrchestratorContext {
    type V = ContextView;

    open spec fn view(&self) -> ContextView {
        ContextView {
            namespace: opt_text(self.namespace),
            name: opt_text(self.name),
            model: opt_text(self.model),
        }
    }
}

/// What is to be asked of the cluster.
#[derive(Debug)]
pub enum ClusterCall {
    /// The names of the deployments of a namespace.
    ListDeployments { namespace: String },
    /// A patch to the deployment `name`, applied on the server's side; with
    /// `summary`, what to answer once it is applied.
    PatchDeployment { namespace: String, name: String, patch: Json, summary: String },
}

/// What the cluster answered.
#[derive(Debug)]
pub enum ClusterReply {
    Deployments(Vec<String>),
    Patched,
    Failed(String),
}

/// What an operation of a backend comes to.
#[derive(Debug)]
pub enum Step {
    Done(Result<String, EctusError>),
    Call(ClusterCall),
}

/// What every backend can do.
pub trait Orchestrator {
    /// Describes what is deployed.
    fn status(&self, ctx: &OrchestratorContext) -> Step;

    /// Asks for exactly `replicas` replicas.
    fn scale(&self, ctx: &OrchestratorContext, replicas: u32) -> Step;

    /// Creates or updates a pool from a description of it.
    fn ensure_pool(&self, ctx: &OrchestratorContext, spec: &str) -> Step;
}

/// The backend that contacts nothing.
#[derive(Debug)]
pub struct LocalOrchestrator;

/// A backend, as `new_backend` picks it.
#[derive(Debug)]
pub enum Backend {
    Local(LocalOrchestrator),
    Kubernetes(KubeOrchestrator),
}

/// What a call to the cluster holds.
pub ghost enum ClusterCallView {
    ListDeployments { namespace: Seq<char> },
    PatchDeployment { namespace: Seq<char>, name: Seq<char>, patch: JsonView, summary: Seq<char> },
}

impl View for ClusterCall {
    type V = ClusterCallView;

    open spec fn view(&self) -> ClusterCallView {
        match self {
            ClusterCall::ListDeployments { namespace } => ClusterCallView::ListDeployments {
                namespace: namespace@,
            },
            ClusterCall::PatchDeployment {
                namespace,
                name,
                patch,
                summary,
            } => ClusterCallView::PatchDeployment {
                namespace: namespace@,
                name: name@,
                patch: patch@,
                summary: summary@,
            },
        }
    }
}

/// What a reply of the cluster holds.
pub ghost enum ClusterReplyView {
    Deployments(Seq<Seq<char>>),
    Patched,
    Failed(Seq<char>),
}

impl View for ClusterReply {
    type V = ClusterReplyView;

    open spec fn view(&self) -> ClusterReplyView {
        match self {
            ClusterReply::Deployments(names) => ClusterReplyView::Deployments(texts(names@)),
            ClusterReply::Patched => ClusterReplyView::Patched,
            ClusterReply::Failed(m) => ClusterReplyView::Failed(m@),
        }
    }
}

/// What a step holds.
pub ghost enum StepView {
    Done(Result<Seq<char>, Failure>),
    Call(ClusterCallView),
}

impl View for Step {
    type V = StepView;

    open spec fn view(&self) -> StepView {
        match self {
            Step::Done(r) => StepView::Done(outcome(*r)),
            Step::Call(call) => StepView::Call(call@),
        }
    }
}

/// The step that answers `text`.
pub open spec fn answer(text: Seq<char>) -> StepView {
    StepView::Done(Ok(text))
}

/// What the local backend answers when it is asked to scale.
pub open spec fn local_scale_text(replicas: u32) -> Seq<char> {
    "scaled to "@ + digits_text(replicas as nat) + " (local stub)"@
}

/// What the status of a backend comes to.
pub open spec fn status_of(kubernetes: bool, ctx: ContextView) -> StepView {
    if kubernetes {
        kubernetes::kube_status(ctx)
    } else {
        answer("local: ok"@)
    }
}

/// What scaling on a backend comes to.
pub open spec fn scale_of(kubernetes: bool, ctx: ContextView, replicas: u32) -> StepView {
    if kubernetes {
        kubernetes::kube_scale(ctx, replicas)
    } else {
        answer(local_scale_text(replicas))
    }
}

/// What ensuring a pool on a backend comes to.
pub open spec fn ensure_pool_of(kubernetes: bool) -> StepView {
    if kubernetes {
        answer("ensure_pool not implemented for k8s yet"@)
    } else {
        answer("pool ensured (local stub)"@)
    }
}

impl Orchestrator for LocalOrchestrator {
    fn status(&self, ctx: &OrchestratorContext) -> (step: Step)
        ensures
            step@ == answer("local: ok"@),
    {
        Step::Done(Ok("local: ok".to_owned()))
    }

    fn scale(&self, ctx: &OrchestratorContext, replicas: u32) -> (step: Step)
        ensures
            step@ == answer(local_scale_text(replicas)),
    {
        let mut s = String::new();
        s.append("scaled to ");
        push_digits(&mut s, replicas as u128);
        s.append(" (local stub)");
        Step::Done(Ok(s))
    }

    fn ensure_pool(&self, ctx: &OrchestratorContext, spec: &str) -> (step: Step)
        ensures
            step@ == answer("pool ensured (local stub)"@),
    {
        Step::Done(Ok("pool ensured (local stub)".to_owned()))
    }
}

/// The texts of a list of strings.
pub open spec fn texts(names: Seq<String>) -> Seq<Seq<char>> {
    Seq::new(names.len(), |i: int| names[i]@)
}

/// The texts of `names`, with `sep` between one and the next.
pub open spec fn joined(names: Seq<Seq<char>>, sep: Seq<char>) -> Seq<char>
    decreases names.len(),
{
    if names.len() == 0 {
        Seq::empty()
    } else if names.len() == 1 {
        names[0]
    } else {
        joined(names.drop_last(), sep) + sep + names.last()
    }
}

/// What a call comes to once the cluster has answered. A reply that says
/// the cluster failed gives that failure; so does a reply of the wrong kind.
pub open spec fn concluded(call: ClusterCallView, reply: ClusterReplyView) -> Result<
    Seq<char>,
    Failure,
> {
    match reply {
        ClusterReplyView::Failed(m) => Err(Failure::Backend(m)),
        ClusterReplyView::Deployments(names) => match call {
            ClusterCallView::ListDeployments { namespace } => Ok(
                "deployments in "@ + namespace + ": "@ + joined(names, ", "@),
            ),
            _ => Err(Failure::Backend("unexpected reply from the cluster"@)),
        },
        ClusterReplyView::Patched => match call {
            ClusterCallView::PatchDeployment { summary, .. } => Ok(summary),
            _ => Err(Failure::Backend("unexpected reply from the cluster"@)),
        },
    }
}

/// Appends the texts of `names`, with `sep` between one and the next.
pub fn push_joined(out: &mut String, names: &Vec<String>, sep: &str)
    ensures
        final(out)@ == old(out)@ + joined(texts(names@), sep@),
{
    let ghost all = texts(names@);
    let mut i: usize = 0;
    while i < names.len()
        invariant
            i <= names.len(),
            all == texts(names@),
            out@ == old(out)@ + joined(all.take(i as int), sep@),
        decreases names.len() - i,
    {
        assert(all.take(i + 1).drop_last() == all.take(i as int));
        if i > 0 {
            out.append(sep);
        }
        out.append(names[i].as_str());
        i += 1;
    }
    assert(all.take(names.len() as int) == all);
}

impl ClusterCall {
    /// The answer of the operation that made this call, now that the cluster
    /// has replied.
    pub fn conclude(&self, reply: ClusterReply) -> (r: Result<String, EctusError>)
        ensures
            outcome(r) == concluded(self@, reply@),
    {
        match reply {
            ClusterReply::Failed(m) => Err(EctusError::Backend(m)),
            ClusterReply::Deployments(names) => match self {
                ClusterCall::ListDeployments { namespace } => {
                    let mut s = String::new();
                    s.append("deployments in ");
                    s.append(namespace.as_str());
                    s.append(": ");
                    push_joined(&mut s, &names, ", ");
                    Ok(s)
                },
                _ => Err(EctusError::Backend("unexpected reply from the cluster".to_owned())),
            },
            ClusterReply::Patched => match self {
                ClusterCall::PatchDeployment { summary, .. } => Ok(summary.clone()),
                _ => Err(EctusError::Backend("unexpected reply from the cluster".to_owned())),
            },
        }
    }
}

/// Whether a name picks the Kubernetes backend: `kubernetes` and `k8s` do,
/// in any mix of upper and lower case.
pub open spec fn names_kubernetes(name: Seq<char>) -> bool {
    ascii_lower(name) == "kubernetes"@ || ascii_lower(name) == "k8s"@
}

/// The backend that a name picks. A name that picks no other backend picks
/// the local one.
pub fn new_backend(name: &str) -> (backend: Backend)
    ensures
        backend is Kubernetes <==> names_kubernetes(name@),
        backend is Local <==> !names_kubernetes(name@),
{
    let n = lowered(&chars_of(name));
    if same_chars(&n, &chars_of("kubernetes")) || same_chars(&n, &chars_of("k8s")) {
        Backend::Kubernetes(KubeOrchestrator {  })
    } else {
        Backend::Local(LocalOrchestrator)
    }
}

impl Orchestrator for Backend {
    fn status(&self, ctx: &OrchestratorContext) -> (step: Step)
        ensures
            step@ == status_of(self is Kubernetes, ctx@),
    {
        match self {
            Backend::Local(o) => o.status(ctx),
            Backend::Kubernetes(o) => o.status(ctx),
        }
    }

    fn scale(&self, ctx: &OrchestratorContext, replicas: u32) -> (step: Step)
        ensures
            step@ == scale_of(self is Kubernetes, ctx@, replicas),
            self is Kubernetes ==> kubernetes::asked_replicas(kubernetes::scale_patch(replicas))
                == Some(replicas as u64),
    {
        match self {
            Backend::Local(o) => o.scale(ctx, replicas),
            Backend::Kubernetes(o) => o.scale(ctx, replicas),
        }
    }

    fn ensure_pool(&self, ctx: &OrchestratorContext, spec: &str) -> (step: Step)
        ensures
            step@ == ensure_pool_of(self is Kubernetes),
    {
        match self {
            Backend::Local(o) => o.ensure_pool(ctx, spec),
            Backend::Kubernetes(o) => o.ensure_pool(ctx, spec),
        }
    }
}

} // verus!

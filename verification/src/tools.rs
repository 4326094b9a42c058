//! The tools: what each is called, how it reads its arguments, and what it
//! answers.
//!
//! A tool that needs the upstream service or a cluster does not reach out by
//! itself. `call` comes to a `ToolStep`: the answer, or what is to be sent.
//! Whoever sends it hands the reply to `upstream_done` or to
//! `ClusterWait::done`, which give the answer.

use crate::api::client::{
    post, reply_value, ApiClient, HttpReply, HttpReplyView, HttpRequest, HttpRequestView,
};
use crate::budget::{
    budget_permits, enforce_budget, estimate_breakdown, estimate_cost, estimate_hourly,
    estimate_monthly, policy_for, policy_kind, rejection_text, BudgetPolicy, Money, Resources,
    ResourcesView,
};
use crate::config::Config;
use crate::decimal::{push_amount, short_text};
use crate::errors::{outcome, EctusError, Failure};
use crate::json::{
    count, json_text, lemma_members_last, number, object, Items, Json, JsonView, Members,
};
use crate::orchestrator::{
    concluded, ensure_pool_of, names_kubernetes, new_backend, scale_of, status_of, ClusterCall,
    ClusterCallView, ClusterReply, ClusterReplyView, ContextView, Orchestrator,
    OrchestratorContext, Step, StepView,
};
use crate::text::{opt_owned, opt_text, same_text};
use vstd::prelude::*;
use vstd::string::StringExecFns;

verus! {

/// What is made of the answer of a cluster.
#[derive(Debug)]
pub enum Report {
    Scale { backend: String, replicas: u32, monthly: Money },
    Status { backend: String },
    Pool { backend: String },
}

/// A tool that waits for a cluster: what is asked, and what is made of the
/// answer.
#[derive(Debug)]
pub struct ClusterWait {
    pub call: ClusterCall,
    pub report: Report,
}

/// What the call of a tool comes to.
#[derive(Debug)]
pub enum ToolStep {
    /// The tool has answered, or failed.
    Done(Result<String, EctusError>),
    /// The request is to be sent upstream; `upstream_done` makes the answer
    /// of the tool from the reply.
    Upstream(HttpRequest),
    /// The call is to be made on the cluster; `ClusterWait::done` makes the
    /// answer of the tool from the reply.
    Cluster(ClusterWait),
}

/// What a report holds.
pub ghost enum ReportView {
    Scale { backend: Seq<char>, replicas: u32, monthly: Money },
    Status { backend: Seq<char> },
    Pool { backend: Seq<char> },
}

impl View for Report {
    type V = ReportView;

    open spec fn view(&self) -> ReportView {
        match self {
            Report::Scale { backend, replicas, monthly } => ReportView::Scale {
                backend: backend@,
                replicas: *replicas,
                monthly: *monthly,
            },
            Report::Status { backend } => ReportView::Status { backend: backend@ },
            Report::Pool { backend } => ReportView::Pool { backend: backend@ },
        }
    }
}

/// What a tool that waits for a cluster holds.
pub ghost struct ClusterWaitView {
    pub call: ClusterCallView,
    pub report: ReportView,
}

impl View for ClusterWait {
    type V = ClusterWaitView;

    open spec fn view(&self) -> ClusterWaitView {
        ClusterWaitView { call: self.call@, report: self.report@ }
    }
}

/// What the step of a tool holds.
pub ghost enum ToolStepView {
    Done(Result<Seq<char>, Failure>),
    Upstream(HttpRequestView),
    Cluster(ClusterWaitView),
}

impl View for ToolStep {
    type V = ToolStepView;

    open spec fn view(&self) -> ToolStepView {
        match self {
            ToolStep::Done(r) => ToolStepView::Done(outcome(*r)),
            ToolStep::Upstream(request) => ToolStepView::Upstream(request@),
            ToolStep::Cluster(wait) => ToolStepView::Cluster(wait@),
        }
    }
}

/// What a tool is: its name, what it is for, and the shape of its input.
pub open spec fn descriptor(name: Seq<char>, description: Seq<char>) -> JsonView {
    object(
        Seq::empty().push(("name"@, JsonView::Str(name))).push(
            ("description"@, JsonView::Str(description)),
        ).push(
            ("inputSchema"@, object(Seq::empty().push(("type"@, JsonView::Str("object"@))))),
        ),
    )
}

/// The tools, in the order in which they are listed.
pub open spec fn catalog() -> Seq<JsonView> {
    Seq::empty().push(descriptor("generate_code"@, "Generate production-ready code"@)).push(
        descriptor("run_qa"@, "Run QA on code"@),
    ).push(descriptor("refactor_code"@, "Apply safe refactorings"@)).push(
        descriptor("orchestrator_scale"@, "Scale worker pool"@),
    ).push(descriptor("orchestrator_status"@, "Cluster status"@)).push(
        descriptor("pool_ensure"@, "Ensure model pool"@),
    ).push(descriptor("cost_estimate"@, "Estimate cost"@)).push(
        descriptor(
            "budget_config"@,
            "Configure budget policy (read-only in this build; use CLI/env)"@,
        ),
    ).push(descriptor("budget_status"@, "Budget status"@))
}

/// The names of the tools, in the order in which they are listed.
pub open spec fn tool_names() -> Seq<Seq<char>> {
    Seq::empty().push("generate_code"@).push("run_qa"@).push("refactor_code"@).push(
        "orchestrator_scale"@,
    ).push("orchestrator_status"@).push("pool_ensure"@).push("cost_estimate"@).push(
        "budget_config"@,
    ).push("budget_status"@)
}

/// The backend that the arguments name, or `default`.
pub open spec fn backend_arg(args: JsonView, default: Seq<char>) -> Seq<char> {
    match args.text_member("backend"@) {
        Some(b) => b,
        None => default,
    }
}

/// The replicas that the arguments ask for: the low 32 bits of the number
/// they give, and one where they give none.
pub open spec fn replicas_arg(args: JsonView) -> u32 {
    match args.count_member("replicas"@) {
        Some(n) => (n % 0x1_0000_0000) as u32,
        None => 1,
    }
}

/// The truth value that the arguments give under `key`, or `default`.
pub open spec fn flag_arg(args: JsonView, key: Seq<char>, default: bool) -> bool {
    match args.flag_member(key) {
        Some(b) => b,
        None => default,
    }
}

/// The hours that the arguments plan for: a day where they give none.
pub open spec fn duration_arg(args: JsonView) -> u64 {
    match args.count_member("duration_hours"@) {
        Some(n) => n,
        None => 24,
    }
}

/// The context that the arguments address.
pub open spec fn context_arg(args: JsonView) -> ContextView {
    ContextView {
        namespace: args.text_member("namespace"@),
        name: args.text_member("name"@),
        model: args.text_member("model"@),
    }
}

/// The resources that a document describes: an object whose members `cpu`
/// and `memory` are strings, and whose member `gpu` is a string, null or
/// absent. Other members are passed over.
pub open spec fn resources_of(j: JsonView) -> Result<ResourcesView, Failure> {
    if !(j is Object) {
        Err(Failure::Input("resources must be an object"@))
    } else {
        match j.text_member("cpu"@) {
            None => Err(Failure::Input("resources.cpu must be a string"@)),
            Some(cpu) => match j.text_member("memory"@) {
                None => Err(Failure::Input("resources.memory must be a string"@)),
                Some(memory) => match j.member("gpu"@) {
                    None => Ok(ResourcesView { cpu, memory, gpu: None }),
                    Some(JsonView::Null) => Ok(ResourcesView { cpu, memory, gpu: None }),
                    Some(JsonView::Str(gpu)) => Ok(ResourcesView { cpu, memory, gpu: Some(gpu) }),
                    Some(_) => Err(Failure::Input("resources.gpu must be a string"@)),
                },
            },
        }
    }
}

/// The resources that the arguments ask for: one core and one gibibyte where
/// they say nothing.
pub open spec fn resources_arg(args: JsonView) -> Result<ResourcesView, Failure> {
    match args.member("resources"@) {
        Some(r) => resources_of(r),
        None => Ok(ResourcesView { cpu: "1"@, memory: "1Gi"@, gpu: None }),
    }
}

/// An amount of money as a JSON number of dollars.
pub open spec fn money_number(units: nat) -> JsonView {
    number(short_text(units, 13))
}

pub open spec fn estimate_part(monthly: nat) -> JsonView {
    object(Seq::empty().push(("monthly"@, money_number(monthly))))
}

/// What `cost_estimate` answers.
pub open spec fn cost_report(
    backend: Seq<char>,
    replicas: u32,
    hourly: nat,
    monthly: nat,
    breakdown: Seq<char>,
) -> JsonView {
    object(
        Seq::empty().push(("backend"@, JsonView::Str(backend))).push(
            ("replicas"@, count(replicas as u64)),
        ).push(("hourly_total_usd"@, money_number(hourly))).push(
            ("monthly_projected_usd"@, money_number(monthly)),
        ).push(("breakdown"@, JsonView::Str(breakdown))),
    )
}

/// What `orchestrator_scale` answers where the budget does not permit the
/// scaling.
pub open spec fn rejected_report(reason: Seq<char>, monthly: nat) -> JsonView {
    object(
        Seq::empty().push(("ok"@, JsonView::Bool(false))).push(("reason"@, JsonView::Str(reason))).push(
            ("estimate"@, estimate_part(monthly)),
        ),
    )
}

/// What `orchestrator_scale` answers once the backend has scaled.
pub open spec fn scale_report(
    backend: Seq<char>,
    replicas: u32,
    result: Seq<char>,
    monthly: nat,
) -> JsonView {
    object(
        Seq::empty().push(("ok"@, JsonView::Bool(true))).push(("action"@, JsonView::Str("scale"@))).push(
            ("backend"@, JsonView::Str(backend)),
        ).push(("replicas"@, count(replicas as u64))).push(
            ("result"@, JsonView::Str(result)),
        ).push(("estimate"@, estimate_part(monthly))),
    )
}

/// What `orchestrator_status` answers.
pub open spec fn status_report(backend: Seq<char>, status: Seq<char>) -> JsonView {
    object(
        Seq::empty().push(("backend"@, JsonView::Str(backend))).push(
            ("status"@, JsonView::Str(status)),
        ),
    )
}

/// What `pool_ensure` answers.
pub open spec fn pool_report(backend: Seq<char>, result: Seq<char>) -> JsonView {
    object(
        Seq::empty().push(("backend"@, JsonView::Str(backend))).push(
            ("result"@, JsonView::Str(result)),
        ),
    )
}

/// A text that may be absent, as a string or as null.
pub open spec fn text_or_null(text: Option<Seq<char>>) -> JsonView {
    match text {
        Some(t) => JsonView::Str(t),
        None => JsonView::Null,
    }
}

/// An amount that may be absent, as a number or as null.
pub open spec fn money_or_null(amount: Option<Money>) -> JsonView {
    match amount {
        Some(m) => money_number(m.units as nat),
        None => JsonView::Null,
    }
}

/// An amount that may be absent, as a number; zero where it is absent.
pub open spec fn money_or_zero(amount: Option<Money>) -> JsonView {
    match amount {
        Some(m) => money_number(m.units as nat),
        None => money_number(0),
    }
}

/// What `budget_config` answers.
pub open spec fn budget_config_report(policy: Option<Seq<char>>, limit: Option<Money>) -> JsonView {
    object(
        Seq::empty().push(("policy"@, text_or_null(policy))).push(
            ("monthly_usd_limit"@, money_or_null(limit)),
        ),
    )
}

/// What `budget_status` answers. Nothing is recorded of what was spent: the
/// month to date is zero, and the projection and the headroom are the limit.
pub open spec fn budget_status_report(limit: Option<Money>) -> JsonView {
    object(
        Seq::empty().push(("month_to_date_usd"@, money_number(0))).push(
            ("projected_eom_usd"@, money_or_zero(limit)),
        ).push(("headroom_usd"@, money_or_zero(limit))),
    )
}

/// The document that a report makes of the answer of a backend.
pub open spec fn report_view(report: ReportView, result: Seq<char>) -> JsonView {
    match report {
        ReportView::Scale { backend, replicas, monthly } => scale_report(
            backend,
            replicas,
            result,
            monthly.units as nat,
        ),
        ReportView::Status { backend } => status_report(backend, result),
        ReportView::Pool { backend } => pool_report(backend, result),
    }
}

/// What a tool that waited for a cluster answers.
pub open spec fn cluster_outcome(wait: ClusterWaitView, reply: ClusterReplyView) -> Result<
    Seq<char>,
    Failure,
> {
    match concluded(wait.call, reply) {
        Ok(result) => Ok(json_text(report_view(wait.report, result))),
        Err(f) => Err(f),
    }
}

/// What a tool that waited for the upstream service answers.
pub open spec fn upstream_outcome(reply: HttpReplyView) -> Result<Seq<char>, Failure> {
    match reply_value(reply) {
        Ok(j) => Ok(json_text(j)),
        Err(f) => Err(f),
    }
}

/// The step that answers the document `j`.
pub open spec fn gives(j: JsonView) -> ToolStepView {
    ToolStepView::Done(Ok(json_text(j)))
}

/// What the step of a backend means for a tool: an answer of the backend is
/// made into the answer of the tool, a failure is handed on, and a call to
/// the cluster is waited for.
pub open spec fn after_backend(step: StepView, report: ReportView) -> ToolStepView {
    match step {
        StepView::Done(Ok(result)) => gives(report_view(report, result)),
        StepView::Done(Err(f)) => ToolStepView::Done(Err(f)),
        StepView::Call(call) => ToolStepView::Cluster(ClusterWaitView { call, report }),
    }
}

/// What `cost_estimate` comes to.
pub open spec fn cost_estimate_outcome(args: JsonView) -> Result<Seq<char>, Failure> {
    let backend = backend_arg(args, "kubernetes"@);
    let replicas = replicas_arg(args);
    match resources_arg(args) {
        Err(f) => Err(f),
        Ok(res) => Ok(
            json_text(
                cost_report(
                    backend,
                    replicas,
                    estimate_hourly(backend, replicas as nat, res),
                    estimate_monthly(backend, replicas as nat, res),
                    estimate_breakdown(backend, replicas as nat, res),
                ),
            ),
        ),
    }
}

/// The policy that is configured.
pub open spec fn policy_of(cfg: Config) -> BudgetPolicy {
    BudgetPolicy {
        monthly_usd_limit: cfg.budget_limit,
        policy: policy_kind(opt_text(cfg.budget_policy)),
    }
}

/// Whether the budget stands in the way of what the arguments ask for.
pub open spec fn budget_rejects(cfg: Config, args: JsonView, monthly: Money) -> bool {
    flag_arg(args, "budget_enforce"@, true) && !budget_permits(
        policy_of(cfg),
        monthly,
        flag_arg(args, "override"@, false),
    )
}

/// What `orchestrator_scale` comes to. Arguments whose resources cannot be
/// read make it fail. Where the budget is enforced and does not permit the
/// projection, it answers that, and nothing is scaled. Otherwise the backend
/// is asked to scale.
pub open spec fn scale_step(cfg: Config, args: JsonView) -> ToolStepView {
    let backend = backend_arg(args, cfg.orchestrator_backend@);
    let replicas = replicas_arg(args);
    match resources_arg(args) {
        Err(f) => ToolStepView::Done(Err(f)),
        Ok(res) => {
            let monthly = Money { units: estimate_monthly(backend, replicas as nat, res) as u128 };
            if budget_rejects(cfg, args, monthly) {
                gives(
                    rejected_report(
                        rejection_text(
                            policy_of(cfg).policy->0,
                            policy_of(cfg).monthly_usd_limit->0,
                            monthly,
                        ),
                        monthly.units as nat,
                    ),
                )
            } else {
                after_backend(
                    scale_of(names_kubernetes(backend), context_arg(args), replicas),
                    ReportView::Scale { backend, replicas, monthly },
                )
            }
        },
    }
}

/// What `orchestrator_status` comes to.
pub open spec fn status_step(cfg: Config, args: JsonView) -> ToolStepView {
    let backend = backend_arg(args, cfg.orchestrator_backend@);
    after_backend(
        status_of(names_kubernetes(backend), context_arg(args)),
        ReportView::Status { backend },
    )
}

/// What `pool_ensure` comes to.
pub open spec fn pool_step(cfg: Config, args: JsonView) -> ToolStepView {
    let backend = backend_arg(args, cfg.orchestrator_backend@);
    after_backend(ensure_pool_of(names_kubernetes(backend)), ReportView::Pool { backend })
}

/// What the call of the tool `name` comes to.
pub open spec fn call_step(
    client: ApiClient,
    cfg: Config,
    name: Seq<char>,
    args: JsonView,
) -> ToolStepView {
    if name == "generate_code"@ {
        ToolStepView::Upstream(post(client, "/api/v1/generate"@, args))
    } else if name == "run_qa"@ {
        ToolStepView::Upstream(post(client, "/api/v1/qa"@, args))
    } else if name == "refactor_code"@ {
        ToolStepView::Upstream(post(client, "/api/v1/refactor"@, args))
    } else if name == "orchestrator_scale"@ {
        scale_step(cfg, args)
    } else if name == "orchestrator_status"@ {
        status_step(cfg, args)
    } else if name == "pool_ensure"@ {
        pool_step(cfg, args)
    } else if name == "cost_estimate"@ {
        ToolStepView::Done(cost_estimate_outcome(args))
    } else if name == "budget_config"@ {
        gives(budget_config_report(opt_text(cfg.budget_policy), cfg.budget_limit))
    } else if name == "budget_status"@ {
        gives(budget_status_report(cfg.budget_limit))
    } else {
        ToolStepView::Done(Err(Failure::Input("unknown tool: "@ + name)))
    }
}

/// A tool, as it is listed.
pub fn describe(name: &str, description: &str) -> (j: Json)
    ensures
        j@ == descriptor(name@, description@),
{
    let mut schema = Members::new();
    schema.put("type", Json::text("object"));
    let mut m = Members::new();
    m.put("name", Json::text(name));
    m.put("description", Json::text(description));
    m.put("inputSchema", schema.finish());
    m.finish()
}

/// The tools, as they are listed.
pub fn list() -> (tools: Json)
    ensures
        tools@ == JsonView::Array(catalog()),
{
    let mut items = Items::new();
    items.put(describe("generate_code", "Generate production-ready code"));
    items.put(describe("run_qa", "Run QA on code"));
    items.put(describe("refactor_code", "Apply safe refactorings"));
    items.put(describe("orchestrator_scale", "Scale worker pool"));
    items.put(describe("orchestrator_status", "Cluster status"));
    items.put(describe("pool_ensure", "Ensure model pool"));
    items.put(describe("cost_estimate", "Estimate cost"));
    items.put(
        describe(
            "budget_config",
            "Configure budget policy (read-only in this build; use CLI/env)",
        ),
    );
    items.put(describe("budget_status", "Budget status"));
    items.finish()
}

/// An amount of money as a JSON number of dollars.
pub fn money_json(amount: Money) -> (j: Json)
    ensures
        j@ == money_number(amount.units as nat),
{
    let mut s = String::new();
    push_amount(&mut s, amount.units, 13, true);
    Json::numeral(s.as_str())
}

fn estimate_json(monthly: Money) -> (j: Json)
    ensures
        j@ == estimate_part(monthly.units as nat),
{
    let mut m = Members::new();
    m.put("monthly", money_json(monthly));
    m.finish()
}

fn backend_of<'a>(args: &'a Json, default: &'a str) -> (backend: &'a str)
    ensures
        backend@ == backend_arg(args@, default@),
{
    match args.get_str("backend") {
        Some(b) => b,
        None => default,
    }
}

fn replicas_of(args: &Json) -> (replicas: u32)
    ensures
        replicas == replicas_arg(args@),
{
    match args.get_u64("replicas") {
        Some(n) => (n % 0x1_0000_0000) as u32,
        None => 1,
    }
}

fn flag_of(args: &Json, key: &str, default: bool) -> (flag: bool)
    ensures
        flag == flag_arg(args@, key@, default),
{
    match args.get_bool(key) {
        Some(b) => b,
        None => default,
    }
}

fn duration_of(args: &Json) -> (hours: u64)
    ensures
        hours == duration_arg(args@),
{
    match args.get_u64("duration_hours") {
        Some(n) => n,
        None => 24,
    }
}

fn context_of(args: &Json) -> (ctx: OrchestratorContext)
    ensures
        ctx@ == context_arg(args@),
{
    OrchestratorContext {
        namespace: opt_owned(args.get_str("namespace")),
        name: opt_owned(args.get_str("name")),
        model: opt_owned(args.get_str("model")),
    }
}

/// Reads resources from a document.
pub fn read_resources(j: &Json) -> (r: Result<Resources, EctusError>)
    ensures
        match r {
            Ok(res) => resources_of(j@) == Ok::<ResourcesView, Failure>(res@),
            Err(e) => resources_of(j@) == Err::<ResourcesView, Failure>(e@),
        },
{
    match j {
        Json::Object(_) => {},
        _ => {
            return Err(EctusError::Input("resources must be an object".to_owned()));
        },
    }
    let cpu = match j.get_str("cpu") {
        Some(c) => c,
        None => {
            return Err(EctusError::Input("resources.cpu must be a string".to_owned()));
        },
    };
    let memory = match j.get_str("memory") {
        Some(m) => m,
        None => {
            return Err(EctusError::Input("resources.memory must be a string".to_owned()));
        },
    };
    let gpu: Option<String> = match j.get("gpu") {
        None => None,
        Some(Json::Null) => None,
        Some(Json::Str(g)) => Some(g.clone()),
        Some(_) => {
            return Err(EctusError::Input("resources.gpu must be a string".to_owned()));
        },
    };
    Ok(Resources { cpu: cpu.to_owned(), memory: memory.to_owned(), gpu })
}

fn resources_from(args: &Json) -> (r: Result<Resources, EctusError>)
    ensures
        match r {
            Ok(res) => resources_arg(args@) == Ok::<ResourcesView, Failure>(res@),
            Err(e) => resources_arg(args@) == Err::<ResourcesView, Failure>(e@),
        },
{
    match args.get("resources") {
        Some(r) => read_resources(r),
        None => Ok(Resources { cpu: "1".to_owned(), memory: "1Gi".to_owned(), gpu: None }),
    }
}

/// The answer of `cost_estimate`, made from an estimate.
pub fn cost_answer(backend: &str, replicas: u32, hourly: Money, monthly: Money, breakdown: &str) -> (j:
    Json)
    ensures
        j@ == cost_report(
            backend@,
            replicas,
            hourly.units as nat,
            monthly.units as nat,
            breakdown@,
        ),
        j@.count_member("replicas"@) == Some(replicas as u64),
{
    let mut m = Members::new();
    m.put("backend", Json::text(backend));
    m.put("replicas", Json::from_u64(replicas as u64));
    m.put("hourly_total_usd", money_json(hourly));
    m.put("monthly_projected_usd", money_json(monthly));
    m.put("breakdown", Json::text(breakdown));
    proof {
        reveal_strlit("replicas");
        reveal_strlit("hourly_total_usd");
        reveal_strlit("monthly_projected_usd");
        reveal_strlit("breakdown");
        assert(m@[2].0.len() != "replicas"@.len() && m@[3].0.len() != "replicas"@.len() && m@[4].0.len()
            != "replicas"@.len());
        lemma_members_last(m@, "replicas"@, 1);
    }
    m.finish()
}

/// The answer of `orchestrator_scale` where the budget stands in the way.
pub fn rejected_answer(reason: &str, monthly: Money) -> (j: Json)
    ensures
        j@ == rejected_report(reason@, monthly.units as nat),
{
    let mut m = Members::new();
    m.put("ok", Json::Bool(false));
    m.put("reason", Json::text(reason));
    m.put("estimate", estimate_json(monthly));
    m.finish()
}

/// The answer of `orchestrator_scale`, made from the answer of the backend.
pub fn scale_answer(backend: &str, replicas: u32, result: &str, monthly: Money) -> (j: Json)
    ensures
        j@ == scale_report(backend@, replicas, result@, monthly.units as nat),
        j@.count_member("replicas"@) == Some(replicas as u64),
{
    let mut m = Members::new();
    m.put("ok", Json::Bool(true));
    m.put("action", Json::text("scale"));
    m.put("backend", Json::text(backend));
    m.put("replicas", Json::from_u64(replicas as u64));
    m.put("result", Json::text(result));
    m.put("estimate", estimate_json(monthly));
    proof {
        reveal_strlit("replicas");
        reveal_strlit("result");
        reveal_strlit("estimate");
        assert(m@[4].0.len() != "replicas"@.len());
        assert(m@[5].0[1] != "replicas"@[1]);
        lemma_members_last(m@, "replicas"@, 3);
    }
    m.finish()
}

/// The answer of `orchestrator_status`, made from the answer of the backend.
pub fn status_answer(backend: &str, status: &str) -> (j: Json)
    ensures
        j@ == status_report(backend@, status@),
{
    let mut m = Members::new();
    m.put("backend", Json::text(backend));
    m.put("status", Json::text(status));
    m.finish()
}

/// The answer of `pool_ensure`, made from the answer of the backend.
pub fn pool_answer(backend: &str, result: &str) -> (j: Json)
    ensures
        j@ == pool_report(backend@, result@),
{
    let mut m = Members::new();
    m.put("backend", Json::text(backend));
    m.put("result", Json::text(result));
    m.finish()
}

impl Report {
    /// The document that the report makes of the answer of a backend.
    pub fn answer(&self, result: &str) -> (j: Json)
        ensures
            j@ == report_view(self@, result@),
    {
        match self {
            Report::Scale { backend, replicas, monthly } => scale_answer(
                backend.as_str(),
                *replicas,
                result,
                *monthly,
            ),
            Report::Status { backend } => status_answer(backend.as_str(), result),
            Report::Pool { backend } => pool_answer(backend.as_str(), result),
        }
    }
}

impl ClusterWait {
    /// The answer of the tool, now that the cluster has replied.
    pub fn done(self, reply: ClusterReply) -> (r: Result<String, EctusError>)
        ensures
            outcome(r) == cluster_outcome(self@, reply@),
    {
        match self.call.conclude(reply) {
            Ok(result) => Ok(self.report.answer(result.as_str()).render()),
            Err(e) => Err(e),
        }
    }
}

/// The answer of a tool that asked the upstream service, now that it has
/// replied: the document of the reply, written out.
pub fn upstream_done(reply: HttpReply) -> (r: Result<String, EctusError>)
    ensures
        outcome(r) == upstream_outcome(reply@),
{
    match ApiClient::read_reply(reply) {
        Ok(j) => Ok(j.render()),
        Err(e) => Err(e),
    }
}

/// What the step of a backend means for a tool.
fn follow(step: Step, report: Report) -> (r: ToolStep)
    ensures
        r@ == after_backend(step@, report@),
{
    match step {
        Step::Done(Ok(s)) => ToolStep::Done(Ok(report.answer(s.as_str()).render())),
        Step::Done(Err(e)) => ToolStep::Done(Err(e)),
        Step::Call(call) => ToolStep::Cluster(ClusterWait { call, report }),
    }
}

/// Asks the upstream service to generate code.
pub fn generate_code(client: &ApiClient, args: &Json) -> (step: ToolStep)
    ensures
        step@ == ToolStepView::Upstream(post(*client, "/api/v1/generate"@, args@)),
{
    ToolStep::Upstream(client.post_json("/api/v1/generate", args))
}

/// Asks the upstream service to check code.
pub fn run_qa(client: &ApiClient, args: &Json) -> (step: ToolStep)
    ensures
        step@ == ToolStepView::Upstream(post(*client, "/api/v1/qa"@, args@)),
{
    ToolStep::Upstream(client.post_json("/api/v1/qa", args))
}

/// Asks the upstream service to refactor code.
pub fn refactor_code(client: &ApiClient, args: &Json) -> (step: ToolStep)
    ensures
        step@ == ToolStepView::Upstream(post(*client, "/api/v1/refactor"@, args@)),
{
    ToolStep::Upstream(client.post_json("/api/v1/refactor", args))
}

/// Scales a pool of workers, if the budget permits.
pub fn orchestrator_scale(cfg: &Config, args: &Json) -> (step: ToolStep)
    ensures
        step@ == scale_step(*cfg, args@),
{
    let backend = backend_of(args, cfg.orchestrator_backend.as_str());
    let replicas = replicas_of(args);
    let resources = match resources_from(args) {
        Ok(r) => r,
        Err(e) => {
            return ToolStep::Done(Err(e));
        },
    };
    let duration_hours = duration_of(args);
    let budget_enforce = flag_of(args, "budget_enforce", true);
    let override_ok = flag_of(args, "override", false);
    let est = estimate_cost(backend, replicas, &resources, duration_hours);
    if budget_enforce {
        let policy = BudgetPolicy {
            monthly_usd_limit: cfg.budget_limit,
            policy: policy_for(&cfg.budget_policy),
        };
        if let Err(msg) = enforce_budget(&policy, est.monthly_projected_usd, override_ok) {
            return ToolStep::Done(
                Ok(rejected_answer(msg.as_str(), est.monthly_projected_usd).render()),
            );
        }
    }
    let ctx = context_of(args);
    let orch = new_backend(backend);
    let step = orch.scale(&ctx, replicas);
    follow(
        step,
        Report::Scale { backend: backend.to_owned(), replicas, monthly: est.monthly_projected_usd },
    )
}

/// Describes what is deployed.
pub fn orchestrator_status(cfg: &Config, args: &Json) -> (step: ToolStep)
    ensures
        step@ == status_step(*cfg, args@),
{
    let backend = backend_of(args, cfg.orchestrator_backend.as_str());
    let ctx = context_of(args);
    let orch = new_backend(backend);
    let step = orch.status(&ctx);
    follow(step, Report::Status { backend: backend.to_owned() })
}

/// Creates or updates a pool.
pub fn pool_ensure(cfg: &Config, args: &Json) -> (step: ToolStep)
    ensures
        step@ == pool_step(*cfg, args@),
{
    let backend = backend_of(args, cfg.orchestrator_backend.as_str());
    let spec: String = match args.get("spec") {
        Some(s) => s.render(),
        None => Members::new().finish().render(),
    };
    let ctx = context_of(args);
    let orch = new_backend(backend);
    let step = orch.ensure_pool(&ctx, spec.as_str());
    follow(step, Report::Pool { backend: backend.to_owned() })
}

/// Estimates what the resources that the arguments ask for cost. Nothing is
/// done but to compute.
pub fn cost_estimate(args: &Json) -> (r: Result<String, EctusError>)
    ensures
        outcome(r) == cost_estimate_outcome(args@),
{
    let backend = backend_of(args, "kubernetes");
    let replicas = replicas_of(args);
    let resources = match resources_from(args) {
        Ok(r) => r,
        Err(e) => {
            return Err(e);
        },
    };
    let duration_hours = duration_of(args);
    let est = estimate_cost(backend, replicas, &resources, duration_hours);
    Ok(
        cost_answer(
            backend,
            replicas,
            est.hourly_total_usd,
            est.monthly_projected_usd,
            est.breakdown.as_str(),
        ).render(),
    )
}

/// The policy that is configured. It cannot be changed from here.
pub fn budget_config(cfg: &Config) -> (j: Json)
    ensures
        j@ == budget_config_report(opt_text(cfg.budget_policy), cfg.budget_limit),
{
    let mut m = Members::new();
    m.put(
        "policy",
        match &cfg.budget_policy {
            Some(p) => Json::text(p.as_str()),
            None => Json::Null,
        },
    );
    m.put(
        "monthly_usd_limit",
        match cfg.budget_limit {
            Some(limit) => money_json(limit),
            None => Json::Null,
        },
    );
    m.finish()
}

/// The state of the budget, as far as it is known.
pub fn budget_status(cfg: &Config) -> (j: Json)
    ensures
        j@ == budget_status_report(cfg.budget_limit),
{
    let limit: Money = match cfg.budget_limit {
        Some(limit) => limit,
        None => Money { units: 0 },
    };
    let mut m = Members::new();
    m.put("month_to_date_usd", money_json(Money { units: 0 }));
    m.put("projected_eom_usd", money_json(limit));
    m.put("headroom_usd", money_json(limit));
    m.finish()
}

/// Calls the tool `name` with the arguments `args`. A name that no tool bears
/// makes the call fail, with a message that tells the name.
pub fn call(client: &ApiClient, cfg: &Config, name: &str, args: Json) -> (step: ToolStep)
    ensures
        step@ == call_step(*client, *cfg, name@, args@),
{
    if same_text(name, "generate_code") {
        generate_code(client, &args)
    } else if same_text(name, "run_qa") {
        run_qa(client, &args)
    } else if same_text(name, "refactor_code") {
        refactor_code(client, &args)
    } else if same_text(name, "orchestrator_scale") {
        orchestrator_scale(cfg, &args)
    } else if same_text(name, "orchestrator_status") {
        orchestrator_status(cfg, &args)
    } else if same_text(name, "pool_ensure") {
        pool_ensure(cfg, &args)
    } else if same_text(name, "cost_estimate") {
        ToolStep::Done(cost_estimate(&args))
    } else if same_text(name, "budget_config") {
        ToolStep::Done(Ok(budget_config(cfg).render()))
    } else if same_text(name, "budget_status") {
        ToolStep::Done(Ok(budget_status(cfg).render()))
    } else {
        let mut msg = String::new();
        msg.append("unknown tool: ");
        msg.append(name);
        ToolStep::Done(Err(EctusError::Input(msg)))
    }
}

/// Two calls of `cost_estimate` with the same arguments come to the same
/// result: what it answers depends on its arguments and on nothing else.
pub proof fn lemma_cost_estimate_repeats(
    args: JsonView,
    first: Result<String, EctusError>,
    second: Result<String, EctusError>,
)
    requires
        outcome(first) == cost_estimate_outcome(args),
        outcome(second) == cost_estimate_outcome(args),
    ensures
        outcome(first) == outcome(second),
{
}

/// The catalog lists each tool under its name, and no two tools under one
/// name.
pub proof fn lemma_tool_names_distinct()
    ensures
        catalog().len() == tool_names().len(),
        forall|i: int|
            0 <= i < tool_names().len() ==> (#[trigger] catalog()[i]).member("name"@) == Some(
                JsonView::Str(tool_names()[i]),
            ),
        forall|i: int, j: int|
            0 <= i < j < tool_names().len() ==> #[trigger] tool_names()[i] != #[trigger] tool_names()[j],
{
    reveal_strlit("generate_code");
    reveal_strlit("run_qa");
    reveal_strlit("refactor_code");
    reveal_strlit("orchestrator_scale");
    reveal_strlit("orchestrator_status");
    reveal_strlit("pool_ensure");
    reveal_strlit("cost_estimate");
    reveal_strlit("budget_config");
    reveal_strlit("budget_status");
    reveal_strlit("name");
    reveal_strlit("description");
    reveal_strlit("inputSchema");
    assert forall|name: Seq<char>, description: Seq<char>|
        (#[trigger] descriptor(name, description)).member("name"@) == Some(
            JsonView::Str(name),
        ) by {
        let schema = object(Seq::empty().push(("type"@, JsonView::Str("object"@))));
        let entries = Seq::empty().push(("name"@, JsonView::Str(name))).push(
            ("description"@, JsonView::Str(description)),
        ).push(("inputSchema"@, schema));
        assert("name"@.len() == 4 && "description"@.len() == 11 && "inputSchema"@.len() == 11);
        assert(entries[1].0 != "name"@ && entries[2].0 != "name"@);
        crate::json::lemma_members_last(entries, "name"@, 0);
    }
    let names = tool_names();
    assert(names[0][0] == 'g' && names[1].len() == 6 && names[2][0] == 'r' && names[3].len() == 18
        && names[4].len() == 19 && names[5].len() == 11 && names[6][0] == 'c' && names[7][7] == 'c'
        && names[8][7] == 's' && names[7][0] == 'b' && names[8][0] == 'b');
}

/// A name that no tool bears makes the call fail, and the message of the
/// failure ends with the name.
pub proof fn lemma_unknown_tool(client: ApiClient, cfg: Config, name: Seq<char>, args: JsonView)
    requires
        name != "generate_code"@,
        name != "run_qa"@,
        name != "refactor_code"@,
        name != "orchestrator_scale"@,
        name != "orchestrator_status"@,
        name != "pool_ensure"@,
        name != "cost_estimate"@,
        name != "budget_config"@,
        name != "budget_status"@,
    ensures
        call_step(client, cfg, name, args) == ToolStepView::Done(
            Err(Failure::Input("unknown tool: "@ + name)),
        ),
{
}

} // verus!

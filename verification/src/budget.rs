//! Cost estimation and the budget gate.
//!
//! All amounts are exact. A CPU quantity is a number of millicores, a memory
//! quantity a number of mebibytes, and money a number of units of which
//! `UNITS_PER_DOLLAR` make one dollar. The unit is chosen so that one
//! millicore-hour and one mebibyte-hour cost a whole number of units at every
//! rate of the table, which makes a projection a product of natural numbers.

use crate::decimal::{
    all_digits, digits_text, digits_value, fixed_text, is_numeral, numeral_nanos, numeral_whole,
    plain_text, pow10, push_amount, push_digits, push_plain, read_digits, read_numeral, rounded,
    skip_plus, unsigned, Numeral, NANOS,
};
use crate::text::{
    ascii_lower, chars_of, ends_with, lowercase, lowered, lowered_range, opt_text,
    prefix_ends_with, same_chars, same_text, trim, trim_range,
};
use vstd::prelude::*;
use vstd::string::StringExecFns;

verus! {

/// How many units of money make one dollar.
pub const UNITS_PER_DOLLAR: u128 = 10_000_000_000_000;

/// No quantity is read as more than this many millicores or mebibytes.
pub const QUANTITY_MAX: u64 = 1_000_000_000_000_000;

/// The hours of the month that a projection is made for: thirty days.
pub const HOURS_PER_MONTH: u128 = 720;

/// An amount of money, in units of `1 / UNITS_PER_DOLLAR` dollar.
#[derive(Clone, Copy, Debug, PartialEq, Eq, Structural)]
pub struct Money {
    pub units: u128,
}

/// The compute resources of one replica, as the caller wrote them.
#[derive(Debug, Clone)]
pub struct Resources {
    pub cpu: String,
    pub memory: String,
    pub gpu: Option<String>,
}

/// What a month may cost, and how strictly that is held: both may be left
/// open.
#[derive(Debug, Clone)]
pub struct BudgetPolicy {
    pub monthly_usd_limit: Option<Money>,
    pub policy: Option<PolicyKind>,
}

/// How strictly a limit is held: a hard limit gives way to nothing, a soft
/// limit gives way to the caller's override.
#[derive(Debug, Clone, Copy, PartialEq, Eq, Structural)]
pub enum PolicyKind {
    Hard,
    Soft,
}

/// What resources hold.
pub ghost struct ResourcesView {
    pub cpu: Seq<char>,
    pub memory: Seq<char>,
    pub gpu: Option<Seq<char>>,
}

impl View for Resources {
    type V = ResourcesView;

    open spec fn view(&self) -> ResourcesView {
        ResourcesView { cpu: self.cpu@, memory: self.memory@, gpu: opt_text(self.gpu) }
    }
}

/// An estimate: what all replicas cost per hour, what they cost in a month
/// of thirty days, and the line that records what the estimate was made from.
#[derive(Debug)]
pub struct EstimateResult {
    pub hourly_total_usd: Money,
    pub monthly_projected_usd: Money,
    pub breakdown: String,
}

/// What one hour costs, in thousandths of a dollar: of one core, of one
/// gibibyte of memory and of one GPU.
#[derive(Clone, Copy, Debug, PartialEq, Eq, Structural)]
pub struct Rates {
    pub cpu: u64,
    pub memory: u64,
    pub gpu: u64,
}

/// The value of the numeral `s` in units of which `per_whole` make one,
/// rounded down and at most `QUANTITY_MAX`; zero where `s` is no numeral.
pub open spec fn scaled(s: Seq<char>, per_whole: nat) -> nat {
    if is_numeral(s) {
        let exact = ((numeral_whole(s) * NANOS + numeral_nanos(s)) * per_whole
            / 1_000_000_000) as nat;
        if exact > QUANTITY_MAX {
            QUANTITY_MAX as nat
        } else {
            exact
        }
    } else {
        0
    }
}

/// The millicores that a CPU quantity stands for: with a trailing `m` the
/// number before it counts millicores, without one the text counts cores.
pub open spec fn cpu_millicores(s: Seq<char>) -> nat {
    if ends_with(s, "m"@) {
        scaled(s.drop_last(), 1)
    } else {
        scaled(s, 1000)
    }
}

/// The length of the unit that a memory quantity, trimmed and in lower case,
/// ends with, and the mebibytes that one such unit holds. Decimal and binary
/// names of a unit mean the same; without a unit the number counts gibibytes.
pub open spec fn memory_unit(t: Seq<char>) -> (nat, nat) {
    if ends_with(t, "tib"@) {
        (3, 1_048_576)
    } else if ends_with(t, "ti"@) || ends_with(t, "tb"@) {
        (2, 1_048_576)
    } else if ends_with(t, "t"@) {
        (1, 1_048_576)
    } else if ends_with(t, "gib"@) {
        (3, 1_024)
    } else if ends_with(t, "gi"@) || ends_with(t, "gb"@) {
        (2, 1_024)
    } else if ends_with(t, "g"@) {
        (1, 1_024)
    } else if ends_with(t, "mib"@) {
        (3, 1)
    } else if ends_with(t, "mi"@) || ends_with(t, "mb"@) {
        (2, 1)
    } else if ends_with(t, "m"@) {
        (1, 1)
    } else {
        (0, 1_024)
    }
}

/// The mebibytes that a memory quantity stands for.
pub open spec fn memory_mebibytes(s: Seq<char>) -> nat {
    let t = ascii_lower(trim(s));
    let unit = memory_unit(t);
    scaled(trim(t.take(t.len() - unit.0)), unit.1)
}

/// The GPUs that a GPU count stands for: the number that its digits spell,
/// with or without a plus sign before them, where that fits 32 bits, and
/// none otherwise.
pub open spec fn gpu_count(gpu: Option<Seq<char>>) -> nat {
    match gpu {
        Some(s) => {
            let digits = unsigned(s);
            if digits.len() > 0 && all_digits(digits) && digits_value(digits) <= u32::MAX {
                digits_value(digits)
            } else {
                0
            }
        },
        None => 0,
    }
}

/// The amount that a numeral of dollars stands for, rounded down to a
/// billionth of a dollar; nothing where the text is no numeral.
pub open spec fn money_of(text: Seq<char>) -> Option<Money> {
    if is_numeral(text) {
        Some(
            Money {
                units: (numeral_whole(text) * UNITS_PER_DOLLAR + numeral_nanos(text) * 10_000) as u128,
            },
        )
    } else {
        None
    }
}

/// The mode that a configured word stands for: `hard`, in any mix of upper
/// and lower case, is the hard mode, and every other word the soft one.
pub open spec fn policy_kind(word: Option<Seq<char>>) -> Option<PolicyKind> {
    match word {
        Some(w) => if ascii_lower(w) == "hard"@ {
            Some(PolicyKind::Hard)
        } else {
            Some(PolicyKind::Soft)
        },
        None => None,
    }
}

/// The rates of a backend, whose name is matched without regard to case:
/// the row of its lower-case form.
pub open spec fn rates_of(backend: Seq<char>) -> Rates {
    rates_row(lowercase(backend))
}

/// The row of the table of rates that stands under a name in lower case. A
/// name that the table does not hold has the rates of the first row.
pub open spec fn rates_row(b: Seq<char>) -> Rates {
    if b == "ecs"@ {
        Rates { cpu: 40, memory: 5, gpu: 1500 }
    } else if b == "kubernetes"@ {
        Rates { cpu: 35, memory: 4, gpu: 1400 }
    } else if b == "cloud_run"@ || b == "aca"@ {
        Rates { cpu: 45, memory: 6, gpu: 1800 }
    } else if b == "asg"@ || b == "mig"@ || b == "vmss"@ {
        Rates { cpu: 30, memory: 4, gpu: 1300 }
    } else {
        Rates { cpu: 40, memory: 5, gpu: 1500 }
    }
}

/// What one replica costs per hour, in units of money.
pub open spec fn per_replica_units(rates: Rates, cpu: nat, memory: nat, gpu: nat) -> nat {
    (cpu * rates.cpu * 10_000_000 + memory * rates.memory * 9_765_625 + gpu * rates.gpu
        * 10_000_000_000) as nat
}

/// What all replicas cost per hour.
pub open spec fn hourly_units(rates: Rates, replicas: nat, cpu: nat, memory: nat, gpu: nat) -> nat {
    per_replica_units(rates, cpu, memory, gpu) * replicas
}

/// What all replicas cost in a month of thirty days.
pub open spec fn monthly_units(rates: Rates, replicas: nat, cpu: nat, memory: nat, gpu: nat) -> nat {
    hourly_units(rates, replicas, cpu, memory, gpu) * 720
}

/// What one replica with the given resources costs per hour on a backend.
pub open spec fn estimate_per_replica(backend: Seq<char>, res: ResourcesView) -> nat {
    per_replica_units(
        rates_of(backend),
        cpu_millicores(res.cpu),
        memory_mebibytes(res.memory),
        gpu_count(res.gpu),
    )
}

/// What `replicas` replicas with the given resources cost per hour.
pub open spec fn estimate_hourly(backend: Seq<char>, replicas: nat, res: ResourcesView) -> nat {
    hourly_units(
        rates_of(backend),
        replicas,
        cpu_millicores(res.cpu),
        memory_mebibytes(res.memory),
        gpu_count(res.gpu),
    )
}

/// What `replicas` replicas with the given resources cost in a month.
pub open spec fn estimate_monthly(backend: Seq<char>, replicas: nat, res: ResourcesView) -> nat {
    monthly_units(
        rates_of(backend),
        replicas,
        cpu_millicores(res.cpu),
        memory_mebibytes(res.memory),
        gpu_count(res.gpu),
    )
}

/// The line that records what an estimate was made from.
pub open spec fn estimate_breakdown(backend: Seq<char>, replicas: nat, res: ResourcesView) -> Seq<
    char,
> {
    breakdown_text(
        replicas,
        cpu_millicores(res.cpu),
        memory_mebibytes(res.memory),
        gpu_count(res.gpu),
        estimate_per_replica(backend, res),
    )
}

/// An amount of money in dollars, rounded to `places` digits after the point.
pub open spec fn dollars_text(units: nat, places: nat) -> Seq<char> {
    fixed_text(rounded(units, (13 - places) as nat), places)
}

/// The line that records the quantities that an estimate was made from.
pub open spec fn breakdown_text(
    replicas: nat,
    cpu: nat,
    memory: nat,
    gpu: nat,
    per_replica: nat,
) -> Seq<char> {
    "replicas="@ + digits_text(replicas) + " cpu="@ + plain_text(cpu, 3) + "cores mem="@
        + plain_text(memory * 9_765_625, 10) + "Gi gpu="@ + digits_text(gpu) + " -> perReplica=$"@
        + dollars_text(per_replica, 4) + "/h"@
}

/// Whether a policy lets a projection pass.
pub open spec fn budget_permits(policy: BudgetPolicy, projected: Money, override_ok: bool) -> bool {
    match policy.monthly_usd_limit {
        None => true,
        Some(limit) => projected.units <= limit.units || match policy.policy {
            Some(PolicyKind::Hard) => false,
            Some(PolicyKind::Soft) => override_ok,
            None => true,
        },
    }
}

/// What a rejection says.
pub open spec fn rejection_text(kind: PolicyKind, limit: Money, projected: Money) -> Seq<char> {
    (match kind {
        PolicyKind::Hard => "budget hard-limit exceeded (limit=$"@,
        PolicyKind::Soft => "budget soft-limit exceeded; override required (limit=$"@,
    }) + dollars_text(limit.units as nat, 2) + ", projected=$"@ + dollars_text(
        projected.units as nat,
        2,
    ) + ")"@
}

impl Money {
    /// A whole number of dollars.
    pub fn dollars(n: u64) -> (m: Money)
        ensures
            m.units == n * UNITS_PER_DOLLAR,
    {
        Money { units: n as u128 * UNITS_PER_DOLLAR }
    }

    /// Reads an amount in dollars.
    pub fn parse(text: &str) -> (r: Option<Money>)
        ensures
            r == money_of(text@),
    {
        let v = chars_of(text);
        assert(v@.subrange(0, v.len() as int) == v@);
        match read_numeral(&v, 0, v.len()) {
            Some(n) => Some(
                Money { units: n.whole as u128 * UNITS_PER_DOLLAR + n.nanos as u128 * 10_000 },
            ),
            None => None,
        }
    }
}

/// The mode that a configured word stands for.
pub fn policy_for(word: &Option<String>) -> (kind: Option<PolicyKind>)
    ensures
        kind == policy_kind(opt_text(*word)),
{
    match word {
        Some(w) => {
            let lower = lowered(&chars_of(w.as_str()));
            if same_chars(&lower, &chars_of("hard")) {
                Some(PolicyKind::Hard)
            } else {
                Some(PolicyKind::Soft)
            }
        },
        None => None,
    }
}

/// Appends an amount of money in dollars, rounded to cents or to hundredths
/// of a cent.
fn push_dollars(out: &mut String, units: u128, places: usize)
    requires
        places == 2 || places == 4,
    ensures
        final(out)@ == old(out)@ + dollars_text(units as nat, places as nat),
{
    let drop: u128 = if places == 2 {
        100_000_000_000
    } else {
        1_000_000_000
    };
    assert(drop == pow10((13 - places) as nat)) by {
        reveal_with_fuel(pow10, 12);
    }
    let whole: u128 = units / drop;
    let rest: u128 = units % drop;
    let up: u128 = if rest >= drop - rest {
        1
    } else {
        0
    };
    push_amount(out, whole + up, places, false);
}

fn quantity(n: Numeral, per_whole: u64) -> (q: u64)
    requires
        n.whole <= 1_000_000_000_000_000,
        n.nanos < NANOS,
        per_whole <= 1_048_576,
    ensures
        q == ({
            let exact = ((n.whole * NANOS + n.nanos) * per_whole / 1_000_000_000) as nat;
            if exact > QUANTITY_MAX {
                QUANTITY_MAX as nat
            } else {
                exact
            }
        }),
{
    let total: u128 = n.whole as u128 * (NANOS as u128) + n.nanos as u128;
    assert(total * per_whole <= 1_000_000_000_000_000_999_999_999 * 1_048_576) by (nonlinear_arith)
        requires
            total <= 1_000_000_000_000_000_999_999_999,
            per_whole <= 1_048_576,
    ;
    let exact: u128 = total * (per_whole as u128) / (NANOS as u128);
    if exact > QUANTITY_MAX as u128 {
        QUANTITY_MAX
    } else {
        exact as u64
    }
}

/// Reads `v[lo..hi]` as a numeral of units of which `per_whole` make one.
fn read_scaled(v: &Vec<char>, lo: usize, hi: usize, per_whole: u64) -> (q: u64)
    requires
        lo <= hi <= v.len(),
        per_whole <= 1_048_576,
    ensures
        q == scaled(v@.subrange(lo as int, hi as int), per_whole as nat),
        q <= QUANTITY_MAX,
{
    match read_numeral(v, lo, hi) {
        Some(n) => quantity(n, per_whole),
        None => 0,
    }
}

/// Reads a CPU quantity (`"500m"`, `"2"`, `"0.5"`) as millicores. A text
/// that stands for no quantity counts as zero.
pub fn parse_cpu(s: &str) -> (millicores: u64)
    ensures
        millicores == cpu_millicores(s@),
        millicores <= QUANTITY_MAX,
{
    let v = chars_of(s);
    assert(v@.take(v.len() as int) == v@);
    if prefix_ends_with(&v, v.len(), "m") {
        proof {
            reveal_strlit("m");
        }
        assert(v@.subrange(0, v.len() - 1) == s@.drop_last());
        read_scaled(&v, 0, v.len() - 1, 1)
    } else {
        assert(v@.subrange(0, v.len() as int) == s@);
        read_scaled(&v, 0, v.len(), 1000)
    }
}

/// The unit that `t` ends with: its length and the mebibytes it holds.
fn unit_of(t: &Vec<char>) -> (r: (usize, u64))
    ensures
        r.0 == memory_unit(t@).0,
        r.1 == memory_unit(t@).1,
        r.0 <= t.len(),
        r.1 <= 1_048_576,
{
    let n = t.len();
    assert(t@.take(n as int) == t@);
    proof {
        reveal_strlit("tib");
        reveal_strlit("ti");
        reveal_strlit("tb");
        reveal_strlit("t");
        reveal_strlit("gib");
        reveal_strlit("gi");
        reveal_strlit("gb");
        reveal_strlit("g");
        reveal_strlit("mib");
        reveal_strlit("mi");
        reveal_strlit("mb");
        reveal_strlit("m");
    }
    if prefix_ends_with(t, n, "tib") {
        (3, 1_048_576)
    } else if prefix_ends_with(t, n, "ti") || prefix_ends_with(t, n, "tb") {
        (2, 1_048_576)
    } else if prefix_ends_with(t, n, "t") {
        (1, 1_048_576)
    } else if prefix_ends_with(t, n, "gib") {
        (3, 1_024)
    } else if prefix_ends_with(t, n, "gi") || prefix_ends_with(t, n, "gb") {
        (2, 1_024)
    } else if prefix_ends_with(t, n, "g") {
        (1, 1_024)
    } else if prefix_ends_with(t, n, "mib") {
        (3, 1)
    } else if prefix_ends_with(t, n, "mi") || prefix_ends_with(t, n, "mb") {
        (2, 1)
    } else if prefix_ends_with(t, n, "m") {
        (1, 1)
    } else {
        (0, 1_024)
    }
}

/// Reads a memory quantity (`"512Mi"`, `"2Gi"`, `"1.5"`) as mebibytes, of
/// which 1024 make one gibibyte. A text that stands for no quantity counts as
/// zero.
pub fn parse_mem_gib(s: &str) -> (mebibytes: u64)
    ensures
        mebibytes == memory_mebibytes(s@),
        mebibytes <= QUANTITY_MAX,
{
    let v = chars_of(s);
    assert(v@.subrange(0, v.len() as int) == v@);
    let (a, b) = trim_range(&v, 0, v.len());
    let t = lowered_range(&v, a, b);
    let (suffix, per_whole) = unit_of(&t);
    let end: usize = t.len() - suffix;
    let (lo, hi) = trim_range(&t, 0, end);
    assert(t@.subrange(0, end as int) == t@.take(t@.len() - suffix));
    read_scaled(&t, lo, hi, per_whole)
}

/// Reads a GPU count.
pub fn parse_gpu(gpu: &Option<String>) -> (count: u32)
    ensures
        count == gpu_count(opt_text(*gpu)),
{
    match gpu {
        Some(s) => {
            let v = chars_of(s.as_str());
            assert(v@.subrange(0, v.len() as int) == v@);
            let from = skip_plus(&v, 0, v.len());
            match read_digits(&v, from, v.len(), 4_294_967_296) {
                Some(n) => if n <= 4_294_967_295 {
                    n as u32
                } else {
                    0
                },
                None => 0,
            }
        },
        None => 0,
    }
}

/// The row of the table of rates that stands under a name in lower case.
pub fn rates_under(name: &str) -> (r: Rates)
    ensures
        r == rates_row(name@),
{
    if same_text(name, "ecs") {
        Rates { cpu: 40, memory: 5, gpu: 1500 }
    } else if same_text(name, "kubernetes") {
        Rates { cpu: 35, memory: 4, gpu: 1400 }
    } else if same_text(name, "cloud_run") || same_text(name, "aca") {
        Rates { cpu: 45, memory: 6, gpu: 1800 }
    } else if same_text(name, "asg") || same_text(name, "mig") || same_text(name, "vmss") {
        Rates { cpu: 30, memory: 4, gpu: 1300 }
    } else {
        Rates { cpu: 40, memory: 5, gpu: 1500 }
    }
}

/// The rates of a backend.
pub fn rates_for(backend: &str) -> (r: Rates)
    ensures
        r == rates_of(backend@),
{
    let lower = backend.to_lowercase();
    rates_under(lower.as_str())
}

/// What `replicas` replicas with the given resources cost at given rates,
/// per hour.
pub open spec fn hourly_at(rates: Rates, replicas: nat, res: ResourcesView) -> nat {
    hourly_units(
        rates,
        replicas,
        cpu_millicores(res.cpu),
        memory_mebibytes(res.memory),
        gpu_count(res.gpu),
    )
}

/// What `replicas` replicas with the given resources cost at given rates,
/// in a month.
pub open spec fn monthly_at(rates: Rates, replicas: nat, res: ResourcesView) -> nat {
    monthly_units(
        rates,
        replicas,
        cpu_millicores(res.cpu),
        memory_mebibytes(res.memory),
        gpu_count(res.gpu),
    )
}

/// The line that records what an estimate at given rates was made from.
pub open spec fn breakdown_at(rates: Rates, replicas: nat, res: ResourcesView) -> Seq<char> {
    breakdown_text(
        replicas,
        cpu_millicores(res.cpu),
        memory_mebibytes(res.memory),
        gpu_count(res.gpu),
        per_replica_units(
            rates,
            cpu_millicores(res.cpu),
            memory_mebibytes(res.memory),
            gpu_count(res.gpu),
        ),
    )
}

/// Estimates what `replicas` replicas with the given resources cost on a
/// backend: per hour, and projected over a month of thirty days. The month
/// is fixed: `hours`, the time that the caller plans for, changes no figure.
pub fn estimate_cost(backend: &str, replicas: u32, resources: &Resources, hours: u64) -> (est:
    EstimateResult)
    ensures
        est.hourly_total_usd.units == estimate_hourly(backend@, replicas as nat, resources@),
        est.monthly_projected_usd.units == estimate_monthly(backend@, replicas as nat, resources@),
        est.breakdown@ == estimate_breakdown(backend@, replicas as nat, resources@),
{
    let rates = rates_for(backend);
    assert(fits(rates));
    estimate_at(rates, replicas, resources)
}

/// Whether every estimate at these rates fits 128 bits: the month of the
/// largest quantities and the most replicas does. Every row of the table
/// fits.
pub open spec fn fits(rates: Rates) -> bool {
    per_replica_units(rates, QUANTITY_MAX as nat, QUANTITY_MAX as nat, u32::MAX as nat)
        * u32::MAX * 720 <= u128::MAX
}

/// Estimates what `replicas` replicas with the given resources cost at given
/// rates.
pub fn estimate_at(rates: Rates, replicas: u32, resources: &Resources) -> (est: EstimateResult)
    requires
        fits(rates),
    ensures
        est.hourly_total_usd.units == hourly_at(rates, replicas as nat, resources@),
        est.monthly_projected_usd.units == monthly_at(rates, replicas as nat, resources@),
        est.breakdown@ == breakdown_at(rates, replicas as nat, resources@),
{
    let cpu = parse_cpu(resources.cpu.as_str());
    let memory = parse_mem_gib(resources.memory.as_str());
    let gpu = parse_gpu(&resources.gpu);
    let ghost top = per_replica_units(
        rates,
        QUANTITY_MAX as nat,
        QUANTITY_MAX as nat,
        u32::MAX as nat,
    );
    assert(cpu * rates.cpu * 10_000_000 <= QUANTITY_MAX * rates.cpu * 10_000_000)
        by (nonlinear_arith)
        requires
            cpu <= QUANTITY_MAX,
    ;
    assert(memory * rates.memory * 9_765_625 <= QUANTITY_MAX * rates.memory * 9_765_625)
        by (nonlinear_arith)
        requires
            memory <= QUANTITY_MAX,
    ;
    assert(gpu * rates.gpu * 10_000_000_000 <= u32::MAX * rates.gpu * 10_000_000_000)
        by (nonlinear_arith)
        requires
            gpu <= u32::MAX,
    ;
    assert(top <= top * u32::MAX * 720) by (nonlinear_arith);
    let per_replica: u128 = (cpu as u128) * (rates.cpu as u128) * 10_000_000 + (memory as u128) * (
    rates.memory as u128) * 9_765_625 + (gpu as u128) * (rates.gpu as u128) * 10_000_000_000;
    assert(per_replica * replicas * 720 <= top * u32::MAX * 720) by (nonlinear_arith)
        requires
            per_replica <= top,
            replicas <= u32::MAX,
    ;
    assert(per_replica * replicas <= per_replica * replicas * 720) by (nonlinear_arith);
    let hourly: u128 = per_replica * (replicas as u128);
    let monthly: u128 = hourly * HOURS_PER_MONTH;
    let mut breakdown = String::new();
    breakdown.append("replicas=");
    push_digits(&mut breakdown, replicas as u128);
    breakdown.append(" cpu=");
    push_plain(&mut breakdown, cpu as u128, 3);
    breakdown.append("cores mem=");
    push_plain(&mut breakdown, memory as u128 * 9_765_625, 10);
    breakdown.append("Gi gpu=");
    push_digits(&mut breakdown, gpu as u128);
    breakdown.append(" -> perReplica=$");
    push_dollars(&mut breakdown, per_replica, 4);
    breakdown.append("/h");
    EstimateResult {
        hourly_total_usd: Money { units: hourly },
        monthly_projected_usd: Money { units: monthly },
        breakdown,
    }
}

/// Holds a projection against a policy. Without a limit, or with a projection
/// within the limit, it passes. Over the limit a hard policy rejects it, a
/// soft policy rejects it unless the caller overrides, and a policy without a
/// mode lets it pass.
pub fn enforce_budget(policy: &BudgetPolicy, projected_monthly: Money, override_ok: bool) -> (r:
    Result<(), String>)
    ensures
        r is Ok <==> budget_permits(*policy, projected_monthly, override_ok),
        r matches Err(msg) ==> msg@ == rejection_text(
            policy.policy->0,
            policy.monthly_usd_limit->0,
            projected_monthly,
        ),
{
    if let Some(limit) = policy.monthly_usd_limit {
        if projected_monthly.units > limit.units {
            match policy.policy {
                Some(PolicyKind::Hard) => {
                    let mut msg = String::new();
                    msg.append("budget hard-limit exceeded (limit=$");
                    push_dollars(&mut msg, limit.units, 2);
                    msg.append(", projected=$");
                    push_dollars(&mut msg, projected_monthly.units, 2);
                    msg.append(")");
                    return Err(msg);
                },
                Some(PolicyKind::Soft) => {
                    if !override_ok {
                        let mut msg = String::new();
                        msg.append("budget soft-limit exceeded; override required (limit=$");
                        push_dollars(&mut msg, limit.units, 2);
                        msg.append(", projected=$");
                        push_dollars(&mut msg, projected_monthly.units, 2);
                        msg.append(")");
                        return Err(msg);
                    }
                },
                None => {},
            }
        }
    }
    Ok(())
}

/// Every backend charges for each of the three resources.
pub proof fn lemma_rates_positive(backend: Seq<char>)
    ensures
        rates_of(backend).cpu > 0,
        rates_of(backend).memory > 0,
        rates_of(backend).gpu > 0,
{
}

/// For fixed resources, of which one at least is not zero, and a fixed
/// backend, the monthly projection grows strictly with the replica count.
pub proof fn lemma_projection_grows_with_replicas(
    backend: Seq<char>,
    cpu: nat,
    memory: nat,
    gpu: nat,
    fewer: nat,
    more: nat,
)
    requires
        fewer < more,
        cpu > 0 || memory > 0 || gpu > 0,
    ensures
        monthly_units(rates_of(backend), fewer, cpu, memory, gpu) < monthly_units(
            rates_of(backend),
            more,
            cpu,
            memory,
            gpu,
        ),
{
    let rates = rates_of(backend);
    lemma_rates_positive(backend);
    let per = per_replica_units(rates, cpu, memory, gpu);
    assert(per > 0) by (nonlinear_arith)
        requires
            per == cpu * rates.cpu * 10_000_000 + memory * rates.memory * 9_765_625 + gpu
                * rates.gpu * 10_000_000_000,
            rates.cpu > 0,
            rates.memory > 0,
            rates.gpu > 0,
            cpu > 0 || memory > 0 || gpu > 0,
    ;
    assert(per * fewer * 720 < per * more * 720) by (nonlinear_arith)
        requires
            per > 0,
            fewer < more,
    ;
}

/// For a fixed backend and at least one replica, the monthly projection grows
/// strictly with the CPU quantity.
pub proof fn lemma_projection_grows_with_cpu(
    backend: Seq<char>,
    replicas: nat,
    less: nat,
    more: nat,
    memory: nat,
    gpu: nat,
)
    requires
        replicas > 0,
        less < more,
    ensures
        monthly_units(rates_of(backend), replicas, less, memory, gpu) < monthly_units(
            rates_of(backend),
            replicas,
            more,
            memory,
            gpu,
        ),
{
    let rates = rates_of(backend);
    lemma_rates_positive(backend);
    let rest = memory * rates.memory * 9_765_625 + gpu * rates.gpu * 10_000_000_000;
    assert((less * rates.cpu * 10_000_000 + rest) * replicas * 720 < (more * rates.cpu
        * 10_000_000 + rest) * replicas * 720) by (nonlinear_arith)
        requires
            rates.cpu > 0,
            replicas > 0,
            less < more,
    ;
}

/// For a fixed backend and at least one replica, the monthly projection grows
/// strictly with the memory quantity.
pub proof fn lemma_projection_grows_with_memory(
    backend: Seq<char>,
    replicas: nat,
    cpu: nat,
    less: nat,
    more: nat,
    gpu: nat,
)
    requires
        replicas > 0,
        less < more,
    ensures
        monthly_units(rates_of(backend), replicas, cpu, less, gpu) < monthly_units(
            rates_of(backend),
            replicas,
            cpu,
            more,
            gpu,
        ),
{
    let rates = rates_of(backend);
    lemma_rates_positive(backend);
    let head = cpu * rates.cpu * 10_000_000;
    let tail = gpu * rates.gpu * 10_000_000_000;
    assert((head + less * rates.memory * 9_765_625 + tail) * replicas * 720 < (head + more
        * rates.memory * 9_765_625 + tail) * replicas * 720) by (nonlinear_arith)
        requires
            rates.memory > 0,
            replicas > 0,
            less < more,
    ;
}

/// The budget gate. Over the limit, a hard policy rejects whatever the
/// override says, and a soft policy rejects exactly where the override is
/// absent. Within the limit every policy permits, as does one without a limit.
pub proof fn lemma_budget_gate(policy: BudgetPolicy, projected: Money, override_ok: bool)
    ensures
        policy.monthly_usd_limit is None ==> budget_permits(policy, projected, override_ok),
        policy.monthly_usd_limit matches Some(limit) ==> {
            &&& projected.units <= limit.units ==> budget_permits(policy, projected, override_ok)
            &&& projected.units > limit.units && policy.policy == Some(PolicyKind::Hard)
                ==> !budget_permits(policy, projected, override_ok)
            &&& projected.units > limit.units && policy.policy == Some(PolicyKind::Soft) ==> (
            budget_permits(policy, projected, override_ok) <==> override_ok)
        },
{
}

} // verus!

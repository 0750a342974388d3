//! The quality gate: suite diagnostics, their sanitising for publication,
//! threshold registry checks and the quality gate decision.

use vstd::prelude::*;
use crate::text::{
    blank, char_is_control, chars_of, concat, extend_chars, is_blank, is_control, occurs_at, owned,
    replace_all, replace_text, string_of,
};

verus! {

#[derive(Debug, Clone)]
pub struct FailureEnvelope {
    pub suite: String,
    pub case_name: String,
    pub invariant: String,
    pub observed: String,
    pub remediation_hint: String,
}

#[derive(Debug, Clone)]
pub struct SuiteDiagnostics {
    pub suite: String,
    pub passed: bool,
    pub failures: Vec<FailureEnvelope>,
    pub duration_ms: u128,
}

#[derive(Debug, Clone)]
pub struct QualityGateDiagnostics {
    pub registry_version: String,
    pub suites: Vec<SuiteDiagnostics>,
    pub overall_passed: bool,
}

/// All failures of the given suites, suite by suite, in order.
pub open spec fn all_failures(suites: Seq<SuiteDiagnostics>) -> Seq<FailureEnvelope>
    decreases suites.len(),
{
    if suites.len() == 0 {
        Seq::empty()
    } else {
        all_failures(suites.drop_last()) + suites.last().failures@
    }
}

impl QualityGateDiagnostics {
    /// The earliest failure reported by any suite.
    pub fn first_failure(&self) -> (f: Option<&FailureEnvelope>)
        ensures
            f is None <==> all_failures(self.suites@).len() == 0,
            f matches Some(x) ==> *x == all_failures(self.suites@)[0],
    {
        let mut i: usize = 0;
        assert(self.suites@.take(0) =~= Seq::<SuiteDiagnostics>::empty());
        while i < self.suites.len()
            invariant
                i <= self.suites.len(),
                all_failures(self.suites@.take(i as int)).len() == 0,
            decreases self.suites.len() - i,
        {
            assert(self.suites@.take(i + 1).drop_last() =~= self.suites@.take(i as int));
            if self.suites[i].failures.len() > 0 {
                proof {
                    lemma_all_failures_prefix(self.suites@, i as int + 1);
                    assert(all_failures(self.suites@.take(i + 1)) =~= self.suites@[i as int].failures@);
                }
                return Some(&self.suites[i].failures[0]);
            }
            i = i + 1;
        }
        assert(self.suites@.take(self.suites.len() as int) =~= self.suites@);
        None
    }
}

/// The failures of a prefix of the suites come first among all failures.
pub proof fn lemma_all_failures_prefix(suites: Seq<SuiteDiagnostics>, i: int)
    requires
        0 <= i <= suites.len(),
    ensures
        all_failures(suites.take(i)).is_prefix_of(all_failures(suites)),
    decreases suites.len() - i,
{
    if i < suites.len() {
        lemma_all_failures_prefix(suites, i + 1);
        assert(suites.take(i + 1).drop_last() =~= suites.take(i));
    } else {
        assert(suites.take(i) =~= suites);
    }
}

/// Whether a character survives sanitising: anything but a control
/// character, though line feeds and tabs are kept.
pub open spec fn kept_char(c: char) -> bool {
    !is_control(c) || c == '\n' || c == '\t'
}

/// `s` without the characters that sanitising drops.
pub open spec fn strip_controls(s: Seq<char>) -> Seq<char>
    decreases s.len(),
{
    if s.len() == 0 {
        s
    } else if kept_char(s.last()) {
        strip_controls(s.drop_last()).push(s.last())
    } else {
        strip_controls(s.drop_last())
    }
}

/// `raw` without its control characters (line feeds and tabs are kept) and
/// with every `/home/` written as `<home>/`.
pub open spec fn sanitized(raw: Seq<char>) -> Seq<char> {
    replace_all(strip_controls(raw), "/home/"@, "<home>/"@)
}

proof fn lemma_strip_controls_kept(s: Seq<char>)
    ensures
        forall|i: int|
            0 <= i < strip_controls(s).len() ==> kept_char(#[trigger] strip_controls(s)[i]),
    decreases s.len(),
{
    if s.len() > 0 {
        let p = strip_controls(s.drop_last());
        lemma_strip_controls_kept(s.drop_last());
        if kept_char(s.last()) {
            assert forall|i: int| 0 <= i < p.push(s.last()).len() implies kept_char(
                #[trigger] p.push(s.last())[i],
            ) by {
                if i < p.len() {
                    assert(p.push(s.last())[i] == p[i]);
                }
            }
        }
    }
}

proof fn lemma_replace_all_kept(s: Seq<char>, from: Seq<char>, to: Seq<char>)
    requires
        forall|i: int| 0 <= i < s.len() ==> kept_char(#[trigger] s[i]),
        forall|i: int| 0 <= i < to.len() ==> kept_char(#[trigger] to[i]),
    ensures
        forall|i: int|
            0 <= i < replace_all(s, from, to).len() ==> kept_char(
                #[trigger] replace_all(s, from, to)[i],
            ),
    decreases s.len(),
{
    if s.len() > 0 && from.len() > 0 {
        if occurs_at(s, from, 0) {
            let rest = s.skip(from.len() as int);
            assert forall|i: int| 0 <= i < rest.len() implies kept_char(#[trigger] rest[i]) by {
                assert(rest[i] == s[i + from.len()]);
            }
            lemma_replace_all_kept(rest, from, to);
            let r = replace_all(rest, from, to);
            assert forall|i: int| 0 <= i < (to + r).len() implies kept_char(#[trigger] (to + r)[i]) by {
                if i >= to.len() {
                    assert((to + r)[i] == r[i - to.len()]);
                }
            }
        } else {
            let rest = s.drop_first();
            assert forall|i: int| 0 <= i < rest.len() implies kept_char(#[trigger] rest[i]) by {
                assert(rest[i] == s[i + 1]);
            }
            lemma_replace_all_kept(rest, from, to);
            let r = replace_all(rest, from, to);
            assert(kept_char(s[0]));
            assert forall|i: int|
                0 <= i < (seq![s[0]] + r).len() implies kept_char(#[trigger] (seq![s[0]] + r)[i]) by {
                if i >= 1 {
                    assert((seq![s[0]] + r)[i] == r[i - 1]);
                }
            }
        }
    }
}

/// A sanitised text holds no control characters but line feeds and tabs.
pub proof fn law_sanitized_has_no_controls(raw: Seq<char>)
    ensures
        forall|i: int| 0 <= i < sanitized(raw).len() ==> kept_char(#[trigger] sanitized(raw)[i]),
{
    lemma_strip_controls_kept(raw);
    let to = "<home>/"@;
    assert(to == seq!['<', 'h', 'o', 'm', 'e', '>', '/']) by {
        reveal_strlit("<home>/");
    }
    lemma_replace_all_kept(strip_controls(raw), "/home/"@, to);
}

/// Makes a diagnostic text safe to publish.
pub fn sanitize_text(raw: &str) -> (s: String)
    ensures
        s@ == sanitized(raw@),
{
    let v = chars_of(raw);
    let mut kept: Vec<char> = Vec::new();
    let mut i: usize = 0;
    while i < v.len()
        invariant
            v@ == raw@,
            i <= v.len(),
            kept@ == strip_controls(v@.take(i as int)),
        decreases v.len() - i,
    {
        let c = v[i];
        if !char_is_control(c) || c == '\n' || c == '\t' {
            kept.push(c);
        }
        assert(v@.take(i + 1).drop_last() =~= v@.take(i as int));
        i = i + 1;
    }
    assert(v@.take(v.len() as int) =~= v@);
    proof {
        reveal_strlit("/home/");
    }
    let out = replace_text(&kept, "/home/", "<home>/");
    string_of(&out)
}

/// A failure with every text sanitised.
pub open spec fn failure_sanitized(a: FailureEnvelope, b: FailureEnvelope) -> bool {
    &&& b.suite@ == sanitized(a.suite@)
    &&& b.case_name@ == sanitized(a.case_name@)
    &&& b.invariant@ == sanitized(a.invariant@)
    &&& b.observed@ == sanitized(a.observed@)
    &&& b.remediation_hint@ == sanitized(a.remediation_hint@)
}

/// A suite report with every text sanitised and everything else unchanged.
pub open spec fn suite_sanitized(a: SuiteDiagnostics, b: SuiteDiagnostics) -> bool {
    &&& b.suite@ == sanitized(a.suite@)
    &&& b.passed == a.passed
    &&& b.duration_ms == a.duration_ms
    &&& b.failures@.len() == a.failures@.len()
    &&& forall|k: int|
        0 <= k < a.failures@.len() ==> failure_sanitized(
            #[trigger] a.failures@[k],
            b.failures@[k],
        )
}

fn sanitize_failure(f: &FailureEnvelope) -> (r: FailureEnvelope)
    ensures
        failure_sanitized(*f, r),
{
    FailureEnvelope {
        suite: sanitize_text(f.suite.as_str()),
        case_name: sanitize_text(f.case_name.as_str()),
        invariant: sanitize_text(f.invariant.as_str()),
        observed: sanitize_text(f.observed.as_str()),
        remediation_hint: sanitize_text(f.remediation_hint.as_str()),
    }
}

fn sanitize_suite(s: &SuiteDiagnostics) -> (r: SuiteDiagnostics)
    ensures
        suite_sanitized(*s, r),
{
    let mut failures: Vec<FailureEnvelope> = Vec::new();
    let mut i: usize = 0;
    while i < s.failures.len()
        invariant
            i <= s.failures.len(),
            failures@.len() == i,
            forall|k: int| 0 <= k < i ==> failure_sanitized(s.failures@[k], #[trigger] failures@[k]),
        decreases s.failures.len() - i,
    {
        failures.push(sanitize_failure(&s.failures[i]));
        i = i + 1;
    }
    SuiteDiagnostics {
        suite: sanitize_text(s.suite.as_str()),
        passed: s.passed,
        failures,
        duration_ms: s.duration_ms,
    }
}

/// A copy of the report with every text sanitised.
pub fn sanitize_diagnostics(report: &QualityGateDiagnostics) -> (r: QualityGateDiagnostics)
    ensures
        r.registry_version@ == sanitized(report.registry_version@),
        r.overall_passed == report.overall_passed,
        r.suites@.len() == report.suites@.len(),
        forall|k: int|
            0 <= k < report.suites@.len() ==> suite_sanitized(
                #[trigger] report.suites@[k],
                r.suites@[k],
            ),
{
    let mut suites: Vec<SuiteDiagnostics> = Vec::new();
    let mut i: usize = 0;
    while i < report.suites.len()
        invariant
            i <= report.suites.len(),
            suites@.len() == i,
            forall|k: int| 0 <= k < i ==> suite_sanitized(report.suites@[k], #[trigger] suites@[k]),
        decreases report.suites.len() - i,
    {
        suites.push(sanitize_suite(&report.suites[i]));
        i = i + 1;
    }
    QualityGateDiagnostics {
        registry_version: sanitize_text(report.registry_version.as_str()),
        suites,
        overall_passed: report.overall_passed,
    }
}

// ---------------------------------------------------------------------------
// The quality gate
// ---------------------------------------------------------------------------

#[derive(Debug, Clone, Copy, PartialEq, Eq, Structural)]
pub enum GateState {
    Ready,
    Running,
    Failed,
    Passed,
}

#[derive(Debug, Clone, Copy, PartialEq, Eq, Structural)]
pub enum MetricStatus {
    Pass,
    Fail,
    MissingThreshold,
}

#[derive(Debug, Clone, Copy, PartialEq, Eq, Structural)]
pub enum ThresholdDirection {
    Max,
    Min,
}

#[derive(Debug, Clone)]
pub struct SuiteExecutionInput {
    pub suite: String,
    pub passed: bool,
    pub duration_ms: u128,
    pub failures: Vec<FailureEnvelope>,
}

/// The quality gate's state and diagnostics once the suites and metric verdicts are in.
#[derive(Debug, Clone)]
pub struct GateDecision {
    pub state: GateState,
    pub diagnostics: QualityGateDiagnostics,
}

/// The script that runs the quality gate locally as CI does.
pub fn local_ci_quality_gate_command() -> (s: &'static str)
    ensures
        s@ == "scripts/quality-gate.sh"@,
{
    "scripts/quality-gate.sh"
}

/// The index of the first failing suite, if any.
pub open spec fn first_failed_suite(suites: Seq<SuiteExecutionInput>) -> Option<int> {
    if exists|i: int| 0 <= i < suites.len() && !(#[trigger] suites[i]).passed {
        Some(choose|i: int| 0 <= i < suites.len() && !suites[i].passed && forall|j: int|
            0 <= j < i ==> (#[trigger] suites[j]).passed)
    } else {
        None
    }
}

/// The suites the quality gate runs: all of them up to and including the first
/// failing one.
pub open spec fn suites_run(suites: Seq<SuiteExecutionInput>) -> int {
    match first_failed_suite(suites) {
        Some(i) => i + 1,
        None => suites.len() as int,
    }
}

/// The final state of the quality gate.
pub open spec fn gate_state(suites: Seq<SuiteExecutionInput>, metrics: Seq<MetricStatus>) -> GateState {
    if first_failed_suite(suites) is Some || exists|k: int|
        0 <= k < metrics.len() && (#[trigger] metrics[k]) != MetricStatus::Pass {
        GateState::Failed
    } else if suites.len() > 0 {
        GateState::Passed
    } else {
        GateState::Ready
    }
}

/// Two failures carry the same texts.
pub open spec fn same_failure(a: FailureEnvelope, b: FailureEnvelope) -> bool {
    &&& b.suite@ == a.suite@
    &&& b.case_name@ == a.case_name@
    &&& b.invariant@ == a.invariant@
    &&& b.observed@ == a.observed@
    &&& b.remediation_hint@ == a.remediation_hint@
}

/// A suite's diagnostics mirror its execution input.
pub open spec fn suite_reported(a: SuiteExecutionInput, b: SuiteDiagnostics) -> bool {
    &&& b.suite@ == a.suite@
    &&& b.passed == a.passed
    &&& b.duration_ms == a.duration_ms
    &&& b.failures@.len() == a.failures@.len()
    &&& forall|k: int| 0 <= k < a.failures@.len() ==> same_failure(#[trigger] a.failures@[k], b.failures@[k])
}

fn copy_failures(v: &Vec<FailureEnvelope>) -> (r: Vec<FailureEnvelope>)
    ensures
        r@.len() == v@.len(),
        forall|k: int| 0 <= k < v@.len() ==> same_failure(#[trigger] v@[k], r@[k]),
{
    let mut r: Vec<FailureEnvelope> = Vec::new();
    let mut i: usize = 0;
    while i < v.len()
        invariant
            i <= v.len(),
            r@.len() == i,
            forall|k: int| 0 <= k < i ==> same_failure(v@[k], #[trigger] r@[k]),
        decreases v.len() - i,
    {
        let f = &v[i];
        r.push(
            FailureEnvelope {
                suite: f.suite.clone(),
                case_name: f.case_name.clone(),
                invariant: f.invariant.clone(),
                observed: f.observed.clone(),
                remediation_hint: f.remediation_hint.clone(),
            },
        );
        i = i + 1;
    }
    r
}

proof fn lemma_first_failed(suites: Seq<SuiteExecutionInput>, i: int)
    requires
        0 <= i < suites.len(),
        !suites[i].passed,
        forall|j: int| 0 <= j < i ==> (#[trigger] suites[j]).passed,
    ensures
        first_failed_suite(suites) == Some(i),
{
    let k = choose|k: int| 0 <= k < suites.len() && !suites[k].passed && forall|j: int|
        0 <= j < k ==> (#[trigger] suites[j]).passed;
    assert(k == i) by {
        if k < i {
            assert(suites[k].passed);
        }
        if i < k {
            assert(suites[i].passed);
        }
    }
}

proof fn lemma_earliest_failed(suites: Seq<SuiteExecutionInput>, i: int) -> (f: int)
    requires
        0 <= i < suites.len(),
        !suites[i].passed,
    ensures
        0 <= f <= i,
        first_failed_suite(suites) == Some(f),
        !suites[f].passed,
        forall|j: int| 0 <= j < f ==> (#[trigger] suites[j]).passed,
    decreases i,
{
    if exists|j: int| 0 <= j < i && !(#[trigger] suites[j]).passed {
        let j = choose|j: int| 0 <= j < i && !(#[trigger] suites[j]).passed;
        lemma_earliest_failed(suites, j)
    } else {
        lemma_first_failed(suites, i);
        i
    }
}

/// The quality gate passes exactly when there is at least one suite and
/// every suite and every metric passed. When a suite fails, the run stops
/// there: the suites run are those before the first failing one, which all
/// passed, and that one.
pub proof fn law_gate_passes_only_when_all_pass(
    suites: Seq<SuiteExecutionInput>,
    metrics: Seq<MetricStatus>,
)
    ensures
        (gate_state(suites, metrics) == GateState::Passed) <==> (suites.len() > 0 && (forall|i: int|
            0 <= i < suites.len() ==> (#[trigger] suites[i]).passed) && (forall|k: int|
            0 <= k < metrics.len() ==> (#[trigger] metrics[k]) == MetricStatus::Pass)),
        first_failed_suite(suites) matches Some(f) ==> {
            &&& 0 <= f < suites.len()
            &&& !suites[f].passed
            &&& forall|j: int| 0 <= j < f ==> (#[trigger] suites[j]).passed
            &&& suites_run(suites) == f + 1
        },
{
    if exists|i: int| 0 <= i < suites.len() && !(#[trigger] suites[i]).passed {
        let i = choose|i: int| 0 <= i < suites.len() && !(#[trigger] suites[i]).passed;
        let _ = lemma_earliest_failed(suites, i);
    }
}

/// Runs the suites in order, stopping at the first failing one, and decides
/// the quality gate from the suites and the metric verdicts: it fails when a suite or
/// a metric fails, passes when at least one suite ran and nothing failed, and
/// stays ready otherwise.
pub fn decide_quality_gate(
    registry_version: &str,
    suites: &Vec<SuiteExecutionInput>,
    metric_statuses: &Vec<MetricStatus>,
) -> (d: GateDecision)
    ensures
        d.state == gate_state(suites@, metric_statuses@),
        d.diagnostics.registry_version@ == registry_version@,
        d.diagnostics.overall_passed == (d.state == GateState::Passed),
        d.diagnostics.suites@.len() == suites_run(suites@),
        forall|k: int|
            0 <= k < d.diagnostics.suites@.len() ==> suite_reported(
                #[trigger] suites@[k],
                d.diagnostics.suites@[k],
            ),
{
    let mut reported: Vec<SuiteDiagnostics> = Vec::new();
    let mut failed = false;
    let mut i: usize = 0;
    while i < suites.len() && !failed
        invariant
            i <= suites.len(),
            reported@.len() == i,
            failed ==> i >= 1 && !suites@[i - 1].passed && forall|j: int|
                0 <= j < i - 1 ==> (#[trigger] suites@[j]).passed,
            !failed ==> forall|j: int| 0 <= j < i ==> (#[trigger] suites@[j]).passed,
            forall|k: int| 0 <= k < i ==> suite_reported(suites@[k], #[trigger] reported@[k]),
        decreases suites.len() - i,
    {
        let s = &suites[i];
        reported.push(
            SuiteDiagnostics {
                suite: s.suite.clone(),
                passed: s.passed,
                failures: copy_failures(&s.failures),
                duration_ms: s.duration_ms,
            },
        );
        if !s.passed {
            failed = true;
        }
        i = i + 1;
    }
    proof {
        if failed {
            lemma_first_failed(suites@, i - 1);
        } else {
            assert(first_failed_suite(suites@) is None);
        }
    }
    let mut state = if failed {
        GateState::Failed
    } else if i == 0 {
        GateState::Ready
    } else {
        GateState::Running
    };
    let mut any_metric_failed = false;
    let mut k: usize = 0;
    while k < metric_statuses.len()
        invariant
            k <= metric_statuses.len(),
            any_metric_failed == exists|j: int|
                0 <= j < k && (#[trigger] metric_statuses@[j]) != MetricStatus::Pass,
        decreases metric_statuses.len() - k,
    {
        if metric_statuses[k] != MetricStatus::Pass {
            any_metric_failed = true;
        }
        k = k + 1;
    }
    if state != GateState::Failed && any_metric_failed {
        state = GateState::Failed;
    }
    if state != GateState::Failed && suites.len() > 0 {
        state = GateState::Passed;
    }
    let overall_passed = state == GateState::Passed;
    GateDecision {
        state,
        diagnostics: QualityGateDiagnostics {
            registry_version: owned(registry_version),
            suites: reported,
            overall_passed,
        },
    }
}

// ---------------------------------------------------------------------------
// Threshold registry checks
// ---------------------------------------------------------------------------

/// What the registry check reads of one metric threshold.
#[derive(Debug, Clone)]
pub struct MetricThresholdFacts {
    pub name: String,
    /// The baseline is not at or below zero (a baseline that is not a number
    /// passes).
    pub baseline_positive: bool,
    /// The tolerance is not below zero.
    pub tolerance_non_negative: bool,
}

/// The complaint about one metric, if any.
pub open spec fn metric_error(m: MetricThresholdFacts) -> Option<Seq<char>> {
    if blank(m.name@) {
        Some("metric name cannot be empty"@)
    } else if !m.baseline_positive {
        Some("metric baseline must be > 0 for "@ + m.name@)
    } else if !m.tolerance_non_negative {
        Some("metric tolerance_percent must be >= 0 for "@ + m.name@)
    } else {
        None
    }
}

/// The first complaint about a threshold registry, if any.
pub open spec fn registry_error(version: Seq<char>, metrics: Seq<MetricThresholdFacts>) -> Option<
    Seq<char>,
> {
    if blank(version) {
        Some("threshold registry version cannot be empty"@)
    } else if metrics.len() == 0 {
        Some("threshold registry must declare at least one metric"@)
    } else if exists|i: int| 0 <= i < metrics.len() && (#[trigger] metric_error(metrics[i])) is Some {
        let i = choose|i: int|
            0 <= i < metrics.len() && metric_error(metrics[i]) is Some && forall|j: int|
                0 <= j < i ==> (#[trigger] metric_error(metrics[j])) is None;
        metric_error(metrics[i])
    } else {
        None
    }
}

/// Checks a threshold registry: a non-empty version, at least one metric, and
/// for each metric in order a name, a positive baseline and a non-negative
/// tolerance.
pub fn validate_threshold_registry(version: &str, metrics: &Vec<MetricThresholdFacts>) -> (r: Result<
    (),
    String,
>)
    ensures
        match r {
            Ok(()) => registry_error(version@, metrics@) is None,
            Err(m) => registry_error(version@, metrics@) == Some(m@),
        },
{
    if is_blank(version) {
        return Err(owned("threshold registry version cannot be empty"));
    }
    if metrics.len() == 0 {
        return Err(owned("threshold registry must declare at least one metric"));
    }
    let mut i: usize = 0;
    while i < metrics.len()
        invariant
            i <= metrics.len(),
            !blank(version@),
            metrics@.len() > 0,
            forall|j: int| 0 <= j < i ==> (#[trigger] metric_error(metrics@[j])) is None,
        decreases metrics.len() - i,
    {
        let m = &metrics[i];
        let err: Option<String> = if is_blank(m.name.as_str()) {
            Some(owned("metric name cannot be empty"))
        } else if !m.baseline_positive {
            Some(concat("metric baseline must be > 0 for ", m.name.as_str()))
        } else if !m.tolerance_non_negative {
            Some(concat("metric tolerance_percent must be >= 0 for ", m.name.as_str()))
        } else {
            None
        };
        match err {
            Some(e) => {
                proof {
                    let w = choose|w: int|
                        0 <= w < metrics@.len() && metric_error(metrics@[w]) is Some && forall|j: int|
                            0 <= j < w ==> (#[trigger] metric_error(metrics@[j])) is None;
                    assert(metric_error(metrics@[i as int]) is Some);
                    assert(w == i) by {
                        if w < i {
                            assert(metric_error(metrics@[w]) is None);
                        }
                        if i < w {
                            assert(metric_error(metrics@[i as int]) is None);
                        }
                    }
                }
                return Err(e);
            },
            None => {},
        }
        i = i + 1;
    }
    Ok(())
}

} // verus!

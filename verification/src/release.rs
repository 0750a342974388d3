//! Release readiness: artifact integrity, documentation sync, the release
//! lifecycle, approval log and the release summary.

use vstd::prelude::*;
use crate::text::{blank, chars_from, chars_of, chars_start_with, concat, dec, extend_chars, is_blank, owned, split_on, split_text, starts_with, string_of, trim, trim_chars, u64_text, views};

verus! {

#[derive(Debug, Clone, Copy, PartialEq, Eq, Structural)]
pub enum ReleaseStatus {
    Draft,
    ReadyForApproval,
    Approved,
    Published,
    RolledBack,
}

#[derive(Debug, Clone, Copy, PartialEq, Eq, Structural)]
pub enum RollbackStatus {
    NotRequiredPrePublish,
    Ready,
    Triggered,
    Completed,
}

/// The name of a release status, as printed in summaries and errors.
pub open spec fn release_status_name(s: ReleaseStatus) -> Seq<char> {
    match s {
        ReleaseStatus::Draft => "Draft"@,
        ReleaseStatus::ReadyForApproval => "ReadyForApproval"@,
        ReleaseStatus::Approved => "Approved"@,
        ReleaseStatus::Published => "Published"@,
        ReleaseStatus::RolledBack => "RolledBack"@,
    }
}

/// The name of a rollback status, as printed in summaries.
pub open spec fn rollback_status_name(s: RollbackStatus) -> Seq<char> {
    match s {
        RollbackStatus::NotRequiredPrePublish => "NotRequiredPrePublish"@,
        RollbackStatus::Ready => "Ready"@,
        RollbackStatus::Triggered => "Triggered"@,
        RollbackStatus::Completed => "Completed"@,
    }
}

impl ReleaseStatus {
    pub fn name(self) -> (s: &'static str)
        ensures
            s@ == release_status_name(self),
    {
        match self {
            ReleaseStatus::Draft => "Draft",
            ReleaseStatus::ReadyForApproval => "ReadyForApproval",
            ReleaseStatus::Approved => "Approved",
            ReleaseStatus::Published => "Published",
            ReleaseStatus::RolledBack => "RolledBack",
        }
    }
}

impl RollbackStatus {
    pub fn name(self) -> (s: &'static str)
        ensures
            s@ == rollback_status_name(self),
    {
        match self {
            RollbackStatus::NotRequiredPrePublish => "NotRequiredPrePublish",
            RollbackStatus::Ready => "Ready",
            RollbackStatus::Triggered => "Triggered",
            RollbackStatus::Completed => "Completed",
        }
    }
}

// ---------------------------------------------------------------------------
// Artifact integrity
// ---------------------------------------------------------------------------

#[derive(Debug, Clone)]
pub struct ArtifactEntry {
    pub path: String,
    pub checksum: String,
}

#[derive(Debug, Clone)]
pub struct ArtifactPackage {
    pub candidate_id: String,
    pub artifacts: Vec<ArtifactEntry>,
    pub release_notes_ref: String,
}

#[derive(Debug, Clone)]
pub struct IntegrityReport {
    pub passed: bool,
    pub reasons: Vec<String>,
}

/// Whether an artifact before `e` in the package has the same path.
pub open spec fn path_seen_before(prev: Seq<ArtifactEntry>, e: ArtifactEntry) -> bool {
    exists|j: int| 0 <= j < prev.len() && (#[trigger] prev[j]).path@ == e.path@
}

/// The complaints about one artifact, given the artifacts before it.
pub open spec fn entry_reasons(prev: Seq<ArtifactEntry>, e: ArtifactEntry) -> Seq<Seq<char>> {
    (if blank(e.path@) {
        seq!["artifact path cannot be empty"@]
    } else {
        Seq::empty()
    }) + (if blank(e.checksum@) {
        seq!["artifact checksum missing for "@ + e.path@]
    } else {
        Seq::empty()
    }) + (if path_seen_before(prev, e) {
        seq!["duplicate artifact path: "@ + e.path@]
    } else {
        Seq::empty()
    })
}

/// The complaints about all artifacts, in package order.
pub open spec fn artifacts_reasons(entries: Seq<ArtifactEntry>) -> Seq<Seq<char>>
    decreases entries.len(),
{
    if entries.len() == 0 {
        Seq::empty()
    } else {
        artifacts_reasons(entries.drop_last()) + entry_reasons(entries.drop_last(), entries.last())
    }
}

/// Every complaint about a release package, in the order they are reported.
pub open spec fn integrity_reasons(p: ArtifactPackage) -> Seq<Seq<char>> {
    (if blank(p.candidate_id@) {
        seq!["candidate_id is required"@]
    } else {
        Seq::empty()
    }) + (if blank(p.release_notes_ref@) {
        seq!["release_notes_ref is required"@]
    } else {
        Seq::empty()
    }) + (if p.artifacts@.len() == 0 {
        seq!["artifact set cannot be empty"@]
    } else {
        Seq::empty()
    }) + artifacts_reasons(p.artifacts@)
}

fn push_reason(reasons: &mut Vec<String>, r: String)
    ensures
        views(final(reasons)@) == views(old(reasons)@).push(r@),
{
    reasons.push(r);
    assert(views(reasons@) =~= views(old(reasons)@).push(r@));
}

/// Checks a release package: candidate id and release notes are present, the
/// artifact set is non-empty, and every artifact has a path and a checksum
/// and a path of its own.
pub fn validate_artifact_package(package: &ArtifactPackage) -> (report: IntegrityReport)
    ensures
        views(report.reasons@) == integrity_reasons(*package),
        report.passed == (integrity_reasons(*package).len() == 0),
{
    let mut reasons: Vec<String> = Vec::new();
    if is_blank(package.candidate_id.as_str()) {
        push_reason(&mut reasons, owned("candidate_id is required"));
    }
    if is_blank(package.release_notes_ref.as_str()) {
        push_reason(&mut reasons, owned("release_notes_ref is required"));
    }
    if package.artifacts.len() == 0 {
        push_reason(&mut reasons, owned("artifact set cannot be empty"));
    }
    let ghost head = views(reasons@);
    assert(views(reasons@) =~= (if blank(package.candidate_id@) {
        seq!["candidate_id is required"@]
    } else {
        Seq::empty()
    }) + (if blank(package.release_notes_ref@) {
        seq!["release_notes_ref is required"@]
    } else {
        Seq::empty()
    }) + (if package.artifacts@.len() == 0 {
        seq!["artifact set cannot be empty"@]
    } else {
        Seq::empty()
    }));
    let arts = &package.artifacts;
    let mut i: usize = 0;
    assert(arts@.take(0) =~= Seq::<ArtifactEntry>::empty());
    while i < arts.len()
        invariant
            i <= arts.len(),
            arts == &package.artifacts,
            views(reasons@) == head + artifacts_reasons(arts@.take(i as int)),
        decreases arts.len() - i,
    {
        let e = &arts[i];
        let ghost before = views(reasons@);
        let ghost prev = arts@.take(i as int);
        if is_blank(e.path.as_str()) {
            push_reason(&mut reasons, owned("artifact path cannot be empty"));
        }
        if is_blank(e.checksum.as_str()) {
            push_reason(&mut reasons, concat("artifact checksum missing for ", e.path.as_str()));
        }
        let mut dup = false;
        let mut j: usize = 0;
        while j < i
            invariant
                j <= i < arts.len(),
                e == &arts@[i as int],
                prev == arts@.take(i as int),
                dup == exists|k: int| 0 <= k < j && (#[trigger] prev[k]).path@ == e.path@,
            decreases i - j,
        {
            if arts[j].path == e.path {
                dup = true;
            }
            assert(prev[j as int] == arts@[j as int]);
            j = j + 1;
        }
        if dup {
            push_reason(&mut reasons, concat("duplicate artifact path: ", e.path.as_str()));
        }
        proof {
            let t = arts@.take(i + 1);
            assert(t.drop_last() =~= prev);
            assert(t.last() == *e);
            assert(views(reasons@) =~= before + entry_reasons(prev, *e));
        }
        i = i + 1;
    }
    assert(arts@.take(arts.len() as int) =~= arts@);
    let passed = reasons.len() == 0;
    IntegrityReport { passed, reasons }
}

// ---------------------------------------------------------------------------
// Documentation sync
// ---------------------------------------------------------------------------

#[derive(Debug, Clone)]
pub struct DocsChecklist {
    pub required_items: Vec<String>,
    pub completed_items: Vec<String>,
}

#[derive(Debug, Clone)]
pub struct DocsSyncVerdict {
    pub passed: bool,
    pub missing_items: Vec<String>,
}

/// The required items that are not among the completed ones, in order.
pub open spec fn missing_items(required: Seq<Seq<char>>, completed: Seq<Seq<char>>) -> Seq<Seq<char>> {
    required.filter(|r: Seq<char>| !completed.contains(r))
}

fn contains_text_item(items: &Vec<String>, x: &String) -> (r: bool)
    ensures
        r == views(items@).contains(x@),
{
    let mut i: usize = 0;
    while i < items.len()
        invariant
            i <= items.len(),
            forall|k: int| 0 <= k < i ==> (#[trigger] items@[k])@ != x@,
        decreases items.len() - i,
    {
        if items[i] == *x {
            assert(views(items@)[i as int] == x@);
            return true;
        }
        i = i + 1;
    }
    assert forall|k: int| 0 <= k < views(items@).len() implies views(items@)[k] != x@ by {
        assert(views(items@)[k] == items@[k]@);
    }
    false
}

/// Lists the required documentation items that are not yet completed; the
/// check passes when none is missing.
pub fn evaluate_docs_sync(checklist: &DocsChecklist) -> (v: DocsSyncVerdict)
    ensures
        views(v.missing_items@) == missing_items(
            views(checklist.required_items@),
            views(checklist.completed_items@),
        ),
        v.passed == (v.missing_items@.len() == 0),
{
    let req = &checklist.required_items;
    let mut missing: Vec<String> = Vec::new();
    let ghost comp = views(checklist.completed_items@);
    let mut i: usize = 0;
    assert(views(req@).take(0) =~= Seq::<Seq<char>>::empty());
    while i < req.len()
        invariant
            i <= req.len(),
            req == &checklist.required_items,
            comp == views(checklist.completed_items@),
            views(missing@) == missing_items(views(req@).take(i as int), comp),
        decreases req.len() - i,
    {
        let ghost before = views(missing@);
        let item = &req[i];
        let done = contains_text_item(&checklist.completed_items, item);
        if !done {
            missing.push(item.clone());
        }
        proof {
            let t = views(req@).take(i + 1);
            assert(t.drop_last() =~= views(req@).take(i as int));
            assert(t.last() == item@);
            reveal_with_fuel(Seq::filter, 1);
            assert(missing_items(t, comp) =~= (if !comp.contains(item@) {
                missing_items(t.drop_last(), comp).push(item@)
            } else {
                missing_items(t.drop_last(), comp)
            }));
            assert(views(missing@) =~= before + (if !done {
                seq![item@]
            } else {
                Seq::empty()
            }));
        }
        i = i + 1;
    }
    assert(views(req@).take(req.len() as int) =~= views(req@));
    let passed = missing.len() == 0;
    DocsSyncVerdict { passed, missing_items: missing }
}

/// What one line of a checklist contributes: `Some((item, done))` for a
/// `- [x] item` or `- [ ] item` line (after trimming), `None` otherwise.
pub open spec fn checklist_line(line: Seq<char>) -> Option<(Seq<char>, bool)> {
    let t = trim(line);
    if starts_with(t, "- [x] "@) {
        Some((trim(t.skip(6)), true))
    } else if starts_with(t, "- [ ] "@) {
        Some((trim(t.skip(6)), false))
    } else {
        None
    }
}

/// The required items and the completed items of a checklist made of the
/// given lines, in line order.
pub open spec fn checklist_of(lines: Seq<Seq<char>>) -> (Seq<Seq<char>>, Seq<Seq<char>>)
    decreases lines.len(),
{
    if lines.len() == 0 {
        (Seq::empty(), Seq::empty())
    } else {
        let (req, done) = checklist_of(lines.drop_last());
        match checklist_line(lines.last()) {
            Some((item, true)) => (req.push(item), done.push(item)),
            Some((item, false)) => (req.push(item), done),
            None => (req, done),
        }
    }
}

/// Reads a markdown checklist: every `- [x] item` line is a required and
/// completed item, every `- [ ] item` line a required, open one.
pub fn parse_docs_checklist_markdown(content: &str) -> (c: DocsChecklist)
    ensures
        (views(c.required_items@), views(c.completed_items@)) == checklist_of(
            split_on(content@, '\n'),
        ),
{
    let lines = split_text(content, '\n');
    let ghost ls = split_on(content@, '\n');
    let mut required_items: Vec<String> = Vec::new();
    let mut completed_items: Vec<String> = Vec::new();
    let mut i: usize = 0;
    assert(ls.take(0) =~= Seq::<Seq<char>>::empty());
    while i < lines.len()
        invariant
            i <= lines.len(),
            lines@.len() == ls.len(),
            forall|k: int| 0 <= k < lines@.len() ==> (#[trigger] lines@[k])@ == ls[k],
            (views(required_items@), views(completed_items@)) == checklist_of(ls.take(i as int)),
        decreases lines.len() - i,
    {
        let line = trim_chars(&lines[i]);
        let ghost rq = views(required_items@);
        let ghost dn = views(completed_items@);
        assert(ls.take(i + 1).drop_last() =~= ls.take(i as int));
        assert(ls.take(i + 1).last() == lines@[i as int]@);
        proof {
            reveal_strlit("- [x] ");
            reveal_strlit("- [ ] ");
        }
        if chars_start_with(&line, "- [x] ") {
            let rest = chars_from(&line, 6);
            let item_chars = trim_chars(&rest);
            let item = string_of(&item_chars);
            let item2 = string_of(&item_chars);
            required_items.push(item);
            completed_items.push(item2);
            assert(views(required_items@) =~= rq.push(item_chars@));
            assert(views(completed_items@) =~= dn.push(item_chars@));
        } else if chars_start_with(&line, "- [ ] ") {
            let rest = chars_from(&line, 6);
            let item_chars = trim_chars(&rest);
            let item = string_of(&item_chars);
            required_items.push(item);
            assert(views(required_items@) =~= rq.push(item_chars@));
        }
        i = i + 1;
    }
    assert(ls.take(lines.len() as int) =~= ls);
    DocsChecklist { required_items, completed_items }
}

// ---------------------------------------------------------------------------
// Approvals and the release lifecycle
// ---------------------------------------------------------------------------

#[derive(Debug, Clone)]
pub struct ApprovalEvent {
    pub candidate_id: String,
    pub stage: String,
    pub approver: String,
    pub timestamp_utc: String,
}

/// Appends an event to the approval log; what was logged before is kept as
/// it was.
pub fn append_approval_event(log: &mut Vec<ApprovalEvent>, event: ApprovalEvent)
    ensures
        final(log)@ == old(log)@.push(event),
        final(log)@.len() == old(log)@.len() + 1,
        forall|i: int| 0 <= i < old(log)@.len() ==> final(log)@[i] == old(log)@[i],
{
    log.push(event);
}

#[derive(Debug, Clone)]
pub struct TransitionInputs {
    pub quality_gate_passed: bool,
    pub integrity_passed: bool,
    pub docs_sync_passed: bool,
    pub approval_count: usize,
    pub rollback_status: RollbackStatus,
}

/// Why a transition of the release lifecycle is refused, or `None` when it is
/// allowed.
pub open spec fn transition_error(
    from: ReleaseStatus,
    to: ReleaseStatus,
    inputs: TransitionInputs,
) -> Option<Seq<char>> {
    match (from, to) {
        (ReleaseStatus::Draft, ReleaseStatus::ReadyForApproval) => if !inputs.quality_gate_passed {
            Some("quality gate must pass before ReadyForApproval"@)
        } else if !inputs.integrity_passed {
            Some("artifact integrity must pass before ReadyForApproval"@)
        } else if !inputs.docs_sync_passed {
            Some("docs sync must pass before ReadyForApproval"@)
        } else {
            None
        },
        (ReleaseStatus::ReadyForApproval, ReleaseStatus::Approved) => if inputs.approval_count
            == 0 {
            Some("at least one explicit approval event is required"@)
        } else {
            None
        },
        (ReleaseStatus::Approved, ReleaseStatus::Published) => if !inputs.quality_gate_passed
            || !inputs.integrity_passed || !inputs.docs_sync_passed {
            Some("all gates must remain passing before publish"@)
        } else if inputs.rollback_status == RollbackStatus::Triggered || inputs.rollback_status
            == RollbackStatus::Completed {
            Some("cannot publish while rollback is active/completed"@)
        } else {
            None
        },
        (ReleaseStatus::Published, ReleaseStatus::RolledBack) => None,
        _ => Some(
            "invalid transition: "@ + release_status_name(from) + " -> "@ + release_status_name(to),
        ),
    }
}

/// Decides whether the release may move from `from` to `to`.
pub fn can_transition(from: ReleaseStatus, to: ReleaseStatus, inputs: &TransitionInputs) -> (r:
    Result<(), String>)
    ensures
        match r {
            Ok(()) => transition_error(from, to, *inputs) is None,
            Err(m) => transition_error(from, to, *inputs) == Some(m@),
        },
{
    match (from, to) {
        (ReleaseStatus::Draft, ReleaseStatus::ReadyForApproval) => {
            if !inputs.quality_gate_passed {
                return Err(owned("quality gate must pass before ReadyForApproval"));
            }
            if !inputs.integrity_passed {
                return Err(owned("artifact integrity must pass before ReadyForApproval"));
            }
            if !inputs.docs_sync_passed {
                return Err(owned("docs sync must pass before ReadyForApproval"));
            }
            Ok(())
        },
        (ReleaseStatus::ReadyForApproval, ReleaseStatus::Approved) => {
            if inputs.approval_count == 0 {
                return Err(owned("at least one explicit approval event is required"));
            }
            Ok(())
        },
        (ReleaseStatus::Approved, ReleaseStatus::Published) => {
            if !inputs.quality_gate_passed || !inputs.integrity_passed
                || !inputs.docs_sync_passed {
                return Err(owned("all gates must remain passing before publish"));
            }
            match inputs.rollback_status {
                RollbackStatus::Triggered | RollbackStatus::Completed => {
                    return Err(owned("cannot publish while rollback is active/completed"));
                },
                _ => {},
            }
            Ok(())
        },
        (ReleaseStatus::Published, ReleaseStatus::RolledBack) => Ok(()),
        _ => {
            let mut v = chars_of("invalid transition: ");
            extend_chars(&mut v, from.name());
            extend_chars(&mut v, " -> ");
            extend_chars(&mut v, to.name());
            Err(string_of(&v))
        },
    }
}

/// The release lifecycle is a single chain `Draft -> ReadyForApproval ->
/// Approved -> Published -> RolledBack`: no other step is ever allowed, and a
/// release reaches `Approved` only with an approval and `Published` only with
/// all gates passing and no rollback under way.
pub proof fn law_release_lifecycle(from: ReleaseStatus, to: ReleaseStatus, inputs: TransitionInputs)
    ensures
        transition_error(from, to, inputs) is None ==> {
            ||| (from == ReleaseStatus::Draft && to == ReleaseStatus::ReadyForApproval)
            ||| (from == ReleaseStatus::ReadyForApproval && to == ReleaseStatus::Approved)
            ||| (from == ReleaseStatus::Approved && to == ReleaseStatus::Published)
            ||| (from == ReleaseStatus::Published && to == ReleaseStatus::RolledBack)
        },
        transition_error(from, to, inputs) is None && to == ReleaseStatus::Approved
            ==> inputs.approval_count > 0,
        transition_error(from, to, inputs) is None && (to == ReleaseStatus::ReadyForApproval
            || to == ReleaseStatus::Published) ==> inputs.quality_gate_passed
            && inputs.integrity_passed && inputs.docs_sync_passed,
        transition_error(from, to, inputs) is None && to == ReleaseStatus::Published
            ==> inputs.rollback_status != RollbackStatus::Triggered && inputs.rollback_status
            != RollbackStatus::Completed,
{
}

// ---------------------------------------------------------------------------
// Summary
// ---------------------------------------------------------------------------

#[derive(Debug, Clone)]
pub struct ReleaseSummary {
    pub candidate_id: String,
    pub release_status: ReleaseStatus,
    pub quality_gate_passed: bool,
    pub integrity_passed: bool,
    pub docs_sync_passed: bool,
    pub approval_count: usize,
    pub rollback_status: RollbackStatus,
    pub rollback_owner: String,
    pub rollback_next_step: String,
}

/// `true` or `false`, as `bool` prints.
pub open spec fn bool_text(b: bool) -> Seq<char> {
    if b {
        "true"@
    } else {
        "false"@
    }
}

fn bool_str(b: bool) -> (s: &'static str)
    ensures
        s@ == bool_text(b),
{
    if b {
        "true"
    } else {
        "false"
    }
}

/// The markdown text of a release summary.
pub open spec fn summary_markdown(s: ReleaseSummary) -> Seq<char> {
    "# Release Summary\n\n- Candidate ID: "@ + s.candidate_id@ + "\n- Release Status: "@
        + release_status_name(s.release_status) + "\n- Quality Gate: "@ + bool_text(
        s.quality_gate_passed,
    ) + "\n- Integrity Gate: "@ + bool_text(s.integrity_passed) + "\n- Docs Sync Gate: "@
        + bool_text(s.docs_sync_passed) + "\n- Approval Events: "@ + dec(s.approval_count as nat)
        + "\n- Rollback Status: "@ + rollback_status_name(s.rollback_status)
        + "\n- Rollback Owner: "@ + s.rollback_owner@ + "\n- Rollback Next Step: "@
        + s.rollback_next_step@ + "\n"@
}

impl ReleaseSummary {
    pub fn to_markdown(&self) -> (m: String)
        ensures
            m@ == summary_markdown(*self),
    {
        let mut v = chars_of("# Release Summary\n\n- Candidate ID: ");
        extend_chars(&mut v, self.candidate_id.as_str());
        extend_chars(&mut v, "\n- Release Status: ");
        extend_chars(&mut v, self.release_status.name());
        extend_chars(&mut v, "\n- Quality Gate: ");
        extend_chars(&mut v, bool_str(self.quality_gate_passed));
        extend_chars(&mut v, "\n- Integrity Gate: ");
        extend_chars(&mut v, bool_str(self.integrity_passed));
        extend_chars(&mut v, "\n- Docs Sync Gate: ");
        extend_chars(&mut v, bool_str(self.docs_sync_passed));
        extend_chars(&mut v, "\n- Approval Events: ");
        let count = u64_text(self.approval_count as u64);
        extend_chars(&mut v, count.as_str());
        extend_chars(&mut v, "\n- Rollback Status: ");
        extend_chars(&mut v, self.rollback_status.name());
        extend_chars(&mut v, "\n- Rollback Owner: ");
        extend_chars(&mut v, self.rollback_owner.as_str());
        extend_chars(&mut v, "\n- Rollback Next Step: ");
        extend_chars(&mut v, self.rollback_next_step.as_str());
        extend_chars(&mut v, "\n");
        assert(v@ =~= summary_markdown(*self));
        string_of(&v)
    }
}

} // verus!

//! The workspace of one checkout as far as its rebase panel goes: what the panel holds, what
//! each control does, and what is asked of Git. Git itself is never run from here: what is to
//! be done is among the effects, and what came of it is handed in.

use vstd::prelude::*;
use vstd::string::*;

use crate::text;
use crate::workspace::command;
use crate::workspace::command::{
    RebaseCommand, RebaseCommandView, RebaseEditableInputIdentity, RebaseEditableInputIdentityView,
    RebaseEffectResult, RebaseEffectResultView, RewordEditor, RewordEditorView,
};
use crate::workspace::conflict;
use crate::workspace::conflict::{
    ConflictContextState, ConflictPresentation, ConflictPresentationView, ConflictSource,
};
use crate::workspace::git;
use crate::workspace::git::{
    ActiveOperationIdentity, ActiveOperationIdentityView, CommitEntry, CommitEntryView,
    CommitInventory, CommitInventoryView, ConflictFile, ConflictFileView, LocalSnapshot,
    LocalSnapshotView, PlanAction, PlanActionView, PlanStep, PlanStepView, PrepareOutcome,
    PrepareOutcomeView, RebaseOperationView, RebaseOperationViewView, RebasePlan,
    RebasePreparation, SnapshotGuard, SnapshotGuardView, StashRestoreState,
};
use crate::workspace::lifecycle;
use crate::workspace::lifecycle::{
    DispatchTicket, ObservationKind, ObservationTicket, OperationLifecycle, OperationLifecycleView,
};

verus! {

/// The most lines that were shown of each side at once.
#[derive(Clone, Copy, Debug, PartialEq, Eq, Structural)]
pub struct RenderBatches {
    pub base: usize,
    pub ours: usize,
    pub theirs: usize,
}

pub open spec fn no_batches() -> RenderBatches {
    RenderBatches { base: 0, ours: 0, theirs: 0 }
}

pub open spec fn batch_of(b: RenderBatches, source: ConflictSource) -> usize {
    match source {
        ConflictSource::Base => b.base,
        ConflictSource::Ours => b.ours,
        ConflictSource::Theirs => b.theirs,
    }
}

pub open spec fn with_batch(b: RenderBatches, source: ConflictSource, n: usize) -> RenderBatches {
    let most = if batch_of(b, source) < n {
        n
    } else {
        batch_of(b, source)
    };
    match source {
        ConflictSource::Base => RenderBatches { base: most, ..b },
        ConflictSource::Ours => RenderBatches { ours: most, ..b },
        ConflictSource::Theirs => RenderBatches { theirs: most, ..b },
    }
}

/// What becomes of a base that was entered: it is refused, or it is the base to resolve.
#[derive(Debug, PartialEq, Eq)]
pub enum BaseStep {
    Refuse { reason: String },
    Resolve { base: String },
}

#[verifier::ext_equal]
pub enum BaseStepView {
    Refuse { reason: Seq<char> },
    Resolve { base: Seq<char> },
}

impl View for BaseStep {
    type V = BaseStepView;

    open spec fn view(&self) -> BaseStepView {
        match self {
            BaseStep::Refuse { reason } => BaseStepView::Refuse { reason: reason@ },
            BaseStep::Resolve { base } => BaseStepView::Resolve { base: base@ },
        }
    }
}

/// What is asked of the world.
#[derive(Debug, PartialEq, Eq)]
pub enum WorkspaceEffect {
    ReportError { message: String },
    EmitError { message: String },
    RequestConfirmation { request_id: u64, summary: String },
    SnapshotChanged,
    PrepareRebase { ticket: ObservationTicket, base: BaseStep },
    ObserveRebase { ticket: ObservationTicket },
    RunRebase { ticket: DispatchTicket, command: RebaseCommand },
    ValidatePlan { inventory: CommitInventory, steps: Vec<PlanStep>, start: bool },
    FocusMessage,
}

#[verifier::ext_equal]
pub enum WorkspaceEffectView {
    ReportError { message: Seq<char> },
    EmitError { message: Seq<char> },
    RequestConfirmation { request_id: u64, summary: Seq<char> },
    SnapshotChanged,
    PrepareRebase { ticket: ObservationTicket, base: BaseStepView },
    ObserveRebase { ticket: ObservationTicket },
    RunRebase { ticket: DispatchTicket, command: RebaseCommandView },
    ValidatePlan { inventory: CommitInventoryView, steps: Seq<PlanStepView>, start: bool },
    FocusMessage,
}

impl View for WorkspaceEffect {
    type V = WorkspaceEffectView;

    open spec fn view(&self) -> WorkspaceEffectView {
        match self {
            WorkspaceEffect::ReportError { message } => WorkspaceEffectView::ReportError { message: message@ },
            WorkspaceEffect::EmitError { message } => WorkspaceEffectView::EmitError { message: message@ },
            WorkspaceEffect::RequestConfirmation { request_id, summary } => WorkspaceEffectView::RequestConfirmation { request_id: *request_id, summary: summary@ },
            WorkspaceEffect::SnapshotChanged => WorkspaceEffectView::SnapshotChanged,
            WorkspaceEffect::PrepareRebase { ticket, base } => WorkspaceEffectView::PrepareRebase { ticket: *ticket, base: base@ },
            WorkspaceEffect::ObserveRebase { ticket } => WorkspaceEffectView::ObserveRebase { ticket: *ticket },
            WorkspaceEffect::RunRebase { ticket, command } => WorkspaceEffectView::RunRebase { ticket: *ticket, command: command@ },
            WorkspaceEffect::ValidatePlan { inventory, steps, start } => WorkspaceEffectView::ValidatePlan { inventory: inventory@, steps: git::plan_step_views(steps@), start: *start },
            WorkspaceEffect::FocusMessage => WorkspaceEffectView::FocusMessage,
        }
    }
}

pub open spec fn workspace_effect_views(s: Seq<WorkspaceEffect>) -> Seq<WorkspaceEffectView> {
    s.map_values(|x: WorkspaceEffect| x@)
}

/// What the rebase panel holds. The two editors can be edited unless they are disabled.
pub struct RebasePanel {
    pub open: bool,
    pub base: String,
    pub message: String,
    pub editors_disabled: bool,
    pub operation: Option<RebaseOperationView>,
    pub preparation: Option<PrepareOutcome>,
    pub steps: Vec<PlanStep>,
    pub selected_step: Option<usize>,
    pub conflicts: Vec<ConflictFile>,
    pub conflict_view: Option<ConflictPresentation>,
    pub render_batches: RenderBatches,
    pub show_operation_details: bool,
    pub status: String,
}

#[verifier::ext_equal]
pub struct RebasePanelView {
    pub open: bool,
    pub base: Seq<char>,
    pub message: Seq<char>,
    pub editors_disabled: bool,
    pub operation: Option<RebaseOperationViewView>,
    pub preparation: Option<PrepareOutcomeView>,
    pub steps: Seq<PlanStepView>,
    pub selected_step: Option<usize>,
    pub conflicts: Seq<ConflictFileView>,
    pub conflict_view: Option<ConflictPresentationView>,
    pub render_batches: RenderBatches,
    pub show_operation_details: bool,
    pub status: Seq<char>,
}

impl View for RebasePanel {
    type V = RebasePanelView;

    open spec fn view(&self) -> RebasePanelView {
        RebasePanelView {
            open: self.open,
            base: self.base@,
            message: self.message@,
            editors_disabled: self.editors_disabled,
            operation: git::optional_rebase_operation_view(self.operation),
            preparation: git::optional_prepare_outcome(self.preparation),
            steps: git::plan_step_views(self.steps@),
            selected_step: self.selected_step,
            conflicts: git::conflict_file_views(self.conflicts@),
            conflict_view: conflict::optional_conflict_presentation(self.conflict_view),
            render_batches: self.render_batches,
            show_operation_details: self.show_operation_details,
            status: self.status@,
        }
    }
}

/// One checkout: its panel, what is going on in it, its state as it was read last, and whether
/// its Git is at hand.
pub struct LocalWorkspace {
    pub rebase: RebasePanel,
    pub operations: OperationLifecycle,
    pub snapshot: Option<LocalSnapshot>,
    pub ready: bool,
    pub status: String,
    pub effects: Vec<WorkspaceEffect>,
}

#[verifier::ext_equal]
pub struct LocalWorkspaceView {
    pub rebase: RebasePanelView,
    pub operations: OperationLifecycleView,
    pub snapshot: Option<LocalSnapshotView>,
    pub ready: bool,
    pub status: Seq<char>,
    pub effects: Seq<WorkspaceEffectView>,
}

impl View for LocalWorkspace {
    type V = LocalWorkspaceView;

    open spec fn view(&self) -> LocalWorkspaceView {
        LocalWorkspaceView {
            rebase: self.rebase@,
            operations: self.operations@,
            snapshot: git::optional_local_snapshot(self.snapshot),
            ready: self.ready,
            status: self.status@,
            effects: workspace_effect_views(self.effects@),
        }
    }
}

// ---------------------------------------------------------------------------
// Small transitions

pub open spec fn told(w: LocalWorkspaceView, status: Seq<char>) -> LocalWorkspaceView {
    LocalWorkspaceView { rebase: RebasePanelView { status, ..w.rebase }, ..w }
}

pub open spec fn asking(w: LocalWorkspaceView, effect: WorkspaceEffectView) -> LocalWorkspaceView {
    LocalWorkspaceView { effects: w.effects.push(effect), ..w }
}

pub open spec fn reported(w: LocalWorkspaceView, message: Seq<char>) -> LocalWorkspaceView {
    asking(w, WorkspaceEffectView::ReportError { message })
}

/// A pending confirmation, or an effect that runs, freezes the inputs.
pub open spec fn inputs_frozen(w: LocalWorkspaceView) -> bool {
    lifecycle::pending_rebase_of(w.operations) is Some || lifecycle::rebase_is_running(w.operations)
}

pub open spec fn frozen_notice(w: LocalWorkspaceView) -> Seq<char> {
    if lifecycle::pending_rebase_of(w.operations) is Some {
        "Confirmation inputs are frozen. Cancel the exact pending request before editing or preparing different inputs."@
    } else {
        "Rebase inputs remain frozen while the confirmed transition is running"@
    }
}

pub open spec fn conflict_frozen_notice(w: LocalWorkspaceView) -> Seq<char> {
    if lifecycle::pending_rebase_of(w.operations) is Some {
        "Conflict controls are frozen while the exact confirmation is visible; confirm or cancel it first"@
    } else {
        "Conflict controls are frozen while the rebase/local effect is running"@
    }
}

pub open spec fn inventory_of(p: RebasePanelView) -> Option<CommitInventoryView> {
    match p.preparation {
        Some(PrepareOutcomeView::Ready(r)) => Some(r.inventory),
        Some(PrepareOutcomeView::Dirty(d)) => Some(d.inventory),
        _ => None,
    }
}

/// A change of the plan has it validated, where there is an inventory to hold it against.
pub open spec fn validating(w: LocalWorkspaceView, start: bool) -> LocalWorkspaceView {
    match inventory_of(w.rebase) {
        None => w,
        Some(inventory) => asking(
            w,
            WorkspaceEffectView::ValidatePlan { inventory, steps: w.rebase.steps, start },
        ),
    }
}

pub open spec fn pick_steps_of(inventory: CommitInventoryView) -> Seq<PlanStepView> {
    Seq::new(
        inventory.commits.len(),
        |i: int|
            PlanStepView { commit_oid: inventory.commits[i].oid, action: PlanActionView::Pick },
    )
}

pub open spec fn commit_message_of(commits: Seq<CommitEntryView>, oid: Seq<char>) -> Option<
    Seq<char>,
>
    decreases commits.len(),
{
    if commits.len() == 0 {
        None
    } else if commits[0].oid == oid {
        Some(commits[0].message)
    } else {
        commit_message_of(commits.drop_first(), oid)
    }
}

proof fn lemma_commit_message(commits: Seq<CommitEntryView>, oid: Seq<char>, i: int)
    requires
        0 <= i <= commits.len(),
        forall|k: int| 0 <= k < i ==> (#[trigger] commits[k]).oid != oid,
        i < commits.len() ==> commits[i].oid == oid,
    ensures
        commit_message_of(commits, oid) == if i < commits.len() {
            Some(commits[i].message)
        } else {
            None
        },
    decreases commits.len(),
{
    if i > 0 {
        assert(commits[0].oid != oid);
        lemma_commit_message(commits.drop_first(), oid, i - 1);
    }
}

/// The message of the commit with this identifier.
pub fn commit_message(commits: &Vec<CommitEntry>, oid: &str) -> (r: Option<String>)
    ensures
        text::option_text(r) == commit_message_of(git::commit_entry_views(commits@), oid@),
{
    let ghost all = git::commit_entry_views(commits@);
    let mut i: usize = 0;
    while i < commits.len()
        invariant
            all == git::commit_entry_views(commits@),
            i <= commits@.len(),
            forall|k: int| 0 <= k < i ==> (#[trigger] all[k]).oid != oid@,
        decreases commits.len() - i,
    {
        if text::same_text(&commits[i].oid, oid) {
            proof {
                lemma_commit_message(all, oid@, i as int);
            }
            return Some(commits[i].message.clone());
        }
        i += 1;
    }
    proof {
        lemma_commit_message(all, oid@, i as int);
    }
    None
}

pub fn pick_steps(inventory: &CommitInventory) -> (r: Vec<PlanStep>)
    ensures
        git::plan_step_views(r@) == pick_steps_of(inventory@),
{
    let mut out: Vec<PlanStep> = Vec::new();
    let mut i: usize = 0;
    while i < inventory.commits.len()
        invariant
            i <= inventory.commits@.len(),
            out@.len() == i,
            forall|k: int|
                0 <= k < i ==> (#[trigger] out@[k])@ == (PlanStepView {
                    commit_oid: inventory.commits@[k].oid@,
                    action: PlanActionView::Pick,
                }),
        decreases inventory.commits.len() - i,
    {
        out.push(
            PlanStep { commit_oid: inventory.commits[i].oid.clone(), action: PlanAction::Pick },
        );
        i += 1;
    }
    proof {
        assert(git::plan_step_views(out@) =~= pick_steps_of(inventory@));
    }
    out
}

// ---------------------------------------------------------------------------
// Base candidates

pub open spec fn is_hex_char(c: char) -> bool {
    '0' <= c <= '9' || 'a' <= c <= 'f' || 'A' <= c <= 'F'
}

/// A base is named by `HEAD`, by a full reference name, or by a full commit identifier.
pub open spec fn base_is_unambiguous(candidate: Seq<char>) -> bool {
    candidate == "HEAD"@ || text::starts_with_text(candidate, "refs/"@) || (candidate.len() == 40
        && forall|i: int| 0 <= i < candidate.len() ==> is_hex_char(#[trigger] candidate[i]))
}

pub fn validate_base_candidate(candidate: &str) -> (r: Result<(), String>)
    ensures
        match r {
            Ok(_) => base_is_unambiguous(candidate@),
            Err(e) => !base_is_unambiguous(candidate@) && e@
                == "use HEAD, a full 40-hex commit OID, or a fully-qualified refs/* name"@,
        },
{
    if text::same_text(candidate, "HEAD") || text::starts_with(candidate, "refs/") {
        return Ok(());
    }
    let chars = text::chars_of(candidate);
    let mut hex: bool = chars.len() == 40;
    let mut i: usize = 0;
    while i < chars.len()
        invariant
            chars@ == candidate@,
            i <= chars@.len(),
            hex == (candidate@.len() == 40 && forall|k: int|
                0 <= k < i ==> is_hex_char(#[trigger] candidate@[k])),
        decreases chars.len() - i,
    {
        let c = chars[i];
        if !(('0' <= c && c <= '9') || ('a' <= c && c <= 'f') || ('A' <= c && c <= 'F')) {
            hex = false;
        }
        i += 1;
    }
    if hex {
        Ok(())
    } else {
        Err("use HEAD, a full 40-hex commit OID, or a fully-qualified refs/* name".to_owned())
    }
}

/// Only a base that is named without ambiguity is resolved.
pub open spec fn base_step_of(candidate: Seq<char>) -> BaseStepView {
    if base_is_unambiguous(candidate) {
        BaseStepView::Resolve { base: candidate }
    } else {
        BaseStepView::Refuse {
            reason: "use HEAD, a full 40-hex commit OID, or a fully-qualified refs/* name"@,
        }
    }
}

pub fn base_step(candidate: String) -> (r: BaseStep)
    ensures
        r@ == base_step_of(candidate@),
{
    match validate_base_candidate(&candidate) {
        Ok(_) => BaseStep::Resolve { base: candidate },
        Err(reason) => BaseStep::Refuse { reason },
    }
}

// ---------------------------------------------------------------------------
// Transitions: observation and preparation

pub open spec fn operation_set(
    p: RebasePanelView,
    operation: Option<RebaseOperationViewView>,
    conflicts: Seq<ConflictFileView>,
) -> RebasePanelView {
    RebasePanelView {
        show_operation_details: p.show_operation_details && operation_id_of(p.operation)
            == operation_id_of(operation),
        conflict_view: match p.conflict_view {
            None => None,
            Some(v) => Some(
                ConflictPresentationView {
                    state: conflict::observed_state(v, operation, conflicts),
                    ..v
                },
            ),
        },
        operation,
        conflicts,
        ..p
    }
}

pub open spec fn operation_id_of(operation: Option<RebaseOperationViewView>) -> Option<Seq<char>> {
    match operation {
        Some(o) => Some(o.operation_id),
        None => None,
    }
}

pub open spec fn observe_begun(w: LocalWorkspaceView) -> LocalWorkspaceView {
    if !w.ready || lifecycle::rebase_is_running(w.operations) || w.operations.checkout_epoch
        is None {
        w
    } else {
        asking(
            LocalWorkspaceView {
                operations: lifecycle::observing(w.operations, ObservationKind::Rebase),
                ..w
            },
            WorkspaceEffectView::ObserveRebase {
                ticket: lifecycle::observation_ticket(w.operations, ObservationKind::Rebase),
            },
        )
    }
}

pub open spec fn observe_settled(
    w: LocalWorkspaceView,
    ticket: ObservationTicket,
    result: Result<(Option<RebaseOperationView>, Vec<ConflictFile>), String>,
) -> LocalWorkspaceView {
    if !lifecycle::is_current(w.operations, ticket) {
        w
    } else {
        let done = LocalWorkspaceView {
            operations: lifecycle::observed(w.operations, ticket),
            ..w
        };
        match result {
            Ok((operation, conflicts)) => LocalWorkspaceView {
                rebase: operation_set(
                    w.rebase,
                    git::optional_rebase_operation_view(operation),
                    git::conflict_file_views(conflicts@),
                ),
                ..done
            },
            Err(e) => told(done, "Rebase observation failed: "@ + e@),
        }
    }
}

pub open spec fn toggled(w: LocalWorkspaceView) -> LocalWorkspaceView {
    if w.rebase.open && lifecycle::pending_rebase_of(w.operations) is Some {
        told(w, frozen_notice(w))
    } else {
        let flipped = LocalWorkspaceView {
            rebase: RebasePanelView { open: !w.rebase.open, ..w.rebase },
            ..w
        };
        if w.rebase.open {
            flipped
        } else {
            observe_begun(flipped)
        }
    }
}

pub open spec fn lane_blocker_of(w: LocalWorkspaceView) -> Option<Seq<char>> {
    if lifecycle::rebase_is_running(w.operations) {
        Some("A rebase effect is already running"@)
    } else if lifecycle::local_is_occupied(w.operations) {
        Some("A local Git action or its durable reconciliation is pending"@)
    } else if w.operations.observations_in_flight.pr_publish {
        Some("Wait for the fresh PR publication read to finish"@)
    } else {
        None
    }
}

/// Why nothing can be prepared now.
pub open spec fn prepare_fault(w: LocalWorkspaceView) -> Option<Seq<char>> {
    match lane_blocker_of(w) {
        Some(e) => Some(e),
        None => if lifecycle::pending_rebase_of(w.operations) is Some || w.rebase.operation is Some {
            Some("Close the current rebase request before preparing another"@)
        } else if text::trimmed(w.rebase.base).len() == 0 {
            Some("Choose a displayed immutable base candidate first"@)
        } else if !w.ready {
            Some("Local workspace is not ready"@)
        } else {
            None
        },
    }
}

pub open spec fn prepare_begun(w: LocalWorkspaceView) -> LocalWorkspaceView {
    match prepare_fault(w) {
        Some(e) => reported(w, e),
        None => if w.operations.checkout_epoch is None {
            w
        } else {
            let candidate = text::trimmed(w.rebase.base);
            asking(
                told(
                    LocalWorkspaceView {
                        operations: lifecycle::observing(w.operations, ObservationKind::Rebase),
                        ..w
                    },
                    "Resolving immutable base "@ + candidate + "…"@,
                ),
                WorkspaceEffectView::PrepareRebase {
                    ticket: lifecycle::observation_ticket(w.operations, ObservationKind::Rebase),
                    base: base_step_of(candidate),
                },
            )
        },
    }
}

pub open spec fn steps_for(outcome: PrepareOutcomeView) -> Seq<PlanStepView> {
    match outcome {
        PrepareOutcomeView::Ready(p) => pick_steps_of(p.inventory),
        PrepareOutcomeView::Dirty(p) => pick_steps_of(p.inventory),
        PrepareOutcomeView::ExternalWorkflow { .. } => Seq::empty(),
    }
}

pub open spec fn prepare_settled(
    w: LocalWorkspaceView,
    ticket: ObservationTicket,
    result: Result<(String, PrepareOutcome), String>,
) -> LocalWorkspaceView {
    if !lifecycle::is_current(w.operations, ticket) {
        w
    } else {
        let done = LocalWorkspaceView {
            operations: lifecycle::observed(w.operations, ticket),
            ..w
        };
        match result {
            Ok((oid, outcome)) => LocalWorkspaceView {
                rebase: RebasePanelView {
                    steps: steps_for(outcome@),
                    selected_step: if steps_for(outcome@).len() == 0 {
                        None
                    } else {
                        Some(0)
                    },
                    status: "Prepared immutable base "@ + oid@,
                    preparation: Some(outcome@),
                    ..w.rebase
                },
                ..done
            },
            Err(e) => reported(done, "Rebase preparation refused: "@ + e@),
        }
    }
}

// ---------------------------------------------------------------------------
// Transitions: the plan

/// A change of the inputs that happens unless they are frozen.
pub open spec fn unless_frozen(
    w: LocalWorkspaceView,
    after: LocalWorkspaceView,
) -> LocalWorkspaceView {
    if inputs_frozen(w) {
        told(w, frozen_notice(w))
    } else {
        after
    }
}

pub open spec fn base_set(w: LocalWorkspaceView, candidate: Seq<char>) -> LocalWorkspaceView {
    unless_frozen(
        w,
        LocalWorkspaceView {
            rebase: if w.rebase.preparation is Some {
                RebasePanelView {
                    base: candidate,
                    preparation: None,
                    steps: Seq::empty(),
                    selected_step: None,
                    status: "Base input changed; prepare a new immutable inventory before Start"@,
                    ..w.rebase
                }
            } else {
                RebasePanelView { base: candidate, ..w.rebase }
            },
            ..w
        },
    )
}

pub open spec fn base_candidate_selected(w: LocalWorkspaceView, oid: Seq<char>) -> LocalWorkspaceView {
    unless_frozen(
        w,
        LocalWorkspaceView {
            rebase: RebasePanelView {
                preparation: None,
                steps: Seq::empty(),
                status: "Immutable base candidate selected; Prepare performs the bounded inventory read"@,
                ..base_set(w, oid).rebase
            },
            ..w
        },
    )
}

pub open spec fn step_message(p: RebasePanelView, index: int) -> Seq<char> {
    match p.steps[index].action {
        PlanActionView::Reword { message } => message,
        _ => match inventory_of(p) {
            None => Seq::empty(),
            Some(inventory) => match commit_message_of(
                inventory.commits,
                p.steps[index].commit_oid,
            ) {
                Some(m) => m,
                None => Seq::empty(),
            },
        },
    }
}

pub open spec fn step_selected(w: LocalWorkspaceView, index: usize) -> LocalWorkspaceView {
    unless_frozen(
        w,
        if index >= w.rebase.steps.len() {
            w
        } else {
            asking(
                LocalWorkspaceView {
                    rebase: RebasePanelView {
                        message: step_message(w.rebase, index as int),
                        selected_step: Some(index),
                        ..w.rebase
                    },
                    ..w
                },
                WorkspaceEffectView::FocusMessage,
            )
        },
    )
}

/// The place of a step that is moved by `delta`, within the plan.
pub open spec fn moved_place(index: int, delta: int, len: int) -> int {
    let last = if len == 0 {
        0
    } else {
        len - 1
    };
    if index + delta < 0 {
        0
    } else if index + delta > last {
        last
    } else {
        index + delta
    }
}

pub open spec fn swapped<A>(s: Seq<A>, i: int, j: int) -> Seq<A> {
    s.update(i, s[j]).update(j, s[i])
}

pub open spec fn step_moved(w: LocalWorkspaceView, delta: isize) -> LocalWorkspaceView {
    unless_frozen(
        w,
        match w.rebase.selected_step {
            None => w,
            Some(index) => {
                let next = moved_place(index as int, delta as int, w.rebase.steps.len() as int);
                if next == index {
                    w
                } else {
                    validating(
                        LocalWorkspaceView {
                            rebase: RebasePanelView {
                                steps: swapped(w.rebase.steps, index as int, next),
                                selected_step: Some(next as usize),
                                ..w.rebase
                            },
                            ..w
                        },
                        false,
                    )
                }
            },
        },
    )
}

pub open spec fn with_selected(w: LocalWorkspaceView, index: usize) -> LocalWorkspaceView {
    LocalWorkspaceView {
        rebase: RebasePanelView { selected_step: Some(index), ..w.rebase },
        ..w
    }
}

pub open spec fn plan_step_moved(w: LocalWorkspaceView, index: usize, delta: isize) -> LocalWorkspaceView {
    unless_frozen(
        w,
        if index < w.rebase.steps.len() {
            step_moved(with_selected(w, index), delta)
        } else {
            w
        },
    )
}

pub open spec fn action_set(w: LocalWorkspaceView, action: PlanActionView) -> LocalWorkspaceView {
    unless_frozen(
        w,
        match w.rebase.selected_step {
            None => w,
            Some(index) => if index >= w.rebase.steps.len() {
                w
            } else {
                validating(
                    LocalWorkspaceView {
                        rebase: RebasePanelView {
                            steps: w.rebase.steps.update(
                                index as int,
                                PlanStepView { action, ..w.rebase.steps[index as int] },
                            ),
                            ..w.rebase
                        },
                        ..w
                    },
                    false,
                )
            },
        },
    )
}

pub open spec fn step_action_set(
    w: LocalWorkspaceView,
    index: usize,
    action: PlanActionView,
) -> LocalWorkspaceView {
    unless_frozen(
        w,
        if index < w.rebase.steps.len() {
            action_set(with_selected(w, index), action)
        } else {
            w
        },
    )
}

pub open spec fn preparation_cancelled(w: LocalWorkspaceView) -> LocalWorkspaceView {
    unless_frozen(
        w,
        LocalWorkspaceView {
            rebase: RebasePanelView {
                preparation: None,
                steps: Seq::empty(),
                selected_step: None,
                status: "Preparation cancelled; Git was not changed"@,
                ..w.rebase
            },
            ..w
        },
    )
}

pub open spec fn routed(w: LocalWorkspaceView, status: Seq<char>) -> LocalWorkspaceView {
    unless_frozen(
        w,
        LocalWorkspaceView { rebase: RebasePanelView { open: false, ..w.rebase }, status, ..w },
    )
}

// ---------------------------------------------------------------------------
// Transitions: commands

pub open spec fn reword_editor_of(p: RebasePanelView) -> Option<RewordEditorView> {
    match p.selected_step {
        None => None,
        Some(index) => if index < p.steps.len() && p.steps[index as int].action is Reword {
            Some(
                RewordEditorView { commit_oid: p.steps[index as int].commit_oid, message: p.message },
            )
        } else {
            None
        },
    }
}

/// The message that the first step with this commit gives it.
pub open spec fn applied_message_of(steps: Seq<PlanStepView>, oid: Seq<char>) -> Option<Seq<char>>
    decreases steps.len(),
{
    if steps.len() == 0 {
        None
    } else if steps[0].commit_oid == oid {
        match steps[0].action {
            PlanActionView::Reword { message } => Some(message),
            _ => None,
        }
    } else {
        applied_message_of(steps.drop_first(), oid)
    }
}

proof fn lemma_applied_message(steps: Seq<PlanStepView>, oid: Seq<char>, i: int)
    requires
        0 <= i <= steps.len(),
        forall|k: int| 0 <= k < i ==> (#[trigger] steps[k]).commit_oid != oid,
        i < steps.len() ==> steps[i].commit_oid == oid,
    ensures
        applied_message_of(steps, oid) == if i < steps.len() {
            match steps[i].action {
                PlanActionView::Reword { message } => Some(message),
                _ => None,
            }
        } else {
            None
        },
    decreases steps.len(),
{
    if i > 0 {
        assert(steps[0].commit_oid != oid);
        lemma_applied_message(steps.drop_first(), oid, i - 1);
    }
}

pub open spec fn amend_payload(message: Seq<char>) -> Option<Seq<char>> {
    if text::trimmed(message).len() == 0 {
        None
    } else {
        Some(message)
    }
}

/// The inputs that a command is made from, as they are displayed, or why they do not fit it.
pub open spec fn captured_inputs(p: RebasePanelView, command: RebaseCommandView) -> Result<
    RebaseEditableInputIdentityView,
    Seq<char>,
> {
    match command {
        RebaseCommandView::Start { preparation, plan } => match p.preparation {
            Some(PrepareOutcomeView::Ready(displayed)) => if displayed.inventory.base_oid
                != preparation.inventory.base_oid {
                Err("the displayed prepared base changed"@)
            } else if p.steps != plan.steps {
                Err("the displayed plan changed before it could be frozen"@)
            } else if reword_editor_of(p) is Some && applied_message_of(
                plan.steps,
                reword_editor_of(p)->0.commit_oid,
            ) != Some(reword_editor_of(p)->0.message) {
                Err(
                    "the selected Reword editor has unapplied text; apply Reword again before requesting confirmation"@,
                )
            } else {
                Ok(
                    RebaseEditableInputIdentityView::Start {
                        steps: p.steps,
                        prepared_base_oid: displayed.inventory.base_oid,
                        displayed_base: p.base,
                        reword_editor: reword_editor_of(p),
                    },
                )
            },
            _ => Err("the displayed preparation is no longer ready"@),
        },
        RebaseCommandView::Amend { message, .. } => if amend_payload(p.message) != message {
            Err("the displayed amend message no longer matches the request"@)
        } else {
            Ok(RebaseEditableInputIdentityView::AmendMessage(p.message))
        },
        RebaseCommandView::CommitSplitPart { message, .. } => if p.message != message {
            Err("the displayed split-part message no longer matches the request"@)
        } else {
            Ok(RebaseEditableInputIdentityView::SplitPartMessage(p.message))
        },
        _ => Ok(RebaseEditableInputIdentityView::NoInput),
    }
}

pub open spec fn workspace_guard_holds(w: LocalWorkspaceView, command: RebaseCommandView) -> bool {
    match command::command_guard_of(command) {
        None => true,
        Some(guard) => w.snapshot matches Some(s) && s.guard == guard,
    }
}

/// Why a command cannot be asked for now.
pub open spec fn request_fault(w: LocalWorkspaceView, command: RebaseCommandView) -> Option<
    Seq<char>,
> {
    match lane_blocker_of(w) {
        Some(e) => Some(e),
        None => if !w.ready {
            Some("Local workspace is not ready"@)
        } else if !workspace_guard_holds(w, command) {
            Some(
                "Rebase request paused: the affected Git snapshot changed; refresh and review again"@,
            )
        } else {
            match captured_inputs(w.rebase, command) {
                Err(reason) => Some(
                    "Rebase request paused: "@ + reason + ". Review the visible inputs again."@,
                ),
                Ok(_) => lifecycle::rebase_admission_fault(w.operations, command),
            }
        },
    }
}

pub open spec fn command_requested(w: LocalWorkspaceView, command: RebaseCommandView) -> LocalWorkspaceView {
    match request_fault(w, command) {
        Some(e) => reported(w, e),
        None => {
            let summary = command::command_summary_of(command);
            asking(
                LocalWorkspaceView {
                    rebase: RebasePanelView {
                        editors_disabled: true,
                        status: "Confirmation required: "@ + summary,
                        ..w.rebase
                    },
                    operations: lifecycle::rebase_admitted(
                        w.operations,
                        command,
                        captured_inputs(w.rebase, command)->Ok_0,
                    ),
                    ..w
                },
                WorkspaceEffectView::RequestConfirmation {
                    request_id: w.operations.next_request_id,
                    summary,
                },
            )
        },
    }
}

pub open spec fn confirmation_paused(w: LocalWorkspaceView, message: Seq<char>) -> LocalWorkspaceView {
    asking(told(w, message), WorkspaceEffectView::EmitError { message })
}

/// Why a confirmation is paused.
pub open spec fn confirmation_fault(w: LocalWorkspaceView, request_id: u64) -> Option<Seq<char>> {
    let pending = lifecycle::pending_rebase_of(w.operations)->0;
    match captured_inputs(w.rebase, pending.command) {
        Err(reason) => Some(
            "Rebase confirmation paused: "@ + reason
                + ". The exact pending request and its frozen inputs were retained; Cancel, edit/reprepare, and request a new confirmation."@,
        ),
        Ok(inputs) => lifecycle::rebase_confirmation_fault(w.operations, request_id, inputs),
    }
}

pub open spec fn action_confirmed(w: LocalWorkspaceView, request_id: u64) -> LocalWorkspaceView {
    match lifecycle::pending_rebase_of(w.operations) {
        None => reported(w, "There is no rebase action awaiting confirmation"@),
        Some(pending) => if pending.id != request_id {
            reported(w, "That rebase confirmation is stale"@)
        } else if !w.ready {
            w
        } else {
            match confirmation_fault(w, request_id) {
                Some(e) => confirmation_paused(w, e),
                None => asking(
                    LocalWorkspaceView {
                        rebase: RebasePanelView {
                            editors_disabled: true,
                            status: "Dispatching the exact confirmed local rebase transition…"@,
                            ..w.rebase
                        },
                        operations: lifecycle::rebase_confirmed(
                            w.operations,
                            request_id,
                            captured_inputs(w.rebase, pending.command)->Ok_0,
                        ),
                        ..w
                    },
                    WorkspaceEffectView::RunRebase {
                        ticket: lifecycle::dispatch_ticket(
                            w.operations,
                            lifecycle::FrozenIntentView::Rebase(pending),
                        ),
                        command: pending.command,
                    },
                ),
            }
        },
    }
}

/// What the panel holds after a transition that was carried out.
pub open spec fn effect_shown(p: RebasePanelView, effect: RebaseEffectResultView) -> RebasePanelView {
    if effect.retired {
        RebasePanelView {
            preparation: None,
            steps: Seq::empty(),
            ..operation_set(p, None, Seq::empty())
        }
    } else {
        let prepared = match effect.preparation {
            Some(preparation) => RebasePanelView {
                preparation: Some(PrepareOutcomeView::Ready(preparation)),
                ..p
            },
            None => p,
        };
        match effect.operation {
            Some(_) => operation_set(prepared, effect.operation, effect.conflicts),
            None => prepared,
        }
    }
}

pub open spec fn effect_status(message: Seq<char>, refresh_error: Option<Seq<char>>) -> Seq<char> {
    match refresh_error {
        Some(e) => message + " Authoritative worktree refresh failed: "@ + e,
        None => message,
    }
}

pub open spec fn stopped_status(error: Seq<char>, refresh_error: Option<Seq<char>>) -> Seq<char> {
    "Rebase transition stopped: "@ + error + "."@ + (match refresh_error {
        Some(e) => " Worktree refresh also failed: "@ + e + "."@,
        None => Seq::empty(),
    }) + " It will not be replayed automatically; observe actual Git state."@
}

pub open spec fn refresh_error_of(refresh: Result<LocalSnapshot, String>) -> Option<Seq<char>> {
    match refresh {
        Ok(_) => None,
        Err(e) => Some(e@),
    }
}

/// The workspace once a transition is over, before what came of it is shown.
pub open spec fn run_over(
    w: LocalWorkspaceView,
    refresh: Result<LocalSnapshot, String>,
) -> LocalWorkspaceView {
    LocalWorkspaceView {
        operations: match refresh {
            Ok(s) => lifecycle::recorded(
                lifecycle::settled(w.operations, lifecycle::PhaseView::Idle),
                s@,
            ),
            Err(_) => lifecycle::settled(
                w.operations,
                lifecycle::PhaseView::AwaitingAuthoritativeSnapshot,
            ),
        },
        snapshot: match refresh {
            Ok(s) => Some(s@),
            Err(_) => w.snapshot,
        },
        rebase: RebasePanelView { editors_disabled: false, ..w.rebase },
        ..w
    }
}

pub open spec fn run_settled(
    w: LocalWorkspaceView,
    ticket: DispatchTicket,
    effect: Result<RebaseEffectResult, String>,
    refresh: Result<LocalSnapshot, String>,
) -> LocalWorkspaceView {
    if !lifecycle::is_running(w.operations, ticket, lifecycle::Lane::Rebase) {
        w
    } else {
        let over = run_over(w, refresh);
        match effect {
            Ok(e) => asking(
                observe_begun(
                    LocalWorkspaceView {
                        rebase: RebasePanelView {
                            status: effect_status(e@.message, refresh_error_of(refresh)),
                            ..effect_shown(over.rebase, e@)
                        },
                        ..over
                    },
                ),
                WorkspaceEffectView::SnapshotChanged,
            ),
            Err(e) => {
                let status = stopped_status(e@, refresh_error_of(refresh));
                asking(
                    observe_begun(told(over, status)),
                    WorkspaceEffectView::EmitError { message: status },
                )
            },
        }
    }
}

pub open spec fn action_cancelled(w: LocalWorkspaceView, request_id: u64) -> LocalWorkspaceView {
    match lifecycle::pending_rebase_of(w.operations) {
        Some(pending) if pending.id == request_id => LocalWorkspaceView {
            operations: lifecycle::in_phase(
                lifecycle::advanced(w.operations),
                lifecycle::PhaseView::Idle,
            ),
            rebase: RebasePanelView {
                editors_disabled: false,
                status: "Rebase action cancelled; Git was not started"@,
                ..w.rebase
            },
            ..w
        },
        _ => reported(w, "That rebase cancellation is stale"@),
    }
}

pub open spec fn start_requested(w: LocalWorkspaceView) -> LocalWorkspaceView {
    unless_frozen(
        w,
        match w.rebase.preparation {
            Some(PrepareOutcomeView::Ready(_)) => validating(w, true),
            _ => reported(w, "Rebase is not ready to start"@),
        },
    )
}

pub open spec fn plan_settled(
    w: LocalWorkspaceView,
    result: Result<RebasePlan, String>,
    start: bool,
) -> LocalWorkspaceView {
    match result {
        Err(e) => told(w, "Plan invalid: "@ + e@),
        Ok(plan) => {
            let valid = told(w, "Plan valid · confirmation will freeze this exact order"@);
            match w.rebase.preparation {
                Some(PrepareOutcomeView::Ready(preparation)) if start => command_requested(
                    valid,
                    RebaseCommandView::Start { preparation, plan: plan@ },
                ),
                _ => valid,
            }
        },
    }
}

/// What identifies the rebase under way and the state of the checkout, where both are known.
pub open spec fn active_guard_of(w: LocalWorkspaceView) -> Option<
    (Seq<char>, ActiveOperationIdentityView, SnapshotGuardView),
> {
    match (w.rebase.operation, w.snapshot) {
        (Some(operation), Some(snapshot)) => match operation.active {
            Some(active) => Some((operation.operation_id, active, snapshot.guard)),
            None => None,
        },
        _ => None,
    }
}

pub open spec fn continue_requested(w: LocalWorkspaceView) -> LocalWorkspaceView {
    match active_guard_of(w) {
        None => w,
        Some((operation_id, active, guard)) => command_requested(
            w,
            RebaseCommandView::Continue { operation_id, active, guard },
        ),
    }
}

pub open spec fn skip_requested(w: LocalWorkspaceView) -> LocalWorkspaceView {
    match active_guard_of(w) {
        None => w,
        Some((operation_id, active, guard)) => command_requested(
            w,
            RebaseCommandView::Skip { operation_id, active, guard },
        ),
    }
}

pub open spec fn abort_requested(w: LocalWorkspaceView) -> LocalWorkspaceView {
    match active_guard_of(w) {
        None => w,
        Some((operation_id, active, guard)) => command_requested(
            w,
            RebaseCommandView::Abort { operation_id, active, guard },
        ),
    }
}

pub open spec fn split_begun_requested(w: LocalWorkspaceView) -> LocalWorkspaceView {
    match active_guard_of(w) {
        None => w,
        Some((operation_id, active, guard)) => command_requested(
            w,
            RebaseCommandView::BeginSplit { operation_id, active, guard },
        ),
    }
}

pub open spec fn split_finished_requested(w: LocalWorkspaceView) -> LocalWorkspaceView {
    match active_guard_of(w) {
        None => w,
        Some((operation_id, active, guard)) => command_requested(
            w,
            RebaseCommandView::FinishSplit { operation_id, active, guard },
        ),
    }
}

pub open spec fn amend_requested(w: LocalWorkspaceView) -> LocalWorkspaceView {
    match active_guard_of(w) {
        None => w,
        Some((operation_id, active, guard)) => command_requested(
            w,
            RebaseCommandView::Amend {
                operation_id,
                active,
                guard,
                message: amend_payload(w.rebase.message),
            },
        ),
    }
}

pub open spec fn split_part_requested(w: LocalWorkspaceView) -> LocalWorkspaceView {
    match active_guard_of(w) {
        None => w,
        Some((operation_id, active, guard)) => command_requested(
            w,
            RebaseCommandView::CommitSplitPart {
                operation_id,
                active,
                guard,
                message: w.rebase.message,
            },
        ),
    }
}

pub open spec fn stash_creation_requested(w: LocalWorkspaceView) -> LocalWorkspaceView {
    match w.rebase.preparation {
        Some(PrepareOutcomeView::Dirty(dirty)) => command_requested(
            w,
            RebaseCommandView::CreateStash(dirty),
        ),
        _ => w,
    }
}

pub open spec fn stash_restore_requested(w: LocalWorkspaceView) -> LocalWorkspaceView {
    match (w.rebase.operation, w.snapshot) {
        (Some(operation), Some(snapshot)) => command_requested(
            w,
            RebaseCommandView::RestoreStash {
                operation_id: operation.operation_id,
                guard: snapshot.guard,
            },
        ),
        _ => w,
    }
}

pub open spec fn stash_restore_finish_requested(w: LocalWorkspaceView) -> LocalWorkspaceView {
    match (w.rebase.operation, w.snapshot) {
        (Some(operation), Some(snapshot)) => command_requested(
            w,
            RebaseCommandView::FinishStashRestore {
                operation_id: operation.operation_id,
                guard: snapshot.guard,
            },
        ),
        _ => w,
    }
}

pub open spec fn retire_requested(w: LocalWorkspaceView) -> LocalWorkspaceView {
    match w.rebase.operation {
        None => w,
        Some(operation) => command_requested(
            w,
            RebaseCommandView::Retire { operation_id: operation.operation_id },
        ),
    }
}

// ---------------------------------------------------------------------------
// Transitions: conflicts

/// A use of the conflict controls that has its effect unless they are frozen.
pub open spec fn unless_conflict_frozen(
    w: LocalWorkspaceView,
    after: LocalWorkspaceView,
) -> LocalWorkspaceView {
    if inputs_frozen(w) {
        told(w, conflict_frozen_notice(w))
    } else {
        after
    }
}

pub open spec fn conflict_opened(w: LocalWorkspaceView, index: usize) -> LocalWorkspaceView {
    unless_conflict_frozen(
        w,
        if index >= w.rebase.conflicts.len() || w.rebase.operation is None {
            w
        } else {
            let file = w.rebase.conflicts[index as int];
            match conflict::presented(w.rebase.operation->0, file) {
                None => told(
                    w,
                    "Conflict sources are unavailable because the exact operation identity is missing"@,
                ),
                Some(view) => LocalWorkspaceView {
                    rebase: RebasePanelView {
                        conflict_view: Some(view),
                        render_batches: no_batches(),
                        status: "Showing immutable sources for "@ + file.path.display
                            + ". Resolve the result in your own editor, refresh, then stage explicitly"@,
                        ..w.rebase
                    },
                    ..w
                },
            }
        },
    )
}

pub open spec fn conflict_closed(w: LocalWorkspaceView) -> LocalWorkspaceView {
    unless_conflict_frozen(
        w,
        LocalWorkspaceView {
            rebase: RebasePanelView {
                conflict_view: None,
                status: "Closed the source presentation; the file on disk was not changed"@,
                ..w.rebase
            },
            ..w
        },
    )
}

/// The presentation, where there is one, after a change to it.
pub open spec fn presentation_changed(
    w: LocalWorkspaceView,
    view: ConflictPresentationView,
) -> LocalWorkspaceView {
    LocalWorkspaceView { rebase: RebasePanelView { conflict_view: Some(view), ..w.rebase }, ..w }
}

pub open spec fn source_selected(w: LocalWorkspaceView, source: ConflictSource) -> LocalWorkspaceView {
    unless_conflict_frozen(
        w,
        match w.rebase.conflict_view {
            None => w,
            Some(v) => presentation_changed(
                w,
                ConflictPresentationView { selected: source, ..v },
            ),
        },
    )
}

pub open spec fn source_moved(w: LocalWorkspaceView, delta: isize) -> LocalWorkspaceView {
    unless_conflict_frozen(
        w,
        match w.rebase.conflict_view {
            None => w,
            Some(v) => presentation_changed(
                w,
                ConflictPresentationView {
                    selected: conflict::moved_by(v.selected, delta as int),
                    ..v
                },
            ),
        },
    )
}

pub open spec fn details_toggled(w: LocalWorkspaceView) -> LocalWorkspaceView {
    unless_conflict_frozen(
        w,
        match w.rebase.conflict_view {
            None => w,
            Some(v) => presentation_changed(
                w,
                ConflictPresentationView { show_details: !v.show_details, ..v },
            ),
        },
    )
}

pub open spec fn sources_refreshed(w: LocalWorkspaceView) -> LocalWorkspaceView {
    unless_conflict_frozen(
        w,
        match (w.rebase.conflict_view, w.rebase.operation) {
            (None, _) => w,
            (Some(_), None) => told(
                w,
                "The original operation is no longer available; source context was not changed"@,
            ),
            (Some(v), Some(operation)) => match conflict::conflict_at(
                w.rebase.conflicts,
                v.conflict.path.raw,
            ) {
                None => told(
                    w,
                    "Git no longer reports this path as unmerged; source context was not changed"@,
                ),
                Some(i) => if conflict::may_refresh(v, operation, w.rebase.conflicts[i]) {
                    LocalWorkspaceView {
                        rebase: RebasePanelView {
                            conflict_view: Some(
                                conflict::refreshed(v, operation, w.rebase.conflicts[i]),
                            ),
                            render_batches: no_batches(),
                            status: "Refreshed immutable source stages; the file on disk was not changed"@,
                            ..w.rebase
                        },
                        ..w
                    }
                } else {
                    told(
                        w,
                        "The operation identity changed; this presentation cannot attach to the new operation"@,
                    )
                },
            },
        },
    )
}

pub open spec fn staging_requested(w: LocalWorkspaceView, index: int) -> LocalWorkspaceView {
    if index >= w.rebase.conflicts.len() || w.rebase.operation is None || w.snapshot is None {
        w
    } else {
        let operation = w.rebase.operation->0;
        let stash_restore = operation.stash_restore is Conflicted;
        command_requested(
            w,
            RebaseCommandView::StageConflict {
                operation_id: operation.operation_id,
                active: if stash_restore {
                    None
                } else {
                    operation.active
                },
                expected: w.rebase.conflicts[index],
                guard: w.snapshot->0.guard,
                stash_restore,
            },
        )
    }
}

/// The first conflict that is exactly this one.
pub open spec fn conflict_position(conflicts: Seq<ConflictFileView>, file: ConflictFileView) -> Option<
    int,
>
    decreases conflicts.len(),
{
    if conflicts.len() == 0 {
        None
    } else if conflicts[0] == file {
        Some(0)
    } else {
        match conflict_position(conflicts.drop_first(), file) {
            Some(i) => Some(i + 1),
            None => None,
        }
    }
}

proof fn lemma_conflict_position(conflicts: Seq<ConflictFileView>, file: ConflictFileView, i: int)
    requires
        0 <= i <= conflicts.len(),
        forall|k: int| 0 <= k < i ==> (#[trigger] conflicts[k]) != file,
        i < conflicts.len() ==> conflicts[i] == file,
    ensures
        conflict_position(conflicts, file) == if i < conflicts.len() {
            Some(i)
        } else {
            None
        },
    decreases conflicts.len(),
{
    if i > 0 {
        assert(conflicts[0] != file);
        lemma_conflict_position(conflicts.drop_first(), file, i - 1);
    }
}

pub open spec fn presented_staging_requested(w: LocalWorkspaceView) -> LocalWorkspaceView {
    unless_conflict_frozen(
        w,
        match w.rebase.conflict_view {
            None => w,
            Some(v) => match conflict::explanation_of(v.state) {
                Some(explanation) => told(w, explanation),
                None => match conflict_position(w.rebase.conflicts, v.conflict) {
                    None => told(
                        w,
                        "The exact source stages are no longer current; refresh before staging"@,
                    ),
                    Some(i) => staging_requested(w, i),
                },
            },
        },
    )
}

// ---------------------------------------------------------------------------
// Transitions: keys

pub open spec fn key_delta(key: Seq<char>, back: Seq<char>, on: Seq<char>) -> Option<isize> {
    if key == back {
        Some(-1isize)
    } else if key == on {
        Some(1isize)
    } else {
        None
    }
}

/// What a key does in the panel: nothing, or a move of the sources or of the plan.
pub open spec fn key_handled(w: LocalWorkspaceView, platform: bool, key: Seq<char>) -> Option<
    LocalWorkspaceView,
> {
    if !w.rebase.open || !platform {
        None
    } else if w.rebase.conflict_view is Some {
        match key_delta(key, "left"@, "right"@) {
            None => None,
            Some(delta) => Some(source_moved(w, delta)),
        }
    } else {
        match key_delta(key, "up"@, "down"@) {
            None => None,
            Some(delta) => Some(step_moved(w, delta)),
        }
    }
}

/// Whether a move has a step to exchange: the selected step is in the plan, or it stays where it
/// is, as the first place of an empty plan does.
pub open spec fn step_can_move(w: LocalWorkspaceView) -> bool {
    w.rebase.selected_step matches Some(i) ==> i < w.rebase.steps.len() || i == 0
}

/// Whether a key moves a step of the plan.
pub open spec fn key_moves_a_step(w: LocalWorkspaceView, platform: bool, key: Seq<char>) -> bool {
    &&& w.rebase.open
    &&& platform
    &&& w.rebase.conflict_view is None
    &&& key_delta(key, "up"@, "down"@) is Some
    &&& !inputs_frozen(w)
}

/// Whether a key can be handled: only a key that moves a step asks anything of the selection.
pub open spec fn takes_key_in(w: LocalWorkspaceView, platform: bool, key: Seq<char>) -> bool {
    key_moves_a_step(w, platform, key) ==> step_can_move(w)
}

// ---------------------------------------------------------------------------
// The panel

/// The panel before anything was entered or read.
pub open spec fn fresh_panel() -> RebasePanelView {
    RebasePanelView {
        open: false,
        base: Seq::empty(),
        message: Seq::empty(),
        editors_disabled: false,
        operation: None,
        preparation: None,
        steps: Seq::empty(),
        selected_step: None,
        conflicts: Seq::empty(),
        conflict_view: None,
        render_batches: no_batches(),
        show_operation_details: false,
        status: "Choose an immutable local base candidate"@,
    }
}

impl RebasePanel {
    pub fn new() -> (r: Self)
        ensures
            r@ == fresh_panel(),
    {
        let r = RebasePanel {
            open: false,
            base: String::new(),
            message: String::new(),
            editors_disabled: false,
            operation: None,
            preparation: None,
            steps: Vec::new(),
            selected_step: None,
            conflicts: Vec::new(),
            conflict_view: None,
            render_batches: RenderBatches { base: 0, ours: 0, theirs: 0 },
            show_operation_details: false,
            status: "Choose an immutable local base candidate".to_owned(),
        };
        proof {
            assert(r@.steps =~= Seq::<PlanStepView>::empty());
            assert(r@.conflicts =~= Seq::<ConflictFileView>::empty());
        }
        r
    }

    /// Takes on a rebase that was found under way.
    pub fn install_observed(&mut self, operation: Option<RebaseOperationView>)
        ensures
            final(self)@ == (match operation {
                Some(o) => RebasePanelView {
                    operation: Some(o@),
                    open: true,
                    status: "Recovered the durable rebase lifecycle; observing actual Git state"@,
                    ..old(self)@
                },
                None => RebasePanelView { operation: None, ..old(self)@ },
            }),
    {
        let found: bool = operation.is_some();
        self.operation = operation;
        if found {
            self.open = true;
            self.status = "Recovered the durable rebase lifecycle; observing actual Git state".to_owned();
        }
    }

    fn set_operation(&mut self, operation: Option<RebaseOperationView>, conflicts: Vec<ConflictFile>)
        ensures
            final(self)@ == operation_set(
                old(self)@,
                git::optional_rebase_operation_view(operation),
                git::conflict_file_views(conflicts@),
            ),
    {
        let same: bool = match (&self.operation, &operation) {
            (Some(a), Some(b)) => text::same_text(&a.operation_id, &b.operation_id),
            (None, None) => true,
            _ => false,
        };
        if !same {
            self.show_operation_details = false;
        }
        let mut shown = self.conflict_view.take();
        if let Some(mut view) = shown {
            view.observe(&operation, &conflicts);
            shown = Some(view);
        }
        self.conflict_view = shown;
        self.operation = operation;
        self.conflicts = conflicts;
        proof {
            assert(self@ =~= operation_set(
                old(self)@,
                git::optional_rebase_operation_view(operation),
                git::conflict_file_views(conflicts@),
            ));
        }
    }

    fn inventory(&self) -> (r: Option<&CommitInventory>)
        ensures
            match r {
                Some(i) => inventory_of(self@) == Some(i@),
                None => inventory_of(self@) is None,
            },
    {
        match &self.preparation {
            Some(PrepareOutcome::Ready(p)) => Some(&p.inventory),
            Some(PrepareOutcome::Dirty(p)) => Some(&p.inventory),
            _ => None,
        }
    }

    fn selected_reword_editor(&self) -> (r: Option<RewordEditor>)
        ensures
            command::optional_reword_editor(r) == reword_editor_of(self@),
    {
        match self.selected_step {
            None => None,
            Some(index) => {
                if index >= self.steps.len() {
                    return None;
                }
                let step = &self.steps[index];
                match &step.action {
                    PlanAction::Reword { .. } => Some(
                        RewordEditor {
                            commit_oid: step.commit_oid.clone(),
                            message: self.message.clone(),
                        },
                    ),
                    _ => None,
                }
            },
        }
    }

    /// The inputs that a command is made from, as they are displayed.
    pub fn capture_rebase_editable_inputs(&self, command: &RebaseCommand) -> (r: Result<
        RebaseEditableInputIdentity,
        String,
    >)
        ensures
            match r {
                Ok(inputs) => captured_inputs(self@, command@) == Ok::<
                    RebaseEditableInputIdentityView,
                    Seq<char>,
                >(inputs@),
                Err(e) => captured_inputs(self@, command@) == Err::<
                    RebaseEditableInputIdentityView,
                    Seq<char>,
                >(e@),
            },
    {
        match command {
            RebaseCommand::Start { preparation, plan } => self.capture_start(preparation, plan),
            RebaseCommand::Amend { message, .. } => {
                let blank: bool = text::trim(&self.message).as_str().is_empty();
                let matching: bool = match message {
                    Some(m) => !blank && text::same_text(m, &self.message),
                    None => blank,
                };
                if !matching {
                    return Err(
                        "the displayed amend message no longer matches the request".to_owned(),
                    );
                }
                Ok(RebaseEditableInputIdentity::AmendMessage(self.message.clone()))
            },
            RebaseCommand::CommitSplitPart { message, .. } => {
                if !text::same_text(&self.message, message) {
                    return Err(
                        "the displayed split-part message no longer matches the request".to_owned(),
                    );
                }
                Ok(RebaseEditableInputIdentity::SplitPartMessage(self.message.clone()))
            },
            _ => Ok(RebaseEditableInputIdentity::NoInput),
        }
    }

    fn capture_start(&self, preparation: &RebasePreparation, plan: &RebasePlan) -> (r: Result<
        RebaseEditableInputIdentity,
        String,
    >)
        ensures
            ({
                let command = RebaseCommandView::Start { preparation: preparation@, plan: plan@ };
                match r {
                    Ok(inputs) => captured_inputs(self@, command) == Ok::<
                        RebaseEditableInputIdentityView,
                        Seq<char>,
                    >(inputs@),
                    Err(e) => captured_inputs(self@, command) == Err::<
                        RebaseEditableInputIdentityView,
                        Seq<char>,
                    >(e@),
                }
            }),
    {
        let displayed = match &self.preparation {
            Some(PrepareOutcome::Ready(displayed)) => displayed,
            _ => {
                return Err("the displayed preparation is no longer ready".to_owned());
            },
        };
        if !text::same_text(&displayed.inventory.base_oid, &preparation.inventory.base_oid) {
            return Err("the displayed prepared base changed".to_owned());
        }
        if !git::same_plan_steps(&self.steps, &plan.steps) {
            return Err("the displayed plan changed before it could be frozen".to_owned());
        }
        let reword_editor = self.selected_reword_editor();
        if let Some(editor) = &reword_editor {
            if !message_is_applied(&plan.steps, &editor.commit_oid, &editor.message) {
                return Err(
                    "the selected Reword editor has unapplied text; apply Reword again before requesting confirmation".to_owned(),
                );
            }
        }
        Ok(
            RebaseEditableInputIdentity::Start {
                steps: git::clone_plan_steps(&self.steps),
                prepared_base_oid: displayed.inventory.base_oid.clone(),
                displayed_base: self.base.clone(),
                reword_editor,
            },
        )
    }
}

fn message_is_applied(steps: &Vec<PlanStep>, oid: &str, expected: &str) -> (r: bool)
    ensures
        r == (applied_message_of(git::plan_step_views(steps@), oid@) == Some(expected@)),
{
    let ghost all = git::plan_step_views(steps@);
    let mut i: usize = 0;
    while i < steps.len()
        invariant
            all == git::plan_step_views(steps@),
            i <= steps@.len(),
            forall|k: int| 0 <= k < i ==> (#[trigger] all[k]).commit_oid != oid@,
        decreases steps.len() - i,
    {
        if text::same_text(&steps[i].commit_oid, oid) {
            proof {
                lemma_applied_message(all, oid@, i as int);
            }
            return match &steps[i].action {
                PlanAction::Reword { message } => text::same_text(message, expected),
                _ => false,
            };
        }
        i += 1;
    }
    proof {
        lemma_applied_message(all, oid@, i as int);
    }
    false
}

fn find_exact_conflict(conflicts: &Vec<ConflictFile>, file: &ConflictFile) -> (r: Option<usize>)
    ensures
        match r {
            Some(i) => i < conflicts@.len() && conflict_position(
                git::conflict_file_views(conflicts@),
                file@,
            ) == Some(i as int),
            None => conflict_position(git::conflict_file_views(conflicts@), file@) is None,
        },
{
    let ghost all = git::conflict_file_views(conflicts@);
    let mut i: usize = 0;
    while i < conflicts.len()
        invariant
            all == git::conflict_file_views(conflicts@),
            i <= conflicts@.len(),
            forall|k: int| 0 <= k < i ==> (#[trigger] all[k]) != file@,
        decreases conflicts.len() - i,
    {
        if conflicts[i].same(file) {
            proof {
                lemma_conflict_position(all, file@, i as int);
            }
            return Some(i);
        }
        i += 1;
    }
    proof {
        lemma_conflict_position(all, file@, i as int);
    }
    None
}

fn place_after(index: usize, delta: isize, len: usize) -> (r: usize)
    ensures
        r == moved_place(index as int, delta as int, len as int),
{
    let last: i128 = if len == 0 {
        0
    } else {
        len as i128 - 1
    };
    let wanted: i128 = index as i128 + delta as i128;
    if wanted < 0 {
        0
    } else if wanted > last {
        last as usize
    } else {
        wanted as usize
    }
}

// ---------------------------------------------------------------------------
// The workspace

impl LocalWorkspace {
    pub fn new(operations: OperationLifecycle, snapshot: Option<LocalSnapshot>, ready: bool) -> (r:
        Self)
        ensures
            r@ == (LocalWorkspaceView {
                rebase: fresh_panel(),
                operations: operations@,
                snapshot: git::optional_local_snapshot(snapshot),
                ready,
                status: Seq::empty(),
                effects: Seq::empty(),
            }),
    {
        let r = LocalWorkspace {
            rebase: RebasePanel::new(),
            operations,
            snapshot,
            ready,
            status: String::new(),
            effects: Vec::new(),
        };
        proof {
            assert(r@.status =~= Seq::<char>::empty());
            assert(r@.effects =~= Seq::<WorkspaceEffectView>::empty());
        }
        r
    }

    fn ask(&mut self, effect: WorkspaceEffect)
        ensures
            final(self)@ == asking(old(self)@, effect@),
    {
        self.effects.push(effect);
        proof {
            assert(self@.effects =~= old(self)@.effects.push(effect@));
            assert(self@ =~= asking(old(self)@, effect@));
        }
    }

    fn say(&mut self, status: &str)
        ensures
            final(self)@ == told(old(self)@, status@),
    {
        self.rebase.status = status.to_owned();
        proof {
            assert(self@ =~= told(old(self)@, status@));
        }
    }

    fn report_error(&mut self, message: &str)
        ensures
            final(self)@ == reported(old(self)@, message@),
    {
        self.ask(WorkspaceEffect::ReportError { message: message.to_owned() });
    }

    /// Hands the effects to the caller.
    pub fn take_effects(&mut self) -> (r: Vec<WorkspaceEffect>)
        ensures
            workspace_effect_views(r@) == old(self)@.effects,
            final(self)@ == (LocalWorkspaceView { effects: Seq::empty(), ..old(self)@ }),
    {
        let mut effects: Vec<WorkspaceEffect> = Vec::new();
        std::mem::swap(&mut effects, &mut self.effects);
        proof {
            assert(self@.effects =~= Seq::<WorkspaceEffectView>::empty());
            assert(self@ =~= (LocalWorkspaceView { effects: Seq::empty(), ..old(self)@ }));
        }
        effects
    }

    // --- What is read of the panel

    pub fn rebase_is_open(&self) -> (r: bool)
        ensures
            r == self@.rebase.open,
    {
        self.rebase.open
    }

    pub fn rebase_operation(&self) -> (r: &Option<RebaseOperationView>)
        ensures
            git::optional_rebase_operation_view(*r) == self@.rebase.operation,
    {
        &self.rebase.operation
    }

    pub fn rebase_status_message(&self) -> (r: &str)
        ensures
            r@ == self@.rebase.status,
    {
        &self.rebase.status
    }

    pub fn rebase_pending_action_id(&self) -> (r: Option<u64>)
        ensures
            match r {
                Some(id) => lifecycle::pending_rebase_of(self@.operations) matches Some(p) && p.id
                    == id,
                None => lifecycle::pending_rebase_of(self@.operations) is None,
            },
    {
        match self.operations.pending_rebase() {
            Some(pending) => Some(pending.id),
            None => None,
        }
    }

    pub fn rebase_plan_len(&self) -> (r: usize)
        ensures
            r == self@.rebase.steps.len(),
    {
        self.rebase.steps.len()
    }

    pub fn rebase_plan_action(&self, index: usize) -> (r: Option<PlanAction>)
        ensures
            match r {
                Some(action) => index < self@.rebase.steps.len() && action@
                    == self@.rebase.steps[index as int].action,
                None => index >= self@.rebase.steps.len(),
            },
    {
        if index < self.rebase.steps.len() {
            Some(self.rebase.steps[index].action.clone())
        } else {
            None
        }
    }

    pub fn rebase_conflict_count(&self) -> (r: usize)
        ensures
            r == self@.rebase.conflicts.len(),
    {
        self.rebase.conflicts.len()
    }

    /// For each side its number of lines, the most lines shown at once, and whether it is
    /// scrolled to its end, which the caller sees.
    pub fn rebase_conflict_virtualization_probe(&self, at_end: [bool; 3]) -> (r: Option<
        [(usize, usize, bool); 3],
    >)
        ensures
            match r {
                None => self@.rebase.conflict_view is None,
                Some(sides) => self@.rebase.conflict_view matches Some(v) && forall|i: int|
                    0 <= i < 3 ==> (#[trigger] sides@[i]).0 == conflict::counted_lines(
                        conflict::source_text_of(
                            conflict::stage_of(v, conflict::source_with_index(i)),
                        ),
                    ) && sides@[i].1 == batch_of(
                        self@.rebase.render_batches,
                        conflict::source_with_index(i),
                    ) && sides@[i].2 == at_end@[i],
            },
    {
        match &self.rebase.conflict_view {
            None => None,
            Some(view) => {
                let batches = self.rebase.render_batches;
                Some(
                    [
                        (view.lines(ConflictSource::Base).count(), batches.base, at_end[0]),
                        (view.lines(ConflictSource::Ours).count(), batches.ours, at_end[1]),
                        (view.lines(ConflictSource::Theirs).count(), batches.theirs, at_end[2]),
                    ],
                )
            },
        }
    }

    /// The lines of one side in a range, as they are shown.
    pub fn conflict_rows(&mut self, source: ConflictSource, from: usize, to: usize) -> (r: Vec<
        String,
    >)
        ensures
            match old(self)@.rebase.conflict_view {
                None => r@.len() == 0 && final(self)@ == old(self)@,
                Some(v) => text::texts(r@) == conflict::shown_rows(
                    conflict::source_text_of(conflict::stage_of(v, source)),
                    from as int,
                    to as int,
                ) && final(self)@ == (LocalWorkspaceView {
                    rebase: RebasePanelView {
                        render_batches: with_batch(
                            old(self)@.rebase.render_batches,
                            source,
                            if from <= to {
                                (to - from) as usize
                            } else {
                                0
                            },
                        ),
                        ..old(self)@.rebase
                    },
                    ..old(self)@
                }),
            },
    {
        let rows = match &self.rebase.conflict_view {
            None => {
                return Vec::new();
            },
            Some(view) => view.lines(source).rows(from, to),
        };
        let n: usize = if from <= to {
            to - from
        } else {
            0
        };
        match source {
            ConflictSource::Base => if self.rebase.render_batches.base < n {
                self.rebase.render_batches.base = n;
            },
            ConflictSource::Ours => if self.rebase.render_batches.ours < n {
                self.rebase.render_batches.ours = n;
            },
            ConflictSource::Theirs => if self.rebase.render_batches.theirs < n {
                self.rebase.render_batches.theirs = n;
            },
        }
        proof {
            assert(self@ =~= (LocalWorkspaceView {
                rebase: RebasePanelView {
                    render_batches: with_batch(
                        old(self)@.rebase.render_batches,
                        source,
                        n,
                    ),
                    ..old(self)@.rebase
                },
                ..old(self)@
            }));
        }
        rows
    }

    /// Each side with its label, its object and its text.
    pub fn rebase_conflict_source_proof(&self) -> (r: Option<Vec<(String, Option<String>, String)>>)
        ensures
            match r {
                None => self@.rebase.conflict_view is None,
                Some(list) => self@.rebase.conflict_view matches Some(v) && list@.len() == 3
                    && forall|i: int|
                    0 <= i < 3 ==> (#[trigger] list@[i]).0@ == conflict::source_label_of(
                        v,
                        conflict::source_with_index(i),
                    ) && text::option_text(list@[i].1) == conflict::stage_of(
                        v,
                        conflict::source_with_index(i),
                    ).oid && list@[i].2@ == conflict::source_text_of(
                        conflict::stage_of(v, conflict::source_with_index(i)),
                    ),
            },
    {
        match &self.rebase.conflict_view {
            None => None,
            Some(view) => {
                let mut out: Vec<(String, Option<String>, String)> = Vec::new();
                let (label, stage) = view.source(ConflictSource::Base);
                out.push((label.to_owned(), stage.oid.clone(), conflict::source_text(stage)));
                let (label, stage) = view.source(ConflictSource::Ours);
                out.push((label.to_owned(), stage.oid.clone(), conflict::source_text(stage)));
                let (label, stage) = view.source(ConflictSource::Theirs);
                out.push((label.to_owned(), stage.oid.clone(), conflict::source_text(stage)));
                Some(out)
            },
        }
    }

    pub fn rebase_conflict_context_status(&self) -> (r: Option<&'static str>)
        ensures
            conflict::optional_str(r) == context_status_of(self@),
    {
        match &self.rebase.conflict_view {
            None => None,
            Some(view) => match view.state() {
                ConflictContextState::Current => Some("current"),
                ConflictContextState::StagesChanged => Some("stages-changed"),
                ConflictContextState::ConflictResolved => Some("resolved-by-git"),
                ConflictContextState::OperationChanged => Some("operation-changed"),
                ConflictContextState::OperationUnavailable => Some("operation-unavailable"),
            },
        }
    }

    pub fn rebase_confirmation_inputs_locked(&self) -> (r: bool)
        ensures
            r == (lifecycle::pending_rebase_of(self@.operations) is Some
                && self@.rebase.editors_disabled),
    {
        self.operations.pending_rebase().is_some() && self.rebase.editors_disabled
    }

    // --- Inputs

    pub fn set_rebase_operation_details(&mut self, visible: bool)
        ensures
            final(self)@ == (LocalWorkspaceView {
                rebase: RebasePanelView {
                    show_operation_details: visible,
                    ..old(self)@.rebase
                },
                ..old(self)@
            }),
    {
        self.rebase.show_operation_details = visible;
        proof {
            assert(self@ =~= (LocalWorkspaceView {
                rebase: RebasePanelView {
                    show_operation_details: visible,
                    ..old(self)@.rebase
                },
                ..old(self)@
            }));
        }
    }

    fn refuse_rebase_input_mutation(&mut self) -> (r: bool)
        ensures
            r == inputs_frozen(old(self)@),
            final(self)@ == unless_frozen(old(self)@, old(self)@),
    {
        let pending: bool = self.operations.pending_rebase().is_some();
        if !rebase_input_is_frozen(pending, self.operations.rebase_in_flight()) {
            return false;
        }
        if pending {
            self.say(
                "Confirmation inputs are frozen. Cancel the exact pending request before editing or preparing different inputs.",
            );
        } else {
            self.say("Rebase inputs remain frozen while the confirmed transition is running");
        }
        true
    }

    fn clear_preparation(&mut self)
        ensures
            final(self)@ == (LocalWorkspaceView {
                rebase: RebasePanelView {
                    preparation: None,
                    steps: Seq::empty(),
                    ..old(self)@.rebase
                },
                ..old(self)@
            }),
    {
        self.rebase.preparation = None;
        self.rebase.steps = Vec::new();
        proof {
            assert(self@.rebase.steps =~= Seq::<PlanStepView>::empty());
            assert(self@ =~= (LocalWorkspaceView {
                rebase: RebasePanelView {
                    preparation: None,
                    steps: Seq::empty(),
                    ..old(self)@.rebase
                },
                ..old(self)@
            }));
        }
    }

    pub fn set_rebase_base_candidate(&mut self, candidate: String)
        ensures
            final(self)@ == base_set(old(self)@, candidate@),
    {
        if self.refuse_rebase_input_mutation() {
            return;
        }
        self.rebase.base = candidate;
        if self.rebase.preparation.is_some() {
            self.clear_preparation();
            self.rebase.selected_step = None;
            self.say("Base input changed; prepare a new immutable inventory before Start");
        }
        proof {
            assert(self@ =~= base_set(old(self)@, candidate@));
        }
    }

    pub fn select_base_candidate(&mut self, oid: String)
        ensures
            final(self)@ == base_candidate_selected(old(self)@, oid@),
    {
        if self.refuse_rebase_input_mutation() {
            return;
        }
        self.set_rebase_base_candidate(oid);
        self.clear_preparation();
        self.say(
            "Immutable base candidate selected; Prepare performs the bounded inventory read",
        );
        proof {
            assert(self@ =~= base_candidate_selected(old(self)@, oid@));
        }
    }

    pub fn select_rebase_step(&mut self, index: usize)
        ensures
            final(self)@ == step_selected(old(self)@, index),
    {
        if self.refuse_rebase_input_mutation() {
            return;
        }
        if index >= self.rebase.steps.len() {
            return;
        }
        let step = &self.rebase.steps[index];
        let message: String = match &step.action {
            PlanAction::Reword { message } => message.clone(),
            _ => match self.rebase.inventory() {
                None => String::new(),
                Some(inventory) => match commit_message(&inventory.commits, &step.commit_oid) {
                    Some(m) => m,
                    None => String::new(),
                },
            },
        };
        self.rebase.selected_step = Some(index);
        self.rebase.message = message;
        self.ask(WorkspaceEffect::FocusMessage);
        proof {
            assert(self@ =~= step_selected(old(self)@, index));
        }
    }

    fn request_validation(&mut self, start: bool)
        ensures
            final(self)@ == validating(old(self)@, start),
    {
        let inventory = match self.rebase.inventory() {
            None => {
                return;
            },
            Some(inventory) => inventory.clone(),
        };
        let steps = git::clone_plan_steps(&self.rebase.steps);
        self.ask(WorkspaceEffect::ValidatePlan { inventory, steps, start });
    }

    fn move_rebase_step(&mut self, delta: isize)
        requires
            inputs_frozen(old(self)@) || step_can_move(old(self)@),
        ensures
            final(self)@ == step_moved(old(self)@, delta),
    {
        if self.refuse_rebase_input_mutation() {
            return;
        }
        let index: usize = match self.rebase.selected_step {
            None => {
                return;
            },
            Some(index) => index,
        };
        let next: usize = place_after(index, delta, self.rebase.steps.len());
        if next != index {
            let first = self.rebase.steps[index].clone();
            let second = self.rebase.steps[next].clone();
            self.rebase.steps.set(index, second);
            self.rebase.steps.set(next, first);
            self.rebase.selected_step = Some(next);
            proof {
                assert(self@.rebase.steps =~= swapped(
                    old(self)@.rebase.steps,
                    index as int,
                    next as int,
                ));
                assert(self@ =~= LocalWorkspaceView {
                    rebase: RebasePanelView {
                        steps: swapped(old(self)@.rebase.steps, index as int, next as int),
                        selected_step: Some(next),
                        ..old(self)@.rebase
                    },
                    ..old(self)@
                });
            }
            self.request_validation(false);
        }
    }

    pub fn move_rebase_plan_step(&mut self, index: usize, delta: isize)
        ensures
            final(self)@ == plan_step_moved(old(self)@, index, delta),
    {
        if self.refuse_rebase_input_mutation() {
            return;
        }
        if index < self.rebase.steps.len() {
            self.rebase.selected_step = Some(index);
            proof {
                assert(self@ =~= with_selected(old(self)@, index));
            }
            self.move_rebase_step(delta);
        }
    }

    /// What the plan does with the selected step.
    pub fn set_rebase_action(&mut self, action: PlanAction)
        ensures
            final(self)@ == action_set(old(self)@, action@),
    {
        if self.refuse_rebase_input_mutation() {
            return;
        }
        let index: usize = match self.rebase.selected_step {
            None => {
                return;
            },
            Some(index) => index,
        };
        if index < self.rebase.steps.len() {
            let commit_oid = self.rebase.steps[index].commit_oid.clone();
            self.rebase.steps.set(index, PlanStep { commit_oid, action });
            proof {
                assert(self@.rebase.steps =~= old(self)@.rebase.steps.update(
                    index as int,
                    PlanStepView { action: action@, ..old(self)@.rebase.steps[index as int] },
                ));
                assert(self@ =~= LocalWorkspaceView {
                    rebase: RebasePanelView {
                        steps: old(self)@.rebase.steps.update(
                            index as int,
                            PlanStepView {
                                action: action@,
                                ..old(self)@.rebase.steps[index as int]
                            },
                        ),
                        ..old(self)@.rebase
                    },
                    ..old(self)@
                });
            }
            self.request_validation(false);
        }
    }

    pub fn set_rebase_step_action(&mut self, index: usize, action: PlanAction)
        ensures
            final(self)@ == step_action_set(old(self)@, index, action@),
    {
        if self.refuse_rebase_input_mutation() {
            return;
        }
        if index < self.rebase.steps.len() {
            self.rebase.selected_step = Some(index);
            proof {
                assert(self@ =~= with_selected(old(self)@, index));
            }
            self.set_rebase_action(action);
        }
    }

    /// Has the selected step reworded with what the message editor holds.
    pub fn apply_reword_message(&mut self)
        ensures
            final(self)@ == action_set(
                old(self)@,
                PlanActionView::Reword { message: old(self)@.rebase.message },
            ),
    {
        let message = self.rebase.message.clone();
        self.set_rebase_action(PlanAction::Reword { message });
    }

    /// Takes whether the plan is valid.
    pub fn complete_plan_validation(&mut self, result: Result<RebasePlan, String>, start: bool)
        ensures
            final(self)@ == plan_settled(old(self)@, result, start),
    {
        match result {
            Err(error) => {
                let mut status: String = "Plan invalid: ".to_owned();
                status.append(&error);
                self.say(&status);
            },
            Ok(plan) => {
                self.say("Plan valid · confirmation will freeze this exact order");
                if start {
                    let preparation = match &self.rebase.preparation {
                        Some(PrepareOutcome::Ready(preparation)) => preparation.clone(),
                        _ => {
                            return;
                        },
                    };
                    self.request_rebase_command(RebaseCommand::Start { preparation, plan });
                }
            },
        }
    }

    pub fn route_dirty_commit(&mut self)
        ensures
            final(self)@ == routed(
                old(self)@,
                "Rebase preparation is dirty. Use the existing staged Commit control, then reopen Rebase."@,
            ),
    {
        self.route_rebase_to_local_changes(
            "Rebase preparation is dirty. Use the existing staged Commit control, then reopen Rebase.",
        );
    }

    pub fn cancel_rebase_preparation(&mut self)
        ensures
            final(self)@ == preparation_cancelled(old(self)@),
    {
        if self.refuse_rebase_input_mutation() {
            return;
        }
        self.clear_preparation();
        self.rebase.selected_step = None;
        self.say("Preparation cancelled; Git was not changed");
        proof {
            assert(self@ =~= preparation_cancelled(old(self)@));
        }
    }

    pub fn route_rebase_to_local_changes(&mut self, status: &str)
        ensures
            final(self)@ == routed(old(self)@, status@),
    {
        if self.refuse_rebase_input_mutation() {
            return;
        }
        self.rebase.open = false;
        self.status = status.to_owned();
        proof {
            assert(self@ =~= routed(old(self)@, status@));
        }
    }

    // --- Observation and preparation

    pub fn observe_rebase(&mut self)
        ensures
            final(self)@ == observe_begun(old(self)@),
    {
        if !self.ready || self.operations.rebase_in_flight() {
            return;
        }
        let ticket = match self.operations.begin_observation(ObservationKind::Rebase) {
            Ok(ticket) => ticket,
            Err(_) => {
                proof {
                    assert(self@ =~= old(self)@);
                }
                return;
            },
        };
        self.ask(WorkspaceEffect::ObserveRebase { ticket });
        proof {
            assert(self@ =~= observe_begun(old(self)@));
        }
    }

    /// Takes what was observed of the rebase.
    pub fn complete_observation(
        &mut self,
        ticket: ObservationTicket,
        result: Result<(Option<RebaseOperationView>, Vec<ConflictFile>), String>,
    )
        ensures
            final(self)@ == observe_settled(old(self)@, ticket, result),
    {
        if !self.operations.finish_observation(ticket) {
            proof {
                assert(self@ =~= old(self)@);
            }
            return;
        }
        match result {
            Ok((operation, conflicts)) => {
                self.rebase.set_operation(operation, conflicts);
            },
            Err(error) => {
                let mut status: String = "Rebase observation failed: ".to_owned();
                status.append(&error);
                self.say(&status);
            },
        }
        proof {
            assert(self@ =~= observe_settled(old(self)@, ticket, result));
        }
    }

    pub fn toggle_rebase(&mut self)
        ensures
            final(self)@ == toggled(old(self)@),
    {
        if self.rebase.open && self.operations.pending_rebase().is_some() {
            self.refuse_rebase_input_mutation();
            return;
        }
        self.rebase.open = !self.rebase.open;
        proof {
            assert(self@ =~= LocalWorkspaceView {
                rebase: RebasePanelView { open: !old(self)@.rebase.open, ..old(self)@.rebase },
                ..old(self)@
            });
        }
        if self.rebase.open {
            self.observe_rebase();
        }
    }

    fn rebase_lane_blocker(&self) -> (r: Option<&'static str>)
        ensures
            conflict::optional_str(r) == lane_blocker_of(self@),
    {
        if self.operations.rebase_in_flight() {
            return Some("A rebase effect is already running");
        }
        if self.operations.local_pending_or_running_or_recovering() {
            return Some("A local Git action or its durable reconciliation is pending");
        }
        if self.operations.observation_pending(ObservationKind::PrPublish) {
            return Some("Wait for the fresh PR publication read to finish");
        }
        None
    }

    /// Has the base that is entered resolved and the commits above it read.
    pub fn prepare_rebase(&mut self)
        ensures
            final(self)@ == prepare_begun(old(self)@),
    {
        if let Some(error) = self.rebase_lane_blocker() {
            self.report_error(error);
            return;
        }
        if self.operations.pending_rebase().is_some() || self.rebase.operation.is_some() {
            self.report_error("Close the current rebase request before preparing another");
            return;
        }
        let candidate = text::trim(&self.rebase.base);
        if candidate.as_str().is_empty() {
            self.report_error("Choose a displayed immutable base candidate first");
            return;
        }
        if !self.ready {
            self.report_error("Local workspace is not ready");
            return;
        }
        let ticket = match self.operations.begin_observation(ObservationKind::Rebase) {
            Ok(ticket) => ticket,
            Err(_) => {
                proof {
                    assert(self@ =~= old(self)@);
                }
                return;
            },
        };
        let mut status: String = "Resolving immutable base ".to_owned();
        status.append(&candidate);
        status.append("…");
        self.say(&status);
        let base = base_step(candidate);
        self.ask(WorkspaceEffect::PrepareRebase { ticket, base });
        proof {
            assert(self@ =~= prepare_begun(old(self)@));
        }
    }

    /// Takes the commit that the base is, and what the preparation came to.
    pub fn complete_preparation(
        &mut self,
        ticket: ObservationTicket,
        result: Result<(String, PrepareOutcome), String>,
    )
        ensures
            final(self)@ == prepare_settled(old(self)@, ticket, result),
    {
        if !self.operations.finish_observation(ticket) {
            proof {
                assert(self@ =~= old(self)@);
            }
            return;
        }
        match result {
            Ok((oid, outcome)) => {
                let steps = match &outcome {
                    PrepareOutcome::Ready(preparation) => pick_steps(&preparation.inventory),
                    PrepareOutcome::Dirty(preparation) => pick_steps(&preparation.inventory),
                    PrepareOutcome::ExternalWorkflow { .. } => Vec::new(),
                };
                proof {
                    assert(git::plan_step_views(steps@) =~= steps_for(outcome@));
                }
                self.rebase.selected_step = if steps.len() == 0 {
                    None
                } else {
                    Some(0)
                };
                self.rebase.steps = steps;
                let mut status: String = "Prepared immutable base ".to_owned();
                status.append(&oid);
                self.rebase.status = status;
                self.rebase.preparation = Some(outcome);
            },
            Err(error) => {
                let mut message: String = "Rebase preparation refused: ".to_owned();
                message.append(&error);
                self.report_error(&message);
            },
        }
        proof {
            assert(self@ =~= prepare_settled(old(self)@, ticket, result));
        }
    }

    // --- Commands

    fn command_guard_holds(&self, command: &RebaseCommand) -> (r: bool)
        ensures
            r == workspace_guard_holds(self@, command@),
    {
        match command.guard() {
            None => true,
            Some(guard) => match &self.snapshot {
                Some(snapshot) => snapshot.guard.same(guard),
                None => false,
            },
        }
    }

    fn request_rebase_command(&mut self, command: RebaseCommand)
        ensures
            final(self)@ == command_requested(old(self)@, command@),
    {
        if let Some(error) = self.rebase_lane_blocker() {
            self.report_error(error);
            return;
        }
        if !self.ready {
            self.report_error("Local workspace is not ready");
            return;
        }
        if !self.command_guard_holds(&command) {
            self.report_error(
                "Rebase request paused: the affected Git snapshot changed; refresh and review again",
            );
            return;
        }
        let editable_inputs = match self.rebase.capture_rebase_editable_inputs(&command) {
            Ok(inputs) => inputs,
            Err(reason) => {
                let mut message: String = "Rebase request paused: ".to_owned();
                message.append(&reason);
                message.append(". Review the visible inputs again.");
                self.report_error(&message);
                return;
            },
        };
        let summary = command.summary();
        let request_id: u64 = match self.operations.admit_rebase(command, editable_inputs) {
            Ok(id) => id,
            Err(error) => {
                proof {
                    assert(self@ =~= old(self)@);
                }
                self.report_error(&error);
                return;
            },
        };
        self.rebase.editors_disabled = true;
        let mut status: String = "Confirmation required: ".to_owned();
        status.append(&summary);
        self.rebase.status = status;
        self.ask(WorkspaceEffect::RequestConfirmation { request_id, summary });
        proof {
            assert(self@ =~= command_requested(old(self)@, command@));
        }
    }

    fn pause_rebase_confirmation(&mut self, message: String)
        ensures
            final(self)@ == confirmation_paused(old(self)@, message@),
    {
        self.say(&message);
        self.ask(WorkspaceEffect::EmitError { message });
    }

    /// Carries out the pending command, if everything it was made from is still displayed.
    pub fn confirm_rebase_action(&mut self, request_id: u64)
        ensures
            final(self)@ == action_confirmed(old(self)@, request_id),
    {
        let (pending_id, inputs) = match self.operations.pending_rebase() {
            None => {
                self.report_error("There is no rebase action awaiting confirmation");
                return;
            },
            Some(pending) => (
                pending.id,
                self.rebase.capture_rebase_editable_inputs(&pending.command),
            ),
        };
        if pending_id != request_id {
            self.report_error("That rebase confirmation is stale");
            return;
        }
        if !self.ready {
            return;
        }
        let current_inputs = match inputs {
            Ok(inputs) => inputs,
            Err(reason) => {
                let mut message: String = "Rebase confirmation paused: ".to_owned();
                message.append(&reason);
                message.append(
                    ". The exact pending request and its frozen inputs were retained; Cancel, edit/reprepare, and request a new confirmation.",
                );
                self.pause_rebase_confirmation(message);
                return;
            },
        };
        let dispatch = match self.operations.confirm_rebase(request_id, &current_inputs) {
            Ok(dispatch) => dispatch,
            Err(error) => {
                proof {
                    assert(self@ =~= old(self)@);
                }
                self.pause_rebase_confirmation(error);
                return;
            },
        };
        let ticket = dispatch.ticket;
        let command = dispatch.intent.command;
        self.rebase.editors_disabled = true;
        self.say("Dispatching the exact confirmed local rebase transition…");
        self.ask(WorkspaceEffect::RunRebase { ticket, command });
        proof {
            assert(self@ =~= action_confirmed(old(self)@, request_id));
        }
    }

    fn show_effect(&mut self, effect: RebaseEffectResult, refresh_error: Option<String>)
        ensures
            final(self)@ == (LocalWorkspaceView {
                rebase: RebasePanelView {
                    status: effect_status(effect@.message, text::option_text(refresh_error)),
                    ..effect_shown(old(self)@.rebase, effect@)
                },
                ..old(self)@
            }),
    {
        let mut status: String = effect.message;
        if let Some(error) = &refresh_error {
            status.append(" Authoritative worktree refresh failed: ");
            status.append(error);
        }
        if effect.retired {
            let none: Vec<ConflictFile> = Vec::new();
            proof {
                assert(git::conflict_file_views(none@) =~= Seq::<ConflictFileView>::empty());
            }
            self.rebase.set_operation(None, none);
            self.clear_preparation();
        } else {
            if let Some(preparation) = effect.preparation {
                self.rebase.preparation = Some(PrepareOutcome::Ready(preparation));
            }
            if effect.operation.is_some() {
                self.rebase.set_operation(effect.operation, effect.conflicts);
            }
        }
        self.rebase.status = status;
        proof {
            assert(self@ =~= (LocalWorkspaceView {
                rebase: RebasePanelView {
                    status: effect_status(effect@.message, text::option_text(refresh_error)),
                    ..effect_shown(old(self)@.rebase, effect@)
                },
                ..old(self)@
            }));
        }
    }

    /// Takes what came of a transition, and the state of the checkout after it.
    pub fn complete_rebase_action(
        &mut self,
        ticket: DispatchTicket,
        effect: Result<RebaseEffectResult, String>,
        refresh: Result<LocalSnapshot, String>,
    )
        ensures
            final(self)@ == run_settled(old(self)@, ticket, effect, refresh),
    {
        let (fresh, refresh_error): (Option<LocalSnapshot>, Option<String>) = match refresh {
            Ok(snapshot) => (Some(snapshot), None),
            Err(error) => (None, Some(error)),
        };
        if !self.operations.complete_rebase(ticket, &fresh) {
            proof {
                assert(self@ =~= old(self)@);
            }
            return;
        }
        self.rebase.editors_disabled = false;
        if fresh.is_some() {
            self.snapshot = fresh;
        }
        proof {
            assert(self@ =~= run_over(old(self)@, refresh));
        }
        match effect {
            Ok(result) => {
                self.show_effect(result, refresh_error);
                self.observe_rebase();
                self.ask(WorkspaceEffect::SnapshotChanged);
            },
            Err(error) => {
                let mut status: String = "Rebase transition stopped: ".to_owned();
                status.append(&error);
                status.append(".");
                let mut note: String = String::new();
                if let Some(e) = &refresh_error {
                    note = " Worktree refresh also failed: ".to_owned();
                    note.append(e);
                    note.append(".");
                }
                status.append(&note);
                status.append(
                    " It will not be replayed automatically; observe actual Git state.",
                );
                self.say(&status);
                self.observe_rebase();
                self.ask(WorkspaceEffect::EmitError { message: status });
            },
        }
    }

    pub fn cancel_rebase_action(&mut self, request_id: u64)
        ensures
            final(self)@ == action_cancelled(old(self)@, request_id),
    {
        if self.operations.cancel_rebase(request_id) {
            self.rebase.editors_disabled = false;
            self.say("Rebase action cancelled; Git was not started");
            proof {
                assert(self@ =~= action_cancelled(old(self)@, request_id));
            }
        } else {
            proof {
                assert(self@ =~= old(self)@);
            }
            self.report_error("That rebase cancellation is stale");
        }
    }

    pub fn request_start_rebase(&mut self)
        ensures
            final(self)@ == start_requested(old(self)@),
    {
        if self.refuse_rebase_input_mutation() {
            return;
        }
        let ready: bool = match &self.rebase.preparation {
            Some(PrepareOutcome::Ready(_)) => true,
            _ => false,
        };
        if !ready {
            self.report_error("Rebase is not ready to start");
            return;
        }
        self.request_validation(true);
    }

    pub fn request_create_stash(&mut self)
        ensures
            final(self)@ == stash_creation_requested(old(self)@),
    {
        let dirty = match &self.rebase.preparation {
            Some(PrepareOutcome::Dirty(dirty)) => dirty.clone(),
            _ => {
                return;
            },
        };
        self.request_rebase_command(RebaseCommand::CreateStash(dirty));
    }

    fn current_active_guard(&self) -> (r: Option<
        (String, ActiveOperationIdentity, SnapshotGuard),
    >)
        ensures
            match r {
                Some((id, active, guard)) => active_guard_of(self@) == Some((id@, active@, guard@)),
                None => active_guard_of(self@) is None,
            },
    {
        match (&self.rebase.operation, &self.snapshot) {
            (Some(operation), Some(snapshot)) => match &operation.active {
                Some(active) => Some(
                    (operation.operation_id.clone(), active.clone(), snapshot.guard.clone()),
                ),
                None => None,
            },
            _ => None,
        }
    }

    pub fn request_continue_rebase(&mut self)
        ensures
            final(self)@ == continue_requested(old(self)@),
    {
        if let Some((operation_id, active, guard)) = self.current_active_guard() {
            self.request_rebase_command(RebaseCommand::Continue { operation_id, active, guard });
        }
    }

    pub fn request_skip_rebase(&mut self)
        ensures
            final(self)@ == skip_requested(old(self)@),
    {
        if let Some((operation_id, active, guard)) = self.current_active_guard() {
            self.request_rebase_command(RebaseCommand::Skip { operation_id, active, guard });
        }
    }

    pub fn request_abort_rebase(&mut self)
        ensures
            final(self)@ == abort_requested(old(self)@),
    {
        if let Some((operation_id, active, guard)) = self.current_active_guard() {
            self.request_rebase_command(RebaseCommand::Abort { operation_id, active, guard });
        }
    }

    pub fn request_begin_split(&mut self)
        ensures
            final(self)@ == split_begun_requested(old(self)@),
    {
        if let Some((operation_id, active, guard)) = self.current_active_guard() {
            self.request_rebase_command(RebaseCommand::BeginSplit { operation_id, active, guard });
        }
    }

    pub fn request_finish_split(&mut self)
        ensures
            final(self)@ == split_finished_requested(old(self)@),
    {
        if let Some((operation_id, active, guard)) = self.current_active_guard() {
            self.request_rebase_command(RebaseCommand::FinishSplit { operation_id, active, guard });
        }
    }

    pub fn request_amend_rebase(&mut self)
        ensures
            final(self)@ == amend_requested(old(self)@),
    {
        if let Some((operation_id, active, guard)) = self.current_active_guard() {
            let message: Option<String> = if text::trim(&self.rebase.message).as_str().is_empty() {
                None
            } else {
                Some(self.rebase.message.clone())
            };
            self.request_rebase_command(
                RebaseCommand::Amend { operation_id, active, guard, message },
            );
        }
    }

    pub fn request_commit_split_part(&mut self)
        ensures
            final(self)@ == split_part_requested(old(self)@),
    {
        if let Some((operation_id, active, guard)) = self.current_active_guard() {
            let message = self.rebase.message.clone();
            self.request_rebase_command(
                RebaseCommand::CommitSplitPart { operation_id, active, guard, message },
            );
        }
    }

    fn operation_and_guard(&self) -> (r: Option<(String, SnapshotGuard)>)
        ensures
            match r {
                Some((id, guard)) => self@.rebase.operation matches Some(o) && o.operation_id == id@
                    && (self@.snapshot matches Some(s) && s.guard == guard@),
                None => self@.rebase.operation is None || self@.snapshot is None,
            },
    {
        match (&self.rebase.operation, &self.snapshot) {
            (Some(operation), Some(snapshot)) => Some(
                (operation.operation_id.clone(), snapshot.guard.clone()),
            ),
            _ => None,
        }
    }

    pub fn request_restore_stash(&mut self)
        ensures
            final(self)@ == stash_restore_requested(old(self)@),
    {
        if let Some((operation_id, guard)) = self.operation_and_guard() {
            self.request_rebase_command(RebaseCommand::RestoreStash { operation_id, guard });
        }
    }

    pub fn request_finish_stash_restore(&mut self)
        ensures
            final(self)@ == stash_restore_finish_requested(old(self)@),
    {
        if let Some((operation_id, guard)) = self.operation_and_guard() {
            self.request_rebase_command(RebaseCommand::FinishStashRestore { operation_id, guard });
        }
    }

    pub fn request_retire_rebase(&mut self)
        ensures
            final(self)@ == retire_requested(old(self)@),
    {
        let operation_id = match &self.rebase.operation {
            Some(operation) => operation.operation_id.clone(),
            None => {
                return;
            },
        };
        self.request_rebase_command(RebaseCommand::Retire { operation_id });
    }

    // --- Conflicts

    fn refuse_conflict_control(&mut self) -> (r: bool)
        ensures
            r == inputs_frozen(old(self)@),
            final(self)@ == unless_conflict_frozen(old(self)@, old(self)@),
    {
        let pending: bool = self.operations.pending_rebase().is_some();
        if !pending && !self.operations.rebase_in_flight() {
            return false;
        }
        if pending {
            self.say(
                "Conflict controls are frozen while the exact confirmation is visible; confirm or cancel it first",
            );
        } else {
            self.say("Conflict controls are frozen while the rebase/local effect is running");
        }
        true
    }

    /// Shows the sides of a conflict.
    pub fn open_rebase_conflict_sources(&mut self, index: usize)
        ensures
            final(self)@ == conflict_opened(old(self)@, index),
    {
        if self.refuse_conflict_control() {
            return;
        }
        if index >= self.rebase.conflicts.len() {
            return;
        }
        let file = self.rebase.conflicts[index].clone();
        let mut status: String = "Showing immutable sources for ".to_owned();
        status.append(&file.path.display);
        status.append(
            ". Resolve the result in your own editor, refresh, then stage explicitly",
        );
        let presentation = match &self.rebase.operation {
            None => {
                return;
            },
            Some(operation) => ConflictPresentation::new(operation, file),
        };
        match presentation {
            None => {
                self.say(
                    "Conflict sources are unavailable because the exact operation identity is missing",
                );
            },
            Some(view) => {
                self.rebase.conflict_view = Some(view);
                self.rebase.render_batches = RenderBatches { base: 0, ours: 0, theirs: 0 };
                self.rebase.status = status;
            },
        }
        proof {
            assert(self@ =~= conflict_opened(old(self)@, index));
        }
    }

    pub fn close_rebase_conflict_sources(&mut self)
        ensures
            final(self)@ == conflict_closed(old(self)@),
    {
        if self.refuse_conflict_control() {
            return;
        }
        self.rebase.conflict_view = None;
        self.say("Closed the source presentation; the file on disk was not changed");
        proof {
            assert(self@ =~= conflict_closed(old(self)@));
        }
    }

    pub fn select_conflict_source(&mut self, source: ConflictSource)
        ensures
            final(self)@ == source_selected(old(self)@, source),
    {
        if self.refuse_conflict_control() {
            return;
        }
        let mut shown = self.rebase.conflict_view.take();
        if let Some(mut view) = shown {
            view.select(source);
            shown = Some(view);
        }
        self.rebase.conflict_view = shown;
        proof {
            assert(self@ =~= source_selected(old(self)@, source));
        }
    }

    pub fn move_conflict_source(&mut self, delta: isize)
        ensures
            final(self)@ == source_moved(old(self)@, delta),
    {
        if self.refuse_conflict_control() {
            return;
        }
        let mut shown = self.rebase.conflict_view.take();
        if let Some(mut view) = shown {
            view.move_selection(delta);
            shown = Some(view);
        }
        self.rebase.conflict_view = shown;
        proof {
            assert(self@ =~= source_moved(old(self)@, delta));
        }
    }

    pub fn toggle_conflict_details(&mut self)
        ensures
            final(self)@ == details_toggled(old(self)@),
    {
        if self.refuse_conflict_control() {
            return;
        }
        let mut shown = self.rebase.conflict_view.take();
        if let Some(mut view) = shown {
            view.toggle_details();
            shown = Some(view);
        }
        self.rebase.conflict_view = shown;
        proof {
            assert(self@ =~= details_toggled(old(self)@));
        }
    }

    /// The conflict that is shown, as it is now.
    fn presented_conflict_now(&self) -> (r: Option<ConflictFile>)
        ensures
            match r {
                Some(file) => self@.rebase.conflict_view matches Some(v) && (conflict::conflict_at(
                    self@.rebase.conflicts,
                    v.conflict.path.raw,
                ) matches Some(i) && self@.rebase.conflicts[i] == file@),
                None => self@.rebase.conflict_view matches Some(v) ==> conflict::conflict_at(
                    self@.rebase.conflicts,
                    v.conflict.path.raw,
                ) is None,
            },
    {
        match &self.rebase.conflict_view {
            None => None,
            Some(view) => {
                match conflict::find_conflict(&self.rebase.conflicts, &view.conflict().path.raw) {
                    Some(i) => Some(self.rebase.conflicts[i].clone()),
                    None => None,
                }
            },
        }
    }

    pub fn refresh_open_rebase_conflict_sources(&mut self)
        ensures
            final(self)@ == sources_refreshed(old(self)@),
    {
        if self.refuse_conflict_control() {
            return;
        }
        if self.rebase.conflict_view.is_none() {
            return;
        }
        if self.rebase.operation.is_none() {
            self.say(
                "The original operation is no longer available; source context was not changed",
            );
            return;
        }
        let file = match self.presented_conflict_now() {
            Some(file) => file,
            None => {
                self.say(
                    "Git no longer reports this path as unmerged; source context was not changed",
                );
                return;
            },
        };
        let mut shown = self.rebase.conflict_view.take();
        let mut refreshed: bool = false;
        if let Some(mut view) = shown {
            if let Some(operation) = &self.rebase.operation {
                refreshed = view.refresh_from(operation, file);
            }
            shown = Some(view);
        }
        self.rebase.conflict_view = shown;
        if refreshed {
            self.rebase.render_batches = RenderBatches { base: 0, ours: 0, theirs: 0 };
            self.say("Refreshed immutable source stages; the file on disk was not changed");
        } else {
            self.say(
                "The operation identity changed; this presentation cannot attach to the new operation",
            );
        }
        proof {
            assert(self@ =~= sources_refreshed(old(self)@));
        }
    }

    /// Asks to stage the conflict that is shown.
    pub fn request_stage_open_rebase_conflict(&mut self)
        ensures
            final(self)@ == presented_staging_requested(old(self)@),
    {
        if self.refuse_conflict_control() {
            return;
        }
        let (explanation, position) = match &self.rebase.conflict_view {
            None => {
                return;
            },
            Some(view) => (
                view.state().explanation(),
                find_exact_conflict(&self.rebase.conflicts, view.conflict()),
            ),
        };
        if let Some(reason) = explanation {
            self.say(reason);
            return;
        }
        match position {
            Some(index) => self.request_stage_rebase_conflict(index),
            None => self.say(
                "The exact source stages are no longer current; refresh before staging",
            ),
        }
    }

    /// Asks to stage one of the conflicts.
    pub fn request_stage_rebase_conflict(&mut self, index: usize)
        ensures
            final(self)@ == staging_requested(old(self)@, index as int),
    {
        if index >= self.rebase.conflicts.len() {
            return;
        }
        let expected = self.rebase.conflicts[index].clone();
        let command = match (&self.rebase.operation, &self.snapshot) {
            (Some(operation), Some(snapshot)) => {
                let stash_restore: bool = match &operation.stash_restore {
                    StashRestoreState::Conflicted => true,
                    _ => false,
                };
                let active: Option<ActiveOperationIdentity> = if stash_restore {
                    None
                } else {
                    git::clone_optional_active_operation_identity(&operation.active)
                };
                RebaseCommand::StageConflict {
                    operation_id: operation.operation_id.clone(),
                    active,
                    expected,
                    guard: snapshot.guard.clone(),
                    stash_restore,
                }
            },
            _ => {
                return;
            },
        };
        self.request_rebase_command(command);
    }

    // --- Keys

    /// Whether a key can be handled.
    pub fn takes_key(&self, platform: bool, key: &str) -> (r: bool)
        ensures
            r == takes_key_in(self@, platform, key@),
    {
        if !self.rebase.open || !platform || self.rebase.conflict_view.is_some() {
            return true;
        }
        if !text::same_text(key, "up") && !text::same_text(key, "down") {
            return true;
        }
        if rebase_input_is_frozen(
            self.operations.pending_rebase().is_some(),
            self.operations.rebase_in_flight(),
        ) {
            return true;
        }
        match self.rebase.selected_step {
            None => true,
            Some(index) => index < self.rebase.steps.len() || index == 0,
        }
    }

    /// Handles a key that is pressed with the platform's modifier held or not. Returns whether
    /// it was for the panel.
    pub fn handle_rebase_key(&mut self, platform: bool, key: &str) -> (r: bool)
        requires
            takes_key_in(old(self)@, platform, key@),
        ensures
            match key_handled(old(self)@, platform, key@) {
                Some(after) => r && final(self)@ == after,
                None => !r && final(self)@ == old(self)@,
            },
    {
        if !self.rebase.open || !platform {
            return false;
        }
        if self.rebase.conflict_view.is_some() {
            if text::same_text(key, "left") {
                self.move_conflict_source(-1);
                return true;
            }
            if text::same_text(key, "right") {
                self.move_conflict_source(1);
                return true;
            }
            return false;
        }
        if text::same_text(key, "up") {
            self.move_rebase_step(-1);
            return true;
        }
        if text::same_text(key, "down") {
            self.move_rebase_step(1);
            return true;
        }
        false
    }
}

pub open spec fn context_status_of(w: LocalWorkspaceView) -> Option<Seq<char>> {
    match w.rebase.conflict_view {
        None => None,
        Some(v) => Some(
            match v.state {
                ConflictContextState::Current => "current"@,
                ConflictContextState::StagesChanged => "stages-changed"@,
                ConflictContextState::ConflictResolved => "resolved-by-git"@,
                ConflictContextState::OperationChanged => "operation-changed"@,
                ConflictContextState::OperationUnavailable => "operation-unavailable"@,
            },
        ),
    }
}

pub fn rebase_input_is_frozen(confirmation_pending: bool, effect_in_flight: bool) -> (r: bool)
    ensures
        r == (confirmation_pending || effect_in_flight),
{
    confirmation_pending || effect_in_flight
}

// ---------------------------------------------------------------------------
// Laws

/// Whether the inputs of two workspaces are the same.
pub open spec fn same_inputs(a: LocalWorkspaceView, b: LocalWorkspaceView) -> bool {
    &&& a.rebase.base == b.rebase.base
    &&& a.rebase.message == b.rebase.message
    &&& a.rebase.steps == b.rebase.steps
    &&& a.rebase.selected_step == b.rebase.selected_step
    &&& a.rebase.preparation == b.rebase.preparation
}

/// A base that is ambiguous never reaches Git: whatever a preparation asks for, what it has
/// resolved is named by `HEAD`, by a full reference name or by a full commit identifier, and is
/// the base that was entered; any other base is refused.
pub proof fn law_an_ambiguous_base_is_never_resolved(w: LocalWorkspaceView)
    ensures
        forall|i: int|
            w.effects.len() <= i < prepare_begun(w).effects.len() ==> (
            match #[trigger] prepare_begun(w).effects[i] {
                WorkspaceEffectView::PrepareRebase { base: BaseStepView::Resolve { base }, .. } => {
                    base_is_unambiguous(base) && base == text::trimmed(w.rebase.base)
                },
                WorkspaceEffectView::PrepareRebase { base: BaseStepView::Refuse { .. }, .. } => {
                    !base_is_unambiguous(text::trimmed(w.rebase.base))
                },
                _ => true,
            }),
        prepare_begun(w).effects.take(w.effects.len() as int) == w.effects,
{
}

/// While a confirmation is pending or an effect runs, no control changes an input.
pub proof fn law_frozen_inputs_stay(
    w: LocalWorkspaceView,
    candidate: Seq<char>,
    index: usize,
    delta: isize,
    action: PlanActionView,
    platform: bool,
    key: Seq<char>,
)
    requires
        inputs_frozen(w),
    ensures
        same_inputs(base_set(w, candidate), w),
        same_inputs(base_candidate_selected(w, candidate), w),
        same_inputs(step_selected(w, index), w),
        same_inputs(step_moved(w, delta), w),
        same_inputs(plan_step_moved(w, index, delta), w),
        same_inputs(action_set(w, action), w),
        same_inputs(step_action_set(w, index, action), w),
        same_inputs(preparation_cancelled(w), w),
        same_inputs(start_requested(w), w),
        key_handled(w, platform, key) matches Some(after) ==> same_inputs(after, w),
{
}

proof fn lemma_update_multiset<A>(s: Seq<A>, i: int, a: A)
    requires
        0 <= i < s.len(),
    ensures
        s.update(i, a).to_multiset() == s.to_multiset().remove(s[i]).insert(a),
{
    broadcast use vstd::multiset::group_multiset_axioms;

    assert(s.update(i, a) =~= s.remove(i).insert(i, a));
    vstd::seq_lib::to_multiset_remove(s, i);
    vstd::seq_lib::to_multiset_insert(s.remove(i), i, a);
}

/// Moving a step keeps the steps, only their order changes; moving it back restores the order.
pub proof fn law_moving_keeps_the_steps(steps: Seq<PlanStepView>, i: int, j: int)
    requires
        0 <= i < steps.len(),
        0 <= j < steps.len(),
        i != j,
    ensures
        swapped(steps, i, j).to_multiset() == steps.to_multiset(),
        swapped(swapped(steps, i, j), j, i) == steps,
        swapped(steps, i, j).len() == steps.len(),
{
    broadcast use vstd::multiset::group_multiset_axioms;

    let once = steps.update(i, steps[j]);
    lemma_update_multiset(steps, i, steps[j]);
    lemma_update_multiset(once, j, steps[i]);
    steps.to_multiset_ensures();
    assert(steps.contains(steps[i]));
    assert(steps.to_multiset().remove(steps[i]).insert(steps[j]).remove(steps[j]).insert(steps[i])
        =~= steps.to_multiset());
    assert(swapped(swapped(steps, i, j), j, i) =~= steps);
}

/// A transition runs only when it is confirmed by its own number, with every input displayed
/// exactly as it was frozen; what runs is the command that was frozen.
pub proof fn law_drifted_inputs_are_not_dispatched(w: LocalWorkspaceView, request_id: u64)
    ensures
        lifecycle::rebase_is_running(action_confirmed(w, request_id).operations)
            && !lifecycle::rebase_is_running(w.operations) ==> {
            let pending = lifecycle::pending_rebase_of(w.operations);
            &&& pending matches Some(p) && p.id == request_id
            &&& captured_inputs(w.rebase, pending->0.command) == Ok::<
                RebaseEditableInputIdentityView,
                Seq<char>,
            >(pending->0.editable_inputs)
            &&& lifecycle::command_guard_holds(w.operations, pending->0.command)
            &&& action_confirmed(w, request_id).effects == w.effects.push(
                WorkspaceEffectView::RunRebase {
                    ticket: lifecycle::dispatch_ticket(
                        w.operations,
                        lifecycle::FrozenIntentView::Rebase(pending->0),
                    ),
                    command: pending->0.command,
                },
            )
        },
        !lifecycle::rebase_is_running(action_confirmed(w, request_id).operations)
            ==> action_confirmed(w, request_id).operations == w.operations,
{
}

/// A transition that was dispatched cannot be dispatched again by the same confirmation.
pub proof fn law_a_confirmation_dispatches_once(
    w: LocalWorkspaceView,
    request_id: u64,
    again: u64,
)
    requires
        lifecycle::rebase_is_running(action_confirmed(w, request_id).operations),
    ensures
        action_confirmed(action_confirmed(w, request_id), again).operations == action_confirmed(
            w,
            request_id,
        ).operations,
        !lifecycle::rebase_is_running(w.operations) ==> action_confirmed(
            action_confirmed(w, request_id),
            again,
        ) == reported(
            action_confirmed(w, request_id),
            "There is no rebase action awaiting confirmation"@,
        ),
{
}

/// A read of the rebase leaves a pending confirmation as it is: what was pending, and whether
/// its inputs fit, stays the same.
pub proof fn law_reads_do_not_disturb_a_confirmation(
    w: LocalWorkspaceView,
    ticket: ObservationTicket,
    result: Result<(Option<RebaseOperationView>, Vec<ConflictFile>), String>,
    command: RebaseCommandView,
)
    ensures
        lifecycle::pending_rebase_of(observe_begun(w).operations) == lifecycle::pending_rebase_of(
            w.operations,
        ),
        captured_inputs(observe_begun(w).rebase, command) == captured_inputs(w.rebase, command),
        lifecycle::pending_rebase_of(observe_settled(w, ticket, result).operations)
            == lifecycle::pending_rebase_of(w.operations),
        captured_inputs(observe_settled(w, ticket, result).rebase, command) == captured_inputs(
            w.rebase,
            command,
        ),
        same_inputs(observe_settled(w, ticket, result), w),
{
}

/// A request that is admitted freezes exactly the inputs that are displayed, and can be
/// confirmed at once; cancelling it leaves nothing pending and the editors open.
pub proof fn law_requests_freeze_what_is_displayed(w: LocalWorkspaceView, command: RebaseCommandView)
    requires
        request_fault(w, command) is None,
    ensures
        ({
            let asked = command_requested(w, command);
            let id = w.operations.next_request_id;
            let pending = lifecycle::pending_rebase_of(asked.operations);
            &&& pending matches Some(p) && p.id == id && p.command == command
                && captured_inputs(w.rebase, command) == Ok::<
                RebaseEditableInputIdentityView,
                Seq<char>,
            >(p.editable_inputs)
            &&& asked.rebase.editors_disabled
            &&& lifecycle::rebase_is_running(action_confirmed(asked, id).operations)
            &&& lifecycle::pending_rebase_of(action_cancelled(asked, id).operations) is None
            &&& !action_cancelled(asked, id).rebase.editors_disabled
        }),
{
}

/// A result for another run than the one under way changes nothing.
pub proof fn law_results_of_other_runs_are_ignored(
    w: LocalWorkspaceView,
    ticket: DispatchTicket,
    effect: Result<RebaseEffectResult, String>,
    refresh: Result<LocalSnapshot, String>,
)
    requires
        !lifecycle::is_running(w.operations, ticket, lifecycle::Lane::Rebase),
    ensures
        run_settled(w, ticket, effect, refresh) == w,
{
}

} // verus!

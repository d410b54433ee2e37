//! The transitions of a rebase that a user can ask for, and what they come to.

use vstd::prelude::*;
use vstd::string::*;

use crate::text;
use crate::workspace::git;
use crate::workspace::git::{
    ActiveOperationIdentity, ActiveOperationIdentityView, ConflictFile, ConflictFileView,
    DirtyPreparation, DirtyPreparationView, PlanAction, PlanActionView, PlanStep, PlanStepView,
    RebaseOperationView, RebaseOperationViewView, RebasePlan, RebasePlanView, RebasePreparation,
    RebasePreparationView, RebaseState, SnapshotGuard, SnapshotGuardView, StashRestoreState,
};

verus! {

/// A transition that is asked for, with everything it is about.
#[derive(Debug, PartialEq, Eq)]
pub enum RebaseCommand {
    CreateStash(DirtyPreparation),
    Start { preparation: RebasePreparation, plan: RebasePlan },
    Continue { operation_id: String, active: ActiveOperationIdentity, guard: SnapshotGuard },
    Skip { operation_id: String, active: ActiveOperationIdentity, guard: SnapshotGuard },
    Abort { operation_id: String, active: ActiveOperationIdentity, guard: SnapshotGuard },
    Amend { operation_id: String, active: ActiveOperationIdentity, guard: SnapshotGuard, message: Option<String> },
    BeginSplit { operation_id: String, active: ActiveOperationIdentity, guard: SnapshotGuard },
    CommitSplitPart { operation_id: String, active: ActiveOperationIdentity, guard: SnapshotGuard, message: String },
    FinishSplit { operation_id: String, active: ActiveOperationIdentity, guard: SnapshotGuard },
    StageConflict { operation_id: String, active: Option<ActiveOperationIdentity>, expected: ConflictFile, guard: SnapshotGuard, stash_restore: bool },
    RestoreStash { operation_id: String, guard: SnapshotGuard },
    FinishStashRestore { operation_id: String, guard: SnapshotGuard },
    Retire { operation_id: String },
}

#[verifier::ext_equal]
pub enum RebaseCommandView {
    CreateStash(DirtyPreparationView),
    Start { preparation: RebasePreparationView, plan: RebasePlanView },
    Continue { operation_id: Seq<char>, active: ActiveOperationIdentityView, guard: SnapshotGuardView },
    Skip { operation_id: Seq<char>, active: ActiveOperationIdentityView, guard: SnapshotGuardView },
    Abort { operation_id: Seq<char>, active: ActiveOperationIdentityView, guard: SnapshotGuardView },
    Amend { operation_id: Seq<char>, active: ActiveOperationIdentityView, guard: SnapshotGuardView, message: Option<Seq<char>> },
    BeginSplit { operation_id: Seq<char>, active: ActiveOperationIdentityView, guard: SnapshotGuardView },
    CommitSplitPart { operation_id: Seq<char>, active: ActiveOperationIdentityView, guard: SnapshotGuardView, message: Seq<char> },
    FinishSplit { operation_id: Seq<char>, active: ActiveOperationIdentityView, guard: SnapshotGuardView },
    StageConflict { operation_id: Seq<char>, active: Option<ActiveOperationIdentityView>, expected: ConflictFileView, guard: SnapshotGuardView, stash_restore: bool },
    RestoreStash { operation_id: Seq<char>, guard: SnapshotGuardView },
    FinishStashRestore { operation_id: Seq<char>, guard: SnapshotGuardView },
    Retire { operation_id: Seq<char> },
}

impl View for RebaseCommand {
    type V = RebaseCommandView;

    open spec fn view(&self) -> RebaseCommandView {
        match self {
            RebaseCommand::CreateStash(x0) => RebaseCommandView::CreateStash(x0@),
            RebaseCommand::Start { preparation, plan } => RebaseCommandView::Start { preparation: preparation@, plan: plan@ },
            RebaseCommand::Continue { operation_id, active, guard } => RebaseCommandView::Continue { operation_id: operation_id@, active: active@, guard: guard@ },
            RebaseCommand::Skip { operation_id, active, guard } => RebaseCommandView::Skip { operation_id: operation_id@, active: active@, guard: guard@ },
            RebaseCommand::Abort { operation_id, active, guard } => RebaseCommandView::Abort { operation_id: operation_id@, active: active@, guard: guard@ },
            RebaseCommand::Amend { operation_id, active, guard, message } => RebaseCommandView::Amend { operation_id: operation_id@, active: active@, guard: guard@, message: text::option_text(*message) },
            RebaseCommand::BeginSplit { operation_id, active, guard } => RebaseCommandView::BeginSplit { operation_id: operation_id@, active: active@, guard: guard@ },
            RebaseCommand::CommitSplitPart { operation_id, active, guard, message } => RebaseCommandView::CommitSplitPart { operation_id: operation_id@, active: active@, guard: guard@, message: message@ },
            RebaseCommand::FinishSplit { operation_id, active, guard } => RebaseCommandView::FinishSplit { operation_id: operation_id@, active: active@, guard: guard@ },
            RebaseCommand::StageConflict { operation_id, active, expected, guard, stash_restore } => RebaseCommandView::StageConflict { operation_id: operation_id@, active: git::optional_active_operation_identity(*active), expected: expected@, guard: guard@, stash_restore: *stash_restore },
            RebaseCommand::RestoreStash { operation_id, guard } => RebaseCommandView::RestoreStash { operation_id: operation_id@, guard: guard@ },
            RebaseCommand::FinishStashRestore { operation_id, guard } => RebaseCommandView::FinishStashRestore { operation_id: operation_id@, guard: guard@ },
            RebaseCommand::Retire { operation_id } => RebaseCommandView::Retire { operation_id: operation_id@ },
        }
    }
}

impl Clone for RebaseCommand {
    fn clone(&self) -> (r: Self)
        ensures
            r@ == self@,
    {
        match self {
            RebaseCommand::CreateStash(x0) => RebaseCommand::CreateStash(x0.clone()),
            RebaseCommand::Start { preparation, plan } => RebaseCommand::Start { preparation: preparation.clone(), plan: plan.clone() },
            RebaseCommand::Continue { operation_id, active, guard } => RebaseCommand::Continue { operation_id: operation_id.clone(), active: active.clone(), guard: guard.clone() },
            RebaseCommand::Skip { operation_id, active, guard } => RebaseCommand::Skip { operation_id: operation_id.clone(), active: active.clone(), guard: guard.clone() },
            RebaseCommand::Abort { operation_id, active, guard } => RebaseCommand::Abort { operation_id: operation_id.clone(), active: active.clone(), guard: guard.clone() },
            RebaseCommand::Amend { operation_id, active, guard, message } => RebaseCommand::Amend { operation_id: operation_id.clone(), active: active.clone(), guard: guard.clone(), message: message.clone() },
            RebaseCommand::BeginSplit { operation_id, active, guard } => RebaseCommand::BeginSplit { operation_id: operation_id.clone(), active: active.clone(), guard: guard.clone() },
            RebaseCommand::CommitSplitPart { operation_id, active, guard, message } => RebaseCommand::CommitSplitPart { operation_id: operation_id.clone(), active: active.clone(), guard: guard.clone(), message: message.clone() },
            RebaseCommand::FinishSplit { operation_id, active, guard } => RebaseCommand::FinishSplit { operation_id: operation_id.clone(), active: active.clone(), guard: guard.clone() },
            RebaseCommand::StageConflict { operation_id, active, expected, guard, stash_restore } => RebaseCommand::StageConflict { operation_id: operation_id.clone(), active: git::clone_optional_active_operation_identity(active), expected: expected.clone(), guard: guard.clone(), stash_restore: *stash_restore },
            RebaseCommand::RestoreStash { operation_id, guard } => RebaseCommand::RestoreStash { operation_id: operation_id.clone(), guard: guard.clone() },
            RebaseCommand::FinishStashRestore { operation_id, guard } => RebaseCommand::FinishStashRestore { operation_id: operation_id.clone(), guard: guard.clone() },
            RebaseCommand::Retire { operation_id } => RebaseCommand::Retire { operation_id: operation_id.clone() },
        }
    }
}

/// The message editor while it belongs to a step that is reworded.
#[derive(Debug, PartialEq, Eq)]
pub struct RewordEditor {
    pub commit_oid: String,
    pub message: String,
}

#[verifier::ext_equal]
pub struct RewordEditorView {
    pub commit_oid: Seq<char>,
    pub message: Seq<char>,
}

impl View for RewordEditor {
    type V = RewordEditorView;

    open spec fn view(&self) -> RewordEditorView {
        RewordEditorView {
            commit_oid: self.commit_oid@,
            message: self.message@,
        }
    }
}

impl Clone for RewordEditor {
    fn clone(&self) -> (r: Self)
        ensures
            r == *self,
    {
        RewordEditor {
            commit_oid: self.commit_oid.clone(),
            message: self.message.clone(),
        }
    }
}

impl RewordEditor {
    /// Whether two values agree in every field.
    pub fn same(&self, other: &Self) -> (r: bool)
        ensures
            r == (self@ == other@),
    {
        self.commit_oid == other.commit_oid
            && self.message == other.message
    }
}

pub open spec fn optional_reword_editor(x: Option<RewordEditor>) -> Option<RewordEditorView> {
    match x {
        Some(v) => Some(v@),
        None => None,
    }
}

pub fn clone_optional_reword_editor(x: &Option<RewordEditor>) -> (r: Option<RewordEditor>)
    ensures
        optional_reword_editor(r) == optional_reword_editor(*x),
{
    match x {
        Some(v) => Some(v.clone()),
        None => None,
    }
}

pub fn same_optional_reword_editor(a: &Option<RewordEditor>, b: &Option<RewordEditor>) -> (r: bool)
    ensures
        r == (optional_reword_editor(*a) == optional_reword_editor(*b)),
{
    match (a, b) {
        (Some(x), Some(y)) => x.same(y),
        (None, None) => true,
        _ => false,
    }
}

/// The values a user can edit that a command is made from. What is only observed is not among
/// them, so that a read does not invalidate a confirmation.
#[derive(Debug, PartialEq, Eq)]
pub enum RebaseEditableInputIdentity {
    NoInput,
    Start { steps: Vec<PlanStep>, prepared_base_oid: String, displayed_base: String, reword_editor: Option<RewordEditor> },
    AmendMessage(String),
    SplitPartMessage(String),
}

#[verifier::ext_equal]
pub enum RebaseEditableInputIdentityView {
    NoInput,
    Start { steps: Seq<PlanStepView>, prepared_base_oid: Seq<char>, displayed_base: Seq<char>, reword_editor: Option<RewordEditorView> },
    AmendMessage(Seq<char>),
    SplitPartMessage(Seq<char>),
}

impl View for RebaseEditableInputIdentity {
    type V = RebaseEditableInputIdentityView;

    open spec fn view(&self) -> RebaseEditableInputIdentityView {
        match self {
            RebaseEditableInputIdentity::NoInput => RebaseEditableInputIdentityView::NoInput,
            RebaseEditableInputIdentity::Start { steps, prepared_base_oid, displayed_base, reword_editor } => RebaseEditableInputIdentityView::Start { steps: git::plan_step_views(steps@), prepared_base_oid: prepared_base_oid@, displayed_base: displayed_base@, reword_editor: optional_reword_editor(*reword_editor) },
            RebaseEditableInputIdentity::AmendMessage(x0) => RebaseEditableInputIdentityView::AmendMessage(x0@),
            RebaseEditableInputIdentity::SplitPartMessage(x0) => RebaseEditableInputIdentityView::SplitPartMessage(x0@),
        }
    }
}

impl Clone for RebaseEditableInputIdentity {
    fn clone(&self) -> (r: Self)
        ensures
            r@ == self@,
    {
        match self {
            RebaseEditableInputIdentity::NoInput => RebaseEditableInputIdentity::NoInput,
            RebaseEditableInputIdentity::Start { steps, prepared_base_oid, displayed_base, reword_editor } => RebaseEditableInputIdentity::Start { steps: git::clone_plan_steps(steps), prepared_base_oid: prepared_base_oid.clone(), displayed_base: displayed_base.clone(), reword_editor: clone_optional_reword_editor(reword_editor) },
            RebaseEditableInputIdentity::AmendMessage(x0) => RebaseEditableInputIdentity::AmendMessage(x0.clone()),
            RebaseEditableInputIdentity::SplitPartMessage(x0) => RebaseEditableInputIdentity::SplitPartMessage(x0.clone()),
        }
    }
}

impl RebaseEditableInputIdentity {
    /// Whether two values are the same, with the same fields.
    pub fn same(&self, other: &Self) -> (r: bool)
        ensures
            r == (self@ == other@),
    {
        match (self, other) {
            (RebaseEditableInputIdentity::NoInput, RebaseEditableInputIdentity::NoInput) => true,
            (RebaseEditableInputIdentity::Start { steps: steps_a, prepared_base_oid: prepared_base_oid_a, displayed_base: displayed_base_a, reword_editor: reword_editor_a }, RebaseEditableInputIdentity::Start { steps: steps_b, prepared_base_oid: prepared_base_oid_b, displayed_base: displayed_base_b, reword_editor: reword_editor_b }) => git::same_plan_steps(steps_a, steps_b) && text::same_text(prepared_base_oid_a, prepared_base_oid_b) && text::same_text(displayed_base_a, displayed_base_b) && same_optional_reword_editor(reword_editor_a, reword_editor_b),
            (RebaseEditableInputIdentity::AmendMessage(x0_a), RebaseEditableInputIdentity::AmendMessage(x0_b)) => text::same_text(x0_a, x0_b),
            (RebaseEditableInputIdentity::SplitPartMessage(x0_a), RebaseEditableInputIdentity::SplitPartMessage(x0_b)) => text::same_text(x0_a, x0_b),
            _ => false,
        }
    }
}

/// The call that a command makes on the store of rebases.
#[derive(Debug, PartialEq, Eq)]
pub enum StoreCall {
    CreateStash(DirtyPreparation),
    Start { preparation: RebasePreparation, plan: RebasePlan },
    Continue { operation_id: String, active: ActiveOperationIdentity, guard: SnapshotGuard },
    Skip { operation_id: String, active: ActiveOperationIdentity, guard: SnapshotGuard },
    Abort { operation_id: String, active: ActiveOperationIdentity, guard: SnapshotGuard },
    Amend { operation_id: String, active: ActiveOperationIdentity, guard: SnapshotGuard, message: Option<String> },
    BeginSplit { operation_id: String, active: ActiveOperationIdentity, guard: SnapshotGuard },
    CommitSplitPart { operation_id: String, active: ActiveOperationIdentity, guard: SnapshotGuard, message: String },
    FinishSplit { operation_id: String, active: ActiveOperationIdentity, guard: SnapshotGuard },
    StageStashResolution { operation_id: String, expected: ConflictFile, guard: SnapshotGuard },
    StageResolution { operation_id: String, active: ActiveOperationIdentity, expected: ConflictFile, guard: SnapshotGuard },
    RestoreStash { operation_id: String, guard: SnapshotGuard },
    FinishStashRestore { operation_id: String, guard: SnapshotGuard },
    Retire { operation_id: String },
}

#[verifier::ext_equal]
pub enum StoreCallView {
    CreateStash(DirtyPreparationView),
    Start { preparation: RebasePreparationView, plan: RebasePlanView },
    Continue { operation_id: Seq<char>, active: ActiveOperationIdentityView, guard: SnapshotGuardView },
    Skip { operation_id: Seq<char>, active: ActiveOperationIdentityView, guard: SnapshotGuardView },
    Abort { operation_id: Seq<char>, active: ActiveOperationIdentityView, guard: SnapshotGuardView },
    Amend { operation_id: Seq<char>, active: ActiveOperationIdentityView, guard: SnapshotGuardView, message: Option<Seq<char>> },
    BeginSplit { operation_id: Seq<char>, active: ActiveOperationIdentityView, guard: SnapshotGuardView },
    CommitSplitPart { operation_id: Seq<char>, active: ActiveOperationIdentityView, guard: SnapshotGuardView, message: Seq<char> },
    FinishSplit { operation_id: Seq<char>, active: ActiveOperationIdentityView, guard: SnapshotGuardView },
    StageStashResolution { operation_id: Seq<char>, expected: ConflictFileView, guard: SnapshotGuardView },
    StageResolution { operation_id: Seq<char>, active: ActiveOperationIdentityView, expected: ConflictFileView, guard: SnapshotGuardView },
    RestoreStash { operation_id: Seq<char>, guard: SnapshotGuardView },
    FinishStashRestore { operation_id: Seq<char>, guard: SnapshotGuardView },
    Retire { operation_id: Seq<char> },
}

impl View for StoreCall {
    type V = StoreCallView;

    open spec fn view(&self) -> StoreCallView {
        match self {
            StoreCall::CreateStash(x0) => StoreCallView::CreateStash(x0@),
            StoreCall::Start { preparation, plan } => StoreCallView::Start { preparation: preparation@, plan: plan@ },
            StoreCall::Continue { operation_id, active, guard } => StoreCallView::Continue { operation_id: operation_id@, active: active@, guard: guard@ },
            StoreCall::Skip { operation_id, active, guard } => StoreCallView::Skip { operation_id: operation_id@, active: active@, guard: guard@ },
            StoreCall::Abort { operation_id, active, guard } => StoreCallView::Abort { operation_id: operation_id@, active: active@, guard: guard@ },
            StoreCall::Amend { operation_id, active, guard, message } => StoreCallView::Amend { operation_id: operation_id@, active: active@, guard: guard@, message: text::option_text(*message) },
            StoreCall::BeginSplit { operation_id, active, guard } => StoreCallView::BeginSplit { operation_id: operation_id@, active: active@, guard: guard@ },
            StoreCall::CommitSplitPart { operation_id, active, guard, message } => StoreCallView::CommitSplitPart { operation_id: operation_id@, active: active@, guard: guard@, message: message@ },
            StoreCall::FinishSplit { operation_id, active, guard } => StoreCallView::FinishSplit { operation_id: operation_id@, active: active@, guard: guard@ },
            StoreCall::StageStashResolution { operation_id, expected, guard } => StoreCallView::StageStashResolution { operation_id: operation_id@, expected: expected@, guard: guard@ },
            StoreCall::StageResolution { operation_id, active, expected, guard } => StoreCallView::StageResolution { operation_id: operation_id@, active: active@, expected: expected@, guard: guard@ },
            StoreCall::RestoreStash { operation_id, guard } => StoreCallView::RestoreStash { operation_id: operation_id@, guard: guard@ },
            StoreCall::FinishStashRestore { operation_id, guard } => StoreCallView::FinishStashRestore { operation_id: operation_id@, guard: guard@ },
            StoreCall::Retire { operation_id } => StoreCallView::Retire { operation_id: operation_id@ },
        }
    }
}

/// What such a call returns.
#[derive(Debug, PartialEq, Eq)]
pub enum StoreReply {
    Prepared(RebasePreparation),
    Observed(RebaseOperationView),
    Retired,
}

#[verifier::ext_equal]
pub enum StoreReplyView {
    Prepared(RebasePreparationView),
    Observed(RebaseOperationViewView),
    Retired,
}

impl View for StoreReply {
    type V = StoreReplyView;

    open spec fn view(&self) -> StoreReplyView {
        match self {
            StoreReply::Prepared(x0) => StoreReplyView::Prepared(x0@),
            StoreReply::Observed(x0) => StoreReplyView::Observed(x0@),
            StoreReply::Retired => StoreReplyView::Retired,
        }
    }
}

/// Which conflicts are to be read.
#[derive(Debug, PartialEq, Eq)]
pub enum ConflictRead {
    Nothing,
    OfStash { operation_id: String },
    OfRebase { active: ActiveOperationIdentity },
}

#[verifier::ext_equal]
pub enum ConflictReadView {
    Nothing,
    OfStash { operation_id: Seq<char> },
    OfRebase { active: ActiveOperationIdentityView },
}

impl View for ConflictRead {
    type V = ConflictReadView;

    open spec fn view(&self) -> ConflictReadView {
        match self {
            ConflictRead::Nothing => ConflictReadView::Nothing,
            ConflictRead::OfStash { operation_id } => ConflictReadView::OfStash { operation_id: operation_id@ },
            ConflictRead::OfRebase { active } => ConflictReadView::OfRebase { active: active@ },
        }
    }
}

/// What a transition came to.
#[derive(Debug, PartialEq, Eq)]
pub struct RebaseEffectResult {
    pub preparation: Option<RebasePreparation>,
    pub operation: Option<RebaseOperationView>,
    pub conflicts: Vec<ConflictFile>,
    pub retired: bool,
    pub message: String,
}

#[verifier::ext_equal]
pub struct RebaseEffectResultView {
    pub preparation: Option<RebasePreparationView>,
    pub operation: Option<RebaseOperationViewView>,
    pub conflicts: Seq<ConflictFileView>,
    pub retired: bool,
    pub message: Seq<char>,
}

impl View for RebaseEffectResult {
    type V = RebaseEffectResultView;

    open spec fn view(&self) -> RebaseEffectResultView {
        RebaseEffectResultView {
            preparation: git::optional_rebase_preparation(self.preparation),
            operation: git::optional_rebase_operation_view(self.operation),
            conflicts: git::conflict_file_views(self.conflicts@),
            retired: self.retired,
            message: self.message@,
        }
    }
}

// ---------------------------------------------------------------------------
// Commands

pub open spec fn plan_label_of(action: PlanActionView) -> Seq<char> {
    match action {
        PlanActionView::Pick => "pick"@,
        PlanActionView::Squash => "squash"@,
        PlanActionView::Fixup => "fixup"@,
        PlanActionView::Drop => "drop"@,
        PlanActionView::Reword { .. } => "reword"@,
        PlanActionView::Edit => "edit"@,
    }
}

pub fn plan_action_label(action: &PlanAction) -> (r: &'static str)
    ensures
        r@ == plan_label_of(action@),
{
    match action {
        PlanAction::Pick => "pick",
        PlanAction::Squash => "squash",
        PlanAction::Fixup => "fixup",
        PlanAction::Drop => "drop",
        PlanAction::Reword { .. } => "reword",
        PlanAction::Edit => "edit",
    }
}

pub open spec fn command_summary_of(command: RebaseCommandView) -> Seq<char> {
    match command {
        RebaseCommandView::CreateStash(dirty) => "Stash "@ + text::decimal(dirty.staged as nat)
            + " staged, "@ + text::decimal(dirty.unstaged as nat) + " unstaged, and "@
            + text::decimal(dirty.untracked as nat)
            + " untracked entries (ignored files excluded)"@,
        RebaseCommandView::Start { plan, .. } => "Start the frozen "@ + text::decimal(
            plan.steps.len(),
        ) + "-commit linear rebase plan"@,
        RebaseCommandView::Amend { message, .. } => match message {
            Some(_) => "Amend the edit-stop commit with staged content and the displayed message"@,
            None => "Amend the edit-stop commit with staged content and keep its message"@,
        },
        RebaseCommandView::StageConflict { expected, .. } => "Re-read exact conflict stages and disk identity, then stage "@
            + expected.path.display,
        RebaseCommandView::Continue { .. } => "Continue the currently observed rebase"@,
        RebaseCommandView::Skip { .. } => "Skip the currently stopped replay commit"@,
        RebaseCommandView::Abort { .. } => "Abort this rebase. Git may discard recorded split/rebase edits and untracked obstructions at restored tracked paths during reset --hard/rebase --abort. This does not claim every untracked file is preserved."@,
        RebaseCommandView::BeginSplit { .. } => "Begin split: record the exact stop/tree, then mixed-reset the stopped commit"@,
        RebaseCommandView::CommitSplitPart { .. } => "Commit the currently staged split part"@,
        RebaseCommandView::FinishSplit { .. } => "Validate at least two replacements and the exact stopped tree, then finish the split"@,
        RebaseCommandView::RestoreStash { .. } => "Apply the exact retained stash with index metadata; never pop or delete it"@,
        RebaseCommandView::FinishStashRestore { .. } => "Finish the explicitly resolved stash restoration"@,
        RebaseCommandView::Retire { .. } => "Close and archive this conclusively inactive operation with its evidence"@,
    }
}

/// The state of the checkout that a command is for.
pub open spec fn command_guard_of(command: RebaseCommandView) -> Option<SnapshotGuardView> {
    match command {
        RebaseCommandView::CreateStash(dirty) => Some(dirty.guard),
        RebaseCommandView::Start { preparation, .. } => Some(preparation.guard),
        RebaseCommandView::Retire { .. } => None,
        RebaseCommandView::Continue { guard, .. } => Some(guard),
        RebaseCommandView::Skip { guard, .. } => Some(guard),
        RebaseCommandView::Abort { guard, .. } => Some(guard),
        RebaseCommandView::Amend { guard, .. } => Some(guard),
        RebaseCommandView::BeginSplit { guard, .. } => Some(guard),
        RebaseCommandView::CommitSplitPart { guard, .. } => Some(guard),
        RebaseCommandView::FinishSplit { guard, .. } => Some(guard),
        RebaseCommandView::StageConflict { guard, .. } => Some(guard),
        RebaseCommandView::RestoreStash { guard, .. } => Some(guard),
        RebaseCommandView::FinishStashRestore { guard, .. } => Some(guard),
    }
}

pub open spec fn optional_guard(g: Option<&SnapshotGuard>) -> Option<SnapshotGuardView> {
    match g {
        Some(x) => Some(x@),
        None => None,
    }
}

impl RebaseCommand {
    /// What a user is asked to confirm.
    pub fn summary(&self) -> (r: String)
        ensures
            r@ == command_summary_of(self@),
    {
        match self {
            RebaseCommand::CreateStash(dirty) => {
                let mut out: String = "Stash ".to_owned();
                out.append(&text::decimal_of_usize(dirty.staged));
                out.append(" staged, ");
                out.append(&text::decimal_of_usize(dirty.unstaged));
                out.append(" unstaged, and ");
                out.append(&text::decimal_of_usize(dirty.untracked));
                out.append(" untracked entries (ignored files excluded)");
                out
            },
            RebaseCommand::Start { plan, .. } => {
                let mut out: String = "Start the frozen ".to_owned();
                out.append(&text::decimal_of_usize(plan.steps.len()));
                out.append("-commit linear rebase plan");
                out
            },
            RebaseCommand::Amend { message, .. } => match message {
                Some(_) => "Amend the edit-stop commit with staged content and the displayed message".to_owned(),
                None => "Amend the edit-stop commit with staged content and keep its message".to_owned(),
            },
            RebaseCommand::StageConflict { expected, .. } => {
                let mut out: String = "Re-read exact conflict stages and disk identity, then stage ".to_owned();
                out.append(&expected.path.display);
                out
            },
            RebaseCommand::Continue { .. } => "Continue the currently observed rebase".to_owned(),
            RebaseCommand::Skip { .. } => "Skip the currently stopped replay commit".to_owned(),
            RebaseCommand::Abort { .. } => "Abort this rebase. Git may discard recorded split/rebase edits and untracked obstructions at restored tracked paths during reset --hard/rebase --abort. This does not claim every untracked file is preserved.".to_owned(),
            RebaseCommand::BeginSplit { .. } => "Begin split: record the exact stop/tree, then mixed-reset the stopped commit".to_owned(),
            RebaseCommand::CommitSplitPart { .. } => "Commit the currently staged split part".to_owned(),
            RebaseCommand::FinishSplit { .. } => "Validate at least two replacements and the exact stopped tree, then finish the split".to_owned(),
            RebaseCommand::RestoreStash { .. } => "Apply the exact retained stash with index metadata; never pop or delete it".to_owned(),
            RebaseCommand::FinishStashRestore { .. } => "Finish the explicitly resolved stash restoration".to_owned(),
            RebaseCommand::Retire { .. } => "Close and archive this conclusively inactive operation with its evidence".to_owned(),
        }
    }

    pub fn guard(&self) -> (r: Option<&SnapshotGuard>)
        ensures
            optional_guard(r) == command_guard_of(self@),
    {
        match self {
            RebaseCommand::CreateStash(dirty) => Some(&dirty.guard),
            RebaseCommand::Start { preparation, .. } => Some(&preparation.guard),
            RebaseCommand::Retire { .. } => None,
            RebaseCommand::Continue { guard, .. } => Some(guard),
            RebaseCommand::Skip { guard, .. } => Some(guard),
            RebaseCommand::Abort { guard, .. } => Some(guard),
            RebaseCommand::Amend { guard, .. } => Some(guard),
            RebaseCommand::BeginSplit { guard, .. } => Some(guard),
            RebaseCommand::CommitSplitPart { guard, .. } => Some(guard),
            RebaseCommand::FinishSplit { guard, .. } => Some(guard),
            RebaseCommand::StageConflict { guard, .. } => Some(guard),
            RebaseCommand::RestoreStash { guard, .. } => Some(guard),
            RebaseCommand::FinishStashRestore { guard, .. } => Some(guard),
        }
    }
}

// ---------------------------------------------------------------------------
// Frozen inputs

pub open spec fn frozen_step_of(steps: Seq<PlanStepView>, index: int) -> Seq<char> {
    let step = steps[index];
    text::decimal((index + 1) as nat) + ". "@ + plan_label_of(step.action) + " "@ + step.commit_oid
        + (match step.action {
        PlanActionView::Reword { message } => " message "@ + text::debug_of(message),
        _ => Seq::empty(),
    })
}

pub open spec fn frozen_plan_of(steps: Seq<PlanStepView>) -> Seq<char> {
    text::joined(Seq::new(steps.len(), |i: int| frozen_step_of(steps, i)), " · "@)
}

pub open spec fn frozen_description_of(inputs: RebaseEditableInputIdentityView) -> Option<
    Seq<char>,
> {
    match inputs {
        RebaseEditableInputIdentityView::NoInput => None,
        RebaseEditableInputIdentityView::Start {
            steps,
            prepared_base_oid,
            displayed_base,
            reword_editor,
        } => Some(
            "Frozen base "@ + prepared_base_oid + " (input "@ + text::debug_of(displayed_base)
                + ") · Frozen plan "@ + frozen_plan_of(steps) + (match reword_editor {
                Some(editor) => " · selected reword editor "@ + editor.commit_oid + " = "@
                    + text::debug_of(editor.message),
                None => Seq::empty(),
            }),
        ),
        RebaseEditableInputIdentityView::AmendMessage(message) => Some(
            "Frozen amend editor = "@ + text::debug_of(message),
        ),
        RebaseEditableInputIdentityView::SplitPartMessage(message) => Some(
            "Frozen split-part editor = "@ + text::debug_of(message),
        ),
    }
}

fn frozen_step(step: &PlanStep, index: usize) -> (r: String)
    requires
        index < usize::MAX,
    ensures
        forall|steps: Seq<PlanStepView>|
            index < steps.len() && steps[index as int] == step@ ==> r@ == #[trigger] frozen_step_of(
                steps,
                index as int,
            ),
{
    let mut out: String = text::decimal_of_usize(index + 1);
    out.append(". ");
    out.append(plan_action_label(&step.action));
    out.append(" ");
    out.append(&step.commit_oid);
    let mut detail: String = String::new();
    if let PlanAction::Reword { message } = &step.action {
        detail = " message ".to_owned();
        detail.append(&text::debug_text(message));
    }
    out.append(&detail);
    out
}

fn frozen_plan(steps: &Vec<PlanStep>) -> (r: String)
    ensures
        r@ == frozen_plan_of(git::plan_step_views(steps@)),
{
    let ghost all = git::plan_step_views(steps@);
    let mut parts: Vec<String> = Vec::new();
    let mut i: usize = 0;
    while i < steps.len()
        invariant
            all == git::plan_step_views(steps@),
            i <= steps@.len(),
            parts@.len() == i,
            forall|k: int| 0 <= k < i ==> (#[trigger] parts@[k])@ == frozen_step_of(all, k),
        decreases steps.len() - i,
    {
        let part = frozen_step(&steps[i], i);
        proof {
            assert(all[i as int] == steps@[i as int]@);
            assert(part@ == frozen_step_of(all, i as int));
        }
        parts.push(part);
        i += 1;
    }
    proof {
        assert(text::texts(parts@) =~= Seq::new(all.len(), |k: int| frozen_step_of(all, k)));
    }
    text::join(&parts, " · ")
}

impl RebaseEditableInputIdentity {
    /// What is said of the inputs while they are frozen.
    pub fn frozen_description(&self) -> (r: Option<String>)
        ensures
            text::option_text(r) == frozen_description_of(self@),
    {
        match self {
            RebaseEditableInputIdentity::NoInput => None,
            RebaseEditableInputIdentity::Start {
                steps,
                prepared_base_oid,
                displayed_base,
                reword_editor,
            } => {
                let mut out: String = "Frozen base ".to_owned();
                out.append(prepared_base_oid);
                out.append(" (input ");
                out.append(&text::debug_text(displayed_base));
                out.append(") · Frozen plan ");
                out.append(&frozen_plan(steps));
                let mut reword: String = String::new();
                if let Some(editor) = reword_editor {
                    reword = " · selected reword editor ".to_owned();
                    reword.append(&editor.commit_oid);
                    reword.append(" = ");
                    reword.append(&text::debug_text(&editor.message));
                }
                out.append(&reword);
                Some(out)
            },
            RebaseEditableInputIdentity::AmendMessage(message) => {
                let mut out: String = "Frozen amend editor = ".to_owned();
                out.append(&text::debug_text(message));
                Some(out)
            },
            RebaseEditableInputIdentity::SplitPartMessage(message) => {
                let mut out: String = "Frozen split-part editor = ".to_owned();
                out.append(&text::debug_text(message));
                Some(out)
            },
        }
    }
}

// ---------------------------------------------------------------------------
// Effects

pub open spec fn store_call_of(command: RebaseCommandView) -> Result<StoreCallView, Seq<char>> {
    match command {
        RebaseCommandView::CreateStash(dirty) => Ok(StoreCallView::CreateStash(dirty)),
        RebaseCommandView::Start { preparation, plan } => Ok(
            StoreCallView::Start { preparation, plan },
        ),
        RebaseCommandView::Amend { operation_id, active, guard, message } => Ok(
            StoreCallView::Amend { operation_id, active, guard, message },
        ),
        RebaseCommandView::CommitSplitPart { operation_id, active, guard, message } => Ok(
            StoreCallView::CommitSplitPart { operation_id, active, guard, message },
        ),
        RebaseCommandView::StageConflict {
            operation_id,
            active,
            expected,
            guard,
            stash_restore,
        } => if stash_restore {
            Ok(StoreCallView::StageStashResolution { operation_id, expected, guard })
        } else {
            match active {
                Some(active) => Ok(
                    StoreCallView::StageResolution { operation_id, active, expected, guard },
                ),
                None => Err("missing active rebase identity"@),
            }
        },
        RebaseCommandView::RestoreStash { operation_id, guard } => Ok(
            StoreCallView::RestoreStash { operation_id, guard },
        ),
        RebaseCommandView::FinishStashRestore { operation_id, guard } => Ok(
            StoreCallView::FinishStashRestore { operation_id, guard },
        ),
        RebaseCommandView::Retire { operation_id } => Ok(StoreCallView::Retire { operation_id }),
        RebaseCommandView::Continue { operation_id, active, guard } => Ok(
            StoreCallView::Continue { operation_id, active, guard },
        ),
        RebaseCommandView::Skip { operation_id, active, guard } => Ok(
            StoreCallView::Skip { operation_id, active, guard },
        ),
        RebaseCommandView::Abort { operation_id, active, guard } => Ok(
            StoreCallView::Abort { operation_id, active, guard },
        ),
        RebaseCommandView::BeginSplit { operation_id, active, guard } => Ok(
            StoreCallView::BeginSplit { operation_id, active, guard },
        ),
        RebaseCommandView::FinishSplit { operation_id, active, guard } => Ok(
            StoreCallView::FinishSplit { operation_id, active, guard },
        ),
    }
}

pub open spec fn store_call_view(r: Result<StoreCall, String>) -> Result<StoreCallView, Seq<char>> {
    match r {
        Ok(c) => Ok(c@),
        Err(e) => Err(e@),
    }
}

/// The call that carries a command out.
pub fn store_call(command: RebaseCommand) -> (r: Result<StoreCall, String>)
    ensures
        store_call_view(r) == store_call_of(command@),
{
    match command {
        RebaseCommand::CreateStash(dirty) => Ok(StoreCall::CreateStash(dirty)),
        RebaseCommand::Start { preparation, plan } => Ok(StoreCall::Start { preparation, plan }),
        RebaseCommand::Amend { operation_id, active, guard, message } => Ok(
            StoreCall::Amend { operation_id, active, guard, message },
        ),
        RebaseCommand::CommitSplitPart { operation_id, active, guard, message } => Ok(
            StoreCall::CommitSplitPart { operation_id, active, guard, message },
        ),
        RebaseCommand::StageConflict { operation_id, active, expected, guard, stash_restore } => {
            if stash_restore {
                Ok(StoreCall::StageStashResolution { operation_id, expected, guard })
            } else {
                match active {
                    Some(active) => Ok(
                        StoreCall::StageResolution { operation_id, active, expected, guard },
                    ),
                    None => Err("missing active rebase identity".to_owned()),
                }
            }
        },
        RebaseCommand::RestoreStash { operation_id, guard } => Ok(
            StoreCall::RestoreStash { operation_id, guard },
        ),
        RebaseCommand::FinishStashRestore { operation_id, guard } => Ok(
            StoreCall::FinishStashRestore { operation_id, guard },
        ),
        RebaseCommand::Retire { operation_id } => Ok(StoreCall::Retire { operation_id }),
        RebaseCommand::Continue { operation_id, active, guard } => Ok(
            StoreCall::Continue { operation_id, active, guard },
        ),
        RebaseCommand::Skip { operation_id, active, guard } => Ok(
            StoreCall::Skip { operation_id, active, guard },
        ),
        RebaseCommand::Abort { operation_id, active, guard } => Ok(
            StoreCall::Abort { operation_id, active, guard },
        ),
        RebaseCommand::BeginSplit { operation_id, active, guard } => Ok(
            StoreCall::BeginSplit { operation_id, active, guard },
        ),
        RebaseCommand::FinishSplit { operation_id, active, guard } => Ok(
            StoreCall::FinishSplit { operation_id, active, guard },
        ),
    }
}

/// The conflicts to read for an operation: those of its stash while that is being restored,
/// else its own while it is stopped at one.
pub open spec fn conflict_read_of(operation: Option<RebaseOperationViewView>) -> ConflictReadView {
    match operation {
        None => ConflictReadView::Nothing,
        Some(view) => if view.stash_restore is Conflicted {
            ConflictReadView::OfStash { operation_id: view.operation_id }
        } else if view.state is Conflicted && view.active is Some {
            ConflictReadView::OfRebase { active: view.active->0 }
        } else {
            ConflictReadView::Nothing
        },
    }
}

pub fn conflict_read(operation: &Option<RebaseOperationView>) -> (r: ConflictRead)
    ensures
        r@ == conflict_read_of(git::optional_rebase_operation_view(*operation)),
{
    match operation {
        None => ConflictRead::Nothing,
        Some(view) => {
            if let StashRestoreState::Conflicted = &view.stash_restore {
                return ConflictRead::OfStash { operation_id: view.operation_id.clone() };
            }
            if let RebaseState::Conflicted = &view.state {
                if let Some(active) = &view.active {
                    return ConflictRead::OfRebase { active: active.clone() };
                }
            }
            ConflictRead::Nothing
        },
    }
}

pub open spec fn replied_operation(reply: StoreReplyView) -> Option<RebaseOperationViewView> {
    match reply {
        StoreReplyView::Observed(operation) => Some(operation),
        _ => None,
    }
}

pub open spec fn effect_of(
    reply: StoreReplyView,
    conflicts: Seq<ConflictFileView>,
) -> RebaseEffectResultView {
    RebaseEffectResultView {
        preparation: match reply {
            StoreReplyView::Prepared(preparation) => Some(preparation),
            _ => None,
        },
        operation: replied_operation(reply),
        conflicts,
        retired: reply is Retired,
        message: if reply is Retired {
            "Operation safely archived; a second plan may now be prepared"@
        } else {
            "Transition completed; actual Git lifecycle state refreshed"@
        },
    }
}

/// What a transition came to, from the reply of the store and the conflicts read for it.
pub fn effect_result(reply: StoreReply, conflicts: Vec<ConflictFile>) -> (r: RebaseEffectResult)
    ensures
        r@ == effect_of(reply@, git::conflict_file_views(conflicts@)),
{
    let retired: bool = match &reply {
        StoreReply::Retired => true,
        _ => false,
    };
    let message: String = if retired {
        "Operation safely archived; a second plan may now be prepared".to_owned()
    } else {
        "Transition completed; actual Git lifecycle state refreshed".to_owned()
    };
    let (preparation, operation) = match reply {
        StoreReply::Prepared(preparation) => (Some(preparation), None),
        StoreReply::Observed(operation) => (None, Some(operation)),
        StoreReply::Retired => (None, None),
    };
    RebaseEffectResult { preparation, operation, conflicts, retired, message }
}

// ---------------------------------------------------------------------------
// Laws

/// Every command but the closing of an operation is bound to a state of the checkout, and the
/// call that carries it out has the same operation and the same state.
pub proof fn law_calls_carry_what_was_confirmed(command: RebaseCommandView)
    ensures
        command_guard_of(command) is None <==> command is Retire,
        store_call_of(command) is Err <==> (command matches RebaseCommandView::StageConflict {
            active,
            stash_restore,
            ..
        } && !stash_restore && active is None),
        command matches RebaseCommandView::Abort { operation_id, active, guard } ==> store_call_of(
            command,
        ) == Ok::<StoreCallView, Seq<char>>(
            StoreCallView::Abort { operation_id, active, guard },
        ),
{
}

} // verus!

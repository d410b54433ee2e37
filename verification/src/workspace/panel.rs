//! What the rebase panel shows.

use vstd::prelude::*;
use vstd::string::*;

use crate::text;
use crate::workspace::command;
use crate::workspace::conflict;
use crate::workspace::conflict::{
    ConflictContextState, ConflictPresentation, ConflictPresentationView, ConflictSource,
};
use crate::workspace::git;
use crate::workspace::git::{
    BranchOid, BranchOidView, CommitEntryView, CommitInventory, CommitInventoryView, ConflictFile,
    ConflictFileView, ConflictKind, ConflictKindView, DirtyPreparation, DirtyPreparationView,
    DiskGeneration, DiskGenerationView, LocalSnapshot, LocalSnapshotView, PrepareOutcome,
    PrepareOutcomeView, RebaseOperationView, RebaseOperationViewView, RebaseState, RebaseStateView,
    SplitState, SplitStateView, StashReceipt, StashReceiptView, StashRestoreState,
    StashRestoreStateView,
};
use crate::workspace::lifecycle;
use crate::workspace::rebase;
use crate::workspace::rebase::{LocalWorkspace, LocalWorkspaceView};

verus! {

/// The number of characters of a short object identifier.
pub const SHORT_OID: usize = 10;

/// What a button does: one of the methods of the workspace.
#[derive(Debug, PartialEq, Eq)]
pub enum PanelControl {
    RouteDirtyCommit,
    CreateStash,
    CancelPreparation,
    RequestStart,
    Prepare,
    Toggle,
    Pick,
    Squash,
    Fixup,
    Drop,
    Reword,
    Edit,
    MoveUp,
    MoveDown,
    CloseConflict,
    ToggleConflictDetails,
    RefreshConflict,
    StagePresented,
    ToggleOperationDetails,
    CommitSplitPart,
    FinishSplit,
    Abort,
    Amend,
    BeginSplit,
    Continue,
    Skip,
    FinishStashRestore,
    Observe,
    RestoreStash,
    Retire,
    SelectBase { oid: String },
    Confirm { request_id: u64 },
    CancelRequest { request_id: u64 },
    SelectSource { source: ConflictSource },
    OpenConflict { index: usize },
    StageConflict { index: usize },
    RouteToLocalChanges { status: String },
}

#[verifier::ext_equal]
pub enum PanelControlView {
    RouteDirtyCommit,
    CreateStash,
    CancelPreparation,
    RequestStart,
    Prepare,
    Toggle,
    Pick,
    Squash,
    Fixup,
    Drop,
    Reword,
    Edit,
    MoveUp,
    MoveDown,
    CloseConflict,
    ToggleConflictDetails,
    RefreshConflict,
    StagePresented,
    ToggleOperationDetails,
    CommitSplitPart,
    FinishSplit,
    Abort,
    Amend,
    BeginSplit,
    Continue,
    Skip,
    FinishStashRestore,
    Observe,
    RestoreStash,
    Retire,
    SelectBase { oid: Seq<char> },
    Confirm { request_id: u64 },
    CancelRequest { request_id: u64 },
    SelectSource { source: ConflictSource },
    OpenConflict { index: usize },
    StageConflict { index: usize },
    RouteToLocalChanges { status: Seq<char> },
}

impl View for PanelControl {
    type V = PanelControlView;

    open spec fn view(&self) -> PanelControlView {
        match self {
            PanelControl::RouteDirtyCommit => PanelControlView::RouteDirtyCommit,
            PanelControl::CreateStash => PanelControlView::CreateStash,
            PanelControl::CancelPreparation => PanelControlView::CancelPreparation,
            PanelControl::RequestStart => PanelControlView::RequestStart,
            PanelControl::Prepare => PanelControlView::Prepare,
            PanelControl::Toggle => PanelControlView::Toggle,
            PanelControl::Pick => PanelControlView::Pick,
            PanelControl::Squash => PanelControlView::Squash,
            PanelControl::Fixup => PanelControlView::Fixup,
            PanelControl::Drop => PanelControlView::Drop,
            PanelControl::Reword => PanelControlView::Reword,
            PanelControl::Edit => PanelControlView::Edit,
            PanelControl::MoveUp => PanelControlView::MoveUp,
            PanelControl::MoveDown => PanelControlView::MoveDown,
            PanelControl::CloseConflict => PanelControlView::CloseConflict,
            PanelControl::ToggleConflictDetails => PanelControlView::ToggleConflictDetails,
            PanelControl::RefreshConflict => PanelControlView::RefreshConflict,
            PanelControl::StagePresented => PanelControlView::StagePresented,
            PanelControl::ToggleOperationDetails => PanelControlView::ToggleOperationDetails,
            PanelControl::CommitSplitPart => PanelControlView::CommitSplitPart,
            PanelControl::FinishSplit => PanelControlView::FinishSplit,
            PanelControl::Abort => PanelControlView::Abort,
            PanelControl::Amend => PanelControlView::Amend,
            PanelControl::BeginSplit => PanelControlView::BeginSplit,
            PanelControl::Continue => PanelControlView::Continue,
            PanelControl::Skip => PanelControlView::Skip,
            PanelControl::FinishStashRestore => PanelControlView::FinishStashRestore,
            PanelControl::Observe => PanelControlView::Observe,
            PanelControl::RestoreStash => PanelControlView::RestoreStash,
            PanelControl::Retire => PanelControlView::Retire,
            PanelControl::SelectBase { oid } => PanelControlView::SelectBase { oid: oid@ },
            PanelControl::Confirm { request_id } => PanelControlView::Confirm { request_id: *request_id },
            PanelControl::CancelRequest { request_id } => PanelControlView::CancelRequest { request_id: *request_id },
            PanelControl::SelectSource { source } => PanelControlView::SelectSource { source: *source },
            PanelControl::OpenConflict { index } => PanelControlView::OpenConflict { index: *index },
            PanelControl::StageConflict { index } => PanelControlView::StageConflict { index: *index },
            PanelControl::RouteToLocalChanges { status } => PanelControlView::RouteToLocalChanges { status: status@ },
        }
    }
}

/// A button. A frozen one is shown as such.
#[derive(Debug, PartialEq, Eq)]
pub struct PanelButton {
    pub label: String,
    pub control: PanelControl,
    pub frozen: bool,
    pub selected: bool,
}

#[verifier::ext_equal]
pub struct PanelButtonView {
    pub label: Seq<char>,
    pub control: PanelControlView,
    pub frozen: bool,
    pub selected: bool,
}

impl View for PanelButton {
    type V = PanelButtonView;

    open spec fn view(&self) -> PanelButtonView {
        PanelButtonView {
            label: self.label@,
            control: self.control@,
            frozen: self.frozen,
            selected: self.selected,
        }
    }
}

pub open spec fn optional_panel_button(x: Option<PanelButton>) -> Option<PanelButtonView> {
    match x {
        Some(v) => Some(v@),
        None => None,
    }
}

pub open spec fn panel_button_views(s: Seq<PanelButton>) -> Seq<PanelButtonView> {
    s.map_values(|x: PanelButton| x@)
}

#[derive(Debug, PartialEq, Eq)]
pub struct Notice {
    pub title: String,
    pub body: String,
}

#[verifier::ext_equal]
pub struct NoticeView {
    pub title: Seq<char>,
    pub body: Seq<char>,
}

impl View for Notice {
    type V = NoticeView;

    open spec fn view(&self) -> NoticeView {
        NoticeView {
            title: self.title@,
            body: self.body@,
        }
    }
}

pub open spec fn optional_notice(x: Option<Notice>) -> Option<NoticeView> {
    match x {
        Some(v) => Some(v@),
        None => None,
    }
}

/// One step of the plan.
#[derive(Debug, PartialEq, Eq)]
pub struct PlanRow {
    pub id: String,
    pub action: String,
    pub oid: String,
    pub title: String,
    pub selected: bool,
    pub frozen: bool,
}

#[verifier::ext_equal]
pub struct PlanRowView {
    pub id: Seq<char>,
    pub action: Seq<char>,
    pub oid: Seq<char>,
    pub title: Seq<char>,
    pub selected: bool,
    pub frozen: bool,
}

impl View for PlanRow {
    type V = PlanRowView;

    open spec fn view(&self) -> PlanRowView {
        PlanRowView {
            id: self.id@,
            action: self.action@,
            oid: self.oid@,
            title: self.title@,
            selected: self.selected,
            frozen: self.frozen,
        }
    }
}

pub open spec fn plan_row_views(s: Seq<PlanRow>) -> Seq<PlanRowView> {
    s.map_values(|x: PlanRow| x@)
}

/// One side of a conflict.
#[derive(Debug, PartialEq, Eq)]
pub struct SourcePanel {
    pub id: String,
    pub label: String,
    pub selected: bool,
    pub summary: String,
    pub details: Option<String>,
    pub count: usize,
    pub widest: usize,
}

#[verifier::ext_equal]
pub struct SourcePanelView {
    pub id: Seq<char>,
    pub label: Seq<char>,
    pub selected: bool,
    pub summary: Seq<char>,
    pub details: Option<Seq<char>>,
    pub count: usize,
    pub widest: usize,
}

impl View for SourcePanel {
    type V = SourcePanelView;

    open spec fn view(&self) -> SourcePanelView {
        SourcePanelView {
            id: self.id@,
            label: self.label@,
            selected: self.selected,
            summary: self.summary@,
            details: text::option_text(self.details),
            count: self.count,
            widest: self.widest,
        }
    }
}

pub open spec fn source_panel_views(s: Seq<SourcePanel>) -> Seq<SourcePanelView> {
    s.map_values(|x: SourcePanel| x@)
}

/// A conflict that is open.
#[derive(Debug, PartialEq, Eq)]
pub struct ConflictPanel {
    pub heading: String,
    pub path: String,
    pub operation: Option<String>,
    pub close: PanelButton,
    pub explanation: Option<Notice>,
    pub selectors: Vec<PanelButton>,
    pub details: PanelButton,
    pub refresh: Option<PanelButton>,
    pub hint: String,
    pub sources: Vec<SourcePanel>,
    pub result: Notice,
    pub stage: Option<PanelButton>,
    pub advice: String,
}

#[verifier::ext_equal]
pub struct ConflictPanelView {
    pub heading: Seq<char>,
    pub path: Seq<char>,
    pub operation: Option<Seq<char>>,
    pub close: PanelButtonView,
    pub explanation: Option<NoticeView>,
    pub selectors: Seq<PanelButtonView>,
    pub details: PanelButtonView,
    pub refresh: Option<PanelButtonView>,
    pub hint: Seq<char>,
    pub sources: Seq<SourcePanelView>,
    pub result: NoticeView,
    pub stage: Option<PanelButtonView>,
    pub advice: Seq<char>,
}

impl View for ConflictPanel {
    type V = ConflictPanelView;

    open spec fn view(&self) -> ConflictPanelView {
        ConflictPanelView {
            heading: self.heading@,
            path: self.path@,
            operation: text::option_text(self.operation),
            close: self.close@,
            explanation: optional_notice(self.explanation),
            selectors: panel_button_views(self.selectors@),
            details: self.details@,
            refresh: optional_panel_button(self.refresh),
            hint: self.hint@,
            sources: source_panel_views(self.sources@),
            result: self.result@,
            stage: optional_panel_button(self.stage),
            advice: self.advice@,
        }
    }
}

pub open spec fn optional_conflict_panel(x: Option<ConflictPanel>) -> Option<ConflictPanelView> {
    match x {
        Some(v) => Some(v@),
        None => None,
    }
}

/// A conflict in the list.
#[derive(Debug, PartialEq, Eq)]
pub struct ConflictCard {
    pub path: String,
    pub reason: String,
    pub orientation: String,
    pub open: PanelButton,
    pub stage: PanelButton,
}

#[verifier::ext_equal]
pub struct ConflictCardView {
    pub path: Seq<char>,
    pub reason: Seq<char>,
    pub orientation: Seq<char>,
    pub open: PanelButtonView,
    pub stage: PanelButtonView,
}

impl View for ConflictCard {
    type V = ConflictCardView;

    open spec fn view(&self) -> ConflictCardView {
        ConflictCardView {
            path: self.path@,
            reason: self.reason@,
            orientation: self.orientation@,
            open: self.open@,
            stage: self.stage@,
        }
    }
}

pub open spec fn conflict_card_views(s: Seq<ConflictCard>) -> Seq<ConflictCardView> {
    s.map_values(|x: ConflictCard| x@)
}

/// A rebase that is under way or over.
#[derive(Debug, PartialEq, Eq)]
pub struct OperationPanel {
    pub heading: String,
    pub original_head: String,
    pub branch: String,
    pub base: String,
    pub stopped: Option<String>,
    pub details_button: PanelButton,
    pub details_heading: Option<String>,
    pub details: Vec<String>,
    pub split: Option<Notice>,
    pub conflicts_heading: Option<String>,
    pub conflicts: Vec<ConflictCard>,
    pub stash: Option<Notice>,
    pub message_label: Option<String>,
    pub results_heading: Option<String>,
    pub results: Vec<String>,
    pub notice: Option<Notice>,
    pub buttons: Vec<PanelButton>,
}

#[verifier::ext_equal]
pub struct OperationPanelView {
    pub heading: Seq<char>,
    pub original_head: Seq<char>,
    pub branch: Seq<char>,
    pub base: Seq<char>,
    pub stopped: Option<Seq<char>>,
    pub details_button: PanelButtonView,
    pub details_heading: Option<Seq<char>>,
    pub details: Seq<Seq<char>>,
    pub split: Option<NoticeView>,
    pub conflicts_heading: Option<Seq<char>>,
    pub conflicts: Seq<ConflictCardView>,
    pub stash: Option<NoticeView>,
    pub message_label: Option<Seq<char>>,
    pub results_heading: Option<Seq<char>>,
    pub results: Seq<Seq<char>>,
    pub notice: Option<NoticeView>,
    pub buttons: Seq<PanelButtonView>,
}

impl View for OperationPanel {
    type V = OperationPanelView;

    open spec fn view(&self) -> OperationPanelView {
        OperationPanelView {
            heading: self.heading@,
            original_head: self.original_head@,
            branch: self.branch@,
            base: self.base@,
            stopped: text::option_text(self.stopped),
            details_button: self.details_button@,
            details_heading: text::option_text(self.details_heading),
            details: text::texts(self.details@),
            split: optional_notice(self.split),
            conflicts_heading: text::option_text(self.conflicts_heading),
            conflicts: conflict_card_views(self.conflicts@),
            stash: optional_notice(self.stash),
            message_label: text::option_text(self.message_label),
            results_heading: text::option_text(self.results_heading),
            results: text::texts(self.results@),
            notice: optional_notice(self.notice),
            buttons: panel_button_views(self.buttons@),
        }
    }
}

pub open spec fn optional_operation_panel(x: Option<OperationPanel>) -> Option<OperationPanelView> {
    match x {
        Some(v) => Some(v@),
        None => None,
    }
}

/// What was prepared.
#[derive(Debug, PartialEq, Eq)]
pub struct PreparationPanel {
    pub summary: Vec<String>,
    pub notice: Option<Notice>,
    pub plan_heading: Option<Notice>,
    pub rows: Vec<PlanRow>,
    pub editor: Vec<PanelButton>,
    pub buttons: Vec<PanelButton>,
}

#[verifier::ext_equal]
pub struct PreparationPanelView {
    pub summary: Seq<Seq<char>>,
    pub notice: Option<NoticeView>,
    pub plan_heading: Option<NoticeView>,
    pub rows: Seq<PlanRowView>,
    pub editor: Seq<PanelButtonView>,
    pub buttons: Seq<PanelButtonView>,
}

impl View for PreparationPanel {
    type V = PreparationPanelView;

    open spec fn view(&self) -> PreparationPanelView {
        PreparationPanelView {
            summary: text::texts(self.summary@),
            notice: optional_notice(self.notice),
            plan_heading: optional_notice(self.plan_heading),
            rows: plan_row_views(self.rows@),
            editor: panel_button_views(self.editor@),
            buttons: panel_button_views(self.buttons@),
        }
    }
}

pub open spec fn optional_preparation_panel(x: Option<PreparationPanel>) -> Option<PreparationPanelView> {
    match x {
        Some(v) => Some(v@),
        None => None,
    }
}

/// What is to be confirmed.
#[derive(Debug, PartialEq, Eq)]
pub struct ConfirmationPanel {
    pub notice: Notice,
    pub frozen: Option<String>,
    pub hint: String,
    pub buttons: Vec<PanelButton>,
}

#[verifier::ext_equal]
pub struct ConfirmationPanelView {
    pub notice: NoticeView,
    pub frozen: Option<Seq<char>>,
    pub hint: Seq<char>,
    pub buttons: Seq<PanelButtonView>,
}

impl View for ConfirmationPanel {
    type V = ConfirmationPanelView;

    open spec fn view(&self) -> ConfirmationPanelView {
        ConfirmationPanelView {
            notice: self.notice@,
            frozen: text::option_text(self.frozen),
            hint: self.hint@,
            buttons: panel_button_views(self.buttons@),
        }
    }
}

pub open spec fn optional_confirmation_panel(x: Option<ConfirmationPanel>) -> Option<ConfirmationPanelView> {
    match x {
        Some(v) => Some(v@),
        None => None,
    }
}

/// The whole panel: a conflict, an operation, what was prepared, or the bases to choose from.
#[derive(Debug, PartialEq, Eq)]
pub struct PanelContent {
    pub heading: Notice,
    pub back: PanelButton,
    pub conflict: Option<ConflictPanel>,
    pub operation: Option<OperationPanel>,
    pub preparation: Option<PreparationPanel>,
    pub base_heading: Option<Notice>,
    pub base_placeholder: Option<String>,
    pub choices: Vec<PanelButton>,
    pub confirmation: Option<ConfirmationPanel>,
    pub status: String,
}

#[verifier::ext_equal]
pub struct PanelContentView {
    pub heading: NoticeView,
    pub back: PanelButtonView,
    pub conflict: Option<ConflictPanelView>,
    pub operation: Option<OperationPanelView>,
    pub preparation: Option<PreparationPanelView>,
    pub base_heading: Option<NoticeView>,
    pub base_placeholder: Option<Seq<char>>,
    pub choices: Seq<PanelButtonView>,
    pub confirmation: Option<ConfirmationPanelView>,
    pub status: Seq<char>,
}

impl View for PanelContent {
    type V = PanelContentView;

    open spec fn view(&self) -> PanelContentView {
        PanelContentView {
            heading: self.heading@,
            back: self.back@,
            conflict: optional_conflict_panel(self.conflict),
            operation: optional_operation_panel(self.operation),
            preparation: optional_preparation_panel(self.preparation),
            base_heading: optional_notice(self.base_heading),
            base_placeholder: text::option_text(self.base_placeholder),
            choices: panel_button_views(self.choices@),
            confirmation: optional_confirmation_panel(self.confirmation),
            status: self.status@,
        }
    }
}

pub open spec fn button_of(
    label: Seq<char>,
    control: PanelControlView,
    frozen: bool,
    selected: bool,
) -> PanelButtonView {
    PanelButtonView { label, control, frozen, selected }
}

/// A button that is neither frozen nor selected.
pub open spec fn plain_of(label: Seq<char>, control: PanelControlView) -> PanelButtonView {
    button_of(label, control, false, false)
}

fn button(label: &str, control: PanelControl, frozen: bool, selected: bool) -> (r: PanelButton)
    ensures
        r@ == button_of(label@, control@, frozen, selected),
{
    PanelButton { label: label.to_owned(), control, frozen, selected }
}

fn plain(label: &str, control: PanelControl) -> (r: PanelButton)
    ensures
        r@ == plain_of(label@, control@),
{
    button(label, control, false, false)
}

fn notice(title: &str, body: &str) -> (r: Notice)
    ensures
        r@ == (NoticeView { title: title@, body: body@ }),
{
    Notice { title: title.to_owned(), body: body.to_owned() }
}

pub open spec fn bool_of(b: bool) -> Seq<char> {
    if b {
        "true"@
    } else {
        "false"@
    }
}

fn bool_text(b: bool) -> (r: &'static str)
    ensures
        r@ == bool_of(b),
{
    if b {
        "true"
    } else {
        "false"
    }
}

pub open spec fn short_of(oid: Seq<char>) -> Seq<char> {
    text::prefix_of(oid, SHORT_OID as nat)
}

pub fn short_oid(oid: &str) -> (r: String)
    ensures
        r@ == short_of(oid@),
{
    text::prefix(oid, SHORT_OID)
}

pub open spec fn headline_of(message: Seq<char>) -> Seq<char> {
    text::first_line_of(message, "(empty message)"@)
}

pub fn first_line(message: &str) -> (r: String)
    ensures
        r@ == headline_of(message@),
{
    text::first_line(message, "(empty message)")
}

// ---------------------------------------------------------------------------
// Labels

pub open spec fn state_label_of(state: RebaseStateView) -> Seq<char> {
    match state {
        RebaseStateView::Prepared => "Ready to start"@,
        RebaseStateView::Running => "Rebase running"@,
        RebaseStateView::PausedForEdit => "Paused for editing"@,
        RebaseStateView::Conflicted => "Conflicts to resolve"@,
        RebaseStateView::Completed => "Rebase completed"@,
        RebaseStateView::Aborted => "Rebase aborted"@,
        RebaseStateView::FailedUncertain => "Outcome uncertain"@,
    }
}

pub fn operation_state_label(state: &RebaseState) -> (r: &'static str)
    ensures
        r@ == state_label_of(state@),
{
    match state {
        RebaseState::Prepared => "Ready to start",
        RebaseState::Running => "Rebase running",
        RebaseState::PausedForEdit => "Paused for editing",
        RebaseState::Conflicted => "Conflicts to resolve",
        RebaseState::Completed => "Rebase completed",
        RebaseState::Aborted => "Rebase aborted",
        RebaseState::FailedUncertain => "Outcome uncertain",
    }
}

pub open spec fn disk_label_of(disk: DiskGenerationView) -> Seq<char> {
    match disk {
        DiskGenerationView::Missing => "missing"@,
        DiskGenerationView::Symlink { target_sha256 } => "symlink target sha256 "@ + short_of(
            target_sha256,
        ),
        DiskGenerationView::Regular { sha256, len, device, inode, .. } => "regular sha256 "@
            + short_of(sha256) + " · "@ + text::decimal(len as nat) + " bytes · dev "@
            + text::decimal(device as nat) + " inode "@ + text::decimal(inode as nat),
        DiskGenerationView::Unsupported => "unsupported entry"@,
    }
}

pub fn disk_label(disk: &DiskGeneration) -> (r: String)
    ensures
        r@ == disk_label_of(disk@),
{
    match disk {
        DiskGeneration::Missing => "missing".to_owned(),
        DiskGeneration::Symlink { target_sha256 } => {
            let mut out: String = "symlink target sha256 ".to_owned();
            out.append(&short_oid(target_sha256));
            out
        },
        DiskGeneration::Regular { sha256, len, device, inode, .. } => {
            let mut out: String = "regular sha256 ".to_owned();
            out.append(&short_oid(sha256));
            out.append(" · ");
            out.append(&text::decimal_text(*len));
            out.append(" bytes · dev ");
            out.append(&text::decimal_text(*device));
            out.append(" inode ");
            out.append(&text::decimal_text(*inode));
            out
        },
        DiskGeneration::Unsupported => "unsupported entry".to_owned(),
    }
}

pub open spec fn conflict_kind_of(kind: ConflictKindView) -> Seq<char> {
    match kind {
        ConflictKindView::BothModified => "Both sides modified this file"@,
        ConflictKindView::AddedByBoth => "Both sides added this file"@,
        ConflictKindView::DeletedByOurs => "Deleted in the already-rebased changes and modified by the replayed commit"@,
        ConflictKindView::DeletedByTheirs => "Modified in the already-rebased changes and deleted by the replayed commit"@,
        ConflictKindView::RenameOrDelete { explanation, .. } => "Rename or delete conflict: "@
            + explanation,
        ConflictKindView::TypeChange => "The file type changed across sides"@,
    }
}

pub open spec fn conflict_reason_of(file: ConflictFileView, show_details: bool) -> Seq<char> {
    let short = conflict_kind_of(file.kind) + " · "@
        + "resolve the result in an external editor; cibergit will not create, delete, or stage it implicitly"@;
    if show_details {
        short + " · disk "@ + disk_label_of(file.disk)
    } else {
        short
    }
}

pub fn conflict_reason(file: &ConflictFile, show_details: bool) -> (r: String)
    ensures
        r@ == conflict_reason_of(file@, show_details),
{
    let mut out: String = match &file.kind {
        ConflictKind::BothModified => "Both sides modified this file".to_owned(),
        ConflictKind::AddedByBoth => "Both sides added this file".to_owned(),
        ConflictKind::DeletedByOurs => "Deleted in the already-rebased changes and modified by the replayed commit".to_owned(),
        ConflictKind::DeletedByTheirs => "Modified in the already-rebased changes and deleted by the replayed commit".to_owned(),
        ConflictKind::RenameOrDelete { explanation, .. } => {
            let mut s: String = "Rename or delete conflict: ".to_owned();
            s.append(explanation);
            s
        },
        ConflictKind::TypeChange => "The file type changed across sides".to_owned(),
    };
    out.append(" · ");
    out.append(
        "resolve the result in an external editor; cibergit will not create, delete, or stage it implicitly",
    );
    if show_details {
        out.append(" · disk ");
        out.append(&disk_label(&file.disk));
    }
    out
}

// ---------------------------------------------------------------------------
// The plan

pub open spec fn plan_row_of(w: LocalWorkspaceView, index: int, frozen: bool) -> PlanRowView {
    let step = w.rebase.steps[index];
    PlanRowView {
        id: "rebase-step-"@ + text::decimal(index as nat),
        action: command::plan_label_of(step.action),
        oid: short_of(step.commit_oid),
        title: match rebase::inventory_of(w.rebase) {
            None => "unknown commit"@,
            Some(inventory) => match rebase::commit_message_of(
                inventory.commits,
                step.commit_oid,
            ) {
                Some(message) => headline_of(message),
                None => "unknown commit"@,
            },
        },
        selected: w.rebase.selected_step matches Some(i) && i == index,
        frozen,
    }
}

pub open spec fn plan_rows_of(w: LocalWorkspaceView, frozen: bool) -> Seq<PlanRowView> {
    Seq::new(w.rebase.steps.len(), |i: int| plan_row_of(w, i, frozen))
}

fn render_plan_rows(w: &LocalWorkspace, frozen: bool) -> (r: Vec<PlanRow>)
    ensures
        plan_row_views(r@) == plan_rows_of(w@, frozen),
{
    let mut out: Vec<PlanRow> = Vec::new();
    let mut i: usize = 0;
    while i < w.rebase.steps.len()
        invariant
            i <= w.rebase.steps@.len(),
            out@.len() == i,
            forall|k: int| 0 <= k < i ==> (#[trigger] out@[k])@ == plan_row_of(w@, k, frozen),
        decreases w.rebase.steps.len() - i,
    {
        let step = &w.rebase.steps[i];
        proof {
            assert(w@.rebase.steps[i as int] == step@);
        }
        let mut id: String = "rebase-step-".to_owned();
        id.append(&text::decimal_of_usize(i));
        let message: Option<String> = match &w.rebase.preparation {
            Some(PrepareOutcome::Ready(p)) => rebase::commit_message(
                &p.inventory.commits,
                &step.commit_oid,
            ),
            Some(PrepareOutcome::Dirty(p)) => rebase::commit_message(
                &p.inventory.commits,
                &step.commit_oid,
            ),
            _ => None,
        };
        let title: String = match &message {
            Some(m) => first_line(m),
            None => "unknown commit".to_owned(),
        };
        let selected: bool = match w.rebase.selected_step {
            Some(s) => s == i,
            None => false,
        };
        out.push(
            PlanRow {
                id,
                action: command::plan_action_label(&step.action).to_owned(),
                oid: short_oid(&step.commit_oid),
                title,
                selected,
                frozen,
            },
        );
        i += 1;
    }
    proof {
        assert(plan_row_views(out@) =~= plan_rows_of(w@, frozen));
    }
    out
}

pub open spec fn plan_editor_of(frozen: bool) -> Seq<PanelButtonView> {
    seq![
        button_of("Pick"@, PanelControlView::Pick, frozen, false),
        button_of("Squash"@, PanelControlView::Squash, frozen, false),
        button_of("Fixup"@, PanelControlView::Fixup, frozen, false),
        button_of("Drop"@, PanelControlView::Drop, frozen, false),
        button_of("Reword"@, PanelControlView::Reword, frozen, false),
        button_of("Edit"@, PanelControlView::Edit, frozen, false),
        button_of("Move up"@, PanelControlView::MoveUp, frozen, false),
        button_of("Move down"@, PanelControlView::MoveDown, frozen, false),
    ]
}

pub fn render_plan_editor(frozen: bool) -> (r: Vec<PanelButton>)
    ensures
        panel_button_views(r@) == plan_editor_of(frozen),
{
    let mut out: Vec<PanelButton> = Vec::new();
    out.push(button("Pick", PanelControl::Pick, frozen, false));
    out.push(button("Squash", PanelControl::Squash, frozen, false));
    out.push(button("Fixup", PanelControl::Fixup, frozen, false));
    out.push(button("Drop", PanelControl::Drop, frozen, false));
    out.push(button("Reword", PanelControl::Reword, frozen, false));
    out.push(button("Edit", PanelControl::Edit, frozen, false));
    out.push(button("Move up", PanelControl::MoveUp, frozen, false));
    out.push(button("Move down", PanelControl::MoveDown, frozen, false));
    proof {
        assert(panel_button_views(out@) =~= plan_editor_of(frozen));
    }
    out
}

pub open spec fn preparation_summary_of(outcome: PrepareOutcomeView) -> Seq<Seq<char>> {
    match outcome {
        PrepareOutcomeView::Ready(p) => inventory_summary_of(p.inventory),
        PrepareOutcomeView::Dirty(p) => inventory_summary_of(p.inventory),
        PrepareOutcomeView::ExternalWorkflow { .. } => Seq::empty(),
    }
}

pub open spec fn inventory_summary_of(inventory: CommitInventoryView) -> Seq<Seq<char>> {
    seq![
        text::decimal(inventory.commits.len()) + " commits · "@ + inventory.branch,
        "base "@ + inventory.base_oid,
        "head "@ + inventory.head_oid,
    ]
}

fn inventory_summary(inventory: &CommitInventory) -> (r: Vec<String>)
    ensures
        text::texts(r@) == inventory_summary_of(inventory@),
{
    let mut commits: String = text::decimal_of_usize(inventory.commits.len());
    commits.append(" commits · ");
    commits.append(&inventory.branch);
    let mut base: String = "base ".to_owned();
    base.append(&inventory.base_oid);
    let mut head: String = "head ".to_owned();
    head.append(&inventory.head_oid);
    let mut out: Vec<String> = Vec::new();
    out.push(commits);
    out.push(base);
    out.push(head);
    proof {
        assert(text::texts(out@) =~= inventory_summary_of(inventory@));
    }
    out
}

pub fn render_preparation_summary(outcome: &PrepareOutcome) -> (r: Vec<String>)
    ensures
        text::texts(r@) == preparation_summary_of(outcome@),
{
    match outcome {
        PrepareOutcome::Ready(p) => inventory_summary(&p.inventory),
        PrepareOutcome::Dirty(p) => inventory_summary(&p.inventory),
        PrepareOutcome::ExternalWorkflow { .. } => {
            let out: Vec<String> = Vec::new();
            proof {
                assert(text::texts(out@) =~= Seq::<Seq<char>>::empty());
            }
            out
        },
    }
}

pub open spec fn dirty_notice_of(dirty: DirtyPreparationView) -> NoticeView {
    NoticeView {
        title: "Dirty checkout"@,
        body: text::decimal(dirty.staged as nat) + " staged · "@ + text::decimal(
            dirty.unstaged as nat,
        ) + " unstaged · "@ + text::decimal(dirty.untracked as nat) + " untracked · "@
            + text::decimal(dirty.conflicts as nat)
            + " conflicts. Stash includes untracked; ignored files remain outside it. The exact retained stash receipt appears after creation."@,
    }
}

fn dirty_notice(dirty: &DirtyPreparation) -> (r: Notice)
    ensures
        r@ == dirty_notice_of(dirty@),
{
    let mut body: String = text::decimal_of_usize(dirty.staged);
    body.append(" staged · ");
    body.append(&text::decimal_of_usize(dirty.unstaged));
    body.append(" unstaged · ");
    body.append(&text::decimal_of_usize(dirty.untracked));
    body.append(" untracked · ");
    body.append(&text::decimal_of_usize(dirty.conflicts));
    body.append(
        " conflicts. Stash includes untracked; ignored files remain outside it. The exact retained stash receipt appears after creation.",
    );
    Notice { title: "Dirty checkout".to_owned(), body }
}

pub open spec fn preparation_panel_of(
    w: LocalWorkspaceView,
    outcome: PrepareOutcomeView,
    frozen: bool,
) -> PreparationPanelView {
    let nothing = PreparationPanelView {
        summary: preparation_summary_of(outcome),
        notice: None,
        plan_heading: None,
        rows: Seq::empty(),
        editor: Seq::empty(),
        buttons: Seq::empty(),
    };
    match outcome {
        PrepareOutcomeView::ExternalWorkflow { explanation } => PreparationPanelView {
            notice: Some(
                NoticeView { title: "External workflow required"@, body: explanation },
            ),
            ..nothing
        },
        PrepareOutcomeView::Dirty(dirty) => PreparationPanelView {
            notice: Some(dirty_notice_of(dirty)),
            buttons: seq![
                plain_of("Commit in Local Changes"@, PanelControlView::RouteDirtyCommit),
                plain_of("Stash including untracked"@, PanelControlView::CreateStash),
                plain_of("Cancel preparation"@, PanelControlView::CancelPreparation),
            ],
            ..nothing
        },
        PrepareOutcomeView::Ready(_) => PreparationPanelView {
            plan_heading: Some(
                NoticeView {
                    title: "LINEAR PLAN"@,
                    body: "⌘↑ / ⌘↓ moves the selected commit"@,
                },
            ),
            rows: plan_rows_of(w, frozen),
            editor: plan_editor_of(frozen),
            buttons: seq![
                button_of(
                    "Review and start rebase"@,
                    PanelControlView::RequestStart,
                    frozen,
                    false,
                ),
            ],
            ..nothing
        },
    }
}

fn render_preparation(w: &LocalWorkspace, outcome: &PrepareOutcome, frozen: bool) -> (r:
    PreparationPanel)
    ensures
        r@ == preparation_panel_of(w@, outcome@, frozen),
{
    let mut shown: Option<Notice> = None;
    let mut plan_heading: Option<Notice> = None;
    let mut rows: Vec<PlanRow> = Vec::new();
    let mut editor: Vec<PanelButton> = Vec::new();
    let mut buttons: Vec<PanelButton> = Vec::new();
    proof {
        assert(plan_row_views(rows@) =~= Seq::<PlanRowView>::empty());
        assert(panel_button_views(editor@) =~= Seq::<PanelButtonView>::empty());
        assert(panel_button_views(buttons@) =~= Seq::<PanelButtonView>::empty());
    }
    match outcome {
        PrepareOutcome::ExternalWorkflow { explanation } => {
            shown = Some(notice("External workflow required", explanation));
        },
        PrepareOutcome::Dirty(dirty) => {
            shown = Some(dirty_notice(dirty));
            buttons.push(plain("Commit in Local Changes", PanelControl::RouteDirtyCommit));
            buttons.push(plain("Stash including untracked", PanelControl::CreateStash));
            buttons.push(plain("Cancel preparation", PanelControl::CancelPreparation));
        },
        PrepareOutcome::Ready(_) => {
            plan_heading = Some(notice("LINEAR PLAN", "⌘↑ / ⌘↓ moves the selected commit"));
            rows = render_plan_rows(w, frozen);
            editor = render_plan_editor(frozen);
            buttons.push(
                button("Review and start rebase", PanelControl::RequestStart, frozen, false),
            );
        },
    }
    let r = PreparationPanel {
        summary: render_preparation_summary(outcome),
        notice: shown,
        plan_heading,
        rows,
        editor,
        buttons,
    };
    proof {
        assert(r@.buttons =~= preparation_panel_of(w@, outcome@, frozen).buttons);
        assert(r@ =~= preparation_panel_of(w@, outcome@, frozen));
    }
    r
}

// ---------------------------------------------------------------------------
// Choosing a base

pub open spec fn branch_choice_of(branch: BranchOidView) -> PanelButtonView {
    plain_of(
        branch.branch + " · "@ + short_of(branch.oid),
        PanelControlView::SelectBase { oid: branch.oid },
    )
}

pub open spec fn base_choices_of(snapshot: Option<LocalSnapshotView>) -> Seq<PanelButtonView> {
    let prepare = plain_of("Prepare inventory"@, PanelControlView::Prepare);
    match snapshot {
        None => seq![prepare],
        Some(s) => (match s.upstream_oid {
            Some(oid) => seq![
                plain_of(
                    "Upstream · "@ + short_of(oid),
                    PanelControlView::SelectBase { oid },
                ),
            ],
            None => Seq::empty(),
        }) + Seq::new(
            s.local_branch_oids.len(),
            |i: int| branch_choice_of(s.local_branch_oids[i]),
        ) + seq![prepare],
    }
}

fn branch_choices(branches: &Vec<BranchOid>) -> (r: Vec<PanelButton>)
    ensures
        panel_button_views(r@) == Seq::new(
            branches@.len(),
            |i: int| branch_choice_of(git::branch_oid_views(branches@)[i]),
        ),
{
    let mut out: Vec<PanelButton> = Vec::new();
    let mut i: usize = 0;
    while i < branches.len()
        invariant
            i <= branches@.len(),
            out@.len() == i,
            forall|k: int| 0 <= k < i ==> (#[trigger] out@[k])@ == branch_choice_of(branches@[k]@),
        decreases branches.len() - i,
    {
        let mut label: String = branches[i].branch.clone();
        label.append(" · ");
        label.append(&short_oid(&branches[i].oid));
        out.push(plain(&label, PanelControl::SelectBase { oid: branches[i].oid.clone() }));
        i += 1;
    }
    proof {
        assert(panel_button_views(out@) =~= Seq::new(
            branches@.len(),
            |i: int| branch_choice_of(git::branch_oid_views(branches@)[i]),
        ));
    }
    out
}

fn render_base_choices(snapshot: &Option<LocalSnapshot>) -> (r: Vec<PanelButton>)
    ensures
        panel_button_views(r@) == base_choices_of(git::optional_local_snapshot(*snapshot)),
{
    let mut out: Vec<PanelButton> = Vec::new();
    if let Some(s) = snapshot {
        if let Some(oid) = &s.upstream_oid {
            let mut label: String = "Upstream · ".to_owned();
            label.append(&short_oid(oid));
            out.push(plain(&label, PanelControl::SelectBase { oid: oid.clone() }));
        }
        let mut branches = branch_choices(&s.local_branch_oids);
        out.append(&mut branches);
    }
    out.push(plain("Prepare inventory", PanelControl::Prepare));
    proof {
        assert(panel_button_views(out@) =~= base_choices_of(
            git::optional_local_snapshot(*snapshot),
        ));
    }
    out
}

// ---------------------------------------------------------------------------
// An open conflict

pub open spec fn source_id_of(source: ConflictSource) -> Seq<char> {
    match source {
        ConflictSource::Base => "conflict-source-base-scroll"@,
        ConflictSource::Ours => "conflict-source-ours-scroll"@,
        ConflictSource::Theirs => "conflict-source-theirs-scroll"@,
    }
}

pub open spec fn source_panel_of(v: ConflictPresentationView, source: ConflictSource) -> SourcePanelView {
    let stage = conflict::stage_of(v, source);
    let shown = conflict::source_text_of(stage);
    SourcePanelView {
        id: source_id_of(source),
        label: conflict::source_label_of(v, source),
        selected: v.selected == source,
        summary: conflict::source_summary_of(stage),
        details: if v.show_details {
            Some(conflict::source_details_of(stage))
        } else {
            None
        },
        count: conflict::counted_lines(shown) as usize,
        widest: conflict::widest_of(text::lines_of(shown)) as usize,
    }
}

pub fn source_panel(v: &ConflictPresentation, source: ConflictSource) -> (r: SourcePanel)
    ensures
        r@ == source_panel_of(v@, source),
{
    let (label, stage) = v.source(source);
    let id: &str = match source {
        ConflictSource::Base => "conflict-source-base-scroll",
        ConflictSource::Ours => "conflict-source-ours-scroll",
        ConflictSource::Theirs => "conflict-source-theirs-scroll",
    };
    let details: Option<String> = if v.show_details() {
        Some(conflict::source_details(stage))
    } else {
        None
    };
    let lines = v.lines(source);
    SourcePanel {
        id: id.to_owned(),
        label: label.to_owned(),
        selected: v.selected() == source,
        summary: conflict::source_summary(stage),
        details,
        count: lines.count(),
        widest: lines.widest(),
    }
}

pub open spec fn source_selector_of(
    v: ConflictPresentationView,
    source: ConflictSource,
    frozen: bool,
) -> PanelButtonView {
    button_of(
        conflict::source_label_of(v, source),
        PanelControlView::SelectSource { source },
        frozen,
        v.selected == source,
    )
}

/// The sides that are shown: all of them side by side, or the selected one.
pub open spec fn shown_sources_of(v: ConflictPresentationView, wide: bool) -> Seq<SourcePanelView> {
    if wide {
        seq![
            source_panel_of(v, ConflictSource::Base),
            source_panel_of(v, ConflictSource::Ours),
            source_panel_of(v, ConflictSource::Theirs),
        ]
    } else {
        seq![source_panel_of(v, v.selected)]
    }
}

pub open spec fn conflict_panel_of(
    v: ConflictPresentationView,
    wide: bool,
    frozen: bool,
) -> ConflictPanelView {
    ConflictPanelView {
        heading: "THREE-WAY CONFLICT"@,
        path: v.conflict.path.display,
        operation: if v.show_details {
            Some("Operation "@ + conflict::operation_id_of(v.operation))
        } else {
            None
        },
        close: button_of(
            "Back to conflict list"@,
            PanelControlView::CloseConflict,
            frozen,
            false,
        ),
        explanation: match conflict::explanation_of(v.state) {
            Some(body) => Some(NoticeView { title: "Frozen source context"@, body }),
            None => None,
        },
        selectors: seq![
            source_selector_of(v, ConflictSource::Base, frozen),
            source_selector_of(v, ConflictSource::Ours, frozen),
            source_selector_of(v, ConflictSource::Theirs, frozen),
        ],
        details: button_of(
            if v.show_details {
                "Hide full source details"@
            } else {
                "Show full source details"@
            },
            PanelControlView::ToggleConflictDetails,
            frozen,
            false,
        ),
        refresh: if v.state is StagesChanged {
            Some(
                button_of(
                    "Refresh changed stages"@,
                    PanelControlView::RefreshConflict,
                    frozen,
                    false,
                ),
            )
        } else {
            None
        },
        hint: if wide {
            "Immutable sources are side by side. Select with the mouse or ⌘← / ⌘→; each pane scrolls to the actual end of long lines."@
        } else {
            "Narrow layout shows one immutable source at a time. Select with the mouse or ⌘← / ⌘→; the result panel remains labelled below."@
        },
        sources: shown_sources_of(v, wide),
        result: NoticeView {
            title: "RESULT"@,
            body: "Resolved in your own editor · staging is explicit"@,
        },
        advice: "Resolve the conflicted file in your own editor, then refresh and stage it here. Local changes can open the checkout in an editor you pick; nothing is launched, created, removed, renamed, or staged implicitly."@,
        stage: if v.state is Current {
            Some(
                button_of(
                    "Stage resolved result"@,
                    PanelControlView::StagePresented,
                    frozen,
                    false,
                ),
            )
        } else {
            None
        },
    }
}

fn source_selector(v: &ConflictPresentation, source: ConflictSource, frozen: bool) -> (r:
    PanelButton)
    ensures
        r@ == source_selector_of(v@, source, frozen),
{
    let (label, _) = v.source(source);
    button(label, PanelControl::SelectSource { source }, frozen, v.selected() == source)
}

fn shown_sources(v: &ConflictPresentation, wide: bool) -> (r: Vec<SourcePanel>)
    ensures
        source_panel_views(r@) == shown_sources_of(v@, wide),
{
    let mut out: Vec<SourcePanel> = Vec::new();
    if wide {
        out.push(source_panel(v, ConflictSource::Base));
        out.push(source_panel(v, ConflictSource::Ours));
        out.push(source_panel(v, ConflictSource::Theirs));
    } else {
        out.push(source_panel(v, v.selected()));
    }
    proof {
        assert(source_panel_views(out@) =~= shown_sources_of(v@, wide));
    }
    out
}

/// The conflict that is open, its sides side by side where there is room.
pub fn render_conflict_view(v: &ConflictPresentation, wide: bool, frozen: bool) -> (r:
    ConflictPanel)
    ensures
        r@ == conflict_panel_of(v@, wide, frozen),
{
    let operation: Option<String> = if v.show_details() {
        let mut s: String = "Operation ".to_owned();
        s.append(v.operation_id());
        Some(s)
    } else {
        None
    };
    let explanation: Option<Notice> = match v.state().explanation() {
        Some(body) => Some(notice("Frozen source context", body)),
        None => None,
    };
    let mut selectors: Vec<PanelButton> = Vec::new();
    selectors.push(source_selector(v, ConflictSource::Base, frozen));
    selectors.push(source_selector(v, ConflictSource::Ours, frozen));
    selectors.push(source_selector(v, ConflictSource::Theirs, frozen));
    let details_label: &str = if v.show_details() {
        "Hide full source details"
    } else {
        "Show full source details"
    };
    let refresh: Option<PanelButton> = match v.state() {
        ConflictContextState::StagesChanged => Some(
            button("Refresh changed stages", PanelControl::RefreshConflict, frozen, false),
        ),
        _ => None,
    };
    let hint: &str = if wide {
        "Immutable sources are side by side. Select with the mouse or ⌘← / ⌘→; each pane scrolls to the actual end of long lines."
    } else {
        "Narrow layout shows one immutable source at a time. Select with the mouse or ⌘← / ⌘→; the result panel remains labelled below."
    };
    let stage: Option<PanelButton> = if v.can_stage() {
        Some(button("Stage resolved result", PanelControl::StagePresented, frozen, false))
    } else {
        None
    };
    let r = ConflictPanel {
        heading: "THREE-WAY CONFLICT".to_owned(),
        path: v.conflict().path.display.clone(),
        operation,
        close: button("Back to conflict list", PanelControl::CloseConflict, frozen, false),
        explanation,
        selectors,
        details: button(details_label, PanelControl::ToggleConflictDetails, frozen, false),
        refresh,
        hint: hint.to_owned(),
        sources: shown_sources(v, wide),
        result: notice("RESULT", "Resolved in your own editor · staging is explicit"),
        stage,
        advice: "Resolve the conflicted file in your own editor, then refresh and stage it here. Local changes can open the checkout in an editor you pick; nothing is launched, created, removed, renamed, or staged implicitly.".to_owned(),
    };
    proof {
        assert(r@.selectors =~= conflict_panel_of(v@, wide, frozen).selectors);
        assert(r@ =~= conflict_panel_of(v@, wide, frozen));
    }
    r
}

// ---------------------------------------------------------------------------
// An operation

pub open spec fn conflict_card_of(
    file: ConflictFileView,
    index: usize,
    show_details: bool,
    frozen: bool,
) -> ConflictCardView {
    ConflictCardView {
        path: file.path.display,
        reason: conflict_reason_of(file, show_details),
        orientation: "Rebase orientation: ours = already rebased series; theirs = replayed original commit."@,
        open: button_of(
            "Open sources and result"@,
            PanelControlView::OpenConflict { index },
            frozen,
            false,
        ),
        stage: button_of(
            "Stage resolved result"@,
            PanelControlView::StageConflict { index },
            frozen,
            false,
        ),
    }
}

pub open spec fn conflict_cards_of(
    files: Seq<ConflictFileView>,
    show_details: bool,
    frozen: bool,
) -> Seq<ConflictCardView> {
    Seq::new(
        files.len(),
        |i: int| conflict_card_of(files[i], i as usize, show_details, frozen),
    )
}

fn render_conflict_cards(files: &Vec<ConflictFile>, show_details: bool, frozen: bool) -> (r: Vec<
    ConflictCard,
>)
    ensures
        conflict_card_views(r@) == conflict_cards_of(
            git::conflict_file_views(files@),
            show_details,
            frozen,
        ),
{
    let ghost all = git::conflict_file_views(files@);
    let mut out: Vec<ConflictCard> = Vec::new();
    let mut i: usize = 0;
    while i < files.len()
        invariant
            all == git::conflict_file_views(files@),
            i <= files@.len(),
            out@.len() == i,
            forall|k: int|
                0 <= k < i ==> (#[trigger] out@[k])@ == conflict_card_of(
                    all[k],
                    k as usize,
                    show_details,
                    frozen,
                ),
        decreases files.len() - i,
    {
        out.push(
            ConflictCard {
                path: files[i].path.display.clone(),
                reason: conflict_reason(&files[i], show_details),
                orientation: "Rebase orientation: ours = already rebased series; theirs = replayed original commit.".to_owned(),
                open: button(
                    "Open sources and result",
                    PanelControl::OpenConflict { index: i },
                    frozen,
                    false,
                ),
                stage: button(
                    "Stage resolved result",
                    PanelControl::StageConflict { index: i },
                    frozen,
                    false,
                ),
            },
        );
        i += 1;
    }
    proof {
        assert(conflict_card_views(out@) =~= conflict_cards_of(all, show_details, frozen));
    }
    out
}

pub open spec fn stopped_line_of(w: LocalWorkspaceView, o: RebaseOperationViewView) -> Option<
    Seq<char>,
> {
    match o.active {
        None => None,
        Some(active) => match active.stopped_oid {
            None => None,
            Some(oid) => Some(
                match rebase::inventory_of(w.rebase) {
                    Some(inventory) => match rebase::commit_message_of(inventory.commits, oid) {
                        Some(message) => "stopped "@ + short_of(oid) + " · "@ + headline_of(
                            message,
                        ),
                        None => "stopped "@ + short_of(oid),
                    },
                    None => "stopped "@ + short_of(oid),
                },
            ),
        },
    }
}

fn render_stopped_line(w: &LocalWorkspace, o: &RebaseOperationView) -> (r: Option<String>)
    ensures
        text::option_text(r) == stopped_line_of(w@, o@),
{
    let oid = match &o.active {
        None => {
            return None;
        },
        Some(active) => match &active.stopped_oid {
            None => {
                return None;
            },
            Some(oid) => oid,
        },
    };
    let message: Option<String> = match &w.rebase.preparation {
        Some(PrepareOutcome::Ready(p)) => rebase::commit_message(&p.inventory.commits, oid),
        Some(PrepareOutcome::Dirty(p)) => rebase::commit_message(&p.inventory.commits, oid),
        _ => None,
    };
    let mut out: String = "stopped ".to_owned();
    out.append(&short_oid(oid));
    if let Some(m) = &message {
        out.append(" · ");
        out.append(&first_line(m));
    }
    Some(out)
}

pub open spec fn details_of(o: RebaseOperationViewView) -> Seq<Seq<char>> {
    let always = seq![
        "operation "@ + o.operation_id,
        "base "@ + o.base_oid,
        "original "@ + o.original_head_oid,
    ];
    match o.active {
        None => always,
        Some(active) => always + seq![
            "onto "@ + active.onto_oid,
            "stopped "@ + conflict::or_else(active.stopped_oid, "none"@),
            "todo "@ + active.todo_sha256,
            "done "@ + active.done_sha256,
            "ownership "@ + active.ownership_marker_sha256,
        ],
    }
}

fn labelled(label: &str, value: &str) -> (r: String)
    ensures
        r@ == label@ + value@,
{
    let mut out: String = label.to_owned();
    out.append(value);
    out
}

pub fn operation_details(o: &RebaseOperationView) -> (r: Vec<String>)
    ensures
        text::texts(r@) == details_of(o@),
{
    let mut out: Vec<String> = Vec::new();
    out.push(labelled("operation ", &o.operation_id));
    out.push(labelled("base ", &o.base_oid));
    out.push(labelled("original ", &o.original_head_oid));
    if let Some(active) = &o.active {
        out.push(labelled("onto ", &active.onto_oid));
        match &active.stopped_oid {
            Some(oid) => out.push(labelled("stopped ", oid)),
            None => out.push(labelled("stopped ", "none")),
        }
        out.push(labelled("todo ", &active.todo_sha256));
        out.push(labelled("done ", &active.done_sha256));
        out.push(labelled("ownership ", &active.ownership_marker_sha256));
    }
    proof {
        assert(text::texts(out@) =~= details_of(o@));
    }
    out
}

pub open spec fn split_notice_of(split: SplitStateView) -> NoticeView {
    NoticeView {
        title: "Active split — generic Continue/Skip disabled"@,
        body: "stopped "@ + split.stopped_oid + " · rewritten stop "@ + conflict::or_else(
            split.rewritten_stopped_oid,
            "legacy/missing"@,
        ) + " · parent "@ + split.parent_oid + " · required tree "@ + split.required_tree_oid
            + " · replacements "@ + (match split.replacement_commit_count {
            Some(n) => text::decimal(n as nat),
            None => "unknown"@,
        }),
    }
}

pub fn render_split(split: &SplitState) -> (r: Notice)
    ensures
        r@ == split_notice_of(split@),
{
    let mut body: String = "stopped ".to_owned();
    body.append(&split.stopped_oid);
    body.append(" · rewritten stop ");
    match &split.rewritten_stopped_oid {
        Some(oid) => body.append(oid),
        None => body.append("legacy/missing"),
    }
    body.append(" · parent ");
    body.append(&split.parent_oid);
    body.append(" · required tree ");
    body.append(&split.required_tree_oid);
    body.append(" · replacements ");
    match split.replacement_commit_count {
        Some(n) => body.append(&text::decimal_text(n)),
        None => body.append("unknown"),
    }
    Notice { title: "Active split — generic Continue/Skip disabled".to_owned(), body }
}

pub open spec fn restore_name_of(state: StashRestoreStateView) -> Seq<char> {
    match state {
        StashRestoreStateView::NotStarted => "NotStarted"@,
        StashRestoreStateView::Conflicted => "Conflicted"@,
        StashRestoreStateView::Completed => "Completed"@,
        StashRestoreStateView::Other { name } => name,
    }
}

pub open spec fn stash_notice_of(stash: StashReceiptView, restore: StashRestoreStateView) -> NoticeView {
    NoticeView {
        title: "Retained stash receipt"@,
        body: "OID "@ + stash.oid + " · includes untracked: "@ + bool_of(stash.includes_untracked)
            + " · ignored excluded: "@ + bool_of(stash.ignored_files_excluded)
            + " · retained after restore: "@ + bool_of(stash.retained_after_restore)
            + " · restore "@ + restore_name_of(restore),
    }
}

fn render_stash(stash: &StashReceipt, restore: &StashRestoreState) -> (r: Notice)
    ensures
        r@ == stash_notice_of(stash@, restore@),
{
    let mut body: String = "OID ".to_owned();
    body.append(&stash.oid);
    body.append(" · includes untracked: ");
    body.append(bool_text(stash.includes_untracked));
    body.append(" · ignored excluded: ");
    body.append(bool_text(stash.ignored_files_excluded));
    body.append(" · retained after restore: ");
    body.append(bool_text(stash.retained_after_restore));
    body.append(" · restore ");
    match restore {
        StashRestoreState::NotStarted => body.append("NotStarted"),
        StashRestoreState::Conflicted => body.append("Conflicted"),
        StashRestoreState::Completed => body.append("Completed"),
        StashRestoreState::Other { name } => body.append(name),
    }
    Notice { title: "Retained stash receipt".to_owned(), body }
}

/// The label of the message editor, where an operation has one.
pub open spec fn message_label_of(o: RebaseOperationViewView, frozen: bool) -> Option<Seq<char>> {
    if !(o.state is PausedForEdit) {
        None
    } else {
        let label = if o.split is Some {
            "Split part message"@
        } else {
            "Optional amend message"@
        };
        Some(
            if frozen {
                label + " · frozen until Cancel"@
            } else {
                label
            },
        )
    }
}

fn render_message_label(o: &RebaseOperationView, frozen: bool) -> (r: Option<String>)
    ensures
        text::option_text(r) == message_label_of(o@, frozen),
{
    match &o.state {
        RebaseState::PausedForEdit => {
            let mut label: String = if o.split.is_some() {
                "Split part message".to_owned()
            } else {
                "Optional amend message".to_owned()
            };
            if frozen {
                label.append(" · frozen until Cancel");
            }
            Some(label)
        },
        _ => None,
    }
}

pub open spec fn unrestored(o: RebaseOperationViewView) -> bool {
    o.stash is Some && o.stash_restore is NotStarted
}

/// What can be asked for in each state of an operation.
pub open spec fn operation_buttons_of(o: RebaseOperationViewView) -> Seq<PanelButtonView> {
    let abort = plain_of("Abort"@, PanelControlView::Abort);
    let continues = plain_of("Continue"@, PanelControlView::Continue);
    match o.state {
        RebaseStateView::PausedForEdit => if o.split is Some {
            seq![
                plain_of(
                    "Stage via Local Changes"@,
                    PanelControlView::RouteToLocalChanges {
                        status: "Stage the selected split paths in Local Changes, then reopen Rebase"@,
                    },
                ),
                plain_of("Commit staged part"@, PanelControlView::CommitSplitPart),
                plain_of("Finish validated split"@, PanelControlView::FinishSplit),
                abort,
            ]
        } else {
            seq![
                plain_of(
                    "Open/stage in Local Changes"@,
                    PanelControlView::RouteToLocalChanges {
                        status: "Edit the files in your own editor, stage the selected paths in Local Changes, then reopen Rebase"@,
                    },
                ),
                plain_of("Amend"@, PanelControlView::Amend),
                plain_of("Begin split"@, PanelControlView::BeginSplit),
                continues,
                abort,
            ]
        },
        RebaseStateView::Conflicted => if o.stash_restore is Conflicted {
            seq![
                plain_of(
                    "Finish stash restore after all conflicts are staged"@,
                    PanelControlView::FinishStashRestore,
                ),
            ]
        } else if o.split is None {
            seq![continues, plain_of("Skip"@, PanelControlView::Skip), abort]
        } else {
            Seq::empty()
        },
        RebaseStateView::Running => seq![
            plain_of("Observe now"@, PanelControlView::Observe),
            abort,
        ],
        RebaseStateView::Completed => closing_buttons_of(o),
        RebaseStateView::Aborted => closing_buttons_of(o),
        RebaseStateView::FailedUncertain => Seq::empty(),
        RebaseStateView::Prepared => Seq::empty(),
    }
}

pub open spec fn closing_buttons_of(o: RebaseOperationViewView) -> Seq<PanelButtonView> {
    let close = plain_of("Close / Archive"@, PanelControlView::Retire);
    if unrestored(o) {
        seq![plain_of("Restore exact retained stash"@, PanelControlView::RestoreStash), close]
    } else {
        seq![close]
    }
}

fn closing_buttons(o: &RebaseOperationView) -> (r: Vec<PanelButton>)
    ensures
        panel_button_views(r@) == closing_buttons_of(o@),
{
    let mut out: Vec<PanelButton> = Vec::new();
    let not_started: bool = match &o.stash_restore {
        StashRestoreState::NotStarted => true,
        _ => false,
    };
    if o.stash.is_some() && not_started {
        out.push(plain("Restore exact retained stash", PanelControl::RestoreStash));
    }
    out.push(plain("Close / Archive", PanelControl::Retire));
    proof {
        assert(panel_button_views(out@) =~= closing_buttons_of(o@));
    }
    out
}

fn operation_buttons(o: &RebaseOperationView) -> (r: Vec<PanelButton>)
    ensures
        panel_button_views(r@) == operation_buttons_of(o@),
{
    let mut out: Vec<PanelButton> = Vec::new();
    match &o.state {
        RebaseState::PausedForEdit => {
            if o.split.is_some() {
                out.push(
                    plain(
                        "Stage via Local Changes",
                        PanelControl::RouteToLocalChanges {
                            status: "Stage the selected split paths in Local Changes, then reopen Rebase".to_owned(),
                        },
                    ),
                );
                out.push(plain("Commit staged part", PanelControl::CommitSplitPart));
                out.push(plain("Finish validated split", PanelControl::FinishSplit));
                out.push(plain("Abort", PanelControl::Abort));
            } else {
                out.push(
                    plain(
                        "Open/stage in Local Changes",
                        PanelControl::RouteToLocalChanges {
                            status: "Edit the files in your own editor, stage the selected paths in Local Changes, then reopen Rebase".to_owned(),
                        },
                    ),
                );
                out.push(plain("Amend", PanelControl::Amend));
                out.push(plain("Begin split", PanelControl::BeginSplit));
                out.push(plain("Continue", PanelControl::Continue));
                out.push(plain("Abort", PanelControl::Abort));
            }
        },
        RebaseState::Conflicted => {
            let restoring: bool = match &o.stash_restore {
                StashRestoreState::Conflicted => true,
                _ => false,
            };
            if restoring {
                out.push(
                    plain(
                        "Finish stash restore after all conflicts are staged",
                        PanelControl::FinishStashRestore,
                    ),
                );
            } else if o.split.is_none() {
                out.push(plain("Continue", PanelControl::Continue));
                out.push(plain("Skip", PanelControl::Skip));
                out.push(plain("Abort", PanelControl::Abort));
            }
        },
        RebaseState::Running => {
            out.push(plain("Observe now", PanelControl::Observe));
            out.push(plain("Abort", PanelControl::Abort));
        },
        RebaseState::Completed => {
            return closing_buttons(o);
        },
        RebaseState::Aborted => {
            return closing_buttons(o);
        },
        RebaseState::FailedUncertain => {},
        RebaseState::Prepared => {},
    }
    proof {
        assert(panel_button_views(out@) =~= operation_buttons_of(o@));
    }
    out
}

pub open spec fn is_over(state: RebaseStateView) -> bool {
    state is Completed || state is Aborted
}

pub open spec fn operation_notice_of(o: RebaseOperationViewView) -> Option<NoticeView> {
    match o.state {
        RebaseStateView::FailedUncertain => Some(
            NoticeView {
                title: "Uncertain — evidence retained"@,
                body: "This operation cannot be acknowledged away or archived. Controls are read-only; inspect actual Git state and durable evidence. No retry is automatic."@,
            },
        ),
        RebaseStateView::Prepared => Some(
            NoticeView {
                title: "Prepared intent observed"@,
                body: "The durable intent exists. Observe and inspect it; cibergit will not automatically replay Start."@,
            },
        ),
        _ => if is_over(o.state) && o.publish_handoff is Some {
            Some(
                NoticeView {
                    title: "Publish handoff only"@,
                    body: "Rewritten local history is ready for the existing explicit remote-branch/OID lease observation and confirmation flow. This component has no verified PR-source target, does not infer one from a local branch, and never defaults to force push."@,
                },
            )
        } else {
            None
        },
    }
}

fn operation_notice(o: &RebaseOperationView) -> (r: Option<Notice>)
    ensures
        optional_notice(r) == operation_notice_of(o@),
{
    let over: bool = match &o.state {
        RebaseState::FailedUncertain => {
            return Some(
                notice(
                    "Uncertain — evidence retained",
                    "This operation cannot be acknowledged away or archived. Controls are read-only; inspect actual Git state and durable evidence. No retry is automatic.",
                ),
            );
        },
        RebaseState::Prepared => {
            return Some(
                notice(
                    "Prepared intent observed",
                    "The durable intent exists. Observe and inspect it; cibergit will not automatically replay Start.",
                ),
            );
        },
        RebaseState::Completed => true,
        RebaseState::Aborted => true,
        _ => false,
    };
    if over && o.publish_handoff.is_some() {
        Some(
            notice(
                "Publish handoff only",
                "Rewritten local history is ready for the existing explicit remote-branch/OID lease observation and confirmation flow. This component has no verified PR-source target, does not infer one from a local branch, and never defaults to force push.",
            ),
        )
    } else {
        None
    }
}

pub open spec fn result_line_of(commit: CommitEntryView) -> Seq<char> {
    commit.oid + "  "@ + headline_of(commit.message)
}

pub open spec fn results_of(o: RebaseOperationViewView) -> Seq<Seq<char>> {
    if is_over(o.state) {
        Seq::new(o.resulting_commits.len(), |i: int| result_line_of(o.resulting_commits[i]))
    } else {
        Seq::empty()
    }
}

fn render_results(o: &RebaseOperationView) -> (r: Vec<String>)
    ensures
        text::texts(r@) == results_of(o@),
{
    let over: bool = match &o.state {
        RebaseState::Completed => true,
        RebaseState::Aborted => true,
        _ => false,
    };
    let mut out: Vec<String> = Vec::new();
    if over {
        let commits = &o.resulting_commits;
        let mut i: usize = 0;
        while i < commits.len()
            invariant
                i <= commits@.len(),
                out@.len() == i,
                forall|k: int|
                    0 <= k < i ==> (#[trigger] out@[k])@ == result_line_of(commits@[k]@),
            decreases commits.len() - i,
        {
            let mut line: String = commits[i].oid.clone();
            line.append("  ");
            line.append(&first_line(&commits[i].message));
            out.push(line);
            i += 1;
        }
    }
    proof {
        assert(text::texts(out@) =~= results_of(o@));
    }
    out
}

pub open spec fn operation_panel_of(
    w: LocalWorkspaceView,
    o: RebaseOperationViewView,
    controls_frozen: bool,
    inputs_frozen: bool,
) -> OperationPanelView {
    OperationPanelView {
        heading: state_label_of(o.state) + " · attempt "@ + text::decimal(o.attempt as nat),
        original_head: short_of(o.original_head_oid),
        branch: "branch "@ + o.original_branch,
        base: "base "@ + short_of(o.base_oid),
        stopped: stopped_line_of(w, o),
        details_button: plain_of(
            if w.rebase.show_operation_details {
                "Hide operation details"@
            } else {
                "Show operation details"@
            },
            PanelControlView::ToggleOperationDetails,
        ),
        details_heading: if w.rebase.show_operation_details {
            Some("Operation details"@)
        } else {
            None
        },
        details: if w.rebase.show_operation_details {
            details_of(o)
        } else {
            Seq::empty()
        },
        split: match o.split {
            Some(split) => Some(split_notice_of(split)),
            None => None,
        },
        conflicts_heading: if w.rebase.conflicts.len() > 0 {
            Some("CONFLICTS"@)
        } else {
            None
        },
        conflicts: conflict_cards_of(
            w.rebase.conflicts,
            w.rebase.show_operation_details,
            controls_frozen,
        ),
        stash: match o.stash {
            Some(stash) => Some(stash_notice_of(stash, o.stash_restore)),
            None => None,
        },
        message_label: message_label_of(o, inputs_frozen),
        results_heading: if results_of(o).len() > 0 {
            Some("RESULTING COMMITS"@)
        } else {
            None
        },
        results: results_of(o),
        notice: operation_notice_of(o),
        buttons: operation_buttons_of(o),
    }
}

fn heading_if(shown: bool, heading: &str) -> (r: Option<String>)
    ensures
        text::option_text(r) == if shown {
            Some(heading@)
        } else {
            None
        },
{
    if shown {
        Some(heading.to_owned())
    } else {
        None
    }
}

/// An operation: how far it is, what it stopped at, and what can be asked for.
pub fn render_operation(
    w: &LocalWorkspace,
    o: &RebaseOperationView,
    controls_frozen: bool,
    inputs_frozen: bool,
) -> (r: OperationPanel)
    ensures
        r@ == operation_panel_of(w@, o@, controls_frozen, inputs_frozen),
{
    let mut heading: String = operation_state_label(&o.state).to_owned();
    heading.append(" · attempt ");
    heading.append(&text::decimal_text(o.attempt));
    let mut base: String = "base ".to_owned();
    base.append(&short_oid(&o.base_oid));
    let shown: bool = w.rebase.show_operation_details;
    let details_label: &str = if shown {
        "Hide operation details"
    } else {
        "Show operation details"
    };
    let details: Vec<String> = if shown {
        operation_details(o)
    } else {
        Vec::new()
    };
    let split: Option<Notice> = match &o.split {
        Some(split) => Some(render_split(split)),
        None => None,
    };
    let stash: Option<Notice> = match &o.stash {
        Some(stash) => Some(render_stash(stash, &o.stash_restore)),
        None => None,
    };
    let results = render_results(o);
    let r = OperationPanel {
        heading,
        original_head: short_oid(&o.original_head_oid),
        branch: labelled("branch ", &o.original_branch),
        base,
        stopped: render_stopped_line(w, o),
        details_button: plain(details_label, PanelControl::ToggleOperationDetails),
        details_heading: heading_if(shown, "Operation details"),
        details,
        split,
        conflicts_heading: heading_if(w.rebase.conflicts.len() > 0, "CONFLICTS"),
        conflicts: render_conflict_cards(&w.rebase.conflicts, shown, controls_frozen),
        stash,
        message_label: render_message_label(o, inputs_frozen),
        results_heading: heading_if(results.len() > 0, "RESULTING COMMITS"),
        results,
        notice: operation_notice(o),
        buttons: operation_buttons(o),
    };
    proof {
        assert(r@.details =~= operation_panel_of(w@, o@, controls_frozen, inputs_frozen).details);
        assert(r@ =~= operation_panel_of(w@, o@, controls_frozen, inputs_frozen));
    }
    r
}

// ---------------------------------------------------------------------------
// The whole panel

pub open spec fn confirmation_panel_of(pending: lifecycle::FrozenRebaseIntentView) -> ConfirmationPanelView {
    ConfirmationPanelView {
        notice: NoticeView {
            title: "Explicit confirmation"@,
            body: command::command_summary_of(pending.command),
        },
        frozen: command::frozen_description_of(pending.editable_inputs),
        hint: "Plan, base, and message inputs are disabled until Cancel. Confirmation rechecks their exact frozen identity before dispatch."@,
        buttons: seq![
            plain_of(
                "Confirm exact transition"@,
                PanelControlView::Confirm { request_id: pending.id },
            ),
            plain_of("Cancel"@, PanelControlView::CancelRequest { request_id: pending.id }),
        ],
    }
}

fn render_confirmation(pending: &lifecycle::FrozenRebaseIntent) -> (r: ConfirmationPanel)
    ensures
        r@ == confirmation_panel_of(pending@),
{
    let summary = pending.command.summary();
    let mut buttons: Vec<PanelButton> = Vec::new();
    buttons.push(
        plain("Confirm exact transition", PanelControl::Confirm { request_id: pending.id }),
    );
    buttons.push(plain("Cancel", PanelControl::CancelRequest { request_id: pending.id }));
    let r = ConfirmationPanel {
        notice: notice("Explicit confirmation", &summary),
        frozen: pending.editable_inputs.frozen_description(),
        hint: "Plan, base, and message inputs are disabled until Cancel. Confirmation rechecks their exact frozen identity before dispatch.".to_owned(),
        buttons,
    };
    proof {
        assert(r@.buttons =~= confirmation_panel_of(pending@).buttons);
        assert(r@ =~= confirmation_panel_of(pending@));
    }
    r
}

pub open spec fn content_of(w: LocalWorkspaceView, wide: bool) -> PanelContentView {
    let pending = lifecycle::pending_rebase_of(w.operations);
    let frozen = pending is Some;
    let conflict_open = w.rebase.conflict_view is Some;
    let operation_open = !conflict_open && w.rebase.operation is Some;
    let prepared = !conflict_open && !operation_open && w.rebase.preparation is Some;
    PanelContentView {
        heading: NoticeView { title: "REBASE"@, body: "Rebase this branch"@ },
        back: plain_of("Back to workspace"@, PanelControlView::Toggle),
        conflict: match w.rebase.conflict_view {
            Some(v) => Some(conflict_panel_of(v, wide, rebase::inputs_frozen(w))),
            None => None,
        },
        operation: if operation_open {
            Some(
                operation_panel_of(w, w.rebase.operation->0, rebase::inputs_frozen(w), frozen),
            )
        } else {
            None
        },
        preparation: if prepared {
            Some(preparation_panel_of(w, w.rebase.preparation->0, frozen))
        } else {
            None
        },
        base_heading: if conflict_open || operation_open || prepared {
            None
        } else {
            Some(
                NoticeView {
                    title: "CHOOSE A LOCAL BASE"@,
                    body: "Candidates below are already resolved to immutable full commit OIDs. Manual input accepts HEAD, a full OID, or a fully-qualified refs/* name; ambiguous expressions are refused."@,
                },
            )
        },
        base_placeholder: if conflict_open || operation_open || prepared {
            None
        } else {
            Some("Full commit OID, HEAD, or fully-qualified refs/*"@)
        },
        choices: if conflict_open || operation_open || prepared {
            Seq::empty()
        } else {
            base_choices_of(w.snapshot)
        },
        confirmation: match pending {
            Some(p) => Some(confirmation_panel_of(p)),
            None => None,
        },
        status: w.rebase.status,
    }
}

/// What the panel shows: the open conflict, else the operation, else what was prepared, else
/// the bases to choose from; below it what is to be confirmed.
pub fn render_rebase_panel(w: &LocalWorkspace, wide: bool) -> (r: PanelContent)
    ensures
        r@ == content_of(w@, wide),
{
    let frozen: bool = w.operations.pending_rebase().is_some();
    let controls_frozen: bool = w.operations.rebase_pending_or_running();
    let mut shown_conflict: Option<ConflictPanel> = None;
    let mut shown_operation: Option<OperationPanel> = None;
    let mut shown_preparation: Option<PreparationPanel> = None;
    let mut base_heading: Option<Notice> = None;
    let mut base_placeholder: Option<String> = None;
    let mut choices: Vec<PanelButton> = Vec::new();
    proof {
        assert(panel_button_views(choices@) =~= Seq::<PanelButtonView>::empty());
    }
    if let Some(v) = &w.rebase.conflict_view {
        shown_conflict = Some(render_conflict_view(v, wide, controls_frozen));
    } else if let Some(o) = &w.rebase.operation {
        shown_operation = Some(render_operation(w, o, controls_frozen, frozen));
    } else if let Some(outcome) = &w.rebase.preparation {
        shown_preparation = Some(render_preparation(w, outcome, frozen));
    } else {
        base_heading = Some(
            notice(
                "CHOOSE A LOCAL BASE",
                "Candidates below are already resolved to immutable full commit OIDs. Manual input accepts HEAD, a full OID, or a fully-qualified refs/* name; ambiguous expressions are refused.",
            ),
        );
        base_placeholder = Some("Full commit OID, HEAD, or fully-qualified refs/*".to_owned());
        choices = render_base_choices(&w.snapshot);
    }
    let confirmation: Option<ConfirmationPanel> = match w.operations.pending_rebase() {
        Some(pending) => Some(render_confirmation(pending)),
        None => None,
    };
    let r = PanelContent {
        heading: notice("REBASE", "Rebase this branch"),
        back: plain("Back to workspace", PanelControl::Toggle),
        conflict: shown_conflict,
        operation: shown_operation,
        preparation: shown_preparation,
        base_heading,
        base_placeholder,
        choices,
        confirmation,
        status: w.rebase.status.clone(),
    };
    proof {
        assert(r@ =~= content_of(w@, wide));
    }
    r
}

// ---------------------------------------------------------------------------
// Laws

/// Whether a button with this control is among these.
pub open spec fn offers(buttons: Seq<PanelButtonView>, control: PanelControlView) -> bool {
    exists|i: int| 0 <= i < buttons.len() && (#[trigger] buttons[i]).control == control
}

/// An operation whose outcome is uncertain can be neither retried nor archived from the panel,
/// and while a commit is being split neither Continue nor Skip is offered.
pub proof fn law_uncertain_and_split_operations_are_guarded(o: RebaseOperationViewView)
    ensures
        o.state is FailedUncertain ==> operation_buttons_of(o).len() == 0,
        o.split is Some ==> !offers(operation_buttons_of(o), PanelControlView::Continue)
            && !offers(operation_buttons_of(o), PanelControlView::Skip),
        offers(operation_buttons_of(o), PanelControlView::Retire) ==> is_over(o.state),
        offers(operation_buttons_of(o), PanelControlView::RestoreStash) ==> o.stash is Some
            && o.stash_restore is NotStarted,
{
}

/// A conflict can be staged from its presentation only while that is current, and is then the
/// one the workspace would stage.
pub proof fn law_staging_is_offered_for_current_stages(
    v: ConflictPresentationView,
    wide: bool,
    frozen: bool,
)
    ensures
        conflict_panel_of(v, wide, frozen).stage is Some <==> v.state is Current,
        conflict_panel_of(v, wide, frozen).explanation is Some <==> !(v.state is Current),
        conflict_panel_of(v, wide, frozen).refresh is Some <==> v.state is StagesChanged,
{
}

} // verus!

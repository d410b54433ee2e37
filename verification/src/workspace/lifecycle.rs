//! What may run in a checkout, which observation of it is current, and what is needed before a
//! started action is acknowledged.

use vstd::prelude::*;

use crate::text;
use crate::workspace::command;
use crate::workspace::command::{
    RebaseCommand, RebaseCommandView, RebaseEditableInputIdentity, RebaseEditableInputIdentityView,
};
use crate::workspace::git;
use crate::workspace::git::{
    LocalSnapshot, LocalSnapshotView, RemoteBranchObservation, RemoteBranchObservationView,
    SnapshotGuard, SnapshotGuardView,
};
use crate::workspace::publish;
use crate::workspace::publish::{
    PrPublishAttempt, PrPublishAttemptView, PrPublishPreparation, PrPublishPreparationView,
};

verus! {

#[derive(Clone, Copy, Debug, PartialEq, Eq, Structural)]
pub enum ObservationKind {
    Snapshot,
    Diff,
    RemoteBranch,
    PrPublish,
    Rebase,
}

/// A read that was begun.
#[derive(Clone, Copy, Debug, PartialEq, Eq, Structural)]
pub struct ObservationTicket {
    pub kind: ObservationKind,
    pub generation: u64,
    pub checkout_epoch: u64,
    pub operation_version: u64,
}

#[derive(Clone, Copy, Debug, PartialEq, Eq, Structural)]
pub enum Lane {
    Local,
    Rebase,
    Reconciliation,
}

/// An effect that was begun.
#[derive(Clone, Copy, Debug, PartialEq, Eq, Structural)]
pub struct DispatchTicket {
    pub request_id: u64,
    pub checkout_epoch: u64,
    pub operation_version: u64,
    pub lane: Lane,
}

/// A number for each kind of observation.
#[derive(Clone, Copy, Debug, PartialEq, Eq, Structural)]
pub struct Generations {
    pub snapshot: u64,
    pub diff: u64,
    pub remote_branch: u64,
    pub pr_publish: u64,
    pub rebase: u64,
}

pub open spec fn no_generations() -> Generations {
    Generations { snapshot: 0, diff: 0, remote_branch: 0, pr_publish: 0, rebase: 0 }
}

pub open spec fn generation_of(g: Generations, kind: ObservationKind) -> u64 {
    match kind {
        ObservationKind::Snapshot => g.snapshot,
        ObservationKind::Diff => g.diff,
        ObservationKind::RemoteBranch => g.remote_branch,
        ObservationKind::PrPublish => g.pr_publish,
        ObservationKind::Rebase => g.rebase,
    }
}

pub open spec fn with_generation(g: Generations, kind: ObservationKind, n: u64) -> Generations {
    match kind {
        ObservationKind::Snapshot => Generations { snapshot: n, ..g },
        ObservationKind::Diff => Generations { diff: n, ..g },
        ObservationKind::RemoteBranch => Generations { remote_branch: n, ..g },
        ObservationKind::PrPublish => Generations { pr_publish: n, ..g },
        ObservationKind::Rebase => Generations { rebase: n, ..g },
    }
}

impl Generations {
    fn get(&self, kind: ObservationKind) -> (r: u64)
        ensures
            r == generation_of(*self, kind),
    {
        match kind {
            ObservationKind::Snapshot => self.snapshot,
            ObservationKind::Diff => self.diff,
            ObservationKind::RemoteBranch => self.remote_branch,
            ObservationKind::PrPublish => self.pr_publish,
            ObservationKind::Rebase => self.rebase,
        }
    }

    fn set(&mut self, kind: ObservationKind, n: u64)
        ensures
            *final(self) == with_generation(*old(self), kind, n),
    {
        match kind {
            ObservationKind::Snapshot => self.snapshot = n,
            ObservationKind::Diff => self.diff = n,
            ObservationKind::RemoteBranch => self.remote_branch = n,
            ObservationKind::PrPublish => self.pr_publish = n,
            ObservationKind::Rebase => self.rebase = n,
        }
    }
}

/// Which kinds of observation are under way.
#[derive(Clone, Copy, Debug, PartialEq, Eq, Structural)]
pub struct InFlight {
    pub snapshot: bool,
    pub diff: bool,
    pub remote_branch: bool,
    pub pr_publish: bool,
    pub rebase: bool,
}

pub open spec fn nothing_in_flight() -> InFlight {
    InFlight { snapshot: false, diff: false, remote_branch: false, pr_publish: false, rebase: false }
}

pub open spec fn is_in_flight(f: InFlight, kind: ObservationKind) -> bool {
    match kind {
        ObservationKind::Snapshot => f.snapshot,
        ObservationKind::Diff => f.diff,
        ObservationKind::RemoteBranch => f.remote_branch,
        ObservationKind::PrPublish => f.pr_publish,
        ObservationKind::Rebase => f.rebase,
    }
}

pub open spec fn with_in_flight(f: InFlight, kind: ObservationKind, b: bool) -> InFlight {
    match kind {
        ObservationKind::Snapshot => InFlight { snapshot: b, ..f },
        ObservationKind::Diff => InFlight { diff: b, ..f },
        ObservationKind::RemoteBranch => InFlight { remote_branch: b, ..f },
        ObservationKind::PrPublish => InFlight { pr_publish: b, ..f },
        ObservationKind::Rebase => InFlight { rebase: b, ..f },
    }
}

impl InFlight {
    fn get(&self, kind: ObservationKind) -> (r: bool)
        ensures
            r == is_in_flight(*self, kind),
    {
        match kind {
            ObservationKind::Snapshot => self.snapshot,
            ObservationKind::Diff => self.diff,
            ObservationKind::RemoteBranch => self.remote_branch,
            ObservationKind::PrPublish => self.pr_publish,
            ObservationKind::Rebase => self.rebase,
        }
    }

    fn set(&mut self, kind: ObservationKind, b: bool)
        ensures
            *final(self) == with_in_flight(*old(self), kind, b),
    {
        match kind {
            ObservationKind::Snapshot => self.snapshot = b,
            ObservationKind::Diff => self.diff = b,
            ObservationKind::RemoteBranch => self.remote_branch = b,
            ObservationKind::PrPublish => self.pr_publish = b,
            ObservationKind::Rebase => self.rebase = b,
        }
    }
}

/// What a local action does, as far as its admission depends on it.
#[derive(PartialEq, Eq)]
pub enum LocalEffect {
    Commit { message: String },
    ForcePushWithLease { remote: String, branch: String, observed_remote_oid: String },
    PublishPrSource { preparation: PrPublishPreparation },
    Other,
}

#[verifier::ext_equal]
pub enum LocalEffectView {
    Commit { message: Seq<char> },
    ForcePushWithLease { remote: Seq<char>, branch: Seq<char>, observed_remote_oid: Seq<char> },
    PublishPrSource { preparation: PrPublishPreparationView },
    Other,
}

impl View for LocalEffect {
    type V = LocalEffectView;

    open spec fn view(&self) -> LocalEffectView {
        match self {
            LocalEffect::Commit { message } => LocalEffectView::Commit { message: message@ },
            LocalEffect::ForcePushWithLease { remote, branch, observed_remote_oid } => LocalEffectView::ForcePushWithLease { remote: remote@, branch: branch@, observed_remote_oid: observed_remote_oid@ },
            LocalEffect::PublishPrSource { preparation } => LocalEffectView::PublishPrSource { preparation: preparation@ },
            LocalEffect::Other => LocalEffectView::Other,
        }
    }
}

impl Clone for LocalEffect {
    fn clone(&self) -> (r: Self)
        ensures
            r == *self,
    {
        match self {
            LocalEffect::Commit { message } => LocalEffect::Commit { message: message.clone() },
            LocalEffect::ForcePushWithLease { remote, branch, observed_remote_oid } => LocalEffect::ForcePushWithLease { remote: remote.clone(), branch: branch.clone(), observed_remote_oid: observed_remote_oid.clone() },
            LocalEffect::PublishPrSource { preparation } => LocalEffect::PublishPrSource { preparation: preparation.clone() },
            LocalEffect::Other => LocalEffect::Other,
        }
    }
}

impl LocalEffect {
    /// Whether two values are the same, with the same fields.
    pub fn same(&self, other: &Self) -> (r: bool)
        ensures
            r == (self@ == other@),
    {
        match (self, other) {
            (LocalEffect::Commit { message: message_a }, LocalEffect::Commit { message: message_b }) => text::same_text(message_a, message_b),
            (LocalEffect::ForcePushWithLease { remote: remote_a, branch: branch_a, observed_remote_oid: observed_remote_oid_a }, LocalEffect::ForcePushWithLease { remote: remote_b, branch: branch_b, observed_remote_oid: observed_remote_oid_b }) => text::same_text(remote_a, remote_b) && text::same_text(branch_a, branch_b) && text::same_text(observed_remote_oid_a, observed_remote_oid_b),
            (LocalEffect::PublishPrSource { preparation: preparation_a }, LocalEffect::PublishPrSource { preparation: preparation_b }) => preparation_a.same(preparation_b),
            (LocalEffect::Other, LocalEffect::Other) => true,
            _ => false,
        }
    }
}

/// A local action. Where it needs the checkout for itself, no other Git operation may be active.
#[derive(PartialEq, Eq)]
pub struct LocalAction {
    pub journal_kind: String,
    pub summary: String,
    pub requires_exclusive_checkout_lane: bool,
    pub effect: LocalEffect,
}

#[verifier::ext_equal]
pub struct LocalActionView {
    pub journal_kind: Seq<char>,
    pub summary: Seq<char>,
    pub requires_exclusive_checkout_lane: bool,
    pub effect: LocalEffectView,
}

impl View for LocalAction {
    type V = LocalActionView;

    open spec fn view(&self) -> LocalActionView {
        LocalActionView {
            journal_kind: self.journal_kind@,
            summary: self.summary@,
            requires_exclusive_checkout_lane: self.requires_exclusive_checkout_lane,
            effect: self.effect@,
        }
    }
}

impl Clone for LocalAction {
    fn clone(&self) -> (r: Self)
        ensures
            r == *self,
    {
        LocalAction {
            journal_kind: self.journal_kind.clone(),
            summary: self.summary.clone(),
            requires_exclusive_checkout_lane: self.requires_exclusive_checkout_lane,
            effect: self.effect.clone(),
        }
    }
}

impl LocalAction {
    /// Whether two values agree in every field.
    pub fn same(&self, other: &Self) -> (r: bool)
        ensures
            r == (self@ == other@),
    {
        self.journal_kind == other.journal_kind
            && self.summary == other.summary
            && self.requires_exclusive_checkout_lane == other.requires_exclusive_checkout_lane
            && self.effect.same(&other.effect)
    }
}

/// The record of an action that was begun.
#[derive(Debug, PartialEq, Eq)]
pub struct StartedAction {
    pub schema_version: u32,
    pub request_id: u64,
    pub kind: String,
    pub summary: String,
    pub checkout_identity: String,
    pub displayed_head: String,
    pub expected_remote_oid: Option<String>,
    pub pr_publish: Option<PrPublishAttempt>,
}

#[verifier::ext_equal]
pub struct StartedActionView {
    pub schema_version: u32,
    pub request_id: u64,
    pub kind: Seq<char>,
    pub summary: Seq<char>,
    pub checkout_identity: Seq<char>,
    pub displayed_head: Seq<char>,
    pub expected_remote_oid: Option<Seq<char>>,
    pub pr_publish: Option<PrPublishAttemptView>,
}

impl View for StartedAction {
    type V = StartedActionView;

    open spec fn view(&self) -> StartedActionView {
        StartedActionView {
            schema_version: self.schema_version,
            request_id: self.request_id,
            kind: self.kind@,
            summary: self.summary@,
            checkout_identity: self.checkout_identity@,
            displayed_head: self.displayed_head@,
            expected_remote_oid: text::option_text(self.expected_remote_oid),
            pr_publish: publish::optional_pr_publish_attempt(self.pr_publish),
        }
    }
}

impl Clone for StartedAction {
    fn clone(&self) -> (r: Self)
        ensures
            r == *self,
    {
        StartedAction {
            schema_version: self.schema_version,
            request_id: self.request_id,
            kind: self.kind.clone(),
            summary: self.summary.clone(),
            checkout_identity: self.checkout_identity.clone(),
            displayed_head: self.displayed_head.clone(),
            expected_remote_oid: self.expected_remote_oid.clone(),
            pr_publish: self.pr_publish.clone(),
        }
    }
}

impl StartedAction {
    /// Whether two values agree in every field.
    pub fn same(&self, other: &Self) -> (r: bool)
        ensures
            r == (self@ == other@),
    {
        self.schema_version == other.schema_version
            && self.request_id == other.request_id
            && self.kind == other.kind
            && self.summary == other.summary
            && self.checkout_identity == other.checkout_identity
            && self.displayed_head == other.displayed_head
            && text::same_option_text(&self.expected_remote_oid, &other.expected_remote_oid)
            && publish::same_optional_pr_publish_attempt(&self.pr_publish, &other.pr_publish)
    }
}

pub open spec fn optional_started_action(x: Option<StartedAction>) -> Option<StartedActionView> {
    match x {
        Some(v) => Some(v@),
        None => None,
    }
}

/// A local action as it is to be confirmed.
#[derive(PartialEq, Eq)]
pub struct FrozenLocalIntent {
    pub id: u64,
    pub action: LocalAction,
    pub guard: SnapshotGuard,
    pub checkout_epoch: u64,
}

#[verifier::ext_equal]
pub struct FrozenLocalIntentView {
    pub id: u64,
    pub action: LocalActionView,
    pub guard: SnapshotGuardView,
    pub checkout_epoch: u64,
}

impl View for FrozenLocalIntent {
    type V = FrozenLocalIntentView;

    open spec fn view(&self) -> FrozenLocalIntentView {
        FrozenLocalIntentView {
            id: self.id,
            action: self.action@,
            guard: self.guard@,
            checkout_epoch: self.checkout_epoch,
        }
    }
}

impl Clone for FrozenLocalIntent {
    fn clone(&self) -> (r: Self)
        ensures
            r == *self,
    {
        FrozenLocalIntent {
            id: self.id,
            action: self.action.clone(),
            guard: self.guard.clone(),
            checkout_epoch: self.checkout_epoch,
        }
    }
}

/// A rebase command as it is to be confirmed.
#[derive(Debug, PartialEq, Eq)]
pub struct FrozenRebaseIntent {
    pub id: u64,
    pub command: RebaseCommand,
    pub editable_inputs: RebaseEditableInputIdentity,
    pub checkout_epoch: u64,
}

#[verifier::ext_equal]
pub struct FrozenRebaseIntentView {
    pub id: u64,
    pub command: RebaseCommandView,
    pub editable_inputs: RebaseEditableInputIdentityView,
    pub checkout_epoch: u64,
}

impl View for FrozenRebaseIntent {
    type V = FrozenRebaseIntentView;

    open spec fn view(&self) -> FrozenRebaseIntentView {
        FrozenRebaseIntentView {
            id: self.id,
            command: self.command@,
            editable_inputs: self.editable_inputs@,
            checkout_epoch: self.checkout_epoch,
        }
    }
}

impl Clone for FrozenRebaseIntent {
    fn clone(&self) -> (r: Self)
        ensures
            r@ == self@,
    {
        FrozenRebaseIntent {
            id: self.id,
            command: self.command.clone(),
            editable_inputs: self.editable_inputs.clone(),
            checkout_epoch: self.checkout_epoch,
        }
    }
}

#[derive(PartialEq, Eq)]
pub enum FrozenIntent {
    Local(FrozenLocalIntent),
    Rebase(FrozenRebaseIntent),
}

#[verifier::ext_equal]
pub enum FrozenIntentView {
    Local(FrozenLocalIntentView),
    Rebase(FrozenRebaseIntentView),
}

impl View for FrozenIntent {
    type V = FrozenIntentView;

    open spec fn view(&self) -> FrozenIntentView {
        match self {
            FrozenIntent::Local(x0) => FrozenIntentView::Local(x0@),
            FrozenIntent::Rebase(x0) => FrozenIntentView::Rebase(x0@),
        }
    }
}

impl Clone for FrozenIntent {
    fn clone(&self) -> (r: Self)
        ensures
            r@ == self@,
    {
        match self {
            FrozenIntent::Local(x0) => FrozenIntent::Local(x0.clone()),
            FrozenIntent::Rebase(x0) => FrozenIntent::Rebase(x0.clone()),
        }
    }
}

/// What runs, and the ticket of its run.
#[derive(PartialEq, Eq)]
pub struct RunningIntent {
    pub frozen: FrozenIntent,
    pub ticket: DispatchTicket,
}

#[verifier::ext_equal]
pub struct RunningIntentView {
    pub frozen: FrozenIntentView,
    pub ticket: DispatchTicket,
}

impl View for RunningIntent {
    type V = RunningIntentView;

    open spec fn view(&self) -> RunningIntentView {
        RunningIntentView {
            frozen: self.frozen@,
            ticket: self.ticket,
        }
    }
}

impl Clone for RunningIntent {
    fn clone(&self) -> (r: Self)
        ensures
            r@ == self@,
    {
        RunningIntent {
            frozen: self.frozen.clone(),
            ticket: self.ticket,
        }
    }
}

/// A started action whose end is not settled, and what is still needed to settle it.
#[derive(Debug, PartialEq, Eq)]
pub struct RecoveryState {
    pub started: StartedAction,
    pub authoritative_refresh_required: bool,
    pub publish_refresh_required: bool,
}

#[verifier::ext_equal]
pub struct RecoveryStateView {
    pub started: StartedActionView,
    pub authoritative_refresh_required: bool,
    pub publish_refresh_required: bool,
}

impl View for RecoveryState {
    type V = RecoveryStateView;

    open spec fn view(&self) -> RecoveryStateView {
        RecoveryStateView {
            started: self.started@,
            authoritative_refresh_required: self.authoritative_refresh_required,
            publish_refresh_required: self.publish_refresh_required,
        }
    }
}

impl Clone for RecoveryState {
    fn clone(&self) -> (r: Self)
        ensures
            r == *self,
    {
        RecoveryState {
            started: self.started.clone(),
            authoritative_refresh_required: self.authoritative_refresh_required,
            publish_refresh_required: self.publish_refresh_required,
        }
    }
}

/// What is going on in the checkout.
#[derive(PartialEq, Eq)]
pub enum Phase {
    Idle,
    AwaitingConfirmation(FrozenIntent),
    Running(RunningIntent),
    AwaitingAuthoritativeSnapshot,
    Recovery(RecoveryState),
    Acknowledging { recovery: RecoveryState, ticket: DispatchTicket },
}

#[verifier::ext_equal]
pub enum PhaseView {
    Idle,
    AwaitingConfirmation(FrozenIntentView),
    Running(RunningIntentView),
    AwaitingAuthoritativeSnapshot,
    Recovery(RecoveryStateView),
    Acknowledging { recovery: RecoveryStateView, ticket: DispatchTicket },
}

impl View for Phase {
    type V = PhaseView;

    open spec fn view(&self) -> PhaseView {
        match self {
            Phase::Idle => PhaseView::Idle,
            Phase::AwaitingConfirmation(x0) => PhaseView::AwaitingConfirmation(x0@),
            Phase::Running(x0) => PhaseView::Running(x0@),
            Phase::AwaitingAuthoritativeSnapshot => PhaseView::AwaitingAuthoritativeSnapshot,
            Phase::Recovery(x0) => PhaseView::Recovery(x0@),
            Phase::Acknowledging { recovery, ticket } => PhaseView::Acknowledging { recovery: recovery@, ticket: *ticket },
        }
    }
}

/// What is kept of the last state that was read.
#[derive(Debug, PartialEq, Eq)]
pub struct AuthoritativeSnapshot {
    pub guard: SnapshotGuard,
    pub displayed_head: String,
    pub operation_active: bool,
}

#[verifier::ext_equal]
pub struct AuthoritativeSnapshotView {
    pub guard: SnapshotGuardView,
    pub displayed_head: Seq<char>,
    pub operation_active: bool,
}

impl View for AuthoritativeSnapshot {
    type V = AuthoritativeSnapshotView;

    open spec fn view(&self) -> AuthoritativeSnapshotView {
        AuthoritativeSnapshotView {
            guard: self.guard@,
            displayed_head: self.displayed_head@,
            operation_active: self.operation_active,
        }
    }
}

pub open spec fn optional_authoritative_snapshot(x: Option<AuthoritativeSnapshot>) -> Option<AuthoritativeSnapshotView> {
    match x {
        Some(v) => Some(v@),
        None => None,
    }
}

/// A local action to carry out.
#[derive(PartialEq, Eq)]
pub struct LocalDispatch {
    pub ticket: DispatchTicket,
    pub intent: FrozenLocalIntent,
    pub started: StartedAction,
}

#[verifier::ext_equal]
pub struct LocalDispatchView {
    pub ticket: DispatchTicket,
    pub intent: FrozenLocalIntentView,
    pub started: StartedActionView,
}

impl View for LocalDispatch {
    type V = LocalDispatchView;

    open spec fn view(&self) -> LocalDispatchView {
        LocalDispatchView {
            ticket: self.ticket,
            intent: self.intent@,
            started: self.started@,
        }
    }
}

/// A rebase command to carry out.
#[derive(Debug, PartialEq, Eq)]
pub struct RebaseDispatch {
    pub ticket: DispatchTicket,
    pub intent: FrozenRebaseIntent,
}

#[verifier::ext_equal]
pub struct RebaseDispatchView {
    pub ticket: DispatchTicket,
    pub intent: FrozenRebaseIntentView,
}

impl View for RebaseDispatch {
    type V = RebaseDispatchView;

    open spec fn view(&self) -> RebaseDispatchView {
        RebaseDispatchView {
            ticket: self.ticket,
            intent: self.intent@,
        }
    }
}

/// A started action to acknowledge.
#[derive(Debug, PartialEq, Eq)]
pub struct ReconciliationDispatch {
    pub ticket: DispatchTicket,
    pub started: StartedAction,
}

#[verifier::ext_equal]
pub struct ReconciliationDispatchView {
    pub ticket: DispatchTicket,
    pub started: StartedActionView,
}

impl View for ReconciliationDispatch {
    type V = ReconciliationDispatchView;

    open spec fn view(&self) -> ReconciliationDispatchView {
        ReconciliationDispatchView {
            ticket: self.ticket,
            started: self.started@,
        }
    }
}

#[derive(PartialEq, Eq)]
pub struct OperationLifecycle {
    pub checkout_epoch: Option<u64>,
    pub checkout_identity: String,
    pub next_request_id: u64,
    pub operation_version: u64,
    pub phase: Phase,
    pub observation_generations: Generations,
    pub observations_in_flight: InFlight,
    pub snapshot: Option<AuthoritativeSnapshot>,
    pub remote_observation: Option<RemoteBranchObservation>,
}

#[verifier::ext_equal]
pub struct OperationLifecycleView {
    pub checkout_epoch: Option<u64>,
    pub checkout_identity: Seq<char>,
    pub next_request_id: u64,
    pub operation_version: u64,
    pub phase: PhaseView,
    pub observation_generations: Generations,
    pub observations_in_flight: InFlight,
    pub snapshot: Option<AuthoritativeSnapshotView>,
    pub remote_observation: Option<RemoteBranchObservationView>,
}

impl View for OperationLifecycle {
    type V = OperationLifecycleView;

    open spec fn view(&self) -> OperationLifecycleView {
        OperationLifecycleView {
            checkout_epoch: self.checkout_epoch,
            checkout_identity: self.checkout_identity@,
            next_request_id: self.next_request_id,
            operation_version: self.operation_version,
            phase: self.phase@,
            observation_generations: self.observation_generations,
            observations_in_flight: self.observations_in_flight,
            snapshot: optional_authoritative_snapshot(self.snapshot),
            remote_observation: git::optional_remote_branch_observation(self.remote_observation),
        }
    }
}

// ---------------------------------------------------------------------------
// Small transitions

/// The number that follows, around.
pub open spec fn following(n: u64) -> u64 {
    if n == u64::MAX {
        0
    } else {
        (n + 1) as u64
    }
}

fn next_number(n: u64) -> (r: u64)
    ensures
        r == following(n),
{
    if n == u64::MAX {
        0
    } else {
        n + 1
    }
}

/// A new version of the operation: every read that is under way is retired.
pub open spec fn advanced(l: OperationLifecycleView) -> OperationLifecycleView {
    OperationLifecycleView {
        operation_version: following(l.operation_version),
        observations_in_flight: nothing_in_flight(),
        ..l
    }
}

pub open spec fn recorded(
    l: OperationLifecycleView,
    snapshot: LocalSnapshotView,
) -> OperationLifecycleView {
    OperationLifecycleView {
        snapshot: Some(
            AuthoritativeSnapshotView {
                guard: snapshot.guard,
                displayed_head: snapshot.head_label,
                operation_active: snapshot.operation_active,
            },
        ),
        ..l
    }
}

pub open spec fn in_phase(l: OperationLifecycleView, phase: PhaseView) -> OperationLifecycleView {
    OperationLifecycleView { phase, ..l }
}

pub open spec fn fresh_lifecycle() -> OperationLifecycleView {
    OperationLifecycleView {
        checkout_epoch: None,
        checkout_identity: Seq::empty(),
        next_request_id: 1,
        operation_version: 0,
        phase: PhaseView::Idle,
        observation_generations: no_generations(),
        observations_in_flight: nothing_in_flight(),
        snapshot: None,
        remote_observation: None,
    }
}

/// The phase that a checkout begins in: an action that was started before is to be recovered.
pub open spec fn initial_phase(started: Option<StartedActionView>) -> PhaseView {
    match started {
        None => PhaseView::Idle,
        Some(s) => PhaseView::Recovery(
            RecoveryStateView {
                started: s,
                authoritative_refresh_required: false,
                publish_refresh_required: s.pr_publish is Some,
            },
        ),
    }
}

pub open spec fn activated(
    l: OperationLifecycleView,
    checkout_epoch: u64,
    checkout_identity: Seq<char>,
    snapshot: LocalSnapshotView,
    started: Option<StartedActionView>,
) -> OperationLifecycleView {
    in_phase(
        recorded(
            OperationLifecycleView {
                checkout_epoch: Some(checkout_epoch),
                checkout_identity,
                observation_generations: no_generations(),
                ..advanced(l)
            },
            snapshot,
        ),
        initial_phase(started),
    )
}

pub open spec fn lane_of(frozen: FrozenIntentView) -> Lane {
    match frozen {
        FrozenIntentView::Local(_) => Lane::Local,
        FrozenIntentView::Rebase(_) => Lane::Rebase,
    }
}

pub open spec fn intent_id(frozen: FrozenIntentView) -> u64 {
    match frozen {
        FrozenIntentView::Local(i) => i.id,
        FrozenIntentView::Rebase(i) => i.id,
    }
}

// ---------------------------------------------------------------------------
// Observations

pub open spec fn observation_ticket(
    l: OperationLifecycleView,
    kind: ObservationKind,
) -> ObservationTicket {
    ObservationTicket {
        kind,
        generation: following(generation_of(l.observation_generations, kind)),
        checkout_epoch: l.checkout_epoch->0,
        operation_version: l.operation_version,
    }
}

pub open spec fn observing(
    l: OperationLifecycleView,
    kind: ObservationKind,
) -> OperationLifecycleView {
    OperationLifecycleView {
        remote_observation: if kind is RemoteBranch {
            None
        } else {
            l.remote_observation
        },
        observation_generations: with_generation(
            l.observation_generations,
            kind,
            following(generation_of(l.observation_generations, kind)),
        ),
        observations_in_flight: with_in_flight(l.observations_in_flight, kind, true),
        ..l
    }
}

pub open spec fn is_current(l: OperationLifecycleView, ticket: ObservationTicket) -> bool {
    &&& l.checkout_epoch == Some(ticket.checkout_epoch)
    &&& l.operation_version == ticket.operation_version
    &&& generation_of(l.observation_generations, ticket.kind) == ticket.generation
    &&& is_in_flight(l.observations_in_flight, ticket.kind)
}

pub open spec fn observed(
    l: OperationLifecycleView,
    ticket: ObservationTicket,
) -> OperationLifecycleView {
    if is_current(l, ticket) {
        OperationLifecycleView {
            observations_in_flight: with_in_flight(l.observations_in_flight, ticket.kind, false),
            ..l
        }
    } else {
        l
    }
}

/// The phase once the state of the checkout has been read.
pub open spec fn phase_after_snapshot(phase: PhaseView) -> PhaseView {
    match phase {
        PhaseView::Recovery(r) => PhaseView::Recovery(
            RecoveryStateView { authoritative_refresh_required: false, ..r },
        ),
        PhaseView::AwaitingAuthoritativeSnapshot => PhaseView::Idle,
        _ => phase,
    }
}

pub open spec fn snapshot_installed(
    l: OperationLifecycleView,
    ticket: ObservationTicket,
    snapshot: LocalSnapshotView,
) -> OperationLifecycleView {
    if ticket.kind is Snapshot && is_current(l, ticket) {
        in_phase(recorded(observed(l, ticket), snapshot), phase_after_snapshot(l.phase))
    } else {
        l
    }
}

pub open spec fn remote_installed(
    l: OperationLifecycleView,
    ticket: ObservationTicket,
    observation: RemoteBranchObservationView,
) -> OperationLifecycleView {
    if ticket.kind is RemoteBranch && is_current(l, ticket) {
        OperationLifecycleView {
            remote_observation: Some(observation),
            ..observed(l, ticket)
        }
    } else {
        l
    }
}

/// Whether a publication read settles what a recovery waits for.
pub open spec fn settles_publication(
    l: OperationLifecycleView,
    ticket: ObservationTicket,
    attempt: PrPublishAttemptView,
) -> bool {
    &&& ticket.kind is PrPublish
    &&& is_current(l, ticket)
    &&& l.phase matches PhaseView::Recovery(r) && r.started.pr_publish == Some(attempt)
}

pub open spec fn publication_reconciled(
    l: OperationLifecycleView,
    ticket: ObservationTicket,
    attempt: PrPublishAttemptView,
) -> OperationLifecycleView {
    if settles_publication(l, ticket, attempt) {
        in_phase(
            observed(l, ticket),
            PhaseView::Recovery(
                RecoveryStateView {
                    publish_refresh_required: false,
                    ..l.phase->Recovery_0
                },
            ),
        )
    } else if ticket.kind is PrPublish {
        observed(l, ticket)
    } else {
        l
    }
}

// ---------------------------------------------------------------------------
// Admission

pub open spec fn admission_fault(l: OperationLifecycleView, requested: Lane) -> Option<Seq<char>> {
    if l.observations_in_flight.pr_publish {
        Some("Wait for the fresh PR publication read to finish"@)
    } else {
        match l.phase {
            PhaseView::Idle => None,
            PhaseView::AwaitingConfirmation(frozen) => if lane_of(frozen) is Rebase {
                if requested is Local {
                    Some(
                        "A rebase transition or confirmation is active; finish or cancel it first"@,
                    )
                } else {
                    Some("A rebase confirmation is already pending"@)
                }
            } else if requested is Rebase {
                Some("A local Git action or its durable reconciliation is pending"@)
            } else {
                Some("Reconcile or cancel the current local action before starting another"@)
            },
            PhaseView::Running(running) => if running.ticket.lane is Rebase {
                if requested is Local {
                    Some(
                        "A rebase transition or confirmation is active; finish or cancel it first"@,
                    )
                } else {
                    Some("A rebase effect is already running"@)
                }
            } else {
                Some("A local action or its durable reconciliation is still running"@)
            },
            PhaseView::Acknowledging { .. } => Some(
                "A local action or its durable reconciliation is still running"@,
            ),
            PhaseView::Recovery(_) => Some(
                "Reconcile the current local action before starting another"@,
            ),
            PhaseView::AwaitingAuthoritativeSnapshot => Some(
                "Wait for a successful authoritative Git refresh before starting another action"@,
            ),
        }
    }
}

/// Whether the branch that a lease is about was observed exactly so.
pub open spec fn lease_was_observed(
    observation: Option<RemoteBranchObservationView>,
    remote: Seq<char>,
    branch: Seq<char>,
    oid: Seq<char>,
) -> bool {
    observation matches Some(o) && o.remote == remote && o.branch == branch && o.oid == Some(oid)
}

/// Whether the lease of an action, where it has one, is as it was observed.
pub open spec fn lease_holds(l: OperationLifecycleView, action: LocalActionView) -> bool {
    match action.effect {
        LocalEffectView::ForcePushWithLease { remote, branch, observed_remote_oid } =>
            lease_was_observed(l.remote_observation, remote, branch, observed_remote_oid),
        _ => true,
    }
}

pub open spec fn local_admission_fault(
    l: OperationLifecycleView,
    action: LocalActionView,
    guard: SnapshotGuardView,
) -> Option<Seq<char>> {
    match admission_fault(l, Lane::Local) {
        Some(e) => Some(e),
        None => if l.checkout_epoch is None {
            Some("Local workspace is not ready"@)
        } else {
            match l.snapshot {
                None => Some("Refresh Local Changes before acting"@),
                Some(snapshot) => if snapshot.guard != guard {
                    Some("Local Git state changed; refresh and review the action again"@)
                } else if action.requires_exclusive_checkout_lane && snapshot.operation_active {
                    Some(
                        "Branch/pull action paused while a merge, rebase, cherry-pick, or revert is active"@,
                    )
                } else if !lease_holds(l, action) {
                    Some(
                        "Force-with-lease paused: observe and inspect this exact remote branch/OID first"@,
                    )
                } else {
                    None
                },
            }
        },
    }
}

pub open spec fn awaiting(l: OperationLifecycleView, frozen: FrozenIntentView) -> OperationLifecycleView {
    OperationLifecycleView {
        next_request_id: following(l.next_request_id),
        phase: PhaseView::AwaitingConfirmation(frozen),
        ..l
    }
}

pub open spec fn local_admitted(
    l: OperationLifecycleView,
    action: LocalActionView,
    guard: SnapshotGuardView,
) -> OperationLifecycleView {
    match local_admission_fault(l, action, guard) {
        Some(_) => l,
        None => awaiting(
            l,
            FrozenIntentView::Local(
                FrozenLocalIntentView {
                    id: l.next_request_id,
                    action,
                    guard,
                    checkout_epoch: l.checkout_epoch->0,
                },
            ),
        ),
    }
}

/// Whether the last state of the checkout is the one that a command is for.
pub open spec fn command_guard_holds(l: OperationLifecycleView, command: RebaseCommandView) -> bool {
    match command::command_guard_of(command) {
        None => true,
        Some(guard) => l.snapshot matches Some(s) && s.guard == guard,
    }
}

pub open spec fn rebase_admission_fault(
    l: OperationLifecycleView,
    command: RebaseCommandView,
) -> Option<Seq<char>> {
    match admission_fault(l, Lane::Rebase) {
        Some(e) => Some(e),
        None => if l.checkout_epoch is None {
            Some("Local workspace is not ready"@)
        } else if !command_guard_holds(l, command) {
            Some(
                "Rebase request paused: the affected Git snapshot changed; refresh and review again"@,
            )
        } else {
            None
        },
    }
}

pub open spec fn rebase_admitted(
    l: OperationLifecycleView,
    command: RebaseCommandView,
    editable_inputs: RebaseEditableInputIdentityView,
) -> OperationLifecycleView {
    match rebase_admission_fault(l, command) {
        Some(_) => l,
        None => awaiting(
            l,
            FrozenIntentView::Rebase(
                FrozenRebaseIntentView {
                    id: l.next_request_id,
                    command,
                    editable_inputs,
                    checkout_epoch: l.checkout_epoch->0,
                },
            ),
        ),
    }
}

// ---------------------------------------------------------------------------
// Confirmation

pub open spec fn pending_local_of(l: OperationLifecycleView) -> Option<FrozenLocalIntentView> {
    match l.phase {
        PhaseView::AwaitingConfirmation(FrozenIntentView::Local(i)) => Some(i),
        _ => None,
    }
}

pub open spec fn pending_rebase_of(l: OperationLifecycleView) -> Option<FrozenRebaseIntentView> {
    match l.phase {
        PhaseView::AwaitingConfirmation(FrozenIntentView::Rebase(i)) => Some(i),
        _ => None,
    }
}

pub open spec fn frozen_local_fault(
    l: OperationLifecycleView,
    intent: FrozenLocalIntentView,
) -> Option<Seq<char>> {
    if l.checkout_epoch is None {
        Some("Local workspace is not ready"@)
    } else if intent.checkout_epoch != l.checkout_epoch->0 {
        Some("Checkout identity changed; refresh before retrying"@)
    } else {
        match l.snapshot {
            None => Some("Refresh Local Changes before acting"@),
            Some(snapshot) => if snapshot.guard != intent.guard {
                Some(
                    "Confirmation paused: authoritative Git state changed; the exact pending request was retained"@,
                )
            } else if intent.action.requires_exclusive_checkout_lane && snapshot.operation_active {
                Some("Confirmation paused: authoritative Git operation state is incompatible"@)
            } else if !lease_holds(l, intent.action) {
                Some(
                    "Confirmation paused: the authoritative remote observation changed; observe and review the exact lease again"@,
                )
            } else {
                None
            },
        }
    }
}

pub open spec fn local_confirmation_fault(l: OperationLifecycleView, request_id: u64) -> Option<
    Seq<char>,
> {
    match pending_local_of(l) {
        None => Some("There is no local action awaiting confirmation"@),
        Some(intent) => if intent.id != request_id {
            Some("That confirmation is stale; review the current action"@)
        } else {
            frozen_local_fault(l, intent)
        },
    }
}

pub open spec fn expected_remote_of(effect: LocalEffectView) -> Option<Seq<char>> {
    match effect {
        LocalEffectView::ForcePushWithLease { observed_remote_oid, .. } => Some(
            observed_remote_oid,
        ),
        LocalEffectView::PublishPrSource { preparation } => Some(preparation.expected_remote_oid),
        _ => None,
    }
}

pub open spec fn recorded_publication_of(effect: LocalEffectView, request_id: u64) -> Option<
    PrPublishAttemptView,
> {
    match effect {
        LocalEffectView::PublishPrSource { preparation } => Some(
            publish::attempt_of(preparation, request_id),
        ),
        _ => None,
    }
}

/// The record that is made before a local action runs.
pub open spec fn started_of(
    l: OperationLifecycleView,
    intent: FrozenLocalIntentView,
) -> StartedActionView {
    StartedActionView {
        schema_version: 1,
        request_id: intent.id,
        kind: intent.action.journal_kind,
        summary: intent.action.summary,
        checkout_identity: l.checkout_identity,
        displayed_head: l.snapshot->0.displayed_head,
        expected_remote_oid: expected_remote_of(intent.action.effect),
        pr_publish: recorded_publication_of(intent.action.effect, intent.id),
    }
}

pub open spec fn dispatch_ticket(l: OperationLifecycleView, frozen: FrozenIntentView) -> DispatchTicket {
    DispatchTicket {
        request_id: intent_id(frozen),
        checkout_epoch: match l.checkout_epoch {
            Some(e) => e,
            None => 0,
        },
        operation_version: following(l.operation_version),
        lane: lane_of(frozen),
    }
}

pub open spec fn running(l: OperationLifecycleView, frozen: FrozenIntentView) -> OperationLifecycleView {
    in_phase(
        advanced(l),
        PhaseView::Running(RunningIntentView { frozen, ticket: dispatch_ticket(l, frozen) }),
    )
}

pub open spec fn local_confirmed(l: OperationLifecycleView, request_id: u64) -> OperationLifecycleView {
    match local_confirmation_fault(l, request_id) {
        Some(_) => l,
        None => running(l, FrozenIntentView::Local(pending_local_of(l)->0)),
    }
}

pub open spec fn rebase_confirmation_fault(
    l: OperationLifecycleView,
    request_id: u64,
    current_inputs: RebaseEditableInputIdentityView,
) -> Option<Seq<char>> {
    match pending_rebase_of(l) {
        None => Some("There is no rebase action awaiting confirmation"@),
        Some(intent) => if intent.id != request_id {
            Some("That rebase confirmation is stale"@)
        } else if l.checkout_epoch is None {
            Some("Local workspace is not ready"@)
        } else if intent.checkout_epoch != l.checkout_epoch->0 {
            Some("Rebase confirmation paused: checkout identity changed"@)
        } else if intent.editable_inputs != current_inputs {
            Some(
                "Rebase confirmation paused: the displayed plan, base, or message input drifted from the frozen request. Nothing was dispatched; the exact pending request was retained. Cancel, edit/reprepare, and request a new confirmation."@,
            )
        } else if !command_guard_holds(l, intent.command) {
            Some(
                "Rebase confirmation paused: the Git snapshot changed. The pending confirmation was retained."@,
            )
        } else {
            None
        },
    }
}

pub open spec fn rebase_confirmed(
    l: OperationLifecycleView,
    request_id: u64,
    current_inputs: RebaseEditableInputIdentityView,
) -> OperationLifecycleView {
    match rebase_confirmation_fault(l, request_id, current_inputs) {
        Some(_) => l,
        None => running(l, FrozenIntentView::Rebase(pending_rebase_of(l)->0)),
    }
}

pub open spec fn is_running(l: OperationLifecycleView, ticket: DispatchTicket, lane: Lane) -> bool {
    l.phase matches PhaseView::Running(r) && r.ticket == ticket && r.ticket.lane == lane
}

pub open spec fn settled(l: OperationLifecycleView, phase: PhaseView) -> OperationLifecycleView {
    OperationLifecycleView { remote_observation: None, ..in_phase(advanced(l), phase) }
}

pub open spec fn local_succeeded(
    l: OperationLifecycleView,
    ticket: DispatchTicket,
    snapshot: LocalSnapshotView,
) -> OperationLifecycleView {
    if is_running(l, ticket, Lane::Local) {
        recorded(settled(l, PhaseView::Idle), snapshot)
    } else {
        l
    }
}

pub open spec fn local_retried(
    l: OperationLifecycleView,
    ticket: DispatchTicket,
) -> OperationLifecycleView {
    if is_running(l, ticket, Lane::Local) {
        in_phase(advanced(l), PhaseView::AwaitingConfirmation(l.phase->Running_0.frozen))
    } else {
        l
    }
}

pub open spec fn local_recovering(
    l: OperationLifecycleView,
    ticket: DispatchTicket,
    recovery: RecoveryStateView,
) -> OperationLifecycleView {
    if is_running(l, ticket, Lane::Local) {
        settled(l, PhaseView::Recovery(recovery))
    } else {
        l
    }
}

/// Whether a local action with this number waits for its confirmation.
pub open spec fn awaits_local(l: OperationLifecycleView, request_id: u64) -> bool {
    pending_local_of(l) matches Some(i) && i.id == request_id
}

pub open spec fn local_cancelled(
    l: OperationLifecycleView,
    request_id: u64,
) -> OperationLifecycleView {
    if awaits_local(l, request_id) {
        in_phase(advanced(l), PhaseView::Idle)
    } else {
        l
    }
}

/// Without a fresh state of the checkout, what follows a transition is to be read first.
pub open spec fn rebase_completed(
    l: OperationLifecycleView,
    ticket: DispatchTicket,
    snapshot: Option<LocalSnapshotView>,
) -> OperationLifecycleView {
    if is_running(l, ticket, Lane::Rebase) {
        match snapshot {
            Some(s) => recorded(settled(l, PhaseView::Idle), s),
            None => settled(l, PhaseView::AwaitingAuthoritativeSnapshot),
        }
    } else {
        l
    }
}

/// Whether a transition with this number waits for its confirmation.
pub open spec fn awaits_rebase(l: OperationLifecycleView, request_id: u64) -> bool {
    pending_rebase_of(l) matches Some(i) && i.id == request_id
}

pub open spec fn rebase_cancelled(
    l: OperationLifecycleView,
    request_id: u64,
) -> OperationLifecycleView {
    if awaits_rebase(l, request_id) {
        in_phase(advanced(l), PhaseView::Idle)
    } else {
        l
    }
}

// ---------------------------------------------------------------------------
// Reconciliation

pub open spec fn reconciliation_fault(l: OperationLifecycleView) -> Option<Seq<char>> {
    match l.phase {
        PhaseView::Recovery(recovery) => if recovery.authoritative_refresh_required {
            Some("Wait for a successful authoritative Git refresh before acknowledging"@)
        } else if recovery.publish_refresh_required {
            Some(
                "Wait for a successful fresh provider and effective push-endpoint reconciliation before acknowledging"@,
            )
        } else if l.snapshot is None {
            Some("Refresh authoritative Git state before reconciling"@)
        } else {
            None
        },
        _ => Some("There is no started action to reconcile"@),
    }
}

pub open spec fn reconciliation_ticket(l: OperationLifecycleView) -> DispatchTicket {
    DispatchTicket {
        request_id: l.phase->Recovery_0.started.request_id,
        checkout_epoch: match l.checkout_epoch {
            Some(e) => e,
            None => 0,
        },
        operation_version: following(l.operation_version),
        lane: Lane::Reconciliation,
    }
}

pub open spec fn reconciling(l: OperationLifecycleView) -> OperationLifecycleView {
    match reconciliation_fault(l) {
        Some(_) => l,
        None => in_phase(
            advanced(l),
            PhaseView::Acknowledging {
                recovery: l.phase->Recovery_0,
                ticket: reconciliation_ticket(l),
            },
        ),
    }
}

pub open spec fn is_acknowledging(l: OperationLifecycleView, ticket: DispatchTicket) -> bool {
    l.phase matches PhaseView::Acknowledging { ticket: active, .. } && active == ticket
}

pub open spec fn reconciled(
    l: OperationLifecycleView,
    ticket: DispatchTicket,
    cleared: bool,
) -> OperationLifecycleView {
    if is_acknowledging(l, ticket) {
        in_phase(
            advanced(l),
            if cleared {
                PhaseView::Idle
            } else {
                PhaseView::Recovery(l.phase->recovery)
            },
        )
    } else {
        l
    }
}

// ---------------------------------------------------------------------------
// The lifecycle

pub open spec fn id_view(r: Result<u64, String>) -> Result<u64, Seq<char>> {
    match r {
        Ok(id) => Ok(id),
        Err(e) => Err(e@),
    }
}

/// The number that a request gets, or the reason why it gets none.
pub open spec fn id_or(id: u64, fault: Option<Seq<char>>) -> Result<u64, Seq<char>> {
    match fault {
        None => Ok(id),
        Some(e) => Err(e),
    }
}

impl Default for OperationLifecycle {
    fn default() -> (r: Self)
        ensures
            r@ == fresh_lifecycle(),
    {
        OperationLifecycle {
            checkout_epoch: None,
            checkout_identity: String::new(),
            next_request_id: 1,
            operation_version: 0,
            phase: Phase::Idle,
            observation_generations: Generations {
                snapshot: 0,
                diff: 0,
                remote_branch: 0,
                pr_publish: 0,
                rebase: 0,
            },
            observations_in_flight: InFlight {
                snapshot: false,
                diff: false,
                remote_branch: false,
                pr_publish: false,
                rebase: false,
            },
            snapshot: None,
            remote_observation: None,
        }
    }
}

fn lease_matches(
    observation: &Option<RemoteBranchObservation>,
    remote: &str,
    branch: &str,
    oid: &str,
) -> (r: bool)
    ensures
        r == lease_was_observed(
            git::optional_remote_branch_observation(*observation),
            remote@,
            branch@,
            oid@,
        ),
{
    match observation {
        None => false,
        Some(o) => text::same_text(&o.remote, remote) && text::same_text(&o.branch, branch)
            && match &o.oid {
            Some(x) => text::same_text(x, oid),
            None => false,
        },
    }
}

impl OperationLifecycle {
    fn advance_operation_version(&mut self)
        ensures
            final(self)@ == advanced(old(self)@),
    {
        self.operation_version = next_number(self.operation_version);
        self.observations_in_flight =
        InFlight {
            snapshot: false,
            diff: false,
            remote_branch: false,
            pr_publish: false,
            rebase: false,
        };
    }

    fn record_snapshot(&mut self, snapshot: &LocalSnapshot)
        ensures
            final(self)@ == recorded(old(self)@, snapshot@),
    {
        self.snapshot = Some(
            AuthoritativeSnapshot {
                guard: snapshot.guard.clone(),
                displayed_head: snapshot.head_label.clone(),
                operation_active: snapshot.operation_active,
            },
        );
    }

    fn allocate_request_id(&mut self) -> (r: u64)
        ensures
            r == old(self)@.next_request_id,
            final(self)@ == (OperationLifecycleView {
                next_request_id: following(old(self)@.next_request_id),
                ..old(self)@
            }),
    {
        let id: u64 = self.next_request_id;
        self.next_request_id = next_number(id);
        id
    }

    /// Takes on a checkout, with the action that was started in it and not settled.
    pub fn activate(
        &mut self,
        checkout_epoch: u64,
        checkout_identity: String,
        snapshot: &LocalSnapshot,
        started: Option<StartedAction>,
    )
        ensures
            final(self)@ == activated(
                old(self)@,
                checkout_epoch,
                checkout_identity@,
                snapshot@,
                optional_started_action(started),
            ),
    {
        self.checkout_epoch = Some(checkout_epoch);
        self.checkout_identity = checkout_identity;
        self.advance_operation_version();
        self.observation_generations =
        Generations { snapshot: 0, diff: 0, remote_branch: 0, pr_publish: 0, rebase: 0 };
        self.record_snapshot(snapshot);
        self.phase =
        match started {
            None => Phase::Idle,
            Some(started) => {
                let publish_refresh_required: bool = started.pr_publish.is_some();
                Phase::Recovery(
                    RecoveryState {
                        started,
                        authoritative_refresh_required: false,
                        publish_refresh_required,
                    },
                )
            },
        };
    }

    pub fn begin_observation(&mut self, kind: ObservationKind) -> (r: Result<
        ObservationTicket,
        &'static str,
    >)
        ensures
            match r {
                Ok(ticket) => old(self)@.checkout_epoch is Some && ticket == observation_ticket(
                    old(self)@,
                    kind,
                ) && final(self)@ == observing(old(self)@, kind),
                Err(e) => old(self)@.checkout_epoch is None && e@ == "Local workspace is not ready"@
                    && final(self)@ == old(self)@,
            },
    {
        let checkout_epoch: u64 = match self.checkout_epoch {
            Some(epoch) => epoch,
            None => {
                return Err("Local workspace is not ready");
            },
        };
        if let ObservationKind::RemoteBranch = kind {
            self.remote_observation = None;
        }
        let generation: u64 = next_number(self.observation_generations.get(kind));
        self.observation_generations.set(kind, generation);
        self.observations_in_flight.set(kind, true);
        Ok(
            ObservationTicket {
                kind,
                generation,
                checkout_epoch,
                operation_version: self.operation_version,
            },
        )
    }

    fn observation_is_current(&self, ticket: ObservationTicket) -> (r: bool)
        ensures
            r == is_current(self@, ticket),
    {
        let same_epoch: bool = match self.checkout_epoch {
            Some(epoch) => epoch == ticket.checkout_epoch,
            None => false,
        };
        same_epoch && self.operation_version == ticket.operation_version
            && self.observation_generations.get(ticket.kind) == ticket.generation
            && self.observations_in_flight.get(ticket.kind)
    }

    pub fn finish_observation(&mut self, ticket: ObservationTicket) -> (r: bool)
        ensures
            r == is_current(old(self)@, ticket),
            final(self)@ == observed(old(self)@, ticket),
    {
        if !self.observation_is_current(ticket) {
            return false;
        }
        self.observations_in_flight.set(ticket.kind, false);
        true
    }

    pub fn install_snapshot_observation(
        &mut self,
        ticket: ObservationTicket,
        snapshot: &LocalSnapshot,
    ) -> (r: bool)
        ensures
            r == (ticket.kind is Snapshot && is_current(old(self)@, ticket)),
            final(self)@ == snapshot_installed(old(self)@, ticket, snapshot@),
    {
        let of_kind: bool = match ticket.kind {
            ObservationKind::Snapshot => true,
            _ => false,
        };
        if !of_kind || !self.finish_observation(ticket) {
            return false;
        }
        self.record_snapshot(snapshot);
        let next: Option<Phase> = match &self.phase {
            Phase::Recovery(recovery) => Some(
                Phase::Recovery(
                    RecoveryState {
                        started: recovery.started.clone(),
                        authoritative_refresh_required: false,
                        publish_refresh_required: recovery.publish_refresh_required,
                    },
                ),
            ),
            Phase::AwaitingAuthoritativeSnapshot => Some(Phase::Idle),
            _ => None,
        };
        if let Some(phase) = next {
            self.phase = phase;
        }
        true
    }

    pub fn install_remote_observation(
        &mut self,
        ticket: ObservationTicket,
        observation: RemoteBranchObservation,
    ) -> (r: bool)
        ensures
            r == (ticket.kind is RemoteBranch && is_current(old(self)@, ticket)),
            final(self)@ == remote_installed(old(self)@, ticket, observation@),
    {
        let of_kind: bool = match ticket.kind {
            ObservationKind::RemoteBranch => true,
            _ => false,
        };
        if !of_kind || !self.finish_observation(ticket) {
            return false;
        }
        self.remote_observation = Some(observation);
        true
    }

    pub fn finish_publish_reconciliation(
        &mut self,
        ticket: ObservationTicket,
        attempt: &PrPublishAttempt,
    ) -> (r: bool)
        ensures
            r == settles_publication(old(self)@, ticket, attempt@),
            final(self)@ == publication_reconciled(old(self)@, ticket, attempt@),
    {
        let of_kind: bool = match ticket.kind {
            ObservationKind::PrPublish => true,
            _ => false,
        };
        if !of_kind || !self.finish_observation(ticket) {
            return false;
        }
        let next: Option<Phase> = match &self.phase {
            Phase::Recovery(recovery) => match &recovery.started.pr_publish {
                Some(recorded_attempt) => if recorded_attempt.same(attempt) {
                    Some(
                        Phase::Recovery(
                            RecoveryState {
                                started: recovery.started.clone(),
                                authoritative_refresh_required: recovery.authoritative_refresh_required,
                                publish_refresh_required: false,
                            },
                        ),
                    )
                } else {
                    None
                },
                None => None,
            },
            _ => None,
        };
        match next {
            Some(phase) => {
                self.phase = phase;
                true
            },
            None => false,
        }
    }

    pub fn observation_pending(&self, kind: ObservationKind) -> (r: bool)
        ensures
            r == is_in_flight(self@.observations_in_flight, kind),
    {
        self.observations_in_flight.get(kind)
    }

    pub fn remote_observation(&self) -> (r: &Option<RemoteBranchObservation>)
        ensures
            git::optional_remote_branch_observation(*r) == self@.remote_observation,
    {
        &self.remote_observation
    }

    fn require_admission_lane(&self, requested: Lane) -> (r: Result<(), String>)
        ensures
            match r {
                Ok(_) => admission_fault(self@, requested) is None,
                Err(e) => admission_fault(self@, requested) == Some(e@),
            },
    {
        if self.observations_in_flight.pr_publish {
            return Err("Wait for the fresh PR publication read to finish".to_owned());
        }
        let for_local: bool = match requested {
            Lane::Local => true,
            _ => false,
        };
        let for_rebase: bool = match requested {
            Lane::Rebase => true,
            _ => false,
        };
        match &self.phase {
            Phase::Idle => Ok(()),
            Phase::AwaitingConfirmation(FrozenIntent::Rebase(_)) => {
                if for_local {
                    Err(
                        "A rebase transition or confirmation is active; finish or cancel it first".to_owned(),
                    )
                } else {
                    Err("A rebase confirmation is already pending".to_owned())
                }
            },
            Phase::AwaitingConfirmation(FrozenIntent::Local(_)) => {
                if for_rebase {
                    Err("A local Git action or its durable reconciliation is pending".to_owned())
                } else {
                    Err(
                        "Reconcile or cancel the current local action before starting another".to_owned(),
                    )
                }
            },
            Phase::Running(running) => {
                let of_rebase: bool = match running.ticket.lane {
                    Lane::Rebase => true,
                    _ => false,
                };
                if !of_rebase {
                    Err("A local action or its durable reconciliation is still running".to_owned())
                } else if for_local {
                    Err(
                        "A rebase transition or confirmation is active; finish or cancel it first".to_owned(),
                    )
                } else {
                    Err("A rebase effect is already running".to_owned())
                }
            },
            Phase::Acknowledging { .. } => Err(
                "A local action or its durable reconciliation is still running".to_owned(),
            ),
            Phase::Recovery(_) => Err(
                "Reconcile the current local action before starting another".to_owned(),
            ),
            Phase::AwaitingAuthoritativeSnapshot => Err(
                "Wait for a successful authoritative Git refresh before starting another action".to_owned(),
            ),
        }
    }

    fn action_lease_holds(&self, action: &LocalAction) -> (r: bool)
        ensures
            r == lease_holds(self@, action@),
    {
        match &action.effect {
            LocalEffect::ForcePushWithLease { remote, branch, observed_remote_oid } =>
                lease_matches(&self.remote_observation, remote, branch, observed_remote_oid),
            _ => true,
        }
    }

    fn validate_local_admission(&self, action: &LocalAction, guard: &SnapshotGuard) -> (r: Result<
        u64,
        String,
    >)
        ensures
            match r {
                Ok(epoch) => local_admission_fault(self@, action@, guard@) is None
                    && self@.checkout_epoch == Some(epoch),
                Err(e) => local_admission_fault(self@, action@, guard@) == Some(e@),
            },
    {
        if let Err(e) = self.require_admission_lane(Lane::Local) {
            return Err(e);
        }
        let epoch: u64 = match self.checkout_epoch {
            Some(epoch) => epoch,
            None => {
                return Err("Local workspace is not ready".to_owned());
            },
        };
        match &self.snapshot {
            None => Err("Refresh Local Changes before acting".to_owned()),
            Some(snapshot) => {
                if !snapshot.guard.same(guard) {
                    return Err(
                        "Local Git state changed; refresh and review the action again".to_owned(),
                    );
                }
                if action.requires_exclusive_checkout_lane && snapshot.operation_active {
                    return Err(
                        "Branch/pull action paused while a merge, rebase, cherry-pick, or revert is active".to_owned(),
                    );
                }
                if !self.action_lease_holds(action) {
                    return Err(
                        "Force-with-lease paused: observe and inspect this exact remote branch/OID first".to_owned(),
                    );
                }
                Ok(epoch)
            },
        }
    }

    /// Freezes a local action until it is confirmed or cancelled. Returns the number of the
    /// request.
    pub fn admit_local(&mut self, action: LocalAction, guard: SnapshotGuard) -> (r: Result<
        u64,
        String,
    >)
        ensures
            id_view(r) == id_or(
                old(self)@.next_request_id,
                local_admission_fault(old(self)@, action@, guard@),
            ),
            final(self)@ == local_admitted(old(self)@, action@, guard@),
    {
        let epoch: u64 = match self.validate_local_admission(&action, &guard) {
            Ok(epoch) => epoch,
            Err(e) => {
                return Err(e);
            },
        };
        let id: u64 = self.allocate_request_id();
        self.phase =
        Phase::AwaitingConfirmation(
            FrozenIntent::Local(FrozenLocalIntent { id, action, guard, checkout_epoch: epoch }),
        );
        Ok(id)
    }

    fn validate_frozen_local(&self, intent: &FrozenLocalIntent) -> (r: Result<(), String>)
        ensures
            match r {
                Ok(_) => frozen_local_fault(self@, intent@) is None,
                Err(e) => frozen_local_fault(self@, intent@) == Some(e@),
            },
    {
        let epoch: u64 = match self.checkout_epoch {
            Some(epoch) => epoch,
            None => {
                return Err("Local workspace is not ready".to_owned());
            },
        };
        if intent.checkout_epoch != epoch {
            return Err("Checkout identity changed; refresh before retrying".to_owned());
        }
        match &self.snapshot {
            None => Err("Refresh Local Changes before acting".to_owned()),
            Some(snapshot) => {
                if !snapshot.guard.same(&intent.guard) {
                    return Err(
                        "Confirmation paused: authoritative Git state changed; the exact pending request was retained".to_owned(),
                    );
                }
                if intent.action.requires_exclusive_checkout_lane && snapshot.operation_active {
                    return Err(
                        "Confirmation paused: authoritative Git operation state is incompatible".to_owned(),
                    );
                }
                if !self.action_lease_holds(&intent.action) {
                    return Err(
                        "Confirmation paused: the authoritative remote observation changed; observe and review the exact lease again".to_owned(),
                    );
                }
                Ok(())
            },
        }
    }

    fn start_running(&mut self, frozen: FrozenIntent) -> (r: DispatchTicket)
        ensures
            r == dispatch_ticket(old(self)@, frozen@),
            final(self)@ == running(old(self)@, frozen@),
    {
        self.advance_operation_version();
        let (request_id, lane) = match &frozen {
            FrozenIntent::Local(i) => (i.id, Lane::Local),
            FrozenIntent::Rebase(i) => (i.id, Lane::Rebase),
        };
        let checkout_epoch: u64 = match self.checkout_epoch {
            Some(epoch) => epoch,
            None => 0,
        };
        let ticket = DispatchTicket {
            request_id,
            checkout_epoch,
            operation_version: self.operation_version,
            lane,
        };
        self.phase = Phase::Running(RunningIntent { frozen, ticket });
        ticket
    }

    fn started_record(&self, intent: &FrozenLocalIntent) -> (r: StartedAction)
        requires
            self@.snapshot is Some,
        ensures
            r@ == started_of(self@, intent@),
    {
        let displayed_head: String = match &self.snapshot {
            Some(snapshot) => snapshot.displayed_head.clone(),
            None => String::new(),
        };
        let (expected_remote_oid, pr_publish) = match &intent.action.effect {
            LocalEffect::ForcePushWithLease { observed_remote_oid, .. } => (
                Some(observed_remote_oid.clone()),
                None,
            ),
            LocalEffect::PublishPrSource { preparation } => (
                Some(preparation.expected_remote_oid.clone()),
                Some(preparation.attempt(intent.id)),
            ),
            _ => (None, None),
        };
        StartedAction {
            schema_version: 1,
            request_id: intent.id,
            kind: intent.action.journal_kind.clone(),
            summary: intent.action.summary.clone(),
            checkout_identity: self.checkout_identity.clone(),
            displayed_head,
            expected_remote_oid,
            pr_publish,
        }
    }

    /// Hands a frozen local action out to be carried out, with the record of its start.
    pub fn confirm_local(&mut self, request_id: u64) -> (r: Result<LocalDispatch, String>)
        ensures
            match r {
                Ok(dispatch) => {
                    let intent = pending_local_of(old(self)@)->0;
                    &&& local_confirmation_fault(old(self)@, request_id) is None
                    &&& dispatch@ == (LocalDispatchView {
                        ticket: dispatch_ticket(old(self)@, FrozenIntentView::Local(intent)),
                        intent,
                        started: started_of(old(self)@, intent),
                    })
                },
                Err(e) => local_confirmation_fault(old(self)@, request_id) == Some(e@),
            },
            final(self)@ == local_confirmed(old(self)@, request_id),
    {
        let intent = match &self.phase {
            Phase::AwaitingConfirmation(FrozenIntent::Local(intent)) => {
                if intent.id != request_id {
                    return Err(
                        "That confirmation is stale; review the current action".to_owned(),
                    );
                }
                if let Err(e) = self.validate_frozen_local(intent) {
                    return Err(e);
                }
                intent.clone()
            },
            _ => {
                return Err("There is no local action awaiting confirmation".to_owned());
            },
        };
        let started = self.started_record(&intent);
        let ticket = self.start_running(FrozenIntent::Local(intent.clone()));
        Ok(LocalDispatch { ticket, intent, started })
    }

    fn running_matches(&self, ticket: DispatchTicket, lane: Lane) -> (r: bool)
        ensures
            r == is_running(self@, ticket, lane),
    {
        match &self.phase {
            Phase::Running(running) => running.ticket == ticket && running.ticket.lane == lane,
            _ => false,
        }
    }

    pub fn complete_local_success(&mut self, ticket: DispatchTicket, snapshot: &LocalSnapshot) -> (r:
        bool)
        ensures
            r == is_running(old(self)@, ticket, Lane::Local),
            final(self)@ == local_succeeded(old(self)@, ticket, snapshot@),
    {
        if !self.running_matches(ticket, Lane::Local) {
            return false;
        }
        self.advance_operation_version();
        self.phase = Phase::Idle;
        self.remote_observation = None;
        self.record_snapshot(snapshot);
        true
    }

    /// The action did not start: it waits for its confirmation again.
    pub fn complete_local_retry(&mut self, ticket: DispatchTicket) -> (r: bool)
        ensures
            r == is_running(old(self)@, ticket, Lane::Local),
            final(self)@ == local_retried(old(self)@, ticket),
    {
        if !self.running_matches(ticket, Lane::Local) {
            return false;
        }
        let frozen = match &self.phase {
            Phase::Running(running) => running.frozen.clone(),
            _ => {
                return false;
            },
        };
        self.advance_operation_version();
        self.phase = Phase::AwaitingConfirmation(frozen);
        true
    }

    /// How the action ended is not settled.
    pub fn complete_local_recovery(
        &mut self,
        ticket: DispatchTicket,
        started: StartedAction,
        authoritative_refresh_required: bool,
        publish_refresh_required: bool,
    ) -> (r: bool)
        ensures
            r == is_running(old(self)@, ticket, Lane::Local),
            final(self)@ == local_recovering(
                old(self)@,
                ticket,
                RecoveryStateView {
                    started: started@,
                    authoritative_refresh_required,
                    publish_refresh_required,
                },
            ),
    {
        if !self.running_matches(ticket, Lane::Local) {
            return false;
        }
        self.advance_operation_version();
        self.remote_observation = None;
        self.phase =
        Phase::Recovery(
            RecoveryState { started, authoritative_refresh_required, publish_refresh_required },
        );
        true
    }

    pub fn cancel_local(&mut self, request_id: u64) -> (r: bool)
        ensures
            r == awaits_local(old(self)@, request_id),
            final(self)@ == local_cancelled(old(self)@, request_id),
    {
        let pending: bool = match &self.phase {
            Phase::AwaitingConfirmation(FrozenIntent::Local(intent)) => intent.id == request_id,
            _ => false,
        };
        if pending {
            self.phase = Phase::Idle;
            self.advance_operation_version();
        }
        pending
    }

    fn rebase_guard_holds(&self, command: &RebaseCommand) -> (r: bool)
        ensures
            r == command_guard_holds(self@, command@),
    {
        match command.guard() {
            None => true,
            Some(guard) => match &self.snapshot {
                Some(snapshot) => snapshot.guard.same(guard),
                None => false,
            },
        }
    }

    /// Freezes a rebase command, and the inputs it was made from, until it is confirmed or
    /// cancelled. Returns the number of the request.
    pub fn admit_rebase(
        &mut self,
        command: RebaseCommand,
        editable_inputs: RebaseEditableInputIdentity,
    ) -> (r: Result<u64, String>)
        ensures
            id_view(r) == id_or(
                old(self)@.next_request_id,
                rebase_admission_fault(old(self)@, command@),
            ),
            final(self)@ == rebase_admitted(old(self)@, command@, editable_inputs@),
    {
        if let Err(e) = self.require_admission_lane(Lane::Rebase) {
            return Err(e);
        }
        let epoch: u64 = match self.checkout_epoch {
            Some(epoch) => epoch,
            None => {
                return Err("Local workspace is not ready".to_owned());
            },
        };
        if !self.rebase_guard_holds(&command) {
            return Err(
                "Rebase request paused: the affected Git snapshot changed; refresh and review again".to_owned(),
            );
        }
        let id: u64 = self.allocate_request_id();
        self.phase =
        Phase::AwaitingConfirmation(
            FrozenIntent::Rebase(
                FrozenRebaseIntent { id, command, editable_inputs, checkout_epoch: epoch },
            ),
        );
        Ok(id)
    }

    fn validate_frozen_rebase(
        &self,
        request_id: u64,
        current_inputs: &RebaseEditableInputIdentity,
    ) -> (r: Result<FrozenRebaseIntent, String>)
        ensures
            match r {
                Ok(intent) => rebase_confirmation_fault(self@, request_id, current_inputs@) is None
                    && pending_rebase_of(self@) == Some(intent@),
                Err(e) => rebase_confirmation_fault(self@, request_id, current_inputs@) == Some(e@),
            },
    {
        match &self.phase {
            Phase::AwaitingConfirmation(FrozenIntent::Rebase(intent)) => {
                if intent.id != request_id {
                    return Err("That rebase confirmation is stale".to_owned());
                }
                let epoch: u64 = match self.checkout_epoch {
                    Some(epoch) => epoch,
                    None => {
                        return Err("Local workspace is not ready".to_owned());
                    },
                };
                if intent.checkout_epoch != epoch {
                    return Err(
                        "Rebase confirmation paused: checkout identity changed".to_owned(),
                    );
                }
                if !intent.editable_inputs.same(current_inputs) {
                    return Err(
                        "Rebase confirmation paused: the displayed plan, base, or message input drifted from the frozen request. Nothing was dispatched; the exact pending request was retained. Cancel, edit/reprepare, and request a new confirmation.".to_owned(),
                    );
                }
                if !self.rebase_guard_holds(&intent.command) {
                    return Err(
                        "Rebase confirmation paused: the Git snapshot changed. The pending confirmation was retained.".to_owned(),
                    );
                }
                Ok(intent.clone())
            },
            _ => Err("There is no rebase action awaiting confirmation".to_owned()),
        }
    }

    /// Hands a frozen rebase command out to be carried out, where the inputs are still those it
    /// was made from.
    pub fn confirm_rebase(
        &mut self,
        request_id: u64,
        current_inputs: &RebaseEditableInputIdentity,
    ) -> (r: Result<RebaseDispatch, String>)
        ensures
            match r {
                Ok(dispatch) => {
                    let intent = pending_rebase_of(old(self)@)->0;
                    &&& rebase_confirmation_fault(old(self)@, request_id, current_inputs@) is None
                    &&& dispatch@ == (RebaseDispatchView {
                        ticket: dispatch_ticket(old(self)@, FrozenIntentView::Rebase(intent)),
                        intent,
                    })
                },
                Err(e) => rebase_confirmation_fault(old(self)@, request_id, current_inputs@)
                    == Some(e@),
            },
            final(self)@ == rebase_confirmed(old(self)@, request_id, current_inputs@),
    {
        let intent = match self.validate_frozen_rebase(request_id, current_inputs) {
            Ok(intent) => intent,
            Err(e) => {
                return Err(e);
            },
        };
        let ticket = self.start_running(FrozenIntent::Rebase(intent.clone()));
        Ok(RebaseDispatch { ticket, intent })
    }

    /// The transition is over. Without a fresh state of the checkout nothing else may start.
    pub fn complete_rebase(&mut self, ticket: DispatchTicket, snapshot: &Option<LocalSnapshot>) -> (r:
        bool)
        ensures
            r == is_running(old(self)@, ticket, Lane::Rebase),
            final(self)@ == rebase_completed(
                old(self)@,
                ticket,
                git::optional_local_snapshot(*snapshot),
            ),
    {
        if !self.running_matches(ticket, Lane::Rebase) {
            return false;
        }
        self.advance_operation_version();
        self.remote_observation = None;
        match snapshot {
            Some(s) => {
                self.phase = Phase::Idle;
                self.record_snapshot(s);
            },
            None => {
                self.phase = Phase::AwaitingAuthoritativeSnapshot;
            },
        }
        true
    }

    pub fn cancel_rebase(&mut self, request_id: u64) -> (r: bool)
        ensures
            r == awaits_rebase(old(self)@, request_id),
            final(self)@ == rebase_cancelled(old(self)@, request_id),
    {
        let pending: bool = match &self.phase {
            Phase::AwaitingConfirmation(FrozenIntent::Rebase(intent)) => intent.id == request_id,
            _ => false,
        };
        if pending {
            self.phase = Phase::Idle;
            self.advance_operation_version();
        }
        pending
    }

    /// Begins to acknowledge a started action, once everything is known that is needed for it.
    pub fn begin_reconciliation(&mut self) -> (r: Result<ReconciliationDispatch, String>)
        ensures
            match r {
                Ok(dispatch) => reconciliation_fault(old(self)@) is None && dispatch@ == (
                ReconciliationDispatchView {
                    ticket: reconciliation_ticket(old(self)@),
                    started: old(self)@.phase->Recovery_0.started,
                }),
                Err(e) => reconciliation_fault(old(self)@) == Some(e@),
            },
            final(self)@ == reconciling(old(self)@),
    {
        let recovery = match &self.phase {
            Phase::Recovery(recovery) => recovery.clone(),
            _ => {
                return Err("There is no started action to reconcile".to_owned());
            },
        };
        if recovery.authoritative_refresh_required {
            return Err(
                "Wait for a successful authoritative Git refresh before acknowledging".to_owned(),
            );
        }
        if recovery.publish_refresh_required {
            return Err(
                "Wait for a successful fresh provider and effective push-endpoint reconciliation before acknowledging".to_owned(),
            );
        }
        if self.snapshot.is_none() {
            return Err("Refresh authoritative Git state before reconciling".to_owned());
        }
        self.advance_operation_version();
        let checkout_epoch: u64 = match self.checkout_epoch {
            Some(epoch) => epoch,
            None => 0,
        };
        let ticket = DispatchTicket {
            request_id: recovery.started.request_id,
            checkout_epoch,
            operation_version: self.operation_version,
            lane: Lane::Reconciliation,
        };
        let started = recovery.started.clone();
        self.phase = Phase::Acknowledging { recovery, ticket };
        Ok(ReconciliationDispatch { ticket, started })
    }

    pub fn complete_reconciliation(&mut self, ticket: DispatchTicket, cleared: bool) -> (r: bool)
        ensures
            r == is_acknowledging(old(self)@, ticket),
            final(self)@ == reconciled(old(self)@, ticket, cleared),
    {
        let recovery = match &self.phase {
            Phase::Acknowledging { recovery, ticket: active } => {
                if *active != ticket {
                    return false;
                }
                recovery.clone()
            },
            _ => {
                return false;
            },
        };
        self.advance_operation_version();
        self.phase = if cleared {
            Phase::Idle
        } else {
            Phase::Recovery(recovery)
        };
        true
    }

    pub fn pending_local(&self) -> (r: Option<&FrozenLocalIntent>)
        ensures
            match r {
                Some(i) => pending_local_of(self@) == Some(i@),
                None => pending_local_of(self@) is None,
            },
    {
        match &self.phase {
            Phase::AwaitingConfirmation(FrozenIntent::Local(intent)) => Some(intent),
            _ => None,
        }
    }

    pub fn pending_rebase(&self) -> (r: Option<&FrozenRebaseIntent>)
        ensures
            match r {
                Some(i) => pending_rebase_of(self@) == Some(i@),
                None => pending_rebase_of(self@) is None,
            },
    {
        match &self.phase {
            Phase::AwaitingConfirmation(FrozenIntent::Rebase(intent)) => Some(intent),
            _ => None,
        }
    }

    /// The action whose end is not settled.
    pub fn recovery(&self) -> (r: Option<&StartedAction>)
        ensures
            match r {
                Some(s) => started_in(self@) == Some(s@),
                None => started_in(self@) is None,
            },
    {
        match &self.phase {
            Phase::Recovery(recovery) => Some(&recovery.started),
            Phase::Acknowledging { recovery, .. } => Some(&recovery.started),
            _ => None,
        }
    }

    pub fn local_in_flight_id(&self) -> (r: Option<u64>)
        ensures
            r == local_running_id(self@),
    {
        match &self.phase {
            Phase::Running(running) => match running.ticket.lane {
                Lane::Local => Some(running.ticket.request_id),
                _ => None,
            },
            _ => None,
        }
    }

    pub fn rebase_in_flight(&self) -> (r: bool)
        ensures
            r == rebase_is_running(self@),
    {
        match &self.phase {
            Phase::Running(running) => match running.ticket.lane {
                Lane::Rebase => true,
                _ => false,
            },
            _ => false,
        }
    }

    pub fn rebase_pending_or_running(&self) -> (r: bool)
        ensures
            r == (pending_rebase_of(self@) is Some || rebase_is_running(self@)),
    {
        self.pending_rebase().is_some() || self.rebase_in_flight()
    }

    pub fn local_pending_or_running_or_recovering(&self) -> (r: bool)
        ensures
            r == local_is_occupied(self@),
    {
        let recovering: bool = match &self.phase {
            Phase::Recovery(_) => true,
            Phase::Acknowledging { .. } => true,
            _ => false,
        };
        self.pending_local().is_some() || self.local_in_flight_id().is_some() || recovering
    }

    pub fn acknowledging(&self) -> (r: bool)
        ensures
            r == self@.phase is Acknowledging,
    {
        match &self.phase {
            Phase::Acknowledging { .. } => true,
            _ => false,
        }
    }

    pub fn idle(&self) -> (r: bool)
        ensures
            r == self@.phase is Idle,
    {
        match &self.phase {
            Phase::Idle => true,
            _ => false,
        }
    }

    pub fn controls_locked(&self) -> (r: bool)
        ensures
            r == (!(self@.phase is Idle) || self@.observations_in_flight.pr_publish),
    {
        !self.idle() || self.observations_in_flight.pr_publish
    }
}

pub open spec fn started_in(l: OperationLifecycleView) -> Option<StartedActionView> {
    match l.phase {
        PhaseView::Recovery(r) => Some(r.started),
        PhaseView::Acknowledging { recovery, .. } => Some(recovery.started),
        _ => None,
    }
}

pub open spec fn local_running_id(l: OperationLifecycleView) -> Option<u64> {
    match l.phase {
        PhaseView::Running(r) => if r.ticket.lane is Local {
            Some(r.ticket.request_id)
        } else {
            None
        },
        _ => None,
    }
}

pub open spec fn rebase_is_running(l: OperationLifecycleView) -> bool {
    l.phase matches PhaseView::Running(r) && r.ticket.lane is Rebase
}

pub open spec fn local_is_occupied(l: OperationLifecycleView) -> bool {
    pending_local_of(l) is Some || local_running_id(l) is Some || l.phase is Recovery
        || l.phase is Acknowledging
}

// ---------------------------------------------------------------------------
// Laws

/// Only an idle checkout takes a request: while anything is pending, running or unsettled, both
/// kinds of request are refused, and a refusal changes nothing.
pub proof fn law_one_operation_at_a_time(
    l: OperationLifecycleView,
    action: LocalActionView,
    guard: SnapshotGuardView,
    command: RebaseCommandView,
    inputs: RebaseEditableInputIdentityView,
)
    requires
        !(l.phase is Idle),
    ensures
        local_admission_fault(l, action, guard) is Some,
        rebase_admission_fault(l, command) is Some,
        local_admitted(l, action, guard) == l,
        rebase_admitted(l, command, inputs) == l,
{
}

/// A completion for another run than the one that runs changes nothing.
pub proof fn law_stale_completions_change_nothing(l: OperationLifecycleView, ticket: DispatchTicket)
    requires
        l.phase matches PhaseView::Running(r) && r.ticket != ticket,
    ensures
        !is_running(l, ticket, Lane::Local),
        !is_running(l, ticket, Lane::Rebase),
        !is_acknowledging(l, ticket),
        reconciled(l, ticket, true) == l,
{
}

/// An observation that was begun again is no longer current; the later one is.
pub proof fn law_the_latest_observation_is_current(
    l: OperationLifecycleView,
    kind: ObservationKind,
)
    requires
        l.checkout_epoch is Some,
    ensures
        is_current(observing(l, kind), observation_ticket(l, kind)),
        !is_current(observing(observing(l, kind), kind), observation_ticket(l, kind)),
        is_current(
            observing(observing(l, kind), kind),
            observation_ticket(observing(l, kind), kind),
        ),
{
}

/// A transition retires every read that is under way: its ticket is not current afterwards,
/// nor after a new read of the same kind has begun in the new version.
pub proof fn law_transitions_retire_reads(
    l: OperationLifecycleView,
    ticket: ObservationTicket,
    kind: ObservationKind,
)
    requires
        is_current(l, ticket),
        l.checkout_epoch is Some,
    ensures
        !is_current(advanced(l), ticket),
        !is_current(observing(advanced(l), kind), ticket),
        is_current(observing(advanced(l), kind), observation_ticket(advanced(l), kind)),
{
}

/// After a transition whose effect on the checkout was not read, nothing starts until the
/// state of the checkout has been read; then the checkout is idle.
pub proof fn law_an_unread_effect_keeps_the_checkout_closed(
    l: OperationLifecycleView,
    action: LocalActionView,
    guard: SnapshotGuardView,
    ticket: ObservationTicket,
    snapshot: LocalSnapshotView,
)
    requires
        l.phase is AwaitingAuthoritativeSnapshot,
    ensures
        local_admission_fault(l, action, guard) is Some,
        ticket.kind is Snapshot && is_current(l, ticket) ==> snapshot_installed(
            l,
            ticket,
            snapshot,
        ).phase is Idle,
        !(ticket.kind is Snapshot && is_current(l, ticket)) ==> snapshot_installed(
            l,
            ticket,
            snapshot,
        ) == l,
{
}

/// An action whose end is uncertain is acknowledged only after the state of the checkout has
/// been read anew and, for a publication, after that same attempt was read anew.
pub proof fn law_recovery_needs_fresh_evidence(
    l: OperationLifecycleView,
    ticket: ObservationTicket,
    snapshot: LocalSnapshotView,
    attempt: PrPublishAttemptView,
)
    requires
        l.phase is Recovery,
    ensures
        l.phase->Recovery_0.authoritative_refresh_required ==> reconciliation_fault(l) is Some,
        l.phase->Recovery_0.publish_refresh_required ==> reconciliation_fault(l) is Some,
        ticket.kind is Snapshot && is_current(l, ticket) && !(
        l.phase->Recovery_0.publish_refresh_required) ==> reconciliation_fault(
            snapshot_installed(l, ticket, snapshot),
        ) is None,
        publication_reconciled(l, ticket, attempt).phase != l.phase ==> l.phase->Recovery_0.started.pr_publish
            == Some(attempt),
{
}

/// What is confirmed is exactly what was frozen, in the checkout it was frozen for, and in the
/// state it was frozen for.
pub proof fn law_confirmation_runs_the_frozen_intent(
    l: OperationLifecycleView,
    request_id: u64,
    inputs: RebaseEditableInputIdentityView,
)
    ensures
        local_confirmation_fault(l, request_id) is None ==> {
            let intent = pending_local_of(l)->0;
            &&& intent.id == request_id
            &&& l.checkout_epoch == Some(intent.checkout_epoch)
            &&& l.snapshot->0.guard == intent.guard
            &&& lease_holds(l, intent.action)
            &&& local_confirmed(l, request_id).phase->Running_0.frozen == FrozenIntentView::Local(
                intent,
            )
        },
        rebase_confirmation_fault(l, request_id, inputs) is None ==> {
            let intent = pending_rebase_of(l)->0;
            &&& intent.id == request_id
            &&& l.checkout_epoch == Some(intent.checkout_epoch)
            &&& intent.editable_inputs == inputs
            &&& command_guard_holds(l, intent.command)
            &&& rebase_confirmed(l, request_id, inputs).phase->Running_0.frozen
                == FrozenIntentView::Rebase(intent)
        },
        local_confirmation_fault(l, request_id) is Some ==> local_confirmed(l, request_id) == l,
        rebase_confirmation_fault(l, request_id, inputs) is Some ==> rebase_confirmed(
            l,
            request_id,
            inputs,
        ) == l,
{
}

/// An action that did not start waits again as it was, and can then be cancelled.
pub proof fn law_a_retry_waits_as_it_was(l: OperationLifecycleView, request_id: u64)
    requires
        local_confirmation_fault(l, request_id) is None,
    ensures
        ({
            let run = local_confirmed(l, request_id);
            let ticket = dispatch_ticket(l, FrozenIntentView::Local(pending_local_of(l)->0));
            let again = local_retried(run, ticket);
            &&& is_running(run, ticket, Lane::Local)
            &&& pending_local_of(again) == pending_local_of(l)
            &&& again.snapshot == l.snapshot
            &&& awaits_local(again, request_id)
            &&& local_cancelled(again, request_id).phase is Idle
        }),
{
}

} // verus!

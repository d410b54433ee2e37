//! What the lifecycle of an operation is for: what is frozen, run, recorded and read at each step,
//! and what each step leaves.

use vstd::prelude::*;

use crate::workspace::command;
use crate::workspace::command::{RebaseCommandView, RebaseEditableInputIdentityView};
use crate::workspace::git::{LocalSnapshotView, RemoteBranchObservationView, SnapshotGuardView};
use crate::workspace::lifecycle;
use crate::workspace::lifecycle::{
    DispatchTicket, FrozenIntentView, FrozenLocalIntentView, FrozenRebaseIntentView, Generations,
    InFlight, Lane, LocalActionView, LocalEffectView, ObservationKind, ObservationTicket,
    OperationLifecycleView, PhaseView, RecoveryStateView, StartedActionView,
};
use crate::workspace::publish;
use crate::workspace::publish::PrPublishAttemptView;

verus! {

/// Whether a step has retired every read: the version counts on, and nothing is under way.
pub open spec fn retires_reads(
    before: OperationLifecycleView,
    after: OperationLifecycleView,
) -> bool {
    &&& before.operation_version < u64::MAX ==> after.operation_version == before.operation_version
        + 1
    &&& before.operation_version == u64::MAX ==> after.operation_version == 0
    &&& !after.observations_in_flight.snapshot
    &&& !after.observations_in_flight.diff
    &&& !after.observations_in_flight.remote_branch
    &&& !after.observations_in_flight.pr_publish
    &&& !after.observations_in_flight.rebase
}

/// Each kind of read has its own number and its own mark.
pub proof fn law_kinds_of_reads_are_told_apart(
    g: Generations,
    f: InFlight,
    kind: ObservationKind,
    other: ObservationKind,
    n: u64,
    b: bool,
)
    ensures
        lifecycle::generation_of(lifecycle::with_generation(g, kind, n), kind) == n,
        kind != other ==> lifecycle::generation_of(lifecycle::with_generation(g, kind, n), other)
            == lifecycle::generation_of(g, other),
        lifecycle::is_in_flight(lifecycle::with_in_flight(f, kind, b), kind) == b,
        kind != other ==> lifecycle::is_in_flight(lifecycle::with_in_flight(f, kind, b), other)
            == lifecycle::is_in_flight(f, other),
{
}

/// A read begins under the number that follows, for this checkout and this version; a read of the
/// remote branch drops what was observed of it, and nothing else changes.
pub proof fn law_a_read_begins(l: OperationLifecycleView, kind: ObservationKind)
    requires
        l.checkout_epoch is Some,
    ensures
        ({
            let after = lifecycle::observing(l, kind);
            let ticket = lifecycle::observation_ticket(l, kind);
            &&& ticket.kind == kind
            &&& Some(ticket.checkout_epoch) == l.checkout_epoch
            &&& ticket.operation_version == l.operation_version
            &&& ticket.generation == lifecycle::generation_of(after.observation_generations, kind)
            &&& lifecycle::generation_of(l.observation_generations, kind) < u64::MAX
                ==> ticket.generation == lifecycle::generation_of(l.observation_generations, kind)
                + 1
            &&& lifecycle::is_in_flight(after.observations_in_flight, kind)
            &&& kind is RemoteBranch ==> after.remote_observation is None
            &&& !(kind is RemoteBranch) ==> after.remote_observation == l.remote_observation
            &&& after.phase == l.phase
            &&& after.snapshot == l.snapshot
            &&& after.checkout_epoch == l.checkout_epoch
            &&& after.operation_version == l.operation_version
            &&& after.next_request_id == l.next_request_id
        }),
{
}

/// The result of a read counts exactly while it is under way, the latest of its kind, and for the
/// present version and checkout.
pub proof fn law_a_result_counts_while_its_read_is_current(
    l: OperationLifecycleView,
    ticket: ObservationTicket,
)
    ensures
        lifecycle::is_current(l, ticket) <==> {
            &&& l.checkout_epoch == Some(ticket.checkout_epoch)
            &&& l.operation_version == ticket.operation_version
            &&& lifecycle::generation_of(l.observation_generations, ticket.kind)
                == ticket.generation
            &&& lifecycle::is_in_flight(l.observations_in_flight, ticket.kind)
        },
        lifecycle::is_current(l, ticket) ==> !lifecycle::is_current(
            lifecycle::observed(l, ticket),
            ticket,
        ) && lifecycle::observed(l, ticket).phase == l.phase,
        !lifecycle::is_current(l, ticket) ==> lifecycle::observed(l, ticket) == l,
{
}

/// The state of the checkout that was read is the one that counts: its guard, its head and whether
/// an operation is active; it ends the wait for it.
pub proof fn law_the_state_that_was_read_counts(
    l: OperationLifecycleView,
    ticket: ObservationTicket,
    snapshot: LocalSnapshotView,
)
    requires
        ticket.kind is Snapshot,
        lifecycle::is_current(l, ticket),
    ensures
        ({
            let after = lifecycle::snapshot_installed(l, ticket, snapshot);
            &&& after.snapshot matches Some(s)
            &&& s.guard == snapshot.guard
            &&& s.displayed_head == snapshot.head_label
            &&& s.operation_active == snapshot.operation_active
            &&& !after.observations_in_flight.snapshot
            &&& after.observations_in_flight == (InFlight {
                snapshot: false,
                ..l.observations_in_flight
            })
            &&& l.phase is AwaitingAuthoritativeSnapshot ==> after.phase is Idle
            &&& l.phase matches PhaseView::Recovery(r) ==> after.phase == PhaseView::Recovery(
                RecoveryStateView { authoritative_refresh_required: false, ..r },
            )
            &&& !(l.phase is Recovery) && !(l.phase is AwaitingAuthoritativeSnapshot)
                ==> after.phase == l.phase
            &&& after.remote_observation == l.remote_observation
            &&& after.operation_version == l.operation_version
        }),
{
}

/// What was read of the remote branch is what a lease is held against, exactly where the read was
/// of that branch and is current.
pub proof fn law_the_remote_branch_that_was_read_counts(
    l: OperationLifecycleView,
    ticket: ObservationTicket,
    seen: RemoteBranchObservationView,
)
    ensures
        ({
            let after = lifecycle::remote_installed(l, ticket, seen);
            let counts = ticket.kind is RemoteBranch && lifecycle::is_current(l, ticket);
            &&& counts ==> after.remote_observation == Some(seen)
                && !after.observations_in_flight.remote_branch && after.phase == l.phase
                && after.snapshot == l.snapshot
            &&& !counts ==> after == l
        }),
{
}

/// A push with a lease is admitted only against the branch, the remote and the commit that were
/// observed; other actions need no observation.
pub proof fn law_a_lease_is_against_what_was_observed(
    l: OperationLifecycleView,
    action: LocalActionView,
)
    ensures
        action.effect matches LocalEffectView::ForcePushWithLease {
            remote,
            branch,
            observed_remote_oid,
        } ==> (lifecycle::lease_holds(l, action) <==> {
            &&& l.remote_observation matches Some(o)
            &&& o.remote == remote
            &&& o.branch == branch
            &&& o.oid == Some(observed_remote_oid)
        }),
        !(action.effect is ForcePushWithLease) ==> lifecycle::lease_holds(l, action),
{
}

/// A local action is admitted exactly if nothing is pending, the checkout is there and was read,
/// its state is the one that the action is for, no other Git operation is in its way, and its
/// lease is as observed. It is then frozen as it is, under the next number.
pub proof fn law_a_local_action_is_frozen(
    l: OperationLifecycleView,
    action: LocalActionView,
    guard: SnapshotGuardView,
)
    ensures
        ({
            let fault = lifecycle::local_admission_fault(l, action, guard);
            let after = lifecycle::local_admitted(l, action, guard);
            &&& fault is None <==> {
                &&& l.phase is Idle
                &&& !l.observations_in_flight.pr_publish
                &&& l.checkout_epoch is Some
                &&& l.snapshot matches Some(s) && s.guard == guard && !(
                action.requires_exclusive_checkout_lane && s.operation_active)
                &&& lifecycle::lease_holds(l, action)
            }
            &&& fault is Some ==> after == l
            &&& fault is None ==> {
                &&& after.phase == PhaseView::AwaitingConfirmation(
                    FrozenIntentView::Local(
                        FrozenLocalIntentView {
                            id: l.next_request_id,
                            action,
                            guard,
                            checkout_epoch: l.checkout_epoch->0,
                        },
                    ),
                )
                &&& l.next_request_id < u64::MAX ==> after.next_request_id == l.next_request_id + 1
                &&& after == OperationLifecycleView {
                    phase: after.phase,
                    next_request_id: after.next_request_id,
                    ..l
                }
            }
        }),
{
}

/// A command of a rebase is admitted exactly if nothing is pending, the checkout is there, and its
/// state is the one that the command is for, where it is for one. It is then frozen as it is, with
/// what is displayed, under the next number.
pub proof fn law_a_rebase_command_is_frozen(
    l: OperationLifecycleView,
    command: RebaseCommandView,
    inputs: RebaseEditableInputIdentityView,
)
    ensures
        ({
            let fault = lifecycle::rebase_admission_fault(l, command);
            let after = lifecycle::rebase_admitted(l, command, inputs);
            &&& fault is None <==> {
                &&& l.phase is Idle
                &&& !l.observations_in_flight.pr_publish
                &&& l.checkout_epoch is Some
                &&& command::command_guard_of(command) matches Some(guard) ==> (
                l.snapshot matches Some(s) && s.guard == guard)
            }
            &&& fault is Some ==> after == l
            &&& fault is None ==> {
                &&& after.phase == PhaseView::AwaitingConfirmation(
                    FrozenIntentView::Rebase(
                        FrozenRebaseIntentView {
                            id: l.next_request_id,
                            command,
                            editable_inputs: inputs,
                            checkout_epoch: l.checkout_epoch->0,
                        },
                    ),
                )
                &&& l.next_request_id < u64::MAX ==> after.next_request_id == l.next_request_id + 1
                &&& after == OperationLifecycleView {
                    phase: after.phase,
                    next_request_id: after.next_request_id,
                    ..l
                }
            }
        }),
{
}

/// Each reason to refuse a request has its own message.
pub proof fn law_refusals_say_what_is_pending(l: OperationLifecycleView)
    ensures
        ({
            let local = lifecycle::admission_fault(l, Lane::Local);
            let rebase = lifecycle::admission_fault(l, Lane::Rebase);
            let reading = l.observations_in_flight.pr_publish;
            &&& reading ==> local == Some("Wait for the fresh PR publication read to finish"@)
                && rebase == local
            &&& !reading && l.phase is Idle ==> local is None && rebase is None
            &&& !reading && l.phase is Recovery ==> local == Some(
                "Reconcile the current local action before starting another"@,
            ) && rebase == local
            &&& !reading && l.phase is AwaitingAuthoritativeSnapshot ==> local == Some(
                "Wait for a successful authoritative Git refresh before starting another action"@,
            ) && rebase == local
            &&& !reading && l.phase is Acknowledging ==> local == Some(
                "A local action or its durable reconciliation is still running"@,
            ) && rebase == local
            &&& !reading && (l.phase matches PhaseView::AwaitingConfirmation(
                FrozenIntentView::Local(_),
            )) ==> local == Some(
                "Reconcile or cancel the current local action before starting another"@,
            ) && rebase == Some("A local Git action or its durable reconciliation is pending"@)
            &&& !reading && (l.phase matches PhaseView::AwaitingConfirmation(
                FrozenIntentView::Rebase(_),
            )) ==> local == Some(
                "A rebase transition or confirmation is active; finish or cancel it first"@,
            ) && rebase == Some("A rebase confirmation is already pending"@)
        }),
{
}

/// What was frozen runs when it is confirmed by its number, in the checkout and the state that it
/// was frozen for, and with its lease as observed; every read is retired then.
pub proof fn law_a_confirmed_action_runs(l: OperationLifecycleView, intent: FrozenLocalIntentView)
    requires
        l.phase == PhaseView::AwaitingConfirmation(FrozenIntentView::Local(intent)),
    ensures
        ({
            let fault = lifecycle::local_confirmation_fault(l, intent.id);
            let after = lifecycle::local_confirmed(l, intent.id);
            &&& lifecycle::pending_local_of(l) == Some(intent)
            &&& lifecycle::pending_rebase_of(l) is None
            &&& fault is None <==> {
                &&& l.checkout_epoch == Some(intent.checkout_epoch)
                &&& l.snapshot matches Some(s) && s.guard == intent.guard && !(
                intent.action.requires_exclusive_checkout_lane && s.operation_active)
                &&& lifecycle::lease_holds(l, intent.action)
            }
            &&& fault is Some ==> after == l
            &&& fault is None ==> {
                &&& after.phase matches PhaseView::Running(run)
                &&& run.frozen == FrozenIntentView::Local(intent)
                &&& run.ticket == (DispatchTicket {
                    request_id: intent.id,
                    checkout_epoch: intent.checkout_epoch,
                    operation_version: after.operation_version,
                    lane: Lane::Local,
                })
                &&& retires_reads(l, after)
                &&& after.snapshot == l.snapshot
                &&& after.remote_observation == l.remote_observation
                &&& after.next_request_id == l.next_request_id
            }
            &&& forall|id: u64|
                id != intent.id ==> #[trigger] lifecycle::local_confirmation_fault(l, id) == Some(
                    "That confirmation is stale; review the current action"@,
                )
        }),
{
}

/// What was frozen of a rebase runs when it is confirmed by its number, in the checkout and the
/// state that it was frozen for, with what was displayed still displayed.
pub proof fn law_a_confirmed_command_runs(
    l: OperationLifecycleView,
    intent: FrozenRebaseIntentView,
    inputs: RebaseEditableInputIdentityView,
)
    requires
        l.phase == PhaseView::AwaitingConfirmation(FrozenIntentView::Rebase(intent)),
    ensures
        ({
            let fault = lifecycle::rebase_confirmation_fault(l, intent.id, inputs);
            let after = lifecycle::rebase_confirmed(l, intent.id, inputs);
            &&& lifecycle::pending_rebase_of(l) == Some(intent)
            &&& lifecycle::pending_local_of(l) is None
            &&& fault is None <==> {
                &&& l.checkout_epoch == Some(intent.checkout_epoch)
                &&& intent.editable_inputs == inputs
                &&& command::command_guard_of(intent.command) matches Some(guard) ==> (
                l.snapshot matches Some(s) && s.guard == guard)
            }
            &&& fault is Some ==> after == l
            &&& fault is None ==> {
                &&& after.phase matches PhaseView::Running(run)
                &&& run.frozen == FrozenIntentView::Rebase(intent)
                &&& run.ticket == (DispatchTicket {
                    request_id: intent.id,
                    checkout_epoch: intent.checkout_epoch,
                    operation_version: after.operation_version,
                    lane: Lane::Rebase,
                })
                &&& retires_reads(l, after)
            }
            &&& forall|id: u64|
                id != intent.id ==> #[trigger] lifecycle::rebase_confirmation_fault(l, id, inputs)
                    == Some("That rebase confirmation is stale"@)
        }),
{
}

/// Before an action runs it is recorded: its number, its kind and summary, the checkout and the
/// head it is for, the commit that it expects at the remote, and the publication that it is.
pub proof fn law_an_action_is_recorded_before_it_runs(
    l: OperationLifecycleView,
    intent: FrozenLocalIntentView,
)
    requires
        l.snapshot is Some,
    ensures
        ({
            let started = lifecycle::started_of(l, intent);
            &&& started.schema_version == 1
            &&& started.request_id == intent.id
            &&& started.kind == intent.action.journal_kind
            &&& started.summary == intent.action.summary
            &&& started.checkout_identity == l.checkout_identity
            &&& started.displayed_head == l.snapshot->0.displayed_head
            &&& match intent.action.effect {
                LocalEffectView::ForcePushWithLease { observed_remote_oid, .. } =>
                    started.expected_remote_oid == Some(observed_remote_oid) && started.pr_publish
                    is None,
                LocalEffectView::PublishPrSource { preparation } => started.expected_remote_oid
                    == Some(preparation.expected_remote_oid) && started.pr_publish == Some(
                    publish::attempt_of(preparation, intent.id),
                ),
                LocalEffectView::Commit { .. } => started.expected_remote_oid is None
                    && started.pr_publish is None,
                LocalEffectView::Other => started.expected_remote_oid is None
                    && started.pr_publish is None,
            }
        }),
{
}

/// Whether this run is under way.
pub open spec fn runs(
    l: OperationLifecycleView,
    ticket: DispatchTicket,
    frozen: FrozenIntentView,
) -> bool {
    l.phase matches PhaseView::Running(run) && run.ticket == ticket && run.frozen == frozen
}

/// A run that ends leaves the checkout idle with the state that was read after it; one that did
/// not start waits again; one whose end is uncertain is to be recovered.
pub proof fn law_each_end_of_a_run_has_its_phase(
    l: OperationLifecycleView,
    ticket: DispatchTicket,
    frozen: FrozenIntentView,
    snapshot: LocalSnapshotView,
    recovery: RecoveryStateView,
)
    requires
        runs(l, ticket, frozen),
        ticket.lane is Local,
    ensures
        ({
            let done = lifecycle::local_succeeded(l, ticket, snapshot);
            let again = lifecycle::local_retried(l, ticket);
            let unsure = lifecycle::local_recovering(l, ticket, recovery);
            &&& done.phase is Idle
            &&& done.snapshot matches Some(s) && s.guard == snapshot.guard && s.displayed_head
                == snapshot.head_label && s.operation_active == snapshot.operation_active
            &&& done.remote_observation is None
            &&& retires_reads(l, done)
            &&& again.phase == PhaseView::AwaitingConfirmation(frozen)
            &&& again.snapshot == l.snapshot
            &&& again.remote_observation == l.remote_observation
            &&& retires_reads(l, again)
            &&& unsure.phase == PhaseView::Recovery(recovery)
            &&& unsure.remote_observation is None
            &&& retires_reads(l, unsure)
        }),
{
}

/// A command of a rebase that ends leaves the checkout idle with the state that was read after it,
/// or waiting for that state where it was not read.
pub proof fn law_the_end_of_a_command(
    l: OperationLifecycleView,
    ticket: DispatchTicket,
    frozen: FrozenIntentView,
    snapshot: LocalSnapshotView,
)
    requires
        runs(l, ticket, frozen),
        ticket.lane is Rebase,
    ensures
        ({
            let done = lifecycle::rebase_completed(l, ticket, Some(snapshot));
            let unread = lifecycle::rebase_completed(l, ticket, None);
            &&& done.phase is Idle
            &&& done.snapshot matches Some(s) && s.guard == snapshot.guard
            &&& retires_reads(l, done)
            &&& unread.phase is AwaitingAuthoritativeSnapshot
            &&& unread.snapshot == l.snapshot
            &&& retires_reads(l, unread)
            &&& done.remote_observation is None
            &&& unread.remote_observation is None
        }),
{
}

/// The end of another run, or of one of the other lane, changes nothing.
pub proof fn law_other_ends_change_nothing(
    l: OperationLifecycleView,
    ticket: DispatchTicket,
    snapshot: LocalSnapshotView,
    recovery: RecoveryStateView,
)
    ensures
        !(l.phase matches PhaseView::Running(run) && run.ticket == ticket && ticket.lane is Local)
            ==> {
            &&& lifecycle::local_succeeded(l, ticket, snapshot) == l
            &&& lifecycle::local_retried(l, ticket) == l
            &&& lifecycle::local_recovering(l, ticket, recovery) == l
        },
        !(l.phase matches PhaseView::Running(run) && run.ticket == ticket && ticket.lane is Rebase)
            ==> {
            &&& lifecycle::rebase_completed(l, ticket, Some(snapshot)) == l
            &&& lifecycle::rebase_completed(l, ticket, None) == l
        },
{
}

/// What waits is cancelled by its number and by no other; the checkout is idle then.
pub proof fn law_cancelling_needs_the_number(l: OperationLifecycleView, id: u64)
    ensures
        ({
            let local = lifecycle::local_cancelled(l, id);
            let rebase = lifecycle::rebase_cancelled(l, id);
            let waits = l.phase matches PhaseView::AwaitingConfirmation(FrozenIntentView::Local(i))
                && i.id == id;
            let awaits = l.phase matches PhaseView::AwaitingConfirmation(
                FrozenIntentView::Rebase(i),
            ) && i.id == id;
            &&& waits ==> local.phase is Idle && retires_reads(l, local) && local.snapshot
                == l.snapshot
            &&& !waits ==> local == l
            &&& awaits ==> rebase.phase is Idle && retires_reads(l, rebase) && rebase.snapshot
                == l.snapshot
            &&& !awaits ==> rebase == l
        }),
{
}

/// A started action is acknowledged exactly once everything it waits for was read; the checkout is
/// idle once its record is cleared, and to be recovered again if that failed.
pub proof fn law_a_started_action_is_acknowledged(
    l: OperationLifecycleView,
    recovery: RecoveryStateView,
)
    requires
        l.phase == PhaseView::Recovery(recovery),
    ensures
        ({
            let fault = lifecycle::reconciliation_fault(l);
            let asked = lifecycle::reconciling(l);
            let ticket = lifecycle::reconciliation_ticket(l);
            &&& fault is None <==> !recovery.authoritative_refresh_required
                && !recovery.publish_refresh_required && l.snapshot is Some
            &&& fault is Some ==> asked == l
            &&& fault is None ==> {
                &&& asked.phase == PhaseView::Acknowledging { recovery, ticket }
                &&& ticket.request_id == recovery.started.request_id
                &&& ticket.lane is Reconciliation
                &&& ticket.operation_version == asked.operation_version
                &&& retires_reads(l, asked)
                &&& lifecycle::reconciled(asked, ticket, true).phase is Idle
                &&& lifecycle::reconciled(asked, ticket, false).phase == PhaseView::Recovery(
                    recovery,
                )
            }
        }),
{
}

/// Without a started action there is nothing to acknowledge.
pub proof fn law_nothing_else_is_acknowledged(l: OperationLifecycleView)
    requires
        !(l.phase is Recovery),
    ensures
        lifecycle::reconciliation_fault(l) == Some("There is no started action to reconcile"@),
        lifecycle::reconciling(l) == l,
{
}

/// A publication that is to be recovered is settled by a current read of that very attempt, and by
/// no other.
pub proof fn law_a_publication_is_settled_by_its_attempt(
    l: OperationLifecycleView,
    ticket: ObservationTicket,
    attempt: PrPublishAttemptView,
)
    ensures
        ({
            let after = lifecycle::publication_reconciled(l, ticket, attempt);
            let current = ticket.kind is PrPublish && lifecycle::is_current(l, ticket);
            let its = l.phase matches PhaseView::Recovery(r) && r.started.pr_publish == Some(
                attempt,
            );
            &&& current && its ==> after.phase == PhaseView::Recovery(
                RecoveryStateView { publish_refresh_required: false, ..l.phase->Recovery_0 },
            ) && !after.observations_in_flight.pr_publish
            &&& current && !its ==> after.phase == l.phase
                && !after.observations_in_flight.pr_publish
            &&& !current ==> after == l
        }),
{
}

/// A checkout begins with its own number and identity, the state that was read, every read
/// retired, and an action that was started before to be recovered.
pub proof fn law_a_checkout_begins(
    l: OperationLifecycleView,
    epoch: u64,
    identity: Seq<char>,
    snapshot: LocalSnapshotView,
    started: Option<StartedActionView>,
)
    ensures
        ({
            let after = lifecycle::activated(l, epoch, identity, snapshot, started);
            &&& after.checkout_epoch == Some(epoch)
            &&& after.checkout_identity == identity
            &&& after.snapshot matches Some(s) && s.guard == snapshot.guard && s.displayed_head
                == snapshot.head_label && s.operation_active == snapshot.operation_active
            &&& retires_reads(l, after)
            &&& started is None ==> after.phase is Idle
            &&& started matches Some(s) ==> after.phase == PhaseView::Recovery(
                RecoveryStateView {
                    started: s,
                    authoritative_refresh_required: false,
                    publish_refresh_required: s.pr_publish is Some,
                },
            )
            &&& after.next_request_id == l.next_request_id
        }),
{
}

/// A lifecycle that is new has no checkout, has read nothing, and is idle.
pub proof fn law_a_new_lifecycle_is_idle()
    ensures
        ({
            let l = lifecycle::fresh_lifecycle();
            &&& l.checkout_epoch is None
            &&& l.checkout_identity.len() == 0
            &&& l.next_request_id == 1
            &&& l.operation_version == 0
            &&& l.phase is Idle
            &&& l.snapshot is None
            &&& l.remote_observation is None
            &&& !l.observations_in_flight.pr_publish
        }),
{
}

/// What is shown of the lifecycle is what its phase says.
pub proof fn law_the_phase_is_shown(l: OperationLifecycleView)
    ensures
        lifecycle::started_in(l) == match l.phase {
            PhaseView::Recovery(r) => Some(r.started),
            PhaseView::Acknowledging { recovery, .. } => Some(recovery.started),
            _ => None,
        },
        lifecycle::local_running_id(l) == match l.phase {
            PhaseView::Running(run) => if run.ticket.lane is Local {
                Some(run.ticket.request_id)
            } else {
                None
            },
            _ => None,
        },
        lifecycle::rebase_is_running(l) <==> (l.phase matches PhaseView::Running(run)
            && run.ticket.lane is Rebase),
        lifecycle::local_is_occupied(l) <==> (l.phase matches PhaseView::AwaitingConfirmation(
            FrozenIntentView::Local(_),
        )) || lifecycle::local_running_id(l) is Some || l.phase is Recovery || l.phase
            is Acknowledging,
{
}

} // verus!

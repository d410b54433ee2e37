//! A checkout over many calls: which of the reads that were begun still count.

use vstd::prelude::*;

use crate::workspace::command::{RebaseCommandView, RebaseEditableInputIdentityView};
use crate::workspace::git::{
    LocalSnapshotView, RemoteBranchObservationView, SnapshotGuardView,
};
use crate::workspace::lifecycle;
use crate::workspace::lifecycle::{
    DispatchTicket, Lane, LocalActionView, ObservationKind, ObservationTicket,
    OperationLifecycleView, RecoveryStateView, StartedActionView,
};
use crate::workspace::publish::PrPublishAttemptView;

verus! {

/// A call that can change a lifecycle, with what it is handed.
pub enum LifecycleCall {
    BeginObservation(ObservationKind),
    FinishObservation(ObservationTicket),
    InstallSnapshot(ObservationTicket, LocalSnapshotView),
    InstallRemote(ObservationTicket, RemoteBranchObservationView),
    ReconcilePublication(ObservationTicket, PrPublishAttemptView),
    Activate {
        checkout_epoch: u64,
        checkout_identity: Seq<char>,
        snapshot: LocalSnapshotView,
        started: Option<StartedActionView>,
    },
    AdmitLocal(LocalActionView, SnapshotGuardView),
    ConfirmLocal(u64),
    CompleteLocalSuccess(DispatchTicket, LocalSnapshotView),
    CompleteLocalRetry(DispatchTicket),
    CompleteLocalRecovery(DispatchTicket, RecoveryStateView),
    CancelLocal(u64),
    AdmitRebase(RebaseCommandView, RebaseEditableInputIdentityView),
    ConfirmRebase(u64, RebaseEditableInputIdentityView),
    CompleteRebase(DispatchTicket, Option<LocalSnapshotView>),
    CancelRebase(u64),
    BeginReconciliation,
    CompleteReconciliation(DispatchTicket, bool),
}

/// The lifecycle after a call.
#[verifier::opaque]
pub open spec fn after(l: OperationLifecycleView, call: LifecycleCall) -> OperationLifecycleView {
    match call {
        LifecycleCall::BeginObservation(kind) => if l.checkout_epoch is Some {
            lifecycle::observing(l, kind)
        } else {
            l
        },
        LifecycleCall::FinishObservation(ticket) => lifecycle::observed(l, ticket),
        LifecycleCall::InstallSnapshot(ticket, snapshot) => lifecycle::snapshot_installed(
            l,
            ticket,
            snapshot,
        ),
        LifecycleCall::InstallRemote(ticket, observation) => lifecycle::remote_installed(
            l,
            ticket,
            observation,
        ),
        LifecycleCall::ReconcilePublication(ticket, attempt) => lifecycle::publication_reconciled(
            l,
            ticket,
            attempt,
        ),
        LifecycleCall::Activate {
            checkout_epoch,
            checkout_identity,
            snapshot,
            started,
        } => lifecycle::activated(l, checkout_epoch, checkout_identity, snapshot, started),
        LifecycleCall::AdmitLocal(action, guard) => lifecycle::local_admitted(l, action, guard),
        LifecycleCall::ConfirmLocal(request_id) => lifecycle::local_confirmed(l, request_id),
        LifecycleCall::CompleteLocalSuccess(ticket, snapshot) => lifecycle::local_succeeded(
            l,
            ticket,
            snapshot,
        ),
        LifecycleCall::CompleteLocalRetry(ticket) => lifecycle::local_retried(l, ticket),
        LifecycleCall::CompleteLocalRecovery(ticket, recovery) => lifecycle::local_recovering(
            l,
            ticket,
            recovery,
        ),
        LifecycleCall::CancelLocal(request_id) => lifecycle::local_cancelled(l, request_id),
        LifecycleCall::AdmitRebase(command, inputs) => lifecycle::rebase_admitted(
            l,
            command,
            inputs,
        ),
        LifecycleCall::ConfirmRebase(request_id, inputs) => lifecycle::rebase_confirmed(
            l,
            request_id,
            inputs,
        ),
        LifecycleCall::CompleteRebase(ticket, snapshot) => lifecycle::rebase_completed(
            l,
            ticket,
            snapshot,
        ),
        LifecycleCall::CancelRebase(request_id) => lifecycle::rebase_cancelled(l, request_id),
        LifecycleCall::BeginReconciliation => lifecycle::reconciling(l),
        LifecycleCall::CompleteReconciliation(ticket, cleared) => lifecycle::reconciled(
            l,
            ticket,
            cleared,
        ),
    }
}

/// The lifecycle after calls, one after the other.
pub open spec fn after_all(
    l: OperationLifecycleView,
    calls: Seq<LifecycleCall>,
) -> OperationLifecycleView
    decreases calls.len(),
{
    if calls.len() == 0 {
        l
    } else {
        after(after_all(l, calls.drop_last()), calls.last())
    }
}

/// Whether a call is a transition that takes effect.
#[verifier::opaque]
pub open spec fn takes_effect(l: OperationLifecycleView, call: LifecycleCall) -> bool {
    match call {
        LifecycleCall::Activate { .. } => true,
        LifecycleCall::ConfirmLocal(request_id) => lifecycle::local_confirmation_fault(
            l,
            request_id,
        ) is None,
        LifecycleCall::CompleteLocalSuccess(ticket, _) => lifecycle::is_running(
            l,
            ticket,
            Lane::Local,
        ),
        LifecycleCall::CompleteLocalRetry(ticket) => lifecycle::is_running(l, ticket, Lane::Local),
        LifecycleCall::CompleteLocalRecovery(ticket, _) => lifecycle::is_running(
            l,
            ticket,
            Lane::Local,
        ),
        LifecycleCall::CancelLocal(request_id) => lifecycle::awaits_local(l, request_id),
        LifecycleCall::ConfirmRebase(request_id, inputs) => lifecycle::rebase_confirmation_fault(
            l,
            request_id,
            inputs,
        ) is None,
        LifecycleCall::CompleteRebase(ticket, _) => lifecycle::is_running(l, ticket, Lane::Rebase),
        LifecycleCall::CancelRebase(request_id) => lifecycle::awaits_rebase(l, request_id),
        LifecycleCall::BeginReconciliation => lifecycle::reconciliation_fault(l) is None,
        LifecycleCall::CompleteReconciliation(ticket, _) => lifecycle::is_acknowledging(l, ticket),
        _ => false,
    }
}

/// Whether a call brings the result of the read with this ticket.
pub open spec fn brings(call: LifecycleCall, ticket: ObservationTicket) -> bool {
    match call {
        LifecycleCall::FinishObservation(t) => t == ticket,
        LifecycleCall::InstallSnapshot(t, _) => t == ticket && ticket.kind is Snapshot,
        LifecycleCall::InstallRemote(t, _) => t == ticket && ticket.kind is RemoteBranch,
        LifecycleCall::ReconcilePublication(t, _) => t == ticket && ticket.kind is PrPublish,
        _ => false,
    }
}

/// Whether a read no longer counts after this call: a later read of its kind begins, its result
/// is brought, or a transition takes effect.
pub open spec fn ends_read(
    l: OperationLifecycleView,
    call: LifecycleCall,
    ticket: ObservationTicket,
) -> bool {
    ||| call == LifecycleCall::BeginObservation(ticket.kind)
    ||| brings(call, ticket)
    ||| takes_effect(l, call)
}

/// Whether the read is ended by the call with this number.
pub open spec fn ended_by(
    l: OperationLifecycleView,
    calls: Seq<LifecycleCall>,
    ticket: ObservationTicket,
    i: int,
) -> bool {
    ends_read(after_all(l, calls.take(i)), calls[i], ticket)
}

/// Whether none of these calls ended the read.
pub open spec fn still_counts(
    l: OperationLifecycleView,
    calls: Seq<LifecycleCall>,
    ticket: ObservationTicket,
) -> bool {
    forall|i: int| 0 <= i < calls.len() ==> !#[trigger] ended_by(l, calls, ticket, i)
}

/// A number that counts on from another, around.
spec fn counted_on(n: u64, steps: nat) -> int {
    (n + steps) % 0x1_0000_0000_0000_0000
}

/// Only as many steps as a number can count lead back to it.
proof fn lemma_counted_on(n: u64, steps: nat)
    ensures
        counted_on(n, 0) == n,
        counted_on(n, steps + 1) == lifecycle::following(counted_on(n, steps) as u64),
        0 < steps <= u64::MAX ==> counted_on(n, steps) != n,
{
}

/// What one call does to the numbers by which a read is known.
proof fn lemma_call(before: OperationLifecycleView, call: LifecycleCall, ticket: ObservationTicket)
    ensures
        ({
            let now = after(before, call);
            let generation = lifecycle::generation_of(before.observation_generations, ticket.kind);
            let pending = lifecycle::is_in_flight(before.observations_in_flight, ticket.kind);
            let begins = call == LifecycleCall::BeginObservation(ticket.kind);
            &&& takes_effect(before, call) ==> now.operation_version == lifecycle::following(
                before.operation_version,
            )
            &&& !takes_effect(before, call) ==> {
                &&& now.operation_version == before.operation_version
                &&& now.checkout_epoch == before.checkout_epoch
                &&& lifecycle::generation_of(now.observation_generations, ticket.kind) == if begins
                    && before.checkout_epoch is Some {
                    lifecycle::following(generation)
                } else {
                    generation
                }
                &&& !begins && !pending ==> !lifecycle::is_in_flight(
                    now.observations_in_flight,
                    ticket.kind,
                )
                &&& !begins && lifecycle::is_current(before, ticket) ==> lifecycle::is_in_flight(
                    now.observations_in_flight,
                    ticket.kind,
                ) == !brings(call, ticket)
            }
        }),
{
    reveal(after);
    reveal(takes_effect);
}

/// One more call.
proof fn lemma_still_counts_step(
    begun: OperationLifecycleView,
    calls: Seq<LifecycleCall>,
    ticket: ObservationTicket,
)
    requires
        calls.len() > 0,
    ensures
        still_counts(begun, calls, ticket) == (still_counts(begun, calls.drop_last(), ticket)
            && !ends_read(after_all(begun, calls.drop_last()), calls.last(), ticket)),
{
    let earlier = calls.drop_last();
    assert(calls.take(calls.len() - 1) =~= earlier);
    assert(ended_by(begun, calls, ticket, calls.len() - 1) == ends_read(
        after_all(begun, earlier),
        calls.last(),
        ticket,
    ));
    assert forall|i: int| 0 <= i < earlier.len() implies #[trigger] ended_by(
        begun,
        earlier,
        ticket,
        i,
    ) == ended_by(begun, calls, ticket, i) by {
        assert(calls.take(i) =~= earlier.take(i));
    }
    if still_counts(begun, earlier, ticket) && !ended_by(begun, calls, ticket, calls.len() - 1) {
        assert forall|i: int| 0 <= i < calls.len() implies !#[trigger] ended_by(
            begun,
            calls,
            ticket,
            i,
        ) by {
            if i < earlier.len() {
                assert(!ended_by(begun, earlier, ticket, i));
            }
        }
    }
}

/// How far version and generation went on since a read began.
proof fn lemma_reads_over_calls(
    begun: OperationLifecycleView,
    calls: Seq<LifecycleCall>,
    ticket: ObservationTicket,
) -> (r: (nat, nat))
    requires
        lifecycle::is_current(begun, ticket),
    ensures
        r.0 <= calls.len(),
        r.1 <= calls.len(),
        ({
            let now = after_all(begun, calls);
            &&& now.operation_version == counted_on(ticket.operation_version, r.0)
            &&& r.0 == 0 ==> now.checkout_epoch == Some(ticket.checkout_epoch)
            &&& r.0 == 0 ==> lifecycle::generation_of(now.observation_generations, ticket.kind)
                == counted_on(ticket.generation, r.1)
            &&& still_counts(begun, calls, ticket) == (r.0 == 0 && r.1 == 0
                && lifecycle::is_in_flight(now.observations_in_flight, ticket.kind))
        }),
    decreases calls.len(),
{
    if calls.len() == 0 {
        lemma_counted_on(ticket.operation_version, 0);
        lemma_counted_on(ticket.generation, 0);
        (0, 0)
    } else {
        let earlier = calls.drop_last();
        let call = calls.last();
        let before = after_all(begun, earlier);
        let r = lemma_reads_over_calls(begun, earlier, ticket);
        lemma_still_counts_step(begun, calls, ticket);
        lemma_call(before, call, ticket);
        lemma_counted_on(ticket.operation_version, r.0);
        lemma_counted_on(ticket.generation, r.1);
        if takes_effect(before, call) {
            (r.0 + 1, r.1)
        } else if call == LifecycleCall::BeginObservation(ticket.kind) && r.0 == 0 {
            (0, r.1 + 1)
        } else {
            r
        }
    }
}

/// A read that was begun ends as current exactly if it is the latest of its kind, its result was
/// not brought before and no transition took effect since. Its end then only stops it from being
/// pending; the end of any other read changes nothing, so that a later read of the same kind
/// stays pending. (The numbers go around after as many calls as a number can count.)
pub proof fn law_a_read_counts_until_it_is_superseded(
    l: OperationLifecycleView,
    kind: ObservationKind,
    calls: Seq<LifecycleCall>,
)
    requires
        l.checkout_epoch is Some,
        calls.len() <= u64::MAX,
    ensures
        ({
            let ticket = lifecycle::observation_ticket(l, kind);
            let begun = lifecycle::observing(l, kind);
            let now = after_all(begun, calls);
            let ended = lifecycle::observed(now, ticket);
            &&& lifecycle::is_current(now, ticket) == still_counts(begun, calls, ticket)
            &&& lifecycle::is_current(now, ticket) ==> ended == (OperationLifecycleView {
                observations_in_flight: lifecycle::with_in_flight(
                    now.observations_in_flight,
                    kind,
                    false,
                ),
                ..now
            }) && !lifecycle::is_in_flight(ended.observations_in_flight, kind)
            &&& !lifecycle::is_current(now, ticket) ==> ended == now
        }),
{
    let ticket = lifecycle::observation_ticket(l, kind);
    let r = lemma_reads_over_calls(lifecycle::observing(l, kind), calls, ticket);
    lemma_counted_on(ticket.operation_version, r.0);
    lemma_counted_on(ticket.generation, r.1);
}

} // verus!

use cibergit::workspace::command::{RebaseCommand, RebaseEditableInputIdentity};
use cibergit::workspace::git::{
    HeadState, LocalSnapshot, RemoteBranchObservation, SnapshotGuard,
};
use cibergit::workspace::lifecycle::{
    LocalAction, LocalEffect, ObservationKind, OperationLifecycle,
};

fn snapshot_named(fingerprint: &str) -> LocalSnapshot {
    LocalSnapshot {
        guard: SnapshotGuard {
            fingerprint: fingerprint.into(),
        },
        head: HeadState::Attached {
            branch: "main".into(),
            oid: "0000000000000000000000000000000000000000".into(),
        },
        head_label: "main".into(),
        operation_active: false,
        operation_is_default: true,
        upstream_oid: None,
        local_branch_oids: Vec::new(),
    }
}

fn lifecycle_fixture() -> (LocalSnapshot, OperationLifecycle) {
    let snapshot = snapshot_named("guard");
    let mut lifecycle = OperationLifecycle::default();
    lifecycle.activate(7, "fixture-checkout".into(), &snapshot, None);
    (snapshot, lifecycle)
}

fn commit_action(message: &str) -> LocalAction {
    LocalAction {
        journal_kind: "commit".into(),
        summary: format!("Commit {message}"),
        requires_exclusive_checkout_lane: true,
        effect: LocalEffect::Commit {
            message: message.into(),
        },
    }
}

#[test]
fn stale_completion_cannot_release_a_newer_running_operation() {
    let (snapshot, mut lifecycle) = lifecycle_fixture();
    let first = lifecycle
        .admit_local(commit_action("first"), snapshot.guard.clone())
        .expect("first admission");
    let first_dispatch = lifecycle.confirm_local(first).expect("first dispatch");
    assert!(lifecycle.complete_local_retry(first_dispatch.ticket));
    assert!(lifecycle.cancel_local(first));
    let second = lifecycle
        .admit_local(commit_action("second"), snapshot.guard.clone())
        .expect("second admission");
    let second_dispatch = lifecycle.confirm_local(second).expect("second dispatch");

    assert!(!lifecycle.complete_local_retry(first_dispatch.ticket));
    assert_eq!(
        lifecycle.local_in_flight_id(),
        Some(second_dispatch.intent.id)
    );
}

#[test]
fn confirmation_rejects_a_changed_authoritative_force_lease() {
    let (snapshot, mut lifecycle) = lifecycle_fixture();
    let observed = "1111111111111111111111111111111111111111";
    let first_read = lifecycle
        .begin_observation(ObservationKind::RemoteBranch)
        .expect("remote read");
    assert!(lifecycle.install_remote_observation(
        first_read,
        RemoteBranchObservation {
            remote: "origin".into(),
            branch: "main".into(),
            oid: Some(observed.into()),
        },
    ));
    let request = lifecycle
        .admit_local(
            LocalAction {
                journal_kind: "force-push".into(),
                summary: "Force push with lease".into(),
                requires_exclusive_checkout_lane: true,
                effect: LocalEffect::ForcePushWithLease {
                    remote: "origin".into(),
                    branch: "main".into(),
                    observed_remote_oid: observed.into(),
                },
            },
            snapshot.guard.clone(),
        )
        .expect("lease admission");
    let changed_read = lifecycle
        .begin_observation(ObservationKind::RemoteBranch)
        .expect("changed remote read");
    assert!(lifecycle.install_remote_observation(
        changed_read,
        RemoteBranchObservation {
            remote: "origin".into(),
            branch: "main".into(),
            oid: Some("2222222222222222222222222222222222222222".into()),
        },
    ));

    assert!(lifecycle.confirm_local(request).is_err());
    assert_eq!(
        lifecycle.pending_local().map(|intent| intent.id),
        Some(request)
    );
}

#[test]
fn uncertain_completion_requires_a_new_authoritative_snapshot_before_reconciliation() {
    let (snapshot, mut lifecycle) = lifecycle_fixture();
    let request = lifecycle
        .admit_local(commit_action("uncertain"), snapshot.guard.clone())
        .expect("admission");
    let dispatch = lifecycle.confirm_local(request).expect("dispatch");
    assert!(lifecycle.complete_local_recovery(dispatch.ticket, dispatch.started, true, false));
    assert!(lifecycle.begin_reconciliation().is_err());
    let refresh = lifecycle
        .begin_observation(ObservationKind::Snapshot)
        .expect("refresh");
    assert!(lifecycle.install_snapshot_observation(refresh, &snapshot));

    assert!(lifecycle.begin_reconciliation().is_ok());
}

#[test]
fn superseded_observation_cannot_become_authoritative() {
    let (_snapshot, mut lifecycle) = lifecycle_fixture();
    let delayed = lifecycle
        .begin_observation(ObservationKind::Diff)
        .expect("delayed read");
    let current = lifecycle
        .begin_observation(ObservationKind::Diff)
        .expect("current read");

    assert!(!lifecycle.finish_observation(delayed));
    assert!(lifecycle.finish_observation(current));
}

#[test]
fn pending_confirmation_excludes_a_second_admission() {
    let (snapshot, mut lifecycle) = lifecycle_fixture();
    lifecycle
        .admit_local(commit_action("first"), snapshot.guard.clone())
        .expect("first admission");

    assert!(lifecycle
        .admit_local(commit_action("second"), snapshot.guard)
        .is_err());
}

#[test]
fn rebase_without_post_effect_snapshot_keeps_the_checkout_lane_closed() {
    let (snapshot, mut lifecycle) = lifecycle_fixture();
    let request = lifecycle
        .admit_rebase(
            RebaseCommand::Retire {
                operation_id: "operation".into(),
            },
            RebaseEditableInputIdentity::NoInput,
        )
        .expect("rebase admission");
    let dispatch = lifecycle
        .confirm_rebase(request, &RebaseEditableInputIdentity::NoInput)
        .expect("rebase dispatch");
    assert!(lifecycle.complete_rebase(dispatch.ticket, &None));
    assert!(lifecycle
        .admit_local(commit_action("blocked"), snapshot.guard.clone())
        .is_err());
    let refresh = lifecycle
        .begin_observation(ObservationKind::Snapshot)
        .expect("authoritative refresh");
    assert!(lifecycle.install_snapshot_observation(refresh, &snapshot));

    assert!(lifecycle
        .admit_local(commit_action("allowed"), snapshot.guard)
        .is_ok());
}

#[test]
fn operation_transition_retires_invalidated_reads_without_releasing_newer_reads() {
    let (snapshot, mut lifecycle) = lifecycle_fixture();
    let request = lifecycle
        .admit_local(commit_action("recover"), snapshot.guard.clone())
        .expect("admission");
    let dispatch = lifecycle.confirm_local(request).expect("dispatch");
    assert!(lifecycle.complete_local_recovery(dispatch.ticket, dispatch.started, false, false));
    let invalidated_publish = lifecycle
        .begin_observation(ObservationKind::PrPublish)
        .expect("publish reconciliation read");
    let invalidated_rebase = lifecycle
        .begin_observation(ObservationKind::Rebase)
        .expect("rebase observation");

    let reconciliation = lifecycle
        .begin_reconciliation()
        .expect("begin durable reconciliation");
    assert!(
        !lifecycle.observation_pending(ObservationKind::PrPublish)
            && !lifecycle.observation_pending(ObservationKind::Rebase),
        "the transition must retire every read invalidated by its new operation version"
    );
    assert!(lifecycle.complete_reconciliation(reconciliation.ticket, true));
    assert!(lifecycle.idle() && !lifecycle.controls_locked());

    let current_publish = lifecycle
        .begin_observation(ObservationKind::PrPublish)
        .expect("new publish read");
    let current_rebase = lifecycle
        .begin_observation(ObservationKind::Rebase)
        .expect("new rebase read");
    assert!(!lifecycle.finish_observation(invalidated_publish));
    assert!(!lifecycle.finish_observation(invalidated_rebase));
    assert!(
        lifecycle.observation_pending(ObservationKind::PrPublish)
            && lifecycle.observation_pending(ObservationKind::Rebase),
        "stale tickets must not release newer observations of the same kinds"
    );
    assert!(lifecycle.finish_observation(current_publish));
    assert!(lifecycle.finish_observation(current_rebase));
    assert!(lifecycle
        .admit_local(commit_action("unblocked"), snapshot.guard)
        .is_ok());
}

#[test]
fn a_started_action_closes_the_checkout_until_it_is_reconciled() {
    let (snapshot, mut lifecycle) = lifecycle_fixture();
    let request = lifecycle
        .admit_local(commit_action("interrupted"), snapshot.guard.clone())
        .expect("admission");
    let started = lifecycle.confirm_local(request).expect("dispatch").started;
    assert_eq!(started.request_id, request);
    assert_eq!(started.checkout_identity, "fixture-checkout");
    assert_eq!(started.displayed_head, "main");

    let mut restarted = OperationLifecycle::default();
    restarted.activate(8, "fixture-checkout".into(), &snapshot, Some(started.clone()));
    assert_eq!(restarted.recovery(), Some(&started));
    assert!(restarted
        .admit_local(commit_action("blocked"), snapshot.guard.clone())
        .is_err());
    let reconciliation = restarted.begin_reconciliation().expect("reconcile");
    assert!(restarted.acknowledging());
    assert!(restarted.complete_reconciliation(reconciliation.ticket, true));
    assert!(restarted.idle());
}

#[test]
fn nothing_is_admitted_without_a_checkout_or_under_a_changed_guard() {
    let mut lifecycle = OperationLifecycle::default();
    assert!(lifecycle.begin_observation(ObservationKind::Snapshot).is_err());
    assert!(lifecycle
        .admit_local(
            commit_action("early"),
            SnapshotGuard {
                fingerprint: "guard".into()
            }
        )
        .is_err());

    let (_snapshot, mut lifecycle) = lifecycle_fixture();
    assert!(lifecycle
        .admit_local(
            commit_action("stale"),
            SnapshotGuard {
                fingerprint: "other".into()
            }
        )
        .is_err());
}

#[test]
fn a_confirmed_action_runs_once() {
    let (snapshot, mut lifecycle) = lifecycle_fixture();
    let request = lifecycle
        .admit_local(commit_action("once"), snapshot.guard.clone())
        .expect("admission");
    let dispatch = lifecycle.confirm_local(request).expect("dispatch");
    assert!(lifecycle.confirm_local(request).is_err());
    let after = snapshot_named("after");
    assert!(lifecycle.complete_local_success(dispatch.ticket, &after));
    assert!(!lifecycle.complete_local_success(dispatch.ticket, &after));
    assert!(lifecycle.idle());
}

#[test]
fn changed_rebase_input_is_not_confirmed() {
    let (_snapshot, mut lifecycle) = lifecycle_fixture();
    let frozen = RebaseEditableInputIdentity::AmendMessage("frozen".into());
    let request = lifecycle
        .admit_rebase(
            RebaseCommand::Retire {
                operation_id: "operation".into(),
            },
            frozen.clone(),
        )
        .expect("admission");
    assert!(lifecycle
        .confirm_rebase(
            request,
            &RebaseEditableInputIdentity::AmendMessage("drifted".into())
        )
        .is_err());
    assert!(lifecycle.rebase_pending_or_running());
    assert!(lifecycle.confirm_rebase(request, &frozen).is_ok());
    assert!(lifecycle.rebase_in_flight());
}

#[test]
fn a_read_counts_over_other_calls_until_it_is_superseded() {
    let (snapshot, mut lifecycle) = lifecycle_fixture();
    let read = lifecycle.begin_observation(ObservationKind::Diff).expect("read");
    let other = lifecycle.begin_observation(ObservationKind::Rebase).expect("read");
    assert!(lifecycle.finish_observation(other));
    let request = lifecycle
        .admit_local(commit_action("later"), snapshot.guard.clone())
        .expect("admission");
    assert!(!lifecycle.cancel_local(request + 1));
    assert!(lifecycle.confirm_local(request + 1).is_err());
    assert!(lifecycle.finish_observation(read));
    assert!(!lifecycle.observation_pending(ObservationKind::Diff));
    assert!(!lifecycle.finish_observation(read));
    let earlier = lifecycle.begin_observation(ObservationKind::Diff).expect("read");
    let later = lifecycle.begin_observation(ObservationKind::Diff).expect("read");
    assert!(!lifecycle.finish_observation(earlier));
    assert!(lifecycle.observation_pending(ObservationKind::Diff));
    assert!(lifecycle.cancel_local(request));
    assert!(!lifecycle.finish_observation(later));
}

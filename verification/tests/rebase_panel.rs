use cibergit::workspace::command::{
    conflict_read, effect_result, store_call, ConflictRead, RebaseCommand, RebaseEditableInputIdentity,
    StoreCall, StoreReply,
};
use cibergit::workspace::git::{
    ActiveOperationIdentity, BlobContent, CommitEntry, CommitInventory, ConflictFile,
    ConflictKind, ConflictStage, DiskGeneration, DirtyPreparation, GitPath, HeadState,
    LocalSnapshot, PlanAction, PrepareOutcome, RebaseOperationView, RebasePlan,
    RebasePreparation, RebaseState, SnapshotGuard, SplitState, StashReceipt,
    StashRestoreState,
};
use cibergit::workspace::conflict::ConflictSource;
use cibergit::workspace::lifecycle::OperationLifecycle;
use cibergit::workspace::panel::{
    conflict_reason, disk_label, first_line, operation_state_label, render_rebase_panel,
    short_oid, PanelControl,
};
use cibergit::workspace::rebase::{
    base_step, pick_steps, rebase_input_is_frozen, validate_base_candidate, BaseStep,
    LocalWorkspace, WorkspaceEffect,
};

fn oid(value: char) -> String {
    std::iter::repeat(value).take(40).collect()
}

fn entry(own: char, parent: char, message: &str) -> CommitEntry {
    CommitEntry {
        oid: oid(own),
        parent_oid: oid(parent),
        message_raw: message.as_bytes().to_vec(),
        message: message.into(),
    }
}

fn inventory() -> CommitInventory {
    CommitInventory {
        base_oid: oid('a'),
        branch: "feature".into(),
        head_oid: oid('d'),
        commits: vec![
            entry('b', 'a', "one\n"),
            entry('c', 'b', "two\n"),
            entry('d', 'c', "three\n"),
        ],
    }
}

fn two_commits() -> CommitInventory {
    CommitInventory {
        base_oid: oid('a'),
        branch: "feature".into(),
        head_oid: oid('c'),
        commits: vec![entry('b', 'a', "one\n"), entry('c', 'b', "two\n")],
    }
}

fn guard() -> SnapshotGuard {
    SnapshotGuard {
        fingerprint: "guard".into(),
    }
}

fn snapshot() -> LocalSnapshot {
    LocalSnapshot {
        guard: guard(),
        head: HeadState::Attached {
            branch: "feature".into(),
            oid: oid('c'),
        },
        head_label: "feature".into(),
        operation_active: false,
        operation_is_default: true,
        upstream_oid: None,
        local_branch_oids: Vec::new(),
    }
}

fn active() -> ActiveOperationIdentity {
    ActiveOperationIdentity {
        operation_id: "op".into(),
        head_name: "refs/heads/feature".into(),
        onto_oid: oid('a'),
        original_head_oid: oid('c'),
        stopped_oid: Some(oid('b')),
        rebase_head_oid: Some(oid('b')),
        stop_is_edit: true,
        todo_sha256: oid('7'),
        done_sha256: oid('8'),
        ownership_marker_sha256: oid('6'),
    }
}

fn operation(state: RebaseState) -> RebaseOperationView {
    RebaseOperationView {
        operation_id: "op".into(),
        attempt: 1,
        state,
        original_branch: "refs/heads/feature".into(),
        original_head_oid: oid('c'),
        base_oid: oid('a'),
        active: Some(active()),
        resulting_commits: Vec::new(),
        stash: None,
        stash_restore: StashRestoreState::NotStarted,
        split: None,
        evidence: Vec::new(),
        publish_warning: None,
        publish_handoff: None,
    }
}

/// Does what the workspace asks for, as a checkout with two commits would. Returns what was
/// to be run.
fn settle(workspace: &mut LocalWorkspace) -> Vec<RebaseCommand> {
    let mut run = Vec::new();
    loop {
        let effects = workspace.take_effects();
        if effects.is_empty() {
            return run;
        }
        for effect in effects {
            match effect {
                WorkspaceEffect::PrepareRebase { ticket, base } => {
                    let result = match base {
                        BaseStep::Refuse { reason } => Err(reason),
                        BaseStep::Resolve { base } => Ok((
                            base,
                            PrepareOutcome::Ready(RebasePreparation {
                                inventory: two_commits(),
                                guard: guard(),
                                stash: None,
                            }),
                        )),
                    };
                    workspace.complete_preparation(ticket, result)
                }
                WorkspaceEffect::ObserveRebase { ticket } => {
                    workspace.complete_observation(ticket, Ok((None, Vec::new())))
                }
                WorkspaceEffect::ValidatePlan { steps, start, .. } => {
                    workspace.complete_plan_validation(Ok(RebasePlan { steps }), start)
                }
                WorkspaceEffect::RunRebase { command, .. } => run.push(command),
                _ => {}
            }
        }
    }
}

fn controller_fixture() -> LocalWorkspace {
    let mut operations = OperationLifecycle::default();
    operations.activate(1, "fixture".into(), &snapshot(), None);
    let mut workspace = LocalWorkspace::new(operations, Some(snapshot()), true);
    workspace.toggle_rebase();
    settle(&mut workspace);
    workspace.set_rebase_base_candidate(oid('a'));
    workspace.prepare_rebase();
    settle(&mut workspace);
    assert_eq!(workspace.rebase_plan_len(), 2);
    workspace
}

#[test]
fn native_controller_start_confirmation_gates_inputs_and_retains_forced_drift() {
    let mut workspace = controller_fixture();
    let base = oid('a');
    workspace.set_rebase_step_action(0, PlanAction::Edit);
    workspace.request_start_rebase();
    assert!(settle(&mut workspace).is_empty());
    let request_id = workspace.rebase_pending_action_id().expect("pending start");
    assert!(workspace.rebase_confirmation_inputs_locked());
    assert_eq!(workspace.rebase_plan_action(0), Some(PlanAction::Edit));

    workspace.set_rebase_action(PlanAction::Drop);
    workspace.set_rebase_step_action(0, PlanAction::Drop);
    workspace.move_rebase_plan_step(0, 1);
    workspace.set_rebase_base_candidate("refs/heads/alternate-base".into());
    assert!(workspace.handle_rebase_key(true, "down"));
    assert_eq!(workspace.rebase_plan_action(0), Some(PlanAction::Edit));
    assert_eq!(workspace.rebase.steps[0].commit_oid, oid('b'));
    assert_eq!(workspace.rebase.base, base);

    workspace.rebase.steps[0].action = PlanAction::Drop;
    workspace.confirm_rebase_action(request_id);
    assert_eq!(workspace.rebase_pending_action_id(), Some(request_id));
    assert!(!workspace.operations.rebase_in_flight());
    assert!(workspace.rebase_status_message().contains("paused"));
    assert!(settle(&mut workspace).is_empty());

    workspace.cancel_rebase_action(request_id);
    assert!(!workspace.rebase.editors_disabled);
    workspace.rebase.steps[0].action = PlanAction::Edit;
    workspace.request_start_rebase();
    settle(&mut workspace);
    let reorder_id = workspace
        .rebase_pending_action_id()
        .expect("reorder request");
    workspace.rebase.steps.swap(0, 1);
    workspace.confirm_rebase_action(reorder_id);
    assert_eq!(workspace.rebase_pending_action_id(), Some(reorder_id));
    assert!(!workspace.operations.rebase_in_flight());
    workspace.cancel_rebase_action(reorder_id);
    workspace.rebase.steps.swap(0, 1);
    assert!(settle(&mut workspace).is_empty());

    workspace.request_start_rebase();
    settle(&mut workspace);
    let base_id = workspace.rebase_pending_action_id().expect("base request");
    workspace.rebase.base = "refs/heads/alternate-base".into();
    workspace.confirm_rebase_action(base_id);
    assert_eq!(workspace.rebase_pending_action_id(), Some(base_id));
    assert!(!workspace.operations.rebase_in_flight());
    workspace.cancel_rebase_action(base_id);
    workspace.set_rebase_base_candidate(base.clone());
    workspace.prepare_rebase();
    assert!(settle(&mut workspace).is_empty());
    assert_eq!(workspace.rebase_plan_len(), 2);

    workspace.rebase.message = "frozen reword".into();
    workspace.set_rebase_step_action(
        0,
        PlanAction::Reword {
            message: "frozen reword".into(),
        },
    );
    workspace.request_start_rebase();
    settle(&mut workspace);
    let reword_id = workspace
        .rebase_pending_action_id()
        .expect("reword request");
    workspace.rebase.message = "programmatic drift".into();
    workspace.confirm_rebase_action(reword_id);
    assert_eq!(workspace.rebase_pending_action_id(), Some(reword_id));
    assert!(!workspace.operations.rebase_in_flight());
    workspace.cancel_rebase_action(reword_id);
    workspace.set_rebase_step_action(0, PlanAction::Edit);
    assert!(settle(&mut workspace).is_empty());

    workspace.request_start_rebase();
    settle(&mut workspace);
    let exact_id = workspace.rebase_pending_action_id().expect("exact request");
    workspace.observe_rebase();
    settle(&mut workspace);
    workspace.confirm_rebase_action(exact_id);
    let run = settle(&mut workspace);
    assert_eq!(run.len(), 1);
    match &run[0] {
        RebaseCommand::Start { preparation, plan } => {
            assert_eq!(preparation.inventory, two_commits());
            assert_eq!(plan.steps[0].action, PlanAction::Edit);
            assert_eq!(plan.steps[1].action, PlanAction::Pick);
        }
        other => panic!("{other:?}"),
    }
    workspace.confirm_rebase_action(exact_id);
    assert!(settle(&mut workspace).is_empty());
}

fn started() -> LocalWorkspace {
    let mut workspace = controller_fixture();
    workspace.set_rebase_step_action(0, PlanAction::Edit);
    workspace.request_start_rebase();
    settle(&mut workspace);
    let id = workspace.rebase_pending_action_id().expect("start request");
    workspace.confirm_rebase_action(id);
    let effects = workspace.take_effects();
    let ticket = effects
        .into_iter()
        .find_map(|effect| match effect {
            WorkspaceEffect::RunRebase { ticket, .. } => Some(ticket),
            _ => None,
        })
        .expect("dispatch");
    workspace.complete_rebase_action(
        ticket,
        Ok(effect_result(
            StoreReply::Observed(operation(RebaseState::PausedForEdit)),
            Vec::new(),
        )),
        Ok(snapshot()),
    );
    workspace.take_effects();
    workspace
}

#[test]
fn native_controller_amend_and_split_messages_pause_on_drift_without_git_dispatch() {
    let mut workspace = started();
    assert_eq!(
        workspace.rebase_operation().as_ref().expect("operation").state,
        RebaseState::PausedForEdit
    );

    workspace.rebase.message = "frozen amend".into();
    workspace.request_amend_rebase();
    let id = workspace.rebase_pending_action_id().expect("amend request");
    workspace.rebase.message = "drifted amend".into();
    workspace.confirm_rebase_action(id);
    assert_eq!(workspace.rebase_pending_action_id(), Some(id));
    assert!(!workspace.operations.rebase_in_flight());
    workspace.cancel_rebase_action(id);
    assert!(settle(&mut workspace).is_empty());

    let mut split = operation(RebaseState::PausedForEdit);
    split.split = Some(SplitState {
        stopped_oid: oid('b'),
        rewritten_stopped_oid: None,
        parent_oid: oid('a'),
        required_tree_oid: oid('e'),
        replacement_commit_count: Some(0),
    });
    workspace.request_begin_split();
    let id = workspace.rebase_pending_action_id().expect("split request");
    workspace.confirm_rebase_action(id);
    let ticket = workspace
        .take_effects()
        .into_iter()
        .find_map(|effect| match effect {
            WorkspaceEffect::RunRebase { ticket, command } => {
                assert!(matches!(command, RebaseCommand::BeginSplit { .. }));
                Some(ticket)
            }
            _ => None,
        })
        .expect("split dispatch");
    workspace.complete_rebase_action(
        ticket,
        Ok(effect_result(StoreReply::Observed(split), Vec::new())),
        Ok(snapshot()),
    );
    workspace.take_effects();

    workspace.rebase.message = "frozen split part".into();
    workspace.request_commit_split_part();
    let id = workspace
        .rebase_pending_action_id()
        .expect("split-part request");
    workspace.rebase.message = "drifted split part".into();
    workspace.confirm_rebase_action(id);
    assert_eq!(workspace.rebase_pending_action_id(), Some(id));
    assert!(!workspace.operations.rebase_in_flight());
    assert!(settle(&mut workspace).is_empty());
}

#[test]
fn editable_identity_excludes_benign_poll_state_and_covers_all_text_payloads() {
    let steps = pick_steps(&inventory());
    let start = RebaseEditableInputIdentity::Start {
        steps: steps.clone(),
        prepared_base_oid: oid('a'),
        displayed_base: "refs/heads/base".into(),
        reword_editor: None,
    };
    assert_eq!(start.clone(), start);
    assert_ne!(
        RebaseEditableInputIdentity::AmendMessage("one".into()),
        RebaseEditableInputIdentity::AmendMessage("two".into())
    );
    assert_ne!(
        RebaseEditableInputIdentity::SplitPartMessage("one".into()),
        RebaseEditableInputIdentity::SplitPartMessage("two".into())
    );
    let mut reordered = steps;
    reordered.swap(0, 1);
    let other = RebaseEditableInputIdentity::Start {
        steps: reordered,
        prepared_base_oid: oid('a'),
        displayed_base: "refs/heads/base".into(),
        reword_editor: None,
    };
    assert_ne!(start, other);
    assert!(start.same(&start) && !start.same(&other));
    assert!(rebase_input_is_frozen(true, false));
    assert!(rebase_input_is_frozen(false, true));
    assert!(!rebase_input_is_frozen(false, false));
}

#[test]
fn base_candidate_gate_refuses_ambiguous_revision_expressions() {
    assert!(!("feature" == "HEAD" || "feature".starts_with("refs/") || "feature".len() == 40));
    assert!("refs/heads/feature".starts_with("refs/"));
    assert_eq!(oid('a').len(), 40);
    assert!(validate_base_candidate("feature").is_err());
    assert!(validate_base_candidate("refs/heads/feature").is_ok());
    assert!(validate_base_candidate("HEAD").is_ok());
    assert!(validate_base_candidate(&oid('a')).is_ok());
}

#[test]
fn a_plan_that_is_refused_asks_for_no_confirmation() {
    let mut workspace = controller_fixture();
    workspace.request_start_rebase();
    let effects = workspace.take_effects();
    assert!(matches!(
        effects.last(),
        Some(WorkspaceEffect::ValidatePlan { start: true, .. })
    ));
    workspace.complete_plan_validation(Err("first step squashes".into()), true);
    assert_eq!(workspace.rebase_pending_action_id(), None);
    assert_eq!(
        workspace.rebase_status_message(),
        "Plan invalid: first step squashes"
    );
}

#[test]
fn steps_move_with_their_selection_and_stay_within_the_plan() {
    let mut workspace = controller_fixture();
    assert!(workspace.handle_rebase_key(true, "down"));
    settle(&mut workspace);
    assert_eq!(workspace.rebase.steps[0].commit_oid, oid('c'));
    assert_eq!(workspace.rebase.selected_step, Some(1));
    assert!(workspace.handle_rebase_key(true, "down"));
    assert_eq!(workspace.rebase.steps[1].commit_oid, oid('b'));
    assert!(!workspace.handle_rebase_key(false, "up"));
    workspace.move_rebase_plan_step(1, -1);
    assert_eq!(workspace.rebase.steps[0].commit_oid, oid('b'));
}

#[test]
fn a_late_preparation_is_ignored() {
    let mut workspace = controller_fixture();
    workspace.prepare_rebase();
    let ticket = match workspace.take_effects().pop() {
        Some(WorkspaceEffect::PrepareRebase { ticket, .. }) => ticket,
        other => panic!("{other:?}"),
    };
    workspace.prepare_rebase();
    settle(&mut workspace);
    let before = workspace.rebase_status_message().to_owned();
    workspace.complete_preparation(ticket, Err("late".into()));
    assert_eq!(workspace.rebase_status_message(), before);
}

#[test]
fn each_command_becomes_the_call_of_its_name() {
    assert_eq!(
        store_call(RebaseCommand::Retire {
            operation_id: "op".into()
        }),
        Ok(StoreCall::Retire {
            operation_id: "op".into()
        })
    );
    assert_eq!(
        store_call(RebaseCommand::Continue {
            operation_id: "op".into(),
            active: active(),
            guard: guard()
        }),
        Ok(StoreCall::Continue {
            operation_id: "op".into(),
            active: active(),
            guard: guard()
        })
    );
    let expected = ConflictFile {
        path: GitPath {
            raw: b"file".to_vec(),
            display: "file".into(),
        },
        kind: ConflictKind::BothModified,
        base: stage("base"),
        ours: stage("ours"),
        theirs: stage("theirs"),
        disk: DiskGeneration::Missing,
    };
    assert!(matches!(
        store_call(RebaseCommand::StageConflict {
            operation_id: "op".into(),
            active: Some(active()),
            expected: expected.clone(),
            guard: guard(),
            stash_restore: true
        }),
        Ok(StoreCall::StageStashResolution { .. })
    ));
    assert!(matches!(
        store_call(RebaseCommand::StageConflict {
            operation_id: "op".into(),
            active: Some(active()),
            expected: expected.clone(),
            guard: guard(),
            stash_restore: false
        }),
        Ok(StoreCall::StageResolution { .. })
    ));
    assert!(store_call(RebaseCommand::StageConflict {
        operation_id: "op".into(),
        active: None,
        expected,
        guard: guard(),
        stash_restore: false
    })
    .is_err());
}

fn stage(text: &str) -> ConflictStage {
    ConflictStage {
        oid: Some(oid('1')),
        mode: Some("100644".into()),
        content: BlobContent::Utf8(text.into()),
    }
}

#[test]
fn conflicts_are_read_where_the_operation_has_them() {
    assert_eq!(conflict_read(&None), ConflictRead::Nothing);
    assert_eq!(
        conflict_read(&Some(operation(RebaseState::Conflicted))),
        ConflictRead::OfRebase { active: active() }
    );
    let mut restoring = operation(RebaseState::Completed);
    restoring.stash_restore = StashRestoreState::Conflicted;
    assert_eq!(
        conflict_read(&Some(restoring)),
        ConflictRead::OfStash {
            operation_id: "op".into()
        }
    );
}

#[test]
fn open_sources_follow_the_operation_and_block_staging_when_it_moves_on() {
    let mut workspace = started();
    let conflict = ConflictFile {
        path: GitPath {
            raw: b"file".to_vec(),
            display: "file".into(),
        },
        kind: ConflictKind::BothModified,
        base: stage("base\n"),
        ours: stage("ours\n"),
        theirs: stage("theirs\n"),
        disk: DiskGeneration::Missing,
    };
    workspace.observe_rebase();
    let ticket = match workspace.take_effects().pop() {
        Some(WorkspaceEffect::ObserveRebase { ticket }) => ticket,
        other => panic!("{other:?}"),
    };
    workspace.complete_observation(
        ticket,
        Ok((
            Some(operation(RebaseState::Conflicted)),
            vec![conflict.clone()],
        )),
    );
    assert_eq!(workspace.rebase_conflict_count(), 1);
    workspace.open_rebase_conflict_sources(0);
    assert_eq!(workspace.rebase_conflict_context_status(), Some("current"));
    let sources = workspace.rebase_conflict_source_proof().expect("sources");
    assert_eq!(sources.len(), 3);
    workspace.request_stage_open_rebase_conflict();
    let id = workspace.rebase_pending_action_id().expect("stage request");
    workspace.cancel_rebase_action(id);
    workspace.take_effects();

    let mut moved = operation(RebaseState::Conflicted);
    moved.operation_id = "next".into();
    moved.active.as_mut().unwrap().operation_id = "next".into();
    workspace.observe_rebase();
    let ticket = match workspace.take_effects().pop() {
        Some(WorkspaceEffect::ObserveRebase { ticket }) => ticket,
        other => panic!("{other:?}"),
    };
    workspace.complete_observation(ticket, Ok((Some(moved), vec![conflict])));
    assert!(workspace.rebase_conflict_context_status() != Some("current"));
    workspace.request_stage_open_rebase_conflict();
    assert_eq!(workspace.rebase_pending_action_id(), None);
    workspace.close_rebase_conflict_sources();
    assert_eq!(workspace.rebase_conflict_source_proof(), None);
}

#[test]
fn a_dirty_checkout_offers_a_stash_and_no_start() {
    let mut operations = OperationLifecycle::default();
    operations.activate(1, "fixture".into(), &snapshot(), None);
    let mut workspace = LocalWorkspace::new(operations, Some(snapshot()), true);
    workspace.toggle_rebase();
    settle(&mut workspace);
    workspace.set_rebase_base_candidate("HEAD".into());
    workspace.prepare_rebase();
    let ticket = match workspace.take_effects().pop() {
        Some(WorkspaceEffect::PrepareRebase { ticket, base }) => {
            assert_eq!(base, BaseStep::Resolve { base: "HEAD".into() });
            ticket
        }
        other => panic!("{other:?}"),
    };
    workspace.complete_preparation(
        ticket,
        Ok((
            oid('a'),
            PrepareOutcome::Dirty(DirtyPreparation {
                inventory: two_commits(),
                guard: guard(),
                staged: 1,
                unstaged: 0,
                untracked: 2,
                conflicts: 0,
            }),
        )),
    );
    workspace.request_start_rebase();
    assert!(matches!(
        workspace.take_effects().last(),
        Some(WorkspaceEffect::ReportError { .. })
    ));
    assert_eq!(workspace.rebase_pending_action_id(), None);
    workspace.request_create_stash();
    assert!(workspace.rebase_pending_action_id().is_some());
}

fn observed(workspace: &mut LocalWorkspace, operation: RebaseOperationView) {
    workspace.observe_rebase();
    let ticket = match workspace.take_effects().pop() {
        Some(WorkspaceEffect::ObserveRebase { ticket }) => ticket,
        other => panic!("{other:?}"),
    };
    workspace.complete_observation(ticket, Ok((Some(operation), Vec::new())));
    workspace.take_effects();
}

/// The command that is pending, cancelled again.
fn pending(workspace: &mut LocalWorkspace) -> Option<RebaseCommand> {
    let id = workspace.rebase_pending_action_id()?;
    let command = workspace.operations.pending_rebase().map(|p| p.command.clone());
    workspace.cancel_rebase_action(id);
    workspace.take_effects();
    command
}

#[test]
fn each_control_requests_its_own_command() {
    let mut workspace = started();
    workspace.request_continue_rebase();
    assert!(matches!(
        pending(&mut workspace),
        Some(RebaseCommand::Continue { .. })
    ));
    workspace.request_skip_rebase();
    assert!(matches!(
        pending(&mut workspace),
        Some(RebaseCommand::Skip { .. })
    ));
    workspace.request_abort_rebase();
    assert!(matches!(
        pending(&mut workspace),
        Some(RebaseCommand::Abort { .. })
    ));
    workspace.request_finish_split();
    assert!(matches!(
        pending(&mut workspace),
        Some(RebaseCommand::FinishSplit { .. })
    ));
    workspace.request_restore_stash();
    assert!(matches!(
        pending(&mut workspace),
        Some(RebaseCommand::RestoreStash { .. })
    ));
    workspace.request_finish_stash_restore();
    assert!(matches!(
        pending(&mut workspace),
        Some(RebaseCommand::FinishStashRestore { .. })
    ));
    workspace.request_retire_rebase();
    assert!(matches!(
        pending(&mut workspace),
        Some(RebaseCommand::Retire { .. })
    ));
}

#[test]
fn the_editor_selects_rewords_and_cancels() {
    let mut workspace = controller_fixture();
    assert!(workspace.rebase_is_open());
    workspace.select_rebase_step(1);
    workspace.rebase.message = "better words".into();
    workspace.apply_reword_message();
    assert_eq!(
        workspace.rebase_plan_action(1),
        Some(PlanAction::Reword {
            message: "better words".into()
        })
    );
    workspace.set_rebase_operation_details(true);
    assert!(workspace.rebase.show_operation_details);
    workspace.select_base_candidate(oid('e'));
    assert_eq!(workspace.rebase_plan_len(), 0);
    assert_eq!(workspace.rebase.base, oid('e'));
    workspace.prepare_rebase();
    settle(&mut workspace);
    workspace.cancel_rebase_preparation();
    assert_eq!(
        workspace.rebase_status_message(),
        "Preparation cancelled; Git was not changed"
    );
    workspace.route_dirty_commit();
    assert!(!workspace.rebase_is_open());
}

#[test]
fn the_panel_of_a_plan_lists_its_steps_and_controls() {
    let workspace = controller_fixture();
    let panel = render_rebase_panel(&workspace, true);
    let preparation = panel.preparation.expect("a prepared plan");
    assert_eq!(
        preparation.summary,
        [
            "2 commits · feature".to_owned(),
            format!("base {}", oid('a')),
            format!("head {}", oid('c')),
        ]
    );
    assert_eq!(preparation.rows.len(), 2);
    assert_eq!(preparation.rows[0].id, "rebase-step-0");
    assert_eq!(preparation.rows[0].title, "one");
    assert!(preparation.rows[0].selected && !preparation.rows[0].frozen);
    let labels: Vec<&str> = preparation
        .editor
        .iter()
        .map(|button| button.label.as_str())
        .collect();
    assert_eq!(
        labels,
        ["Pick", "Squash", "Fixup", "Drop", "Reword", "Edit", "Move up", "Move down"]
    );
    assert_eq!(
        preparation.plan_heading.map(|notice| notice.title).as_deref(),
        Some("LINEAR PLAN")
    );
    assert_eq!(panel.back.label, "Back to workspace");
    assert_eq!(panel.back.control, PanelControl::Toggle);
    assert!(panel.operation.is_none() && panel.conflict.is_none());
    assert!(panel.confirmation.is_none() && panel.base_heading.is_none());
}

#[test]
fn a_pending_confirmation_freezes_the_panel() {
    let mut workspace = controller_fixture();
    workspace.request_start_rebase();
    settle(&mut workspace);
    let id = workspace.rebase_pending_action_id().expect("pending");
    let panel = render_rebase_panel(&workspace, true);
    let confirmation = panel.confirmation.expect("confirmation");
    assert!(confirmation
        .frozen
        .expect("frozen inputs")
        .contains("Frozen base"));
    assert!(confirmation
        .buttons
        .iter()
        .any(|button| button.control == PanelControl::Confirm { request_id: id }));
    assert!(confirmation
        .buttons
        .iter()
        .any(|button| button.control == PanelControl::CancelRequest { request_id: id }));
    let preparation = panel.preparation.expect("plan");
    assert!(preparation.rows.iter().all(|row| row.frozen));
    assert!(preparation.editor.iter().all(|button| button.frozen));
}

#[test]
fn the_panel_of_an_operation_offers_what_its_state_allows() {
    let mut workspace = started();
    let panel = render_rebase_panel(&workspace, false);
    let shown = panel.operation.expect("operation");
    assert_eq!(shown.heading, "Paused for editing · attempt 1");
    assert_eq!(shown.branch, "branch refs/heads/feature");
    assert_eq!(shown.message_label.as_deref(), Some("Optional amend message"));
    assert!(shown
        .buttons
        .iter()
        .any(|button| button.control == PanelControl::Amend));
    assert!(shown.details.is_empty());

    let mut uncertain = operation(RebaseState::FailedUncertain);
    uncertain.stash = Some(StashReceipt {
        oid: oid('f'),
        includes_untracked: true,
        ignored_files_excluded: true,
        retained_after_restore: false,
    });
    observed(&mut workspace, uncertain);
    workspace.set_rebase_operation_details(true);
    let shown = render_rebase_panel(&workspace, false)
        .operation
        .expect("operation");
    assert_eq!(shown.details[0], "operation op");
    assert!(shown.notice.expect("notice").title.starts_with("Uncertain"));
    assert!(shown.stash.expect("receipt").body.contains(&oid('f')));
    assert!(!shown
        .buttons
        .iter()
        .any(|button| button.control == PanelControl::Retire));

    let mut split = operation(RebaseState::PausedForEdit);
    split.split = Some(SplitState {
        stopped_oid: oid('b'),
        rewritten_stopped_oid: None,
        parent_oid: oid('a'),
        required_tree_oid: oid('e'),
        replacement_commit_count: Some(1),
    });
    observed(&mut workspace, split);
    let shown = render_rebase_panel(&workspace, false)
        .operation
        .expect("operation");
    assert_eq!(shown.message_label.as_deref(), Some("Split part message"));
    assert!(!shown
        .buttons
        .iter()
        .any(|button| button.control == PanelControl::Continue
            || button.control == PanelControl::Skip));
    assert!(shown
        .split
        .expect("split")
        .body
        .ends_with("replacements 1"));
}

#[test]
fn labels_are_written_out() {
    assert_eq!(short_oid(&oid('a')).len(), 10);
    assert_eq!(first_line("head\nrest"), "head");
    assert_eq!(first_line(""), "(empty message)");
    assert_eq!(
        operation_state_label(&RebaseState::Conflicted),
        "Conflicts to resolve"
    );
    assert_eq!(disk_label(&DiskGeneration::Missing), "missing");
    assert_eq!(
        disk_label(&DiskGeneration::Regular {
            sha256: oid('d'),
            len: 11,
            device: 1,
            inode: 2,
            modified_seconds: 3,
            modified_nanoseconds: 4,
        }),
        "regular sha256 dddddddddd · 11 bytes · dev 1 inode 2"
    );
}

fn conflicted(workspace: &mut LocalWorkspace) -> ConflictFile {
    let conflict = ConflictFile {
        path: GitPath {
            raw: b"file".to_vec(),
            display: "file".into(),
        },
        kind: ConflictKind::AddedByBoth,
        base: stage("base\n"),
        ours: stage("ours\nmore\n"),
        theirs: stage("theirs\n"),
        disk: DiskGeneration::Missing,
    };
    workspace.observe_rebase();
    let ticket = match workspace.take_effects().pop() {
        Some(WorkspaceEffect::ObserveRebase { ticket }) => ticket,
        other => panic!("{other:?}"),
    };
    workspace.complete_observation(
        ticket,
        Ok((
            Some(operation(RebaseState::Conflicted)),
            vec![conflict.clone()],
        )),
    );
    workspace.take_effects();
    conflict
}

#[test]
fn the_panel_of_a_conflict_shows_its_sides() {
    let mut workspace = started();
    let conflict = conflicted(&mut workspace);
    assert!(conflict_reason(&conflict, false).starts_with("Both sides added this file · "));
    assert!(conflict_reason(&conflict, true).ends_with(" · disk missing"));
    workspace.open_rebase_conflict_sources(0);
    let wide = render_rebase_panel(&workspace, true)
        .conflict
        .expect("conflict");
    assert_eq!(wide.heading, "THREE-WAY CONFLICT");
    assert_eq!(wide.path, "file");
    assert_eq!(wide.sources.len(), 3);
    assert!(wide.stage.is_some() && wide.refresh.is_none());
    assert_eq!(wide.sources[1].count, 3);
    let narrow = render_rebase_panel(&workspace, false)
        .conflict
        .expect("conflict");
    assert_eq!(narrow.sources.len(), 1);
    workspace.select_conflict_source(ConflictSource::Theirs);
    assert_eq!(
        render_rebase_panel(&workspace, false)
            .conflict
            .expect("conflict")
            .sources[0]
            .label,
        "Replayed commit (theirs)"
    );
    assert!(workspace.handle_rebase_key(true, "right"));
    assert_eq!(
        render_rebase_panel(&workspace, false)
            .conflict
            .expect("conflict")
            .sources[0]
            .label,
        "Base"
    );
    workspace.toggle_conflict_details();
    assert!(render_rebase_panel(&workspace, true)
        .conflict
        .expect("conflict")
        .sources[0]
        .details
        .is_some());
    assert_eq!(
        workspace.conflict_rows(ConflictSource::Ours, 0, 2),
        ["ours", "more"]
    );
    assert!(workspace.conflict_rows(ConflictSource::Ours, 2, 0).is_empty());
    let probe = workspace
        .rebase_conflict_virtualization_probe([false, true, false])
        .expect("open");
    assert_eq!(probe[1].0, 3);
    assert!(probe[1].2 && !probe[0].2);
}

#[test]
fn changed_stages_are_refreshed_on_demand() {
    let mut workspace = started();
    let mut conflict = conflicted(&mut workspace);
    workspace.open_rebase_conflict_sources(0);
    conflict.theirs.oid = Some(oid('4'));
    workspace.observe_rebase();
    let ticket = match workspace.take_effects().pop() {
        Some(WorkspaceEffect::ObserveRebase { ticket }) => ticket,
        other => panic!("{other:?}"),
    };
    workspace.complete_observation(
        ticket,
        Ok((Some(operation(RebaseState::Conflicted)), vec![conflict])),
    );
    assert!(workspace.rebase_conflict_context_status() != Some("current"));
    workspace.refresh_open_rebase_conflict_sources();
    assert_eq!(workspace.rebase_conflict_context_status(), Some("current"));
    assert_eq!(
        workspace.rebase_conflict_source_proof().expect("open")[2].1,
        Some(oid('4'))
    );
}

#[test]
fn an_ambiguous_base_is_refused_before_it_is_resolved() {
    let mut operations = OperationLifecycle::default();
    operations.activate(1, "fixture".into(), &snapshot(), None);
    let mut workspace = LocalWorkspace::new(operations, Some(snapshot()), true);
    assert_eq!(workspace.rebase.base, "");
    assert_eq!(workspace.rebase.message, "");
    assert!(!workspace.rebase.show_operation_details);
    workspace.set_rebase_base_candidate(" main ".into());
    workspace.prepare_rebase();
    let reason = "use HEAD, a full 40-hex commit OID, or a fully-qualified refs/* name";
    let (ticket, base) = match workspace.take_effects().pop() {
        Some(WorkspaceEffect::PrepareRebase { ticket, base }) => (ticket, base),
        other => panic!("{other:?}"),
    };
    assert_eq!(base, BaseStep::Refuse { reason: reason.into() });
    workspace.complete_preparation(ticket, Err(reason.into()));
    assert_eq!(
        workspace.take_effects(),
        [WorkspaceEffect::ReportError {
            message: format!("Rebase preparation refused: {reason}")
        }]
    );
    assert_eq!(
        base_step("refs/heads/main".into()),
        BaseStep::Resolve { base: "refs/heads/main".into() }
    );
}

#[test]
fn keys_do_nothing_in_the_empty_plan_of_an_archived_rebase() {
    let mut workspace = controller_fixture();
    workspace.rebase.steps.clear();
    assert_eq!(workspace.rebase.selected_step, Some(0));
    assert!(workspace.takes_key(true, "up"));
    assert!(workspace.handle_rebase_key(true, "up"));
    assert!(workspace.handle_rebase_key(true, "down"));
    assert_eq!(workspace.rebase.selected_step, Some(0));
    assert!(workspace.rebase.steps.is_empty());
    workspace.rebase.selected_step = Some(2);
    assert!(!workspace.takes_key(true, "up"));
    assert!(workspace.takes_key(true, "left"));
    assert!(!workspace.handle_rebase_key(true, "left"));
    workspace.rebase.open = false;
    assert!(workspace.takes_key(true, "up"));
    assert!(!workspace.handle_rebase_key(true, "up"));
}

#[test]
fn bases_are_offered_until_one_is_prepared() {
    let mut operations = OperationLifecycle::default();
    operations.activate(1, "fixture".into(), &snapshot(), None);
    let workspace = LocalWorkspace::new(operations, Some(snapshot()), true);
    let panel = render_rebase_panel(&workspace, true);
    assert_eq!(
        panel.base_placeholder.as_deref(),
        Some("Full commit OID, HEAD, or fully-qualified refs/*")
    );
    assert!(panel.preparation.is_none() && panel.base_heading.is_some());
    assert!(render_rebase_panel(&controller_fixture(), true)
        .base_placeholder
        .is_none());
}

#[test]
fn a_preparation_carries_the_bytes_of_its_messages() {
    let mut workspace = controller_fixture();
    workspace.request_start_rebase();
    settle(&mut workspace);
    let id = workspace.rebase_pending_action_id().expect("pending");
    workspace.confirm_rebase_action(id);
    let run = settle(&mut workspace);
    match run.into_iter().next().map(store_call) {
        Some(Ok(StoreCall::Start { preparation, .. })) => {
            assert_eq!(preparation.inventory.commits[0].message_raw, b"one\n".to_vec())
        }
        other => panic!("{other:?}"),
    }
}

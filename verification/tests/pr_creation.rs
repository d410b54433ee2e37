use cibergit::creation::dialog::{
    callback_matches, confirmation_details, random_identity, DialogEffect, DialogState,
    FrozenCreation, PrCreationDialog, ProviderChoice, ProviderChoiceSet, ProviderMutationOutcome,
};
use cibergit::creation::form::{
    CreationForm, DraftOwner, DraftRecord, DraftSaveLane, DraftSnapshot, ProviderCapability,
    ProviderCoordinates, PullRequestCreationAcknowledgement, PullRequestCreationInput,
    PullRequestCreationPreparation, PullRequestCreationRequest,
};
use cibergit::creation::journal::{
    admission_key, admission_receipt, load_attempt_summaries, AcknowledgementRecord,
    ContextRequest, CreationAttemptStatus, CreationAuthorityKey, CreationJournalRecord,
    FoundJournal, MutationContext, MutationTerminalRecord,
};
use cibergit::creation::panel::{branch_choices, render, render_created, repository_choices};
use cibergit::domain::{Account, Repository};
use std::collections::BTreeMap;

fn repository(owner: &str, name: &str, login: &str) -> Repository {
    Repository {
        host: "github.com".into(),
        owner: owner.into(),
        name: name.into(),
        account: Account {
            host: "github.com".into(),
            login: login.into(),
        },
        local_path: None,
    }
}

fn preparation(title: &str, source_sha: char) -> PullRequestCreationPreparation {
    PullRequestCreationPreparation {
        input: PullRequestCreationInput {
            target_repository: repository("Owner", "Repo", "Alice"),
            base_branch: "main".into(),
            source_repository: repository("Forker", "Fork", "Alice"),
            source_branch: "published/topic".into(),
            local_branch: Some("local/different".into()),
            title: title.into(),
            body: "body".into(),
            draft: false,
        },
        observed_base_sha: "a".repeat(40),
        observed_source_head_sha: source_sha.to_string().repeat(40),
        viewer_login: "Alice".into(),
        repository_permission: Some("WRITE".into()),
        can_create: ProviderCapability {
            available: true,
            reason: None,
        },
        reviewed_head_atomically_enforced: false,
        notice: Some("not atomic".into()),
    }
}

fn request(
    operation: &str,
    attempt: &str,
    title: &str,
    source_sha: char,
) -> PullRequestCreationRequest {
    PullRequestCreationRequest {
        operation_id: operation.into(),
        attempt_id: attempt.into(),
        preparation: preparation(title, source_sha),
    }
}

fn context(request: &PullRequestCreationRequest) -> MutationContext {
    MutationContext {
        operation_id: request.operation_id.clone(),
        attempt_id: request.attempt_id.clone(),
        action: "create-pr".into(),
        payload: "{\"request\":{},\"dispatch\":{\"method\":\"POST\",\"endpoint\":\"repos/Owner/Repo/pulls\"}}".into(),
        request: ContextRequest::Decoded(request.clone()),
    }
}

fn acknowledged(request: &PullRequestCreationRequest) -> PullRequestCreationAcknowledgement {
    let input = &request.preparation.input;
    PullRequestCreationAcknowledgement {
        operation_id: request.operation_id.clone(),
        target_repository: input.target_repository.clone(),
        source_repository: input.source_repository.clone(),
        pull_request: ProviderCoordinates {
            provider: "github".into(),
            host: input.target_repository.host.clone(),
            owner: input.target_repository.owner.clone(),
            repository: input.target_repository.name.clone(),
            pull_request: 7,
            remote_id: "PR_node".into(),
        },
        actual_head_sha: request.preparation.observed_source_head_sha.clone(),
        reviewed_head_sha: request.preparation.observed_source_head_sha.clone(),
        reviewed_head_atomically_enforced: false,
        url: format!(
            "https://github.com/{}/pull/7",
            input.target_repository.full_name()
        ),
    }
}

fn acknowledgement(request: &PullRequestCreationRequest) -> AcknowledgementRecord {
    AcknowledgementRecord {
        raw: "{}".into(),
        decoded: Some(acknowledged(request)),
    }
}

/// The files of a draft directory, by their names.
struct Drafts(BTreeMap<String, DraftRecord>);

impl Drafts {
    fn new() -> Self {
        Drafts(BTreeMap::new())
    }

    fn shared() -> DraftOwner {
        DraftOwner { account: None }
    }

    fn load(&self, owner: &DraftOwner) -> Option<DraftRecord> {
        let own = self.0.get(&owner.draft_file()).cloned();
        let shared = self.0.get(&Self::shared().draft_file()).cloned();
        owner.choose_draft(own, shared)
    }

    fn save(
        &mut self,
        owner: &DraftOwner,
        expected: Option<u64>,
        form: CreationForm,
    ) -> Result<DraftRecord, String> {
        let current = self.load(owner).map(|record| record.generation);
        let record = owner.next_draft(expected, current, form)?;
        self.0.insert(owner.draft_file(), record.clone());
        Ok(record)
    }
}

fn form(title: &str, body: &str) -> CreationForm {
    CreationForm {
        target_repository: repository("owner", "repo", "alice"),
        base_branch: "main".into(),
        source_repository: repository("owner", "repo", "alice"),
        source_branch: "topic".into(),
        local_branch: None,
        title: title.into(),
        body: body.into(),
        draft: false,
    }
}

#[test]
fn authority_canonicalizes_github_identity_but_keeps_branches_exact() {
    let upper = CreationAuthorityKey::from_preparation(&preparation("one", 'b')).unwrap();
    let mut lower_prep = preparation("two", 'c');
    lower_prep.input.target_repository.owner = "owner".into();
    lower_prep.input.target_repository.name = "repo".into();
    lower_prep.input.source_repository.owner = "forker".into();
    lower_prep.input.source_repository.name = "fork".into();
    lower_prep.input.target_repository.account.login = "alice".into();
    lower_prep.input.source_repository.account.login = "alice".into();
    let lower = CreationAuthorityKey::from_preparation(&lower_prep).unwrap();
    assert_eq!(upper, lower);
    lower_prep.input.source_branch = "Published/Topic".into();
    assert_ne!(
        upper,
        CreationAuthorityKey::from_preparation(&lower_prep).unwrap()
    );
}

fn journal_for(request: &PullRequestCreationRequest) -> CreationJournalRecord {
    CreationJournalRecord::empty(admission_key(request, &context(request)).unwrap())
}

#[test]
fn distinct_local_branch_is_informational_and_same_frozen_preparation_cannot_replay() {
    let request = request("op-1", "attempt-1", "title", 'b');
    let mut journal = journal_for(&request);
    journal.admit_attempt(&request, &context(&request)).unwrap();
    journal
        .record_terminal(
            &request,
            &MutationTerminalRecord::Acknowledged {
                acknowledgement: acknowledgement(&request),
            },
        )
        .unwrap();
    let error = match journal.admit_attempt(&request, &context(&request)) {
        Ok(_) => panic!("replay unexpectedly admitted"),
        Err(error) => error,
    };
    assert!(error.contains("already admitted"));
}

#[test]
fn unresolved_attempt_survives_restart_and_other_current_form_tuple() {
    let request = request("unknown-operation", "lost-reply", "original title", 'b');
    let mut journal = journal_for(&request);
    journal.admit_attempt(&request, &context(&request)).unwrap();
    let stem = journal.key.component();
    let summaries = load_attempt_summaries(&vec![FoundJournal {
        stem: stem.clone(),
        path: format!("{stem}.json"),
        journal,
    }])
    .unwrap();
    assert_eq!(summaries.len(), 1);
    assert!(summaries[0].unresolved);
    assert_eq!(summaries[0].title, "original title");
    assert_eq!(summaries[0].source, "Forker/Fork:published/topic");
}

#[test]
fn uncertain_terminal_refuses_pending_replay_after_restart() {
    let first_request = request("op-uncertain", "attempt-uncertain", "title", 'b');
    let mut journal = journal_for(&first_request);
    journal
        .admit_attempt(&first_request, &context(&first_request))
        .unwrap();
    journal
        .record_terminal(
            &first_request,
            &MutationTerminalRecord::Uncertain {
                reason: "reply lost after dispatch".into(),
            },
        )
        .unwrap();
    let next = request("op-new", "attempt-new", "changed title", 'c');
    assert_eq!(admission_key(&next, &context(&next)).unwrap(), journal.key);
    let error = match journal.admit_attempt(&next, &context(&next)) {
        Ok(_) => panic!("unresolved authority unexpectedly admitted"),
        Err(error) => error,
    };
    assert!(error.contains("unresolved"));
}

#[test]
fn conclusive_not_started_allows_fresh_ids_for_exact_explicit_retry() {
    let first = request("op-first", "attempt-first", "title", 'b');
    let mut journal = journal_for(&first);
    journal.admit_attempt(&first, &context(&first)).unwrap();
    journal
        .record_terminal(
            &first,
            &MutationTerminalRecord::NotStarted {
                reason: "second preflight proved the head moved before dispatch".into(),
            },
        )
        .unwrap();

    let second = request("op-retry", "attempt-retry", "title", 'b');
    journal.admit_attempt(&second, &context(&second)).unwrap();
    journal
        .record_terminal(
            &second,
            &MutationTerminalRecord::NotStarted {
                reason: "explicit retry also ended before dispatch".into(),
            },
        )
        .unwrap();
    assert!(journal.validate().is_ok());
}

#[test]
fn different_title_and_oid_share_authority_lane() {
    let first = CreationAuthorityKey::from_preparation(&preparation("one", 'b')).unwrap();
    let second = CreationAuthorityKey::from_preparation(&preparation("two", 'c')).unwrap();
    assert_eq!(first, second);
    assert_eq!(first.component(), second.component());
}

#[test]
fn draft_cas_blocks_stale_window_and_preserves_latest_dirty_text() {
    let mut drafts = Drafts::new();
    let owner = Drafts::shared();
    let mut form = form("first", "dirty");
    let first = drafts.save(&owner, None, form.clone()).unwrap();
    form.title = "latest".into();
    let latest = drafts
        .save(&owner, Some(first.generation), form.clone())
        .unwrap();
    let mut stale = form.clone();
    stale.title = "late callback".into();
    assert!(drafts.save(&owner, Some(first.generation), stale).is_err());
    assert_eq!(drafts.load(&owner).unwrap(), latest);
}

#[test]
fn account_drafts_preserve_legacy_text_and_do_not_split_creation_authority() {
    let mut drafts = Drafts::new();
    let legacy = Drafts::shared();
    let prepared = preparation("Alice legacy draft", 'a');
    let input = &prepared.input;
    let form = CreationForm {
        target_repository: input.target_repository.clone(),
        base_branch: input.base_branch.clone(),
        source_repository: input.source_repository.clone(),
        source_branch: input.source_branch.clone(),
        local_branch: input.local_branch.clone(),
        title: input.title.clone(),
        body: input.body.clone(),
        draft: input.draft,
    };
    let old = drafts.save(&legacy, None, form.clone()).unwrap();
    let preserved = drafts.0[&legacy.draft_file()].clone();
    let alice = DraftOwner::for_account(&input.target_repository.account).unwrap();
    let mut bob_form = form.clone();
    bob_form.target_repository.account.login = "bob".into();
    bob_form.source_repository.account.login = "bob".into();
    bob_form.body = "Bob independent text".into();
    let bob = DraftOwner::for_account(&bob_form.target_repository.account).unwrap();
    assert!(drafts.load(&bob).is_none());
    drafts.save(&bob, None, bob_form.clone()).unwrap();
    assert_eq!(drafts.load(&bob).unwrap().form, bob_form);
    assert_eq!(drafts.load(&alice), Some(old.clone()));
    let mut edited = form.clone();
    edited.body = "Alice latest text".into();
    drafts
        .save(&alice, Some(old.generation), edited.clone())
        .unwrap();
    assert_eq!(drafts.0[&legacy.draft_file()], preserved);
    assert_eq!(drafts.load(&alice).unwrap().form, edited);
    assert_eq!(drafts.load(&bob).unwrap().form, bob_form);
    assert!(drafts.save(&bob, Some(1), form).is_err());
    let mut alias = input.target_repository.account.clone();
    alias.login = alias.login.to_ascii_uppercase();
    alias.host = alias.host.to_ascii_uppercase();
    let alias = DraftOwner::for_account(&alias).unwrap();
    assert_eq!(alias.draft_file(), alice.draft_file());
    assert_ne!(alias.draft_file(), bob.draft_file());
    assert!(drafts
        .save(&alias, Some(old.generation), edited.clone())
        .is_err());
    assert_eq!(drafts.load(&alice).unwrap().form, edited);
    // The name of the journal and of its lock follows from the preparation alone.
    let authority = CreationAuthorityKey::from_preparation(&prepared).unwrap();
    assert_eq!(authority.component().len(), 64);
}

#[test]
fn incomplete_dirty_form_is_durable_but_cannot_be_prepared() {
    let mut drafts = Drafts::new();
    let owner = Drafts::shared();
    let form = CreationForm {
        target_repository: repository("owner", "repo", "alice"),
        base_branch: String::new(),
        source_repository: repository("owner", "repo", "alice"),
        source_branch: String::new(),
        local_branch: None,
        title: String::new(),
        body: "unfinished text\nthat must survive close".into(),
        draft: true,
    };
    assert!(form.validate().is_err());
    let saved = drafts.save(&owner, None, form.clone()).unwrap();
    assert_eq!(drafts.load(&owner).unwrap(), saved);
    assert_eq!(saved.form, form);
}

#[test]
fn typing_during_owned_save_serializes_latest_form_against_real_store() {
    let mut drafts = Drafts::new();
    let owner = Drafts::shared();
    let first = form("first", "A");
    let mut latest = first.clone();
    latest.body = "B typed while A saves".into();
    let mut lane = DraftSaveLane::new();
    lane.queue(DraftSnapshot {
        edit_generation: 1,
        form: first,
    });
    let (expected, active) = lane.start_next().unwrap();
    lane.queue(DraftSnapshot {
        edit_generation: 2,
        form: latest.clone(),
    });
    let saved_a = drafts.save(&owner, expected, active.form).unwrap();
    lane.complete_success(&saved_a).unwrap();
    let (expected, active) = lane.start_next().unwrap();
    assert_eq!(expected, Some(saved_a.generation));
    let saved_b = drafts.save(&owner, expected, active.form).unwrap();
    lane.complete_success(&saved_b).unwrap();
    assert!(lane.is_idle_durable(&latest));
    assert_eq!(drafts.load(&owner).unwrap().form, latest);
}

#[test]
fn autosave_then_prepare_drains_exact_latest_snapshot_against_real_store() {
    let mut drafts = Drafts::new();
    let owner = Drafts::shared();
    let mut autosave = form("autosave", "old");
    let mut lane = DraftSaveLane::new();
    lane.queue(DraftSnapshot {
        edit_generation: 4,
        form: autosave.clone(),
    });
    let (expected, active) = lane.start_next().unwrap();
    autosave.title = "exact prepare click".into();
    let prepare = DraftSnapshot {
        edit_generation: 5,
        form: autosave.clone(),
    };
    lane.queue(prepare.clone());
    let saved_old = drafts.save(&owner, expected, active.form).unwrap();
    lane.complete_success(&saved_old).unwrap();
    assert!(!lane.is_idle_durable(&prepare.form));
    let (expected, active) = lane.start_next().unwrap();
    let saved_prepare = drafts.save(&owner, expected, active.form).unwrap();
    lane.complete_success(&saved_prepare).unwrap();
    assert!(lane.is_idle_durable(&prepare.form));
    assert_eq!(drafts.load(&owner).unwrap().form, prepare.form);
}

#[test]
fn provider_read_failure_after_drain_does_not_poison_explicit_retry() {
    let mut drafts = Drafts::new();
    let owner = Drafts::shared();
    let form = form("retry after read failure", "preserved");
    let mut lane = DraftSaveLane::new();
    lane.queue(DraftSnapshot {
        edit_generation: 1,
        form: form.clone(),
    });
    let (expected, active) = lane.start_next().unwrap();
    let saved = drafts.save(&owner, expected, active.form).unwrap();
    lane.complete_success(&saved).unwrap();
    let provider_result: Result<(), String> = Err("read-only preparation failed".into());
    assert!(provider_result.is_err());
    assert!(lane.is_idle_durable(&form));

    lane.queue(DraftSnapshot {
        edit_generation: 2,
        form: form.clone(),
    });
    assert!(lane.start_next().is_none());
    assert!(lane.is_idle_durable(&form));
    assert_eq!(drafts.load(&owner).unwrap().form, form);
}

#[test]
fn close_barrier_queues_latest_dirty_form_without_waiting_for_debounce() {
    let mut drafts = Drafts::new();
    let owner = Drafts::shared();
    let form = CreationForm {
        target_repository: repository("owner", "repo", "alice"),
        base_branch: String::new(),
        source_repository: repository("owner", "repo", "alice"),
        source_branch: String::new(),
        local_branch: None,
        title: String::new(),
        body: "last keystroke immediately before close".into(),
        draft: false,
    };
    let mut lane = DraftSaveLane::new();
    lane.queue(DraftSnapshot {
        edit_generation: 99,
        form: form.clone(),
    });
    let (expected, active) = lane.start_next().unwrap();
    let saved = drafts.save(&owner, expected, active.form).unwrap();
    lane.complete_success(&saved).unwrap();
    assert!(lane.is_idle_durable(&form));
    assert_eq!(drafts.load(&owner).unwrap().form, form);
}

fn opened() -> (PrCreationDialog, DraftOwner) {
    let mut dialog =
        PrCreationDialog::new(vec![repository("owner", "repo", "alice")], None, "life".into());
    for effect in dialog.take_effects() {
        if let DialogEffect::Load {
            lifetime,
            generation,
        } = effect
        {
            dialog.complete_load(&lifetime, generation, Ok((None, Vec::new())));
        }
    }
    dialog.take_effects();
    assert_eq!(dialog.state, DialogState::Editing);
    let owner = DraftOwner::for_account(&repository("owner", "repo", "alice").account).unwrap();
    (dialog, owner)
}

#[test]
fn unavailable_saved_repository_can_close_without_overwriting_its_draft() {
    let mut drafts = Drafts::new();
    let owner = Drafts::shared();
    let mut form = form("Retained removed-repository draft", "Keep this text");
    form.target_repository = repository("removed", "repo", "alice");
    form.source_repository = repository("removed", "repo", "alice");
    drafts.save(&owner, None, form.clone()).unwrap();
    let mut dialog =
        PrCreationDialog::new(vec![repository("owner", "repo", "alice")], None, "life".into());
    for effect in dialog.take_effects() {
        if let DialogEffect::Load {
            lifetime,
            generation,
        } = effect
        {
            let owner =
                DraftOwner::for_account(&repository("owner", "repo", "alice").account).unwrap();
            let record = drafts.load(&owner);
            assert!(record.is_some());
            dialog.complete_load(&lifetime, generation, Ok((record, Vec::new())));
        }
    }
    assert!(matches!(dialog.state, DialogState::Unavailable));
    assert!(dialog.draft_lane.durable_generation.is_none());
    dialog.cancel();
    assert!(dialog.is_closed());
    assert!(!dialog
        .take_effects()
        .iter()
        .any(|effect| matches!(effect, DialogEffect::Save { .. })));
    assert_eq!(drafts.load(&owner).unwrap().form, form);
}

#[test]
fn recovery_open_saves_latest_text_and_emits_clicked_historical_pr() {
    let (mut dialog, owner) = opened();
    let mut drafts = Drafts::new();
    let request = request("open-history", "attempt-history", "title", 'a');
    let historical = acknowledged(&request);
    let mut latest = historical.clone();
    latest.pull_request.pull_request += 1;
    dialog.body = "final keystroke before opening history".into();
    dialog.form_changed();
    dialog.take_effects();
    dialog.state = DialogState::Acknowledged(latest);
    dialog.request_open_acknowledgement(historical.clone());
    assert!(!dialog.closed, "must await the latest durable save");
    assert!(dialog.close_after_save);
    for effect in dialog.take_effects() {
        if let DialogEffect::Save {
            lifetime,
            generation,
            expected,
            form,
        } = effect
        {
            let saved = drafts.save(&owner, expected, form);
            dialog.complete_save(&lifetime, generation, saved);
        }
    }
    assert!(dialog.closed);
    assert_eq!(
        drafts.load(&owner).unwrap().form.body,
        "final keystroke before opening history"
    );
    let opened: Vec<_> = dialog
        .take_effects()
        .into_iter()
        .filter_map(|effect| match effect {
            DialogEffect::Open { acknowledgement } => Some(acknowledgement),
            _ => None,
        })
        .collect();
    assert_eq!(opened, vec![historical]);
}

#[test]
fn recovery_open_refuses_busy_or_failed_save_without_detaching_text() {
    let (mut dialog, _owner) = opened();
    let request = request("open-history", "attempt-history", "title", 'a');
    let historical = acknowledged(&request);
    dialog.body = "unsaved recovery draft".into();
    dialog.form_changed();
    dialog.take_effects();
    dialog.state = DialogState::Creating;
    dialog.request_open_acknowledgement(historical.clone());
    assert!(!dialog.closed);
    assert!(!dialog.close_after_save);
    assert!(dialog.recovery_open_acknowledgement.is_none());
    dialog.state = DialogState::Editing;
    dialog.request_open_acknowledgement(historical);
    for effect in dialog.take_effects() {
        if let DialogEffect::Save {
            lifetime,
            generation,
            ..
        } = effect
        {
            dialog.complete_save(&lifetime, generation, Err("corrupt original".into()));
        }
    }
    assert!(!dialog.closed);
    assert!(!dialog.close_after_save);
    assert_eq!(
        dialog.current_form().unwrap().body,
        "unsaved recovery draft"
    );
    assert!(dialog
        .notice
        .as_deref()
        .unwrap()
        .contains("could not be made durable"));
    assert!(!dialog
        .take_effects()
        .iter()
        .any(|effect| matches!(effect, DialogEffect::Open { .. })));
}

#[test]
fn form_and_frozen_witness_cover_account_repositories_branches_text_draft_and_oids() {
    let form = CreationForm {
        target_repository: repository("owner", "repo", "alice"),
        base_branch: "main".into(),
        source_repository: repository("forker", "fork", "alice"),
        source_branch: "topic".into(),
        local_branch: Some("different".into()),
        title: "title".into(),
        body: "body".into(),
        draft: true,
    };
    let mut changed = form.clone();
    changed.body.push('!');
    assert_ne!(form, changed);
    let mut first = preparation("title", 'b');
    first.input = form.input();
    let mut second = first.clone();
    second.observed_source_head_sha = "c".repeat(40);
    assert_ne!(first, second);
    assert!(form.same(&form) && !form.same(&changed));
    assert!(first.same(&first) && !first.same(&second));
}

#[test]
fn confirmation_disclosure_contains_the_exact_multiline_body() {
    let body = "Exact first line\n\n- exact list\n\tindented tail";
    let mut prepared = preparation("title", 'b');
    prepared.input.body = body.into();
    let frozen = FrozenCreation {
        visible_form: CreationForm {
            target_repository: prepared.input.target_repository.clone(),
            base_branch: prepared.input.base_branch.clone(),
            source_repository: prepared.input.source_repository.clone(),
            source_branch: prepared.input.source_branch.clone(),
            local_branch: prepared.input.local_branch.clone(),
            title: prepared.input.title.clone(),
            body: body.into(),
            draft: prepared.input.draft,
        },
        request: PullRequestCreationRequest {
            operation_id: "visible-operation".into(),
            attempt_id: "visible-attempt".into(),
            preparation: prepared,
        },
    };
    let details = confirmation_details(&frozen);
    assert!(details.ends_with(body));
    assert!(details.contains(&format!("Body (exact, {} bytes):", body.len())));
}

#[test]
fn source_target_account_and_form_validation_refuse_unpublished_shaped_inputs_before_admission() {
    let mut form = CreationForm {
        target_repository: repository("owner", "repo", "alice"),
        base_branch: "".into(),
        source_repository: repository("owner", "repo", "alice"),
        source_branch: "topic".into(),
        local_branch: None,
        title: "title".into(),
        body: "".into(),
        draft: false,
    };
    assert!(form.validate().is_err());
    form.base_branch = "main".into();
    form.source_repository.account.login = "mallory".into();
    assert!(form
        .validate()
        .unwrap_err()
        .contains("same explicitly selected"));
}

#[test]
fn late_callbacks_cannot_overwrite_newer_or_reopened_dialogs_and_channels_are_independent() {
    let old_lifetime = "dialog-old";
    let reopened_lifetime = "dialog-reopened";
    assert!(!callback_matches(reopened_lifetime, old_lifetime, 1, 1));
    assert!(!callback_matches(
        reopened_lifetime,
        reopened_lifetime,
        2,
        1
    ));
    assert!(callback_matches(reopened_lifetime, reopened_lifetime, 2, 2));

    let choice_generation = 4;
    let save_generation = 19;
    assert!(callback_matches(
        reopened_lifetime,
        reopened_lifetime,
        choice_generation,
        4,
    ));
    assert_eq!(save_generation, 19);
}

#[test]
fn markdown_body_and_dirty_text_are_valid_durable_form_content() {
    let mut form = form(
        "title",
        "First paragraph.\n\n- retained dirty line\n\tindented",
    );
    form.draft = true;
    form.validate().unwrap();
}

#[test]
fn identities_name_the_process_and_their_entropy() {
    let first = random_identity("operation", 41, &vec![0x00, 0xab, 0xff]);
    assert_eq!(first, "operation-41-00abff");
    let second = random_identity("operation", 41, &vec![0x01, 0xab, 0xff]);
    assert_ne!(first, second);
}

#[test]
fn drafts_of_another_version_are_refused() {
    let owner = Drafts::shared();
    let error = owner
        .validate_draft(&DraftRecord {
            version: 99,
            generation: 1,
            form: form("title", "body"),
        })
        .unwrap_err();
    assert!(error.contains("unsupported version"), "{error}");
}

#[test]
fn an_admission_is_known_by_its_receipt() {
    let request = request("op", "attempt", "title", 'b');
    let key = admission_key(&request, &context(&request)).unwrap();
    let receipt = admission_receipt(&key, &request, &context(&request));
    assert_eq!(receipt.operation_id, "op");
    assert_eq!(receipt.attempt_id, "attempt");
    assert_eq!(receipt.durable_record_id.len(), 64);
    let mut other = request.clone();
    other.attempt_id = "second".into();
    assert_ne!(
        admission_receipt(&key, &other, &context(&other)).durable_record_id,
        receipt.durable_record_id
    );
    let mut wrong = context(&request);
    wrong.action = "delete-pr".into();
    assert!(admission_key(&request, &wrong).is_err());
    let mut absent = context(&request);
    absent.request = ContextRequest::Absent;
    assert!(admission_key(&request, &absent).is_err());
}

#[test]
fn a_terminal_is_recorded_once_and_needs_an_admission() {
    let request = request("op", "attempt", "title", 'b');
    let mut journal = journal_for(&request);
    assert!(journal
        .record_terminal(
            &request,
            &MutationTerminalRecord::Uncertain {
                reason: "early".into()
            }
        )
        .is_err());
    journal.admit_attempt(&request, &context(&request)).unwrap();
    assert!(journal.attempts[0].status.unresolved());
    journal
        .record_terminal(
            &request,
            &MutationTerminalRecord::Acknowledged {
                acknowledgement: acknowledgement(&request),
            },
        )
        .unwrap();
    assert!(!journal.attempts[0].status.unresolved());
    assert!(matches!(
        journal.attempts[0].status,
        CreationAttemptStatus::Acknowledged { .. }
    ));
    assert!(journal.validate_opened(&journal.key, &journal.key.component()).is_ok());
    assert!(journal.validate_opened(&journal.key, "elsewhere").is_err());
}

#[test]
fn a_pull_request_is_prepared_confirmed_and_created_in_turn() {
    let (mut dialog, owner) = opened();
    let mut drafts = Drafts::new();
    dialog.base_branch = "main".into();
    dialog.source_branch = "topic".into();
    dialog.title = "title".into();
    dialog.body = "body".into();
    dialog.form_changed();
    dialog.take_effects();
    dialog.prepare();
    let mut rounds = 0;
    loop {
        rounds += 1;
        assert!(rounds < 10);
        let effects = dialog.take_effects();
        if effects.is_empty() {
            break;
        }
        for effect in effects {
            match effect {
                DialogEffect::Save {
                    lifetime,
                    generation,
                    expected,
                    form,
                } => {
                    let saved = drafts.save(&owner, expected, form);
                    dialog.complete_save(&lifetime, generation, saved);
                }
                DialogEffect::Prepare {
                    lifetime,
                    generation,
                    edit_generation,
                    form,
                } => {
                    let mut prepared = preparation("title", 'b');
                    prepared.input = form.input();
                    dialog.complete_prepare(
                        &lifetime,
                        generation,
                        edit_generation,
                        form,
                        Ok(prepared),
                        Ok("operation".into()),
                        Ok("attempt".into()),
                    );
                }
                _ => {}
            }
        }
    }
    assert_eq!(dialog.state, DialogState::Confirmation);
    let panel = render(&dialog).expect("open");
    assert!(panel.confirmation.is_some() && panel.created.is_none());
    assert_eq!(
        panel.confirmation.map(|shown| shown.heading).as_deref(),
        Some("Confirm immutable PR creation")
    );
    dialog.confirm();
    assert_eq!(dialog.state, DialogState::Creating);
    let (lifetime, generation, request) = dialog
        .take_effects()
        .into_iter()
        .find_map(|effect| match effect {
            DialogEffect::Create {
                lifetime,
                generation,
                request,
            } => Some((lifetime, generation, request)),
            _ => None,
        })
        .expect("dispatch");
    assert_eq!(request.operation_id, "operation");
    dialog.complete_create(
        &lifetime,
        generation,
        ProviderMutationOutcome::Acknowledged {
            acknowledgement: acknowledged(&request),
        },
        Ok(Vec::new()),
    );
    assert!(matches!(dialog.state, DialogState::Acknowledged(_)));
    assert!(render(&dialog).expect("open").created.is_some());
}

#[test]
fn choices_are_named_and_bounded() {
    let rows = repository_choices(&vec![repository("o", "r", "a")], true, 0, false);
    assert_eq!(rows[0].id, "creation-repository-true-0");
    assert_eq!(rows[0].label, "o/r · a");
    assert!(rows[0].selected && rows[0].enabled);
    let many = ProviderChoiceSet {
        values: (0..30)
            .map(|index| ProviderChoice {
                remote_id: None,
                name: format!("b{index}"),
            })
            .collect(),
        complete: false,
        notice: None,
    };
    let panel = branch_choices("base", &Some(many), true);
    assert_eq!(panel.choices.len(), 24);
    assert!(panel.truncated.unwrap().starts_with("Showing 24 of 30"));
    assert!(panel.incomplete.unwrap().starts_with("Branch choices are incomplete"));
    assert!(!panel.choices[0].enabled);
}

#[test]
fn a_moved_head_is_said_to_have_moved() {
    let request = request("op", "attempt", "title", 'b');
    let same = acknowledged(&request);
    assert!(render_created(&same).moved.is_none());
    assert_eq!(render_created(&same).open.label, "Open PR");
    let mut moved = same;
    moved.actual_head_sha = "c".repeat(40);
    assert!(render_created(&moved).moved.is_some());
}

#[test]
fn branch_choices_fill_the_form_while_they_are_current() {
    let (mut dialog, _owner) = opened();
    dialog.choose_repository(true, 0);
    let (lifetime, generation) = dialog
        .take_effects()
        .into_iter()
        .find_map(|effect| match effect {
            DialogEffect::Choices {
                lifetime,
                generation,
                target,
                source,
                shared,
            } => {
                assert_eq!(shared, target == source);
                Some((lifetime, generation))
            }
            _ => None,
        })
        .expect("choices are read");
    let set = |name: &str| ProviderChoiceSet {
        values: vec![ProviderChoice {
            remote_id: None,
            name: name.into(),
        }],
        complete: true,
        notice: None,
    };
    dialog.complete_choices(&lifetime, generation + 1, Ok((set("stale"), set("stale"))));
    assert!(dialog.choices.target.is_none());
    dialog.complete_choices(&lifetime, generation, Ok((set("main"), set("topic"))));
    assert_eq!(
        dialog.choices.target.as_ref().expect("read").values[0].name,
        "main"
    );
    assert!(dialog.use_branch(true, "main".into()));
    assert_eq!(dialog.base_branch, "main");
    let draft = dialog.draft;
    dialog.toggle_draft();
    assert_eq!(dialog.draft, !draft);
}

#[test]
fn a_debounced_edit_is_saved_unless_another_followed() {
    let (mut dialog, _owner) = opened();
    dialog.body = "first".into();
    dialog.form_changed();
    let first = dialog.edit_generation;
    dialog.body = "second".into();
    dialog.form_changed();
    dialog.take_effects();
    dialog.complete_debounce("life", first);
    assert!(dialog.take_effects().is_empty());
    dialog.complete_debounce("life", dialog.edit_generation);
    assert!(dialog.take_effects().iter().any(
        |effect| matches!(effect, DialogEffect::Save { form, .. } if form.body == "second")
    ));
}

#[test]
fn a_synthetic_outcome_needs_a_preparation() {
    let (mut dialog, _owner) = opened();
    assert_eq!(
        dialog.install_synthetic_acknowledgement(),
        Err("smoke has no read-only preparation".into())
    );
    let prepared = request("op", "attempt", "title", 'b');
    dialog.frozen = Some(FrozenCreation {
        visible_form: form("title", "body"),
        request: prepared,
    });
    dialog.install_synthetic_acknowledgement().unwrap();
    match &dialog.state {
        DialogState::Acknowledged(shown) => {
            assert_eq!(shown.url, "https://github.com/Owner/Repo/pull/4242");
            assert_eq!(shown.actual_head_sha, "f".repeat(40));
            assert_eq!(shown.reviewed_head_sha, "b".repeat(40));
            assert!(render_created(shown).moved.is_some());
        }
        other => panic!("{other:?}"),
    }
}

#[test]
fn disclosures_are_flipped_and_a_confirmation_is_left_first() {
    let (mut dialog, _owner) = opened();
    assert!(dialog.attempts_disclosed && !dialog.details_disclosed);
    dialog.toggle_attempts();
    dialog.toggle_details();
    assert!(!dialog.attempts_disclosed && dialog.details_disclosed);
    dialog.frozen = Some(FrozenCreation {
        visible_form: form("title", "body"),
        request: request("op", "attempt", "title", 'b'),
    });
    dialog.state = DialogState::Confirmation;
    let draft = dialog.draft;
    dialog.click_draft();
    assert_eq!(dialog.draft, draft);
    dialog.leave();
    assert_eq!(dialog.state, DialogState::Editing);
    assert!(!dialog.is_closed());
    dialog.click_draft();
    assert_eq!(dialog.draft, !draft);
    dialog.open_created();
    assert!(!dialog.is_closed());
    assert_eq!(
        render(&dialog).expect("open").form.expect("form").title_placeholder,
        "Pull request title"
    );
}

#[test]
fn a_form_of_another_account_is_refused_before_the_store_is_read() {
    let owner = DraftOwner::for_account(&Account {
        host: "github.com".into(),
        login: "somebody-else".into(),
    })
    .unwrap();
    assert_eq!(
        owner.validate_form(&form("title", "body")),
        Err("Creation draft account differs from its storage lane; no text was overwritten.".into())
    );
}

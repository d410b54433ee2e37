use cibergit::clock::{Moment, ServerDelay};
use cibergit::domain::{Account, Repository};
use cibergit::notifications::account::AccountViewState;
use cibergit::notifications::batches::{
    combine_batches, ProviderNotificationBatch, ProviderNotificationObservation,
};
use cibergit::notifications::controller::{
    AdmissionCompletion, AdmissionToken, AdmissionWork, ConsentCompletion, ConsentWork,
    MarkReadCompletion, MarkToken, NotificationBootstrap, NotificationController,
};
use cibergit::notifications::model::{
    account_key, repository_scope, schedule_key, stable_event_tag, system_notification,
    IncompleteNotificationCandidate, NotificationAlertKind, NotificationConditionalCache,
    NotificationEventIdentity, NotificationEvidence, NotificationPollDirective,
    NotificationPullRequest,
    NotificationRepositoryScope, NotificationSnapshot, ProviderNotificationEvent,
    PullRequestUnreadSummary, RepositoryNotificationCompleteness,
};
use cibergit::notifications::panel::{candidate_row, completeness_row, event_row};
use cibergit::text::join;
use cibergit::notifications::polling::{
    empty_snapshot, ControllerToken, NotificationObservationRead, NotificationReconcileOutcome,
    PollCompletion, PollRun, PollWork,
};
use cibergit::notifications::registry::{
    after_attempt, is_enabled, reserve_for_delivery, routes, set_enabled, validate_identity_part,
    validate_preference_key, validate_registry_file, validate_tag, CasStep, PersistedRoute,
    RegistryFile, MAX_RETAINED_ROUTES, MAX_RETAINED_TAGS,
};
use cibergit::notifications::selection::{prepare, project_snapshot, selection_key};
use cibergit::text_map::TextMap;

fn account(login: &str) -> Account {
    Account {
        host: "github.com".into(),
        login: login.into(),
    }
}

fn repo(login: &str, index: usize) -> Repository {
    Repository {
        host: "github.com".into(),
        owner: "octo".into(),
        name: format!("repo-{index}"),
        account: account(login),
        local_path: None,
    }
}

fn target(login: &str, pr: u64) -> NotificationPullRequest {
    NotificationPullRequest {
        provider: "github".into(),
        host: "github.com".into(),
        account: login.into(),
        owner: "octo".into(),
        repository: "repo-0".into(),
        pull_request: pr,
    }
}

fn event(login: &str, id: &str, pr: u64) -> ProviderNotificationEvent {
    ProviderNotificationEvent {
        identity: NotificationEventIdentity {
            target: target(login, pr),
            source: "Timeline".into(),
            remote_event_id: id.into(),
        },
        occurred_at: "2026-09-13T10:00:00Z".into(),
        actor: Some("reviewing-user".into()),
        alert_kind: NotificationAlertKind::ReviewRequest,
        summary: "Review requested".into(),
        url: format!("https://github.com/octo/repo-0/pull/{pr}"),
        evidence: NotificationEvidence::ReviewRequested {
            timeline_event_id: id.into(),
            requested_reviewer: login.into(),
        },
    }
}

fn batch(login: &str, events: Vec<ProviderNotificationEvent>, full: bool) -> ProviderNotificationBatch {
    let repository = repo(login, 0);
    ProviderNotificationBatch {
        account: account(login),
        observed_at_unix_ms: 1,
        observations: vec![ProviderNotificationObservation {
            provider_notification_id: "thread".into(),
            provider_reason: "review_requested".into(),
            notification_updated_at: "2026-09-13T10:00:00Z".into(),
            target: target(login, 7),
            events,
        }],
        incomplete_candidates: Vec::new(),
        full_snapshot: full,
        repositories: vec![RepositoryNotificationCompleteness {
            target: repository_scope(&repository),
            complete: true,
            reasons: Vec::new(),
        }],
        complete: true,
        notices: Vec::new(),
    }
}

fn at(secs: u64) -> Moment {
    Moment { secs, nanos: 5 }
}

const NOW: Moment = Moment { secs: 1000, nanos: 5 };

fn due(logins: &[&str]) -> Vec<String> {
    logins.iter().map(|login| account_key(&account(login))).collect()
}

fn everyone() -> Vec<String> {
    due(&["alice", "bob"])
}

fn booted() -> NotificationController {
    let mut controller = NotificationController::new(17);
    let stored = NotificationBootstrap {
        preferences: TextMap::new(),
        routes: Vec::new(),
    };
    assert!(controller.complete_bootstrap(17, Ok(stored)));
    controller
}

fn begin_at(
    controller: &mut NotificationController,
    repositories: &[Repository],
    now: Moment,
    due: &Vec<String>,
) -> Vec<PollWork> {
    controller.begin_polls_when_at(&repositories.to_vec(), now, due)
}

fn begin(controller: &mut NotificationController, repositories: &[Repository]) -> Vec<PollWork> {
    begin_at(controller, repositories, NOW, &everyone())
}

fn directive(interval: Option<ServerDelay>, limit: Option<ServerDelay>) -> NotificationPollDirective {
    NotificationPollDirective {
        x_poll_interval: interval,
        rate_limit: limit,
    }
}

fn completed(token: ControllerToken, login: &str, snapshot: NotificationSnapshot) -> PollCompletion {
    PollCompletion {
        token,
        account: account(login),
        snapshot,
        newly_admitted: Vec::new(),
        error: None,
        cache: NotificationConditionalCache::empty(),
        poll: NotificationPollDirective::none(),
    }
}

fn nothing() -> NotificationSnapshot {
    empty_snapshot(String::new())
}

fn snapshot_of(version: u64, events: Vec<ProviderNotificationEvent>) -> NotificationSnapshot {
    NotificationSnapshot {
        state_version: version,
        unread_by_pull_request: if events.is_empty() {
            Vec::new()
        } else {
            vec![PullRequestUnreadSummary {
                target: events[0].identity.target.clone(),
                unread_events: events,
                unknown_candidates: Vec::new(),
            }]
        },
        repository_completeness: Vec::new(),
        incomplete_candidates: Vec::new(),
        notices: Vec::new(),
    }
}

fn state<'a>(controller: &'a NotificationController, login: &str) -> &'a AccountViewState {
    controller.accounts.get(&account_key(&account(login))).unwrap()
}

fn replace_state(controller: &mut NotificationController, login: &str, change: impl FnOnce(&mut AccountViewState)) {
    let key = account_key(&account(login));
    let mut state = controller.accounts.remove(&key).unwrap_or_else(AccountViewState::unknown);
    change(&mut state);
    controller.accounts.insert(key, state);
}

/// The registry as a value in place of the stored file.
struct Store {
    file: RegistryFile,
}

impl Store {
    fn new() -> Self {
        Store { file: RegistryFile::empty() }
    }

    fn taken(&mut self) -> RegistryFile {
        std::mem::replace(&mut self.file, RegistryFile::empty())
    }

    fn run_consent(&mut self, work: ConsentWork) -> ConsentCompletion {
        let file = self.taken();
        self.file = set_enabled(file, &work.account, work.enabled).unwrap();
        validate_registry_file(&self.file).unwrap();
        ConsentCompletion {
            token: work.token,
            account: work.account,
            enabled: work.enabled,
            result: Ok(()),
        }
    }

    fn run_admission(&mut self, work: AdmissionWork) -> AdmissionCompletion {
        let file = self.taken();
        let (after, notifications) =
            reserve_for_delivery(file, 9, &work.account, &work.events).unwrap();
        validate_registry_file(&after).unwrap();
        self.file = after;
        AdmissionCompletion {
            token: work.token,
            notifications,
            result: Ok(()),
        }
    }
}

#[test]
fn five_plus_repositories_are_chunked_without_omission_and_one_lane_per_account() {
    let mut controller = booted();
    let repositories = (0..12).map(|index| repo("alice", index)).collect::<Vec<_>>();
    let work = begin(&mut controller, &repositories);
    assert_eq!(work.len(), 1);
    assert_eq!(
        work[0].chunks.iter().map(Vec::len).collect::<Vec<_>>(),
        [5, 5, 2]
    );
    assert!(begin(&mut controller, &repositories).is_empty());
}

#[test]
fn rate_limit_stops_later_chunks_and_reaches_poll_completion() {
    let mut controller = booted();
    let repositories = (0..6).map(|index| repo("alice", index)).collect::<Vec<_>>();
    let work = begin(&mut controller, &repositories).pop().unwrap();
    assert_eq!(work.chunks.len(), 2);
    let mut calls = 0;
    let mut run = PollRun::start(work);
    while let Some(index) = run.next_chunk() {
        calls += 1;
        let chunk = &run.chunks[index];
        assert_eq!(chunk.len(), 5);
        let mut response = batch("alice", Vec::new(), true);
        response.repositories = chunk
            .iter()
            .map(|repository| RepositoryNotificationCompleteness {
                target: repository_scope(repository),
                complete: false,
                reasons: vec!["server rate limit".into()],
            })
            .collect();
        response.complete = false;
        let cache = run.cache.clone();
        let poll = directive(None, Some(ServerDelay::Seconds(90)));
        run.record(
            Ok(NotificationObservationRead {
                batch: response,
                cache,
                poll,
            }),
            poll,
        );
    }
    assert_eq!(calls, 1, "later chunks must not dispatch after rate limiting");
    let combined = run.combine().unwrap();
    let completion = run.finish(NotificationReconcileOutcome {
        state_version: 1,
        unread_by_pull_request: Vec::new(),
        repository_completeness: combined.repositories,
        incomplete_candidates: combined.incomplete_candidates,
        notices: combined.notices,
        newly_admitted_alerts: Vec::new(),
    });
    assert_eq!(completion.poll.rate_limit, Some(ServerDelay::Seconds(90)));
    assert!(completion.failed());
    assert_eq!(completion.snapshot.repository_completeness.len(), 6);
    assert!(completion
        .snapshot
        .repository_completeness
        .iter()
        .all(|repository| !repository.complete));
    assert_eq!(
        completion.error.as_deref(),
        Some("1 of 2 bounded repository batches failed; successful batches were reconciled as partial and cached unread was retained for failures")
    );
}

#[test]
fn polling_respects_each_accounts_due_time_and_invalidates_removed_selection() {
    let mut controller = booted();
    let repositories = [repo("alice", 0), repo("bob", 0)];
    let work = begin_at(&mut controller, &repositories, NOW, &due(&["alice"]));
    assert_eq!(work.len(), 1);
    assert_eq!(work[0].account.login, "alice");
    assert!(!state(&controller, "bob").selection.is_empty());
    let completion = completed(
        work[0].token.clone(),
        "alice",
        empty_snapshot("old selection".into()),
    );
    assert!(controller.accepts_poll(&completion));
    assert!(begin_at(&mut controller, &[repo("bob", 0)], NOW, &due(&[])).is_empty());
    assert!(!controller.accepts_poll(&completion));
    assert!(begin_at(&mut controller, &repositories, NOW, &due(&[])).is_empty());
    assert!(
        !controller.accepts_poll(&completion),
        "returning to the same selection cannot revive an old completion"
    );
}

#[test]
fn server_poll_interval_blocks_timer_focus_and_manual_until_deadline() {
    let mut controller = booted();
    let work = begin(&mut controller, &[repo("alice", 0)]).pop().unwrap();
    let mut completion = completed(work.token, "alice", nothing());
    completion.poll = directive(Some(ServerDelay::Seconds(120)), None);
    assert!(controller.release_poll_at(&completion, NOW, Some(50)));
    assert_eq!(
        state(&controller, "alice").server_gate.notice(NOW),
        Some("Notification refresh is deferred by GitHub's polling interval.")
    );
    for label in ["timer", "focus", "manual"] {
        assert!(
            begin_at(&mut controller, &[repo("alice", 0)], at(1119), &everyone()).is_empty(),
            "{label} must not bypass the server gate"
        );
    }
    let next = begin_at(&mut controller, &[repo("alice", 0)], at(1120), &everyone())
        .pop()
        .unwrap();
    let mut overflow = completed(next.token, "alice", nothing());
    overflow.poll = directive(Some(ServerDelay::Seconds(u64::MAX)), None);
    assert!(controller.release_poll_at(&overflow, at(1120), Some(50)));
    assert!(state(&controller, "alice")
        .server_gate
        .notice(at(1120))
        .is_some_and(|notice| notice.contains("paused")));
    assert!(
        begin_at(&mut controller, &[repo("alice", 0)], at(4600), &everyone()).is_empty(),
        "an unrepresentable server delay suspends instead of shortening"
    );
}

#[test]
fn stale_selection_applies_only_matching_account_rate_gate() {
    let mut controller = booted();
    let first = begin(&mut controller, &[repo("alice", 0), repo("bob", 0)])
        .into_iter()
        .find(|work| work.account.login == "alice")
        .unwrap();
    assert!(begin_at(
        &mut controller,
        &[repo("alice", 1), repo("bob", 0)],
        NOW,
        &due(&[])
    )
    .is_empty());
    let mut stale = completed(first.token, "alice", nothing());
    stale.error = Some("rate limited".into());
    stale.poll = directive(
        Some(ServerDelay::Seconds(600)),
        Some(ServerDelay::Seconds(90)),
    );
    assert!(controller.release_poll_at(&stale, NOW, Some(50)));
    assert!(!controller.accepts_poll(&stale));
    assert_eq!(
        state(&controller, "alice").server_gate.notice(NOW),
        Some("Notification refresh is deferred by GitHub rate limiting.")
    );
    assert!(begin_at(&mut controller, &[repo("alice", 1)], at(1089), &everyone()).is_empty());
    assert_eq!(
        begin_at(&mut controller, &[repo("alice", 1)], at(1090), &everyone()).len(),
        1,
        "stale X-Poll-Interval must not install, but matching rate delay must"
    );
}

#[test]
fn successful_completion_does_not_reset_server_deadline() {
    let mut controller = booted();
    let work = begin(&mut controller, &[repo("alice", 0)]).pop().unwrap();
    let mut completion = completed(work.token, "alice", nothing());
    completion.poll = directive(Some(ServerDelay::Seconds(120)), None);
    assert!(controller.complete_poll(completion, NOW, Some(50)).is_none());
    assert!(
        begin_at(&mut controller, &[repo("alice", 0)], at(1119), &everyone()).is_empty(),
        "a successful completion may clear local backoff but not the server deadline"
    );
}

#[test]
fn expired_absolute_reset_is_zero_and_never_shortens_a_later_floor() {
    let wall_epoch = 10_000;
    let mut controller = booted();
    let work = begin(&mut controller, &[repo("alice", 0)]).pop().unwrap();
    let mut expired = completed(work.token, "alice", nothing());
    expired.error = Some("rate limited".into());
    expired.poll = directive(None, Some(ServerDelay::UntilUnixSeconds(10_001)));
    assert!(controller.release_poll_at(&expired, NOW, Some(wall_epoch + 2)));
    assert!(state(&controller, "alice").server_gate.notice(NOW).is_none());
    assert_eq!(
        begin_at(&mut controller, &[repo("alice", 0)], NOW, &everyone()).len(),
        1,
        "a reset that expired during response processing must not suspend polling"
    );

    let mut controller = booted();
    let work = begin(&mut controller, &[repo("alice", 0)]).pop().unwrap();
    let mut mixed = completed(work.token, "alice", nothing());
    mixed.error = Some("rate limited".into());
    mixed.poll = directive(
        Some(ServerDelay::Seconds(120)),
        Some(ServerDelay::UntilUnixSeconds(10_001)),
    );
    assert!(controller.release_poll_at(&mixed, NOW, Some(wall_epoch + 2)));
    assert!(begin_at(&mut controller, &[repo("alice", 0)], at(1119), &everyone()).is_empty());
    assert_eq!(
        begin_at(&mut controller, &[repo("alice", 0)], at(1120), &everyone()).len(),
        1,
        "an expired reset must not shorten another server floor"
    );
}

#[test]
fn partial_success_retains_failure_backoff() {
    let token = ControllerToken {
        consent_generation: 0,
        lifetime: 1,
        account_key: account_key(&account("alice")),
        selection: String::new(),
        generation: 1,
    };
    let mut completion = completed(token, "alice", nothing());
    completion.snapshot.repository_completeness = vec![RepositoryNotificationCompleteness {
        target: repository_scope(&repo("alice", 0)),
        complete: false,
        reasons: vec!["hydration bound reached".into()],
    }];
    assert!(
        completion.failed(),
        "an HTTP success with incomplete evidence must back off"
    );
    completion.snapshot.repository_completeness[0].complete = true;
    assert!(!completion.failed());
}

#[test]
fn removed_repository_is_hidden_from_fresh_poll_and_mark_without_erasing_unread() {
    let mut controller = booted();
    let alice = account("alice");
    let stored = snapshot_of(3, vec![event("alice", "retained", 7)]);
    let work = begin(&mut controller, &[repo("alice", 1)]).pop().unwrap();
    controller.complete_poll(completed(work.token, "alice", stored.clone()), NOW, None);
    assert_eq!(controller.unread_count(), 0);
    controller.toggle_open();
    assert!(controller.begin_mark_displayed(&alice).is_none());
    let of_alice = state(&controller, "alice");
    let mark = MarkReadCompletion {
        token: MarkToken {
            lifetime: controller.lifetime,
            account_key: account_key(&alice),
            selection: of_alice.selection.clone(),
            selection_generation: of_alice.selection_generation,
            generation: of_alice.mark_generation,
        },
        account: alice.clone(),
        result: Ok(stored.clone()),
    };
    assert!(controller.complete_mark_displayed(mark));
    assert_eq!(controller.unread_count(), 0);
    assert_eq!(
        stored.unread_by_pull_request[0].unread_events.len(),
        1,
        "projection must preserve durable unread for re-selection"
    );
}

#[test]
fn mark_completion_cannot_reappear_after_selection_away_and_back() {
    let mut controller = booted();
    let alice = account("alice");
    begin(&mut controller, &[repo("alice", 0)]);
    let of_alice = state(&controller, "alice");
    let completion = MarkReadCompletion {
        token: MarkToken {
            lifetime: controller.lifetime,
            account_key: account_key(&alice),
            selection: of_alice.selection.clone(),
            selection_generation: of_alice.selection_generation,
            generation: of_alice.mark_generation,
        },
        account: alice.clone(),
        result: Ok(empty_snapshot("stale mark".into())),
    };
    begin(&mut controller, &[repo("alice", 1)]);
    begin(&mut controller, &[repo("alice", 0)]);
    assert!(!controller.complete_mark_displayed(completion));
    assert!(state(&controller, "alice").snapshot.is_none());
}

#[test]
fn selection_change_keeps_the_existing_poll_lane_until_its_completion() {
    let mut controller = booted();
    let first = begin(&mut controller, &[repo("alice", 0)]).pop().unwrap();
    assert!(
        begin(&mut controller, &[repo("alice", 1)]).is_empty(),
        "old read still owns the account lane"
    );
    let completion = completed(first.token, "alice", nothing());
    assert!(!controller.accepts_poll(&completion));
    assert!(controller.release_poll_at(&completion, NOW, None));
    let second = begin(&mut controller, &[repo("alice", 1)]).pop().unwrap();
    assert_eq!(second.chunks[0][0].name, "repo-1");
    assert!(
        !controller.release_poll_at(&completion, NOW, None),
        "duplicate old reply cannot release the replacement lane"
    );
    assert!(begin(&mut controller, &[repo("alice", 1)]).is_empty());
}

#[test]
fn enabling_alerts_during_a_poll_does_not_catch_up_that_poll() {
    let mut controller = booted();
    let mut store = Store::new();
    let alice = account("alice");
    let first = begin(&mut controller, &[repo("alice", 0)]).pop().unwrap();
    let enable = controller.begin_consent(&alice, true).unwrap();
    assert!(controller.complete_consent(store.run_consent(enable)));
    let exact = event("alice", "before-enable", 7);
    let snapshot = snapshot_of(1, vec![exact.clone()]);
    let mut completion = completed(first.token, "alice", snapshot.clone());
    completion.newly_admitted = vec![exact.clone()];
    assert!(controller.complete_poll(completion, NOW, None).is_none());
    assert_eq!(
        controller.unread_count(),
        1,
        "in-app unread remains independent of OS consent"
    );
    let next = begin(&mut controller, &[repo("alice", 0)]).pop().unwrap();
    let mut completion = completed(next.token, "alice", snapshot);
    completion.newly_admitted = vec![exact];
    assert!(controller.complete_poll(completion, NOW, None).is_some());
}

#[test]
fn live_response_routes_expire_at_the_same_bound_as_persisted_routes() {
    let mut controller = booted();
    let mut store = Store::new();
    let alice = account("alice");
    let enable = controller.begin_consent(&alice, true).unwrap();
    assert!(controller.complete_consent(store.run_consent(enable)));
    begin(&mut controller, &[repo("alice", 0)]);
    let of_alice = state(&controller, "alice");
    let token = AdmissionToken {
        lifetime: controller.lifetime,
        account_key: account_key(&alice),
        selection: of_alice.selection.clone(),
        selection_generation: of_alice.selection_generation,
        consent_generation: of_alice.consent_generation,
    };
    let events = (0..=MAX_RETAINED_ROUTES)
        .map(|n| event("alice", &n.to_string(), 7))
        .collect::<Vec<_>>();
    let old_tag = stable_event_tag(&alice, &events[0]);
    let last_tag = stable_event_tag(&alice, events.last().unwrap());
    let completion = store.run_admission(AdmissionWork {
        token,
        account: alice.clone(),
        events,
    });
    assert!(controller.complete_admission(completion));
    assert_eq!(controller.routes.keys().len(), MAX_RETAINED_ROUTES);
    assert!(controller.route_for_tag(&old_tag).is_none());
    assert_eq!(controller.route_for_tag(&last_tag).unwrap().pull_request, 7);
    controller.take_system_notifications();
    let mut restarted = NotificationController::new(18);
    assert!(restarted.complete_bootstrap(
        18,
        Ok(NotificationBootstrap {
            preferences: TextMap::new(),
            routes: routes(&store.file),
        })
    ));
    assert!(restarted.route_for_tag(&old_tag).is_none());
    assert_eq!(
        restarted.route_for_tag(&last_tag),
        controller.route_for_tag(&last_tag)
    );
}

#[test]
fn registry_is_default_off_private_stable_and_deduplicates_across_restart() {
    let alice = account("alice");
    let file = RegistryFile::empty();
    assert!(!is_enabled(&file, &alice));
    let file = set_enabled(file, &alice, true).unwrap();
    let (file, first) =
        reserve_for_delivery(file, 1, &alice, &vec![event("alice", "1", 7)]).unwrap();
    assert_eq!(first.len(), 1);
    let (reopened, second) =
        reserve_for_delivery(file, 2, &alice, &vec![event("alice", "1", 7)]).unwrap();
    assert!(second.is_empty());
    let (tag, route) = routes(&reopened).pop().unwrap();
    assert_eq!(tag, first[0].notification.tag);
    assert_eq!(route.pull_request, 7);
    assert_eq!(reopened.revision, 3);
}

#[test]
fn stale_tokens_consent_disable_and_unknown_tags_fail_closed() {
    let mut controller = booted();
    let mut store = Store::new();
    let alice = account("alice");
    let enable = controller.begin_consent(&alice, true).unwrap();
    assert!(controller.complete_consent(store.run_consent(enable)));
    let stale = AdmissionToken {
        lifetime: controller.lifetime,
        account_key: account_key(&alice),
        selection: "removed".into(),
        selection_generation: 0,
        consent_generation: 0,
    };
    assert!(!controller.complete_admission(AdmissionCompletion {
        token: stale,
        notifications: Vec::new(),
        result: Ok(()),
    }));
    let disable = controller.begin_consent(&alice, false).unwrap();
    assert!(controller.take_system_notifications().is_empty());
    assert!(controller.complete_consent(store.run_consent(disable)));
    assert!(controller.route_for_tag("unknown").is_none());
}

#[test]
fn account_and_selection_identity_are_part_of_callback_authority() {
    let mut controller = booted();
    let first = begin(&mut controller, &[repo("alice", 0)]).pop().unwrap();
    let old_token = first.token.clone();
    replace_state(&mut controller, "alice", |state| {
        state.selection = selection_key(&vec![repo("alice", 1)]);
    });
    let mut completion = completed(old_token, "alice", snapshot_of(2, vec![event("alice", "1", 7)]));
    completion.newly_admitted = vec![event("alice", "1", 7)];
    assert!(controller.complete_poll(completion, NOW, None).is_none());
    assert_eq!(controller.unread_count(), 0);
}

#[test]
fn consent_is_captured_and_current_before_test_sink_dispatch() {
    let mut controller = booted();
    let mut store = Store::new();
    let alice = account("alice");
    let enable = controller.begin_consent(&alice, true).unwrap();
    assert!(controller.complete_consent(store.run_consent(enable)));
    let configured_selection = selection_key(&vec![repo("alice", 0)]);
    replace_state(&mut controller, "alice", |state| {
        state.selection = configured_selection.clone();
        state.selection_generation = 1;
    });
    let consent_generation = state(&controller, "alice").consent_generation;
    let late_completion = store.run_admission(AdmissionWork {
        token: AdmissionToken {
            lifetime: controller.lifetime,
            account_key: account_key(&alice),
            selection: configured_selection.clone(),
            selection_generation: 1,
            consent_generation,
        },
        account: alice.clone(),
        events: vec![event("alice", "late", 7)],
    });
    let disable = controller.begin_consent(&alice, false).unwrap();
    assert!(!controller.complete_admission(late_completion));
    assert!(controller.complete_consent(store.run_consent(disable)));
    assert!(controller.take_system_notifications().is_empty());

    let reenable = controller.begin_consent(&alice, true).unwrap();
    assert!(controller.complete_consent(store.run_consent(reenable)));
    let of_alice = state(&controller, "alice");
    let exact_event = event("alice", "fresh", 9);
    let expected_tag = stable_event_tag(&alice, &exact_event);
    let token = AdmissionToken {
        lifetime: controller.lifetime,
        account_key: account_key(&alice),
        selection: configured_selection,
        selection_generation: of_alice.selection_generation,
        consent_generation: of_alice.consent_generation,
    };
    let completion = store.run_admission(AdmissionWork {
        token,
        account: alice.clone(),
        events: vec![exact_event],
    });
    assert!(controller.complete_admission(completion));
    let calls = controller.take_system_notifications();
    assert_eq!(calls.len(), 1);
    assert_eq!(calls[0].notification.tag, expected_tag);
    assert_eq!(controller.route_for_tag(&expected_tag).unwrap().pull_request, 9);
}

#[test]
fn partial_chunk_failure_is_disclosed_without_full_baseline_claim() {
    let alice = account("alice");
    let chunks = vec![vec![repo("alice", 0)], vec![repo("alice", 1)]];
    let combined = combine_batches(
        &alice,
        &chunks,
        vec![(0, batch("alice", vec![event("alice", "1", 7)], true))],
        &vec![(1, "offline".into())],
    )
    .unwrap();
    assert!(!combined.full_snapshot);
    assert!(!combined.complete);
    assert_eq!(combined.repositories.len(), 2);
    assert!(combined.repositories.iter().any(|repository| {
        repository.target.repository == "repo-1"
            && !repository.complete
            && repository.reasons.iter().any(|reason| reason.contains("offline"))
    }));
}

#[test]
fn older_mark_completion_cannot_replace_a_newer_displayed_snapshot() {
    let mut controller = booted();
    let alice = account("alice");
    let selection = selection_key(&vec![repo("alice", 0)]);
    replace_state(&mut controller, "alice", |state| {
        state.account = Some(account("alice"));
        state.selection = selection.clone();
        state.mark_generation = 4;
        state.snapshot = Some(snapshot_of(9, vec![event("alice", "new", 7)]));
    });
    let completion = MarkReadCompletion {
        token: MarkToken {
            lifetime: controller.lifetime,
            account_key: account_key(&alice),
            selection,
            selection_generation: 0,
            generation: 4,
        },
        account: alice,
        result: Ok(snapshot_of(8, Vec::new())),
    };
    assert!(controller.complete_mark_displayed(completion));
    assert_eq!(controller.unread_count(), 1);
    assert_eq!(state(&controller, "alice").snapshot.as_ref().unwrap().state_version, 9);
}

#[test]
fn repository_removal_while_admission_is_in_flight_suppresses_dispatch() {
    let mut controller = booted();
    let mut store = Store::new();
    let alice = account("alice");
    let enable = controller.begin_consent(&alice, true).unwrap();
    assert!(controller.complete_consent(store.run_consent(enable)));
    let selection = selection_key(&vec![repo("alice", 0)]);
    replace_state(&mut controller, "alice", |state| {
        state.selection = selection.clone();
        state.selection_generation = 7;
    });
    let token = AdmissionToken {
        lifetime: controller.lifetime,
        account_key: account_key(&alice),
        selection,
        selection_generation: 7,
        consent_generation: state(&controller, "alice").consent_generation,
    };
    let completion = store.run_admission(AdmissionWork {
        token,
        account: alice,
        events: vec![event("alice", "removed", 7)],
    });
    assert!(begin(&mut controller, &[]).is_empty());
    assert!(!controller.complete_admission(completion));
    assert!(controller.take_system_notifications().is_empty());
}

#[test]
fn delayed_poll_completion_cannot_restore_snapshot_older_than_mark_read() {
    let mut controller = booted();
    let selection = selection_key(&vec![repo("alice", 0)]);
    replace_state(&mut controller, "alice", |state| {
        state.account = Some(account("alice"));
        state.selection = selection.clone();
        state.generation = 3;
        state.in_flight = true;
        state.snapshot = Some(snapshot_of(12, Vec::new()));
    });
    let token = ControllerToken {
        consent_generation: 0,
        lifetime: controller.lifetime,
        account_key: account_key(&account("alice")),
        selection,
        generation: 3,
    };
    let mut completion = completed(token, "alice", snapshot_of(11, vec![event("alice", "old", 7)]));
    completion.newly_admitted = vec![event("alice", "old", 7)];
    assert!(controller.complete_poll(completion, NOW, None).is_none());
    let of_alice = state(&controller, "alice");
    assert_eq!(of_alice.snapshot.as_ref().unwrap().state_version, 12);
    assert!(!of_alice.in_flight);
    assert_eq!(controller.unread_count(), 0);
}

#[test]
fn corrupt_and_future_registry_records_are_preserved_and_refused() {
    let mut file = set_enabled(RegistryFile::empty(), &account("alice"), true).unwrap();
    assert!(validate_registry_file(&file).is_ok());
    file.schema_version = 2;
    assert_eq!(
        validate_registry_file(&file).unwrap_err(),
        "Unsupported notification registry schema version 2"
    );
}

// ---------------------------------------------------------------------------

#[test]
fn smoke_fixture_shows_separate_delays_and_asks_for_no_alert() {
    let mut controller = NotificationController::new(3);
    assert!(begin(&mut controller, &[repo("alice", 0)]).is_empty());
    let stored = NotificationBootstrap { preferences: TextMap::new(), routes: Vec::new() };
    assert!(!controller.complete_bootstrap(4, Ok(NotificationBootstrap { preferences: TextMap::new(), routes: Vec::new() })));
    assert!(controller.complete_bootstrap(3, Ok(stored)));
    let reader = account("smoke-reader");
    let poll_reader = account("smoke-poll-reader");
    let named = |name: &str, account: &Account| Repository {
        host: "github.com".into(),
        owner: "octo".into(),
        name: name.into(),
        account: account.clone(),
        local_path: None,
    };
    let repository = named("native-notifications", &reader);
    let partial = named("partial-repository", &reader);
    let interval = named("poll-interval", &poll_reader);
    let work = begin_at(
        &mut controller,
        &[repository.clone(), partial.clone(), interval.clone()],
        NOW,
        &due(&["smoke-reader", "smoke-poll-reader"]),
    );
    assert_eq!(work.len(), 2);
    assert_eq!(work[0].account.login, "smoke-poll-reader");
    assert_eq!(work[1].account.login, "smoke-reader");
    let mut seen = event("smoke-reader", "native-smoke-review-request-2", 7152);
    seen.identity.target.repository = "native-notifications".into();
    let mut snapshot = snapshot_of(2, vec![seen.clone()]);
    snapshot.repository_completeness = vec![
        RepositoryNotificationCompleteness {
            target: repository_scope(&repository),
            complete: true,
            reasons: Vec::new(),
        },
        RepositoryNotificationCompleteness {
            target: repository_scope(&partial),
            complete: false,
            reasons: vec!["Provider evidence page bound reached".into()],
        },
    ];
    snapshot.incomplete_candidates = vec![IncompleteNotificationCandidate {
        target: Some(seen.identity.target.clone()),
        provider_notification_id: Some("candidate-without-proof".into()),
        kind: "Mention".into(),
        reason: "Mention evidence unavailable.".into(),
    }];
    let mut completion = completed(work[1].token.clone(), "smoke-reader", snapshot);
    completion.newly_admitted = vec![seen];
    completion.poll = directive(None, Some(ServerDelay::Seconds(300)));
    assert!(controller.complete_poll(completion, NOW, None).is_none());
    let mut completion = completed(work[0].token.clone(), "smoke-poll-reader", snapshot_of(1, Vec::new()));
    completion.poll = directive(Some(ServerDelay::Seconds(300)), None);
    assert!(controller.complete_poll(completion, NOW, None).is_none());
    assert!(controller.take_system_notifications().is_empty());
    controller.toggle_open();
    let panel = controller.panel(NOW);
    assert!(panel.loading.is_none());
    assert_eq!(panel.sections.len(), 2);
    assert_eq!(panel.sections[0].title, "smoke-poll-reader · 0 unread");
    assert_eq!(
        panel.sections[0].server_notice.as_deref(),
        Some("Notification refresh is deferred by GitHub's polling interval.")
    );
    assert_eq!(panel.sections[0].empty_notice.as_deref(), Some("No proven unread events."));
    let section = &panel.sections[1];
    assert_eq!(section.title, "smoke-reader · 1 unread");
    assert_eq!(section.consent_label, "macOS alerts: off");
    assert_eq!(
        section.server_notice.as_deref(),
        Some("Notification refresh is deferred by GitHub rate limiting.")
    );
    assert_eq!(section.completeness[0].text, "octo/native-notifications · complete");
    assert_eq!(
        section.completeness[1].text,
        "octo/partial-repository · partial: Provider evidence page bound reached"
    );
    assert_eq!(section.events.len(), 1);
    assert_eq!(section.events[0].line, "smoke-reader · octo/native-notifications #7152 · reviewing-user");
    assert_eq!(
        section.incomplete_heading.as_deref(),
        Some("INCOMPLETE CANDIDATES · 1 (not counted unread)")
    );
    assert_eq!(section.incomplete[0].title, "octo/native-notifications #7152 · Mention");
    assert_eq!(section.page_label, "Page 1");
    assert_eq!(section.mark_label, "Mark displayed read");
    assert_eq!(panel.heading, "Unread notifications");
    assert_eq!(panel.close_label, "Close");
    assert_eq!(controller.unread_for(&reader, "OCTO", "Native-Notifications", 7152), 1);
    assert_eq!(controller.unread_for(&reader, "octo", "native-notifications", 7153), 0);
}

#[test]
fn bootstrap_takes_preferences_and_reports_failures() {
    let mut controller = NotificationController::new(1);
    assert!(!controller.is_ready());
    assert_eq!(
        controller.panel(NOW).loading.as_deref(),
        Some("Loading private notification state…")
    );
    assert!(!controller.complete_bootstrap(1, Err("disk".into())));
    assert_eq!(
        controller.panel(NOW).loading.as_deref(),
        Some("Local notification state unavailable; no OS notification requested: disk")
    );
    let mut preferences = TextMap::new();
    preferences.insert(account_key(&account("alice")), true);
    assert!(controller.complete_bootstrap(
        1,
        Ok(NotificationBootstrap { preferences, routes: Vec::new() })
    ));
    assert!(controller.is_ready());
    assert!(state(&controller, "alice").consent_enabled);
    assert!(controller.begin_consent(&account("alice"), true).is_none());
    let off = controller.begin_toggle_consent(&account("ALICE")).unwrap();
    assert!(!off.enabled);
    assert!(controller.begin_toggle_consent(&account("alice")).is_none());
    let failed = ConsentCompletion {
        token: off.token,
        account: off.account,
        enabled: false,
        result: Err("lock".into()),
    };
    assert!(!controller.complete_consent(failed));
    assert!(state(&controller, "alice").consent_enabled);
    assert_eq!(
        state(&controller, "alice").stale_notice.as_deref(),
        Some("Preference was not changed; no OS notification requested: lock")
    );
}

#[test]
fn pages_turn_within_their_bounds_and_marks_name_what_is_shown() {
    let mut controller = booted();
    let alice = account("alice");
    let work = begin(&mut controller, &[repo("alice", 0)]).pop().unwrap();
    let events = (0..85).map(|n| event("alice", &format!("e{n}"), 7)).collect::<Vec<_>>();
    controller.complete_poll(completed(work.token, "alice", snapshot_of(4, events)), NOW, None);
    assert!(state(&controller, "alice").displayed.is_none());
    controller.toggle_open();
    assert!(controller.is_open());
    let first = state(&controller, "alice").displayed.as_ref().unwrap();
    assert_eq!(first.events.len(), 40);
    controller.next_page(&alice);
    controller.next_page(&alice);
    controller.next_page(&alice);
    assert_eq!(state(&controller, "alice").page, 2);
    let work = controller.begin_mark_displayed(&alice).unwrap();
    assert_eq!(work.displayed.state_version, 4);
    assert_eq!(
        work.displayed
            .events
            .iter()
            .map(|id| id.remote_event_id.as_str())
            .collect::<Vec<_>>(),
        ["e80", "e81", "e82", "e83", "e84"]
    );
    let failed = MarkReadCompletion {
        token: work.token,
        account: alice.clone(),
        result: Err("disk".into()),
    };
    assert!(!controller.complete_mark_displayed(failed));
    assert_eq!(
        state(&controller, "alice").stale_notice.as_deref(),
        Some("Displayed events remain unread because the exact mark-read save failed: disk")
    );
    controller.previous_page(&alice);
    assert_eq!(state(&controller, "alice").page, 1);
    assert_eq!(controller.panel(NOW).sections[0].page_label, "Page 2");
    controller.close();
    assert!(state(&controller, "alice").displayed.is_none());
    assert_eq!(controller.unread_count(), 85);
}

#[test]
fn account_keys_are_json_pairs_without_regard_to_case() {
    assert_eq!(account_key(&account("Al\"ice")), r#"["github.com","al\"ice"]"#);
    assert_eq!(schedule_key(&account("Bob")), r#"notifications:["github.com","bob"]"#);
}

#[test]
fn selections_do_not_depend_on_order_and_drop_duplicates() {
    let list = vec![repo("alice", 1), repo("alice", 0), repo("alice", 1)];
    let prepared = prepare(&list);
    assert_eq!(
        prepared.iter().map(|r| r.name.as_str()).collect::<Vec<_>>(),
        ["repo-0", "repo-1"]
    );
    assert_eq!(
        selection_key(&prepared),
        selection_key(&vec![repo("alice", 1), repo("alice", 0)])
    );
    // The digest of nothing at all.
    assert_eq!(
        selection_key(&Vec::new()),
        "e3b0c44298fc1c149afbf4c8996fb92427ae41e4649b934ca495991b7852b855"
    );
}

#[test]
fn tags_are_valid_and_titles_name_the_pull_request() {
    let alice = account("alice");
    let shown = system_notification(&alice, &event("alice", "1", 7));
    assert!(validate_tag(&shown.tag).is_ok());
    assert_eq!(shown.tag.len(), 86);
    assert_eq!(shown.title, "Review requested · octo/repo-0 #7");
    assert_eq!(shown.body, "Review requested");
    assert_ne!(shown.tag, stable_event_tag(&alice, &event("alice", "2", 7)));
    assert_eq!(shown.tag, stable_event_tag(&account("ALICE"), &event("alice", "1", 7)));
    assert_eq!(
        validate_tag("other-tag").unwrap_err(),
        "Notification tag has an unknown namespace"
    );
    assert_eq!(
        validate_tag("cibergit-notification-ab").unwrap_err(),
        "Notification tag has an invalid length"
    );
    assert_eq!(
        validate_tag(&format!("cibergit-notification-{}", "A".repeat(64))).unwrap_err(),
        "Notification tag digest is malformed"
    );
}

#[test]
fn registry_faults_are_named() {
    assert_eq!(
        validate_identity_part("", "route host").unwrap_err(),
        "Notification route host must not be empty"
    );
    assert_eq!(
        validate_identity_part(&"x".repeat(513), "route host").unwrap_err(),
        "Notification route host exceeds byte bound"
    );
    assert_eq!(
        validate_identity_part("a\u{7f}", "route host").unwrap_err(),
        "Notification route host contains control characters"
    );
    assert!(validate_preference_key(r#"["github.com","alice"]"#).is_ok());
    assert_eq!(
        validate_preference_key("alice").unwrap_err(),
        "Notification preference identity is malformed"
    );
    assert_eq!(
        validate_preference_key(r#"["","alice"]"#).unwrap_err(),
        "Notification account host must not be empty"
    );
    let alice = account("alice");
    let file = set_enabled(RegistryFile::empty(), &alice, true).unwrap();
    let (mut file, queued) =
        reserve_for_delivery(file, 1, &alice, &vec![event("alice", "1", 7)]).unwrap();
    assert!(validate_registry_file(&file).is_ok());
    file.routes[0].target.pull_request = 0;
    assert_eq!(
        validate_registry_file(&file).unwrap_err(),
        "Notification route pull request must be positive"
    );
    file.routes[0].target.pull_request = 7;
    file.routes[0].target.account = "bob".into();
    assert_eq!(
        validate_registry_file(&file).unwrap_err(),
        "Notification route account binding is inconsistent"
    );
    file.delivered_tags.clear();
    assert_eq!(
        validate_registry_file(&file).unwrap_err(),
        "Notification route lacks retained dedupe tag"
    );
    file.delivered_tags = vec![queued[0].notification.tag.clone(); 2];
    assert_eq!(
        validate_registry_file(&file).unwrap_err(),
        "Notification tags must be unique"
    );
    file.delivered_tags = vec![queued[0].notification.tag.clone()];
    file.routes.push(PersistedRoute {
        tag: queued[0].notification.tag.clone(),
        account: alice.clone(),
        target: target("alice", 7),
    });
    assert_eq!(
        validate_registry_file(&file).unwrap_err(),
        "Notification routes must have unique tags"
    );
    file.routes.clear();
    file.delivered_tags = vec![String::new(); MAX_RETAINED_TAGS + 1];
    assert_eq!(
        validate_registry_file(&file).unwrap_err(),
        "Notification tag bound exceeded"
    );
    assert_eq!(
        reserve_for_delivery(RegistryFile::empty(), 1, &alice, &Vec::new()).err().unwrap(),
        "macOS consent is no longer enabled"
    );
    let file = set_enabled(RegistryFile::empty(), &alice, true).unwrap();
    assert_eq!(
        reserve_for_delivery(file, 1, &alice, &vec![event("bob", "1", 7)]).err().unwrap(),
        "event account differs from notification consent account"
    );
    let mut file = set_enabled(RegistryFile::empty(), &alice, true).unwrap();
    file.revision = u64::MAX;
    assert_eq!(
        reserve_for_delivery(file, 1, &alice, &Vec::new()).err().unwrap(),
        "Notification registry revision exhausted"
    );
}

#[test]
fn changed_revisions_are_retried_within_the_bound() {
    assert!(matches!(after_attempt(0, Ok(())), CasStep::Done));
    let changed = || Err("Notification registry revision changed".to_string());
    assert!(matches!(after_attempt(0, changed()), CasStep::Retry));
    assert!(matches!(after_attempt(2, changed()), CasStep::Retry));
    match after_attempt(3, changed()) {
        CasStep::Fail(text) => assert_eq!(text, "Notification registry CAS retry bound exhausted"),
        _ => panic!("the fourth attempt is the last"),
    }
    match after_attempt(0, Err("disk".into())) {
        CasStep::Fail(text) => assert_eq!(text, "disk"),
        _ => panic!("another failure is not retried"),
    }
}

#[test]
fn batches_are_refused_when_account_or_scope_changed() {
    let alice = account("alice");
    let chunks = vec![vec![repo("alice", 0)]];
    assert_eq!(
        combine_batches(&alice, &chunks, Vec::new(), &Vec::new()).unwrap_err(),
        "all bounded repository batches failed"
    );
    assert_eq!(
        combine_batches(&alice, &chunks, vec![(0, batch("bob", Vec::new(), true))], &Vec::new())
            .unwrap_err(),
        "provider batch changed selected account"
    );
    let mut other = batch("alice", Vec::new(), true);
    other.repositories[0].target = repository_scope(&repo("alice", 3));
    assert_eq!(
        combine_batches(&alice, &chunks, vec![(0, other)], &Vec::new()).unwrap_err(),
        "provider batch changed selected repository scope"
    );
    let whole = combine_batches(
        &alice,
        &chunks,
        vec![(0, batch("alice", Vec::new(), true))],
        &Vec::new(),
    )
    .unwrap();
    assert!(whole.full_snapshot && whole.complete && whole.notices.is_empty());
    assert_eq!(whole.observed_at_unix_ms, 1);
}

#[test]
fn combined_repositories_are_sorted_by_scope() {
    let alice = account("alice");
    let chunks = vec![vec![repo("alice", 5)], vec![repo("alice", 2)]];
    let mut first = batch("alice", Vec::new(), true);
    first.repositories[0].target = repository_scope(&repo("alice", 5));
    let combined =
        combine_batches(&alice, &chunks, vec![(0, first)], &vec![(1, "down".into())]).unwrap();
    assert_eq!(
        combined
            .repositories
            .iter()
            .map(|r| r.target.repository.as_str())
            .collect::<Vec<_>>(),
        ["repo-2", "repo-5"]
    );
    assert_eq!(combined.repositories[0].reasons, ["Bounded batch read failed: down"]);
}

#[test]
fn failed_reconciliation_keeps_the_cached_unread_events() {
    let mut controller = booted();
    let work = begin(&mut controller, &[repo("alice", 0)]).pop().unwrap();
    let mut run = PollRun::start(work);
    run.record(Err("offline".into()), directive(None, None));
    assert!(run.next_chunk().is_none());
    let error = run.combine().unwrap_err();
    let completion = run.finish_failed(error, Ok(snapshot_of(5, vec![event("alice", "kept", 7)])));
    assert_eq!(
        completion.error.as_deref(),
        Some("Notification refresh failed; cached unread retained: all bounded repository batches failed")
    );
    assert_eq!(completion.snapshot.state_version, 5);
    let work = begin(&mut controller, &[repo("alice", 0)]);
    assert!(work.is_empty());
}

#[test]
fn projection_shows_only_the_selected_repositories() {
    let scope: NotificationRepositoryScope = repository_scope(&repo("alice", 0));
    let mut snapshot = snapshot_of(1, vec![event("ALICE", "1", 7)]);
    snapshot.incomplete_candidates = vec![IncompleteNotificationCandidate {
        target: None,
        provider_notification_id: None,
        kind: "Mention".into(),
        reason: "unknown".into(),
    }];
    let shown = project_snapshot(snapshot.clone(), &vec![scope]);
    assert_eq!(shown.unread_by_pull_request.len(), 1);
    assert_eq!(shown.incomplete_candidates.len(), 1);
    let hidden = project_snapshot(snapshot, &vec![repository_scope(&repo("bob", 0))]);
    assert_eq!(hidden.unread_by_pull_request.len(), 0);
    assert_eq!(
        candidate_row(&hidden.incomplete_candidates[0]).title,
        "Unresolved pull request · Mention"
    );
}

#[test]
fn rows_are_written_out() {
    let mut without_actor = event("alice", "1", 7);
    without_actor.actor = None;
    assert_eq!(event_row(&without_actor).line, "alice · octo/repo-0 #7");
    assert_eq!(join(&vec!["a".into(), "b".into(), "c".into()], "; "), "a; b; c");
    assert_eq!(join(&Vec::new(), "; "), "");
    let row = completeness_row(&RepositoryNotificationCompleteness {
        target: repository_scope(&repo("alice", 1)),
        complete: false,
        reasons: vec!["one".into(), "two".into()],
    });
    assert_eq!(row.text, "octo/repo-1 · partial: one; two");
}

#[test]
fn the_demonstration_alerts_nobody_and_shows_both_delays() {
    let mut unready = NotificationController::new(9);
    assert_eq!(
        unready.install_smoke_fixture(NOW, None),
        Err("notification runtime is not ready".into())
    );
    let mut controller = booted();
    let said = controller.install_smoke_fixture(NOW, None).expect("demonstration");
    assert!(said.starts_with("Synthetic exact event installed"));
    assert!(said.ends_with("preference=off."));
    assert!(controller.is_open());
    assert!(controller.take_system_notifications().is_empty());
    let panel = controller.panel(NOW);
    let notices: Vec<Option<&str>> = panel
        .sections
        .iter()
        .map(|section| section.server_notice.as_deref())
        .collect();
    assert!(notices.contains(&Some("Notification refresh is deferred by GitHub rate limiting.")));
    assert!(notices.contains(&Some(
        "Notification refresh is deferred by GitHub's polling interval."
    )));
    assert_eq!(controller.unread_for(&account("smoke-reader"), "octo", "native-notifications", 7152), 1);
    assert_eq!(
        controller.install_smoke_fixture(NOW, None),
        Err("smoke controller did not begin its polling-interval account".into())
    );
}

#[test]
fn combined_events_keep_their_evidence() {
    let alice = account("alice");
    let chunks = vec![vec![repo("alice", 0)]];
    let mut shown = event("alice", "1", 7);
    shown.evidence = NotificationEvidence::Other {
        text: "mention".into(),
    };
    let mut read = batch("alice", vec![shown], true);
    read.repositories[0].target = repository_scope(&repo("alice", 0));
    let combined = combine_batches(&alice, &chunks, vec![(0, read)], &vec![]).unwrap();
    assert_eq!(
        combined.observations[0].events[0].evidence,
        NotificationEvidence::Other {
            text: "mention".into()
        }
    );
}

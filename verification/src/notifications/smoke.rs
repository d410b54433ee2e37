//! A demonstration without a provider: one exact event, one candidate without proof, and one
//! delay of each sort, brought through the ordinary course of polls.

use vstd::prelude::*;

use crate::clock::{Moment, ServerDelay};
use crate::domain::{Account, AccountView, Repository, RepositoryView};
use crate::notifications::account;
use crate::notifications::account::{AccountStateView, AccountViewState};
use crate::notifications::controller;
use crate::notifications::controller::NotificationController;
use crate::notifications::delivery;
use crate::notifications::model;
use crate::notifications::model::{
    IncompleteNotificationCandidate, IncompleteNotificationCandidateView, NotificationAlertKind,
    NotificationConditionalCache, NotificationEventIdentity, NotificationEventIdentityView,
    NotificationEvidence, NotificationEvidenceView,
    NotificationPollDirective, NotificationPullRequest, NotificationPullRequestView,
    NotificationSnapshot, ProviderNotificationEvent, ProviderNotificationEventView,
    PullRequestUnreadSummary, QueuedNotification, RepositoryNotificationCompleteness,
    RepositoryNotificationCompletenessView,
};
use crate::notifications::polling::{ControllerToken, ControllerTokenView, PollCompletion, PollWork};
use crate::notifications::polls;
use crate::notifications::polls::PollRequest;
use crate::notifications::selection;
use crate::text;

verus! {

// ---------------------------------------------------------------------------
// What is shown

/// The account whose polls the server limits.
pub open spec fn limited_account() -> AccountView {
    AccountView { host: "github.com"@, login: "smoke-reader"@ }
}

/// The account whose polls the server spaces out.
pub open spec fn spaced_account() -> AccountView {
    AccountView { host: "github.com"@, login: "smoke-poll-reader"@ }
}

pub open spec fn demonstration_repository(
    name: Seq<char>,
    account: AccountView,
) -> RepositoryView {
    RepositoryView { host: "github.com"@, owner: "octo"@, name, account, local_path: None }
}

pub open spec fn demonstration_target() -> NotificationPullRequestView {
    NotificationPullRequestView {
        provider: "github"@,
        host: "github.com"@,
        account: "smoke-reader"@,
        owner: "octo"@,
        repository: "native-notifications"@,
        pull_request: 7152,
    }
}

pub open spec fn demonstration_event() -> ProviderNotificationEventView {
    ProviderNotificationEventView {
        identity: NotificationEventIdentityView {
            target: demonstration_target(),
            source: "Timeline"@,
            remote_event_id: "native-smoke-review-request-2"@,
        },
        occurred_at: "2026-09-13T12:15:00Z"@,
        actor: Some("colleague"@),
        alert_kind: NotificationAlertKind::ReviewRequest,
        summary: "A colleague requested your review on the newly observed event."@,
        url: "https://github.com/octo/native-notifications/pull/7152"@,
        evidence: NotificationEvidenceView::ReviewRequested {
            timeline_event_id: "native-smoke-review-request-2"@,
            requested_reviewer: "smoke-reader"@,
        },
    }
}

pub open spec fn demonstration_candidate() -> IncompleteNotificationCandidateView {
    IncompleteNotificationCandidateView {
        target: Some(demonstration_target()),
        provider_notification_id: Some("candidate-without-proof"@),
        kind: "Mention"@,
        reason: "Mention evidence unavailable; notification reason/body is not authoritative proof."@,
    }
}

/// The three repositories that are selected.
pub open spec fn is_demonstration_selection(selected: Seq<Repository>) -> bool {
    &&& selected.len() == 3
    &&& selected[0]@ == demonstration_repository("native-notifications"@, limited_account())
    &&& selected[1]@ == demonstration_repository("partial-repository"@, limited_account())
    &&& selected[2]@ == demonstration_repository("poll-interval"@, spaced_account())
}

fn repository(name: &str, account: &Account) -> (r: Repository)
    ensures
        account@.host == "github.com"@ ==> r@ == demonstration_repository(name@, account@),
{
    Repository {
        host: "github.com".to_owned(),
        owner: "octo".to_owned(),
        name: name.to_owned(),
        account: account.clone(),
        local_path: None,
    }
}

fn target() -> (r: NotificationPullRequest)
    ensures
        r@ == demonstration_target(),
{
    NotificationPullRequest {
        provider: "github".to_owned(),
        host: "github.com".to_owned(),
        account: "smoke-reader".to_owned(),
        owner: "octo".to_owned(),
        repository: "native-notifications".to_owned(),
        pull_request: 7152,
    }
}

fn event() -> (r: ProviderNotificationEvent)
    ensures
        r@ == demonstration_event(),
{
    ProviderNotificationEvent {
        identity: NotificationEventIdentity {
            target: target(),
            source: "Timeline".to_owned(),
            remote_event_id: "native-smoke-review-request-2".to_owned(),
        },
        occurred_at: "2026-09-13T12:15:00Z".to_owned(),
        actor: Some("colleague".to_owned()),
        alert_kind: NotificationAlertKind::ReviewRequest,
        summary: "A colleague requested your review on the newly observed event.".to_owned(),
        url: "https://github.com/octo/native-notifications/pull/7152".to_owned(),
        evidence: NotificationEvidence::ReviewRequested {
            timeline_event_id: "native-smoke-review-request-2".to_owned(),
            requested_reviewer: "smoke-reader".to_owned(),
        },
    }
}

/// That a repository was read completely.
pub open spec fn read_completely(repository: RepositoryView) -> RepositoryNotificationCompletenessView {
    RepositoryNotificationCompletenessView {
        target: model::scope_of(repository),
        complete: true,
        reasons: Seq::empty(),
    }
}

pub open spec fn read_partly(repository: RepositoryView) -> RepositoryNotificationCompletenessView {
    RepositoryNotificationCompletenessView {
        target: model::scope_of(repository),
        complete: false,
        reasons: seq!["Provider evidence page bound reached"@],
    }
}

fn completely(repository: &Repository) -> (r: RepositoryNotificationCompleteness)
    ensures
        r@ == read_completely(repository@),
{
    let r = RepositoryNotificationCompleteness {
        target: model::repository_scope(repository),
        complete: true,
        reasons: Vec::new(),
    };
    proof {
        assert(r@.reasons =~= Seq::empty());
    }
    r
}

fn partly(repository: &Repository) -> (r: RepositoryNotificationCompleteness)
    ensures
        r@ == read_partly(repository@),
{
    let mut reasons: Vec<String> = Vec::new();
    reasons.push("Provider evidence page bound reached".to_owned());
    let r = RepositoryNotificationCompleteness {
        target: model::repository_scope(repository),
        complete: false,
        reasons,
    };
    proof {
        assert(r@.reasons =~= seq!["Provider evidence page bound reached"@]);
    }
    r
}

// ---------------------------------------------------------------------------
// The two polls

/// The token of the poll that began for an account.
pub open spec fn begun_token(
    states: Map<Seq<char>, AccountStateView>,
    request: PollRequest,
    lifetime: u64,
    key: Seq<char>,
) -> ControllerTokenView {
    let after = polls::begun_state(states, request, key);
    ControllerTokenView {
        consent_generation: after.consent_generation,
        lifetime,
        account_key: key,
        selection: selection::selection_of(
            selection::prepared(selection::group(request.repositories, key)),
        ),
        generation: after.generation,
    }
}

/// The end of the poll that the server limits: it brings the event and the candidate.
pub open spec fn is_limited_completion(c: PollCompletion, token: ControllerTokenView) -> bool {
    &&& c.token@ == token
    &&& c.account@ == limited_account()
    &&& c.snapshot.state_version == 2
    &&& c.snapshot.unread_by_pull_request@.len() == 1
    &&& c.snapshot.unread_by_pull_request@[0].target@ == demonstration_target()
    &&& c.snapshot.unread_by_pull_request@[0].unread_events@.len() == 1
    &&& c.snapshot.unread_by_pull_request@[0].unread_events@[0]@ == demonstration_event()
    &&& c.snapshot.unread_by_pull_request@[0].unknown_candidates@.len() == 0
    &&& c.snapshot.repository_completeness@.len() == 2
    &&& c.snapshot.repository_completeness@[0]@ == read_completely(
        demonstration_repository("native-notifications"@, limited_account()),
    )
    &&& c.snapshot.repository_completeness@[1]@ == read_partly(
        demonstration_repository("partial-repository"@, limited_account()),
    )
    &&& c.snapshot.incomplete_candidates@.len() == 1
    &&& c.snapshot.incomplete_candidates@[0]@ == demonstration_candidate()
    &&& c.snapshot.notices@.len() == 0
    &&& c.newly_admitted@.len() == 1
    &&& c.newly_admitted@[0]@ == demonstration_event()
    &&& c.error is None
    &&& c.cache.entries@.len() == 0
    &&& c.poll == (NotificationPollDirective {
        x_poll_interval: None,
        rate_limit: Some(ServerDelay::Seconds(300)),
    })
}

/// The end of the poll that the server spaces out: it brings nothing.
pub open spec fn is_spaced_completion(c: PollCompletion, token: ControllerTokenView) -> bool {
    &&& c.token@ == token
    &&& c.account@ == spaced_account()
    &&& c.snapshot.state_version == 1
    &&& c.snapshot.unread_by_pull_request@.len() == 0
    &&& c.snapshot.repository_completeness@.len() == 1
    &&& c.snapshot.repository_completeness@[0]@ == read_completely(
        demonstration_repository("poll-interval"@, spaced_account()),
    )
    &&& c.snapshot.incomplete_candidates@.len() == 0
    &&& c.snapshot.notices@.len() == 0
    &&& c.newly_admitted@.len() == 0
    &&& c.error is None
    &&& c.cache.entries@.len() == 0
    &&& c.poll == (NotificationPollDirective {
        x_poll_interval: Some(ServerDelay::Seconds(300)),
        rate_limit: None,
    })
}

fn limited_completion(token: ControllerToken, selected: &Vec<Repository>) -> (r: PollCompletion)
    requires
        is_demonstration_selection(selected@),
    ensures
        is_limited_completion(r, token@),
{
    let mut unread_events: Vec<ProviderNotificationEvent> = Vec::new();
    unread_events.push(event());
    let mut unread_by_pull_request: Vec<PullRequestUnreadSummary> = Vec::new();
    unread_by_pull_request.push(
        PullRequestUnreadSummary {
            target: target(),
            unread_events,
            unknown_candidates: Vec::new(),
        },
    );
    let mut repository_completeness: Vec<RepositoryNotificationCompleteness> = Vec::new();
    repository_completeness.push(completely(&selected[0]));
    repository_completeness.push(partly(&selected[1]));
    let mut incomplete_candidates: Vec<IncompleteNotificationCandidate> = Vec::new();
    incomplete_candidates.push(
        IncompleteNotificationCandidate {
            target: Some(target()),
            provider_notification_id: Some("candidate-without-proof".to_owned()),
            kind: "Mention".to_owned(),
            reason: "Mention evidence unavailable; notification reason/body is not authoritative proof.".to_owned(),
        },
    );
    let mut newly_admitted: Vec<ProviderNotificationEvent> = Vec::new();
    newly_admitted.push(event());
    PollCompletion {
        token,
        account: Account {
            host: "github.com".to_owned(),
            login: "smoke-reader".to_owned(),
        },
        snapshot: NotificationSnapshot {
            state_version: 2,
            unread_by_pull_request,
            repository_completeness,
            incomplete_candidates,
            notices: Vec::new(),
        },
        newly_admitted,
        error: None,
        cache: NotificationConditionalCache::empty(),
        poll: NotificationPollDirective {
            x_poll_interval: None,
            rate_limit: Some(ServerDelay::Seconds(300)),
        },
    }
}

fn spaced_completion(token: ControllerToken, selected: &Vec<Repository>) -> (r: PollCompletion)
    requires
        is_demonstration_selection(selected@),
    ensures
        is_spaced_completion(r, token@),
{
    let mut repository_completeness: Vec<RepositoryNotificationCompleteness> = Vec::new();
    repository_completeness.push(completely(&selected[2]));
    PollCompletion {
        token,
        account: Account {
            host: "github.com".to_owned(),
            login: "smoke-poll-reader".to_owned(),
        },
        snapshot: NotificationSnapshot {
            state_version: 1,
            unread_by_pull_request: Vec::new(),
            repository_completeness,
            incomplete_candidates: Vec::new(),
            notices: Vec::new(),
        },
        newly_admitted: Vec::new(),
        error: None,
        cache: NotificationConditionalCache::empty(),
        poll: NotificationPollDirective {
            x_poll_interval: Some(ServerDelay::Seconds(300)),
            rate_limit: None,
        },
    }
}

fn token_for(work: &Vec<PollWork>, key: &str) -> (r: Option<ControllerToken>)
    ensures
        match r {
            Some(token) => exists|i: int|
                0 <= i < work@.len() && (#[trigger] work@[i]).token@ == token@
                    && work@[i].token.account_key@ == key@,
            None => forall|i: int|
                0 <= i < work@.len() ==> (#[trigger] work@[i]).token.account_key@ != key@,
        },
{
    let mut i: usize = 0;
    while i < work.len()
        invariant
            i <= work@.len(),
            forall|k: int| 0 <= k < i ==> (#[trigger] work@[k]).token.account_key@ != key@,
        decreases work.len() - i,
    {
        if text::same_text(&work[i].token.account_key, key) {
            assert(work@[i as int].token.account_key@ == key@);
            return Some(work[i].token.clone());
        }
        i += 1;
    }
    None
}

// ---------------------------------------------------------------------------
// What is made of it

/// What is said where everything came as it should.
pub open spec fn demonstrated() -> Seq<char> {
    "Synthetic exact event installed through the real begin/release/complete controller path; separate visible rate-limit and polling-interval notices are active; one incomplete mention candidate remains separate; test sink calls=0; platform calls=0; preference=off."@
}

/// Whether the account shows the one event, the one candidate and both repositories.
pub open spec fn verdict_of(state: Option<AccountStateView>) -> Result<Seq<char>, Seq<char>> {
    match state {
        None => Err("smoke account disappeared"@),
        Some(state) => match state.snapshot {
            None => Err("smoke snapshot missing"@),
            Some(snapshot) => if account::events_of(snapshot.unread_by_pull_request).len() != 1
                || snapshot.incomplete_candidates.len() != 1
                || snapshot.repository_completeness.len() != 2 {
                Err("smoke projection lost expected event or partial evidence"@)
            } else {
                Ok(demonstrated())
            },
        },
    }
}

pub open spec fn result_text(r: Result<String, String>) -> Result<Seq<char>, Seq<char>> {
    match r {
        Ok(said) => Ok(said@),
        Err(e) => Err(e@),
    }
}

pub fn verdict(state: Option<&AccountViewState>) -> (r: Result<String, String>)
    ensures
        result_text(r) == verdict_of(
            match state {
                Some(s) => Some(s@),
                None => None,
            },
        ),
{
    let state = match state {
        None => {
            return Err("smoke account disappeared".to_owned());
        },
        Some(state) => state,
    };
    match &state.snapshot {
        None => Err("smoke snapshot missing".to_owned()),
        Some(snapshot) => {
            if account::unread_count(snapshot) != 1 || snapshot.incomplete_candidates.len() != 1
                || snapshot.repository_completeness.len() != 2 {
                return Err(
                    "smoke projection lost expected event or partial evidence".to_owned(),
                );
            }
            Ok(
                "Synthetic exact event installed through the real begin/release/complete controller path; separate visible rate-limit and polling-interval notices are active; one incomplete mention candidate remains separate; test sink calls=0; platform calls=0; preference=off.".to_owned(),
            )
        },
    }
}

pub open spec fn demonstration_request(
    before: NotificationController,
    selected: Seq<Repository>,
    now: Moment,
) -> PollRequest {
    PollRequest {
        repositories: selected,
        now,
        due: seq![
            model::account_key_of(limited_account()),
            model::account_key_of(spaced_account()),
        ],
        preferences: before.runtime->0.preferences@,
    }
}

/// Nothing differs but accounts, queue and whether the panel is open.
pub open spec fn same_otherwise(after: NotificationController, before: NotificationController) -> bool {
    &&& after.lifetime == before.lifetime
    &&& after.runtime == before.runtime
    &&& after.initialization_error == before.initialization_error
    &&& after.routes == before.routes
    &&& after.route_order == before.route_order
}

/// What the demonstration leaves and says, for the selection and the two completed polls.
pub open spec fn is_demonstration(
    before: NotificationController,
    selected: Seq<Repository>,
    limited: PollCompletion,
    spaced: PollCompletion,
    now: Moment,
    wall: Option<u64>,
    r: Result<Seq<char>, Seq<char>>,
    after: NotificationController,
) -> bool {
    let request = demonstration_request(before, selected, now);
    let limited_key = model::account_key_of(limited_account());
    let spaced_key = model::account_key_of(spaced_account());
    let s0 = before.states();
    let s1 = polls::begun_states(s0, request);
    let s2 = polls::completed_states(s1, before.open, before.lifetime, limited, now, wall);
    let s3 = polls::completed_states(s2, before.open, before.lifetime, spaced, now, wall);
    let queue = before.queued@.filter(
        |q: QueuedNotification| !polls::selection_changes(s0, request, q.account_key@),
    );
    &&& is_demonstration_selection(selected)
    &&& same_otherwise(after, before)
    &&& if !polls::poll_begins(s0, request, spaced_key) {
        &&& r == Err::<Seq<char>, _>(
            "smoke controller did not begin its polling-interval account"@,
        )
        &&& after.states() == s1 && after.queued@ == queue && after.open == before.open
    } else if !polls::poll_begins(s0, request, limited_key) {
        &&& r == Err::<Seq<char>, _>("smoke controller did not begin its rate-limit account"@)
        &&& after.states() == s1 && after.queued@ == queue && after.open == before.open
    } else {
        &&& is_limited_completion(
            limited,
            begun_token(s0, request, before.lifetime, limited_key),
        )
        &&& is_spaced_completion(spaced, begun_token(s0, request, before.lifetime, spaced_key))
        &&& if polls::completion_admits(s1, before.lifetime, limited, now, wall) {
            &&& r == Err::<Seq<char>, _>("default-off smoke unexpectedly admitted an OS alert"@)
            &&& after.states() == s2 && after.queued@ == queue && after.open == before.open
        } else if polls::completion_admits(s2, before.lifetime, spaced, now, wall) {
            &&& r == Err::<Seq<char>, _>(
                "polling-interval smoke unexpectedly admitted an OS alert"@,
            )
            &&& after.states() == s3 && after.queued@ == queue && after.open == before.open
        } else if queue.filter(|q: QueuedNotification| delivery::deliverable(s3, q)).len() != 0 {
            &&& r == Err::<Seq<char>, _>("default-off smoke reached its test sink"@)
            &&& after.states() == s3 && after.queued@.len() == 0 && after.open == before.open
        } else {
            let state = if s3.contains_key(limited_key) {
                Some(s3[limited_key])
            } else {
                None
            };
            &&& r == verdict_of(state)
            &&& after.queued@.len() == 0
            &&& if r is Ok {
                &&& after.open
                &&& after.states() == if before.open {
                    s3
                } else {
                    controller::each_captured(s3)
                }
            } else {
                after.states() == s3 && after.open == before.open
            }
        }
    }
}

impl NotificationController {
    /// Brings the demonstration through the ordinary course of polls, and checks that it shows
    /// what it should and alerts nobody.
    pub fn install_smoke_fixture(&mut self, now: Moment, wall: Option<u64>) -> (r: Result<
        String,
        String,
    >)
        ensures
            match old(self).runtime {
                None => *final(self) == *old(self) && result_text(r) == Err::<Seq<char>, _>(
                    "notification runtime is not ready"@,
                ),
                Some(_) => exists|
                    selected: Seq<Repository>,
                    limited: PollCompletion,
                    spaced: PollCompletion,
                | #[trigger]
                    is_demonstration(
                        *old(self),
                        selected,
                        limited,
                        spaced,
                        now,
                        wall,
                        result_text(r),
                        *final(self),
                    ),
            },
    {
        if self.runtime.is_none() {
            return Err("notification runtime is not ready".to_owned());
        }
        let reader = Account { host: "github.com".to_owned(), login: "smoke-reader".to_owned() };
        let poll_reader = Account {
            host: "github.com".to_owned(),
            login: "smoke-poll-reader".to_owned(),
        };
        let mut selected: Vec<Repository> = Vec::new();
        selected.push(repository("native-notifications", &reader));
        selected.push(repository("partial-repository", &reader));
        selected.push(repository("poll-interval", &poll_reader));
        let limited_key = model::account_key(&reader);
        let spaced_key = model::account_key(&poll_reader);
        let mut due: Vec<String> = Vec::new();
        due.push(limited_key.clone());
        due.push(spaced_key.clone());
        let ghost before = *self;
        let ghost request = demonstration_request(before, selected@, now);
        let ghost s0 = before.states();
        let ghost nothing: PollCompletion = arbitrary();
        proof {
            assert(text::texts(due@) =~= request.due);
        }
        let work = self.begin_polls_when_at(&selected, now, &due);
        let spaced_token = match token_for(&work, &spaced_key) {
            Some(token) => token,
            None => {
                let said: Result<String, String> = Err(
                    "smoke controller did not begin its polling-interval account".to_owned(),
                );
                proof {
                    assert(!polls::poll_begins(s0, request, spaced_key@));
                    assert(is_demonstration(
                        before,
                        selected@,
                        nothing,
                        nothing,
                        now,
                        wall,
                        result_text(said),
                        *self,
                    ));
                }
                return said;
            },
        };
        let limited_token = match token_for(&work, &limited_key) {
            Some(token) => token,
            None => {
                let said: Result<String, String> = Err(
                    "smoke controller did not begin its rate-limit account".to_owned(),
                );
                proof {
                    assert(polls::poll_begins(s0, request, spaced_key@));
                    assert(!polls::poll_begins(s0, request, limited_key@));
                    assert(is_demonstration(
                        before,
                        selected@,
                        nothing,
                        nothing,
                        now,
                        wall,
                        result_text(said),
                        *self,
                    ));
                }
                return said;
            },
        };
        proof {
            assert(polls::poll_begins(s0, request, spaced_key@));
            assert(polls::poll_begins(s0, request, limited_key@));
            assert(spaced_token@ == begun_token(s0, request, before.lifetime, spaced_key@));
            assert(limited_token@ == begun_token(s0, request, before.lifetime, limited_key@));
        }
        let limited = limited_completion(limited_token, &selected);
        let spaced = spaced_completion(spaced_token, &selected);
        let ghost first = limited;
        let ghost second = spaced;
        let ghost s1 = self.states();
        let admitted: bool = self.complete_poll(limited, now, wall).is_some();
        let ghost s2 = self.states();
        proof {
            assert(s2 == polls::completed_states(
                s1,
                before.open,
                before.lifetime,
                first,
                now,
                wall,
            ));
            assert(admitted == polls::completion_admits(s1, before.lifetime, first, now, wall));
        }
        if admitted {
            let said: Result<String, String> = Err(
                "default-off smoke unexpectedly admitted an OS alert".to_owned(),
            );
            proof {
                assert(is_demonstration(
                    before,
                    selected@,
                    first,
                    second,
                    now,
                    wall,
                    result_text(said),
                    *self,
                ));
            }
            return said;
        }
        let admitted: bool = self.complete_poll(spaced, now, wall).is_some();
        let ghost s3 = self.states();
        proof {
            assert(s3 == polls::completed_states(
                s2,
                before.open,
                before.lifetime,
                second,
                now,
                wall,
            ));
            assert(admitted == polls::completion_admits(s2, before.lifetime, second, now, wall));
        }
        if admitted {
            let said: Result<String, String> = Err(
                "polling-interval smoke unexpectedly admitted an OS alert".to_owned(),
            );
            proof {
                assert(is_demonstration(
                    before,
                    selected@,
                    first,
                    second,
                    now,
                    wall,
                    result_text(said),
                    *self,
                ));
            }
            return said;
        }
        let calls = self.take_system_notifications();
        if calls.len() != 0 {
            let said: Result<String, String> = Err(
                "default-off smoke reached its test sink".to_owned(),
            );
            proof {
                assert(self.states() =~= s3);
                assert(is_demonstration(
                    before,
                    selected@,
                    first,
                    second,
                    now,
                    wall,
                    result_text(said),
                    *self,
                ));
            }
            return said;
        }
        let said = verdict(self.accounts.get(&limited_key));
        proof {
            assert(self.states() =~= s3);
        }
        if said.is_ok() && !self.open {
            self.toggle_open();
        }
        proof {
            assert(is_demonstration(
                before,
                selected@,
                first,
                second,
                now,
                wall,
                result_text(said),
                *self,
            ));
        }
        said
    }
}

} // verus!

//! Beginning and completing the polls of the controller.

use vstd::prelude::*;

use crate::clock::Moment;
use crate::domain::Repository;
use crate::notifications::account;
use crate::notifications::account::{AccountStateView, AccountViewState};
use crate::notifications::controller;
use crate::notifications::controller::{AdmissionToken, AdmissionWork, NotificationController};
use crate::notifications::model;
use crate::notifications::model::QueuedNotification;
use crate::notifications::polling::{ControllerToken, ControllerTokenView, PollCompletion, PollWork};
use crate::notifications::selection;
use crate::text;
use crate::text_map;

verus! {

// ---------------------------------------------------------------------------
// Beginning polls

/// What a call to begin polls is made with.
pub struct PollRequest {
    pub repositories: Seq<Repository>,
    pub now: Moment,
    /// The keys of the accounts whose own schedule lets them poll.
    pub due: Seq<Seq<char>>,
    pub preferences: Map<Seq<char>, bool>,
}

pub open spec fn preference(preferences: Map<Seq<char>, bool>, key: Seq<char>) -> Option<bool> {
    if preferences.contains_key(key) {
        Some(preferences[key])
    } else {
        None
    }
}

/// An account after some repositories were selected for it.
pub open spec fn selecting(
    state: AccountStateView,
    members: Seq<Repository>,
    preference: Option<bool>,
) -> AccountStateView {
    let repositories = selection::prepared(members);
    account::reselected(
        state,
        members[0].account@,
        selection::scopes(repositories),
        selection::selection_of(repositories),
        preference,
    )
}

/// The account of a key after its selection was made, before a poll begins.
pub open spec fn selected_state(
    states: Map<Seq<char>, AccountStateView>,
    request: PollRequest,
    key: Seq<char>,
) -> AccountStateView {
    selecting(
        controller::state_or_unknown(states, key),
        selection::group(request.repositories, key),
        preference(request.preferences, key),
    )
}

pub open spec fn is_selected_key(request: PollRequest, key: Seq<char>) -> bool {
    selection::group(request.repositories, key).len() > 0
}

/// Whether a poll of this account begins.
pub open spec fn poll_begins(
    states: Map<Seq<char>, AccountStateView>,
    request: PollRequest,
    key: Seq<char>,
) -> bool {
    is_selected_key(request, key) && account::may_poll(
        selected_state(states, request, key),
        request.now,
        request.due.contains(key),
    )
}

/// The account of a key after polls were begun.
pub open spec fn begun_state(
    states: Map<Seq<char>, AccountStateView>,
    request: PollRequest,
    key: Seq<char>,
) -> AccountStateView {
    if !is_selected_key(request, key) {
        account::deselected(states[key])
    } else if poll_begins(states, request, key) {
        account::polling(selected_state(states, request, key))
    } else {
        selected_state(states, request, key)
    }
}

pub open spec fn begun_states(
    states: Map<Seq<char>, AccountStateView>,
    request: PollRequest,
) -> Map<Seq<char>, AccountStateView> {
    Map::new(
        |k: Seq<char>| states.contains_key(k) || is_selected_key(request, k),
        |k: Seq<char>| begun_state(states, request, k),
    )
}

/// Whether the alerts that wait for an account are withdrawn because its selection changed.
pub open spec fn selection_changes(
    states: Map<Seq<char>, AccountStateView>,
    request: PollRequest,
    key: Seq<char>,
) -> bool {
    if is_selected_key(request, key) {
        controller::state_or_unknown(states, key).selection != selection::selection_of(
            selection::prepared(selection::group(request.repositories, key)),
        )
    } else {
        states.contains_key(key)
    }
}

/// The work of a poll: the selected repositories in chunks, for the account as it is `after`
/// the poll began.
pub open spec fn polls_members(
    work: PollWork,
    members: Seq<Repository>,
    after: AccountStateView,
    lifetime: u64,
    key: Seq<char>,
) -> bool {
    let repositories = selection::prepared(members);
    &&& work.token@ == (ControllerTokenView {
        consent_generation: after.consent_generation,
        lifetime,
        account_key: key,
        selection: selection::selection_of(repositories),
        generation: after.generation,
    })
    &&& work.account@ == members[0].account@
    &&& selection::chunked(repositories, work.chunks@)
    &&& work.cache.entries@ == after.conditional_cache
}

/// The work of the poll of an account.
pub open spec fn is_work_of(
    work: PollWork,
    states: Map<Seq<char>, AccountStateView>,
    request: PollRequest,
    lifetime: u64,
    key: Seq<char>,
) -> bool {
    polls_members(
        work,
        selection::group(request.repositories, key),
        begun_state(states, request, key),
        lifetime,
        key,
    )
}

/// One piece of work for each account whose poll begins, in the order of the keys.
pub open spec fn is_begun_work(
    work: Seq<PollWork>,
    states: Map<Seq<char>, AccountStateView>,
    request: PollRequest,
    lifetime: u64,
) -> bool {
    &&& forall|i: int|
        #![trigger work[i]]
        0 <= i < work.len() ==> poll_begins(states, request, work[i].token.account_key@)
            && is_work_of(work[i], states, request, lifetime, work[i].token.account_key@)
    &&& forall|i: int, j: int|
        0 <= i < j < work.len() ==> text::text_less(
            (#[trigger] work[i]).token.account_key@,
            (#[trigger] work[j]).token.account_key@,
        )
    &&& forall|k: Seq<char>| #[trigger]
        poll_begins(states, request, k) ==> exists|i: int|
            0 <= i < work.len() && (#[trigger] work[i]).token.account_key@ == k
}

spec fn listed(keys: Seq<String>, n: int, k: Seq<char>) -> bool {
    exists|j: int| 0 <= j < n && (#[trigger] keys[j])@ == k
}

impl NotificationController {
    /// Selects repositories for one account and begins its poll where it may poll. Returns
    /// whether the selection changed, and the work of the poll.
    fn begin_one(
        &mut self,
        key: &String,
        members: &Vec<Repository>,
        now: Moment,
        due: &Vec<String>,
    ) -> (r: (bool, Option<PollWork>))
        requires
            old(self).runtime is Some,
            members@.len() > 0,
        ensures
            ({
                let state = controller::state_or_unknown(old(self).states(), key@);
                let chosen = selecting(
                    state,
                    members@,
                    preference(old(self).runtime->0.preferences@, key@),
                );
                let begins = account::may_poll(chosen, now, text::texts(due@).contains(key@));
                let after = if begins {
                    account::polling(chosen)
                } else {
                    chosen
                };
                &&& final(self).only_accounts_differ(*old(self))
                &&& final(self).states() == old(self).states().insert(key@, after)
                &&& r.0 == (state.selection != selection::selection_of(
                    selection::prepared(members@),
                ))
                &&& r.1 is Some == begins
                &&& r.1 matches Some(work) ==> polls_members(
                    work,
                    members@,
                    after,
                    old(self).lifetime,
                    key@,
                )
            }),
    {
        let repositories = selection::prepare(members);
        let selection = selection::selection_key(&repositories);
        let preference: Option<bool> = match &self.runtime {
            Some(runtime) => match runtime.preferences.get(key) {
                Some(b) => Some(*b),
                None => None,
            },
            None => None,
        };
        let mut state = match self.take(key) {
            Some(s) => s,
            None => AccountViewState::unknown(),
        };
        let account = members[0].account.clone();
        let differs: bool = state.reselect(&account, &repositories, &selection, preference);
        let ghost chosen = state@;
        let may: bool = !state.in_flight && state.server_gate.allows(now) && text::is_among(
            due,
            key,
        );
        let mut work: Option<PollWork> = None;
        if may {
            state.begin_poll();
            let token = ControllerToken {
                consent_generation: state.consent_generation,
                lifetime: self.lifetime,
                account_key: key.clone(),
                selection,
                generation: state.generation,
            };
            let cache = state.conditional_cache.copy();
            work = Some(
                PollWork { token, account, chunks: selection::chunks_of(&repositories), cache },
            );
        }
        let ghost after = state@;
        self.put(key.clone(), state);
        proof {
            assert(self.states() =~= old(self).states().insert(key@, after));
        }
        (differs, work)
    }

    /// Makes the repositories the selection of their accounts, deselects the accounts that
    /// have none, and begins a poll of each selected account that may poll now.
    pub fn begin_polls_when_at(
        &mut self,
        repositories: &Vec<Repository>,
        now: Moment,
        due: &Vec<String>,
    ) -> (work: Vec<PollWork>)
        ensures
            match old(self).runtime {
                None => *final(self) == *old(self) && work@.len() == 0,
                Some(runtime) => {
                    let request = PollRequest {
                        repositories: repositories@,
                        now,
                        due: text::texts(due@),
                        preferences: runtime.preferences@,
                    };
                    let states = old(self).states();
                    &&& final(self).only_accounts_and_queue_differ(*old(self))
                    &&& final(self).states() == begun_states(states, request)
                    &&& final(self).queued@ == old(self).queued@.filter(
                        |q: QueuedNotification|
                            !selection_changes(states, request, q.account_key@),
                    )
                    &&& is_begun_work(work@, states, request, old(self).lifetime)
                },
            },
    {
        let mut work: Vec<PollWork> = Vec::new();
        if self.runtime.is_none() {
            return work;
        }
        let ghost request = PollRequest {
            repositories: repositories@,
            now,
            due: text::texts(due@),
            preferences: self.runtime->0.preferences@,
        };
        let ghost start = self.states();
        let groups = selection::group_by_account(repositories);
        let mut changed: Vec<String> = Vec::new();
        let known = self.accounts.keys();
        let mut i: usize = 0;
        while i < known.len()
            invariant
                i <= known@.len(),
                request.repositories == repositories@,
                selection::grouped_by_account(repositories@, groups@),
                text_map::lists_keys(known@, old(self).accounts@),
                start == old(self).states(),
                self.only_accounts_differ(*old(self)),
                forall|k: Seq<char>| #[trigger]
                    self.states().contains_key(k) == start.contains_key(k),
                forall|j: int|
                    0 <= j < i ==> self.states()[(#[trigger] known@[j])@] == if is_selected_key(
                        request,
                        known@[j]@,
                    ) {
                        start[known@[j]@]
                    } else {
                        account::deselected(start[known@[j]@])
                    },
                forall|j: int|
                    i <= j < known@.len() ==> self.states()[(#[trigger] known@[j])@]
                        == start[known@[j]@],
                forall|k: Seq<char>| #[trigger]
                    text::texts(changed@).contains(k) == (listed(known@, i as int, k)
                        && !is_selected_key(request, k)),
            decreases known.len() - i,
        {
            let ghost key = known@[i as int]@;
            let ghost changed_before = changed@;
            proof {
                text::law_text_order_is_irreflexive(key);
                assert(start.contains_key(key));
                assert(self.states().contains_key(key));
                assert(groups@.contains_key(key) == is_selected_key(request, key));
            }
            if !groups.contains_key(&known[i]) {
                if let Some(state) = self.take(&known[i]) {
                    let mut state = state;
                    state.deselect();
                    self.put(known[i].clone(), state);
                }
                changed.push(known[i].clone());
                proof {
                    assert(text::texts(changed@) =~= text::texts(changed_before).push(key));
                }
            }
            proof {
                assert forall|k: Seq<char>| #[trigger]
                    text::texts(changed@).contains(k) == (listed(known@, i + 1, k)
                        && !is_selected_key(request, k)) by {
                    lemma_listed_step(known@, i as int, k);
                    lemma_contains_push(text::texts(changed_before), key, k);
                }
            }
            i += 1;
        }
        let ghost cleared = self.states();
        proof {
            assert forall|k: Seq<char>| start.contains_key(k) implies #[trigger] cleared[k] == (
            if is_selected_key(request, k) {
                start[k]
            } else {
                account::deselected(start[k])
            }) by {
                assert(old(self).accounts@.contains_key(k));
                let j = choose|j: int| 0 <= j < known@.len() && (#[trigger] known@[j])@ == k;
                assert(known@[j]@ == k);
            }
            assert forall|k: Seq<char>| #[trigger]
                text::texts(changed@).contains(k) == (start.contains_key(k) && !is_selected_key(
                    request,
                    k,
                )) by {
                assert(listed(known@, known@.len() as int, k) == start.contains_key(k)) by {
                    if start.contains_key(k) {
                        assert(old(self).accounts@.contains_key(k));
                    }
                    if listed(known@, known@.len() as int, k) {
                        let j = choose|j: int| 0 <= j < known@.len() && (#[trigger] known@[j])@ == k;
                        assert(old(self).accounts@.contains_key(known@[j]@));
                    }
                }
            }
        }
        let selected = groups.keys();
        let ghost mut places: Seq<int> = Seq::empty();
        let mut g: usize = 0;
        while g < selected.len()
            invariant
                g <= selected@.len(),
                self.runtime == old(self).runtime,
                self.runtime is Some,
                request == (PollRequest {
                    repositories: repositories@,
                    now,
                    due: text::texts(due@),
                    preferences: old(self).runtime->0.preferences@,
                }),
                selection::grouped_by_account(repositories@, groups@),
                text_map::lists_keys(selected@, groups@),
                start == old(self).states(),
                self.only_accounts_differ(*old(self)),
                forall|k: Seq<char>| #[trigger] cleared.contains_key(k) == start.contains_key(k),
                forall|k: Seq<char>|
                    start.contains_key(k) ==> #[trigger] cleared[k] == (if is_selected_key(
                        request,
                        k,
                    ) {
                        start[k]
                    } else {
                        account::deselected(start[k])
                    }),
                forall|k: Seq<char>| #[trigger]
                    self.states().contains_key(k) == (start.contains_key(k) || listed(
                        selected@,
                        g as int,
                        k,
                    )),
                forall|k: Seq<char>|
                    self.states().contains_key(k) ==> #[trigger] self.states()[k] == (if listed(
                        selected@,
                        g as int,
                        k,
                    ) {
                        begun_state(start, request, k)
                    } else {
                        cleared[k]
                    }),
                forall|k: Seq<char>| #[trigger]
                    text::texts(changed@).contains(k) == ((start.contains_key(k)
                        && !is_selected_key(request, k)) || (listed(selected@, g as int, k)
                        && selection_changes(start, request, k))),
                places.len() == work@.len(),
                forall|n: int|
                    #![trigger work@[n]]
                    #![trigger places[n]]
                    0 <= n < work@.len() ==> 0 <= places[n] < g && work@[n].token.account_key@
                        == selected@[places[n]]@ && poll_begins(
                        start,
                        request,
                        work@[n].token.account_key@,
                    ) && is_work_of(
                        work@[n],
                        start,
                        request,
                        old(self).lifetime,
                        work@[n].token.account_key@,
                    ),
                forall|n: int, m: int|
                    0 <= n < m < places.len() ==> (#[trigger] places[n]) < (#[trigger] places[m]),
                forall|j: int|
                    0 <= j < g && poll_begins(start, request, (#[trigger] selected@[j])@)
                        ==> exists|n: int|
                        0 <= n < work@.len() && (#[trigger] work@[n]).token.account_key@
                            == selected@[j]@,
            decreases selected.len() - g,
        {
            let ghost key = selected@[g as int]@;
            let ghost before = self.states();
            let ghost changed_before = changed@;
            let ghost work_before = work@;
            proof {
                text::law_text_order_is_irreflexive(key);
                assert(groups@.contains_key(key));
                assert(is_selected_key(request, key));
                assert(!listed(selected@, g as int, key));
                assert(before.contains_key(key) == start.contains_key(key));
                if start.contains_key(key) {
                    assert(before[key] == cleared[key]);
                    assert(cleared[key] == start[key]);
                }
            }
            if let Some(members) = groups.get(&selected[g]) {
                proof {
                    assert(members@ == selection::group(repositories@, key));
                    assert(controller::state_or_unknown(before, key)
                        == controller::state_or_unknown(start, key));
                }
                let (differs, begun) = self.begin_one(&selected[g], members, now, due);
                if differs {
                    changed.push(selected[g].clone());
                    proof {
                        assert(text::texts(changed@) =~= text::texts(changed_before).push(key));
                    }
                }
                let ghost may = begun is Some;
                proof {
                    assert(may == poll_begins(start, request, key));
                }
                if let Some(piece) = begun {
                    work.push(piece);
                    proof {
                        assert(is_work_of(piece, start, request, old(self).lifetime, key));
                        places = places.push(g as int);
                        assert(work@[work_before.len() as int].token.account_key@ == key);
                    }
                }
                proof {
                    let after = self.states();
                    assert(after == before.insert(key, begun_state(start, request, key)));
                    assert forall|k: Seq<char>| #[trigger] after.contains_key(k) == (
                    start.contains_key(k) || listed(selected@, g + 1, k)) by {
                        lemma_listed_step(selected@, g as int, k);
                        assert(before.contains_key(k) == (start.contains_key(k) || listed(
                            selected@,
                            g as int,
                            k,
                        )));
                    }
                    assert forall|k: Seq<char>| after.contains_key(k) implies #[trigger] after[k]
                        == (if listed(selected@, g + 1, k) {
                        begun_state(start, request, k)
                    } else {
                        cleared[k]
                    }) by {
                        lemma_listed_step(selected@, g as int, k);
                        if k != key {
                            assert(before.contains_key(k));
                            assert(after[k] == before[k]);
                        }
                    }
                    assert forall|k: Seq<char>| #[trigger]
                        text::texts(changed@).contains(k) == ((start.contains_key(k)
                            && !is_selected_key(request, k)) || (listed(selected@, g + 1, k)
                            && selection_changes(start, request, k))) by {
                        lemma_listed_step(selected@, g as int, k);
                        lemma_contains_push(text::texts(changed_before), key, k);
                        assert(text::texts(changed_before).contains(k) == ((start.contains_key(k)
                            && !is_selected_key(request, k)) || (listed(selected@, g as int, k)
                            && selection_changes(start, request, k))));
                    }
                    assert forall|j: int|
                        0 <= j < g + 1 && poll_begins(
                            start,
                            request,
                            (#[trigger] selected@[j])@,
                        ) implies exists|n: int|
                        0 <= n < work@.len() && (#[trigger] work@[n]).token.account_key@
                            == selected@[j]@ by {
                        if j < g {
                            let n = choose|n: int|
                                0 <= n < work_before.len() && (
                                #[trigger] work_before[n]).token.account_key@ == selected@[j]@;
                            assert(work@[n].token.account_key@ == selected@[j]@);
                        } else {
                            assert(may);
                            assert(work@[work_before.len() as int].token.account_key@
                                == selected@[j]@);
                        }
                    }
                }
            }
            g += 1;
        }
        let ghost queued_before = self.queued@;
        let ghost ended = self.states();
        self.queued = controller::drop_accounts(&self.queued, &changed);
        proof {
            assert forall|k: Seq<char>| #[trigger]
                listed(selected@, selected@.len() as int, k) == is_selected_key(request, k) by {
                assert(groups@.contains_key(k) == is_selected_key(request, k));
                if listed(selected@, selected@.len() as int, k) {
                    let j = choose|j: int|
                        0 <= j < selected@.len() && (#[trigger] selected@[j])@ == k;
                    assert(groups@.contains_key(selected@[j]@));
                }
            }
            assert forall|k: Seq<char>| #[trigger]
                ended.contains_key(k) == begun_states(start, request).contains_key(k) by {
                assert(listed(selected@, selected@.len() as int, k) == is_selected_key(request, k));
            }
            assert forall|k: Seq<char>| #[trigger] ended.contains_key(k) implies ended[k]
                == begun_states(start, request)[k] by {
                assert(listed(selected@, selected@.len() as int, k) == is_selected_key(request, k));
                if !is_selected_key(request, k) {
                    assert(ended[k] == cleared[k]);
                }
            }
            assert(ended =~= begun_states(start, request));
            assert(self.states() == ended);
            let p = |q: QueuedNotification| !text::texts(changed@).contains(q.account_key@);
            let q = |q: QueuedNotification| !selection_changes(start, request, q.account_key@);
            assert forall|x: QueuedNotification| #[trigger] p(x) == q(x) by {
                let k = x.account_key@;
                assert(listed(selected@, selected@.len() as int, k) == is_selected_key(request, k));
                assert(text::texts(changed@).contains(k) == ((start.contains_key(k)
                    && !is_selected_key(request, k)) || (listed(
                    selected@,
                    selected@.len() as int,
                    k,
                ) && selection_changes(start, request, k))));
            }
            assert(p =~= q);
            assert(self.queued@ == queued_before.filter(q));
            assert forall|n: int, m: int| 0 <= n < m < work@.len() implies text::text_less(
                (#[trigger] work@[n]).token.account_key@,
                (#[trigger] work@[m]).token.account_key@,
            ) by {
                assert(places[n] < places[m]);
                assert(text::text_less(selected@[places[n]]@, selected@[places[m]]@));
            }
            assert forall|k: Seq<char>| #[trigger] poll_begins(start, request, k) implies exists|
                n: int,
            |
                0 <= n < work@.len() && (#[trigger] work@[n]).token.account_key@ == k by {
                assert(listed(selected@, selected@.len() as int, k));
                let j = choose|j: int| 0 <= j < selected@.len() && (#[trigger] selected@[j])@ == k;
                assert(poll_begins(start, request, selected@[j]@));
            }
        }
        work
    }
}

proof fn lemma_listed_step(keys: Seq<String>, n: int, k: Seq<char>)
    requires
        0 <= n < keys.len(),
    ensures
        listed(keys, n + 1, k) == (listed(keys, n, k) || keys[n]@ == k),
{
    if listed(keys, n, k) {
        let j = choose|j: int| 0 <= j < n && (#[trigger] keys[j])@ == k;
        assert(keys[j]@ == k);
    }
}

proof fn lemma_contains_push(s: Seq<Seq<char>>, x: Seq<char>, k: Seq<char>)
    ensures
        s.push(x).contains(k) == (s.contains(k) || x == k),
{
    if s.contains(k) {
        let i = choose|i: int| 0 <= i < s.len() && s[i] == k;
        assert(s.push(x)[i] == k);
    }
    if x == k {
        assert(s.push(x)[s.len() as int] == k);
    }
    if s.push(x).contains(k) {
        let i = choose|i: int| 0 <= i < s.push(x).len() && s.push(x)[i] == k;
        if i < s.len() {
            assert(s[i] == k);
        }
    }
}

// ---------------------------------------------------------------------------
// Completing polls

/// The states after a poll reported its end; a poll that no longer holds the lane of its
/// account changes nothing.
pub open spec fn states_after_release(
    states: Map<Seq<char>, AccountStateView>,
    lifetime: u64,
    completion: PollCompletion,
    now: Moment,
    wall: Option<u64>,
) -> Map<Seq<char>, AccountStateView> {
    let key = model::account_key_of(completion.account@);
    if states.contains_key(key) && account::holds_lane(
        completion.token@,
        lifetime,
        key,
        states[key],
    ) {
        states.insert(
            key,
            account::released(
                states[key],
                completion.token@,
                lifetime,
                key,
                completion.account@,
                completion.poll,
                now,
                wall,
            ),
        )
    } else {
        states
    }
}

/// Whether the poll may change what its account shows.
pub open spec fn poll_accepted(
    states: Map<Seq<char>, AccountStateView>,
    lifetime: u64,
    completion: PollCompletion,
) -> bool {
    let key = model::account_key_of(completion.account@);
    states.contains_key(key) && account::token_current(
        completion.token@,
        lifetime,
        key,
        states[key],
    )
}

/// Whether the account shows a later state of the store than the poll brought.
pub open spec fn shows_later(s: AccountStateView, completion: PollCompletion) -> bool {
    s.snapshot matches Some(current) && current.state_version > completion.snapshot.state_version
}

pub open spec fn idle(s: AccountStateView) -> AccountStateView {
    AccountStateView { in_flight: false, ..s }
}

/// The account after it took what the poll brought.
pub open spec fn updated(s: AccountStateView, completion: PollCompletion) -> AccountStateView {
    let snapshot = selection::projected(completion.snapshot@, s.selected_repositories);
    let last = account::last_page(account::events_of(snapshot.unread_by_pull_request).len());
    AccountStateView {
        in_flight: false,
        conditional_cache: completion.cache.entries@,
        snapshot: Some(snapshot),
        stale_notice: text::option_text(completion.error),
        page: if s.page as nat <= last {
            s.page
        } else {
            last as usize
        },
        ..s
    }
}

/// Whether the new events of an accepted poll may become alerts. A poll that began before the
/// present consent was given brings none.
pub open spec fn alerts_admitted(s: AccountStateView, completion: PollCompletion) -> bool {
    &&& selection::selected_events(completion.newly_admitted@, s.selected_repositories).len() > 0
    &&& s.consent_enabled
    &&& !s.consent_transition
    &&& completion.token.consent_generation == s.consent_generation
}

/// The states after a poll was completed.
pub open spec fn completed_states(
    before: Map<Seq<char>, AccountStateView>,
    open: bool,
    lifetime: u64,
    completion: PollCompletion,
    now: Moment,
    wall: Option<u64>,
) -> Map<Seq<char>, AccountStateView> {
    let key = model::account_key_of(completion.account@);
    let states = states_after_release(before, lifetime, completion, now, wall);
    if !poll_accepted(states, lifetime, completion) {
        states
    } else if shows_later(states[key], completion) {
        states.insert(key, idle(states[key]))
    } else {
        let shown = states.insert(key, updated(states[key], completion));
        if open {
            controller::each_captured(shown)
        } else {
            shown
        }
    }
}

/// Whether a completed poll has alerts recorded.
pub open spec fn completion_admits(
    before: Map<Seq<char>, AccountStateView>,
    lifetime: u64,
    completion: PollCompletion,
    now: Moment,
    wall: Option<u64>,
) -> bool {
    let key = model::account_key_of(completion.account@);
    let states = states_after_release(before, lifetime, completion, now, wall);
    poll_accepted(states, lifetime, completion) && !shows_later(states[key], completion)
        && alerts_admitted(states[key], completion)
}

impl NotificationController {
    /// Gives up the lane that the poll held, and notes the delays that the server asked for.
    pub fn release_poll_at(
        &mut self,
        completion: &PollCompletion,
        now: Moment,
        wall: Option<u64>,
    ) -> (r: bool)
        ensures
            final(self).only_accounts_differ(*old(self)),
            final(self).states() == states_after_release(
                old(self).states(),
                old(self).lifetime,
                *completion,
                now,
                wall,
            ),
            ({
                let key = model::account_key_of(completion.account@);
                r == (old(self).states().contains_key(key) && account::holds_lane(
                    completion.token@,
                    old(self).lifetime,
                    key,
                    old(self).states()[key],
                ))
            }),
    {
        let key = model::account_key(&completion.account);
        let holds: bool = match self.accounts.get(&key) {
            None => false,
            Some(state) => completion.token.lifetime == self.lifetime
                && completion.token.account_key == key && (match state.active_poll_generation {
                Some(g) => g == completion.token.generation,
                None => false,
            }),
        };
        if !holds {
            return false;
        }
        if let Some(state) = self.take(&key) {
            let mut state = state;
            state.release(
                &completion.token,
                self.lifetime,
                &key,
                &completion.account,
                &completion.poll,
                now,
                wall,
            );
            let ghost after = state@;
            self.put(key, state);
            proof {
                assert(self.states() =~= old(self).states().insert(key@, after));
            }
        }
        true
    }

    pub fn accepts_poll(&self, completion: &PollCompletion) -> (r: bool)
        ensures
            r == poll_accepted(self.states(), self.lifetime, *completion),
    {
        let key = model::account_key(&completion.account);
        match self.accounts.get(&key) {
            None => false,
            Some(state) => account::token_matches(&completion.token, self.lifetime, &key, state),
        }
    }

    /// Takes what a poll brought, where the poll is still current and nothing later is shown.
    /// Returns the new events that may become alerts.
    pub fn complete_poll(
        &mut self,
        completion: PollCompletion,
        now: Moment,
        wall: Option<u64>,
    ) -> (r: Option<AdmissionWork>)
        ensures
            final(self).only_accounts_differ(*old(self)),
            final(self).states() == completed_states(
                old(self).states(),
                old(self).open,
                old(self).lifetime,
                completion,
                now,
                wall,
            ),
            r is Some == (old(self).runtime is Some && completion_admits(
                old(self).states(),
                old(self).lifetime,
                completion,
                now,
                wall,
            )),
            r matches Some(work) ==> {
                let key = model::account_key_of(completion.account@);
                let states = states_after_release(
                    old(self).states(),
                    old(self).lifetime,
                    completion,
                    now,
                    wall,
                );
                &&& work.token@ == (controller::AdmissionTokenView {
                    lifetime: old(self).lifetime,
                    account_key: key,
                    selection: completion.token.selection@,
                    selection_generation: states[key].selection_generation,
                    consent_generation: states[key].consent_generation,
                })
                &&& work.account == completion.account
                &&& work.events@ == selection::selected_events(
                    completion.newly_admitted@,
                    states[key].selected_repositories,
                )
            },
    {
        let _ = self.release_poll_at(&completion, now, wall);
        let ghost states = self.states();
        let key = model::account_key(&completion.account);
        if !self.accepts_poll(&completion) {
            return None;
        }
        let taken = self.take(&key);
        let mut state = match taken {
            Some(s) => s,
            None => {
                return None;
            },
        };
        let ghost before = state@;
        let later: bool = match &state.snapshot {
            Some(current) => current.state_version > completion.snapshot.state_version,
            None => false,
        };
        if later {
            state.in_flight = false;
            proof {
                assert(state@ =~= idle(before));
            }
            self.put(key, state);
            proof {
                assert(self.states() =~= states.insert(key@, idle(before)));
            }
            return None;
        }
        let events = selection::select_events(
            &completion.newly_admitted,
            &state.selected_repositories,
        );
        let snapshot = selection::project_snapshot(
            completion.snapshot,
            &state.selected_repositories,
        );
        state.in_flight = false;
        state.conditional_cache = completion.cache;
        state.snapshot = Some(snapshot);
        state.stale_notice = completion.error;
        let last: usize = account::max_page(&state.snapshot);
        if state.page > last {
            state.page = last;
        }
        proof {
            assert(state@ =~= updated(before, completion));
        }
        let admitted: bool = events.len() > 0 && state.consent_enabled && !state.consent_transition
            && completion.token.consent_generation == state.consent_generation;
        let selection_generation: u64 = state.selection_generation;
        let consent_generation: u64 = state.consent_generation;
        self.put(key.clone(), state);
        proof {
            assert(self.states() =~= states.insert(key@, updated(before, completion)));
        }
        if self.open {
            self.capture_displayed();
        }
        if !admitted || self.runtime.is_none() {
            return None;
        }
        Some(
            AdmissionWork {
                token: AdmissionToken {
                    lifetime: self.lifetime,
                    account_key: key,
                    selection: completion.token.selection,
                    selection_generation,
                    consent_generation,
                },
                account: completion.account,
                events,
            },
        )
    }
}

} // verus!

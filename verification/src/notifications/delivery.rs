//! Consent to alerts, their delivery, and marks of read events.

use vstd::prelude::*;
use vstd::string::*;

use crate::domain::{Account, AccountView};
use crate::notifications::account;
use crate::notifications::account::{AccountStateView, AccountViewState};
use crate::notifications::controller;
use crate::notifications::controller::{
    AdmissionCompletion, AdmissionTokenView, ConsentCompletion, ConsentToken, ConsentTokenView, ConsentWork, MarkReadCompletion, MarkReadWork,
    MarkToken, MarkTokenView, NotificationController,
};
use crate::notifications::model;
use crate::notifications::model::{
    DisplayedNotificationSet, NotificationEventIdentity, NotificationRoute, QueuedNotification,
};
use crate::notifications::registry;
use crate::notifications::selection;
use crate::seqs;
use crate::text;

verus! {

// ---------------------------------------------------------------------------
// Consent

/// The account while a change of consent is stored.
pub open spec fn changing_consent(s: AccountStateView, account: AccountView) -> AccountStateView {
    AccountStateView {
        account: Some(account),
        consent_generation: account::bump(s.consent_generation),
        consent_transition: true,
        ..s
    }
}

pub open spec fn consent_notice(enabled: bool) -> Seq<char> {
    if enabled {
        "macOS alerts enabled for future exact events. Permission and delivery remain best effort; no historical catch-up was requested."@
    } else {
        "macOS alerts disabled. Pending UI dispatch was cancelled; in-app unread is unchanged."@
    }
}

/// The account after the change of consent was stored, or could not be.
pub open spec fn consent_settled(
    s: AccountStateView,
    enabled: bool,
    result: Result<(), String>,
) -> AccountStateView {
    match result {
        Ok(_) => AccountStateView {
            consent_transition: false,
            consent_enabled: enabled,
            stale_notice: Some(consent_notice(enabled)),
            ..s
        },
        Err(e) => AccountStateView {
            consent_transition: false,
            stale_notice: Some(
                "Preference was not changed; no OS notification requested: "@ + e@,
            ),
            ..s
        },
    }
}

impl NotificationController {
    /// Begins to turn alerts on or off. Alerts of the account that wait are withdrawn.
    pub fn begin_consent(&mut self, account: &Account, enabled: bool) -> (r: Option<ConsentWork>)
        ensures
            final(self).only_accounts_and_queue_differ(*old(self)),
            old(self).runtime is None ==> *final(self) == *old(self) && r is None,
            old(self).runtime is Some ==> {
                let key = model::account_key_of(account@);
                let state = controller::state_or_unknown(old(self).states(), key);
                if state.consent_transition || state.consent_enabled == enabled {
                    &&& r is None
                    &&& final(self).states() == old(self).states().insert(key, state)
                    &&& final(self).queued == old(self).queued
                } else {
                    &&& r matches Some(work) && work.token@ == (ConsentTokenView {
                        lifetime: old(self).lifetime,
                        account_key: key,
                        generation: account::bump(state.consent_generation),
                    }) && work.account == *account && work.enabled == enabled
                    &&& final(self).states() == old(self).states().insert(
                        key,
                        changing_consent(state, account@),
                    )
                    &&& final(self).queued@ == controller::without_account(old(self).queued@, key)
                }
            },
    {
        if self.runtime.is_none() {
            return None;
        }
        let key = model::account_key(account);
        let mut state = match self.take(&key) {
            Some(s) => s,
            None => AccountViewState::unknown(),
        };
        let ghost before = state@;
        if state.consent_transition || state.consent_enabled == enabled {
            self.put(key, state);
            proof {
                assert(self.states() =~= old(self).states().insert(key@, before));
            }
            return None;
        }
        state.account = Some(account.clone());
        state.consent_generation = state.consent_generation.saturating_add(1);
        state.consent_transition = true;
        let generation: u64 = state.consent_generation;
        proof {
            assert(state@ =~= changing_consent(before, account@));
        }
        self.put(key.clone(), state);
        proof {
            assert(self.states() =~= old(self).states().insert(
                key@,
                changing_consent(before, account@),
            ));
        }
        self.queued = controller::drop_account(&self.queued, &key);
        Some(
            ConsentWork {
                token: ConsentToken { lifetime: self.lifetime, account_key: key, generation },
                account: account.clone(),
                enabled,
            },
        )
    }

    /// What `begin_consent` does for the opposite of the present consent.
    pub fn begin_toggle_consent(&mut self, account: &Account) -> (r: Option<ConsentWork>)
        ensures
            final(self).only_accounts_and_queue_differ(*old(self)),
            old(self).runtime is None ==> *final(self) == *old(self) && r is None,
            old(self).runtime is Some ==> {
                let key = model::account_key_of(account@);
                let state = controller::state_or_unknown(old(self).states(), key);
                if state.consent_transition {
                    &&& r is None
                    &&& final(self).states() == old(self).states().insert(key, state)
                    &&& final(self).queued == old(self).queued
                } else {
                    &&& r matches Some(work) && work.token@ == (ConsentTokenView {
                        lifetime: old(self).lifetime,
                        account_key: key,
                        generation: account::bump(state.consent_generation),
                    }) && work.account == *account && work.enabled == !state.consent_enabled
                    &&& final(self).states() == old(self).states().insert(
                        key,
                        changing_consent(state, account@),
                    )
                    &&& final(self).queued@ == controller::without_account(old(self).queued@, key)
                }
            },
    {
        let enabled: bool = match self.accounts.get(&model::account_key(account)) {
            Some(state) => state.consent_enabled,
            None => false,
        };
        self.begin_consent(account, !enabled)
    }

    /// Takes the outcome of a change of consent; a change that is not the latest is ignored.
    pub fn complete_consent(&mut self, completion: ConsentCompletion) -> (r: bool)
        ensures
            final(self).lifetime == old(self).lifetime,
            final(self).open == old(self).open,
            final(self).initialization_error == old(self).initialization_error,
            final(self).queued == old(self).queued,
            final(self).routes == old(self).routes,
            final(self).route_order == old(self).route_order,
            ({
                let key = model::account_key_of(completion.account@);
                let states = old(self).states();
                let current = states.contains_key(key) && completion.token.lifetime == old(
                    self,
                ).lifetime && completion.token.account_key@ == key && completion.token.generation
                    == states[key].consent_generation;
                &&& r == (current && completion.result is Ok)
                &&& !current ==> *final(self) == *old(self)
                &&& current ==> final(self).states() == states.insert(
                    key,
                    consent_settled(states[key], completion.enabled, completion.result),
                )
                &&& current && completion.result is Err ==> final(self).runtime == old(self).runtime
                &&& current && completion.result is Ok ==> match old(self).runtime {
                    None => final(self).runtime is None,
                    Some(before) => final(self).runtime matches Some(after) && after.preferences@
                        == before.preferences@.insert(key, completion.enabled),
                }
            }),
    {
        let key = model::account_key(&completion.account);
        let current: bool = match self.accounts.get(&key) {
            None => false,
            Some(state) => completion.token.lifetime == self.lifetime
                && completion.token.account_key == key && completion.token.generation
                == state.consent_generation,
        };
        if !current {
            return false;
        }
        let mut state = match self.take(&key) {
            Some(s) => s,
            None => {
                return false;
            },
        };
        let ghost before = state@;
        state.consent_transition = false;
        let stored: bool = match completion.result {
            Ok(_) => {
                state.consent_enabled = completion.enabled;
                state.stale_notice = Some(
                    (if completion.enabled {
                        "macOS alerts enabled for future exact events. Permission and delivery remain best effort; no historical catch-up was requested."
                    } else {
                        "macOS alerts disabled. Pending UI dispatch was cancelled; in-app unread is unchanged."
                    }).to_owned(),
                );
                true
            },
            Err(e) => {
                let mut text: String = "Preference was not changed; no OS notification requested: ".to_owned();
                text.append(&e);
                state.stale_notice = Some(text);
                false
            },
        };
        let ghost after = consent_settled(before, completion.enabled, completion.result);
        proof {
            assert(state@ =~= after);
        }
        self.put(key.clone(), state);
        proof {
            assert(self.states() =~= old(self).states().insert(key@, after));
        }
        if stored {
            let ghost settled = self.states();
            if let Some(runtime) = self.runtime.take() {
                let mut runtime = runtime;
                runtime.preferences.insert(key, completion.enabled);
                self.runtime = Some(runtime);
            }
            proof {
                assert(self.states() == settled);
            }
        }
        stored
    }
}

// ---------------------------------------------------------------------------
// Delivery

/// Whether alerts that were reserved for `token` may still be delivered.
pub open spec fn admission_current(
    states: Map<Seq<char>, AccountStateView>,
    lifetime: u64,
    token: AdmissionTokenView,
) -> bool {
    &&& states.contains_key(token.account_key)
    &&& token.lifetime == lifetime
    &&& token.selection.len() > 0
    &&& token.selection == states[token.account_key].selection
    &&& token.selection_generation == states[token.account_key].selection_generation
    &&& token.consent_generation == states[token.account_key].consent_generation
    &&& states[token.account_key].consent_enabled
    &&& !states[token.account_key].consent_transition
}

/// An alert that carries the selection and the consent it was admitted under.
pub open spec fn stamped(n: QueuedNotification, state: AccountViewState) -> QueuedNotification {
    QueuedNotification {
        consent_generation: state.consent_generation,
        selection: state.selection,
        selection_generation: state.selection_generation,
        ..n
    }
}

/// The routes under their tags, and the tags from the oldest to the newest.
#[verifier::ext_equal]
pub struct RouteTable {
    pub routes: Map<Seq<char>, NotificationRoute>,
    pub order: Seq<Seq<char>>,
}

/// Without the oldest routes, as many as are too many.
pub open spec fn expired(table: RouteTable) -> RouteTable
    decreases table.order.len(),
{
    if table.order.len() > registry::MAX_RETAINED_ROUTES {
        expired(
            RouteTable {
                routes: table.routes.remove(table.order[0]),
                order: table.order.drop_first(),
            },
        )
    } else {
        table
    }
}

/// The tags but one, in their order.
pub open spec fn tags_but(order: Seq<Seq<char>>, tag: Seq<char>) -> Seq<Seq<char>>
    decreases order.len(),
{
    if order.len() == 0 {
        order
    } else if order.last() == tag {
        tags_but(order.drop_last(), tag)
    } else {
        tags_but(order.drop_last(), tag).push(order.last())
    }
}

pub open spec fn routed(table: RouteTable, n: QueuedNotification) -> RouteTable {
    expired(
        RouteTable {
            routes: table.routes.insert(n.notification.tag@, n.route),
            order: tags_but(table.order, n.notification.tag@).push(n.notification.tag@),
        },
    )
}

pub open spec fn all_routed(table: RouteTable, admitted: Seq<QueuedNotification>) -> RouteTable
    decreases admitted.len(),
{
    if admitted.len() == 0 {
        table
    } else {
        routed(all_routed(table, admitted.drop_last()), admitted.last())
    }
}

/// Whether an alert that waits may be handed to the platform now.
pub open spec fn deliverable(
    states: Map<Seq<char>, AccountStateView>,
    q: QueuedNotification,
) -> bool {
    &&& states.contains_key(q.account_key@)
    &&& states[q.account_key@].consent_enabled
    &&& !states[q.account_key@].consent_transition
    &&& states[q.account_key@].consent_generation == q.consent_generation
    &&& q.selection@.len() > 0
    &&& states[q.account_key@].selection == q.selection@
    &&& states[q.account_key@].selection_generation == q.selection_generation
}

fn other_tags(order: &Vec<String>, tag: &str) -> (r: Vec<String>)
    ensures
        text::texts(r@) == tags_but(text::texts(order@), tag@),
{
    let ghost all = text::texts(order@);
    let mut out: Vec<String> = Vec::new();
    let mut i: usize = 0;
    proof {
        assert(all.take(0) =~= Seq::<Seq<char>>::empty());
        assert(text::texts(out@) =~= tags_but(all.take(0), tag@));
    }
    while i < order.len()
        invariant
            i <= order@.len(),
            all == text::texts(order@),
            text::texts(out@) == tags_but(all.take(i as int), tag@),
        decreases order.len() - i,
    {
        proof {
            assert(all.take(i + 1).drop_last() =~= all.take(i as int));
            assert(all.take(i + 1).last() == order@[i as int]@);
        }
        if !text::same_text(&order[i], tag) {
            let ghost before = out@;
            out.push(order[i].clone());
            proof {
                assert(text::texts(out@) =~= text::texts(before).push(order@[i as int]@));
            }
        }
        i += 1;
    }
    proof {
        assert(all.take(i as int) =~= all);
    }
    out
}

impl NotificationController {
    pub open spec fn route_table(self) -> RouteTable {
        RouteTable { routes: self.routes@, order: text::texts(self.route_order@) }
    }

    fn remember_route(&mut self, n: &QueuedNotification)
        ensures
            final(self).route_table() == routed(old(self).route_table(), *n),
            final(self).lifetime == old(self).lifetime,
            final(self).runtime == old(self).runtime,
            final(self).accounts == old(self).accounts,
            final(self).open == old(self).open,
            final(self).initialization_error == old(self).initialization_error,
            final(self).queued == old(self).queued,
    {
        let tag = n.notification.tag.clone();
        let mut order = other_tags(&self.route_order, &tag);
        let ghost kept = order@;
        order.push(tag.clone());
        self.routes.insert(tag, n.route.clone());
        proof {
            assert(text::texts(order@) =~= text::texts(kept).push(n.notification.tag@));
        }
        let ghost full = RouteTable { routes: self.routes@, order: text::texts(order@) };
        while order.len() > registry::MAX_RETAINED_ROUTES
            invariant
                expired(RouteTable { routes: self.routes@, order: text::texts(order@) }) == expired(
                    full,
                ),
                self.lifetime == old(self).lifetime,
                self.runtime == old(self).runtime,
                self.accounts == old(self).accounts,
                self.open == old(self).open,
                self.initialization_error == old(self).initialization_error,
                self.queued == old(self).queued,
            decreases order.len(),
        {
            let ghost before = order@;
            let oldest = order.remove(0);
            let _ = self.routes.remove(&oldest);
            proof {
                assert(text::texts(order@) =~= text::texts(before).drop_first());
            }
        }
        self.route_order = order;
    }

    /// Queues alerts that the registry has reserved, unless consent or selection changed since.
    pub fn complete_admission(&mut self, completion: AdmissionCompletion) -> (r: bool)
        ensures
            final(self).lifetime == old(self).lifetime,
            final(self).runtime == old(self).runtime,
            final(self).open == old(self).open,
            final(self).initialization_error == old(self).initialization_error,
            ({
                let key = completion.token.account_key@;
                let current = admission_current(
                    old(self).states(),
                    old(self).lifetime,
                    completion.token@,
                );
                &&& r == (current && completion.result is Ok)
                &&& !current ==> *final(self) == *old(self)
                &&& current ==> match completion.result {
                    Err(e) => {
                        &&& final(self).states() == old(self).states().insert(
                            key,
                            AccountStateView {
                                stale_notice: Some(
                                    "Unread state saved, but OS delivery was suppressed because the local tag registry failed: "@
                                        + e@,
                                ),
                                ..old(self).states()[key]
                            },
                        )
                        &&& final(self).queued == old(self).queued
                        &&& final(self).routes == old(self).routes
                        &&& final(self).route_order == old(self).route_order
                    },
                    Ok(_) => {
                        &&& final(self).states() == old(self).states()
                        &&& final(self).queued@ == old(self).queued@
                            + completion.notifications@.map_values(
                            |n: QueuedNotification| stamped(n, old(self).accounts@[key]),
                        )
                        &&& final(self).route_table() == all_routed(
                            old(self).route_table(),
                            completion.notifications@,
                        )
                    },
                }
            }),
    {
        let ghost key = completion.token.account_key@;
        let current: bool = match self.accounts.get(&completion.token.account_key) {
            None => false,
            Some(state) => completion.token.lifetime == self.lifetime
                && !completion.token.selection.as_str().is_empty() && completion.token.selection
                == state.selection && completion.token.selection_generation
                == state.selection_generation && completion.token.consent_generation
                == state.consent_generation && state.consent_enabled && !state.consent_transition,
        };
        if !current {
            return false;
        }
        if let Err(e) = &completion.result {
            if let Some(state) = self.take(&completion.token.account_key) {
                let mut state = state;
                let ghost before = state@;
                let mut text: String = "Unread state saved, but OS delivery was suppressed because the local tag registry failed: ".to_owned();
                text.append(e);
                state.stale_notice = Some(text);
                let ghost after = state@;
                self.put(completion.token.account_key.clone(), state);
                proof {
                    assert(after =~= AccountStateView { stale_notice: Some(text@), ..before });
                    assert(self.states() =~= old(self).states().insert(key, after));
                }
            }
            return false;
        }
        let (selection, selection_generation, consent_generation): (String, u64, u64) =
            match self.accounts.get(&completion.token.account_key) {
            Some(state) => (
                state.selection.clone(),
                state.selection_generation,
                state.consent_generation,
            ),
            None => (String::new(), 0, 0),
        };
        let ghost state = old(self).accounts@[key];
        let ghost f = |n: QueuedNotification| stamped(n, state);
        let mut i: usize = 0;
        proof {
            assert(completion.notifications@.take(0) =~= Seq::<QueuedNotification>::empty());
            assert(old(self).queued@ + completion.notifications@.take(0).map_values(f) =~= old(
                self,
            ).queued@);
        }
        while i < completion.notifications.len()
            invariant
                i <= completion.notifications@.len(),
                self.lifetime == old(self).lifetime,
                self.runtime == old(self).runtime,
                self.accounts == old(self).accounts,
                self.open == old(self).open,
                self.initialization_error == old(self).initialization_error,
                selection == state.selection,
                selection_generation == state.selection_generation,
                consent_generation == state.consent_generation,
                f == (|n: QueuedNotification| stamped(n, state)),
                self.queued@ == old(self).queued@ + completion.notifications@.take(
                    i as int,
                ).map_values(f),
                self.route_table() == all_routed(
                    old(self).route_table(),
                    completion.notifications@.take(i as int),
                ),
            decreases completion.notifications.len() - i,
        {
            let mut n = completion.notifications[i].clone();
            let ghost all = completion.notifications@;
            proof {
                assert(all.take(i + 1).drop_last() =~= all.take(i as int));
                assert(all.take(i + 1).last() == all[i as int]);
                assert(all.take(i + 1).map_values(f) =~= all.take(i as int).map_values(f).push(
                    f(all[i as int]),
                ));
            }
            self.remember_route(&n);
            n.consent_generation = consent_generation;
            n.selection = selection.clone();
            n.selection_generation = selection_generation;
            let ghost before = self.queued@;
            let ghost table = self.route_table();
            self.queued.push(n);
            proof {
                assert(n == f(all[i as int]));
                assert(self.route_table() == table);
                assert(self.queued@ =~= old(self).queued@ + all.take(i + 1).map_values(f));
            }
            i += 1;
        }
        proof {
            assert(completion.notifications@.take(i as int) =~= completion.notifications@);
            assert(self.states() == old(self).states());
        }
        true
    }

    /// Empties the queue and returns the alerts that may still be delivered.
    pub fn take_system_notifications(&mut self) -> (r: Vec<QueuedNotification>)
        ensures
            r@ == old(self).queued@.filter(
                |q: QueuedNotification| deliverable(old(self).states(), q),
            ),
            final(self).queued@.len() == 0,
            final(self).lifetime == old(self).lifetime,
            final(self).runtime == old(self).runtime,
            final(self).accounts == old(self).accounts,
            final(self).open == old(self).open,
            final(self).initialization_error == old(self).initialization_error,
            final(self).routes == old(self).routes,
            final(self).route_order == old(self).route_order,
    {
        let mut queued: Vec<QueuedNotification> = Vec::new();
        std::mem::swap(&mut queued, &mut self.queued);
        let ghost states = old(self).states();
        let ghost p = |q: QueuedNotification| deliverable(states, q);
        let mut out: Vec<QueuedNotification> = Vec::new();
        let mut i: usize = 0;
        proof {
            seqs::lemma_filter_nothing(queued@, p);
        }
        while i < queued.len()
            invariant
                i <= queued@.len(),
                self.accounts == old(self).accounts,
                states == old(self).states(),
                p == (|q: QueuedNotification| deliverable(states, q)),
                out@ == queued@.take(i as int).filter(p),
            decreases queued.len() - i,
        {
            proof {
                seqs::lemma_filter_step(queued@, i as int, p);
            }
            let q = &queued[i];
            let deliver: bool = match self.accounts.get(&q.account_key) {
                None => false,
                Some(state) => state.consent_enabled && !state.consent_transition
                    && state.consent_generation == q.consent_generation
                    && !q.selection.as_str().is_empty() && state.selection == q.selection
                    && state.selection_generation == q.selection_generation,
            };
            if deliver {
                out.push(q.clone());
            }
            i += 1;
        }
        proof {
            assert(queued@.take(i as int) =~= queued@);
            assert(p =~= (|q: QueuedNotification| deliverable(old(self).states(), q)));
        }
        out
    }

    /// Where the activation of an alert leads, where its route is still known.
    pub fn route_for_tag(&self, tag: &str) -> (r: Option<NotificationRoute>)
        ensures
            r == if self.routes@.contains_key(tag@) {
                Some(self.routes@[tag@])
            } else {
                None
            },
    {
        match self.routes.get(tag) {
            Some(route) => Some(route.clone()),
            None => None,
        }
    }
}

// ---------------------------------------------------------------------------
// Marks

/// Whether a mark is still the latest one of its account and selection.
pub open spec fn mark_current(
    states: Map<Seq<char>, AccountStateView>,
    lifetime: u64,
    key: Seq<char>,
    token: MarkTokenView,
) -> bool {
    &&& states.contains_key(key)
    &&& token.lifetime == lifetime
    &&& token.account_key == key
    &&& token.selection == states[key].selection
    &&& token.selection_generation == states[key].selection_generation
    &&& token.generation == states[key].mark_generation
}

/// The account after displayed events were stored as read. A snapshot that is older than the
/// one on display is not taken.
pub open spec fn marked(s: AccountStateView, snapshot: model::NotificationSnapshotView) -> AccountStateView {
    let projected = selection::projected(snapshot, s.selected_repositories);
    AccountStateView {
        snapshot: if s.snapshot matches Some(current) && current.state_version
            > snapshot.state_version {
            s.snapshot
        } else {
            Some(projected)
        },
        displayed: None,
        ..s
    }
}

fn copy_displayed(d: &DisplayedNotificationSet) -> (r: DisplayedNotificationSet)
    ensures
        account::displayed_view(r) == account::displayed_view(*d),
{
    let mut events: Vec<NotificationEventIdentity> = Vec::new();
    let mut i: usize = 0;
    while i < d.events.len()
        invariant
            i <= d.events@.len(),
            events@ =~= d.events@.take(i as int),
        decreases d.events.len() - i,
    {
        events.push(d.events[i].clone());
        i += 1;
    }
    proof {
        assert(d.events@.take(i as int) =~= d.events@);
    }
    DisplayedNotificationSet { state_version: d.state_version, events }
}

impl NotificationController {
    /// Begins to mark exactly what stands on the screen of an account as read.
    pub fn begin_mark_displayed(&mut self, account: &Account) -> (r: Option<MarkReadWork>)
        ensures
            final(self).only_accounts_differ(*old(self)),
            ({
                let key = model::account_key_of(account@);
                let states = old(self).states();
                let can = old(self).runtime is Some && states.contains_key(key)
                    && states[key].displayed is Some;
                &&& r is Some == can
                &&& !can ==> *final(self) == *old(self)
                &&& can ==> final(self).states() == states.insert(
                    key,
                    AccountStateView {
                        mark_generation: account::bump(states[key].mark_generation),
                        ..states[key]
                    },
                )
                &&& r matches Some(work) ==> {
                    &&& work.token@ == (MarkTokenView {
                        lifetime: old(self).lifetime,
                        account_key: key,
                        selection: states[key].selection,
                        selection_generation: states[key].selection_generation,
                        generation: account::bump(states[key].mark_generation),
                    })
                    &&& work.account == *account
                    &&& Some(account::displayed_view(work.displayed)) == states[key].displayed
                }
            }),
    {
        if self.runtime.is_none() {
            return None;
        }
        let key = model::account_key(account);
        let displayed: DisplayedNotificationSet = match self.accounts.get(&key) {
            None => {
                return None;
            },
            Some(state) => match &state.displayed {
                None => {
                    return None;
                },
                Some(d) => copy_displayed(d),
            },
        };
        let mut state = match self.take(&key) {
            Some(s) => s,
            None => {
                return None;
            },
        };
        let ghost before = state@;
        state.mark_generation = state.mark_generation.saturating_add(1);
        let ghost after = state@;
        let token = MarkToken {
            lifetime: self.lifetime,
            account_key: key.clone(),
            selection: state.selection.clone(),
            selection_generation: state.selection_generation,
            generation: state.mark_generation,
        };
        self.put(key, state);
        proof {
            assert(after =~= AccountStateView {
                mark_generation: account::bump(before.mark_generation),
                ..before
            });
            assert(self.states() =~= old(self).states().insert(key@, after));
        }
        Some(MarkReadWork { token, account: account.clone(), displayed })
    }

    /// Takes the outcome of a mark, unless the selection or a later mark made it stale.
    pub fn complete_mark_displayed(&mut self, completion: MarkReadCompletion) -> (r: bool)
        ensures
            final(self).only_accounts_differ(*old(self)),
            ({
                let key = model::account_key_of(completion.account@);
                let states = old(self).states();
                let current = mark_current(states, old(self).lifetime, key, completion.token@);
                &&& r == (current && completion.result is Ok)
                &&& !current ==> *final(self) == *old(self)
                &&& current ==> final(self).states() == match completion.result {
                    Ok(snapshot) => controller::each_captured(
                        states.insert(key, marked(states[key], snapshot@)),
                    ),
                    Err(e) => states.insert(
                        key,
                        AccountStateView {
                            stale_notice: Some(
                                "Displayed events remain unread because the exact mark-read save failed: "@
                                    + e@,
                            ),
                            ..states[key]
                        },
                    ),
                }
            }),
    {
        let key = model::account_key(&completion.account);
        let current: bool = match self.accounts.get(&key) {
            None => false,
            Some(state) => completion.token.lifetime == self.lifetime
                && completion.token.account_key == key && completion.token.selection
                == state.selection && completion.token.selection_generation
                == state.selection_generation && completion.token.generation
                == state.mark_generation,
        };
        if !current {
            return false;
        }
        let mut state = match self.take(&key) {
            Some(s) => s,
            None => {
                return false;
            },
        };
        let ghost before = state@;
        match completion.result {
            Ok(snapshot) => {
                let ghost given = snapshot@;
                let snapshot = selection::project_snapshot(
                    snapshot,
                    &state.selected_repositories,
                );
                let replace: bool = match &state.snapshot {
                    None => true,
                    Some(current) => current.state_version <= snapshot.state_version,
                };
                if replace {
                    state.snapshot = Some(snapshot);
                }
                state.displayed = None;
                proof {
                    assert(state@ =~= marked(before, given));
                }
                self.put(key, state);
                proof {
                    assert(self.states() =~= old(self).states().insert(
                        key@,
                        marked(before, given),
                    ));
                }
                self.capture_displayed();
                true
            },
            Err(e) => {
                let mut text: String = "Displayed events remain unread because the exact mark-read save failed: ".to_owned();
                text.append(&e);
                state.stale_notice = Some(text);
                let ghost after = state@;
                self.put(key, state);
                proof {
                    assert(after =~= AccountStateView { stale_notice: Some(text@), ..before });
                    assert(self.states() =~= old(self).states().insert(key@, after));
                }
                false
            },
        }
    }

    /// Shows the next page of an account, where there is one.
    pub fn next_page(&mut self, account: &Account)
        ensures
            final(self).only_accounts_differ(*old(self)),
            ({
                let key = model::account_key_of(account@);
                let states = old(self).states();
                final(self).states() == controller::each_captured(
                    if states.contains_key(key) {
                        states.insert(key, turned(states[key], true))
                    } else {
                        states
                    },
                )
            }),
    {
        self.turn_page(account, true);
    }

    /// Shows the previous page of an account, where there is one.
    pub fn previous_page(&mut self, account: &Account)
        ensures
            final(self).only_accounts_differ(*old(self)),
            ({
                let key = model::account_key_of(account@);
                let states = old(self).states();
                final(self).states() == controller::each_captured(
                    if states.contains_key(key) {
                        states.insert(key, turned(states[key], false))
                    } else {
                        states
                    },
                )
            }),
    {
        self.turn_page(account, false);
    }

    fn turn_page(&mut self, account: &Account, forward: bool)
        ensures
            final(self).only_accounts_differ(*old(self)),
            ({
                let key = model::account_key_of(account@);
                let states = old(self).states();
                final(self).states() == controller::each_captured(
                    if states.contains_key(key) {
                        states.insert(key, turned(states[key], forward))
                    } else {
                        states
                    },
                )
            }),
    {
        let key = model::account_key(account);
        let ghost states = self.states();
        match self.take(&key) {
            Some(s) => {
                let mut state = s;
                let ghost before = state@;
                if forward {
                    let last: usize = account::max_page(&state.snapshot);
                    state.page = if state.page < last {
                        state.page + 1
                    } else {
                        last
                    };
                } else {
                    state.page = state.page.saturating_sub(1);
                }
                proof {
                    assert(state@ =~= turned(before, forward));
                }
                self.put(key, state);
                proof {
                    assert(self.states() =~= states.insert(key@, turned(before, forward)));
                }
            },
            None => {
                proof {
                    assert(self.states() =~= states);
                }
            },
        }
        self.capture_displayed();
    }
}

/// The account one page on, but not past its last page, or one page back.
pub open spec fn turned(s: AccountStateView, forward: bool) -> AccountStateView {
    let last = account::last_page(account::unread_of(s.snapshot));
    AccountStateView {
        page: if forward {
            if (s.page as nat) < last {
                (s.page + 1) as usize
            } else {
                last as usize
            }
        } else if s.page > 0 {
            (s.page - 1) as usize
        } else {
            0
        },
        ..s
    }
}

} // verus!

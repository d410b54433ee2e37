//! What each step does to what is known of an account: selections, polls, delays, consent, alerts
//! and marks.

use vstd::prelude::*;

use crate::clock;
use crate::clock::{Moment, ServerDelay};
use crate::domain::AccountView;
use crate::notifications::account;
use crate::notifications::account::AccountStateView;
use crate::notifications::controller;
use crate::notifications::controller::{AdmissionTokenView, MarkTokenView};
use crate::notifications::delivery;
use crate::notifications::delivery::RouteTable;
use crate::notifications::gate;
use crate::notifications::gate::{NotificationServerGate, ServerGateReason};
use crate::notifications::model;
use crate::notifications::model::{
    NotificationPollDirective, NotificationRepositoryScopeView, NotificationRoute,
    NotificationSnapshotView, QueuedNotification,
};
use crate::notifications::polling::{ControllerTokenView, PollCompletion};
use crate::notifications::polls;
use crate::notifications::polls::PollRequest;
use crate::notifications::selection;

verus! {

// ---------------------------------------------------------------------------
// Selections

/// A selection is of this account and these repositories, with the stored consent where there is
/// one. Another selection than before drops what was shown and cached, and counts on both
/// generations; the same one keeps everything.
pub proof fn law_a_selection_is_taken_over(
    s: AccountStateView,
    account: AccountView,
    scopes: Seq<NotificationRepositoryScopeView>,
    selected: Seq<char>,
    preference: Option<bool>,
)
    ensures
        ({
            let after = account::reselected(s, account, scopes, selected, preference);
            &&& after.account == Some(account)
            &&& after.selected_repositories == scopes
            &&& after.selection == selected
            &&& preference matches Some(p) ==> after.consent_enabled == p
            &&& preference is None ==> after.consent_enabled == s.consent_enabled
            &&& s.selection == selected ==> {
                &&& after.snapshot == s.snapshot
                &&& after.displayed == s.displayed
                &&& after.conditional_cache == s.conditional_cache
                &&& after.generation == s.generation
                &&& after.selection_generation == s.selection_generation
            }
            &&& s.selection != selected ==> {
                &&& after.snapshot is None
                &&& after.displayed is None
                &&& after.conditional_cache.len() == 0
                &&& s.generation < u64::MAX ==> after.generation == s.generation + 1
                &&& s.selection_generation < u64::MAX ==> after.selection_generation
                    == s.selection_generation + 1
            }
            &&& after.in_flight == s.in_flight
            &&& after.active_poll_generation == s.active_poll_generation
            &&& after.mark_generation == s.mark_generation
            &&& after.consent_generation == s.consent_generation
            &&& after.consent_transition == s.consent_transition
            &&& after.server_gate == s.server_gate
            &&& after.stale_notice == s.stale_notice
            &&& after.page == s.page
        }),
{
}

/// Without repositories an account has no selection, shows nothing and caches nothing; a delay,
/// its consent and its lane stay.
pub proof fn law_a_deselection_drops_what_was_shown(s: AccountStateView)
    ensures
        ({
            let after = account::deselected(s);
            &&& after.selection.len() == 0
            &&& after.selected_repositories.len() == 0
            &&& after.snapshot is None
            &&& after.displayed is None
            &&& after.conditional_cache.len() == 0
            &&& s.generation < u64::MAX ==> after.generation == s.generation + 1
            &&& s.selection_generation < u64::MAX ==> after.selection_generation
                == s.selection_generation + 1
            &&& after.account == s.account
            &&& after.in_flight == s.in_flight
            &&& after.active_poll_generation == s.active_poll_generation
            &&& after.mark_generation == s.mark_generation
            &&& after.consent_enabled == s.consent_enabled
            &&& after.consent_generation == s.consent_generation
            &&& after.consent_transition == s.consent_transition
            &&& after.server_gate == s.server_gate
            &&& after.stale_notice == s.stale_notice
            &&& after.page == s.page
        }),
{
}

// ---------------------------------------------------------------------------
// Polls

/// A poll may begin exactly if it is due, none is under way and the server lets it through; it
/// holds the lane under the generation that it begins.
pub proof fn law_a_due_poll_begins(s: AccountStateView, now: Moment, due: bool)
    ensures
        account::may_poll(s, now, due) <==> due && !s.in_flight && !s.server_gate.suspended && (
        s.server_gate.not_before matches Some(end) ==> now.secs > end.secs || (now.secs == end.secs
            && now.nanos >= end.nanos)),
        ({
            let after = account::polling(s);
            &&& after.in_flight
            &&& after.active_poll_generation == Some(after.generation)
            &&& s.generation < u64::MAX ==> after.generation == s.generation + 1
            &&& after == AccountStateView {
                in_flight: true,
                active_poll_generation: after.active_poll_generation,
                generation: after.generation,
                ..s
            }
        }),
{
}

/// A poll may change what is shown exactly while its run, its account, its selection and its
/// generation are the present ones; it holds the lane while its generation is the one that has
/// it.
pub proof fn law_polls_are_told_apart(
    token: ControllerTokenView,
    lifetime: u64,
    key: Seq<char>,
    s: AccountStateView,
)
    ensures
        account::token_current(token, lifetime, key, s) <==> token.lifetime == lifetime
            && token.account_key == key && token.selection == s.selection && token.generation
            == s.generation,
        account::holds_lane(token, lifetime, key, s) <==> token.lifetime == lifetime
            && token.account_key == key && s.active_poll_generation == Some(token.generation),
{
}

/// Of the accounts with repositories in the request those are polled whose poll may begin; those
/// without lose their selection; all others are selected anew and wait.
pub proof fn law_each_account_is_selected_or_not(
    states: Map<Seq<char>, AccountStateView>,
    request: PollRequest,
    key: Seq<char>,
)
    requires
        states.contains_key(key) || polls::is_selected_key(request, key),
    ensures
        ({
            let after = polls::begun_states(states, request)[key];
            let members = selection::group(request.repositories, key);
            let told = polls::selecting(
                if states.contains_key(key) {
                    states[key]
                } else {
                    account::unknown_account()
                },
                members,
                if request.preferences.contains_key(key) {
                    Some(request.preferences[key])
                } else {
                    None
                },
            );
            &&& polls::begun_states(states, request).contains_key(key)
            &&& members.len() == 0 ==> after == account::deselected(states[key])
            &&& members.len() > 0 && account::may_poll(
                told,
                request.now,
                request.due.contains(key),
            ) ==> after == account::polling(told) && polls::poll_begins(states, request, key)
            &&& members.len() > 0 && !account::may_poll(
                told,
                request.now,
                request.due.contains(key),
            ) ==> after == told && !polls::poll_begins(states, request, key)
            &&& members.len() > 0 ==> told.account == Some(members[0].account@)
                && told.selected_repositories.len() == selection::prepared(members).len()
        }),
{
}

/// What waits for an account is withdrawn exactly if its selection becomes another one, or none.
pub proof fn law_another_selection_withdraws_alerts(
    states: Map<Seq<char>, AccountStateView>,
    request: PollRequest,
    key: Seq<char>,
)
    requires
        states.contains_key(key),
    ensures
        polls::selection_changes(states, request, key) <==> (selection::group(
            request.repositories,
            key,
        ).len() == 0 || polls::begun_states(states, request)[key].selection
            != states[key].selection),
{
}

/// The end of a poll frees the lane that it held. The delays count for the account that was
/// polled: a rate limit in any case, an interval only while the poll is current.
pub proof fn law_the_end_of_a_poll_frees_the_lane(
    s: AccountStateView,
    token: ControllerTokenView,
    lifetime: u64,
    key: Seq<char>,
    account: AccountView,
    poll: NotificationPollDirective,
    now: Moment,
    wall: Option<u64>,
)
    ensures
        ({
            let after = account::released(s, token, lifetime, key, account, poll, now, wall);
            let current = account::token_current(token, lifetime, key, s);
            let counted = poll.x_poll_interval is Some && current;
            let limit = poll.rate_limit;
            let interval = poll.x_poll_interval;
            &&& !after.in_flight
            &&& after.active_poll_generation is None
            &&& after == AccountStateView {
                in_flight: false,
                active_poll_generation: None,
                server_gate: after.server_gate,
                ..s
            }
            &&& s.account != Some(account) ==> after.server_gate == s.server_gate
            &&& s.account == Some(account) ==> {
                &&& !counted && limit is None ==> after.server_gate == s.server_gate
                &&& counted && limit is None ==> after.server_gate == s.server_gate.delayed(
                    interval->0,
                    ServerGateReason::PollInterval,
                    now,
                    wall,
                )
                &&& !counted && limit is Some ==> after.server_gate == s.server_gate.delayed(
                    limit->0,
                    ServerGateReason::RateLimit,
                    now,
                    wall,
                )
                &&& counted && limit is Some ==> after.server_gate == s.server_gate.delayed(
                    interval->0,
                    ServerGateReason::PollInterval,
                    now,
                    wall,
                ).delayed(limit->0, ServerGateReason::RateLimit, now, wall)
            }
        }),
{
}

/// An account that takes what a poll brought shows that, as far as it is selected, with the
/// error of the poll, its cache, and a page that there is.
pub proof fn law_what_a_poll_brought_is_shown(s: AccountStateView, completion: PollCompletion)
    ensures
        ({
            let after = polls::updated(s, completion);
            let last = account::last_page(account::unread_of(after.snapshot));
            &&& !after.in_flight
            &&& after.snapshot == Some(
                selection::projected(completion.snapshot@, s.selected_repositories),
            )
            &&& completion.error is None ==> after.stale_notice is None
            &&& completion.error matches Some(e) ==> after.stale_notice == Some(e@)
            &&& after.conditional_cache == completion.cache.entries@
            &&& s.page <= last ==> after.page == s.page
            &&& s.page > last ==> after.page == last
            &&& after == AccountStateView {
                in_flight: false,
                snapshot: after.snapshot,
                stale_notice: after.stale_notice,
                conditional_cache: after.conditional_cache,
                page: after.page,
                ..s
            }
        }),
{
}

/// What a current poll brought is shown unless a later version of the store is; a poll that is
/// not current only frees the lane.
pub proof fn law_only_current_polls_are_shown(
    before: Map<Seq<char>, AccountStateView>,
    lifetime: u64,
    completion: PollCompletion,
    now: Moment,
    wall: Option<u64>,
)
    requires
        before.contains_key(model::account_key_of(completion.account@)),
    ensures
        ({
            let key = model::account_key_of(completion.account@);
            let after = polls::completed_states(before, false, lifetime, completion, now, wall);
            let s = before[key];
            let t = completion.token@;
            let current = t.lifetime == lifetime && t.account_key == key && t.selection
                == s.selection && t.generation == s.generation;
            let later = s.snapshot matches Some(shown) && shown.state_version
                > completion.snapshot@.state_version;
            &&& after.dom() == before.dom()
            &&& forall|k: Seq<char>| #[trigger]
                before.contains_key(k) && k != key ==> after[k] == before[k]
            &&& current && !later ==> after[key].snapshot == Some(
                selection::projected(completion.snapshot@, s.selected_repositories),
            ) && !after[key].in_flight
            &&& current && later ==> after[key].snapshot == s.snapshot && !after[key].in_flight
            &&& !current ==> after[key].snapshot == s.snapshot && after[key].stale_notice
                == s.stale_notice && after[key].page == s.page && after[key].conditional_cache
                == s.conditional_cache
        }),
{
    let key = model::account_key_of(completion.account@);
    assert(polls::completed_states(before, false, lifetime, completion, now, wall).dom()
        =~= before.dom());
}

/// The new events of an accepted poll become alerts exactly if some are of the selection, alerts
/// are on, the choice is settled, and the poll began under that choice.
pub proof fn law_alerts_need_the_present_consent(s: AccountStateView, completion: PollCompletion)
    ensures
        polls::alerts_admitted(s, completion) <==> {
            &&& s.consent_enabled
            &&& !s.consent_transition
            &&& completion.token@.consent_generation == s.consent_generation
            &&& selection::selected_events(completion.newly_admitted@, s.selected_repositories).len()
                > 0
        },
{
}

// ---------------------------------------------------------------------------
// Delays

/// A delay ends so many seconds from now, or as much later as the wall clock has to go to the
/// named second; a delay that the clocks cannot name has no end.
pub proof fn law_delays_end_when_they_say(
    seconds: u64,
    unix: u64,
    now: Moment,
    wall: u64,
)
    requires
        now.secs <= 0x7fff_ffff_ffff_ffff,
    ensures
        ({
            let last: int = 0x7fff_ffff_ffff_ffff;
            let a = clock::deadline_of(ServerDelay::Seconds(seconds), now, Some(wall));
            let b = clock::deadline_of(ServerDelay::UntilUnixSeconds(unix), now, Some(wall));
            &&& a == clock::deadline_of(ServerDelay::Seconds(seconds), now, None)
            &&& now.secs + seconds <= last ==> a is Some && a->0.secs == now.secs + seconds
                && a->0.nanos == now.nanos
            &&& now.secs + seconds > last ==> a is None
            &&& unix <= wall ==> b == Some(now)
            &&& unix > wall && now.secs + (unix - wall) <= last ==> b is Some && b->0.secs
                == now.secs + (unix - wall) && b->0.nanos == now.nanos
            &&& unix > wall && now.secs + (unix - wall) > last ==> b is None
            &&& clock::deadline_of(ServerDelay::UntilUnixSeconds(unix), now, None) is None
            &&& clock::deadline_of(ServerDelay::Suspend, now, Some(wall)) is None
        }),
{
}

/// Of two ends the later one counts, with its reason; a delay without an end suspends.
pub proof fn law_the_later_end_counts(
    g: NotificationServerGate,
    delay: ServerDelay,
    reason: ServerGateReason,
    now: Moment,
    wall: Option<u64>,
)
    ensures
        ({
            let after = g.delayed(delay, reason, now, wall);
            match clock::deadline_of(delay, now, wall) {
                None => after.suspended && after.reason == Some(reason) && after.not_before
                    == g.not_before,
                Some(end) => {
                    &&& after.suspended == g.suspended
                    &&& g.not_before is None ==> after.not_before == Some(end) && after.reason
                        == Some(reason)
                    &&& g.not_before matches Some(held) ==> {
                        &&& held.before(end) ==> after.not_before == Some(end) && after.reason
                            == Some(reason)
                        &&& !held.before(end) ==> after == g
                    }
                },
            }
        }),
{
}

/// A new gate lets everything through; one that was delayed by some seconds lets nothing through
/// until they are over, and everything from then on.
pub proof fn law_a_delay_holds_until_its_end(
    seconds: u64,
    reason: ServerGateReason,
    now: Moment,
    wall: Option<u64>,
    at: Moment,
)
    requires
        now.secs + seconds <= 0x7fff_ffff_ffff_ffff,
    ensures
        gate::open_gate().lets_through(at),
        ({
            let held = gate::open_gate().delayed(ServerDelay::Seconds(seconds), reason, now, wall);
            held.lets_through(at) <==> at.secs > now.secs + seconds || (at.secs == now.secs
                + seconds && at.nanos >= now.nanos)
        }),
{
}

/// A notice is given exactly while polls are held back for a reason, and says which.
pub proof fn law_the_notice_says_what_holds_back(g: NotificationServerGate, now: Moment)
    ensures
        ({
            let notice = g.notice_of(now);
            &&& notice is Some <==> !g.lets_through(now) && g.reason is Some
            &&& !g.lets_through(now) && !g.suspended ==> {
                &&& g.reason == Some(ServerGateReason::PollInterval) ==> notice == Some(
                    "Notification refresh is deferred by GitHub's polling interval."@,
                )
                &&& g.reason == Some(ServerGateReason::RateLimit) ==> notice == Some(
                    "Notification refresh is deferred by GitHub rate limiting."@,
                )
            }
            &&& g.suspended ==> {
                &&& g.reason == Some(ServerGateReason::PollInterval) ==> notice == Some(
                    "Notification polling is paused because GitHub returned an unrepresentable polling interval."@,
                )
                &&& g.reason == Some(ServerGateReason::RateLimit) ==> notice == Some(
                    "Notification polling is paused because GitHub returned an unrepresentable rate-limit delay."@,
                )
            }
        }),
{
}

// ---------------------------------------------------------------------------
// Consent and alerts

/// A choice is being saved from when it is made until it is stored. If it could be stored it is
/// the consent from then on, else the consent stays as it was and the error is shown.
pub proof fn law_a_stored_choice_is_the_consent(
    s: AccountStateView,
    account: AccountView,
    enabled: bool,
    error: String,
)
    ensures
        ({
            let changing = delivery::changing_consent(s, account);
            let stored = delivery::consent_settled(changing, enabled, Ok(()));
            let failed = delivery::consent_settled(changing, enabled, Err(error));
            &&& changing.consent_transition
            &&& changing.account == Some(account)
            &&& changing.consent_enabled == s.consent_enabled
            &&& s.consent_generation < u64::MAX ==> changing.consent_generation
                == s.consent_generation + 1
            &&& changing == AccountStateView {
                account: changing.account,
                consent_generation: changing.consent_generation,
                consent_transition: true,
                ..s
            }
            &&& !stored.consent_transition
            &&& stored.consent_enabled == enabled
            &&& stored.stale_notice is Some
            &&& stored == AccountStateView {
                consent_transition: false,
                consent_enabled: enabled,
                stale_notice: stored.stale_notice,
                ..changing
            }
            &&& !failed.consent_transition
            &&& failed.consent_enabled == s.consent_enabled
            &&& failed.stale_notice == Some(
                "Preference was not changed; no OS notification requested: "@ + error@,
            )
            &&& failed == AccountStateView {
                consent_transition: false,
                stale_notice: failed.stale_notice,
                ..changing
            }
        }),
{
}

/// An alert that is admitted carries the selection and the consent of its account; it may be
/// delivered exactly while both are the same, alerts are on and the choice is settled.
pub proof fn law_an_admitted_alert_is_delivered(
    states: Map<Seq<char>, AccountStateView>,
    n: QueuedNotification,
    state: account::AccountViewState,
)
    requires
        states.contains_key(n.account_key@),
    ensures
        ({
            let q = delivery::stamped(n, state);
            let now = states[n.account_key@];
            &&& q.notification == n.notification
            &&& q.route == n.route
            &&& q.account_key == n.account_key
            &&& q.delivery_lease == n.delivery_lease
            &&& delivery::deliverable(states, q) <==> {
                &&& now.consent_enabled
                &&& !now.consent_transition
                &&& now.consent_generation == state.consent_generation
                &&& now.selection == state.selection@
                &&& now.selection_generation == state.selection_generation
                &&& state.selection@.len() > 0
            }
        }),
{
}

/// A reservation counts exactly while the run, the selection and the consent are those it was
/// made under, alerts are on and the choice is settled.
pub proof fn law_a_reservation_counts_while_nothing_changed(
    states: Map<Seq<char>, AccountStateView>,
    lifetime: u64,
    token: AdmissionTokenView,
)
    requires
        states.contains_key(token.account_key),
    ensures
        ({
            let now = states[token.account_key];
            delivery::admission_current(states, lifetime, token) <==> {
                &&& token.lifetime == lifetime
                &&& token.selection.len() > 0
                &&& token.selection == now.selection
                &&& token.selection_generation == now.selection_generation
                &&& token.consent_generation == now.consent_generation
                &&& now.consent_enabled
                &&& !now.consent_transition
            }
        }),
{
}

/// A mark counts exactly while the run and the selection are those it was made under and no
/// other mark followed it.
pub proof fn law_a_mark_counts_while_it_is_the_latest(
    states: Map<Seq<char>, AccountStateView>,
    lifetime: u64,
    key: Seq<char>,
    token: MarkTokenView,
)
    requires
        states.contains_key(key),
    ensures
        delivery::mark_current(states, lifetime, key, token) <==> {
            &&& token.lifetime == lifetime
            &&& token.account_key == key
            &&& token.selection == states[key].selection
            &&& token.selection_generation == states[key].selection_generation
            &&& token.generation == states[key].mark_generation
        },
{
}

/// After a mark the account shows the store as it is then, as far as it is selected, unless it
/// shows a later version already; nothing is on display until it is drawn again.
pub proof fn law_a_mark_shows_the_store(s: AccountStateView, stored: NotificationSnapshotView)
    ensures
        ({
            let after = delivery::marked(s, stored);
            let later = s.snapshot matches Some(shown) && shown.state_version
                > stored.state_version;
            &&& later ==> after.snapshot == s.snapshot
            &&& !later ==> after.snapshot == Some(
                selection::projected(stored, s.selected_repositories),
            )
            &&& after == AccountStateView { snapshot: after.snapshot, displayed: None, ..s }
        }),
{
}

/// Stored choices are the consent of their accounts; accounts without one keep theirs, and an
/// account that is only stored is known from then on.
pub proof fn law_stored_choices_are_taken_over(
    states: Map<Seq<char>, AccountStateView>,
    preferences: Map<Seq<char>, bool>,
    key: Seq<char>,
)
    ensures
        ({
            let after = controller::with_preferences(states, preferences);
            &&& after.contains_key(key) <==> states.contains_key(key) || preferences.contains_key(
                key,
            )
            &&& preferences.contains_key(key) ==> after[key].consent_enabled == preferences[key]
            &&& states.contains_key(key) ==> after[key] == AccountStateView {
                consent_enabled: after[key].consent_enabled,
                ..states[key]
            }
            &&& states.contains_key(key) && !preferences.contains_key(key) ==> after[key]
                == states[key]
            &&& !states.contains_key(key) && preferences.contains_key(key) ==> after[key]
                == AccountStateView {
                consent_enabled: preferences[key],
                ..account::unknown_account()
            }
        }),
{
}

/// Of an account that is not known nothing is selected, shown, allowed or under way.
pub proof fn law_unknown_accounts_have_nothing(at: Moment)
    ensures
        ({
            let s = account::unknown_account();
            &&& s.account is None
            &&& s.selection.len() == 0
            &&& s.selected_repositories.len() == 0
            &&& s.snapshot is None
            &&& s.displayed is None
            &&& s.stale_notice is None
            &&& s.page == 0
            &&& !s.in_flight
            &&& s.active_poll_generation is None
            &&& !s.consent_enabled
            &&& !s.consent_transition
            &&& s.conditional_cache.len() == 0
            &&& s.server_gate.lets_through(at)
        }),
{
}

// ---------------------------------------------------------------------------
// Routes

/// A stored route leads, under its tag, where the last one with that tag leads.
pub proof fn law_stored_routes_are_found_by_tag(
    routes: Seq<(String, NotificationRoute)>,
    i: int,
)
    requires
        0 <= i < routes.len(),
        forall|k: int| i < k < routes.len() ==> (#[trigger] routes[k]).0@ != routes[i].0@,
    ensures
        controller::routes_by_tag(routes).contains_key(routes[i].0@),
        controller::routes_by_tag(routes)[routes[i].0@] == routes[i].1,
    decreases routes.len(),
{
    if i < routes.len() - 1 {
        let front = routes.drop_last();
        assert(front[i] == routes[i]);
        assert forall|k: int| i < k < front.len() implies (#[trigger] front[k]).0@
            != front[i].0@ by {
            assert(front[k] == routes[k]);
        }
        law_stored_routes_are_found_by_tag(front, i);
        assert(routes[routes.len() - 1].0@ != routes[i].0@);
    }
}

/// A tag is found only where a route has it.
pub proof fn law_only_stored_tags_are_found(
    routes: Seq<(String, NotificationRoute)>,
    tag: Seq<char>,
)
    requires
        controller::routes_by_tag(routes).contains_key(tag),
    ensures
        exists|i: int| 0 <= i < routes.len() && (#[trigger] routes[i]).0@ == tag,
    decreases routes.len(),
{
    if routes.len() > 0 {
        if routes.last().0@ == tag {
            assert(routes[routes.len() - 1].0@ == tag);
        } else {
            let front = routes.drop_last();
            law_only_stored_tags_are_found(front, tag);
            let i = choose|i: int| 0 <= i < front.len() && (#[trigger] front[i]).0@ == tag;
            assert(routes[i].0@ == tag);
        }
    }
}

/// Where there are too many routes, the oldest are forgotten and the latest 512 stay, each leading
/// where it led.
pub proof fn law_the_latest_routes_stay(table: RouteTable)
    requires
        table.order.no_duplicates(),
    ensures
        ({
            let after = delivery::expired(table);
            let gone = if table.order.len() > 512 {
                table.order.len() - 512
            } else {
                0
            };
            &&& after.order == table.order.skip(gone)
            &&& forall|i: int|
                0 <= i < gone ==> !after.routes.contains_key(#[trigger] table.order[i])
            &&& forall|tag: Seq<char>|
                #![trigger after.routes.contains_key(tag)]
                (forall|i: int| 0 <= i < gone ==> #[trigger] table.order[i] != tag) ==> {
                    &&& after.routes.contains_key(tag) <==> table.routes.contains_key(tag)
                    &&& after.routes.contains_key(tag) ==> after.routes[tag] == table.routes[tag]
                }
        }),
    decreases table.order.len(),
{
    let order = table.order;
    if order.len() > 512 {
        let next = RouteTable { routes: table.routes.remove(order[0]), order: order.drop_first() };
        let gone: int = order.len() - 512;
        let after = delivery::expired(table);
        assert(next.order.no_duplicates()) by {
            assert forall|i: int, j: int|
                0 <= i < next.order.len() && 0 <= j < next.order.len() && i != j implies next.order[i]
                != next.order[j] by {
                assert(next.order[i] == order[i + 1]);
                assert(next.order[j] == order[j + 1]);
            }
        }
        law_the_latest_routes_stay(next);
        assert(next.order.skip(gone - 1) =~= order.skip(gone));
        assert(forall|i: int| 0 <= i < gone - 1 ==> next.order[i] == order[i + 1]);
        assert forall|i: int| 0 <= i < gone implies !after.routes.contains_key(
            #[trigger] order[i],
        ) by {
            if i > 0 {
                assert(next.order[i - 1] == order[i]);
            } else {
                assert forall|k: int| 0 <= k < gone - 1 implies #[trigger] next.order[k]
                    != order[0] by {
                    assert(next.order[k] == order[k + 1]);
                }
            }
        }
        assert forall|tag: Seq<char>|
            #![trigger after.routes.contains_key(tag)]
            (forall|i: int| 0 <= i < gone ==> #[trigger] order[i] != tag) implies (
        after.routes.contains_key(tag) <==> table.routes.contains_key(tag)) && (
        after.routes.contains_key(tag) ==> after.routes[tag] == table.routes[tag]) by {
            assert(order[0] != tag);
            assert forall|k: int| 0 <= k < gone - 1 implies #[trigger] next.order[k] != tag by {
                assert(next.order[k] == order[k + 1]);
            }
            assert(next.routes.contains_key(tag) <==> table.routes.contains_key(tag));
        }
    } else {
        assert(order.skip(0) =~= order);
    }
}

/// As long as there is room, a new route is added behind the others, which stay as they are.
pub proof fn law_there_is_room_for_a_route(table: RouteTable, n: QueuedNotification)
    requires
        table.order.len() < 512,
        !table.order.contains(n.notification.tag@),
    ensures
        ({
            let after = delivery::routed(table, n);
            let tag = n.notification.tag@;
            &&& after.order == table.order.push(tag)
            &&& after.routes == table.routes.insert(tag, n.route)
        }),
{
    lemma_no_tag_to_drop(table.order, n.notification.tag@);
}

proof fn lemma_no_tag_to_drop(order: Seq<Seq<char>>, tag: Seq<char>)
    requires
        !order.contains(tag),
    ensures
        delivery::tags_but(order, tag) == order,
    decreases order.len(),
{
    if order.len() > 0 {
        let front = order.drop_last();
        assert(order[order.len() - 1] == order.last());
        assert(!front.contains(tag)) by {
            if front.contains(tag) {
                let i = front.index_of(tag);
                assert(order[i] == tag);
            }
        }
        lemma_no_tag_to_drop(front, tag);
        assert(front.push(order.last()) =~= order);
    }
}

/// The alerts of one account are withdrawn, those of the others stay, in their order.
pub proof fn law_only_the_alerts_of_the_account_are_withdrawn(
    queued: Seq<QueuedNotification>,
    key: Seq<char>,
    alert: QueuedNotification,
)
    ensures
        controller::without_account(queued, key).contains(alert) <==> queued.contains(alert)
            && alert.account_key@ != key,
        controller::without_account(queued, key).len() <= queued.len(),
{
    broadcast use vstd::seq_lib::group_filter_ensures;
    broadcast use vstd::seq::Seq::lemma_filter_contains_rev;

    let kept = controller::without_account(queued, key);
    if kept.contains(alert) {
        let i = kept.index_of(alert);
        assert(kept[i].account_key@ != key);
    }
    if queued.contains(alert) && alert.account_key@ != key {
        let i = queued.index_of(alert);
        assert(kept.contains(queued[i]));
    }
}

/// Numbers count on by one and stay at the last one.
pub proof fn law_numbers_count_on(n: u64)
    ensures
        n < u64::MAX ==> account::bump(n) == n + 1,
        account::bump(u64::MAX) == u64::MAX,
{
}

} // verus!

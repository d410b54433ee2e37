//! What holds of the notifications whatever happens in between.

use vstd::prelude::*;

use crate::clock::Moment;
use crate::domain::AccountView;
use crate::notifications::account;
use crate::notifications::account::AccountStateView;
use crate::notifications::controller;
use crate::notifications::controller::{AdmissionTokenView, MarkTokenView};
use crate::notifications::delivery;
use crate::notifications::delivery::RouteTable;
use crate::notifications::model::{
    NotificationPollDirective, NotificationRepositoryScopeView, NotificationSnapshotView,
    QueuedNotification,
};
use crate::notifications::polling::{ControllerTokenView, PollCompletion};
use crate::notifications::polls;
use crate::notifications::polls::PollRequest;
use crate::notifications::registry;
use crate::notifications::selection;

verus! {

/// The end of a poll, accepted or not, changes nothing of the accounts that it was not for.
pub proof fn law_polls_keep_to_their_account(
    states: Map<Seq<char>, AccountStateView>,
    lifetime: u64,
    completion: PollCompletion,
    now: Moment,
    wall: Option<u64>,
    other: Seq<char>,
)
    requires
        other != crate::notifications::model::account_key_of(completion.account@),
        states.contains_key(other),
    ensures
        polls::states_after_release(states, lifetime, completion, now, wall).contains_key(other),
        polls::states_after_release(states, lifetime, completion, now, wall)[other]
            == states[other],
{
}

/// Giving up the lane shows nothing new: snapshot, notice, page, selection and consent stay.
pub proof fn law_release_shows_nothing(
    s: AccountStateView,
    token: ControllerTokenView,
    lifetime: u64,
    key: Seq<char>,
    account: AccountView,
    poll: NotificationPollDirective,
    now: Moment,
    wall: Option<u64>,
)
    ensures
        ({
            let after = account::released(s, token, lifetime, key, account, poll, now, wall);
            &&& after.snapshot == s.snapshot
            &&& after.stale_notice == s.stale_notice
            &&& after.displayed == s.displayed
            &&& after.page == s.page
            &&& after.selection == s.selection
            &&& after.generation == s.generation
            &&& after.consent_enabled == s.consent_enabled
            &&& after.consent_generation == s.consent_generation
        }),
{
}

/// A completed poll never lets a later poll through that the server held back before.
pub proof fn law_completion_keeps_the_server_gate(
    s: AccountStateView,
    token: ControllerTokenView,
    lifetime: u64,
    key: Seq<char>,
    account: AccountView,
    poll: NotificationPollDirective,
    now: Moment,
    wall: Option<u64>,
    at: Moment,
)
    requires
        account::released(
            s,
            token,
            lifetime,
            key,
            account,
            poll,
            now,
            wall,
        ).server_gate.lets_through(at),
    ensures
        s.server_gate.lets_through(at),
{
}

/// Accepting a poll never goes back to an earlier state of the store.
pub proof fn law_accepted_polls_go_forward(s: AccountStateView, completion: PollCompletion)
    requires
        !polls::shows_later(s, completion),
        s.snapshot is Some,
    ensures
        polls::updated(s, completion).snapshot is Some,
        polls::updated(s, completion).snapshot->0.state_version >= s.snapshot->0.state_version,
{
}

/// Marking events as read never goes back to an earlier state of the store.
pub proof fn law_marks_go_forward(s: AccountStateView, snapshot: NotificationSnapshotView)
    requires
        s.snapshot is Some,
    ensures
        delivery::marked(s, snapshot).snapshot is Some,
        delivery::marked(s, snapshot).snapshot->0.state_version >= s.snapshot->0.state_version,
{
}

/// While a change of consent is stored, no alert of the account is admitted or delivered.
pub proof fn law_consent_change_stops_alerts(
    states: Map<Seq<char>, AccountStateView>,
    lifetime: u64,
    key: Seq<char>,
    account: AccountView,
    token: AdmissionTokenView,
    q: QueuedNotification,
    completion: PollCompletion,
)
    requires
        states.contains_key(key),
        token.account_key == key,
        q.account_key@ == key,
    ensures
        ({
            let changing = delivery::changing_consent(states[key], account);
            let after = states.insert(key, changing);
            &&& !delivery::admission_current(after, lifetime, token)
            &&& !delivery::deliverable(after, q)
            &&& !polls::alerts_admitted(changing, completion)
        }),
{
}

/// A poll that began before consent was given brings no alert, though it is accepted after.
pub proof fn law_no_catch_up_after_consent(
    s: AccountStateView,
    account: AccountView,
    completion: PollCompletion,
)
    requires
        completion.token.consent_generation <= s.consent_generation,
        s.consent_generation < u64::MAX,
    ensures
        !polls::alerts_admitted(
            delivery::consent_settled(delivery::changing_consent(s, account), true, Ok(())),
            completion,
        ),
{
}

/// Alerts that were reserved or queued before consent changed twice stay withdrawn.
pub proof fn law_old_consent_is_never_current_again(
    states: Map<Seq<char>, AccountStateView>,
    lifetime: u64,
    key: Seq<char>,
    account: AccountView,
    token: AdmissionTokenView,
    q: QueuedNotification,
)
    requires
        states.contains_key(key),
        token.account_key == key,
        token.consent_generation <= states[key].consent_generation,
        q.account_key@ == key,
        q.consent_generation <= states[key].consent_generation,
        states[key].consent_generation < u64::MAX - 1,
    ensures
        ({
            let off = delivery::consent_settled(
                delivery::changing_consent(states[key], account),
                false,
                Ok(()),
            );
            let on = delivery::consent_settled(
                delivery::changing_consent(off, account),
                true,
                Ok(()),
            );
            let after = states.insert(key, on);
            !delivery::admission_current(after, lifetime, token) && !delivery::deliverable(after, q)
        }),
{
}

/// Deselecting the repositories of an account withdraws its alerts and makes its marks stale;
/// selecting the same again does not bring them back.
pub proof fn law_selection_away_and_back_stops_alerts_and_marks(
    states: Map<Seq<char>, AccountStateView>,
    lifetime: u64,
    key: Seq<char>,
    account: AccountView,
    scopes: Seq<NotificationRepositoryScopeView>,
    preference: Option<bool>,
    admission: AdmissionTokenView,
    mark: MarkTokenView,
    q: QueuedNotification,
)
    requires
        states.contains_key(key),
        states[key].selection.len() > 0,
        states[key].selection_generation < u64::MAX - 1,
        delivery::admission_current(states, lifetime, admission),
        admission.account_key == key,
        delivery::mark_current(states, lifetime, key, mark),
        delivery::deliverable(states, q),
        q.account_key@ == key,
    ensures
        ({
            let away = states.insert(key, account::deselected(states[key]));
            let back = states.insert(
                key,
                account::reselected(
                    account::deselected(states[key]),
                    account,
                    scopes,
                    states[key].selection,
                    preference,
                ),
            );
            &&& !delivery::admission_current(away, lifetime, admission)
            &&& !delivery::mark_current(away, lifetime, key, mark)
            &&& !delivery::deliverable(away, q)
            &&& !delivery::admission_current(back, lifetime, admission)
            &&& !delivery::mark_current(back, lifetime, key, mark)
            &&& !delivery::deliverable(back, q)
        }),
{
}

/// Beginning polls twice at one moment begins none the second time, for the accounts that
/// began the first time.
pub proof fn law_second_request_begins_nothing(
    states: Map<Seq<char>, AccountStateView>,
    request: PollRequest,
    key: Seq<char>,
)
    requires
        polls::poll_begins(states, request, key),
    ensures
        !polls::poll_begins(polls::begun_states(states, request), request, key),
{
}

/// A poll is current and holds the lane of its account when it begins.
pub proof fn law_begun_polls_are_current(
    states: Map<Seq<char>, AccountStateView>,
    request: PollRequest,
    lifetime: u64,
    work: crate::notifications::polling::PollWork,
    key: Seq<char>,
)
    requires
        polls::poll_begins(states, request, key),
        polls::is_work_of(work, states, request, lifetime, key),
    ensures
        account::token_current(
            work.token@,
            lifetime,
            key,
            polls::begun_states(states, request)[key],
        ),
        account::holds_lane(
            work.token@,
            lifetime,
            key,
            polls::begun_states(states, request)[key],
        ),
{
}

/// Nothing is shown but what the selected repositories brought.
pub proof fn law_only_the_selection_is_shown(s: AccountStateView, completion: PollCompletion)
    ensures
        forall|i: int|
            0 <= i < polls::updated(s, completion).snapshot->0.unread_by_pull_request.len()
                ==> selection::is_selected(
                (#[trigger] polls::updated(
                    s,
                    completion,
                ).snapshot->0.unread_by_pull_request[i]).target@,
                s.selected_repositories,
            ),
{
    broadcast use vstd::seq_lib::group_filter_ensures;

}

// ---------------------------------------------------------------------------
// Routes

/// The table of routes never holds more tags than it may.
pub proof fn law_routes_are_bounded(table: RouteTable)
    ensures
        delivery::expired(table).order.len() <= registry::MAX_RETAINED_ROUTES,
    decreases table.order.len(),
{
    if table.order.len() > registry::MAX_RETAINED_ROUTES {
        law_routes_are_bounded(
            RouteTable {
                routes: table.routes.remove(table.order[0]),
                order: table.order.drop_first(),
            },
        );
    }
}

proof fn lemma_expiry_keeps_the_last(table: RouteTable)
    requires
        table.order.len() > 0,
        table.order.no_duplicates(),
    ensures
        delivery::expired(table).order.len() > 0,
        delivery::expired(table).order.last() == table.order.last(),
        table.routes.contains_key(table.order.last()) ==> delivery::expired(
            table,
        ).routes.contains_key(table.order.last()) && delivery::expired(
            table,
        ).routes[table.order.last()] == table.routes[table.order.last()],
    decreases table.order.len(),
{
    if table.order.len() > registry::MAX_RETAINED_ROUTES {
        let next = RouteTable {
            routes: table.routes.remove(table.order[0]),
            order: table.order.drop_first(),
        };
        assert(next.order.last() == table.order.last());
        assert(table.order[0] != table.order.last());
        assert(next.order.no_duplicates()) by {
            assert forall|i: int, j: int|
                0 <= i < next.order.len() && 0 <= j < next.order.len() && i != j implies next.order[i]
                != next.order[j] by {
                assert(next.order[i] == table.order[i + 1]);
                assert(next.order[j] == table.order[j + 1]);
            }
        }
        lemma_expiry_keeps_the_last(next);
    }
}

proof fn lemma_other_tags(order: Seq<Seq<char>>, tag: Seq<char>)
    ensures
        forall|i: int|
            0 <= i < delivery::tags_but(order, tag).len() ==> #[trigger] delivery::tags_but(
                order,
                tag,
            )[i] != tag && order.contains(delivery::tags_but(order, tag)[i]),
        order.no_duplicates() ==> delivery::tags_but(order, tag).no_duplicates(),
    decreases order.len(),
{
    if order.len() > 0 {
        let front = order.drop_last();
        let rest = delivery::tags_but(front, tag);
        let all = delivery::tags_but(order, tag);
        lemma_other_tags(front, tag);
        assert forall|i: int| 0 <= i < all.len() implies #[trigger] all[i] != tag && order.contains(
            all[i],
        ) by {
            if i < rest.len() {
                assert(rest[i] == all[i]);
                let k = choose|k: int| 0 <= k < front.len() && front[k] == rest[i];
                assert(order[k] == all[i]);
            } else {
                assert(order[order.len() - 1] == all[i]);
            }
        }
        if order.no_duplicates() {
            assert(front.no_duplicates());
            assert forall|i: int| 0 <= i < rest.len() implies #[trigger] rest[i] != order.last() by {
                let k = choose|k: int| 0 <= k < front.len() && front[k] == rest[i];
                assert(order[k] == rest[i]);
                assert(order[order.len() - 1] == order.last());
            }
        }
    }
}

/// The route of an alert that was queued last leads where the alert leads.
pub proof fn law_newest_route_is_kept(table: RouteTable, n: QueuedNotification)
    requires
        table.order.no_duplicates(),
    ensures
        delivery::routed(table, n).routes.contains_key(n.notification.tag@),
        delivery::routed(table, n).routes[n.notification.tag@] == n.route,
        delivery::routed(table, n).order.len() <= registry::MAX_RETAINED_ROUTES,
{
    let full = RouteTable {
        routes: table.routes.insert(n.notification.tag@, n.route),
        order: delivery::tags_but(table.order, n.notification.tag@).push(n.notification.tag@),
    };
    lemma_other_tags(table.order, n.notification.tag@);
    assert(full.order.no_duplicates());
    assert(full.order.last() == n.notification.tag@);
    lemma_expiry_keeps_the_last(full);
    law_routes_are_bounded(full);
}

} // verus!

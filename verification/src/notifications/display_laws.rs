//! What the panel of unread notifications is for: what is counted, what a page shows, and what a
//! row says.

use vstd::prelude::*;

use crate::clock::Moment;
use crate::domain::AccountView;
use crate::notifications::account;
use crate::notifications::account::AccountStateView;
use crate::notifications::delivery;
use crate::notifications::model;
use crate::notifications::model::{
    IncompleteNotificationCandidateView, NotificationPullRequestView, NotificationSnapshotView,
    ProviderNotificationEventView, PullRequestUnreadSummary,
    RepositoryNotificationCompletenessView,
};
use crate::notifications::panel;
use crate::text;

verus! {

/// Whether a pull request has this owner, repository and number, for this login, with the names
/// compared ignoring case.
pub open spec fn agrees(
    target: NotificationPullRequestView,
    account: AccountView,
    owner: Seq<char>,
    repo: Seq<char>,
    pr: u64,
) -> bool {
    &&& text::lower(target.account) == text::lower(account.login)
    &&& text::lower(target.owner) == text::lower(owner)
    &&& text::lower(target.repository) == text::lower(repo)
    &&& target.pull_request == pr
}

/// The unread count of a pull request is the number of events of a summary that agrees in owner,
/// repository and number, where there is one, and otherwise nothing.
pub proof fn law_unread_is_counted_by_name(
    unread: Seq<PullRequestUnreadSummary>,
    account: AccountView,
    owner: Seq<char>,
    repo: Seq<char>,
    pr: u64,
)
    ensures
        ({
            let count = panel::first_named(unread, account, owner, repo, pr);
            ||| (count == 0 && forall|i: int|
                0 <= i < unread.len() ==> !agrees(
                    (#[trigger] unread[i]).target@,
                    account,
                    owner,
                    repo,
                    pr,
                ))
            ||| exists|i: int|
                {
                    &&& 0 <= i < unread.len()
                    &&& agrees((#[trigger] unread[i]).target@, account, owner, repo, pr)
                    &&& count == unread[i].unread_events@.len()
                    &&& forall|k: int|
                        0 <= k < i ==> !agrees(
                            (#[trigger] unread[k]).target@,
                            account,
                            owner,
                            repo,
                            pr,
                        )
                }
        }),
    decreases unread.len(),
{
    if unread.len() > 0 {
        let rest = unread.drop_first();
        if agrees(unread[0].target@, account, owner, repo, pr) {
            assert(panel::first_named(unread, account, owner, repo, pr)
                == unread[0].unread_events@.len());
        } else {
            law_unread_is_counted_by_name(rest, account, owner, repo, pr);
            assert(panel::first_named(unread, account, owner, repo, pr) == panel::first_named(
                rest,
                account,
                owner,
                repo,
                pr,
            ));
            if forall|i: int|
                0 <= i < rest.len() ==> !agrees(
                    (#[trigger] rest[i]).target@,
                    account,
                    owner,
                    repo,
                    pr,
                ) {
                assert forall|i: int| 0 <= i < unread.len() implies !agrees(
                    (#[trigger] unread[i]).target@,
                    account,
                    owner,
                    repo,
                    pr,
                ) by {
                    if i > 0 {
                        assert(rest[i - 1] == unread[i]);
                    }
                }
            } else {
                let i = choose|i: int|
                    {
                        &&& 0 <= i < rest.len()
                        &&& agrees((#[trigger] rest[i]).target@, account, owner, repo, pr)
                        &&& panel::first_named(rest, account, owner, repo, pr)
                            == rest[i].unread_events@.len()
                        &&& forall|k: int|
                            0 <= k < i ==> !agrees(
                                (#[trigger] rest[k]).target@,
                                account,
                                owner,
                                repo,
                                pr,
                            )
                    };
                assert(unread[i + 1] == rest[i]);
                assert forall|k: int| 0 <= k < i + 1 implies !agrees(
                    (#[trigger] unread[k]).target@,
                    account,
                    owner,
                    repo,
                    pr,
                ) by {
                    if k > 0 {
                        assert(rest[k - 1] == unread[k]);
                    }
                }
            }
        }
    }
}

/// A pull request has no unread events where no unread summary of the account agrees with it in
/// owner, repository and number, and where nothing is known of the account.
pub proof fn law_unnamed_pull_requests_have_nothing_unread(
    states: Map<Seq<char>, AccountStateView>,
    account: AccountView,
    owner: Seq<char>,
    repo: Seq<char>,
    pr: u64,
)
    requires
        ({
            let key = model::account_key_of(account);
            ||| !states.contains_key(key)
            ||| states[key].snapshot is None
            ||| forall|i: int|
                0 <= i < states[key].snapshot->0.unread_by_pull_request.len() ==> !agrees(
                    (#[trigger] states[key].snapshot->0.unread_by_pull_request[i]).target@,
                    account,
                    owner,
                    repo,
                    pr,
                )
        }),
    ensures
        panel::unread_of_pull_request(states, account, owner, repo, pr) == 0,
{
    let key = model::account_key_of(account);
    if states.contains_key(key) && states[key].snapshot is Some {
        law_unread_is_counted_by_name(
            states[key].snapshot->0.unread_by_pull_request,
            account,
            owner,
            repo,
            pr,
        );
    }
}

/// A pull request has as many unread events as the summary of the account that agrees with it,
/// where there is exactly one.
pub proof fn law_named_pull_requests_are_counted(
    states: Map<Seq<char>, AccountStateView>,
    account: AccountView,
    owner: Seq<char>,
    repo: Seq<char>,
    pr: u64,
    i: int,
)
    requires
        states.contains_key(model::account_key_of(account)),
        states[model::account_key_of(account)].snapshot is Some,
        ({
            let unread =
                states[model::account_key_of(account)].snapshot->0.unread_by_pull_request;
            &&& 0 <= i < unread.len()
            &&& agrees(unread[i].target@, account, owner, repo, pr)
            &&& forall|k: int|
                0 <= k < unread.len() && k != i ==> !agrees(
                    (#[trigger] unread[k]).target@,
                    account,
                    owner,
                    repo,
                    pr,
                )
        }),
    ensures
        panel::unread_of_pull_request(states, account, owner, repo, pr)
            == states[model::account_key_of(account)].snapshot->0.unread_by_pull_request[i].unread_events@.len(),
{
    law_unread_is_counted_by_name(
        states[model::account_key_of(account)].snapshot->0.unread_by_pull_request,
        account,
        owner,
        repo,
        pr,
    );
}

/// The unread events of all summaries together.
pub open spec fn sum_of_events(unread: Seq<PullRequestUnreadSummary>) -> nat
    decreases unread.len(),
{
    if unread.len() == 0 {
        0
    } else {
        sum_of_events(unread.drop_last()) + unread.last().unread_events@.len()
    }
}

/// The unread events are those of the summaries, one summary after the other: as many as they
/// have together, and none where nothing was read.
pub proof fn law_the_unread_events_are_those_of_the_summaries(
    unread: Seq<PullRequestUnreadSummary>,
)
    ensures
        account::events_of(unread).len() == sum_of_events(unread),
        unread.len() > 0 ==> account::events_of(unread) == account::events_of(unread.drop_last())
            + unread.last().unread_events@,
        unread.len() == 0 ==> account::events_of(unread).len() == 0,
    decreases unread.len(),
{
    let f = |s: PullRequestUnreadSummary| s.unread_events@;
    let parts = unread.map_values(f);
    if unread.len() > 0 {
        law_the_unread_events_are_those_of_the_summaries(unread.drop_last());
        assert(parts.drop_last() =~= unread.drop_last().map_values(f));
        assert(parts.last() == unread.last().unread_events@);
    } else {
        assert(parts.len() == 0);
    }
}

/// The unread count of an account is that of its events; of all accounts it is their sum.
pub proof fn law_counts_add_up(
    keys: Seq<Seq<char>>,
    states: Map<Seq<char>, AccountStateView>,
    snapshot: NotificationSnapshotView,
)
    ensures
        account::unread_of(None) == 0,
        account::unread_of(Some(snapshot)) == sum_of_events(snapshot.unread_by_pull_request),
        panel::total_unread(Seq::empty(), states) == 0,
        keys.len() > 0 ==> panel::total_unread(keys, states) == panel::total_unread(
            keys.drop_last(),
            states,
        ) + account::unread_of(states[keys.last()].snapshot),
{
    law_the_unread_events_are_those_of_the_summaries(snapshot.unread_by_pull_request);
}

/// A page shows forty items in their order: item `i` of all items is item `i % 40` of page
/// `i / 40`, and there is nothing else on it.
pub proof fn law_pages_are_of_forty<A>(all: Seq<A>, page: nat)
    ensures
        ({
            let shown = account::page_of(all, page);
            &&& shown.len() <= 40
            &&& (page + 1) * 40 <= all.len() ==> shown.len() == 40
            &&& page * 40 <= all.len() < (page + 1) * 40 ==> shown.len() == all.len() - page * 40
            &&& page * 40 >= all.len() ==> shown.len() == 0
            &&& forall|i: int| 0 <= i < shown.len() ==> #[trigger] shown[i] == all[page * 40 + i]
        }),
{
}

/// The last page is the one that the last item is on; without items it is the first page.
pub proof fn law_the_last_page_has_the_last_item(unread: nat)
    ensures
        unread == 0 ==> account::last_page(unread) == 0,
        unread > 0 ==> account::last_page(unread) * 40 < unread <= (account::last_page(unread) + 1)
            * 40,
{
}

/// Turning goes one page on or back, never past the last page nor before the first, and changes
/// nothing else.
pub proof fn law_turning_goes_one_page(s: AccountStateView)
    ensures
        ({
            let on = delivery::turned(s, true);
            let back = delivery::turned(s, false);
            let last = account::last_page(account::unread_of(s.snapshot));
            &&& s.page < last <= usize::MAX ==> on.page == s.page + 1
            &&& last <= usize::MAX && s.page >= last ==> on.page == last
            &&& s.page > 0 ==> back.page == s.page - 1
            &&& s.page == 0 ==> back.page == 0
            &&& on == AccountStateView { page: on.page, ..s }
            &&& back == AccountStateView { page: back.page, ..s }
        }),
{
}

/// What stands on the screen are the identities of the events of the page, in order, with the
/// version of the store that they came from; nothing stands there where the page is empty.
pub proof fn law_the_page_is_on_display(s: AccountStateView)
    ensures
        ({
            let shown = account::on_display(s);
            let events = account::page_of(
                account::events_of(s.snapshot->0.unread_by_pull_request),
                s.page as nat,
            );
            &&& shown is Some <==> s.snapshot is Some && events.len() > 0
            &&& shown matches Some(d) ==> {
                &&& d.state_version == s.snapshot->0.state_version
                &&& d.events.len() == events.len()
                &&& forall|i: int|
                    0 <= i < events.len() ==> #[trigger] d.events[i] == events[i].identity@
            }
            &&& account::captured(s) == (AccountStateView { displayed: shown, ..s })
        }),
{
}

/// The section of an account counts its unread events, shows the rows of its page, and lists at
/// most twelve of the candidates that are not counted.
pub proof fn law_a_section_shows_the_page(login: Seq<char>, s: AccountStateView, now: Moment)
    ensures
        ({
            let section = panel::section_of(login, s, now);
            let events = account::page_of(
                account::events_of(s.snapshot->0.unread_by_pull_request),
                s.page as nat,
            );
            let left_out = s.snapshot->0.incomplete_candidates;
            let read = s.snapshot->0.repository_completeness;
            &&& section.title == login + " · "@ + text::decimal(account::unread_of(s.snapshot))
                + " unread"@
            &&& section.page_label == "Page "@ + text::decimal((s.page + 1) as nat)
            &&& section.stale_notice == s.stale_notice
            &&& section.empty_notice is Some <==> account::unread_of(s.snapshot) == 0
            &&& s.snapshot is None ==> section.events.len() == 0 && section.incomplete.len() == 0
                && section.completeness.len() == 0 && section.incomplete_heading is None
            &&& s.snapshot is Some ==> {
                &&& section.events.len() == events.len()
                &&& forall|i: int|
                    0 <= i < events.len() ==> #[trigger] section.events[i] == panel::event_row_of(
                        events[i]@,
                    )
                &&& section.incomplete_heading is Some <==> left_out.len() > 0
                &&& left_out.len() > 0 ==> section.incomplete_heading == Some(
                    "INCOMPLETE CANDIDATES · "@ + text::decimal(left_out.len())
                        + " (not counted unread)"@,
                )
                &&& section.incomplete.len() == if left_out.len() <= 12 {
                    left_out.len()
                } else {
                    12
                }
                &&& forall|i: int|
                    0 <= i < section.incomplete.len() ==> #[trigger] section.incomplete[i]
                        == panel::candidate_row_of(left_out[i]@)
                &&& section.completeness.len() == read.len()
                &&& forall|i: int|
                    0 <= i < read.len() ==> #[trigger] section.completeness[i]
                        == panel::completeness_row_of(read[i]@)
            }
        }),
{
}

/// The label of the consent says whether alerts are on, or that the choice is being saved.
pub proof fn law_the_consent_is_labelled(s: AccountStateView)
    ensures
        s.consent_transition ==> panel::consent_label_of(s) == "Saving macOS preference…"@,
        !s.consent_transition && s.consent_enabled ==> panel::consent_label_of(s)
            == "macOS alerts: on"@,
        !s.consent_transition && !s.consent_enabled ==> panel::consent_label_of(s)
            == "macOS alerts: off"@,
{
}

/// The row of an event says who, where, which pull request, by whom, when and what.
pub proof fn law_event_rows_say_where(e: ProviderNotificationEventView)
    ensures
        ({
            let row = panel::event_row_of(e);
            let t = e.identity.target;
            let place = t.account + " · "@ + t.owner + "/"@ + t.repository + " #"@ + text::decimal(
                t.pull_request as nat,
            );
            &&& row.occurred_at == e.occurred_at
            &&& row.summary == e.summary
            &&& row.label == model::alert_label_of(e.alert_kind)
            &&& e.actor is None ==> row.line == place
            &&& e.actor matches Some(actor) ==> row.line == place + (" · "@ + actor)
        }),
{
    let t = e.identity.target;
    let place = t.account + " · "@ + t.owner + "/"@ + t.repository + " #"@ + text::decimal(
        t.pull_request as nat,
    );
    if e.actor is None {
        assert(place + Seq::<char>::empty() =~= place);
    }
}

/// The row of a candidate names its pull request, where there is one, its kind and its reason.
pub proof fn law_candidate_rows_say_why(c: IncompleteNotificationCandidateView)
    ensures
        ({
            let row = panel::candidate_row_of(c);
            &&& row.reason == c.reason
            &&& c.target is None ==> row.title == "Unresolved pull request"@ + " · "@ + c.kind
            &&& c.target matches Some(t) ==> row.title == t.owner + "/"@ + t.repository + " #"@
                + text::decimal(t.pull_request as nat) + " · "@ + c.kind
        }),
{
}

/// The row of a repository says whether it was read completely, and why not.
pub proof fn law_completeness_rows_say_why_not(r: RepositoryNotificationCompletenessView)
    ensures
        ({
            let row = panel::completeness_row_of(r);
            let name = r.target.owner + "/"@ + r.target.repository;
            &&& row.complete == r.complete
            &&& r.complete ==> row.text == name + " · complete"@
            &&& !r.complete ==> row.text == name + " · partial: "@ + text::joined(r.reasons, "; "@)
        }),
{
}

} // verus!

//! What selecting, reading and recording notifications is for: which repositories are read, what
//! of the answers is kept, and what is recorded of an alert.

use vstd::prelude::*;

use crate::domain;
use crate::domain::{Account, AccountView, Repository, RepositoryView};
use crate::encoding;
use crate::faults;
use crate::notifications::batches;
use crate::notifications::batches::ProviderNotificationBatch;
use crate::notifications::model;
use crate::notifications::model::{
    IncompleteNotificationCandidate, NotificationPullRequestView,
    NotificationRepositoryScopeView, NotificationSnapshotView, ProviderNotificationEvent,
    ProviderNotificationEventView, PullRequestUnreadSummary, RepositoryNotificationCompleteness,
};
use crate::notifications::registry;
use crate::notifications::registry::{PersistedRouteView, RegistryFile, Reservation};
use crate::notifications::selection;
use crate::seqs;
use crate::sort;
use crate::text;

verus! {

// ---------------------------------------------------------------------------
// Selections

/// The repositories of an account are those whose host and login make up its key.
pub proof fn law_repositories_are_grouped_by_account(
    repositories: Seq<Repository>,
    key: Seq<char>,
    r: Repository,
)
    ensures
        selection::group(repositories, key).contains(r) <==> repositories.contains(r)
            && encoding::json_of_pair(text::lower(r.account.host@), text::lower(r.account.login@))
            == key,
{
    broadcast use vstd::seq_lib::group_filter_ensures;
    broadcast use vstd::seq::Seq::lemma_filter_contains_rev;

    let kept = selection::group(repositories, key);
    if kept.contains(r) {
        let i = kept.index_of(r);
        assert(model::account_key_of(kept[i].account@) == key);
    }
    if repositories.contains(r) && model::account_key_of(r.account@) == key {
        let i = repositories.index_of(r);
        assert(kept.contains(repositories[i]));
    }
}

proof fn lemma_front_is_ordered<T>(s: Seq<(Seq<char>, T)>)
    requires
        s.len() > 0,
        sort::ordered(s),
    ensures
        sort::ordered(s.drop_last()),
{
    let front = s.drop_last();
    assert forall|i: int, j: int| 0 <= i < j < front.len() implies !text::text_less(
        (#[trigger] front[j]).0,
        (#[trigger] front[i]).0,
    ) by {
        assert(front[i] == s[i] && front[j] == s[j]);
    }
}

proof fn lemma_dedup_ends_alike<T>(s: Seq<(Seq<char>, T)>)
    requires
        s.len() > 0,
    ensures
        selection::dedup(s).len() > 0,
        selection::dedup(s).last().0 == s.last().0,
    decreases s.len(),
{
    if s.len() > 1 && s[s.len() - 2].0 == s.last().0 {
        lemma_dedup_ends_alike(s.drop_last());
        assert(s.drop_last().last() == s[s.len() - 2]);
    }
}

proof fn lemma_dedup_ascends<T>(s: Seq<(Seq<char>, T)>, i: int, j: int)
    requires
        sort::ordered(s),
        0 <= i < j < selection::dedup(s).len(),
    ensures
        text::text_less(selection::dedup(s)[i].0, selection::dedup(s)[j].0),
    decreases s.len(),
{
    let front = s.drop_last();
    let kept = selection::dedup(front);
    let all = selection::dedup(s);
    lemma_front_is_ordered(s);
    if j < kept.len() {
        lemma_dedup_ascends(front, i, j);
        assert(all[i] == kept[i] && all[j] == kept[j]);
    } else {
        assert(all == kept.push(s.last()));
        assert(all[i] == kept[i] && all[j] == s.last());
        assert(front.len() > 0);
        lemma_dedup_ends_alike(front);
        let m = s[s.len() - 2].0;
        let e = s[s.len() - 1].0;
        assert(front.last() == s[s.len() - 2]);
        assert(!text::text_less(e, m));
        text::law_text_order_is_total(m, e);
        if i < kept.len() - 1 {
            lemma_dedup_ascends(front, i, kept.len() - 1);
            text::law_text_order_is_transitive(kept[i].0, m, e);
        }
    }
}

proof fn lemma_dedup_adds_nothing<T>(s: Seq<(Seq<char>, T)>, i: int)
    requires
        0 <= i < selection::dedup(s).len(),
    ensures
        s.contains(selection::dedup(s)[i]),
    decreases s.len(),
{
    let front = s.drop_last();
    let kept = selection::dedup(front);
    let all = selection::dedup(s);
    if i < kept.len() {
        lemma_dedup_adds_nothing(front, i);
        assert(all[i] == kept[i]);
        let k = front.index_of(kept[i]);
        assert(s[k] == all[i]);
    } else {
        assert(s[s.len() - 1] == all[i]);
    }
}

proof fn lemma_dedup_keeps_each_key<T>(s: Seq<(Seq<char>, T)>, i: int) -> (j: int)
    requires
        0 <= i < s.len(),
    ensures
        0 <= j < selection::dedup(s).len(),
        selection::dedup(s)[j].0 == s[i].0,
    decreases s.len(),
{
    let front = s.drop_last();
    let all = selection::dedup(s);
    if i < front.len() {
        let j = lemma_dedup_keeps_each_key(front, i);
        assert(all[j] == selection::dedup(front)[j]);
        j
    } else {
        lemma_dedup_ends_alike(s);
        all.len() - 1
    }
}

/// A prepared selection holds repositories of the request only, in the order of their keys, each
/// key once and none left out.
pub proof fn law_a_selection_has_each_repository_once(repositories: Seq<Repository>)
    ensures
        ({
            let prepared = selection::prepared(repositories);
            &&& forall|i: int, j: int|
                0 <= i < j < prepared.len() ==> text::text_less(
                    domain::cache_key_of((#[trigger] prepared[i])@),
                    domain::cache_key_of((#[trigger] prepared[j])@),
                )
            &&& forall|i: int|
                0 <= i < prepared.len() ==> repositories.contains(#[trigger] prepared[i])
            &&& forall|i: int|
                0 <= i < repositories.len() ==> exists|j: int|
                    0 <= j < prepared.len() && domain::cache_key_of((#[trigger] prepared[j])@)
                        == domain::cache_key_of((#[trigger] repositories[i])@)
        }),
{
    broadcast use vstd::seq_lib::group_to_multiset_ensures;

    let pairs = selection::by_cache_key(repositories);
    let sorted = sort::sort_by_key(pairs);
    let kept = selection::dedup(sorted);
    let prepared = selection::prepared(repositories);
    sort::law_sorting_orders_and_keeps(pairs);
    assert forall|p: (Seq<char>, Repository)| sorted.contains(p) == pairs.contains(p) by {
        assert(sorted.to_multiset().count(p) == pairs.to_multiset().count(p));
    }
    assert forall|i: int| 0 <= i < kept.len() implies (#[trigger] kept[i]).0
        == domain::cache_key_of(kept[i].1@) && repositories.contains(kept[i].1) by {
        lemma_dedup_adds_nothing(sorted, i);
        let k = pairs.index_of(kept[i]);
        assert(repositories[k] == kept[i].1);
    }
    assert forall|i: int, j: int| 0 <= i < j < prepared.len() implies text::text_less(
        domain::cache_key_of((#[trigger] prepared[i])@),
        domain::cache_key_of((#[trigger] prepared[j])@),
    ) by {
        lemma_dedup_ascends(sorted, i, j);
        assert(prepared[i] == kept[i].1 && prepared[j] == kept[j].1);
    }
    assert forall|i: int| 0 <= i < prepared.len() implies repositories.contains(
        #[trigger] prepared[i],
    ) by {
        assert(prepared[i] == kept[i].1);
    }
    assert forall|i: int| 0 <= i < repositories.len() implies exists|j: int|
        0 <= j < prepared.len() && domain::cache_key_of((#[trigger] prepared[j])@)
            == domain::cache_key_of((#[trigger] repositories[i])@) by {
        assert(pairs[i].0 == domain::cache_key_of(repositories[i]@));
        assert(sorted.contains(pairs[i]));
        let k = sorted.index_of(pairs[i]);
        let j = lemma_dedup_keeps_each_key(sorted, k);
        assert(prepared[j] == kept[j].1);
    }
}

/// A chunk is of at most five repositories, in their order, and only the last one is of fewer.
pub proof fn law_chunks_are_of_five(repositories: Seq<Repository>, i: int)
    requires
        0 <= i,
        i * 5 < repositories.len(),
    ensures
        ({
            let chunk = selection::chunk(repositories, i);
            &&& chunk.len() <= 5
            &&& (i + 1) * 5 <= repositories.len() ==> chunk.len() == 5
            &&& (i + 1) * 5 > repositories.len() ==> chunk.len() == repositories.len() - i * 5
            &&& forall|k: int|
                0 <= k < chunk.len() ==> #[trigger] chunk[k] == repositories[i * 5 + k]
        }),
{
}

/// The scope of a repository names each part of it.
pub proof fn law_scopes_name_the_repository(repository: RepositoryView)
    ensures
        ({
            let scope = model::scope_of(repository);
            &&& scope.provider == "github"@
            &&& scope.host == repository.host
            &&& scope.account == repository.account.login
            &&& scope.owner == repository.owner
            &&& scope.repository == repository.name
        }),
{
}

/// A pull request is of a selection exactly if some selected repository has its provider and,
/// ignoring case, its host, account, owner and name.
pub proof fn law_selected_pull_requests_agree_in_every_part(
    target: NotificationPullRequestView,
    selected: Seq<NotificationRepositoryScopeView>,
)
    ensures
        selection::is_selected(target, selected) <==> exists|i: int|
            {
                &&& 0 <= i < selected.len()
                &&& (#[trigger] selected[i]).provider == target.provider
                &&& text::lower(selected[i].host) == text::lower(target.host)
                &&& text::lower(selected[i].account) == text::lower(target.account)
                &&& text::lower(selected[i].owner) == text::lower(target.owner)
                &&& text::lower(selected[i].repository) == text::lower(target.repository)
            },
{
    if selection::is_selected(target, selected) {
        let i = choose|i: int|
            0 <= i < selected.len() && selection::in_scope(target, #[trigger] selected[i]);
        assert(selected[i].provider == target.provider);
    }
    if exists|i: int|
        {
            &&& 0 <= i < selected.len()
            &&& (#[trigger] selected[i]).provider == target.provider
            &&& text::lower(selected[i].host) == text::lower(target.host)
            &&& text::lower(selected[i].account) == text::lower(target.account)
            &&& text::lower(selected[i].owner) == text::lower(target.owner)
            &&& text::lower(selected[i].repository) == text::lower(target.repository)
        } {
        let i = choose|i: int|
            {
                &&& 0 <= i < selected.len()
                &&& (#[trigger] selected[i]).provider == target.provider
                &&& text::lower(selected[i].host) == text::lower(target.host)
                &&& text::lower(selected[i].account) == text::lower(target.account)
                &&& text::lower(selected[i].owner) == text::lower(target.owner)
                &&& text::lower(selected[i].repository) == text::lower(target.repository)
            };
        assert(selection::in_scope(target, selected[i]));
    }
}

/// The part of the store that a selection shows has exactly the unread summaries, the candidates
/// and the repositories of the selection, and every candidate that names no pull request.
pub proof fn law_a_selection_shows_all_of_it(
    stored: NotificationSnapshotView,
    selected: Seq<NotificationRepositoryScopeView>,
    summary: PullRequestUnreadSummary,
    candidate: IncompleteNotificationCandidate,
    read: RepositoryNotificationCompleteness,
)
    ensures
        ({
            let shown = selection::projected(stored, selected);
            &&& shown.state_version == stored.state_version
            &&& shown.notices == stored.notices
            &&& shown.unread_by_pull_request.contains(summary)
                <==> stored.unread_by_pull_request.contains(summary) && selection::is_selected(
                summary.target@,
                selected,
            )
            &&& shown.incomplete_candidates.contains(candidate)
                <==> stored.incomplete_candidates.contains(candidate) && (candidate.target is None
                || selection::is_selected(candidate.target->0@, selected))
            &&& shown.repository_completeness.contains(read)
                <==> stored.repository_completeness.contains(read) && selected.contains(
                read.target@,
            )
        }),
{
    broadcast use vstd::seq_lib::group_filter_ensures;
    broadcast use vstd::seq::Seq::lemma_filter_contains_rev;

    let shown = selection::projected(stored, selected);
    if shown.unread_by_pull_request.contains(summary) {
        let i = shown.unread_by_pull_request.index_of(summary);
        assert(selection::is_selected(shown.unread_by_pull_request[i].target@, selected));
    }
    if stored.unread_by_pull_request.contains(summary) && selection::is_selected(
        summary.target@,
        selected,
    ) {
        let i = stored.unread_by_pull_request.index_of(summary);
        assert(shown.unread_by_pull_request.contains(stored.unread_by_pull_request[i]));
    }
    if shown.incomplete_candidates.contains(candidate) {
        let i = shown.incomplete_candidates.index_of(candidate);
        assert(shown.incomplete_candidates[i].target is None || selection::is_selected(
            shown.incomplete_candidates[i].target->0@,
            selected,
        ));
    }
    if stored.incomplete_candidates.contains(candidate) && (candidate.target is None
        || selection::is_selected(candidate.target->0@, selected)) {
        let i = stored.incomplete_candidates.index_of(candidate);
        assert(shown.incomplete_candidates.contains(stored.incomplete_candidates[i]));
    }
    if shown.repository_completeness.contains(read) {
        let i = shown.repository_completeness.index_of(read);
        assert(selected.contains(shown.repository_completeness[i].target@));
    }
    if stored.repository_completeness.contains(read) && selected.contains(read.target@) {
        let i = stored.repository_completeness.index_of(read);
        assert(shown.repository_completeness.contains(stored.repository_completeness[i]));
    }
}

/// The events that may become alerts are exactly those of the selection.
pub proof fn law_events_of_the_selection_are_kept(
    events: Seq<ProviderNotificationEvent>,
    selected: Seq<NotificationRepositoryScopeView>,
    event: ProviderNotificationEvent,
)
    ensures
        selection::selected_events(events, selected).contains(event) <==> events.contains(event)
            && selection::is_selected(event.identity.target@, selected),
{
    broadcast use vstd::seq_lib::group_filter_ensures;
    broadcast use vstd::seq::Seq::lemma_filter_contains_rev;

    let kept = selection::selected_events(events, selected);
    if kept.contains(event) {
        let i = kept.index_of(event);
        assert(selection::is_selected(kept[i].identity.target@, selected));
    }
    if events.contains(event) && selection::is_selected(event.identity.target@, selected) {
        let i = events.index_of(event);
        assert(kept.contains(events[i]));
    }
}

// ---------------------------------------------------------------------------
// Batches

proof fn lemma_concat_contains<A>(parts: Seq<Seq<A>>, x: A)
    ensures
        seqs::concat(parts).contains(x) <==> exists|i: int|
            0 <= i < parts.len() && (#[trigger] parts[i]).contains(x),
    decreases parts.len(),
{
    if parts.len() > 0 {
        let front = parts.drop_last();
        let before = seqs::concat(front);
        let all = seqs::concat(parts);
        lemma_concat_contains(front, x);
        assert(all == before + parts.last());
        if all.contains(x) {
            let k = all.index_of(x);
            if k < before.len() {
                assert(before[k] == x);
                let i = choose|i: int| 0 <= i < front.len() && (#[trigger] front[i]).contains(x);
                assert(parts[i].contains(x));
            } else {
                assert(parts.last()[k - before.len()] == x);
                assert(parts[parts.len() - 1].contains(x));
            }
        }
        if exists|i: int| 0 <= i < parts.len() && (#[trigger] parts[i]).contains(x) {
            let i = choose|i: int| 0 <= i < parts.len() && (#[trigger] parts[i]).contains(x);
            if i < front.len() {
                assert(front[i].contains(x));
                let k = before.index_of(x);
                assert(all[k] == x);
            } else {
                let k = parts.last().index_of(x);
                assert(all[before.len() + k] == x);
            }
        }
    }
}

/// The time of several batches is that of the latest one.
pub proof fn law_the_latest_observation_counts(batches: Seq<(usize, ProviderNotificationBatch)>)
    ensures
        forall|i: int|
            0 <= i < batches.len() ==> (#[trigger] batches[i]).1.observed_at_unix_ms
                <= batches::latest(batches),
        batches.len() > 0 ==> exists|i: int|
            0 <= i < batches.len() && (#[trigger] batches[i]).1.observed_at_unix_ms
                == batches::latest(batches),
        batches.len() == 0 ==> batches::latest(batches) == 0,
    decreases batches.len(),
{
    if batches.len() > 0 {
        let front = batches.drop_last();
        law_the_latest_observation_counts(front);
        assert forall|i: int| 0 <= i < batches.len() implies (
        #[trigger] batches[i]).1.observed_at_unix_ms <= batches::latest(batches) by {
            if i < front.len() {
                assert(front[i] == batches[i]);
            }
        }
        if batches::latest(batches) == batches.last().1.observed_at_unix_ms {
            assert(batches[batches.len() - 1].1.observed_at_unix_ms == batches::latest(batches));
        } else {
            let i = choose|i: int|
                0 <= i < front.len() && (#[trigger] front[i]).1.observed_at_unix_ms
                    == batches::latest(front);
            assert(batches[i] == front[i]);
        }
    }
}

/// What several batches make together has every observation and every notice of each, is full
/// and complete only if nothing failed and each batch is, and says how many reads failed.
pub proof fn law_batches_are_combined(
    account: Account,
    chunks: Seq<Vec<Repository>>,
    all: Seq<(usize, ProviderNotificationBatch)>,
    failures: Seq<(usize, String)>,
    r: ProviderNotificationBatch,
    i: int,
    k: int,
)
    requires
        batches::combined(account, chunks, all, failures, r),
        0 <= i < all.len(),
    ensures
        r.account == account,
        r.full_snapshot ==> failures.len() == 0 && all[i].1.full_snapshot,
        r.complete ==> failures.len() == 0 && all[i].1.complete,
        r.observed_at_unix_ms >= all[i].1.observed_at_unix_ms,
        0 <= k < all[i].1.observations@.len() ==> r.observations@.contains(
            all[i].1.observations@[k],
        ),
        failures.len() == 0 ==> text::texts(r.notices@).len() == batches::all_notices(all).len(),
        failures.len() > 0 ==> text::texts(r.notices@).last() == text::decimal(failures.len())
            + " of "@ + text::decimal(chunks.len())
            + " bounded repository batches failed; successful batches were reconciled as partial and cached unread was retained for failures"@,
{
    law_the_latest_observation_counts(all);
    let f = |b: (usize, ProviderNotificationBatch)| b.1.observations@;
    let parts = all.map_values(f);
    if 0 <= k < all[i].1.observations@.len() {
        let x = all[i].1.observations@[k];
        assert(parts[i] == all[i].1.observations@);
        assert(parts[i].contains(x));
        lemma_concat_contains(parts, x);
    }
}

/// Where nothing failed and every batch is full and complete, so is what they make together.
pub proof fn law_complete_batches_make_a_complete_one(
    account: Account,
    chunks: Seq<Vec<Repository>>,
    all: Seq<(usize, ProviderNotificationBatch)>,
    r: ProviderNotificationBatch,
)
    requires
        batches::combined(account, chunks, all, Seq::empty(), r),
        forall|i: int|
            0 <= i < all.len() ==> (#[trigger] all[i]).1.full_snapshot && all[i].1.complete,
    ensures
        r.full_snapshot,
        r.complete,
{
}

/// A batch is at fault exactly if it is of another account or of other repositories than asked
/// for; without any batch the read as a whole is.
pub proof fn law_batches_answer_what_was_asked(
    account: AccountView,
    chunk: Seq<Repository>,
    batch: ProviderNotificationBatch,
    chunks: Seq<Vec<Repository>>,
)
    ensures
        ({
            let fault = batches::batch_fault(account, chunk, batch);
            let same = forall|scope: NotificationRepositoryScopeView|
                #![trigger batches::chunk_scopes(chunk).contains(scope)]
                batches::chunk_scopes(chunk).contains(scope) == batches::read_scopes(
                    batch.repositories@,
                ).contains(scope);
            &&& fault is None <==> batch.account@ == account && same
            &&& batch.account@ != account ==> fault == Some(
                "provider batch changed selected account"@,
            )
            &&& batch.account@ == account && !same ==> fault == Some(
                "provider batch changed selected repository scope"@,
            )
            &&& batches::combine_fault(account, chunks, Seq::empty()) == Some(
                "all bounded repository batches failed"@,
            )
        }),
{
}

/// A repository whose read failed is recorded as incomplete, with the error.
pub proof fn law_failed_reads_are_recorded(repository: RepositoryView, error: Seq<char>)
    ensures
        ({
            let entry = batches::failed_entry(repository, error);
            &&& !entry.complete
            &&& entry.target.owner == repository.owner
            &&& entry.target.repository == repository.name
            &&& entry.target.host == repository.host
            &&& entry.target.account == repository.account.login
            &&& entry.reasons.len() == 1
            &&& entry.reasons[0] == "Bounded batch read failed: "@ + error
        }),
{
}

// ---------------------------------------------------------------------------
// Alerts

/// An alert says what happened, where and on which pull request, and repeats the summary.
pub proof fn law_alerts_say_what_happened(
    account: AccountView,
    event: ProviderNotificationEventView,
)
    ensures
        ({
            let alert = model::system_notification_of(account, event);
            let t = event.identity.target;
            let place = " · "@ + t.owner + "/"@ + t.repository + " #"@ + text::decimal(
                t.pull_request as nat,
            );
            &&& alert.body == event.summary
            &&& alert.tag == model::stable_event_tag_of(account, event.identity)
            &&& event.alert_kind is ReviewRequest ==> alert.title == "Review requested"@ + place
            &&& event.alert_kind is Mention ==> alert.title == "Proven mention"@ + place
            &&& event.alert_kind is Reply ==> alert.title == "Review-thread reply"@ + place
            &&& event.alert_kind is FailedCheckOwnPullRequest ==> alert.title
                == "Failed check on your pull request"@ + place
        }),
{
    let t = event.identity.target;
    let place = " · "@ + t.owner + "/"@ + t.repository + " #"@ + text::decimal(
        t.pull_request as nat,
    );
    assert(model::system_notification_of(account, event).title =~= model::alert_label_of(
        event.alert_kind,
    ) + place);
}

/// The key of an account does not look at case; a schedule is named after it.
pub proof fn law_keys_ignore_case(a: AccountView, b: AccountView)
    requires
        text::lower(a.host) == text::lower(b.host),
        text::lower(a.login) == text::lower(b.login),
    ensures
        model::account_key_of(a) == model::account_key_of(b),
        model::schedule_key_of(a) == "notifications:"@ + model::account_key_of(b),
{
}

/// A new event is recorded with its tag, its route and its alert, each at the end; an event whose
/// tag is known changes nothing.
pub proof fn law_a_new_event_is_recorded(
    before: Reservation,
    account: AccountView,
    lease: u64,
    event: ProviderNotificationEventView,
)
    ensures
        ({
            let after = registry::reserve_event(before, account, lease, event);
            let tag = model::stable_event_tag_of(account, event.identity);
            let t = event.identity.target;
            &&& before.tags.contains(tag) ==> after == before
            &&& !before.tags.contains(tag) ==> {
                let route = after.routes.last();
                let alert = after.queued.last();
                &&& after.tags == before.tags.push(tag)
                &&& after.queued == before.queued.push(alert)
                &&& after.routes.len() > 0
                &&& route.tag == tag
                &&& route.account == account
                &&& route.target == t
                &&& alert.delivery_lease == Some(lease)
                &&& alert.account_key == model::account_key_of(account)
                &&& alert.notification.tag == tag
                &&& alert.notification.body == event.summary
                &&& alert.route.account == account
                &&& alert.route.owner == t.owner
                &&& alert.route.repository == t.repository
                &&& alert.route.pull_request == t.pull_request
            }
        }),
{
}

/// No other route is lost when an event is recorded.
pub proof fn law_other_routes_stay(
    before: Reservation,
    account: AccountView,
    lease: u64,
    event: ProviderNotificationEventView,
    route: PersistedRouteView,
)
    requires
        before.routes.contains(route),
        route.tag != model::stable_event_tag_of(account, event.identity),
    ensures
        registry::reserve_event(before, account, lease, event).routes.contains(route),
{
    broadcast use vstd::seq_lib::group_filter_ensures;

    let tag = model::stable_event_tag_of(account, event.identity);
    let i = before.routes.index_of(route);
    let kept = registry::without_tag(before.routes, tag);
    assert(kept.contains(before.routes[i]));
    let after = registry::reserve_event(before, account, lease, event).routes;
    if !before.tags.contains(tag) {
        let k = kept.index_of(route);
        assert(after[k] == route);
    }
}

/// Alerts are recorded only with the stored consent of the account, only for its own events, and
/// only while the store can count on.
pub proof fn law_recording_needs_consent(
    file: RegistryFile,
    account: AccountView,
    events: Seq<ProviderNotificationEventView>,
)
    ensures
        ({
            let key = model::account_key_of(account);
            let fault = registry::reservation_fault(file, account, events);
            let allowed = file.enabled@.contains_key(key) && file.enabled@[key];
            let own = forall|i: int|
                0 <= i < events.len() ==> text::lower(
                    (#[trigger] events[i]).identity.target.account,
                ) == text::lower(account.login);
            &&& fault is None <==> allowed && own && file.revision < u64::MAX
            &&& !allowed ==> fault == Some("macOS consent is no longer enabled"@)
            &&& allowed && !own ==> fault == Some(
                "event account differs from notification consent account"@,
            )
            &&& allowed && own && file.revision == u64::MAX ==> fault == Some(
                "Notification registry revision exhausted"@,
            )
        }),
{
    if exists|i: int|
        0 <= i < events.len() && !registry::of_account(#[trigger] events[i], account) {
        let i = choose|i: int|
            0 <= i < events.len() && !registry::of_account(#[trigger] events[i], account);
        assert(text::lower(events[i].identity.target.account) != text::lower(account.login));
    } else {
        assert forall|i: int| 0 <= i < events.len() implies text::lower(
            (#[trigger] events[i]).identity.target.account,
        ) == text::lower(account.login) by {
            assert(registry::of_account(events[i], account));
        }
    }
}

/// A part of an identity is accepted exactly if it is not empty, of at most 512 bytes, and without control characters; the message names the part.
pub proof fn law_identity_parts_are_bounded(value: Seq<char>, name: Seq<char>)
    ensures
        ({
            let fault = registry::identity_fault(value, name);
            let long = text::byte_len(value) > 512;
            let controls = exists|i: int|
                0 <= i < value.len() && text::is_control_char(#[trigger] value[i]);
            &&& fault is None <==> value.len() > 0 && !long && !controls
            &&& value.len() == 0 ==> fault == Some(
                "Notification "@ + name + " must not be empty"@,
            )
            &&& value.len() > 0 && long ==> fault == Some(
                "Notification "@ + name + " exceeds byte bound"@,
            )
            &&& value.len() > 0 && !long && controls ==> fault == Some(
                "Notification "@ + name + " contains control characters"@,
            )
        }),
{
}

/// A stored route is accepted exactly if its tag is well formed and kept, its parts are accepted,
/// its provider is known, its number is positive, and its account is that of its target.
pub proof fn law_stored_routes_are_consistent(route: PersistedRouteView, tags: Seq<Seq<char>>)
    ensures
        registry::route_fault(route, tags) is None <==> {
            let t = route.target;
            &&& registry::tag_fault(route.tag) is None
            &&& tags.contains(route.tag)
            &&& registry::identity_fault(route.account.host, "route account host"@) is None
            &&& registry::identity_fault(route.account.login, "route account login"@) is None
            &&& t.provider == "github"@
            &&& registry::identity_fault(t.host, "route host"@) is None
            &&& registry::identity_fault(t.account, "route account"@) is None
            &&& registry::identity_fault(t.owner, "route owner"@) is None
            &&& registry::identity_fault(t.repository, "route repository"@) is None
            &&& t.pull_request > 0
            &&& text::lower(route.account.host) == text::lower(t.host)
            &&& text::lower(route.account.login) == text::lower(t.account)
        },
{
    let findings = registry::route_findings(route, tags);
    faults::lemma_no_fault_of_all(findings);
    assert(findings[0] == registry::tag_fault(route.tag));
    assert(findings[1] is None <==> tags.contains(route.tag));
    assert(findings[2] == registry::identity_fault(route.account.host, "route account host"@));
    assert(findings[3] == registry::identity_fault(route.account.login, "route account login"@));
    assert(findings[4] is None <==> route.target.provider == "github"@);
    assert(findings[5] == registry::identity_fault(route.target.host, "route host"@));
    assert(findings[6] == registry::identity_fault(route.target.account, "route account"@));
    assert(findings[7] == registry::identity_fault(route.target.owner, "route owner"@));
    assert(findings[8] == registry::identity_fault(route.target.repository, "route repository"@));
    assert(findings[9] is None <==> route.target.pull_request > 0);
    assert(findings[10] is None <==> text::lower(route.account.host) == text::lower(
        route.target.host,
    ) && text::lower(route.account.login) == text::lower(route.target.account));
    assert(findings.len() == 11);
}

/// Of several findings the first fault counts.
pub proof fn law_the_first_fault_counts(findings: Seq<Option<Seq<char>>>, i: int)
    requires
        0 <= i < findings.len(),
        findings[i] is Some,
        forall|k: int| 0 <= k < i ==> #[trigger] findings[k] is None,
    ensures
        faults::first_fault(findings) == findings[i],
    decreases findings.len(),
{
    if i > 0 {
        let rest = findings.drop_first();
        assert(rest[i - 1] == findings[i]);
        assert forall|k: int| 0 <= k < i - 1 implies #[trigger] rest[k] is None by {
            assert(rest[k] == findings[k + 1]);
        }
        law_the_first_fault_counts(rest, i - 1);
    }
}

/// A stored registry is accepted exactly if its version is the present one, its accounts, tags
/// and routes keep to their bounds, no tag occurs twice, and each of them is accepted.
pub proof fn law_stored_registries_are_consistent(file: RegistryFile)
    ensures
        registry::registry_fault(file) is None <==> {
            let tags = text::texts(file.delivered_tags@);
            let keys = file.enabled.key_seq();
            &&& file.schema_version == 1
            &&& keys.len() <= 128
            &&& forall|i: int|
                0 <= i < keys.len() ==> registry::preference_fault(#[trigger] keys[i]) is None
            &&& tags.len() <= 2048
            &&& tags.no_duplicates()
            &&& forall|i: int| 0 <= i < tags.len() ==> registry::tag_fault(#[trigger] tags[i]) is None
            &&& file.routes@.len() <= 512
            &&& registry::route_tags(file.routes@).no_duplicates()
            &&& forall|i: int|
                0 <= i < file.routes@.len() ==> registry::route_fault(
                    (#[trigger] file.routes@[i])@,
                    tags,
                ) is None
        },
{
    let tags = text::texts(file.delivered_tags@);
    let keys = file.enabled.key_seq();
    let a = Seq::new(keys.len(), |i: int| registry::preference_fault(keys[i]));
    let b = Seq::new(tags.len(), |i: int| registry::tag_fault(tags[i]));
    let c = Seq::new(file.routes@.len(), |i: int| registry::route_fault(file.routes@[i]@, tags));
    faults::lemma_no_fault_of_all(a);
    faults::lemma_no_fault_of_all(b);
    faults::lemma_no_fault_of_all(c);
    assert forall|i: int| 0 <= i < keys.len() implies #[trigger] a[i]
        == registry::preference_fault(keys[i]) by {}
    assert((forall|i: int| 0 <= i < a.len() ==> #[trigger] a[i] is None) <==> forall|i: int|
        0 <= i < keys.len() ==> registry::preference_fault(#[trigger] keys[i]) is None) by {
        if forall|i: int| 0 <= i < a.len() ==> #[trigger] a[i] is None {
            assert forall|i: int| 0 <= i < keys.len() implies registry::preference_fault(
                #[trigger] keys[i],
            ) is None by {
                assert(a[i] is None);
            }
        }
    }
    assert((forall|i: int| 0 <= i < b.len() ==> #[trigger] b[i] is None) <==> forall|i: int|
        0 <= i < tags.len() ==> registry::tag_fault(#[trigger] tags[i]) is None) by {
        if forall|i: int| 0 <= i < b.len() ==> #[trigger] b[i] is None {
            assert forall|i: int| 0 <= i < tags.len() implies registry::tag_fault(
                #[trigger] tags[i],
            ) is None by {
                assert(b[i] is None);
            }
        }
    }
    assert((forall|i: int| 0 <= i < c.len() ==> #[trigger] c[i] is None) <==> forall|i: int|
        0 <= i < file.routes@.len() ==> registry::route_fault((#[trigger] file.routes@[i])@, tags)
            is None) by {
        if forall|i: int| 0 <= i < c.len() ==> #[trigger] c[i] is None {
            assert forall|i: int| 0 <= i < file.routes@.len() implies registry::route_fault(
                (#[trigger] file.routes@[i])@,
                tags,
            ) is None by {
                assert(c[i] is None);
            }
        }
    }
}

} // verus!

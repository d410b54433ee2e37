//! The repositories that an account polls: their order, their chunks and their digest.

use vstd::prelude::*;
use vstd::string::*;

use crate::domain;
use crate::domain::Repository;
use crate::encoding;
use crate::notifications::model;
use crate::notifications::model::{NotificationPullRequest, NotificationPullRequestView, NotificationRepositoryScope, NotificationRepositoryScopeView, NotificationSnapshot, NotificationSnapshotView, IncompleteNotificationCandidate, PullRequestUnreadSummary, ProviderNotificationEvent, RepositoryNotificationCompleteness};
use crate::seqs;
use crate::sort;
use crate::text;
use crate::text_map::TextMap;

verus! {

pub const CHUNK_SIZE: usize = 5;

// ---------------------------------------------------------------------------
// Grouping by account

/// The repositories of one account, in their order.
pub open spec fn group(repositories: Seq<Repository>, key: Seq<char>) -> Seq<Repository> {
    repositories.filter(|r: Repository| model::account_key_of(r.account@) == key)
}

pub open spec fn grouped_by_account(
    repositories: Seq<Repository>,
    groups: Map<Seq<char>, Vec<Repository>>,
) -> bool {
    forall|key: Seq<char>|
        #![trigger groups.contains_key(key)]
        #![trigger group(repositories, key)]
        (groups.contains_key(key) == (group(repositories, key).len() > 0)) && (groups.contains_key(
            key,
        ) ==> groups[key]@ == group(repositories, key))
}

pub fn group_by_account(repositories: &Vec<Repository>) -> (r: TextMap<Vec<Repository>>)
    ensures
        grouped_by_account(repositories@, r@),
{
    let mut groups: TextMap<Vec<Repository>> = TextMap::new();
    let mut i: usize = 0;
    proof {
        assert forall|key: Seq<char>| #[trigger] group(repositories@.take(0), key).len() == 0 by {
            seqs::lemma_filter_nothing(
                repositories@,
                |r: Repository| model::account_key_of(r.account@) == key,
            );
        }
    }
    while i < repositories.len()
        invariant
            i <= repositories@.len(),
            grouped_by_account(repositories@.take(i as int), groups@),
        decreases repositories.len() - i,
    {
        let key = model::account_key(&repositories[i].account);
        let ghost before = groups@;
        let mut members: Vec<Repository> = match groups.remove(&key) {
            Some(v) => v,
            None => Vec::new(),
        };
        members.push(repositories[i].clone());
        let ghost members_after = members@;
        proof {
            assert(group(repositories@.take(i as int), key@) =~= members_after.drop_last());
        }
        groups.insert(key, members);
        proof {
            let all = repositories@;
            assert forall|k: Seq<char>| #![auto]
                (groups@.contains_key(k) == (group(all.take(i + 1), k).len() > 0)) && (
                groups@.contains_key(k) ==> groups@[k]@ == group(all.take(i + 1), k)) by {
                seqs::lemma_filter_step(
                    all,
                    i as int,
                    |r: Repository| model::account_key_of(r.account@) == k,
                );
                assert(before.contains_key(k) == (group(all.take(i as int), k).len() > 0));
                if k == key@ {
                    assert(members_after =~= group(all.take(i as int), k).push(all[i as int]));
                }
            }
        }
        i += 1;
    }
    proof {
        assert(repositories@.take(i as int) =~= repositories@);
    }
    groups
}

// ---------------------------------------------------------------------------
// The order of a selection

pub open spec fn by_cache_key(repositories: Seq<Repository>) -> Seq<(Seq<char>, Repository)> {
    repositories.map_values(|r: Repository| (domain::cache_key_of(r@), r))
}

/// Of neighbours with one key only the first stays.
pub open spec fn dedup<T>(s: Seq<(Seq<char>, T)>) -> Seq<(Seq<char>, T)>
    decreases s.len(),
{
    if s.len() == 0 {
        s
    } else if s.len() > 1 && s[s.len() - 2].0 == s.last().0 {
        dedup(s.drop_last())
    } else {
        dedup(s.drop_last()).push(s.last())
    }
}

pub open spec fn items<T>(s: Seq<(Seq<char>, T)>) -> Seq<T> {
    s.map_values(|p: (Seq<char>, T)| p.1)
}

/// The repositories of a selection in the order of their keys, each key once.
pub open spec fn prepared(repositories: Seq<Repository>) -> Seq<Repository> {
    items(dedup(sort::sort_by_key(by_cache_key(repositories))))
}

proof fn lemma_dedup_keeps_one<T>(s: Seq<(Seq<char>, T)>)
    ensures
        s.len() > 0 ==> dedup(s).len() > 0,
    decreases s.len(),
{
    if s.len() > 1 {
        lemma_dedup_keeps_one(s.drop_last());
    }
}

/// A selection of some repositories is never empty.
pub proof fn law_prepared_is_empty_only_of_nothing(repositories: Seq<Repository>)
    ensures
        (prepared(repositories).len() == 0) == (repositories.len() == 0),
{
    sort::law_sorting_orders_and_keeps(by_cache_key(repositories));
    lemma_dedup_keeps_one(sort::sort_by_key(by_cache_key(repositories)));
}

pub fn prepare(repositories: &Vec<Repository>) -> (r: Vec<Repository>)
    ensures
        r@ == prepared(repositories@),
{
    let mut pairs: Vec<(String, Repository)> = Vec::new();
    let mut i: usize = 0;
    while i < repositories.len()
        invariant
            i <= repositories@.len(),
            pairs@.len() == i,
            forall|k: int|
                #![trigger pairs@[k]]
                0 <= k < i ==> pairs@[k].0@ == domain::cache_key_of(repositories@[k]@) && pairs@[k].1
                    == repositories@[k],
        decreases repositories.len() - i,
    {
        pairs.push((repositories[i].cache_key(), repositories[i].clone()));
        i += 1;
    }
    proof {
        assert(sort::keyed(pairs@) =~= by_cache_key(repositories@));
    }
    let sorted = sort::sort_pairs(pairs);
    let ghost all = sort::keyed(sorted@);
    let mut out: Vec<Repository> = Vec::new();
    let mut j: usize = 0;
    proof {
        assert(all.take(0) =~= Seq::<(Seq<char>, Repository)>::empty());
        assert(out@ =~= items(dedup(all.take(0))));
    }
    while j < sorted.len()
        invariant
            j <= sorted@.len(),
            all == sort::keyed(sorted@),
            out@ == items(dedup(all.take(j as int))),
        decreases sorted.len() - j,
    {
        proof {
            assert(all.take(j + 1).drop_last() =~= all.take(j as int));
            assert(all.take(j + 1).last() == all[j as int]);
            assert(all[j as int] == (sorted@[j as int].0@, sorted@[j as int].1));
            if j > 0 {
                assert(all.take(j + 1)[j - 1] == all[j - 1]);
                assert(all[j - 1].0 == sorted@[j - 1].0@);
            }
            assert(items(dedup(all.take(j as int)).push(all[j as int])) =~= items(
                dedup(all.take(j as int)),
            ).push(all[j as int].1));
        }
        if j == 0 || sorted[j].0 != sorted[j - 1].0 {
            out.push(sorted[j].1.clone());
        }
        j += 1;
    }
    proof {
        assert(all.take(j as int) =~= all);
    }
    out
}

// ---------------------------------------------------------------------------
// Chunks

/// Chunk `i` of a selection: five repositories, the last chunk fewer.
pub open spec fn chunk(repositories: Seq<Repository>, i: int) -> Seq<Repository> {
    repositories.subrange(
        i * CHUNK_SIZE,
        if (i + 1) * CHUNK_SIZE <= repositories.len() {
            (i + 1) * CHUNK_SIZE
        } else {
            repositories.len() as int
        },
    )
}

pub open spec fn chunked(repositories: Seq<Repository>, chunks: Seq<Vec<Repository>>) -> bool {
    &&& chunks.len() == (repositories.len() + CHUNK_SIZE - 1) / CHUNK_SIZE as int
    &&& forall|i: int| 0 <= i < chunks.len() ==> (#[trigger] chunks[i])@ == chunk(repositories, i)
}

pub fn chunks_of(repositories: &Vec<Repository>) -> (r: Vec<Vec<Repository>>)
    ensures
        chunked(repositories@, r@),
{
    let mut out: Vec<Vec<Repository>> = Vec::new();
    let mut from: usize = 0;
    let total: usize = repositories.len();
    while from < total
        invariant
            total == repositories@.len(),
            from <= total,
            from == out@.len() * CHUNK_SIZE || (from == total && out@.len() == (total + CHUNK_SIZE - 1)
                / CHUNK_SIZE as int),
            from == total ==> out@.len() == (total + CHUNK_SIZE - 1) / CHUNK_SIZE as int,
            forall|i: int|
                0 <= i < out@.len() ==> (#[trigger] out@[i])@ == chunk(repositories@, i),
        decreases total - from,
    {
        let to: usize = if total - from >= CHUNK_SIZE {
            from + CHUNK_SIZE
        } else {
            total
        };
        let ghost n = out@.len() as int;
        let mut members: Vec<Repository> = Vec::new();
        let mut i: usize = from;
        while i < to
            invariant
                from <= i <= to <= total,
                total == repositories@.len(),
                members@ =~= repositories@.subrange(from as int, i as int),
            decreases to - i,
        {
            members.push(repositories[i].clone());
            i += 1;
        }
        proof {
            assert(members@ =~= chunk(repositories@, n));
        }
        out.push(members);
        from = to;
    }
    out
}

proof fn lemma_chunk_holds(repositories: Seq<Repository>, k: int)
    requires
        0 <= k < repositories.len(),
    ensures
        0 <= k / (CHUNK_SIZE as int) < (repositories.len() + CHUNK_SIZE - 1) / CHUNK_SIZE as int,
        0 <= k % (CHUNK_SIZE as int) < chunk(repositories, k / (CHUNK_SIZE as int)).len(),
        chunk(repositories, k / (CHUNK_SIZE as int))[k % (CHUNK_SIZE as int)] == repositories[k],
{
}

pub open spec fn in_some_chunk(chunks: Seq<Vec<Repository>>, r: Repository) -> bool {
    exists|i: int, j: int|
        0 <= i < chunks.len() && 0 <= j < chunks[i]@.len() && #[trigger] chunks[i]@[j] == r
}

/// No repository of a selection is left out of its chunks, and no chunk holds more than five.
pub proof fn law_chunks_omit_nothing(repositories: Seq<Repository>, chunks: Seq<Vec<Repository>>)
    requires
        chunked(repositories, chunks),
    ensures
        forall|k: int|
            0 <= k < repositories.len() ==> in_some_chunk(chunks, #[trigger] repositories[k]),
        forall|i: int| 0 <= i < chunks.len() ==> 1 <= (#[trigger] chunks[i])@.len() <= CHUNK_SIZE,
{
    assert forall|k: int| 0 <= k < repositories.len() implies in_some_chunk(
        chunks,
        #[trigger] repositories[k],
    ) by {
        lemma_chunk_holds(repositories, k);
        let i = k / (CHUNK_SIZE as int);
        assert(chunks[i]@[k % (CHUNK_SIZE as int)] == repositories[k]);
    }
    assert forall|i: int| 0 <= i < chunks.len() implies 1 <= (#[trigger] chunks[i])@.len()
        <= CHUNK_SIZE by {
        assert(chunks[i]@ == chunk(repositories, i));
        assert(i * 5 < repositories.len());
    }
}

// ---------------------------------------------------------------------------
// The digest of a selection

pub open spec fn cache_keys(repositories: Seq<Repository>) -> Seq<Seq<char>> {
    repositories.map_values(|r: Repository| domain::cache_key_of(r@))
}

/// The bytes that stand for some keys: each key and a zero byte.
pub open spec fn key_bytes(keys: Seq<Seq<char>>) -> Seq<u8> {
    seqs::concat(keys.map_values(|k: Seq<char>| vstd::utf8::encode_utf8(k).push(0u8)))
}

/// The digest of a selection, which does not depend on the order of its repositories.
pub open spec fn selection_of(repositories: Seq<Repository>) -> Seq<char> {
    encoding::hex(encoding::sha256_of(key_bytes(sort::sort_texts(cache_keys(repositories)))))
}

/// A selection has the same digest in whatever order its repositories stand.
pub proof fn law_the_digest_does_not_look_at_the_order(a: Seq<Repository>, b: Seq<Repository>)
    requires
        cache_keys(a).to_multiset() == cache_keys(b).to_multiset(),
    ensures
        selection_of(a) == selection_of(b),
{
    sort::law_sorting_does_not_look_at_the_order(cache_keys(a), cache_keys(b));
}

pub fn selection_key(repositories: &Vec<Repository>) -> (r: String)
    ensures
        r@ == selection_of(repositories@),
        r@.len() == 64,
{
    let mut keys: Vec<String> = Vec::new();
    let mut i: usize = 0;
    while i < repositories.len()
        invariant
            i <= repositories@.len(),
            keys@.len() == i,
            forall|k: int|
                0 <= k < i ==> (#[trigger] keys@[k])@ == domain::cache_key_of(repositories@[k]@),
        decreases repositories.len() - i,
    {
        keys.push(repositories[i].cache_key());
        i += 1;
    }
    proof {
        assert(text::texts(keys@) =~= cache_keys(repositories@));
    }
    let sorted = sort::sorted_texts(keys);
    let ghost parts = text::texts(sorted@).map_values(
        |k: Seq<char>| vstd::utf8::encode_utf8(k).push(0u8),
    );
    let mut bytes: Vec<u8> = Vec::new();
    let mut j: usize = 0;
    proof {
        assert(parts.take(0) =~= Seq::<Seq<u8>>::empty());
    }
    while j < sorted.len()
        invariant
            j <= sorted@.len(),
            parts == text::texts(sorted@).map_values(
                |k: Seq<char>| vstd::utf8::encode_utf8(k).push(0u8),
            ),
            bytes@ == seqs::concat(parts.take(j as int)),
        decreases sorted.len() - j,
    {
        let ghost before = bytes@;
        let mut key: Vec<u8> = sorted[j].as_str().as_bytes_vec();
        bytes.append(&mut key);
        bytes.push(0u8);
        proof {
            seqs::lemma_concat_step(parts, j as int);
            assert(parts[j as int] == vstd::utf8::encode_utf8(sorted@[j as int]@).push(0u8));
            assert(bytes@ =~= before + parts[j as int]);
        }
        j += 1;
    }
    proof {
        assert(parts.take(j as int) =~= parts);
    }
    encoding::digest_text(&bytes)
}

// ---------------------------------------------------------------------------
// What a selection shows

pub open spec fn scopes(repositories: Seq<Repository>) -> Seq<NotificationRepositoryScopeView> {
    repositories.map_values(|r: Repository| model::scope_of(r@))
}

pub open spec fn scope_views(s: Seq<NotificationRepositoryScope>) -> Seq<
    NotificationRepositoryScopeView,
> {
    s.map_values(|x: NotificationRepositoryScope| x@)
}

pub fn scopes_of(repositories: &Vec<Repository>) -> (r: Vec<NotificationRepositoryScope>)
    ensures
        scope_views(r@) == scopes(repositories@),
{
    let mut out: Vec<NotificationRepositoryScope> = Vec::new();
    let mut i: usize = 0;
    while i < repositories.len()
        invariant
            i <= repositories@.len(),
            out@.len() == i,
            forall|k: int| 0 <= k < i ==> (#[trigger] out@[k])@ == model::scope_of(repositories@[k]@),
        decreases repositories.len() - i,
    {
        out.push(model::repository_scope(&repositories[i]));
        i += 1;
    }
    proof {
        assert(scope_views(out@) =~= scopes(repositories@));
    }
    out
}

pub open spec fn in_scope(
    target: NotificationPullRequestView,
    scope: NotificationRepositoryScopeView,
) -> bool {
    &&& scope.provider == target.provider
    &&& text::same_ignoring_case(scope.host, target.host)
    &&& text::same_ignoring_case(scope.account, target.account)
    &&& text::same_ignoring_case(scope.owner, target.owner)
    &&& text::same_ignoring_case(scope.repository, target.repository)
}

/// Whether a pull request belongs to one of the selected repositories.
pub open spec fn is_selected(
    target: NotificationPullRequestView,
    selected: Seq<NotificationRepositoryScopeView>,
) -> bool {
    exists|i: int| 0 <= i < selected.len() && in_scope(target, #[trigger] selected[i])
}

pub fn selected_target(
    target: &NotificationPullRequest,
    selected: &Vec<NotificationRepositoryScope>,
) -> (r: bool)
    ensures
        r == is_selected(target@, scope_views(selected@)),
{
    let ghost views = scope_views(selected@);
    let mut i: usize = 0;
    while i < selected.len()
        invariant
            i <= selected@.len(),
            views == scope_views(selected@),
            forall|k: int| 0 <= k < i ==> !in_scope(target@, #[trigger] views[k]),
        decreases selected.len() - i,
    {
        let scope = &selected[i];
        assert(views[i as int] == scope@);
        if scope.provider == target.provider && text::equals_ignoring_case(&scope.host, &target.host)
            && text::equals_ignoring_case(&scope.account, &target.account)
            && text::equals_ignoring_case(&scope.owner, &target.owner)
            && text::equals_ignoring_case(&scope.repository, &target.repository) {
            assert(in_scope(target@, views[i as int]));
            return true;
        }
        i += 1;
    }
    false
}

fn scope_selected(
    scope: &NotificationRepositoryScope,
    selected: &Vec<NotificationRepositoryScope>,
) -> (r: bool)
    ensures
        r == scope_views(selected@).contains(scope@),
{
    let ghost views = scope_views(selected@);
    let mut i: usize = 0;
    while i < selected.len()
        invariant
            i <= selected@.len(),
            views == scope_views(selected@),
            forall|k: int| 0 <= k < i ==> (#[trigger] views[k]) != scope@,
        decreases selected.len() - i,
    {
        assert(views[i as int] == selected@[i as int]@);
        if selected[i].same(scope) {
            return true;
        }
        i += 1;
    }
    false
}

/// The part of a snapshot that concerns the selected repositories.
pub open spec fn projected(
    snapshot: NotificationSnapshotView,
    selected: Seq<NotificationRepositoryScopeView>,
) -> NotificationSnapshotView {
    NotificationSnapshotView {
        state_version: snapshot.state_version,
        unread_by_pull_request: snapshot.unread_by_pull_request.filter(
            |s: PullRequestUnreadSummary| is_selected(s.target@, selected),
        ),
        repository_completeness: snapshot.repository_completeness.filter(
            |r: RepositoryNotificationCompleteness| selected.contains(r.target@),
        ),
        incomplete_candidates: snapshot.incomplete_candidates.filter(
            |c: IncompleteNotificationCandidate|
                match c.target {
                    Some(t) => is_selected(t@, selected),
                    None => true,
                },
        ),
        notices: snapshot.notices,
    }
}

pub fn project_snapshot(
    snapshot: NotificationSnapshot,
    selected: &Vec<NotificationRepositoryScope>,
) -> (r: NotificationSnapshot)
    ensures
        r@ == projected(snapshot@, scope_views(selected@)),
{
    let ghost views = scope_views(selected@);
    let ghost all_unread = snapshot.unread_by_pull_request@;
    let ghost all_complete = snapshot.repository_completeness@;
    let ghost all_candidates = snapshot.incomplete_candidates@;
    let ghost p = |s: PullRequestUnreadSummary| is_selected(s.target@, views);
    let ghost q = |r: RepositoryNotificationCompleteness| views.contains(r.target@);
    let ghost o = |c: IncompleteNotificationCandidate|
        match c.target {
            Some(t) => is_selected(t@, views),
            None => true,
        };
    let mut rest_unread = snapshot.unread_by_pull_request;
    let mut unread: Vec<PullRequestUnreadSummary> = Vec::new();
    let ghost mut i: int = 0;
    proof {
        seqs::lemma_filter_nothing(all_unread, p);
        seqs::lemma_filter_nothing(all_complete, q);
        seqs::lemma_filter_nothing(all_candidates, o);
    }
    while rest_unread.len() > 0
        invariant
            0 <= i <= all_unread.len(),
            rest_unread@ =~= all_unread.skip(i),
            views == scope_views(selected@),
            p == (|s: PullRequestUnreadSummary| is_selected(s.target@, views)),
            unread@ == all_unread.take(i).filter(p),
        decreases rest_unread.len(),
    {
        let item = rest_unread.remove(0);
        proof {
            assert(item == all_unread[i]);
            seqs::lemma_filter_step(all_unread, i, p);
            i = i + 1;
        }
        if selected_target(&item.target, selected) {
            unread.push(item);
        }
    }
    proof {
        assert(all_unread.take(i) =~= all_unread);
    }
    let mut rest_complete = snapshot.repository_completeness;
    let mut complete: Vec<RepositoryNotificationCompleteness> = Vec::new();
    let ghost mut j: int = 0;
    while rest_complete.len() > 0
        invariant
            0 <= j <= all_complete.len(),
            rest_complete@ =~= all_complete.skip(j),
            views == scope_views(selected@),
            q == (|r: RepositoryNotificationCompleteness| views.contains(r.target@)),
            complete@ == all_complete.take(j).filter(q),
        decreases rest_complete.len(),
    {
        let item = rest_complete.remove(0);
        proof {
            assert(item == all_complete[j]);
            seqs::lemma_filter_step(all_complete, j, q);
            j = j + 1;
        }
        if scope_selected(&item.target, selected) {
            complete.push(item);
        }
    }
    proof {
        assert(all_complete.take(j) =~= all_complete);
    }
    let mut rest_candidates = snapshot.incomplete_candidates;
    let mut candidates: Vec<IncompleteNotificationCandidate> = Vec::new();
    let ghost mut k: int = 0;
    while rest_candidates.len() > 0
        invariant
            0 <= k <= all_candidates.len(),
            rest_candidates@ =~= all_candidates.skip(k),
            views == scope_views(selected@),
            o == (|c: IncompleteNotificationCandidate|
                match c.target {
                    Some(t) => is_selected(t@, views),
                    None => true,
                }),
            candidates@ == all_candidates.take(k).filter(o),
        decreases rest_candidates.len(),
    {
        let item = rest_candidates.remove(0);
        proof {
            assert(item == all_candidates[k]);
            seqs::lemma_filter_step(all_candidates, k, o);
            k = k + 1;
        }
        let keep: bool = match &item.target {
            Some(t) => selected_target(t, selected),
            None => true,
        };
        if keep {
            candidates.push(item);
        }
    }
    proof {
        assert(all_candidates.take(k) =~= all_candidates);
    }
    NotificationSnapshot {
        state_version: snapshot.state_version,
        unread_by_pull_request: unread,
        repository_completeness: complete,
        incomplete_candidates: candidates,
        notices: snapshot.notices,
    }
}

/// The events of the selected repositories.
pub open spec fn selected_events(
    events: Seq<ProviderNotificationEvent>,
    selected: Seq<NotificationRepositoryScopeView>,
) -> Seq<ProviderNotificationEvent> {
    events.filter(|e: ProviderNotificationEvent| is_selected(e.identity.target@, selected))
}

pub fn select_events(
    events: &Vec<ProviderNotificationEvent>,
    selected: &Vec<NotificationRepositoryScope>,
) -> (r: Vec<ProviderNotificationEvent>)
    ensures
        r@ == selected_events(events@, scope_views(selected@)),
{
    let ghost views = scope_views(selected@);
    let ghost p = |e: ProviderNotificationEvent| is_selected(e.identity.target@, views);
    let mut out: Vec<ProviderNotificationEvent> = Vec::new();
    let mut i: usize = 0;
    proof {
        seqs::lemma_filter_nothing(events@, p);
    }
    while i < events.len()
        invariant
            i <= events@.len(),
            views == scope_views(selected@),
            p == (|e: ProviderNotificationEvent| is_selected(e.identity.target@, views)),
            out@ == events@.take(i as int).filter(p),
        decreases events.len() - i,
    {
        proof {
            seqs::lemma_filter_step(events@, i as int, p);
        }
        if selected_target(&events[i].identity.target, selected) {
            out.push(events[i].clone());
        }
        i += 1;
    }
    proof {
        assert(events@.take(i as int) =~= events@);
    }
    out
}

} // verus!

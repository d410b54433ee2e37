//! One poll of an account: its repositories read in bounded chunks, and the reads combined.

use vstd::prelude::*;
use vstd::string::*;

use crate::domain::{Account, AccountView, Repository, RepositoryView};
use crate::faults;
use crate::notifications::model;
use crate::notifications::model::{
    IncompleteNotificationCandidate, NotificationPullRequest, NotificationRepositoryScopeView,
    ProviderNotificationEvent, RepositoryNotificationCompleteness,
    RepositoryNotificationCompletenessView,
};
use crate::seqs;
use crate::sort;
use crate::text;

verus! {

/// One notification as the provider reported it, with the events that were proven for it.
#[derive(Clone, Debug, PartialEq, Eq)]
pub struct ProviderNotificationObservation {
    pub provider_notification_id: String,
    pub provider_reason: String,
    pub notification_updated_at: String,
    pub target: NotificationPullRequest,
    pub events: Vec<ProviderNotificationEvent>,
}

/// What one read of some repositories brought.
#[derive(Clone, Debug, PartialEq, Eq)]
pub struct ProviderNotificationBatch {
    pub account: Account,
    pub observed_at_unix_ms: u64,
    pub observations: Vec<ProviderNotificationObservation>,
    pub incomplete_candidates: Vec<IncompleteNotificationCandidate>,
    pub full_snapshot: bool,
    pub repositories: Vec<RepositoryNotificationCompleteness>,
    pub complete: bool,
    pub notices: Vec<String>,
}

// ---------------------------------------------------------------------------
// Combining the reads of one poll

pub open spec fn failures_line(failed: nat, total: nat) -> Seq<char> {
    text::decimal(failed) + " of "@ + text::decimal(total)
        + " bounded repository batches failed; successful batches were reconciled as partial and cached unread was retained for failures"@
}

pub fn format_failures(failures: &Vec<(usize, String)>, total: usize) -> (r: String)
    ensures
        r@ == failures_line(failures@.len(), total as nat),
{
    let mut out: String = text::decimal_of_usize(failures.len());
    out.append(" of ");
    out.append(&text::decimal_of_usize(total));
    out.append(" bounded repository batches failed; successful batches were reconciled as partial and cached unread was retained for failures");
    out
}

pub open spec fn chunk_scopes(chunk: Seq<Repository>) -> Seq<NotificationRepositoryScopeView> {
    chunk.map_values(|r: Repository| model::scope_of(r@))
}

pub open spec fn read_scopes(read: Seq<RepositoryNotificationCompleteness>) -> Seq<
    NotificationRepositoryScopeView,
> {
    read.map_values(|r: RepositoryNotificationCompleteness| r.target@)
}

/// What is wrong with a batch that was read for `chunk`.
pub open spec fn batch_fault(
    account: AccountView,
    chunk: Seq<Repository>,
    batch: ProviderNotificationBatch,
) -> Option<Seq<char>> {
    if batch.account@ != account {
        Some("provider batch changed selected account"@)
    } else if !seqs::same_members(chunk_scopes(chunk), read_scopes(batch.repositories@)) {
        Some("provider batch changed selected repository scope"@)
    } else {
        None
    }
}

pub open spec fn batch_faults(
    account: AccountView,
    chunks: Seq<Vec<Repository>>,
    batches: Seq<(usize, ProviderNotificationBatch)>,
) -> Seq<Option<Seq<char>>> {
    Seq::new(
        batches.len(),
        |i: int| batch_fault(account, chunks[batches[i].0 as int]@, batches[i].1),
    )
}

pub open spec fn combine_fault(
    account: AccountView,
    chunks: Seq<Vec<Repository>>,
    batches: Seq<(usize, ProviderNotificationBatch)>,
) -> Option<Seq<char>> {
    if batches.len() == 0 {
        Some("all bounded repository batches failed"@)
    } else {
        faults::first_fault(batch_faults(account, chunks, batches))
    }
}

pub open spec fn completeness_views(s: Seq<RepositoryNotificationCompleteness>) -> Seq<
    RepositoryNotificationCompletenessView,
> {
    s.map_values(|r: RepositoryNotificationCompleteness| r@)
}

/// What is recorded for a repository whose chunk could not be read.
pub open spec fn failed_entry(repository: RepositoryView, error: Seq<char>) -> RepositoryNotificationCompletenessView {
    RepositoryNotificationCompletenessView {
        target: model::scope_of(repository),
        complete: false,
        reasons: seq!["Bounded batch read failed: "@ + error],
    }
}

pub open spec fn failed_chunk(chunk: Seq<Repository>, error: Seq<char>) -> Seq<
    RepositoryNotificationCompletenessView,
> {
    chunk.map_values(|r: Repository| failed_entry(r@, error))
}

pub open spec fn failed_entries(
    chunks: Seq<Vec<Repository>>,
    failures: Seq<(usize, String)>,
) -> Seq<RepositoryNotificationCompletenessView> {
    seqs::concat(
        failures.map_values(|f: (usize, String)| failed_chunk(chunks[f.0 as int]@, f.1@)),
    )
}

pub open spec fn read_repositories(batches: Seq<(usize, ProviderNotificationBatch)>) -> Seq<
    RepositoryNotificationCompletenessView,
> {
    seqs::concat(
        batches.map_values(
            |b: (usize, ProviderNotificationBatch)| completeness_views(b.1.repositories@),
        ),
    )
}

pub open spec fn by_scope(s: Seq<RepositoryNotificationCompletenessView>) -> Seq<
    RepositoryNotificationCompletenessView,
> {
    sort::sort_by_key(
        s.map_values(
            |r: RepositoryNotificationCompletenessView| (model::scope_key_of(r.target), r),
        ),
    ).map_values(|p: (Seq<char>, RepositoryNotificationCompletenessView)| p.1)
}

pub open spec fn candidate_pairs(s: Seq<IncompleteNotificationCandidate>) -> Seq<
    (Seq<char>, IncompleteNotificationCandidate),
> {
    s.map_values(|c: IncompleteNotificationCandidate| (model::candidate_json_of(c@), c))
}

pub open spec fn by_json(s: Seq<IncompleteNotificationCandidate>) -> Seq<
    IncompleteNotificationCandidate,
> {
    sort::sort_by_key(candidate_pairs(s)).map_values(
        |p: (Seq<char>, IncompleteNotificationCandidate)| p.1,
    )
}

pub open spec fn latest(batches: Seq<(usize, ProviderNotificationBatch)>) -> u64
    decreases batches.len(),
{
    if batches.len() == 0 {
        0
    } else {
        let before = latest(batches.drop_last());
        let last = batches.last().1.observed_at_unix_ms;
        if before >= last {
            before
        } else {
            last
        }
    }
}

pub open spec fn all_observations(batches: Seq<(usize, ProviderNotificationBatch)>) -> Seq<
    ProviderNotificationObservation,
> {
    seqs::concat(batches.map_values(|b: (usize, ProviderNotificationBatch)| b.1.observations@))
}

pub open spec fn all_candidates(batches: Seq<(usize, ProviderNotificationBatch)>) -> Seq<
    IncompleteNotificationCandidate,
> {
    seqs::concat(
        batches.map_values(|b: (usize, ProviderNotificationBatch)| b.1.incomplete_candidates@),
    )
}

pub open spec fn all_notices(batches: Seq<(usize, ProviderNotificationBatch)>) -> Seq<String> {
    seqs::concat(batches.map_values(|b: (usize, ProviderNotificationBatch)| b.1.notices@))
}

/// The batch that several batches and failed reads make together.
pub open spec fn combined(
    account: Account,
    chunks: Seq<Vec<Repository>>,
    batches: Seq<(usize, ProviderNotificationBatch)>,
    failures: Seq<(usize, String)>,
    r: ProviderNotificationBatch,
) -> bool {
    &&& r.account == account
    &&& r.observed_at_unix_ms == latest(batches)
    &&& r.observations@ == all_observations(batches)
    &&& r.incomplete_candidates@ == by_json(all_candidates(batches))
    &&& r.full_snapshot == (failures.len() == 0 && forall|i: int|
        0 <= i < batches.len() ==> (#[trigger] batches[i]).1.full_snapshot)
    &&& r.complete == (failures.len() == 0 && forall|i: int|
        0 <= i < batches.len() ==> (#[trigger] batches[i]).1.complete)
    &&& completeness_views(r.repositories@) == by_scope(
        read_repositories(batches) + failed_entries(chunks, failures),
    )
    &&& text::texts(r.notices@) == text::texts(all_notices(batches)) + (if failures.len() > 0 {
        seq![failures_line(failures.len(), chunks.len())]
    } else {
        Seq::empty()
    })
}

fn scopes_agree(chunk: &Vec<Repository>, read: &Vec<RepositoryNotificationCompleteness>) -> (r: bool)
    ensures
        r == seqs::same_members(chunk_scopes(chunk@), read_scopes(read@)),
{
    let ghost a = chunk_scopes(chunk@);
    let ghost b = read_scopes(read@);
    let mut i: usize = 0;
    while i < chunk.len()
        invariant
            i <= chunk@.len(),
            a == chunk_scopes(chunk@),
            b == read_scopes(read@),
            forall|k: int| 0 <= k < i ==> b.contains(#[trigger] a[k]),
        decreases chunk.len() - i,
    {
        let scope = model::repository_scope(&chunk[i]);
        assert(a[i as int] == scope@);
        let mut found: bool = false;
        let mut j: usize = 0;
        while j < read.len()
            invariant
                j <= read@.len(),
                b == read_scopes(read@),
                found ==> b.contains(scope@),
                !found ==> forall|k: int| 0 <= k < j ==> (#[trigger] b[k]) != scope@,
            decreases read.len() - j,
        {
            if read[j].target.same(&scope) {
                assert(b[j as int] == scope@);
                found = true;
            }
            j += 1;
        }
        if !found {
            assert(a.contains(scope@) && !b.contains(scope@));
            return false;
        }
        i += 1;
    }
    let mut n: usize = 0;
    while n < read.len()
        invariant
            n <= read@.len(),
            a == chunk_scopes(chunk@),
            b == read_scopes(read@),
            forall|k: int| 0 <= k < n ==> a.contains(#[trigger] b[k]),
        decreases read.len() - n,
    {
        assert(b[n as int] == read@[n as int].target@);
        let mut found: bool = false;
        let mut j: usize = 0;
        while j < chunk.len()
            invariant
                n < read@.len(),
                j <= chunk@.len(),
                a == chunk_scopes(chunk@),
                found ==> a.contains(read@[n as int].target@),
                !found ==> forall|k: int| 0 <= k < j ==> (#[trigger] a[k]) != read@[n as int].target@,
            decreases chunk.len() - j,
        {
            let scope = model::repository_scope(&chunk[j]);
            assert(a[j as int] == scope@);
            if scope.same(&read[n].target) {
                found = true;
            }
            j += 1;
        }
        if !found {
            assert(b.contains(b[n as int]) && !a.contains(b[n as int]));
            return false;
        }
        n += 1;
    }
    true
}

fn validate_batch(
    account: &Account,
    chunk: &Vec<Repository>,
    batch: &ProviderNotificationBatch,
) -> (r: Result<(), String>)
    ensures
        faults::fault_text(r) == batch_fault(account@, chunk@, *batch),
{
    if !batch.account.same(account) {
        Err("provider batch changed selected account".to_owned())
    } else if !scopes_agree(chunk, &batch.repositories) {
        Err("provider batch changed selected repository scope".to_owned())
    } else {
        Ok(())
    }
}

fn failed_entry_of(repository: &Repository, error: &str) -> (r: RepositoryNotificationCompleteness)
    ensures
        r@ == failed_entry(repository@, error@),
{
    let mut reason: String = "Bounded batch read failed: ".to_owned();
    reason.append(error);
    let mut reasons: Vec<String> = Vec::new();
    reasons.push(reason);
    let r = RepositoryNotificationCompleteness {
        target: model::repository_scope(repository),
        complete: false,
        reasons,
    };
    proof {
        assert(r@.reasons =~= failed_entry(repository@, error@).reasons);
    }
    r
}

fn add_failed(
    repositories: &mut Vec<RepositoryNotificationCompleteness>,
    chunk: &Vec<Repository>,
    error: &str,
)
    ensures
        completeness_views(final(repositories)@) == completeness_views(old(repositories)@)
            + failed_chunk(chunk@, error@),
{
    let ghost start = completeness_views(repositories@);
    let ghost entries = failed_chunk(chunk@, error@);
    let mut i: usize = 0;
    proof {
        assert(start =~= start + entries.take(0));
    }
    while i < chunk.len()
        invariant
            i <= chunk@.len(),
            entries == failed_chunk(chunk@, error@),
            completeness_views(repositories@) == start + entries.take(i as int),
        decreases chunk.len() - i,
    {
        let ghost before = repositories@;
        let entry = failed_entry_of(&chunk[i], error);
        repositories.push(entry);
        proof {
            assert(entries[i as int] == entry@);
            assert(completeness_views(repositories@) =~= completeness_views(before).push(entry@));
            assert(start + entries.take(i + 1) =~= (start + entries.take(i as int)).push(entry@));
        }
        i += 1;
    }
    proof {
        assert(entries.take(i as int) =~= entries);
    }
}

fn sort_by_scope(items: Vec<RepositoryNotificationCompleteness>) -> (r: Vec<
    RepositoryNotificationCompleteness,
>)
    ensures
        completeness_views(r@) == by_scope(completeness_views(items@)),
{
    let ghost all = items@;
    let mut rest = items;
    let mut pairs: Vec<(String, RepositoryNotificationCompleteness)> = Vec::new();
    let ghost mut done: int = 0;
    while rest.len() > 0
        invariant
            0 <= done <= all.len(),
            rest@ =~= all.skip(done),
            pairs@.len() == done,
            forall|k: int|
                #![trigger pairs@[k]]
                0 <= k < done ==> pairs@[k].1 == all[k] && pairs@[k].0@ == model::scope_key_of(
                    all[k].target@,
                ),
        decreases rest.len(),
    {
        let item = rest.remove(0);
        assert(item == all[done]);
        pairs.push((model::scope_key(&item.target), item));
        proof {
            done = done + 1;
        }
    }
    let ghost f = |r: RepositoryNotificationCompleteness| r@;
    proof {
        let views = completeness_views(all);
        let wanted = views.map_values(
            |r: RepositoryNotificationCompletenessView| (model::scope_key_of(r.target), r),
        );
        assert(sort::map_items(sort::keyed(pairs@), f) =~= wanted);
        sort::law_sorting_looks_at_keys_only(sort::keyed(pairs@), f);
    }
    let mut sorted = sort::sort_pairs(pairs);
    let ghost all_sorted = sorted@;
    let mut out: Vec<RepositoryNotificationCompleteness> = Vec::new();
    let ghost mut taken: int = 0;
    while sorted.len() > 0
        invariant
            0 <= taken <= all_sorted.len(),
            sorted@ =~= all_sorted.skip(taken),
            out@.len() == taken,
            forall|k: int| #![trigger out@[k]] 0 <= k < taken ==> out@[k] == all_sorted[k].1,
        decreases sorted.len(),
    {
        let (_, item) = sorted.remove(0);
        out.push(item);
        proof {
            taken = taken + 1;
        }
    }
    proof {
        assert(completeness_views(out@) =~= by_scope(completeness_views(all))) by {
            let mapped = sort::map_items(sort::keyed(all_sorted), f);
            assert(by_scope(completeness_views(all)) =~= mapped.map_values(
                |p: (Seq<char>, RepositoryNotificationCompletenessView)| p.1,
            ));
        }
    }
    out
}

fn sort_by_json(items: Vec<IncompleteNotificationCandidate>) -> (r: Vec<
    IncompleteNotificationCandidate,
>)
    ensures
        r@ == by_json(items@),
{
    let ghost all = items@;
    let mut rest = items;
    let mut pairs: Vec<(String, IncompleteNotificationCandidate)> = Vec::new();
    let ghost mut done: int = 0;
    while rest.len() > 0
        invariant
            0 <= done <= all.len(),
            rest@ =~= all.skip(done),
            pairs@.len() == done,
            forall|k: int|
                #![trigger pairs@[k]]
                0 <= k < done ==> pairs@[k].1 == all[k] && pairs@[k].0@ == model::candidate_json_of(
                    all[k]@,
                ),
        decreases rest.len(),
    {
        let item = rest.remove(0);
        assert(item == all[done]);
        pairs.push((model::candidate_json(&item), item));
        proof {
            done = done + 1;
        }
    }
    proof {
        assert(sort::keyed(pairs@) =~= candidate_pairs(all));
    }
    let mut sorted = sort::sort_pairs(pairs);
    let ghost all_sorted = sorted@;
    let mut out: Vec<IncompleteNotificationCandidate> = Vec::new();
    let ghost mut taken: int = 0;
    while sorted.len() > 0
        invariant
            0 <= taken <= all_sorted.len(),
            sorted@ =~= all_sorted.skip(taken),
            out@.len() == taken,
            forall|k: int| #![trigger out@[k]] 0 <= k < taken ==> out@[k] == all_sorted[k].1,
        decreases sorted.len(),
    {
        let (_, item) = sorted.remove(0);
        out.push(item);
        proof {
            taken = taken + 1;
        }
    }
    proof {
        assert(out@ =~= sort::keyed(all_sorted).map_values(
            |p: (Seq<char>, IncompleteNotificationCandidate)| p.1,
        ));
    }
    out
}

/// Combines the batches that were read with the chunks that could not be read. One failed
/// chunk makes the whole partial, and each of its repositories is listed as incomplete.
pub fn combine_batches(
    account: &Account,
    chunks: &Vec<Vec<Repository>>,
    batches: Vec<(usize, ProviderNotificationBatch)>,
    failures: &Vec<(usize, String)>,
) -> (r: Result<ProviderNotificationBatch, String>)
    requires
        forall|i: int| 0 <= i < batches@.len() ==> (#[trigger] batches@[i]).0 < chunks@.len(),
        forall|i: int| 0 <= i < failures@.len() ==> (#[trigger] failures@[i]).0 < chunks@.len(),
    ensures
        match r {
            Err(e) => combine_fault(account@, chunks@, batches@) == Some(e@),
            Ok(batch) => combine_fault(account@, chunks@, batches@) is None && combined(
                *account,
                chunks@,
                batches@,
                failures@,
                batch,
            ),
        },
{
    if batches.len() == 0 {
        return Err("all bounded repository batches failed".to_owned());
    }
    let ghost all = batches@;
    let ghost faults = batch_faults(account@, chunks@, all);
    let ghost obs_parts = all.map_values(
        |b: (usize, ProviderNotificationBatch)| b.1.observations@,
    );
    let ghost cand_parts = all.map_values(
        |b: (usize, ProviderNotificationBatch)| b.1.incomplete_candidates@,
    );
    let ghost repo_parts = all.map_values(
        |b: (usize, ProviderNotificationBatch)| completeness_views(b.1.repositories@),
    );
    let ghost notice_parts = all.map_values(|b: (usize, ProviderNotificationBatch)| b.1.notices@);
    let mut observations: Vec<ProviderNotificationObservation> = Vec::new();
    let mut candidates: Vec<IncompleteNotificationCandidate> = Vec::new();
    let mut repositories: Vec<RepositoryNotificationCompleteness> = Vec::new();
    let mut notices: Vec<String> = Vec::new();
    let mut observed: u64 = 0;
    let mut full_snapshot: bool = failures.len() == 0;
    let mut complete: bool = failures.len() == 0;
    let mut rest = batches;
    let ghost mut done: int = 0;
    proof {
        assert(obs_parts.take(0) =~= Seq::<Seq<ProviderNotificationObservation>>::empty());
        assert(cand_parts.take(0) =~= Seq::<Seq<IncompleteNotificationCandidate>>::empty());
        assert(repo_parts.take(0) =~= Seq::<Seq<RepositoryNotificationCompletenessView>>::empty());
        assert(notice_parts.take(0) =~= Seq::<Seq<String>>::empty());
        assert(completeness_views(repositories@) =~= Seq::<
            RepositoryNotificationCompletenessView,
        >::empty());
        assert(all.take(0) =~= Seq::<(usize, ProviderNotificationBatch)>::empty());
    }
    while rest.len() > 0
        invariant
            0 <= done <= all.len(),
            rest@ =~= all.skip(done),
            all.len() > 0,
            all == batches@,
            faults == batch_faults(account@, chunks@, all),
            obs_parts == all.map_values(
                |b: (usize, ProviderNotificationBatch)| b.1.observations@,
            ),
            cand_parts == all.map_values(
                |b: (usize, ProviderNotificationBatch)| b.1.incomplete_candidates@,
            ),
            repo_parts == all.map_values(
                |b: (usize, ProviderNotificationBatch)| completeness_views(b.1.repositories@),
            ),
            notice_parts == all.map_values(|b: (usize, ProviderNotificationBatch)| b.1.notices@),
            forall|i: int| 0 <= i < all.len() ==> (#[trigger] all[i]).0 < chunks@.len(),
            forall|k: int| 0 <= k < done ==> (#[trigger] faults[k]) is None,
            observations@ == seqs::concat(obs_parts.take(done)),
            candidates@ == seqs::concat(cand_parts.take(done)),
            completeness_views(repositories@) == seqs::concat(repo_parts.take(done)),
            notices@ == seqs::concat(notice_parts.take(done)),
            observed == latest(all.take(done)),
            full_snapshot == (failures@.len() == 0 && forall|i: int|
                0 <= i < done ==> (#[trigger] all[i]).1.full_snapshot),
            complete == (failures@.len() == 0 && forall|i: int|
                0 <= i < done ==> (#[trigger] all[i]).1.complete),
        decreases rest.len(),
    {
        let (index, batch) = rest.remove(0);
        proof {
            assert((index, batch) == all[done]);
            faults::lemma_first_fault_at(faults, done);
        }
        match validate_batch(account, &chunks[index], &batch) {
            Err(e) => {
                return Err(e);
            },
            Ok(_) => {},
        }
        if batch.observed_at_unix_ms > observed {
            observed = batch.observed_at_unix_ms;
        }
        full_snapshot = full_snapshot && batch.full_snapshot;
        complete = complete && batch.complete;
        let ghost batch_repositories = batch.repositories@;
        let ghost repositories_before = repositories@;
        proof {
            seqs::lemma_concat_step(obs_parts, done);
            seqs::lemma_concat_step(cand_parts, done);
            seqs::lemma_concat_step(repo_parts, done);
            seqs::lemma_concat_step(notice_parts, done);
            assert(obs_parts[done] == batch.observations@);
            assert(cand_parts[done] == batch.incomplete_candidates@);
            assert(repo_parts[done] == completeness_views(batch.repositories@));
            assert(notice_parts[done] == batch.notices@);
            assert(all.take(done + 1).drop_last() =~= all.take(done));
            assert(all.take(done + 1).last() == all[done]);
        }
        let mut batch_observations = batch.observations;
        let mut batch_candidates = batch.incomplete_candidates;
        let mut batch_repos = batch.repositories;
        let mut batch_notices = batch.notices;
        observations.append(&mut batch_observations);
        candidates.append(&mut batch_candidates);
        repositories.append(&mut batch_repos);
        notices.append(&mut batch_notices);
        proof {
            assert(completeness_views(repositories@) =~= completeness_views(repositories_before)
                + completeness_views(batch_repositories));
            done = done + 1;
        }
    }
    proof {
        faults::lemma_first_fault_at(faults, done);
        assert(obs_parts.take(done) =~= obs_parts);
        assert(cand_parts.take(done) =~= cand_parts);
        assert(repo_parts.take(done) =~= repo_parts);
        assert(notice_parts.take(done) =~= notice_parts);
        assert(all.take(done) =~= all);
    }
    let ghost read = completeness_views(repositories@);
    let ghost parts = failures@.map_values(
        |f: (usize, String)| failed_chunk(chunks@[f.0 as int]@, f.1@),
    );
    let mut i: usize = 0;
    proof {
        assert(parts.take(0) =~= Seq::<Seq<RepositoryNotificationCompletenessView>>::empty());
        assert(read =~= read + seqs::concat(parts.take(0)));
    }
    while i < failures.len()
        invariant
            i <= failures@.len(),
            parts == failures@.map_values(
                |f: (usize, String)| failed_chunk(chunks@[f.0 as int]@, f.1@),
            ),
            forall|i: int| 0 <= i < failures@.len() ==> (#[trigger] failures@[i]).0 < chunks@.len(),
            completeness_views(repositories@) == read + seqs::concat(parts.take(i as int)),
        decreases failures.len() - i,
    {
        let index: usize = failures[i].0;
        add_failed(&mut repositories, &chunks[index], &failures[i].1);
        proof {
            seqs::lemma_concat_step(parts, i as int);
            assert(parts[i as int] == failed_chunk(chunks@[index as int]@, failures@[i as int].1@));
            assert((read + seqs::concat(parts.take(i as int))) + parts[i as int] =~= read
                + seqs::concat(parts.take(i + 1)));
        }
        i += 1;
    }
    proof {
        assert(parts.take(i as int) =~= parts);
    }
    let ghost read_notices = notices@;
    if failures.len() > 0 {
        notices.push(format_failures(failures, chunks.len()));
    }
    proof {
        assert(text::texts(notices@) =~= text::texts(read_notices) + (if failures@.len() > 0 {
            seq![failures_line(failures@.len(), chunks@.len())]
        } else {
            Seq::empty()
        }));
    }
    Ok(
        ProviderNotificationBatch {
            account: account.clone(),
            observed_at_unix_ms: observed,
            observations,
            incomplete_candidates: sort_by_json(candidates),
            full_snapshot,
            repositories: sort_by_scope(repositories),
            complete,
            notices,
        },
    )
}

// ---------------------------------------------------------------------------
// Laws

proof fn lemma_sorting_keeps_members<T>(s: Seq<(Seq<char>, T)>, x: (Seq<char>, T))
    ensures
        sort::sort_by_key(s).contains(x) <==> s.contains(x),
        sort::sort_by_key(s).len() == s.len(),
{
    broadcast use vstd::seq_lib::group_to_multiset_ensures;

    sort::law_sorting_orders_and_keeps(s);
    assert(sort::sort_by_key(s).to_multiset().count(x) == s.to_multiset().count(x));
}

/// Putting the repositories in order loses none and adds none.
pub proof fn law_ordering_keeps_every_repository(
    s: Seq<RepositoryNotificationCompletenessView>,
    r: RepositoryNotificationCompletenessView,
)
    ensures
        by_scope(s).contains(r) <==> s.contains(r),
        by_scope(s).len() == s.len(),
{
    let pairs = s.map_values(
        |r: RepositoryNotificationCompletenessView| (model::scope_key_of(r.target), r),
    );
    let x = (model::scope_key_of(r.target), r);
    let sorted = sort::sort_by_key(pairs);
    lemma_sorting_keeps_members(pairs, x);
    if s.contains(r) {
        let i = s.index_of(r);
        assert(pairs[i] == x);
        let k = sorted.index_of(x);
        assert(by_scope(s)[k] == r);
    }
    if by_scope(s).contains(r) {
        let k = by_scope(s).index_of(r);
        lemma_sorting_keeps_members(pairs, sorted[k]);
        assert(sorted.contains(sorted[k]));
        let i = pairs.index_of(sorted[k]);
        assert(s[i] == r);
    }
}

/// Putting the candidates in order loses none and adds none.
pub proof fn law_ordering_keeps_every_candidate(
    s: Seq<IncompleteNotificationCandidate>,
    c: IncompleteNotificationCandidate,
)
    ensures
        by_json(s).contains(c) <==> s.contains(c),
        by_json(s).len() == s.len(),
{
    let pairs = candidate_pairs(s);
    let x = (model::candidate_json_of(c@), c);
    let sorted = sort::sort_by_key(pairs);
    lemma_sorting_keeps_members(pairs, x);
    if s.contains(c) {
        let i = s.index_of(c);
        assert(pairs[i] == x);
        let k = sorted.index_of(x);
        assert(by_json(s)[k] == c);
    }
    if by_json(s).contains(c) {
        let k = by_json(s).index_of(c);
        lemma_sorting_keeps_members(pairs, sorted[k]);
        assert(sorted.contains(sorted[k]));
        let i = pairs.index_of(sorted[k]);
        assert(s[i] == c);
    }
}

proof fn lemma_concat_has<A>(parts: Seq<Seq<A>>, i: int, k: int)
    requires
        0 <= i < parts.len(),
        0 <= k < parts[i].len(),
    ensures
        seqs::concat(parts).contains(parts[i][k]),
    decreases parts.len(),
{
    let front = parts.drop_last();
    let before = seqs::concat(front);
    let all = seqs::concat(parts);
    if i < front.len() {
        lemma_concat_has(front, i, k);
        let at = before.index_of(front[i][k]);
        assert(all[at] == parts[i][k]);
    } else {
        assert(all[before.len() + k] == parts[i][k]);
    }
}

/// What several batches make together has an entry for every repository that was read, and for
/// every repository of a chunk that could not be: that one is incomplete, for the reason that the
/// read gave.
pub proof fn law_every_repository_is_accounted_for(
    account: Account,
    chunks: Seq<Vec<Repository>>,
    batches: Seq<(usize, ProviderNotificationBatch)>,
    failures: Seq<(usize, String)>,
    r: ProviderNotificationBatch,
    i: int,
    k: int,
)
    requires
        combined(account, chunks, batches, failures, r),
    ensures
        0 <= i < batches.len() && 0 <= k < batches[i].1.repositories@.len() ==> completeness_views(
            r.repositories@,
        ).contains(batches[i].1.repositories@[k]@),
        0 <= i < failures.len() && 0 <= k < chunks[failures[i].0 as int]@.len()
            ==> completeness_views(r.repositories@).contains(
            RepositoryNotificationCompletenessView {
                target: model::scope_of(chunks[failures[i].0 as int]@[k]@),
                complete: false,
                reasons: seq!["Bounded batch read failed: "@ + failures[i].1@],
            },
        ),
{
    let read = read_repositories(batches);
    let failed = failed_entries(chunks, failures);
    let all = read + failed;
    if 0 <= i < batches.len() && 0 <= k < batches[i].1.repositories@.len() {
        let parts = batches.map_values(
            |b: (usize, ProviderNotificationBatch)| completeness_views(b.1.repositories@),
        );
        let x = batches[i].1.repositories@[k]@;
        assert(parts[i][k] == x);
        lemma_concat_has(parts, i, k);
        let at = read.index_of(x);
        assert(all[at] == x);
        law_ordering_keeps_every_repository(all, x);
    }
    if 0 <= i < failures.len() && 0 <= k < chunks[failures[i].0 as int]@.len() {
        let parts = failures.map_values(
            |f: (usize, String)| failed_chunk(chunks[f.0 as int]@, f.1@),
        );
        let x = failed_entry(chunks[failures[i].0 as int]@[k]@, failures[i].1@);
        assert(parts[i][k] == x);
        lemma_concat_has(parts, i, k);
        let at = failed.index_of(x);
        assert(all[read.len() + at] == x);
        law_ordering_keeps_every_repository(all, x);
    }
}

/// Every candidate of every batch is among those of what they make together.
pub proof fn law_every_candidate_is_kept(
    account: Account,
    chunks: Seq<Vec<Repository>>,
    batches: Seq<(usize, ProviderNotificationBatch)>,
    failures: Seq<(usize, String)>,
    r: ProviderNotificationBatch,
    i: int,
    k: int,
)
    requires
        combined(account, chunks, batches, failures, r),
        0 <= i < batches.len(),
        0 <= k < batches[i].1.incomplete_candidates@.len(),
    ensures
        r.incomplete_candidates@.contains(batches[i].1.incomplete_candidates@[k]),
{
    let parts = batches.map_values(
        |b: (usize, ProviderNotificationBatch)| b.1.incomplete_candidates@,
    );
    let x = batches[i].1.incomplete_candidates@[k];
    assert(parts[i][k] == x);
    lemma_concat_has(parts, i, k);
    law_ordering_keeps_every_candidate(all_candidates(batches), x);
}

} // verus!

//! The work of one poll and what it comes to.

use vstd::prelude::*;
use vstd::string::*;

use crate::domain::{Account, Repository};
use crate::notifications::batches;
use crate::notifications::batches::ProviderNotificationBatch;
use crate::notifications::model;
use crate::notifications::model::{
    IncompleteNotificationCandidate, NotificationConditionalCache, NotificationPollDirective,
    NotificationSnapshot, NotificationSnapshotView, ProviderNotificationEvent,
    PullRequestUnreadSummary, RepositoryNotificationCompleteness,
};
use crate::text;

verus! {

/// What a poll was started for. Its completion is accepted only while all of this still holds.
#[derive(Debug, PartialEq, Eq)]
pub struct ControllerToken {
    pub consent_generation: u64,
    pub lifetime: u64,
    pub account_key: String,
    pub selection: String,
    pub generation: u64,
}

#[verifier::ext_equal]
pub struct ControllerTokenView {
    pub consent_generation: u64,
    pub lifetime: u64,
    pub account_key: Seq<char>,
    pub selection: Seq<char>,
    pub generation: u64,
}

impl View for ControllerToken {
    type V = ControllerTokenView;

    open spec fn view(&self) -> ControllerTokenView {
        ControllerTokenView {
            consent_generation: self.consent_generation,
            lifetime: self.lifetime,
            account_key: self.account_key@,
            selection: self.selection@,
            generation: self.generation,
        }
    }
}

impl Clone for ControllerToken {
    fn clone(&self) -> (r: Self)
        ensures
            r == *self,
    {
        ControllerToken {
            consent_generation: self.consent_generation,
            lifetime: self.lifetime,
            account_key: self.account_key.clone(),
            selection: self.selection.clone(),
            generation: self.generation,
        }
    }
}

/// One poll of an account: the repositories to read, in chunks.
pub struct PollWork {
    pub token: ControllerToken,
    pub account: Account,
    pub chunks: Vec<Vec<Repository>>,
    pub cache: NotificationConditionalCache,
}

/// What the read of one chunk brought.
pub struct NotificationObservationRead {
    pub batch: ProviderNotificationBatch,
    pub cache: NotificationConditionalCache,
    pub poll: NotificationPollDirective,
}

/// What the store made of a combined batch.
pub struct NotificationReconcileOutcome {
    pub state_version: u64,
    pub unread_by_pull_request: Vec<PullRequestUnreadSummary>,
    pub repository_completeness: Vec<RepositoryNotificationCompleteness>,
    pub incomplete_candidates: Vec<IncompleteNotificationCandidate>,
    pub notices: Vec<String>,
    pub newly_admitted_alerts: Vec<ProviderNotificationEvent>,
}

/// The end of a poll.
pub struct PollCompletion {
    pub token: ControllerToken,
    pub account: Account,
    pub snapshot: NotificationSnapshot,
    pub newly_admitted: Vec<ProviderNotificationEvent>,
    pub error: Option<String>,
    pub cache: NotificationConditionalCache,
    pub poll: NotificationPollDirective,
}

impl PollCompletion {
    pub fn account(&self) -> (r: &Account)
        ensures
            *r == self.account,
    {
        &self.account
    }

    pub fn schedule_key(&self) -> (r: String)
        ensures
            r@ == model::schedule_key_of(self.account@),
    {
        model::schedule_key(&self.account)
    }

    /// Whether the poll failed, be it in the part of one repository only.
    pub fn failed(&self) -> (r: bool)
        ensures
            r == (self.error is Some || exists|i: int|
                0 <= i < self.snapshot.repository_completeness@.len()
                    && !(#[trigger] self.snapshot.repository_completeness@[i]).complete),
    {
        if self.error.is_some() {
            return true;
        }
        let list = &self.snapshot.repository_completeness;
        let mut i: usize = 0;
        while i < list.len()
            invariant
                i <= list@.len(),
                list@ == self.snapshot.repository_completeness@,
                forall|k: int| 0 <= k < i ==> (#[trigger] list@[k]).complete,
            decreases list.len() - i,
        {
            if !list[i].complete {
                return true;
            }
            i += 1;
        }
        false
    }
}

// ---------------------------------------------------------------------------
// What the server asks for

impl NotificationPollDirective {
    pub fn none() -> (r: Self)
        ensures
            r == (NotificationPollDirective { x_poll_interval: None, rate_limit: None }),
    {
        NotificationPollDirective { x_poll_interval: None, rate_limit: None }
    }
}

// ---------------------------------------------------------------------------
// Snapshots

pub open spec fn empty_snapshot_of(notice: Seq<char>, r: NotificationSnapshot) -> bool {
    &&& r.state_version == 0
    &&& r.unread_by_pull_request@.len() == 0
    &&& r.repository_completeness@.len() == 0
    &&& r.incomplete_candidates@.len() == 0
    &&& text::texts(r.notices@) == seq![notice]
}

pub fn empty_snapshot(notice: String) -> (r: NotificationSnapshot)
    ensures
        empty_snapshot_of(notice@, r),
{
    let mut notices: Vec<String> = Vec::new();
    notices.push(notice);
    proof {
        assert(text::texts(notices@) =~= seq![notice@]);
    }
    NotificationSnapshot {
        state_version: 0,
        unread_by_pull_request: Vec::new(),
        repository_completeness: Vec::new(),
        incomplete_candidates: Vec::new(),
        notices,
    }
}

pub open spec fn outcome_snapshot(outcome: NotificationReconcileOutcome) -> NotificationSnapshotView {
    NotificationSnapshotView {
        state_version: outcome.state_version,
        unread_by_pull_request: outcome.unread_by_pull_request@,
        repository_completeness: outcome.repository_completeness@,
        incomplete_candidates: outcome.incomplete_candidates@,
        notices: outcome.notices@,
    }
}

// ---------------------------------------------------------------------------
// Running a poll

/// A poll on its way: the chunks that were read, the chunks that failed, and the next one.
pub struct PollRun {
    pub token: ControllerToken,
    pub account: Account,
    pub chunks: Vec<Vec<Repository>>,
    pub batches: Vec<(usize, ProviderNotificationBatch)>,
    pub failures: Vec<(usize, String)>,
    pub cache: NotificationConditionalCache,
    pub poll: NotificationPollDirective,
    pub next: usize,
}

/// Whether chunk `c` is accounted for: read or failed.
pub open spec fn accounted(run: PollRun, c: int) -> bool {
    ||| exists|i: int| 0 <= i < run.batches@.len() && (#[trigger] run.batches@[i]).0 == c
    ||| exists|i: int| 0 <= i < run.failures@.len() && (#[trigger] run.failures@[i]).0 == c
}

/// What is recorded for a chunk that is not read because the server limits the rate.
pub open spec fn deferred_text() -> Seq<char> {
    "notification chunk deferred by server rate limit"@
}

impl PollRun {
    /// Every chunk before the next one was read or failed, and no other was.
    pub open spec fn wf(self) -> bool {
        &&& self.next <= self.chunks@.len()
        &&& forall|i: int| 0 <= i < self.batches@.len() ==> (#[trigger] self.batches@[i]).0 < self.next
        &&& forall|i: int| 0 <= i < self.failures@.len() ==> (#[trigger] self.failures@[i]).0 < self.next
        &&& self.batches@.len() + self.failures@.len() == self.next
        &&& forall|c: int| 0 <= c < self.next ==> accounted(self, c)
    }

    pub fn start(work: PollWork) -> (r: Self)
        ensures
            r.wf(),
            r.token == work.token,
            r.account == work.account,
            r.chunks == work.chunks,
            r.cache == work.cache,
            r.batches@.len() == 0,
            r.failures@.len() == 0,
            r.poll == (NotificationPollDirective { x_poll_interval: None, rate_limit: None }),
            r.next == 0,
    {
        PollRun {
            token: work.token,
            account: work.account,
            chunks: work.chunks,
            batches: Vec::new(),
            failures: Vec::new(),
            cache: work.cache,
            poll: NotificationPollDirective::none(),
            next: 0,
        }
    }

    /// The chunk to read next, where one is left.
    pub fn next_chunk(&self) -> (r: Option<usize>)
        ensures
            r == if self.next < self.chunks@.len() {
                Some(self.next)
            } else {
                None
            },
    {
        if self.next < self.chunks.len() {
            Some(self.next)
        } else {
            None
        }
    }

    /// Takes what the read of the next chunk came to, and what all responses so far ask for
    /// together. A response that limits the rate ends the run: every later chunk counts as failed
    /// without being read.
    pub fn record(
        &mut self,
        read: Result<NotificationObservationRead, String>,
        together: NotificationPollDirective,
    )
        requires
            old(self).wf(),
            old(self).next < old(self).chunks@.len(),
        ensures
            final(self).wf(),
            final(self).token == old(self).token,
            final(self).account == old(self).account,
            final(self).chunks == old(self).chunks,
            match read {
                Err(e) => {
                    &&& final(self).batches == old(self).batches
                    &&& final(self).failures@ == old(self).failures@.push((old(self).next, e))
                    &&& final(self).cache == old(self).cache
                    &&& final(self).poll == old(self).poll
                    &&& final(self).next == old(self).next + 1
                },
                Ok(r) => {
                    let limited = r.poll.rate_limit is Some;
                    let total = old(self).chunks@.len();
                    let known = old(self).failures@.len();
                    &&& final(self).batches@ == old(self).batches@.push((old(self).next, r.batch))
                    &&& final(self).cache == r.cache
                    &&& final(self).poll == together
                    &&& !limited ==> final(self).failures == old(self).failures
                        && final(self).next == old(self).next + 1
                    &&& limited ==> {
                        &&& final(self).next == total
                        &&& final(self).failures@.len() == known + (total - old(self).next - 1)
                        &&& final(self).failures@.take(known as int) == old(self).failures@
                        &&& forall|k: int|
                            #![trigger final(self).failures@[k]]
                            known <= k < final(self).failures@.len() ==> {
                                &&& final(self).failures@[k].0 == old(self).next + 1 + (k - known)
                                &&& final(self).failures@[k].1@ == deferred_text()
                            }
                    }
                },
            },
    {
        let total: usize = self.chunks.len();
        let at: usize = self.next;
        let ghost before = *self;
        match read {
            Err(e) => {
                self.failures.push((at, e));
                self.next = at + 1;
                proof {
                    assert(self.failures@[before.failures@.len() as int].0 == at);
                    assert forall|c: int| 0 <= c < self.next implies accounted(*self, c) by {
                        if c < at {
                            assert(accounted(before, c));
                            lemma_still_accounted(before, *self, c);
                        }
                    }
                }
            },
            Ok(r) => {
                let limited: bool = r.poll.rate_limit.is_some();
                self.cache = r.cache;
                self.poll = together;
                self.batches.push((at, r.batch));
                self.next = at + 1;
                proof {
                    assert(self.batches@[before.batches@.len() as int].0 == at);
                    assert forall|c: int| 0 <= c < self.next implies accounted(*self, c) by {
                        if c < at {
                            assert(accounted(before, c));
                            lemma_still_accounted(before, *self, c);
                        }
                    }
                }
                if limited {
                    proof {
                        assert(self.failures@.take(before.failures@.len() as int)
                            =~= before.failures@);
                    }
                    while self.next < total
                        invariant
                            self.wf(),
                            total == self.chunks@.len(),
                            at < self.next <= total,
                            self.token == before.token,
                            self.account == before.account,
                            self.chunks == before.chunks,
                            self.batches@ == before.batches@.push((at, r.batch)),
                            self.cache == r.cache,
                            self.poll == together,
                            self.failures@.len() == before.failures@.len() + (self.next - at - 1),
                            self.failures@.take(before.failures@.len() as int)
                                == before.failures@,
                            forall|k: int|
                                #![trigger self.failures@[k]]
                                before.failures@.len() <= k < self.failures@.len() ==> {
                                    &&& self.failures@[k].0 == at + 1 + (k
                                        - before.failures@.len())
                                    &&& self.failures@[k].1@ == deferred_text()
                                },
                        decreases total - self.next,
                    {
                        let ghost prior = *self;
                        let deferred: usize = self.next;
                        self.failures.push(
                            (
                                deferred,
                                "notification chunk deferred by server rate limit".to_owned(),
                            ),
                        );
                        self.next = deferred + 1;
                        proof {
                            assert(self.failures@[prior.failures@.len() as int].0 == deferred);
                            assert(self.failures@.take(before.failures@.len() as int)
                                =~= prior.failures@.take(before.failures@.len() as int));
                            assert forall|c: int| 0 <= c < self.next implies accounted(
                                *self,
                                c,
                            ) by {
                                if c < deferred {
                                    assert(accounted(prior, c));
                                    lemma_still_accounted(prior, *self, c);
                                }
                            }
                        }
                    }
                }
            },
        }
    }

    /// The combined batch of a run that has come to its end.
    pub fn combine(&mut self) -> (r: Result<ProviderNotificationBatch, String>)
        requires
            old(self).wf(),
        ensures
            final(self).token == old(self).token,
            final(self).account == old(self).account,
            final(self).chunks == old(self).chunks,
            final(self).failures == old(self).failures,
            final(self).cache == old(self).cache,
            final(self).poll == old(self).poll,
            match r {
                Err(e) => batches::combine_fault(
                    old(self).account@,
                    old(self).chunks@,
                    old(self).batches@,
                ) == Some(e@),
                Ok(batch) => {
                    &&& batches::combine_fault(
                        old(self).account@,
                        old(self).chunks@,
                        old(self).batches@,
                    ) is None
                    &&& batches::combined(
                        old(self).account,
                        old(self).chunks@,
                        old(self).batches@,
                        old(self).failures@,
                        batch,
                    )
                },
            },
    {
        let mut read: Vec<(usize, ProviderNotificationBatch)> = Vec::new();
        std::mem::swap(&mut read, &mut self.batches);
        batches::combine_batches(&self.account, &self.chunks, read, &self.failures)
    }

    /// The end of a poll whose batch was reconciled.
    pub fn finish(self, outcome: NotificationReconcileOutcome) -> (r: PollCompletion)
        ensures
            r.token == self.token,
            r.account == self.account,
            r.snapshot@ == outcome_snapshot(outcome),
            r.newly_admitted == outcome.newly_admitted_alerts,
            text::option_text(r.error) == if self.failures@.len() > 0 {
                Some(batches::failures_line(self.failures@.len(), self.chunks@.len()))
            } else {
                None
            },
            r.cache == self.cache,
            r.poll == self.poll,
    {
        let error: Option<String> = if self.failures.len() > 0 {
            Some(batches::format_failures(&self.failures, self.chunks.len()))
        } else {
            None
        };
        PollCompletion {
            token: self.token,
            account: self.account,
            snapshot: NotificationSnapshot {
                state_version: outcome.state_version,
                unread_by_pull_request: outcome.unread_by_pull_request,
                repository_completeness: outcome.repository_completeness,
                incomplete_candidates: outcome.incomplete_candidates,
                notices: outcome.notices,
            },
            newly_admitted: outcome.newly_admitted_alerts,
            error,
            cache: self.cache,
            poll: self.poll,
        }
    }

    /// The end of a poll whose batch could not be combined or reconciled. What the store still
    /// holds as unread stays on display, where it can be read.
    pub fn finish_failed(
        self,
        error: String,
        cached: Result<NotificationSnapshot, String>,
    ) -> (r: PollCompletion)
        ensures
            r.token == self.token,
            r.account == self.account,
            match cached {
                Ok(snapshot) => r.snapshot == snapshot,
                Err(cause) => empty_snapshot_of(
                    "Notification refresh failed ("@ + error@
                        + "); cached unread also unavailable ("@ + cause@ + ")"@,
                    r.snapshot,
                ),
            },
            r.newly_admitted@.len() == 0,
            text::option_text(r.error) == Some(
                "Notification refresh failed; cached unread retained: "@ + error@,
            ),
            r.cache == self.cache,
            r.poll == self.poll,
    {
        let snapshot = match cached {
            Ok(snapshot) => snapshot,
            Err(cause) => {
                let mut notice: String = "Notification refresh failed (".to_owned();
                notice.append(&error);
                notice.append("); cached unread also unavailable (");
                notice.append(&cause);
                notice.append(")");
                empty_snapshot(notice)
            },
        };
        let mut text: String = "Notification refresh failed; cached unread retained: ".to_owned();
        text.append(&error);
        PollCompletion {
            token: self.token,
            account: self.account,
            snapshot,
            newly_admitted: Vec::new(),
            error: Some(text),
            cache: self.cache,
            poll: self.poll,
        }
    }
}

proof fn lemma_still_accounted(before: PollRun, after: PollRun, c: int)
    requires
        accounted(before, c),
        before.batches@.len() <= after.batches@.len(),
        before.failures@.len() <= after.failures@.len(),
        forall|i: int| 0 <= i < before.batches@.len() ==> (#[trigger] after.batches@[i])
            == before.batches@[i],
        forall|i: int| 0 <= i < before.failures@.len() ==> (#[trigger] after.failures@[i])
            == before.failures@[i],
    ensures
        accounted(after, c),
{
    if exists|i: int| 0 <= i < before.batches@.len() && (#[trigger] before.batches@[i]).0 == c {
        let i = choose|i: int|
            0 <= i < before.batches@.len() && (#[trigger] before.batches@[i]).0 == c;
        assert(after.batches@[i].0 == c);
    } else {
        let i = choose|i: int|
            0 <= i < before.failures@.len() && (#[trigger] before.failures@[i]).0 == c;
        assert(after.failures@[i].0 == c);
    }
}

} // verus!

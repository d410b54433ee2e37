//! What publishing is for: what is prepared, and when; what is pushed; what is recorded of it.

use vstd::prelude::*;

use crate::text;
use crate::workspace::git::{BranchOidView, HeadStateView, LocalSnapshot};
use crate::workspace::publish;
use crate::workspace::publish::{
    CheckoutAssociationView, PrPublishContextView, PrPublishModeView, PrPublishPreparationView,
    PublishStateView, PullRequestCheckoutSource, PullRequestCheckoutSourceView,
    PushDestinationObservation,
};

verus! {

/// What a preparation comes to.
pub open spec fn prepared(
    context: PrPublishContextView,
    association: CheckoutAssociationView,
    source: PullRequestCheckoutSourceView,
    checkout: Result<(), String>,
    snapshot: Result<LocalSnapshot, String>,
    destination: Result<PushDestinationObservation, String>,
    remote: Result<Option<String>, String>,
    is_ancestor: Result<bool, String>,
) -> PublishStateView {
    publish::outcome_of(
        publish::begun(context, association, source),
        checkout,
        snapshot,
        destination,
        remote,
        is_ancestor,
    )
}

/// Whether the pull request that was read, and the checkout, are the selected ones.
pub open spec fn is_the_selected(
    context: PrPublishContextView,
    association: CheckoutAssociationView,
    source: PullRequestCheckoutSourceView,
) -> bool {
    let selected = context.selected_repository;
    let base = source.base_repository;
    let key = association.key;
    &&& context.pull_request_number > 0
    &&& source.number == context.pull_request_number
    &&& key.pull_request == context.pull_request_number
    &&& text::lower(selected.account.host) == text::lower(selected.host)
    &&& text::lower(base.host) == text::lower(selected.host)
    &&& text::lower(base.owner) == text::lower(selected.owner)
    &&& text::lower(base.name) == text::lower(selected.name)
    &&& text::lower(base.account.host) == text::lower(selected.account.host)
    &&& base.account.login == selected.account.login
    &&& key.provider == "github"@
    &&& text::lower(key.host) == text::lower(selected.host)
    &&& key.account == selected.account.login
    &&& text::lower(key.repository) == text::lower(selected.owner + "/"@ + selected.name)
}

/// Whether the source repository is there and is read with the selected account.
pub open spec fn source_is_reachable(
    context: PrPublishContextView,
    source: PullRequestCheckoutSourceView,
) -> bool {
    let selected = context.selected_repository;
    source.source_repository matches Some(r) && text::lower(r.host) == text::lower(selected.host)
        && text::lower(r.account.host) == text::lower(r.host) && text::lower(r.account.host)
        == text::lower(selected.account.host) && r.account.login == selected.account.login
}

/// Whether HEAD is on a branch, at the commit that the list of branches has for it, with nothing
/// under way.
pub open spec fn head_is_publishable(snapshot: LocalSnapshot) -> bool {
    &&& snapshot@.operation_is_default
    &&& snapshot@.head matches HeadStateView::Attached { branch, oid } && lists(
        snapshot@.local_branch_oids,
        branch,
        oid,
    )
}

/// Whether the first entry of a branch has this commit.
pub open spec fn lists(list: Seq<BranchOidView>, branch: Seq<char>, oid: Seq<char>) -> bool {
    exists|i: int|
        0 <= i < list.len() && (#[trigger] list[i]).branch == branch && list[i].oid == oid && (
        forall|k: int| 0 <= k < i ==> (#[trigger] list[k]).branch != branch)
}

proof fn lemma_lists(list: Seq<BranchOidView>, branch: Seq<char>, oid: Seq<char>)
    ensures
        (publish::branch_oid_of(list, branch) == Some(oid)) == lists(list, branch, oid),
    decreases list.len(),
{
    if list.len() > 0 {
        let rest = list.drop_first();
        if list[0].branch == branch {
            if list[0].oid == oid {
                assert(lists(list, branch, oid));
            }
        } else {
            lemma_lists(rest, branch, oid);
            if lists(rest, branch, oid) {
                let i = choose|i: int|
                    0 <= i < rest.len() && (#[trigger] rest[i]).branch == branch && rest[i].oid
                        == oid && (forall|k: int|
                        0 <= k < i ==> (#[trigger] rest[k]).branch != branch);
                assert(list[i + 1] == rest[i]);
                assert forall|k: int| 0 <= k < i + 1 implies (#[trigger] list[k]).branch
                    != branch by {
                    if k > 0 {
                        assert(rest[k - 1] == list[k]);
                    }
                }
            }
            if lists(list, branch, oid) {
                let i = choose|i: int|
                    0 <= i < list.len() && (#[trigger] list[i]).branch == branch && list[i].oid
                        == oid && (forall|k: int|
                        0 <= k < i ==> (#[trigger] list[k]).branch != branch);
                assert(rest[i - 1] == list[i]);
                assert forall|k: int| 0 <= k < i - 1 implies (#[trigger] rest[k]).branch
                    != branch by {
                    assert(rest[k] == list[k + 1]);
                }
            }
        }
    }
}

/// A publication is prepared exactly if everything agrees: the pull request and the checkout are
/// the selected ones, the source is there, every reading succeeded, HEAD is on a branch with
/// nothing under way, and the destination has the commit that the provider says. Otherwise it is
/// refused.
pub proof fn law_a_publication_is_prepared_when_all_agree(
    context: PrPublishContextView,
    association: CheckoutAssociationView,
    source: PullRequestCheckoutSourceView,
    checkout: Result<(), String>,
    snapshot: Result<LocalSnapshot, String>,
    destination: Result<PushDestinationObservation, String>,
    remote: Result<Option<String>, String>,
    is_ancestor: Result<bool, String>,
)
    ensures
        ({
            let end = prepared(
                context,
                association,
                source,
                checkout,
                snapshot,
                destination,
                remote,
                is_ancestor,
            );
            &&& end is Prepared <==> {
                &&& is_the_selected(context, association, source)
                &&& checkout is Ok
                &&& source_is_reachable(context, source)
                &&& snapshot is Ok && head_is_publishable(snapshot->Ok_0)
                &&& destination is Ok
                &&& remote matches Ok(Some(oid)) && oid@ == source.head_sha
                &&& snapshot->Ok_0@.head->Attached_oid == source.head_sha || is_ancestor is Ok
            }
            &&& end is Prepared || end is Refused
        }),
{
    if let Ok(s) = snapshot {
        if let HeadStateView::Attached { branch, oid } = s@.head {
            lemma_lists(s@.local_branch_oids, branch, oid);
        }
    }
}

/// A refusal gives the reason of the first thing that stood in the way, in the order in which
/// they are looked at; what could not be read is refused in the words of that failure.
pub proof fn law_a_refusal_says_what_stood_in_the_way(
    context: PrPublishContextView,
    association: CheckoutAssociationView,
    source: PullRequestCheckoutSourceView,
    checkout: Result<(), String>,
    snapshot: Result<LocalSnapshot, String>,
    destination: Result<PushDestinationObservation, String>,
    remote: Result<Option<String>, String>,
    is_ancestor: Result<bool, String>,
)
    requires
        is_the_selected(context, association, source),
    ensures
        ({
            let end = prepared(
                context,
                association,
                source,
                checkout,
                snapshot,
                destination,
                remote,
                is_ancestor,
            );
            let reachable = checkout is Ok && source_is_reachable(context, source);
            let read = reachable && snapshot is Ok;
            let on_branch = read && head_is_publishable(snapshot->Ok_0);
            let observed = on_branch && destination is Ok;
            &&& checkout matches Err(e) ==> end == PublishStateView::Refused { reason: e@ }
            &&& checkout is Ok && source.source_repository is None ==> end
                == PublishStateView::Refused {
                reason:
                    "The PR source repository was deleted or is unavailable; the target repository will not be used as a fallback"@,
            }
            &&& checkout is Ok && source.source_repository is Some && !reachable ==> end
                == PublishStateView::Refused {
                reason: "Fresh PR source account does not match the selected account"@,
            }
            &&& reachable ==> (snapshot matches Err(e) ==> end == PublishStateView::Refused {
                reason: e@,
            })
            &&& read && !snapshot->Ok_0@.operation_is_default ==> end == PublishStateView::Refused {
                reason:
                    "Publishing is paused while a merge, rebase, cherry-pick, or revert is active"@,
            }
            &&& read && snapshot->Ok_0@.operation_is_default && snapshot->Ok_0@.head is Detached
                ==> end == PublishStateView::Refused {
                reason: "Attach a local branch before preparing PR publication"@,
            }
            &&& read && snapshot->Ok_0@.operation_is_default && snapshot->Ok_0@.head is Unborn
                ==> end == PublishStateView::Refused {
                reason: "The attached local branch has no commit to publish"@,
            }
            &&& read && snapshot->Ok_0@.operation_is_default && snapshot->Ok_0@.head is Attached
                && !on_branch ==> end == PublishStateView::Refused {
                reason: "Attached local branch identity changed during preparation"@,
            }
            &&& on_branch ==> (destination matches Err(e) ==> end == PublishStateView::Refused {
                reason: e@,
            })
            &&& observed ==> (remote matches Err(e) ==> end == PublishStateView::Refused {
                reason: e@,
            })
            &&& observed && remote == Ok::<Option<String>, String>(None) ==> end
                == PublishStateView::Refused {
                reason:
                    "The configured push endpoint does not contain the fresh PR source branch; no absent state was inferred"@,
            }
            &&& observed ==> (remote matches Ok(Some(oid)) ==> oid@ != source.head_sha ==> end
                == PublishStateView::Refused {
                reason:
                    "Provider and installed Git report different PR source heads; refresh before publishing"@,
            })
        }),
{
    if let Ok(s) = snapshot {
        if let HeadStateView::Attached { branch, oid } = s@.head {
            lemma_lists(s@.local_branch_oids, branch, oid);
        }
    }
}

/// A push that may not be made is refused for its reason: the source could not be read again, it
/// is another one than was confirmed, or there is nothing to push.
pub proof fn law_a_refused_push_says_why(
    p: PrPublishPreparationView,
    fresh: Result<PullRequestCheckoutSource, String>,
)
    ensures
        fresh is Err ==> publish::dispatch_of(p, fresh) == Err::<
            publish::PrPublishDispatchView,
            Seq<char>,
        >("fresh PR source revalidation failed before Git dispatch"@),
        fresh matches Ok(source) ==> source@ != p.prepared_source ==> publish::dispatch_of(p, fresh)
            == Err::<publish::PrPublishDispatchView, Seq<char>>(
            "fresh PR source/account/repository/branch/head changed since confirmation"@,
        ),
        fresh matches Ok(source) ==> source@ == p.prepared_source && p.mode is UpToDate
            ==> publish::dispatch_of(p, fresh) == Err::<publish::PrPublishDispatchView, Seq<char>>(
            "the PR source branch already has the prepared local OID"@,
        ),
{
}

/// What is prepared is what was read, each thing in its own place; how it is published follows
/// from the two commits and their history.
pub proof fn law_a_preparation_keeps_each_reading_in_its_place(
    context: PrPublishContextView,
    association: CheckoutAssociationView,
    source: PullRequestCheckoutSourceView,
    checkout: Result<(), String>,
    snapshot: Result<LocalSnapshot, String>,
    destination: Result<PushDestinationObservation, String>,
    remote: Result<Option<String>, String>,
    is_ancestor: Result<bool, String>,
)
    ensures
        prepared(
            context,
            association,
            source,
            checkout,
            snapshot,
            destination,
            remote,
            is_ancestor,
        ) matches PublishStateView::Prepared { preparation: p } ==> {
            let selected = context.selected_repository;
            let from = source.source_repository->0;
            &&& p.selected_host == selected.host
            &&& p.selected_account == selected.account.login
            &&& p.selected_repository == selected.owner + "/"@ + selected.name
            &&& p.pull_request_number == context.pull_request_number
            &&& p.source_host == from.host
            &&& p.source_repository == from.owner + "/"@ + from.name
            &&& snapshot->Ok_0@.head == (HeadStateView::Attached {
                branch: p.local_branch,
                oid: p.local_oid,
            })
            &&& p.remote_branch == source.source_branch
            &&& p.provider_head_oid == source.head_sha
            &&& p.expected_remote_oid == source.head_sha
            &&& p.destination == destination->Ok_0@
            &&& p.filesystem == association.filesystem
            &&& p.snapshot_guard == snapshot->Ok_0@.guard
            &&& p.selected_repository_identity == selected
            &&& p.prepared_source == source
            &&& p.mode is UpToDate <==> p.local_oid == p.expected_remote_oid
            &&& p.mode is Publish ==> is_ancestor->Ok_0
            &&& p.mode is RepublishWithLease ==> !is_ancestor->Ok_0
        },
{
}

/// A push is of the branch that HEAD was on when it was read, at that commit, to the branch that
/// the provider names and the destination that was observed, over the commit that was there; a
/// lease is part of it exactly where that commit is not in the history of the branch.
pub proof fn law_a_push_is_of_the_branch_that_was_read(
    context: PrPublishContextView,
    association: CheckoutAssociationView,
    source: PullRequestCheckoutSourceView,
    checkout: Result<(), String>,
    snapshot: Result<LocalSnapshot, String>,
    destination: Result<PushDestinationObservation, String>,
    remote: Result<Option<String>, String>,
    is_ancestor: Result<bool, String>,
    fresh: Result<PullRequestCheckoutSource, String>,
)
    ensures
        prepared(
            context,
            association,
            source,
            checkout,
            snapshot,
            destination,
            remote,
            is_ancestor,
        ) matches PublishStateView::Prepared { preparation } ==> {
            let push = publish::dispatch_of(preparation, fresh);
            &&& push is Ok <==> fresh is Ok && fresh->Ok_0@ == source
                && snapshot->Ok_0@.head->Attached_oid != source.head_sha
            &&& push matches Ok(d) ==> {
                &&& snapshot->Ok_0@.head == (HeadStateView::Attached {
                    branch: d.local_branch,
                    oid: d.local_oid,
                })
                &&& d.remote_branch == source.source_branch
                &&& d.expected_remote_oid == source.head_sha
                &&& d.destination == destination->Ok_0@
                &&& d.with_lease <==> !is_ancestor->Ok_0
            }
        },
{
}

/// A dispatch takes each of its parts from the part of the preparation with the same name.
pub proof fn law_a_dispatch_is_the_preparation(
    p: PrPublishPreparationView,
    fresh: Result<PullRequestCheckoutSource, String>,
)
    ensures
        publish::dispatch_of(p, fresh) matches Ok(d) ==> {
            &&& d.local_branch == p.local_branch
            &&& d.local_oid == p.local_oid
            &&& d.remote_branch == p.remote_branch
            &&& d.expected_remote_oid == p.expected_remote_oid
            &&& d.destination == p.destination
            &&& d.with_lease <==> p.mode is RepublishWithLease
        },
{
}

/// The record of an attempt takes each of its parts from the preparation, and both its numbers
/// from the request.
pub proof fn law_an_attempt_records_the_preparation(p: PrPublishPreparationView, request_id: u64)
    ensures
        ({
            let a = publish::attempt_of(p, request_id);
            &&& a.request_id == request_id
            &&& a.attempt_id == request_id
            &&& a.selected_host == p.selected_host
            &&& a.selected_account == p.selected_account
            &&& a.selected_repository == p.selected_repository
            &&& a.pull_request_number == p.pull_request_number
            &&& a.source_host == p.source_host
            &&& a.source_repository == p.source_repository
            &&& a.local_branch == p.local_branch
            &&& a.local_oid == p.local_oid
            &&& a.destination_remote == p.destination.remote
            &&& a.destination_repository == p.destination.host + "/"@ + p.destination.owner + "/"@
                + p.destination.name
            &&& a.destination_configuration_fingerprint == p.destination.configuration_fingerprint
            &&& a.remote_branch == p.remote_branch
            &&& a.provider_head_oid == p.provider_head_oid
            &&& a.expected_remote_oid == p.expected_remote_oid
            &&& a.filesystem == p.filesystem
            &&& a.mode == p.mode
        }),
{
}

/// Different preparations are recorded differently, as far as a record goes: two records of one
/// request agree only if branches, commits, destination and way of publishing do.
pub proof fn law_records_tell_preparations_apart(
    p: PrPublishPreparationView,
    q: PrPublishPreparationView,
    request_id: u64,
)
    requires
        publish::attempt_of(p, request_id) == publish::attempt_of(q, request_id),
    ensures
        p.local_branch == q.local_branch,
        p.local_oid == q.local_oid,
        p.remote_branch == q.remote_branch,
        p.expected_remote_oid == q.expected_remote_oid,
        p.provider_head_oid == q.provider_head_oid,
        p.destination.remote == q.destination.remote,
        p.destination.configuration_fingerprint == q.destination.configuration_fingerprint,
        p.mode == q.mode,
        p.pull_request_number == q.pull_request_number,
{
    law_an_attempt_records_the_preparation(p, request_id);
    law_an_attempt_records_the_preparation(q, request_id);
}

/// The short form of an identifier is its beginning: all of it where it is short.
pub proof fn law_short_forms_are_beginnings(oid: Seq<char>)
    ensures
        publish::short_oid_of(oid).len() <= oid.len(),
        publish::short_oid_of(oid) == oid.take(publish::short_oid_of(oid).len() as int),
        text::byte_len(oid) <= 12 ==> publish::short_oid_of(oid) == oid,
        text::byte_len(oid) > 12 && publish::has_short_form(oid) ==> text::byte_len(
            publish::short_oid_of(oid),
        ) == 12,
{
    lemma_reaching_is_within(oid, 12, 0);
    assert(oid.take(oid.len() as int) =~= oid);
}

proof fn lemma_reaching_is_within(s: Seq<char>, n: nat, k: int)
    requires
        0 <= k <= s.len(),
    ensures
        k <= publish::characters_reaching(s, n, k) <= s.len(),
    decreases s.len() - k,
{
    if k < s.len() {
        lemma_reaching_is_within(s, n, k + 1);
    }
}

/// The summary says how, from where, at which commits and whereto the branch is published.
pub proof fn law_summaries_say_what_is_published(p: PrPublishPreparationView)
    ensures
        ({
            let s = publish::summary_of(p);
            let place = p.destination.remote + "/"@ + p.remote_branch;
            let local = " from local "@ + p.local_branch + " at "@ + publish::short_oid_of(
                p.local_oid,
            );
            match p.mode {
                PrPublishModeView::UpToDate => s == "Published "@ + p.source_repository + local
                    + " on "@ + place,
                PrPublishModeView::Publish => s == "Publish "@ + p.source_repository + " at "@
                    + publish::short_oid_of(p.provider_head_oid) + local + " to "@ + place
                    + " (non-force)"@,
                PrPublishModeView::RepublishWithLease => s == "Re-publish "@ + p.source_repository
                    + local + " to "@ + place + " with exact lease "@ + publish::short_oid_of(
                    p.expected_remote_oid,
                ),
            }
        }),
{
}

} // verus!

//! What the controller of a pull request is for: which change is asked for, of what, and when.

use vstd::prelude::*;

use crate::domain;
use crate::pr_lifecycle;
use crate::pr_lifecycle::{
    ChoiceKind, DiscussionFormView, DiscussionModeView, FrozenMutationView, IssueCommentView,
    MetadataFormView, PrLifecycleControllerView, PullRequestDiscussionActionView,
    PullRequestLifecycleActionView, PullRequestLifecycleChoices, PullRequestLifecycleSnapshotView,
    PullRequestMutationTargetView,
};
use crate::text;

verus! {

/// Whether a form can be sent: a title and a base branch that are not blank, and no field of
/// more than a mebibyte.
pub open spec fn sendable(form: MetadataFormView) -> bool {
    &&& !text::blank(form.title)
    &&& !text::blank(form.base_branch)
    &&& text::byte_len(form.title) <= 1_048_576
    &&& text::byte_len(form.body) <= 1_048_576
    &&& text::byte_len(form.base_branch) <= 1_048_576
}

/// The number of fields in which a form differs from what was read.
pub open spec fn differing(
    snapshot: PullRequestLifecycleSnapshotView,
    form: MetadataFormView,
) -> int {
    (if form.title == snapshot.title {
        0int
    } else {
        1
    }) + (if form.body == snapshot.body {
        0int
    } else {
        1
    }) + (if form.base_branch == snapshot.base_branch {
        0int
    } else {
        1
    })
}

/// Whether a request is about the pull request as it was read.
pub open spec fn is_about(
    target: PullRequestMutationTargetView,
    snapshot: PullRequestLifecycleSnapshotView,
) -> bool {
    &&& target.repository == snapshot.repository
    &&& target.pull_request == snapshot.pull_request
    &&& target.observed_updated_at == snapshot.updated_at
    &&& target.observed_state == snapshot.state
    &&& target.observed_head_sha == snapshot.head_sha
}

/// Whether this change of the pull request awaits confirmation, with everything else as before.
pub open spec fn awaits_change(
    before: PrLifecycleControllerView,
    after: PrLifecycleControllerView,
    action: PullRequestLifecycleActionView,
    operation_id: Seq<char>,
    attempt_id: Seq<char>,
    witness: Option<MetadataFormView>,
) -> bool {
    &&& after == PrLifecycleControllerView { confirmation: after.confirmation, ..before }
    &&& after.confirmation matches Some(FrozenMutationView::Lifecycle {
        request,
        form_witness,
        ..
    })
    &&& request.action == action
    &&& request.operation_id == operation_id
    &&& request.attempt_id == attempt_id
    &&& is_about(request.target, before.snapshot->0)
    &&& form_witness == witness
}

/// Whether this change of the discussion awaits confirmation, with everything else as before.
pub open spec fn awaits_discussion(
    before: PrLifecycleControllerView,
    after: PrLifecycleControllerView,
    action: PullRequestDiscussionActionView,
    operation_id: Seq<char>,
    attempt_id: Seq<char>,
    witness: Option<Seq<char>>,
) -> bool {
    &&& after == PrLifecycleControllerView { confirmation: after.confirmation, ..before }
    &&& after.confirmation matches Some(FrozenMutationView::Discussion {
        request,
        body_witness,
        ..
    })
    &&& request.action == action
    &&& request.operation_id == operation_id
    &&& request.attempt_id == attempt_id
    &&& is_about(request.target, before.snapshot->0)
    &&& body_witness == witness
}

/// A form that differs from what was read in exactly one field asks for the update of that
/// field: what was observed is the value that was read, and the new value is the one of the
/// form, for the title, the body and the base branch alike.
pub proof fn law_the_field_that_differs_is_changed(
    c: PrLifecycleControllerView,
    operation_id: Seq<char>,
    attempt_id: Seq<char>,
)
    requires
        c.snapshot is Some,
        c.metadata_form is Some,
        sendable(c.metadata_form->0),
        differing(c.snapshot->0, c.metadata_form->0) == 1,
    ensures
        ({
            let read = c.snapshot->0;
            let form = c.metadata_form->0;
            let asked = pr_lifecycle::apply_prepared(c, operation_id, attempt_id);
            let action = if form.title != read.title {
                PullRequestLifecycleActionView::UpdateTitle {
                    observed: read.title,
                    value: form.title,
                }
            } else if form.body != read.body {
                PullRequestLifecycleActionView::UpdateBody { observed: read.body, value: form.body }
            } else {
                PullRequestLifecycleActionView::UpdateBaseBranch {
                    observed: read.base_branch,
                    value: form.base_branch,
                }
            };
            &&& pr_lifecycle::apply_fault(c) is None
            &&& awaits_change(c, asked, action, operation_id, attempt_id, Some(form))
        }),
{
    text::law_trimmed_is_empty_iff_blank(c.metadata_form->0.title);
    text::law_trimmed_is_empty_iff_blank(c.metadata_form->0.base_branch);
}

/// Of a form that differs in one field the change that is found has both values in their
/// places; of any other form there is no single change.
pub proof fn law_a_single_change_has_both_values(
    snapshot: PullRequestLifecycleSnapshotView,
    form: MetadataFormView,
)
    ensures
        ({
            let changes = pr_lifecycle::changes_of(snapshot, form);
            &&& changes.len() == differing(snapshot, form)
            &&& forall|i: int| 0 <= i < changes.len() ==> match #[trigger] changes[i] {
                PullRequestLifecycleActionView::UpdateTitle { observed, value } => observed
                    == snapshot.title && value == form.title && observed != value,
                PullRequestLifecycleActionView::UpdateBody { observed, value } => observed
                    == snapshot.body && value == form.body && observed != value,
                PullRequestLifecycleActionView::UpdateBaseBranch { observed, value } => observed
                    == snapshot.base_branch && value == form.base_branch && observed != value,
                _ => false,
            }
        }),
{
}

/// A form is refused, and nothing changes, exactly if there is nothing to compare, the form
/// cannot be sent, or it differs in no field or in several; each refusal has its own message.
pub proof fn law_other_forms_are_refused(
    c: PrLifecycleControllerView,
    operation_id: Seq<char>,
    attempt_id: Seq<char>,
)
    ensures
        ({
            let fault = pr_lifecycle::apply_fault(c);
            let read = c.snapshot->0;
            let form = c.metadata_form->0;
            &&& fault is Some ==> pr_lifecycle::apply_prepared(c, operation_id, attempt_id) == c
            &&& fault is None <==> c.snapshot is Some && c.metadata_form is Some && sendable(form)
                && differing(read, form) == 1
            &&& c.snapshot is None ==> fault == Some("Lifecycle metadata is still loading."@)
            &&& c.snapshot is Some && c.metadata_form is None ==> fault == Some(
                "Metadata form is unavailable."@,
            )
            &&& c.snapshot is Some && c.metadata_form is Some ==> {
                &&& text::blank(form.title) ==> fault == Some("Title cannot be empty."@)
                &&& !text::blank(form.title) && text::blank(form.base_branch) ==> fault == Some(
                    "Base branch cannot be empty."@,
                )
                &&& !text::blank(form.title) && !text::blank(form.base_branch) && !sendable(form)
                    ==> fault == Some("Metadata form exceeds its bounded size."@)
                &&& sendable(form) && differing(read, form) == 0 ==> fault == Some(
                    "No metadata value changed."@,
                )
                &&& sendable(form) && differing(read, form) > 1 ==> fault == Some(
                    "Apply one metadata field at a time so each confirmation and provider acknowledgement has one exact affected value."@,
                )
            }
        }),
{
    if let Some(form) = c.metadata_form {
        text::law_trimmed_is_empty_iff_blank(form.title);
        text::law_trimmed_is_empty_iff_blank(form.base_branch);
    }
}

/// A change of state, draft, review requests, labels or assignees is asked for as it stands,
/// and needs the permission that is for it and no other.
pub proof fn law_each_change_needs_its_own_permission(
    c: PrLifecycleControllerView,
    action: PullRequestLifecycleActionView,
    operation_id: Seq<char>,
    attempt_id: Seq<char>,
)
    ensures
        ({
            let fault = pr_lifecycle::action_fault(c, action);
            let asked = pr_lifecycle::action_prepared(c, action, operation_id, attempt_id);
            let read = c.snapshot->0;
            let allowed = match action {
                PullRequestLifecycleActionView::Close => read.can_change_state.available,
                PullRequestLifecycleActionView::Reopen => read.can_change_state.available,
                PullRequestLifecycleActionView::ConvertToDraft => read.can_change_draft.available,
                PullRequestLifecycleActionView::MarkReadyForReview =>
                    read.can_change_draft.available,
                PullRequestLifecycleActionView::AddReviewer(_) =>
                    read.can_request_reviewers.available,
                PullRequestLifecycleActionView::RemoveReviewer(_) =>
                    read.can_request_reviewers.available,
                PullRequestLifecycleActionView::AddLabel(_) => read.can_change_labels.available,
                PullRequestLifecycleActionView::RemoveLabel(_) => read.can_change_labels.available,
                PullRequestLifecycleActionView::AddAssignee(_) =>
                    read.can_change_assignees.available,
                PullRequestLifecycleActionView::RemoveAssignee(_) =>
                    read.can_change_assignees.available,
                _ => read.can_update_metadata.available,
            };
            &&& fault is None <==> c.snapshot is Some && allowed
            &&& fault is None ==> awaits_change(c, asked, action, operation_id, attempt_id, None)
            &&& fault is Some ==> asked == c
        }),
{
}

/// A refusal for want of a permission gives the reason that came with it, and says that the
/// read was incomplete where none came.
pub proof fn law_refusals_give_the_reason(label: Seq<char>, reason: Option<Seq<char>>)
    ensures
        reason is Some ==> pr_lifecycle::reason_of(label, reason) == label + ": "@ + reason->0,
        reason is None ==> pr_lifecycle::reason_of(label, reason) == label
            + ": the selected-account capability read was incomplete; refresh before retrying"@,
{
    reveal_strlit(": ");
    reveal_strlit("the selected-account capability read was incomplete; refresh before retrying");
    reveal_strlit(": the selected-account capability read was incomplete; refresh before retrying");
    if reason is None {
        let tail =
            ": the selected-account capability read was incomplete; refresh before retrying"@;
        assert(": "@
            + "the selected-account capability read was incomplete; refresh before retrying"@
            =~= tail);
        assert(pr_lifecycle::reason_of(label, reason) =~= label + (": "@
            + "the selected-account capability read was incomplete; refresh before retrying"@));
    }
}

/// Editing starts from the values that were read, where it is allowed; giving it up brings
/// them back. Neither touches anything else but the confirmation, which is gone.
pub proof fn law_editing_starts_from_what_was_read(c: PrLifecycleControllerView)
    ensures
        ({
            let fault = pr_lifecycle::edit_fault(c);
            let edited = pr_lifecycle::editing(c);
            let left = pr_lifecycle::edit_cancelled(c);
            let read = c.snapshot->0;
            let values = MetadataFormView {
                title: read.title,
                body: read.body,
                base_branch: read.base_branch,
            };
            &&& fault is None <==> c.snapshot is Some && read.can_update_metadata.available
            &&& fault is None ==> edited == (PrLifecycleControllerView {
                metadata_form: Some(values),
                editing_metadata: true,
                confirmation: None,
                ..c
            })
            &&& fault is Some ==> edited == c
            &&& left == (PrLifecycleControllerView {
                metadata_form: if c.snapshot is Some {
                    Some(values)
                } else {
                    None
                },
                editing_metadata: false,
                confirmation: None,
                ..c
            })
        }),
{
}

/// What was read of this pull request is taken over, and is shown in the form unless that is
/// being edited.
pub proof fn law_what_was_read_is_shown(
    c: PrLifecycleControllerView,
    read: PullRequestLifecycleSnapshotView,
)
    requires
        read.repository == c.repository,
        read.pull_request.pull_request == c.pull_request,
        read.pull_request.owner == c.repository.owner,
        read.pull_request.repository == c.repository.name,
        read.pull_request.host == c.repository.host,
    ensures
        pr_lifecycle::snapshot_installed(c, read) == (PrLifecycleControllerView {
            snapshot: Some(read),
            metadata_form: if c.editing_metadata {
                c.metadata_form
            } else {
                Some(
                    MetadataFormView {
                        title: read.title,
                        body: read.body,
                        base_branch: read.base_branch,
                    },
                )
            },
            ..c
        }),
{
}

/// What was read of a pull request with another number, owner, name or host is not taken over.
pub proof fn law_other_pull_requests_are_not_shown(
    c: PrLifecycleControllerView,
    read: PullRequestLifecycleSnapshotView,
)
    requires
        read.pull_request.pull_request != c.pull_request || text::lower(read.pull_request.owner)
            != text::lower(c.repository.owner) || text::lower(read.pull_request.repository)
            != text::lower(c.repository.name) || text::lower(read.pull_request.host)
            != text::lower(c.repository.host),
    ensures
        pr_lifecycle::snapshot_installed(c, read) == c,
{
}

/// What was read with another account is not taken over.
pub proof fn law_other_accounts_are_not_shown(
    c: PrLifecycleControllerView,
    read: PullRequestLifecycleSnapshotView,
)
    requires
        read.repository.account.host == c.repository.account.host,
        read.repository.host == c.repository.host,
        read.repository.owner == c.repository.owner,
        read.repository.name == c.repository.name,
        text::lower(read.repository.account.login) != text::lower(c.repository.account.login),
    ensures
        pr_lifecycle::snapshot_installed(c, read) == c,
{
    let mine = c.repository.account.login;
    let other = read.repository.account.login;
    let head = c.repository.account.host + "/"@;
    let tail = ":"@ + c.repository.host + "/"@ + c.repository.owner + "/"@ + c.repository.name;
    let a = domain::cache_key_of(c.repository);
    let b = domain::cache_key_of(read.repository);
    assert(a =~= text::lower(head + mine + tail));
    assert(b =~= text::lower(head + other + tail));
    if a == b {
        assert(a.len() == head.len() + mine.len() + tail.len());
        assert(b.len() == head.len() + other.len() + tail.len());
        assert forall|i: int| 0 <= i < mine.len() implies #[trigger] text::lower(mine)[i]
            == text::lower(other)[i] by {
            assert(a[head.len() + i] == text::lower_char(mine[i]));
            assert(b[head.len() + i] == text::lower_char(other[i]));
        }
        assert(text::lower(mine) =~= text::lower(other));
    }
}

/// A new comment is asked for with the text of the form, an edited one under its own
/// coordinates with the text that was observed and the text of the form.
pub proof fn law_the_text_of_the_form_is_sent(
    c: PrLifecycleControllerView,
    operation_id: Seq<char>,
    attempt_id: Seq<char>,
)
    requires
        c.snapshot is Some,
        c.discussion_form is Some,
        !text::blank(c.discussion_form->0.body),
        text::byte_len(c.discussion_form->0.body) <= 1_048_576,
        c.discussion_form->0.mode matches DiscussionModeView::Edit { comment, .. } ==> comment.body
            != c.discussion_form->0.body,
    ensures
        ({
            let form = c.discussion_form->0;
            let asked = pr_lifecycle::discussion_prepared(c, operation_id, attempt_id);
            &&& pr_lifecycle::discussion_fault(c) is None
            &&& form.mode is Create ==> awaits_discussion(
                c,
                asked,
                PullRequestDiscussionActionView::Create { body: form.body },
                operation_id,
                attempt_id,
                Some(form.body),
            )
            &&& form.mode matches DiscussionModeView::Edit { comment, selected_author }
                ==> awaits_discussion(
                c,
                asked,
                PullRequestDiscussionActionView::Edit {
                    comment: comment.coordinates,
                    selected_author,
                    observed_body: comment.body,
                    observed_updated_at: comment.updated_at,
                    body: form.body,
                },
                operation_id,
                attempt_id,
                Some(form.body),
            )
        }),
{
    text::law_trimmed_is_empty_iff_blank(c.discussion_form->0.body);
}

/// A text that is blank, too long or unchanged is not sent, nor is one without a form or before
/// anything was read.
pub proof fn law_other_texts_are_not_sent(
    c: PrLifecycleControllerView,
    operation_id: Seq<char>,
    attempt_id: Seq<char>,
)
    ensures
        ({
            let fault = pr_lifecycle::discussion_fault(c);
            let form = c.discussion_form->0;
            &&& fault is Some ==> pr_lifecycle::discussion_prepared(c, operation_id, attempt_id)
                == c
            &&& c.snapshot is None ==> fault == Some("Lifecycle metadata is still loading."@)
            &&& c.snapshot is Some && c.discussion_form is None ==> fault == Some(
                "No top-level discussion composer is open."@,
            )
            &&& c.snapshot is Some && c.discussion_form is Some ==> {
                &&& text::blank(form.body) ==> fault == Some("Comment body cannot be empty."@)
                &&& !text::blank(form.body) && text::byte_len(form.body) > 1_048_576 ==> fault
                    == Some("Comment body exceeds its bounded size."@)
                &&& !text::blank(form.body) && text::byte_len(form.body) <= 1_048_576 && (
                form.mode matches DiscussionModeView::Edit { comment, .. } && comment.body
                    == form.body) ==> fault == Some("The comment body did not change."@)
            }
        }),
{
    if let Some(form) = c.discussion_form {
        text::law_trimmed_is_empty_iff_blank(form.body);
    }
}

/// Whether a comment was written by the account that reads, on this pull request.
pub open spec fn is_mine(c: PrLifecycleControllerView, comment: IssueCommentView) -> bool {
    let at = comment.coordinates;
    &&& c.snapshot is Some
    &&& comment.author is Some
    &&& text::lower(comment.author->0) == text::lower(c.snapshot->0.viewer_login)
    &&& at.provider == "github"@
    &&& text::lower(at.host) == text::lower(c.repository.host)
    &&& text::lower(at.owner) == text::lower(c.repository.owner)
    &&& text::lower(at.repository) == text::lower(c.repository.name)
    &&& at.pull_request == c.pull_request
    &&& at.remote_id.len() > 0
}

/// A comment can be edited or deleted exactly if it was written by the account that reads, on
/// this pull request; deleting asks for the comment at its coordinates, by its author, with the
/// text and the time that were observed.
pub proof fn law_own_comments_can_be_deleted(
    c: PrLifecycleControllerView,
    comment: IssueCommentView,
    operation_id: Seq<char>,
    attempt_id: Seq<char>,
)
    ensures
        pr_lifecycle::is_own_comment(c, comment) <==> is_mine(c, comment),
        pr_lifecycle::comment_edit_fault(c, comment) is None <==> is_mine(c, comment),
        pr_lifecycle::comment_delete_fault(c, comment) is None <==> is_mine(c, comment),
        is_mine(c, comment) ==> awaits_discussion(
            c,
            pr_lifecycle::delete_prepared(c, comment, operation_id, attempt_id),
            PullRequestDiscussionActionView::Delete {
                comment: comment.coordinates,
                selected_author: comment.author->0,
                observed_body: comment.body,
                observed_updated_at: comment.updated_at,
            },
            operation_id,
            attempt_id,
            None,
        ),
        !is_mine(c, comment) ==> pr_lifecycle::delete_prepared(c, comment, operation_id, attempt_id)
            == c,
{
}

/// A new comment can be written exactly where commenting is allowed.
pub proof fn law_commenting_needs_its_permission(c: PrLifecycleControllerView)
    ensures
        pr_lifecycle::comment_fault(c) is None <==> c.snapshot is Some
            && c.snapshot->0.can_comment.available,
{
}

/// Writing a comment opens a form with this text in this mode, without a confirmation.
pub proof fn law_a_form_opens_with_its_text(
    c: PrLifecycleControllerView,
    mode: DiscussionModeView,
    body: Seq<char>,
)
    ensures
        pr_lifecycle::composing(c, mode, body) == (PrLifecycleControllerView {
            discussion_form: Some(DiscussionFormView { mode, body }),
            confirmation: None,
            ..c
        }),
{
}

/// What awaits confirmation is sent exactly while the form or the text that it was made of is
/// still the visible one; the operation that is under way is then the one that was asked for.
pub proof fn law_what_is_visible_is_sent(c: PrLifecycleControllerView)
    ensures
        ({
            let fault = pr_lifecycle::confirmation_fault(c);
            let sent = pr_lifecycle::confirmed(c);
            &&& fault is None <==> match c.confirmation {
                None => false,
                Some(FrozenMutationView::Lifecycle { form_witness, .. }) => form_witness is None
                    || form_witness == c.metadata_form,
                Some(FrozenMutationView::Discussion { body_witness, .. }) => body_witness is None
                    || (c.discussion_form is Some && body_witness == Some(
                    c.discussion_form->0.body,
                )),
            }
            &&& fault is Some ==> sent == c
            &&& fault is None ==> sent == (PrLifecycleControllerView {
                active_operation: Some(
                    match c.confirmation->0 {
                        FrozenMutationView::Lifecycle { request, .. } => request.operation_id,
                        FrozenMutationView::Discussion { request, .. } => request.operation_id,
                    },
                ),
                ..c
            })
            &&& c.confirmation is None ==> fault == Some("No lifecycle confirmation is open."@)
        }),
{
}

/// The end of the operation that is under way ends it and its confirmation and says what became
/// of it; an acknowledged one closes the forms, a refused one leaves them.
pub proof fn law_an_operation_ends_once(
    c: PrLifecycleControllerView,
    operation_id: Seq<char>,
    acknowledged: bool,
    notice: Seq<char>,
)
    ensures
        ({
            let done = pr_lifecycle::finished(c, operation_id, acknowledged, notice);
            &&& c.active_operation != Some(operation_id) ==> done == c
            &&& c.active_operation == Some(operation_id) ==> {
                &&& done.active_operation is None
                &&& done.confirmation is None
                &&& done.notice == Some(notice)
                &&& acknowledged ==> !done.editing_metadata && done.discussion_form is None
                &&& !acknowledged ==> done.editing_metadata == c.editing_metadata
                    && done.discussion_form == c.discussion_form
                &&& done.metadata_form == c.metadata_form
                &&& done.snapshot == c.snapshot
                &&& done.choices == c.choices
                &&& done.repository == c.repository
                &&& done.pull_request == c.pull_request
                &&& pr_lifecycle::finished(done, operation_id, acknowledged, notice) == done
            }
        }),
{
}

/// The values of a kind are the ones that were read for it.
pub proof fn law_choices_are_by_kind(choices: PullRequestLifecycleChoices)
    ensures
        pr_lifecycle::choice_set_of(choices, ChoiceKind::Branch) == choices.branches,
        pr_lifecycle::choice_set_of(choices, ChoiceKind::Label) == choices.labels,
        pr_lifecycle::choice_set_of(choices, ChoiceKind::Assignee) == choices.assignees,
        pr_lifecycle::choice_set_of(choices, ChoiceKind::ReviewerUser) == choices.reviewer_users,
        pr_lifecycle::choice_set_of(choices, ChoiceKind::ReviewerTeam) == choices.reviewer_teams,
{
}

/// The summary of a change gives what was observed first and the new value after the arrow.
pub proof fn law_summaries_give_both_values(observed: Seq<char>, value: Seq<char>)
    ensures
        pr_lifecycle::lifecycle_summary_of(
            PullRequestLifecycleActionView::UpdateTitle { observed, value },
        ) == "Title: "@ + text::debug_of(observed) + " → "@ + text::debug_of(value),
        pr_lifecycle::lifecycle_summary_of(
            PullRequestLifecycleActionView::UpdateBody { observed, value },
        ) == "Body: "@ + text::debug_of(observed) + " → "@ + text::debug_of(value),
        pr_lifecycle::lifecycle_summary_of(
            PullRequestLifecycleActionView::UpdateBaseBranch { observed, value },
        ) == "Base branch: "@ + text::debug_of(observed) + " → "@ + text::debug_of(value),
        pr_lifecycle::lifecycle_summary_of(PullRequestLifecycleActionView::AddLabel(value))
            == "Add label "@ + text::debug_of(value),
        pr_lifecycle::lifecycle_summary_of(PullRequestLifecycleActionView::RemoveLabel(value))
            == "Remove label "@ + text::debug_of(value),
        pr_lifecycle::lifecycle_summary_of(PullRequestLifecycleActionView::AddAssignee(value))
            == "Add assignee "@ + value,
        pr_lifecycle::lifecycle_summary_of(PullRequestLifecycleActionView::RemoveAssignee(value))
            == "Remove assignee "@ + value,
{
}

/// What awaits confirmation is summarised as the change that it is.
pub proof fn law_the_summary_is_of_the_change(
    c: PrLifecycleControllerView,
    action: PullRequestLifecycleActionView,
    operation_id: Seq<char>,
    attempt_id: Seq<char>,
)
    ensures
        pr_lifecycle::action_fault(c, action) is None ==> (pr_lifecycle::action_prepared(
            c,
            action,
            operation_id,
            attempt_id,
        ).confirmation matches Some(FrozenMutationView::Lifecycle { request, summary, .. })
            && request.action == action && summary == pr_lifecycle::lifecycle_summary_of(action)),
{
}

} // verus!

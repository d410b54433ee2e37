use cibergit::creation::dialog::{ProviderChoice, ProviderChoiceSet};
use cibergit::creation::form::{ProviderCapability, ProviderCoordinates};
use cibergit::domain::{Account, Repository};
use cibergit::pr_lifecycle::{
    lifecycle_summary, reviewer, ChoiceKind, FrozenMutation, IssueComment, PrLifecycleController,
    PullRequestDiscussionAction, PullRequestLifecycleAction, PullRequestLifecycleChoices,
    PullRequestLifecycleSnapshot, MAX_FORM_BYTES,
};

fn repository() -> Repository {
    Repository {
        host: "github.com".into(),
        owner: "octo".into(),
        name: "repo".into(),
        account: Account {
            host: "github.com".into(),
            login: "alice".into(),
        },
        local_path: None,
    }
}

fn capability() -> ProviderCapability {
    ProviderCapability {
        available: true,
        reason: None,
    }
}

fn coordinates(remote_id: &str) -> ProviderCoordinates {
    ProviderCoordinates {
        provider: "github".into(),
        host: "github.com".into(),
        owner: "octo".into(),
        repository: "repo".into(),
        pull_request: 7,
        remote_id: remote_id.into(),
    }
}

fn snapshot() -> PullRequestLifecycleSnapshot {
    PullRequestLifecycleSnapshot {
        repository: repository(),
        pull_request: coordinates("PR_7"),
        updated_at: "2026-09-13T00:00:00Z".into(),
        state: "OPEN".into(),
        head_sha: "head".into(),
        title: "old title".into(),
        body: "old body".into(),
        base_branch: "main".into(),
        draft: false,
        reviewers: vec![],
        assignees: vec![],
        labels: vec![],
        viewer_login: "alice".into(),
        viewer_permission: Some("WRITE".into()),
        can_update_metadata: capability(),
        can_change_state: capability(),
        can_change_draft: capability(),
        can_request_reviewers: capability(),
        can_change_labels: capability(),
        can_change_assignees: capability(),
        can_comment: capability(),
        values_complete: true,
        capabilities_complete: true,
        notice: None,
    }
}

fn comment(id: &str, author: &str, body: &str) -> IssueComment {
    IssueComment {
        coordinates: coordinates(id),
        author: Some(author.into()),
        body: body.into(),
        created_at: "created".into(),
        updated_at: "updated".into(),
        url: String::new(),
    }
}

fn loaded() -> PrLifecycleController {
    let mut controller = PrLifecycleController::new(repository(), 7);
    controller.install_snapshot(snapshot()).unwrap();
    controller
}

#[test]
fn metadata_confirmation_freezes_one_exact_delta_and_rechecks_visible_form() {
    let mut controller = PrLifecycleController::new(repository(), 7);
    controller.install_snapshot(snapshot()).unwrap();
    controller.begin_metadata_edit().unwrap();
    controller.stage_metadata("new title".into(), "old body".into(), "main".into());
    controller
        .prepare_metadata_apply("op".into(), "attempt".into())
        .unwrap();
    let FrozenMutation::Lifecycle { request, .. } = controller.confirmation.clone().unwrap() else {
        panic!("lifecycle confirmation")
    };
    assert!(matches!(
        request.action,
        PullRequestLifecycleAction::UpdateTitle { ref observed, ref value }
            if observed == "old title" && value == "new title"
    ));
    controller.stage_metadata(
        "changed after prompt".into(),
        "old body".into(),
        "main".into(),
    );
    assert!(controller.take_confirmed().unwrap_err().contains("changed"));
    assert!(controller.active_operation.is_none());
}

#[test]
fn dirty_forms_survive_fresh_poll_and_wrong_target_is_rejected() {
    let mut controller = PrLifecycleController::new(repository(), 7);
    controller.install_snapshot(snapshot()).unwrap();
    controller.begin_metadata_edit().unwrap();
    controller.stage_metadata("dirty".into(), "exact\nbody".into(), "main".into());
    let mut fresh = snapshot();
    fresh.title = "remote title".into();
    controller.install_snapshot(fresh).unwrap();
    assert_eq!(controller.metadata_form.as_ref().unwrap().title, "dirty");
    let mut wrong = snapshot();
    wrong.pull_request.pull_request = 8;
    assert!(controller.install_snapshot(wrong).is_err());
}

#[test]
fn exact_comment_identity_and_body_are_frozen_without_body_guessing() {
    let mut controller = PrLifecycleController::new(repository(), 7);
    controller.install_snapshot(snapshot()).unwrap();
    assert!(controller
        .begin_comment_edit(comment("C1", "bob", "same"))
        .is_err());
    controller
        .begin_comment_edit(comment("C1", "ALICE", "old"))
        .unwrap();
    controller.stage_discussion_body("new".into());
    controller
        .prepare_discussion_apply("op".into(), "attempt".into())
        .unwrap();
    let FrozenMutation::Discussion { request, .. } = controller.take_confirmed().unwrap() else {
        panic!("discussion confirmation")
    };
    assert!(matches!(
        request.action,
        PullRequestDiscussionAction::Edit { ref comment, ref observed_body, ref body, .. }
            if comment.remote_id == "C1" && observed_body == "old" && body == "new"
    ));
}

fn all_of_nothing() -> ProviderChoiceSet {
    ProviderChoiceSet {
        values: vec![],
        complete: true,
        notice: None,
    }
}

#[test]
fn choices_preserve_user_team_distinction_and_incomplete_reason() {
    let mut controller = PrLifecycleController::new(repository(), 7);
    let incomplete = ProviderChoiceSet {
        values: vec![ProviderChoice {
            remote_id: Some("T1".into()),
            name: "core".into(),
        }],
        complete: false,
        notice: Some("bounded read".into()),
    };
    controller
        .install_choices(PullRequestLifecycleChoices {
            repository: repository(),
            branches: all_of_nothing(),
            labels: all_of_nothing(),
            assignees: all_of_nothing(),
            reviewer_users: all_of_nothing(),
            reviewer_teams: incomplete,
        })
        .unwrap();
    let (teams, complete, notice) = controller.choices_for(ChoiceKind::ReviewerTeam).unwrap();
    assert_eq!(teams[0].name, "core");
    assert!(!complete);
    assert_eq!(notice, Some("bounded read"));
    assert_eq!(reviewer("TEAM", "core".into()).kind, "TEAM");
    let (users, complete, notice) = controller.choices_for(ChoiceKind::ReviewerUser).unwrap();
    assert!(users.is_empty() && complete && notice.is_none());
}

#[test]
fn summaries_quote_the_values() {
    assert_eq!(
        lifecycle_summary(&PullRequestLifecycleAction::UpdateTitle {
            observed: "a \"b\"".into(),
            value: "c\nd".into(),
        }),
        "Title: \"a \\\"b\\\"\" → \"c\\nd\""
    );
    assert_eq!(
        lifecycle_summary(&PullRequestLifecycleAction::AddLabel("bug".into())),
        "Add label \"bug\""
    );
    assert_eq!(
        lifecycle_summary(&PullRequestLifecycleAction::RemoveAssignee("bob".into())),
        "Remove assignee bob"
    );
    assert_eq!(
        lifecycle_summary(&PullRequestLifecycleAction::Close),
        "Close this exact open PR snapshot"
    );
}

#[test]
fn one_field_is_applied_at_a_time() {
    let mut controller = loaded();
    assert_eq!(
        controller.prepare_metadata_apply("op".into(), "a".into()),
        Err("No metadata value changed.".into())
    );
    controller.begin_metadata_edit().unwrap();
    controller.stage_metadata("new".into(), "new".into(), "main".into());
    assert!(controller
        .prepare_metadata_apply("op".into(), "a".into())
        .unwrap_err()
        .contains("one metadata field at a time"));
    controller.stage_metadata(" ".into(), "old body".into(), "main".into());
    assert_eq!(
        controller.prepare_metadata_apply("op".into(), "a".into()),
        Err("Title cannot be empty.".into())
    );
    controller.stage_metadata("t".into(), "old body".into(), "\t".into());
    assert_eq!(
        controller.prepare_metadata_apply("op".into(), "a".into()),
        Err("Base branch cannot be empty.".into())
    );
    controller.stage_metadata("t".into(), "x".repeat(MAX_FORM_BYTES + 1), "main".into());
    assert_eq!(
        controller.prepare_metadata_apply("op".into(), "a".into()),
        Err("Metadata form exceeds its bounded size.".into())
    );
    controller.cancel_metadata();
    assert_eq!(controller.metadata_form.as_ref().unwrap().title, "old title");
}

#[test]
fn missing_capabilities_are_named_with_their_reason() {
    let mut controller = PrLifecycleController::new(repository(), 7);
    assert_eq!(
        controller.prepare_lifecycle_action(
            PullRequestLifecycleAction::Close,
            "op".into(),
            "a".into()
        ),
        Err("Lifecycle metadata is still loading.".into())
    );
    let mut bounded = snapshot();
    bounded.can_change_state = ProviderCapability {
        available: false,
        reason: Some("read only".into()),
    };
    bounded.can_comment = ProviderCapability {
        available: false,
        reason: None,
    };
    controller.install_snapshot(bounded).unwrap();
    assert_eq!(
        controller.prepare_lifecycle_action(
            PullRequestLifecycleAction::Close,
            "op".into(),
            "a".into()
        ),
        Err("State change: read only".into())
    );
    assert_eq!(
        controller.begin_comment_create(),
        Err(
            "Commenting is unavailable: the selected-account capability read was incomplete; refresh before retrying"
                .into()
        )
    );
    controller
        .prepare_lifecycle_action(
            PullRequestLifecycleAction::ConvertToDraft,
            "op".into(),
            "a".into(),
        )
        .unwrap();
}

#[test]
fn only_the_active_operation_ends_and_a_refusal_keeps_the_form() {
    let mut controller = loaded();
    controller.begin_comment_create().unwrap();
    assert_eq!(
        controller.prepare_discussion_apply("op".into(), "a".into()),
        Err("Comment body cannot be empty.".into())
    );
    controller.stage_discussion_body("text".into());
    controller
        .prepare_discussion_apply("op".into(), "a".into())
        .unwrap();
    let frozen = controller.take_confirmed().unwrap();
    assert_eq!(frozen.operation_id(), "op");
    assert_eq!(
        frozen.summary(),
        "Create top-level comment with exact body \"text\""
    );
    controller.cancel_confirmation();
    assert!(controller.confirmation.is_some());
    controller.finish_operation("other", true, "no".into());
    assert!(controller.active_operation.is_some());
    controller.finish_operation("op", false, "refused".into());
    assert!(controller.discussion_form.is_some());
    assert_eq!(controller.notice.as_deref(), Some("refused"));
}

#[test]
fn foreign_comments_are_neither_edited_nor_deleted() {
    let mut controller = loaded();
    let mut elsewhere = comment("C1", "alice", "body");
    elsewhere.coordinates.pull_request = 8;
    assert!(!controller.current_user_comment(&elsewhere));
    assert!(controller
        .prepare_comment_delete(elsewhere, "op".into(), "a".into())
        .unwrap_err()
        .contains("coordinates"));
    let mut anonymous = comment("C1", "alice", "body");
    anonymous.author = None;
    assert!(controller
        .prepare_comment_delete(anonymous, "op".into(), "a".into())
        .unwrap_err()
        .contains("without an exact author"));
    assert!(controller.current_user_comment(&comment("C1", "Alice", "body")));
    controller
        .prepare_comment_delete(comment("C1", "alice", "body"), "op".into(), "a".into())
        .unwrap();
    assert_eq!(
        controller.take_confirmed().unwrap().summary(),
        "Delete exact comment C1 with frozen body \"body\""
    );
}

//! What is done to a pull request that exists: the forms for it, what is frozen for a
//! confirmation, and what is checked before anything is sent.

use vstd::prelude::*;
use vstd::string::*;

use crate::creation::dialog::{ProviderChoice, ProviderChoiceSet};
use crate::creation::form::{
    ProviderCapability, ProviderCapabilityView, ProviderCoordinates, ProviderCoordinatesView,
};
use crate::domain;
use crate::domain::{Repository, RepositoryView};
use crate::text;

pub mod laws;

verus! {

/// The most bytes that a field of a form may take.
pub const MAX_FORM_BYTES: usize = 1_048_576;

/// The fields of a pull request that can be edited.
#[derive(Debug, PartialEq, Eq)]
pub struct MetadataForm {
    pub title: String,
    pub body: String,
    pub base_branch: String,
}

#[verifier::ext_equal]
pub struct MetadataFormView {
    pub title: Seq<char>,
    pub body: Seq<char>,
    pub base_branch: Seq<char>,
}

impl View for MetadataForm {
    type V = MetadataFormView;

    open spec fn view(&self) -> MetadataFormView {
        MetadataFormView {
            title: self.title@,
            body: self.body@,
            base_branch: self.base_branch@,
        }
    }
}

impl Clone for MetadataForm {
    fn clone(&self) -> (r: Self)
        ensures
            r == *self,
    {
        MetadataForm {
            title: self.title.clone(),
            body: self.body.clone(),
            base_branch: self.base_branch.clone(),
        }
    }
}

impl MetadataForm {
    /// Whether two values agree in every field.
    pub fn same(&self, other: &Self) -> (r: bool)
        ensures
            r == (self@ == other@),
    {
        self.title == other.title
            && self.body == other.body
            && self.base_branch == other.base_branch
    }
}

pub open spec fn optional_metadata_form(x: Option<MetadataForm>) -> Option<MetadataFormView> {
    match x {
        Some(v) => Some(v@),
        None => None,
    }
}

pub fn same_optional_metadata_form(a: &Option<MetadataForm>, b: &Option<MetadataForm>) -> (r: bool)
    ensures
        r == (optional_metadata_form(*a) == optional_metadata_form(*b)),
{
    match (a, b) {
        (Some(x), Some(y)) => x.same(y),
        (None, None) => true,
        _ => false,
    }
}

/// Who is asked for a review: a user or a team.
#[derive(Debug, PartialEq, Eq)]
pub struct PullRequestReviewer {
    pub kind: String,
    pub name: String,
}

#[verifier::ext_equal]
pub struct PullRequestReviewerView {
    pub kind: Seq<char>,
    pub name: Seq<char>,
}

impl View for PullRequestReviewer {
    type V = PullRequestReviewerView;

    open spec fn view(&self) -> PullRequestReviewerView {
        PullRequestReviewerView {
            kind: self.kind@,
            name: self.name@,
        }
    }
}

impl Clone for PullRequestReviewer {
    fn clone(&self) -> (r: Self)
        ensures
            r == *self,
    {
        PullRequestReviewer {
            kind: self.kind.clone(),
            name: self.name.clone(),
        }
    }
}

impl PullRequestReviewer {
    /// Whether two values agree in every field.
    pub fn same(&self, other: &Self) -> (r: bool)
        ensures
            r == (self@ == other@),
    {
        self.kind == other.kind
            && self.name == other.name
    }
}

pub open spec fn pull_request_reviewer_views(s: Seq<PullRequestReviewer>) -> Seq<PullRequestReviewerView> {
    s.map_values(|x: PullRequestReviewer| x@)
}

pub fn clone_pull_request_reviewers(v: &Vec<PullRequestReviewer>) -> (r: Vec<PullRequestReviewer>)
    ensures
        pull_request_reviewer_views(r@) == pull_request_reviewer_views(v@),
{
    let mut out: Vec<PullRequestReviewer> = Vec::new();
    let mut i: usize = 0;
    while i < v.len()
        invariant
            i <= v@.len(),
            out@.len() == i,
            forall|k: int| 0 <= k < i ==> (#[trigger] out@[k])@ == v@[k]@,
        decreases v.len() - i,
    {
        out.push(v[i].clone());
        i += 1;
    }
    proof {
        assert(pull_request_reviewer_views(out@) =~= pull_request_reviewer_views(v@));
    }
    out
}

#[derive(Debug, PartialEq, Eq)]
pub struct IssueComment {
    pub coordinates: ProviderCoordinates,
    pub author: Option<String>,
    pub body: String,
    pub created_at: String,
    pub updated_at: String,
    pub url: String,
}

#[verifier::ext_equal]
pub struct IssueCommentView {
    pub coordinates: ProviderCoordinatesView,
    pub author: Option<Seq<char>>,
    pub body: Seq<char>,
    pub created_at: Seq<char>,
    pub updated_at: Seq<char>,
    pub url: Seq<char>,
}

impl View for IssueComment {
    type V = IssueCommentView;

    open spec fn view(&self) -> IssueCommentView {
        IssueCommentView {
            coordinates: self.coordinates@,
            author: text::option_text(self.author),
            body: self.body@,
            created_at: self.created_at@,
            updated_at: self.updated_at@,
            url: self.url@,
        }
    }
}

impl Clone for IssueComment {
    fn clone(&self) -> (r: Self)
        ensures
            r == *self,
    {
        IssueComment {
            coordinates: self.coordinates.clone(),
            author: self.author.clone(),
            body: self.body.clone(),
            created_at: self.created_at.clone(),
            updated_at: self.updated_at.clone(),
            url: self.url.clone(),
        }
    }
}

impl IssueComment {
    /// Whether two values agree in every field.
    pub fn same(&self, other: &Self) -> (r: bool)
        ensures
            r == (self@ == other@),
    {
        self.coordinates.same(&other.coordinates)
            && text::same_option_text(&self.author, &other.author)
            && self.body == other.body
            && self.created_at == other.created_at
            && self.updated_at == other.updated_at
            && self.url == other.url
    }
}

#[derive(Debug, PartialEq, Eq)]
pub enum DiscussionMode {
    Create,
    Edit { comment: IssueComment, selected_author: String },
}

#[verifier::ext_equal]
pub enum DiscussionModeView {
    Create,
    Edit { comment: IssueCommentView, selected_author: Seq<char> },
}

impl View for DiscussionMode {
    type V = DiscussionModeView;

    open spec fn view(&self) -> DiscussionModeView {
        match self {
            DiscussionMode::Create => DiscussionModeView::Create,
            DiscussionMode::Edit { comment, selected_author } => DiscussionModeView::Edit { comment: comment@, selected_author: selected_author@ },
        }
    }
}

impl Clone for DiscussionMode {
    fn clone(&self) -> (r: Self)
        ensures
            r == *self,
    {
        match self {
            DiscussionMode::Create => DiscussionMode::Create,
            DiscussionMode::Edit { comment, selected_author } => DiscussionMode::Edit { comment: comment.clone(), selected_author: selected_author.clone() },
        }
    }
}

impl DiscussionMode {
    /// Whether two values are the same, with the same fields.
    pub fn same(&self, other: &Self) -> (r: bool)
        ensures
            r == (self@ == other@),
    {
        match (self, other) {
            (DiscussionMode::Create, DiscussionMode::Create) => true,
            (DiscussionMode::Edit { comment: comment_a, selected_author: selected_author_a }, DiscussionMode::Edit { comment: comment_b, selected_author: selected_author_b }) => comment_a.same(comment_b) && text::same_text(selected_author_a, selected_author_b),
            _ => false,
        }
    }
}

/// A comment that is being written.
#[derive(Debug, PartialEq, Eq)]
pub struct DiscussionForm {
    pub mode: DiscussionMode,
    pub body: String,
}

#[verifier::ext_equal]
pub struct DiscussionFormView {
    pub mode: DiscussionModeView,
    pub body: Seq<char>,
}

impl View for DiscussionForm {
    type V = DiscussionFormView;

    open spec fn view(&self) -> DiscussionFormView {
        DiscussionFormView {
            mode: self.mode@,
            body: self.body@,
        }
    }
}

impl Clone for DiscussionForm {
    fn clone(&self) -> (r: Self)
        ensures
            r == *self,
    {
        DiscussionForm {
            mode: self.mode.clone(),
            body: self.body.clone(),
        }
    }
}

impl DiscussionForm {
    /// Whether two values agree in every field.
    pub fn same(&self, other: &Self) -> (r: bool)
        ensures
            r == (self@ == other@),
    {
        self.mode.same(&other.mode)
            && self.body == other.body
    }
}

pub open spec fn optional_discussion_form(x: Option<DiscussionForm>) -> Option<DiscussionFormView> {
    match x {
        Some(v) => Some(v@),
        None => None,
    }
}

/// A change to a pull request, with the value it replaces.
#[derive(Debug, PartialEq, Eq)]
pub enum PullRequestLifecycleAction {
    UpdateTitle { observed: String, value: String },
    UpdateBody { observed: String, value: String },
    UpdateBaseBranch { observed: String, value: String },
    Close,
    Reopen,
    ConvertToDraft,
    MarkReadyForReview,
    AddReviewer(PullRequestReviewer),
    RemoveReviewer(PullRequestReviewer),
    AddLabel(String),
    RemoveLabel(String),
    AddAssignee(String),
    RemoveAssignee(String),
}

#[verifier::ext_equal]
pub enum PullRequestLifecycleActionView {
    UpdateTitle { observed: Seq<char>, value: Seq<char> },
    UpdateBody { observed: Seq<char>, value: Seq<char> },
    UpdateBaseBranch { observed: Seq<char>, value: Seq<char> },
    Close,
    Reopen,
    ConvertToDraft,
    MarkReadyForReview,
    AddReviewer(PullRequestReviewerView),
    RemoveReviewer(PullRequestReviewerView),
    AddLabel(Seq<char>),
    RemoveLabel(Seq<char>),
    AddAssignee(Seq<char>),
    RemoveAssignee(Seq<char>),
}

impl View for PullRequestLifecycleAction {
    type V = PullRequestLifecycleActionView;

    open spec fn view(&self) -> PullRequestLifecycleActionView {
        match self {
            PullRequestLifecycleAction::UpdateTitle { observed, value } => PullRequestLifecycleActionView::UpdateTitle { observed: observed@, value: value@ },
            PullRequestLifecycleAction::UpdateBody { observed, value } => PullRequestLifecycleActionView::UpdateBody { observed: observed@, value: value@ },
            PullRequestLifecycleAction::UpdateBaseBranch { observed, value } => PullRequestLifecycleActionView::UpdateBaseBranch { observed: observed@, value: value@ },
            PullRequestLifecycleAction::Close => PullRequestLifecycleActionView::Close,
            PullRequestLifecycleAction::Reopen => PullRequestLifecycleActionView::Reopen,
            PullRequestLifecycleAction::ConvertToDraft => PullRequestLifecycleActionView::ConvertToDraft,
            PullRequestLifecycleAction::MarkReadyForReview => PullRequestLifecycleActionView::MarkReadyForReview,
            PullRequestLifecycleAction::AddReviewer(x0) => PullRequestLifecycleActionView::AddReviewer(x0@),
            PullRequestLifecycleAction::RemoveReviewer(x0) => PullRequestLifecycleActionView::RemoveReviewer(x0@),
            PullRequestLifecycleAction::AddLabel(x0) => PullRequestLifecycleActionView::AddLabel(x0@),
            PullRequestLifecycleAction::RemoveLabel(x0) => PullRequestLifecycleActionView::RemoveLabel(x0@),
            PullRequestLifecycleAction::AddAssignee(x0) => PullRequestLifecycleActionView::AddAssignee(x0@),
            PullRequestLifecycleAction::RemoveAssignee(x0) => PullRequestLifecycleActionView::RemoveAssignee(x0@),
        }
    }
}

impl Clone for PullRequestLifecycleAction {
    fn clone(&self) -> (r: Self)
        ensures
            r == *self,
    {
        match self {
            PullRequestLifecycleAction::UpdateTitle { observed, value } => PullRequestLifecycleAction::UpdateTitle { observed: observed.clone(), value: value.clone() },
            PullRequestLifecycleAction::UpdateBody { observed, value } => PullRequestLifecycleAction::UpdateBody { observed: observed.clone(), value: value.clone() },
            PullRequestLifecycleAction::UpdateBaseBranch { observed, value } => PullRequestLifecycleAction::UpdateBaseBranch { observed: observed.clone(), value: value.clone() },
            PullRequestLifecycleAction::Close => PullRequestLifecycleAction::Close,
            PullRequestLifecycleAction::Reopen => PullRequestLifecycleAction::Reopen,
            PullRequestLifecycleAction::ConvertToDraft => PullRequestLifecycleAction::ConvertToDraft,
            PullRequestLifecycleAction::MarkReadyForReview => PullRequestLifecycleAction::MarkReadyForReview,
            PullRequestLifecycleAction::AddReviewer(x0) => PullRequestLifecycleAction::AddReviewer(x0.clone()),
            PullRequestLifecycleAction::RemoveReviewer(x0) => PullRequestLifecycleAction::RemoveReviewer(x0.clone()),
            PullRequestLifecycleAction::AddLabel(x0) => PullRequestLifecycleAction::AddLabel(x0.clone()),
            PullRequestLifecycleAction::RemoveLabel(x0) => PullRequestLifecycleAction::RemoveLabel(x0.clone()),
            PullRequestLifecycleAction::AddAssignee(x0) => PullRequestLifecycleAction::AddAssignee(x0.clone()),
            PullRequestLifecycleAction::RemoveAssignee(x0) => PullRequestLifecycleAction::RemoveAssignee(x0.clone()),
        }
    }
}

impl PullRequestLifecycleAction {
    /// Whether two values are the same, with the same fields.
    pub fn same(&self, other: &Self) -> (r: bool)
        ensures
            r == (self@ == other@),
    {
        match (self, other) {
            (PullRequestLifecycleAction::UpdateTitle { observed: observed_a, value: value_a }, PullRequestLifecycleAction::UpdateTitle { observed: observed_b, value: value_b }) => text::same_text(observed_a, observed_b) && text::same_text(value_a, value_b),
            (PullRequestLifecycleAction::UpdateBody { observed: observed_a, value: value_a }, PullRequestLifecycleAction::UpdateBody { observed: observed_b, value: value_b }) => text::same_text(observed_a, observed_b) && text::same_text(value_a, value_b),
            (PullRequestLifecycleAction::UpdateBaseBranch { observed: observed_a, value: value_a }, PullRequestLifecycleAction::UpdateBaseBranch { observed: observed_b, value: value_b }) => text::same_text(observed_a, observed_b) && text::same_text(value_a, value_b),
            (PullRequestLifecycleAction::Close, PullRequestLifecycleAction::Close) => true,
            (PullRequestLifecycleAction::Reopen, PullRequestLifecycleAction::Reopen) => true,
            (PullRequestLifecycleAction::ConvertToDraft, PullRequestLifecycleAction::ConvertToDraft) => true,
            (PullRequestLifecycleAction::MarkReadyForReview, PullRequestLifecycleAction::MarkReadyForReview) => true,
            (PullRequestLifecycleAction::AddReviewer(x0_a), PullRequestLifecycleAction::AddReviewer(x0_b)) => x0_a.same(x0_b),
            (PullRequestLifecycleAction::RemoveReviewer(x0_a), PullRequestLifecycleAction::RemoveReviewer(x0_b)) => x0_a.same(x0_b),
            (PullRequestLifecycleAction::AddLabel(x0_a), PullRequestLifecycleAction::AddLabel(x0_b)) => text::same_text(x0_a, x0_b),
            (PullRequestLifecycleAction::RemoveLabel(x0_a), PullRequestLifecycleAction::RemoveLabel(x0_b)) => text::same_text(x0_a, x0_b),
            (PullRequestLifecycleAction::AddAssignee(x0_a), PullRequestLifecycleAction::AddAssignee(x0_b)) => text::same_text(x0_a, x0_b),
            (PullRequestLifecycleAction::RemoveAssignee(x0_a), PullRequestLifecycleAction::RemoveAssignee(x0_b)) => text::same_text(x0_a, x0_b),
            _ => false,
        }
    }
}

/// The pull request that a change is for, as it was observed.
#[derive(Debug, PartialEq, Eq)]
pub struct PullRequestMutationTarget {
    pub repository: Repository,
    pub pull_request: ProviderCoordinates,
    pub observed_updated_at: String,
    pub observed_state: String,
    pub observed_head_sha: String,
}

#[verifier::ext_equal]
pub struct PullRequestMutationTargetView {
    pub repository: RepositoryView,
    pub pull_request: ProviderCoordinatesView,
    pub observed_updated_at: Seq<char>,
    pub observed_state: Seq<char>,
    pub observed_head_sha: Seq<char>,
}

impl View for PullRequestMutationTarget {
    type V = PullRequestMutationTargetView;

    open spec fn view(&self) -> PullRequestMutationTargetView {
        PullRequestMutationTargetView {
            repository: self.repository@,
            pull_request: self.pull_request@,
            observed_updated_at: self.observed_updated_at@,
            observed_state: self.observed_state@,
            observed_head_sha: self.observed_head_sha@,
        }
    }
}

impl Clone for PullRequestMutationTarget {
    fn clone(&self) -> (r: Self)
        ensures
            r == *self,
    {
        PullRequestMutationTarget {
            repository: self.repository.clone(),
            pull_request: self.pull_request.clone(),
            observed_updated_at: self.observed_updated_at.clone(),
            observed_state: self.observed_state.clone(),
            observed_head_sha: self.observed_head_sha.clone(),
        }
    }
}

impl PullRequestMutationTarget {
    /// Whether two values agree in every field.
    pub fn same(&self, other: &Self) -> (r: bool)
        ensures
            r == (self@ == other@),
    {
        self.repository.same(&other.repository)
            && self.pull_request.same(&other.pull_request)
            && self.observed_updated_at == other.observed_updated_at
            && self.observed_state == other.observed_state
            && self.observed_head_sha == other.observed_head_sha
    }
}

#[derive(Debug, PartialEq, Eq)]
pub struct PullRequestLifecycleRequest {
    pub operation_id: String,
    pub attempt_id: String,
    pub target: PullRequestMutationTarget,
    pub action: PullRequestLifecycleAction,
}

#[verifier::ext_equal]
pub struct PullRequestLifecycleRequestView {
    pub operation_id: Seq<char>,
    pub attempt_id: Seq<char>,
    pub target: PullRequestMutationTargetView,
    pub action: PullRequestLifecycleActionView,
}

impl View for PullRequestLifecycleRequest {
    type V = PullRequestLifecycleRequestView;

    open spec fn view(&self) -> PullRequestLifecycleRequestView {
        PullRequestLifecycleRequestView {
            operation_id: self.operation_id@,
            attempt_id: self.attempt_id@,
            target: self.target@,
            action: self.action@,
        }
    }
}

impl Clone for PullRequestLifecycleRequest {
    fn clone(&self) -> (r: Self)
        ensures
            r == *self,
    {
        PullRequestLifecycleRequest {
            operation_id: self.operation_id.clone(),
            attempt_id: self.attempt_id.clone(),
            target: self.target.clone(),
            action: self.action.clone(),
        }
    }
}

impl PullRequestLifecycleRequest {
    /// Whether two values agree in every field.
    pub fn same(&self, other: &Self) -> (r: bool)
        ensures
            r == (self@ == other@),
    {
        self.operation_id == other.operation_id
            && self.attempt_id == other.attempt_id
            && self.target.same(&other.target)
            && self.action.same(&other.action)
    }
}

#[derive(Debug, PartialEq, Eq)]
pub enum PullRequestDiscussionAction {
    Create { body: String },
    Edit { comment: ProviderCoordinates, selected_author: String, observed_body: String, observed_updated_at: String, body: String },
    Delete { comment: ProviderCoordinates, selected_author: String, observed_body: String, observed_updated_at: String },
}

#[verifier::ext_equal]
pub enum PullRequestDiscussionActionView {
    Create { body: Seq<char> },
    Edit { comment: ProviderCoordinatesView, selected_author: Seq<char>, observed_body: Seq<char>, observed_updated_at: Seq<char>, body: Seq<char> },
    Delete { comment: ProviderCoordinatesView, selected_author: Seq<char>, observed_body: Seq<char>, observed_updated_at: Seq<char> },
}

impl View for PullRequestDiscussionAction {
    type V = PullRequestDiscussionActionView;

    open spec fn view(&self) -> PullRequestDiscussionActionView {
        match self {
            PullRequestDiscussionAction::Create { body } => PullRequestDiscussionActionView::Create { body: body@ },
            PullRequestDiscussionAction::Edit { comment, selected_author, observed_body, observed_updated_at, body } => PullRequestDiscussionActionView::Edit { comment: comment@, selected_author: selected_author@, observed_body: observed_body@, observed_updated_at: observed_updated_at@, body: body@ },
            PullRequestDiscussionAction::Delete { comment, selected_author, observed_body, observed_updated_at } => PullRequestDiscussionActionView::Delete { comment: comment@, selected_author: selected_author@, observed_body: observed_body@, observed_updated_at: observed_updated_at@ },
        }
    }
}

impl Clone for PullRequestDiscussionAction {
    fn clone(&self) -> (r: Self)
        ensures
            r == *self,
    {
        match self {
            PullRequestDiscussionAction::Create { body } => PullRequestDiscussionAction::Create { body: body.clone() },
            PullRequestDiscussionAction::Edit { comment, selected_author, observed_body, observed_updated_at, body } => PullRequestDiscussionAction::Edit { comment: comment.clone(), selected_author: selected_author.clone(), observed_body: observed_body.clone(), observed_updated_at: observed_updated_at.clone(), body: body.clone() },
            PullRequestDiscussionAction::Delete { comment, selected_author, observed_body, observed_updated_at } => PullRequestDiscussionAction::Delete { comment: comment.clone(), selected_author: selected_author.clone(), observed_body: observed_body.clone(), observed_updated_at: observed_updated_at.clone() },
        }
    }
}

impl PullRequestDiscussionAction {
    /// Whether two values are the same, with the same fields.
    pub fn same(&self, other: &Self) -> (r: bool)
        ensures
            r == (self@ == other@),
    {
        match (self, other) {
            (PullRequestDiscussionAction::Create { body: body_a }, PullRequestDiscussionAction::Create { body: body_b }) => text::same_text(body_a, body_b),
            (PullRequestDiscussionAction::Edit { comment: comment_a, selected_author: selected_author_a, observed_body: observed_body_a, observed_updated_at: observed_updated_at_a, body: body_a }, PullRequestDiscussionAction::Edit { comment: comment_b, selected_author: selected_author_b, observed_body: observed_body_b, observed_updated_at: observed_updated_at_b, body: body_b }) => comment_a.same(comment_b) && text::same_text(selected_author_a, selected_author_b) && text::same_text(observed_body_a, observed_body_b) && text::same_text(observed_updated_at_a, observed_updated_at_b) && text::same_text(body_a, body_b),
            (PullRequestDiscussionAction::Delete { comment: comment_a, selected_author: selected_author_a, observed_body: observed_body_a, observed_updated_at: observed_updated_at_a }, PullRequestDiscussionAction::Delete { comment: comment_b, selected_author: selected_author_b, observed_body: observed_body_b, observed_updated_at: observed_updated_at_b }) => comment_a.same(comment_b) && text::same_text(selected_author_a, selected_author_b) && text::same_text(observed_body_a, observed_body_b) && text::same_text(observed_updated_at_a, observed_updated_at_b),
            _ => false,
        }
    }
}

#[derive(Debug, PartialEq, Eq)]
pub struct PullRequestDiscussionRequest {
    pub operation_id: String,
    pub attempt_id: String,
    pub target: PullRequestMutationTarget,
    pub action: PullRequestDiscussionAction,
}

#[verifier::ext_equal]
pub struct PullRequestDiscussionRequestView {
    pub operation_id: Seq<char>,
    pub attempt_id: Seq<char>,
    pub target: PullRequestMutationTargetView,
    pub action: PullRequestDiscussionActionView,
}

impl View for PullRequestDiscussionRequest {
    type V = PullRequestDiscussionRequestView;

    open spec fn view(&self) -> PullRequestDiscussionRequestView {
        PullRequestDiscussionRequestView {
            operation_id: self.operation_id@,
            attempt_id: self.attempt_id@,
            target: self.target@,
            action: self.action@,
        }
    }
}

impl Clone for PullRequestDiscussionRequest {
    fn clone(&self) -> (r: Self)
        ensures
            r == *self,
    {
        PullRequestDiscussionRequest {
            operation_id: self.operation_id.clone(),
            attempt_id: self.attempt_id.clone(),
            target: self.target.clone(),
            action: self.action.clone(),
        }
    }
}

impl PullRequestDiscussionRequest {
    /// Whether two values agree in every field.
    pub fn same(&self, other: &Self) -> (r: bool)
        ensures
            r == (self@ == other@),
    {
        self.operation_id == other.operation_id
            && self.attempt_id == other.attempt_id
            && self.target.same(&other.target)
            && self.action.same(&other.action)
    }
}

/// A pull request as it was read, with what the account may do to it.
#[derive(Debug, PartialEq, Eq)]
pub struct PullRequestLifecycleSnapshot {
    pub repository: Repository,
    pub pull_request: ProviderCoordinates,
    pub updated_at: String,
    pub state: String,
    pub head_sha: String,
    pub title: String,
    pub body: String,
    pub base_branch: String,
    pub draft: bool,
    pub reviewers: Vec<PullRequestReviewer>,
    pub assignees: Vec<String>,
    pub labels: Vec<String>,
    pub viewer_login: String,
    pub viewer_permission: Option<String>,
    pub can_update_metadata: ProviderCapability,
    pub can_change_state: ProviderCapability,
    pub can_change_draft: ProviderCapability,
    pub can_request_reviewers: ProviderCapability,
    pub can_change_labels: ProviderCapability,
    pub can_change_assignees: ProviderCapability,
    pub can_comment: ProviderCapability,
    pub values_complete: bool,
    pub capabilities_complete: bool,
    pub notice: Option<String>,
}

#[verifier::ext_equal]
pub struct PullRequestLifecycleSnapshotView {
    pub repository: RepositoryView,
    pub pull_request: ProviderCoordinatesView,
    pub updated_at: Seq<char>,
    pub state: Seq<char>,
    pub head_sha: Seq<char>,
    pub title: Seq<char>,
    pub body: Seq<char>,
    pub base_branch: Seq<char>,
    pub draft: bool,
    pub reviewers: Seq<PullRequestReviewerView>,
    pub assignees: Seq<Seq<char>>,
    pub labels: Seq<Seq<char>>,
    pub viewer_login: Seq<char>,
    pub viewer_permission: Option<Seq<char>>,
    pub can_update_metadata: ProviderCapabilityView,
    pub can_change_state: ProviderCapabilityView,
    pub can_change_draft: ProviderCapabilityView,
    pub can_request_reviewers: ProviderCapabilityView,
    pub can_change_labels: ProviderCapabilityView,
    pub can_change_assignees: ProviderCapabilityView,
    pub can_comment: ProviderCapabilityView,
    pub values_complete: bool,
    pub capabilities_complete: bool,
    pub notice: Option<Seq<char>>,
}

impl View for PullRequestLifecycleSnapshot {
    type V = PullRequestLifecycleSnapshotView;

    open spec fn view(&self) -> PullRequestLifecycleSnapshotView {
        PullRequestLifecycleSnapshotView {
            repository: self.repository@,
            pull_request: self.pull_request@,
            updated_at: self.updated_at@,
            state: self.state@,
            head_sha: self.head_sha@,
            title: self.title@,
            body: self.body@,
            base_branch: self.base_branch@,
            draft: self.draft,
            reviewers: pull_request_reviewer_views(self.reviewers@),
            assignees: text::texts(self.assignees@),
            labels: text::texts(self.labels@),
            viewer_login: self.viewer_login@,
            viewer_permission: text::option_text(self.viewer_permission),
            can_update_metadata: self.can_update_metadata@,
            can_change_state: self.can_change_state@,
            can_change_draft: self.can_change_draft@,
            can_request_reviewers: self.can_request_reviewers@,
            can_change_labels: self.can_change_labels@,
            can_change_assignees: self.can_change_assignees@,
            can_comment: self.can_comment@,
            values_complete: self.values_complete,
            capabilities_complete: self.capabilities_complete,
            notice: text::option_text(self.notice),
        }
    }
}

impl Clone for PullRequestLifecycleSnapshot {
    fn clone(&self) -> (r: Self)
        ensures
            r@ == self@,
    {
        PullRequestLifecycleSnapshot {
            repository: self.repository.clone(),
            pull_request: self.pull_request.clone(),
            updated_at: self.updated_at.clone(),
            state: self.state.clone(),
            head_sha: self.head_sha.clone(),
            title: self.title.clone(),
            body: self.body.clone(),
            base_branch: self.base_branch.clone(),
            draft: self.draft,
            reviewers: clone_pull_request_reviewers(&self.reviewers),
            assignees: text::clone_texts(&self.assignees),
            labels: text::clone_texts(&self.labels),
            viewer_login: self.viewer_login.clone(),
            viewer_permission: self.viewer_permission.clone(),
            can_update_metadata: self.can_update_metadata.clone(),
            can_change_state: self.can_change_state.clone(),
            can_change_draft: self.can_change_draft.clone(),
            can_request_reviewers: self.can_request_reviewers.clone(),
            can_change_labels: self.can_change_labels.clone(),
            can_change_assignees: self.can_change_assignees.clone(),
            can_comment: self.can_comment.clone(),
            values_complete: self.values_complete,
            capabilities_complete: self.capabilities_complete,
            notice: self.notice.clone(),
        }
    }
}

pub open spec fn optional_pull_request_lifecycle_snapshot(x: Option<PullRequestLifecycleSnapshot>) -> Option<PullRequestLifecycleSnapshotView> {
    match x {
        Some(v) => Some(v@),
        None => None,
    }
}

/// A change as it is to be confirmed, with what was visible when it was asked for.
#[derive(Debug, PartialEq, Eq)]
pub enum FrozenMutation {
    Lifecycle { request: PullRequestLifecycleRequest, form_witness: Option<MetadataForm>, summary: String },
    Discussion { request: PullRequestDiscussionRequest, body_witness: Option<String>, summary: String },
}

#[verifier::ext_equal]
pub enum FrozenMutationView {
    Lifecycle { request: PullRequestLifecycleRequestView, form_witness: Option<MetadataFormView>, summary: Seq<char> },
    Discussion { request: PullRequestDiscussionRequestView, body_witness: Option<Seq<char>>, summary: Seq<char> },
}

impl View for FrozenMutation {
    type V = FrozenMutationView;

    open spec fn view(&self) -> FrozenMutationView {
        match self {
            FrozenMutation::Lifecycle { request, form_witness, summary } => FrozenMutationView::Lifecycle { request: request@, form_witness: optional_metadata_form(*form_witness), summary: summary@ },
            FrozenMutation::Discussion { request, body_witness, summary } => FrozenMutationView::Discussion { request: request@, body_witness: text::option_text(*body_witness), summary: summary@ },
        }
    }
}

impl Clone for FrozenMutation {
    fn clone(&self) -> (r: Self)
        ensures
            r == *self,
    {
        match self {
            FrozenMutation::Lifecycle { request, form_witness, summary } => FrozenMutation::Lifecycle { request: request.clone(), form_witness: form_witness.clone(), summary: summary.clone() },
            FrozenMutation::Discussion { request, body_witness, summary } => FrozenMutation::Discussion { request: request.clone(), body_witness: body_witness.clone(), summary: summary.clone() },
        }
    }
}

impl FrozenMutation {
    /// Whether two values are the same, with the same fields.
    pub fn same(&self, other: &Self) -> (r: bool)
        ensures
            r == (self@ == other@),
    {
        match (self, other) {
            (FrozenMutation::Lifecycle { request: request_a, form_witness: form_witness_a, summary: summary_a }, FrozenMutation::Lifecycle { request: request_b, form_witness: form_witness_b, summary: summary_b }) => request_a.same(request_b) && same_optional_metadata_form(form_witness_a, form_witness_b) && text::same_text(summary_a, summary_b),
            (FrozenMutation::Discussion { request: request_a, body_witness: body_witness_a, summary: summary_a }, FrozenMutation::Discussion { request: request_b, body_witness: body_witness_b, summary: summary_b }) => request_a.same(request_b) && text::same_option_text(body_witness_a, body_witness_b) && text::same_text(summary_a, summary_b),
            _ => false,
        }
    }
}

pub open spec fn optional_frozen_mutation(x: Option<FrozenMutation>) -> Option<FrozenMutationView> {
    match x {
        Some(v) => Some(v@),
        None => None,
    }
}

/// The values that can be chosen in one repository.
pub struct PullRequestLifecycleChoices {
    pub repository: Repository,
    pub branches: ProviderChoiceSet,
    pub labels: ProviderChoiceSet,
    pub assignees: ProviderChoiceSet,
    pub reviewer_users: ProviderChoiceSet,
    pub reviewer_teams: ProviderChoiceSet,
}

#[derive(Clone, Copy, Debug, PartialEq, Eq, Structural)]
pub enum ChoiceKind {
    Branch,
    Label,
    Assignee,
    ReviewerUser,
    ReviewerTeam,
}

pub struct PrLifecycleController {
    pub repository: Repository,
    pub pull_request: u64,
    pub snapshot: Option<PullRequestLifecycleSnapshot>,
    pub choices: Option<PullRequestLifecycleChoices>,
    pub metadata_form: Option<MetadataForm>,
    pub editing_metadata: bool,
    pub discussion_form: Option<DiscussionForm>,
    pub confirmation: Option<FrozenMutation>,
    pub active_operation: Option<String>,
    pub notice: Option<String>,
}

#[verifier::ext_equal]
pub struct PrLifecycleControllerView {
    pub repository: RepositoryView,
    pub pull_request: u64,
    pub snapshot: Option<PullRequestLifecycleSnapshotView>,
    pub choices: Option<PullRequestLifecycleChoices>,
    pub metadata_form: Option<MetadataFormView>,
    pub editing_metadata: bool,
    pub discussion_form: Option<DiscussionFormView>,
    pub confirmation: Option<FrozenMutationView>,
    pub active_operation: Option<Seq<char>>,
    pub notice: Option<Seq<char>>,
}

impl View for PrLifecycleController {
    type V = PrLifecycleControllerView;

    open spec fn view(&self) -> PrLifecycleControllerView {
        PrLifecycleControllerView {
            repository: self.repository@,
            pull_request: self.pull_request,
            snapshot: optional_pull_request_lifecycle_snapshot(self.snapshot),
            choices: self.choices,
            metadata_form: optional_metadata_form(self.metadata_form),
            editing_metadata: self.editing_metadata,
            discussion_form: optional_discussion_form(self.discussion_form),
            confirmation: optional_frozen_mutation(self.confirmation),
            active_operation: text::option_text(self.active_operation),
            notice: text::option_text(self.notice),
        }
    }
}

impl FrozenMutation {
    pub fn operation_id(&self) -> (r: &str)
        ensures
            r@ == operation_of(self@),
    {
        match self {
            FrozenMutation::Lifecycle { request, .. } => &request.operation_id,
            FrozenMutation::Discussion { request, .. } => &request.operation_id,
        }
    }

    pub fn summary(&self) -> (r: &str)
        ensures
            r@ == summary_of(self@),
    {
        match self {
            FrozenMutation::Lifecycle { summary, .. } => summary,
            FrozenMutation::Discussion { summary, .. } => summary,
        }
    }
}

pub open spec fn operation_of(m: FrozenMutationView) -> Seq<char> {
    match m {
        FrozenMutationView::Lifecycle { request, .. } => request.operation_id,
        FrozenMutationView::Discussion { request, .. } => request.operation_id,
    }
}

pub open spec fn summary_of(m: FrozenMutationView) -> Seq<char> {
    match m {
        FrozenMutationView::Lifecycle { summary, .. } => summary,
        FrozenMutationView::Discussion { summary, .. } => summary,
    }
}

// ---------------------------------------------------------------------------
// Checks and texts

pub open spec fn form_of(snapshot: PullRequestLifecycleSnapshotView) -> MetadataFormView {
    MetadataFormView {
        title: snapshot.title,
        body: snapshot.body,
        base_branch: snapshot.base_branch,
    }
}

fn form_from_snapshot(snapshot: &PullRequestLifecycleSnapshot) -> (r: MetadataForm)
    ensures
        r@ == form_of(snapshot@),
{
    MetadataForm {
        title: snapshot.title.clone(),
        body: snapshot.body.clone(),
        base_branch: snapshot.base_branch.clone(),
    }
}

pub open spec fn metadata_fault(form: MetadataFormView) -> Option<Seq<char>> {
    if text::trimmed(form.title).len() == 0 {
        Some("Title cannot be empty."@)
    } else if text::trimmed(form.base_branch).len() == 0 {
        Some("Base branch cannot be empty."@)
    } else if text::byte_len(form.title) > MAX_FORM_BYTES || text::byte_len(form.body)
        > MAX_FORM_BYTES || text::byte_len(form.base_branch) > MAX_FORM_BYTES {
        Some("Metadata form exceeds its bounded size."@)
    } else {
        None
    }
}

pub fn validate_form(form: &MetadataForm) -> (r: Result<(), String>)
    ensures
        fault_of(r) == metadata_fault(form@),
{
    if text::trim(&form.title).as_str().is_empty() {
        return Err("Title cannot be empty.".to_owned());
    }
    if text::trim(&form.base_branch).as_str().is_empty() {
        return Err("Base branch cannot be empty.".to_owned());
    }
    if text::byte_length(&form.title) > MAX_FORM_BYTES || text::byte_length(&form.body)
        > MAX_FORM_BYTES || text::byte_length(&form.base_branch) > MAX_FORM_BYTES {
        return Err("Metadata form exceeds its bounded size.".to_owned());
    }
    Ok(())
}

pub open spec fn fault_of(r: Result<(), String>) -> Option<Seq<char>> {
    match r {
        Ok(_) => None,
        Err(e) => Some(e@),
    }
}

pub open spec fn body_fault(body: Seq<char>) -> Option<Seq<char>> {
    if text::trimmed(body).len() == 0 {
        Some("Comment body cannot be empty."@)
    } else if text::byte_len(body) > MAX_FORM_BYTES {
        Some("Comment body exceeds its bounded size."@)
    } else {
        None
    }
}

pub fn validate_body(body: &str) -> (r: Result<(), String>)
    ensures
        fault_of(r) == body_fault(body@),
{
    if text::trim(body).as_str().is_empty() {
        return Err("Comment body cannot be empty.".to_owned());
    }
    if text::byte_length(body) > MAX_FORM_BYTES {
        return Err("Comment body exceeds its bounded size.".to_owned());
    }
    Ok(())
}

pub open spec fn reason_of(label: Seq<char>, reason: Option<Seq<char>>) -> Seq<char> {
    label + ": "@ + (match reason {
        Some(r) => r,
        None => "the selected-account capability read was incomplete; refresh before retrying"@,
    })
}

fn capability_reason(label: &str, reason: &Option<String>) -> (r: String)
    ensures
        r@ == reason_of(label@, text::option_text(*reason)),
{
    let mut out: String = label.to_owned();
    out.append(": ");
    match reason {
        Some(s) => out.append(s),
        None => out.append(
            "the selected-account capability read was incomplete; refresh before retrying",
        ),
    }
    out
}

/// What a change needs, and how it is called.
pub open spec fn needed_capability(
    snapshot: PullRequestLifecycleSnapshotView,
    action: PullRequestLifecycleActionView,
) -> (Seq<char>, ProviderCapabilityView) {
    match action {
        PullRequestLifecycleActionView::UpdateTitle { .. } => (
            "Metadata change"@,
            snapshot.can_update_metadata,
        ),
        PullRequestLifecycleActionView::UpdateBody { .. } => (
            "Metadata change"@,
            snapshot.can_update_metadata,
        ),
        PullRequestLifecycleActionView::UpdateBaseBranch { .. } => (
            "Metadata change"@,
            snapshot.can_update_metadata,
        ),
        PullRequestLifecycleActionView::Close => ("State change"@, snapshot.can_change_state),
        PullRequestLifecycleActionView::Reopen => ("State change"@, snapshot.can_change_state),
        PullRequestLifecycleActionView::ConvertToDraft => (
            "Draft-state change"@,
            snapshot.can_change_draft,
        ),
        PullRequestLifecycleActionView::MarkReadyForReview => (
            "Draft-state change"@,
            snapshot.can_change_draft,
        ),
        PullRequestLifecycleActionView::AddReviewer(_) => (
            "Review-request change"@,
            snapshot.can_request_reviewers,
        ),
        PullRequestLifecycleActionView::RemoveReviewer(_) => (
            "Review-request change"@,
            snapshot.can_request_reviewers,
        ),
        PullRequestLifecycleActionView::AddLabel(_) => (
            "Label change"@,
            snapshot.can_change_labels,
        ),
        PullRequestLifecycleActionView::RemoveLabel(_) => (
            "Label change"@,
            snapshot.can_change_labels,
        ),
        PullRequestLifecycleActionView::AddAssignee(_) => (
            "Assignee change"@,
            snapshot.can_change_assignees,
        ),
        PullRequestLifecycleActionView::RemoveAssignee(_) => (
            "Assignee change"@,
            snapshot.can_change_assignees,
        ),
    }
}

pub open spec fn capability_fault(
    snapshot: PullRequestLifecycleSnapshotView,
    action: PullRequestLifecycleActionView,
) -> Option<Seq<char>> {
    let (label, capability) = needed_capability(snapshot, action);
    if capability.available {
        None
    } else {
        Some(reason_of(label, capability.reason))
    }
}

pub fn validate_action_capability(
    snapshot: &PullRequestLifecycleSnapshot,
    action: &PullRequestLifecycleAction,
) -> (r: Result<(), String>)
    ensures
        fault_of(r) == capability_fault(snapshot@, action@),
{
    let (label, capability): (&str, &ProviderCapability) = match action {
        PullRequestLifecycleAction::UpdateTitle { .. } => (
            "Metadata change",
            &snapshot.can_update_metadata,
        ),
        PullRequestLifecycleAction::UpdateBody { .. } => (
            "Metadata change",
            &snapshot.can_update_metadata,
        ),
        PullRequestLifecycleAction::UpdateBaseBranch { .. } => (
            "Metadata change",
            &snapshot.can_update_metadata,
        ),
        PullRequestLifecycleAction::Close => ("State change", &snapshot.can_change_state),
        PullRequestLifecycleAction::Reopen => ("State change", &snapshot.can_change_state),
        PullRequestLifecycleAction::ConvertToDraft => (
            "Draft-state change",
            &snapshot.can_change_draft,
        ),
        PullRequestLifecycleAction::MarkReadyForReview => (
            "Draft-state change",
            &snapshot.can_change_draft,
        ),
        PullRequestLifecycleAction::AddReviewer(_) => (
            "Review-request change",
            &snapshot.can_request_reviewers,
        ),
        PullRequestLifecycleAction::RemoveReviewer(_) => (
            "Review-request change",
            &snapshot.can_request_reviewers,
        ),
        PullRequestLifecycleAction::AddLabel(_) => ("Label change", &snapshot.can_change_labels),
        PullRequestLifecycleAction::RemoveLabel(_) => (
            "Label change",
            &snapshot.can_change_labels,
        ),
        PullRequestLifecycleAction::AddAssignee(_) => (
            "Assignee change",
            &snapshot.can_change_assignees,
        ),
        PullRequestLifecycleAction::RemoveAssignee(_) => (
            "Assignee change",
            &snapshot.can_change_assignees,
        ),
    };
    if capability.available {
        Ok(())
    } else {
        Err(capability_reason(label, &capability.reason))
    }
}

/// A value and what it becomes.
pub open spec fn change_of(field: Seq<char>, observed: Seq<char>, value: Seq<char>) -> Seq<char> {
    field + text::debug_of(observed) + " → "@ + text::debug_of(value)
}

fn change_text(field: &str, observed: &str, value: &str) -> (r: String)
    ensures
        r@ == change_of(field@, observed@, value@),
{
    let mut out: String = field.to_owned();
    out.append(&text::debug_text(observed));
    out.append(" → ");
    out.append(&text::debug_text(value));
    out
}

pub open spec fn lifecycle_summary_of(action: PullRequestLifecycleActionView) -> Seq<char> {
    match action {
        PullRequestLifecycleActionView::UpdateTitle { observed, value } => change_of(
            "Title: "@,
            observed,
            value,
        ),
        PullRequestLifecycleActionView::UpdateBody { observed, value } => change_of(
            "Body: "@,
            observed,
            value,
        ),
        PullRequestLifecycleActionView::UpdateBaseBranch { observed, value } => change_of(
            "Base branch: "@,
            observed,
            value,
        ),
        PullRequestLifecycleActionView::Close => "Close this exact open PR snapshot"@,
        PullRequestLifecycleActionView::Reopen => "Reopen this exact closed PR snapshot"@,
        PullRequestLifecycleActionView::ConvertToDraft => "Convert this exact ready PR snapshot to draft"@,
        PullRequestLifecycleActionView::MarkReadyForReview => "Mark this exact draft PR snapshot ready for review"@,
        PullRequestLifecycleActionView::AddReviewer(who) => "Add "@ + who.kind + " review request "@
            + who.name,
        PullRequestLifecycleActionView::RemoveReviewer(who) => "Remove "@ + who.kind
            + " review request "@ + who.name,
        PullRequestLifecycleActionView::AddLabel(label) => "Add label "@ + text::debug_of(label),
        PullRequestLifecycleActionView::RemoveLabel(label) => "Remove label "@ + text::debug_of(
            label,
        ),
        PullRequestLifecycleActionView::AddAssignee(login) => "Add assignee "@ + login,
        PullRequestLifecycleActionView::RemoveAssignee(login) => "Remove assignee "@ + login,
    }
}

fn four(a: &str, b: &str, c: &str, d: &str) -> (r: String)
    ensures
        r@ == a@ + b@ + c@ + d@,
{
    let mut out: String = a.to_owned();
    out.append(b);
    out.append(c);
    out.append(d);
    out
}

fn two(a: &str, b: &str) -> (r: String)
    ensures
        r@ == a@ + b@,
{
    let mut out: String = a.to_owned();
    out.append(b);
    out
}

pub fn lifecycle_summary(action: &PullRequestLifecycleAction) -> (r: String)
    ensures
        r@ == lifecycle_summary_of(action@),
{
    match action {
        PullRequestLifecycleAction::UpdateTitle { observed, value } => change_text(
            "Title: ",
            observed,
            value,
        ),
        PullRequestLifecycleAction::UpdateBody { observed, value } => change_text(
            "Body: ",
            observed,
            value,
        ),
        PullRequestLifecycleAction::UpdateBaseBranch { observed, value } => change_text(
            "Base branch: ",
            observed,
            value,
        ),
        PullRequestLifecycleAction::Close => "Close this exact open PR snapshot".to_owned(),
        PullRequestLifecycleAction::Reopen => "Reopen this exact closed PR snapshot".to_owned(),
        PullRequestLifecycleAction::ConvertToDraft => "Convert this exact ready PR snapshot to draft".to_owned(),
        PullRequestLifecycleAction::MarkReadyForReview => "Mark this exact draft PR snapshot ready for review".to_owned(),
        PullRequestLifecycleAction::AddReviewer(who) => four(
            "Add ",
            &who.kind,
            " review request ",
            &who.name,
        ),
        PullRequestLifecycleAction::RemoveReviewer(who) => four(
            "Remove ",
            &who.kind,
            " review request ",
            &who.name,
        ),
        PullRequestLifecycleAction::AddLabel(label) => two("Add label ", &text::debug_text(label)),
        PullRequestLifecycleAction::RemoveLabel(label) => two(
            "Remove label ",
            &text::debug_text(label),
        ),
        PullRequestLifecycleAction::AddAssignee(login) => two("Add assignee ", login),
        PullRequestLifecycleAction::RemoveAssignee(login) => two("Remove assignee ", login),
    }
}

pub open spec fn target_of(snapshot: PullRequestLifecycleSnapshotView) -> PullRequestMutationTargetView {
    PullRequestMutationTargetView {
        repository: snapshot.repository,
        pull_request: snapshot.pull_request,
        observed_updated_at: snapshot.updated_at,
        observed_state: snapshot.state,
        observed_head_sha: snapshot.head_sha,
    }
}

fn mutation_target(snapshot: &PullRequestLifecycleSnapshot) -> (r: PullRequestMutationTarget)
    ensures
        r@ == target_of(snapshot@),
{
    PullRequestMutationTarget {
        repository: snapshot.repository.clone(),
        pull_request: snapshot.pull_request.clone(),
        observed_updated_at: snapshot.updated_at.clone(),
        observed_state: snapshot.state.clone(),
        observed_head_sha: snapshot.head_sha.clone(),
    }
}

/// Whether a comment belongs to this pull request.
pub open spec fn comment_belongs(
    repository: RepositoryView,
    pull_request: u64,
    comment: IssueCommentView,
) -> bool {
    let c = comment.coordinates;
    c.provider == "github"@ && text::same_ignoring_case(c.host, repository.host)
        && text::same_ignoring_case(c.owner, repository.owner) && text::same_ignoring_case(
        c.repository,
        repository.name,
    ) && c.pull_request == pull_request && c.remote_id.len() > 0
}

fn comment_is_of(repository: &Repository, pull_request: u64, comment: &IssueComment) -> (r: bool)
    ensures
        r == comment_belongs(repository@, pull_request, comment@),
{
    let c = &comment.coordinates;
    text::same_text(&c.provider, "github") && text::equals_ignoring_case(&c.host, &repository.host)
        && text::equals_ignoring_case(&c.owner, &repository.owner) && text::equals_ignoring_case(
        &c.repository,
        &repository.name,
    ) && c.pull_request == pull_request && !c.remote_id.as_str().is_empty()
}

/// The message of a refusal of a comment that is somebody else's, or of another pull request.
pub open spec fn own_comment_fault(
    c: PrLifecycleControllerView,
    comment: IssueCommentView,
    anonymous: Seq<char>,
    foreign: Seq<char>,
) -> Option<Seq<char>> {
    match c.snapshot {
        None => Some("Lifecycle metadata is still loading."@),
        Some(snapshot) => match comment.author {
            None => Some(anonymous),
            Some(author) => if !text::same_ignoring_case(author, snapshot.viewer_login) {
                Some(foreign)
            } else if !comment_belongs(c.repository, c.pull_request, comment) {
                Some("Comment coordinates do not exactly match this pull request."@)
            } else {
                None
            },
        },
    }
}

// ---------------------------------------------------------------------------
// Transitions

pub open spec fn snapshot_belongs(
    c: PrLifecycleControllerView,
    snapshot: PullRequestLifecycleSnapshotView,
) -> bool {
    domain::cache_key_of(snapshot.repository) == domain::cache_key_of(c.repository)
        && snapshot.pull_request.pull_request == c.pull_request && text::same_ignoring_case(
        snapshot.pull_request.owner,
        c.repository.owner,
    ) && text::same_ignoring_case(snapshot.pull_request.repository, c.repository.name)
        && text::same_ignoring_case(snapshot.pull_request.host, c.repository.host)
}

/// A snapshot of this pull request is taken on; a form that is being edited stays.
pub open spec fn snapshot_installed(
    c: PrLifecycleControllerView,
    snapshot: PullRequestLifecycleSnapshotView,
) -> PrLifecycleControllerView {
    if !snapshot_belongs(c, snapshot) {
        c
    } else {
        PrLifecycleControllerView {
            metadata_form: if c.editing_metadata {
                c.metadata_form
            } else {
                Some(form_of(snapshot))
            },
            snapshot: Some(snapshot),
            ..c
        }
    }
}

pub open spec fn edit_fault(c: PrLifecycleControllerView) -> Option<Seq<char>> {
    match c.snapshot {
        None => Some("Lifecycle metadata is still loading."@),
        Some(snapshot) => if snapshot.can_update_metadata.available {
            None
        } else {
            Some(
                reason_of("Metadata editing is unavailable"@, snapshot.can_update_metadata.reason),
            )
        },
    }
}

pub open spec fn editing(c: PrLifecycleControllerView) -> PrLifecycleControllerView {
    match edit_fault(c) {
        Some(_) => c,
        None => PrLifecycleControllerView {
            metadata_form: Some(form_of(c.snapshot->0)),
            editing_metadata: true,
            confirmation: None,
            ..c
        },
    }
}

pub open spec fn edit_cancelled(c: PrLifecycleControllerView) -> PrLifecycleControllerView {
    PrLifecycleControllerView {
        editing_metadata: false,
        confirmation: None,
        metadata_form: match c.snapshot {
            Some(snapshot) => Some(form_of(snapshot)),
            None => None,
        },
        ..c
    }
}

/// The changes that a form makes, each of one field.
pub open spec fn changes_of(
    snapshot: PullRequestLifecycleSnapshotView,
    form: MetadataFormView,
) -> Seq<PullRequestLifecycleActionView> {
    (if form.title != snapshot.title {
        seq![
            PullRequestLifecycleActionView::UpdateTitle {
                observed: snapshot.title,
                value: form.title,
            },
        ]
    } else {
        Seq::empty()
    }) + (if form.body != snapshot.body {
        seq![
            PullRequestLifecycleActionView::UpdateBody {
                observed: snapshot.body,
                value: form.body,
            },
        ]
    } else {
        Seq::empty()
    }) + (if form.base_branch != snapshot.base_branch {
        seq![
            PullRequestLifecycleActionView::UpdateBaseBranch {
                observed: snapshot.base_branch,
                value: form.base_branch,
            },
        ]
    } else {
        Seq::empty()
    })
}

pub open spec fn apply_fault(c: PrLifecycleControllerView) -> Option<Seq<char>> {
    match c.snapshot {
        None => Some("Lifecycle metadata is still loading."@),
        Some(snapshot) => match c.metadata_form {
            None => Some("Metadata form is unavailable."@),
            Some(form) => match metadata_fault(form) {
                Some(e) => Some(e),
                None => if changes_of(snapshot, form).len() == 0 {
                    Some("No metadata value changed."@)
                } else if changes_of(snapshot, form).len() > 1 {
                    Some(
                        "Apply one metadata field at a time so each confirmation and provider acknowledgement has one exact affected value."@,
                    )
                } else {
                    None
                },
            },
        },
    }
}

pub open spec fn frozen_lifecycle(
    snapshot: PullRequestLifecycleSnapshotView,
    action: PullRequestLifecycleActionView,
    operation_id: Seq<char>,
    attempt_id: Seq<char>,
    form_witness: Option<MetadataFormView>,
) -> FrozenMutationView {
    FrozenMutationView::Lifecycle {
        request: PullRequestLifecycleRequestView {
            operation_id,
            attempt_id,
            target: target_of(snapshot),
            action,
        },
        form_witness,
        summary: lifecycle_summary_of(action),
    }
}

pub open spec fn apply_prepared(
    c: PrLifecycleControllerView,
    operation_id: Seq<char>,
    attempt_id: Seq<char>,
) -> PrLifecycleControllerView {
    match apply_fault(c) {
        Some(_) => c,
        None => PrLifecycleControllerView {
            confirmation: Some(
                frozen_lifecycle(
                    c.snapshot->0,
                    changes_of(c.snapshot->0, c.metadata_form->0)[0],
                    operation_id,
                    attempt_id,
                    c.metadata_form,
                ),
            ),
            ..c
        },
    }
}

pub open spec fn action_fault(
    c: PrLifecycleControllerView,
    action: PullRequestLifecycleActionView,
) -> Option<Seq<char>> {
    match c.snapshot {
        None => Some("Lifecycle metadata is still loading."@),
        Some(snapshot) => capability_fault(snapshot, action),
    }
}

pub open spec fn action_prepared(
    c: PrLifecycleControllerView,
    action: PullRequestLifecycleActionView,
    operation_id: Seq<char>,
    attempt_id: Seq<char>,
) -> PrLifecycleControllerView {
    match action_fault(c, action) {
        Some(_) => c,
        None => PrLifecycleControllerView {
            confirmation: Some(
                frozen_lifecycle(c.snapshot->0, action, operation_id, attempt_id, None),
            ),
            ..c
        },
    }
}

pub open spec fn comment_fault(c: PrLifecycleControllerView) -> Option<Seq<char>> {
    match c.snapshot {
        None => Some("Lifecycle metadata is still loading."@),
        Some(snapshot) => if snapshot.can_comment.available {
            None
        } else {
            Some(reason_of("Commenting is unavailable"@, snapshot.can_comment.reason))
        },
    }
}

pub open spec fn composing(
    c: PrLifecycleControllerView,
    mode: DiscussionModeView,
    body: Seq<char>,
) -> PrLifecycleControllerView {
    PrLifecycleControllerView {
        discussion_form: Some(DiscussionFormView { mode, body }),
        confirmation: None,
        ..c
    }
}

pub open spec fn comment_edit_fault(
    c: PrLifecycleControllerView,
    comment: IssueCommentView,
) -> Option<Seq<char>> {
    own_comment_fault(
        c,
        comment,
        "A comment without an exact author cannot be edited."@,
        "Only an exact current-user issue comment can be edited."@,
    )
}

pub open spec fn comment_delete_fault(
    c: PrLifecycleControllerView,
    comment: IssueCommentView,
) -> Option<Seq<char>> {
    own_comment_fault(
        c,
        comment,
        "A comment without an exact author cannot be deleted."@,
        "Only an exact current-user issue comment can be deleted."@,
    )
}

/// What a comment form does.
pub open spec fn discussion_action_of(form: DiscussionFormView) -> PullRequestDiscussionActionView {
    match form.mode {
        DiscussionModeView::Create => PullRequestDiscussionActionView::Create { body: form.body },
        DiscussionModeView::Edit { comment, selected_author } =>
            PullRequestDiscussionActionView::Edit {
            comment: comment.coordinates,
            selected_author,
            observed_body: comment.body,
            observed_updated_at: comment.updated_at,
            body: form.body,
        },
    }
}

pub open spec fn discussion_summary_of(action: PullRequestDiscussionActionView) -> Seq<char> {
    match action {
        PullRequestDiscussionActionView::Create { body } => "Create top-level comment with exact body "@
            + text::debug_of(body),
        PullRequestDiscussionActionView::Edit { comment, observed_body, body, .. } =>
            "Edit exact comment "@ + comment.remote_id + ": "@ + text::debug_of(observed_body)
            + " → "@ + text::debug_of(body),
        PullRequestDiscussionActionView::Delete { comment, observed_body, .. } =>
            "Delete exact comment "@ + comment.remote_id + " with frozen body "@ + text::debug_of(
            observed_body,
        ),
    }
}

pub open spec fn discussion_fault(c: PrLifecycleControllerView) -> Option<Seq<char>> {
    match c.snapshot {
        None => Some("Lifecycle metadata is still loading."@),
        Some(_) => match c.discussion_form {
            None => Some("No top-level discussion composer is open."@),
            Some(form) => match body_fault(form.body) {
                Some(e) => Some(e),
                None => if form.mode matches DiscussionModeView::Edit { comment, .. }
                    && comment.body == form.body {
                    Some("The comment body did not change."@)
                } else {
                    None
                },
            },
        },
    }
}

pub open spec fn frozen_discussion(
    snapshot: PullRequestLifecycleSnapshotView,
    action: PullRequestDiscussionActionView,
    operation_id: Seq<char>,
    attempt_id: Seq<char>,
    body_witness: Option<Seq<char>>,
) -> FrozenMutationView {
    FrozenMutationView::Discussion {
        request: PullRequestDiscussionRequestView {
            operation_id,
            attempt_id,
            target: target_of(snapshot),
            action,
        },
        body_witness,
        summary: discussion_summary_of(action),
    }
}

pub open spec fn discussion_prepared(
    c: PrLifecycleControllerView,
    operation_id: Seq<char>,
    attempt_id: Seq<char>,
) -> PrLifecycleControllerView {
    match discussion_fault(c) {
        Some(_) => c,
        None => PrLifecycleControllerView {
            confirmation: Some(
                frozen_discussion(
                    c.snapshot->0,
                    discussion_action_of(c.discussion_form->0),
                    operation_id,
                    attempt_id,
                    Some(c.discussion_form->0.body),
                ),
            ),
            ..c
        },
    }
}

pub open spec fn delete_action_of(comment: IssueCommentView) -> PullRequestDiscussionActionView {
    PullRequestDiscussionActionView::Delete {
        comment: comment.coordinates,
        selected_author: comment.author->0,
        observed_body: comment.body,
        observed_updated_at: comment.updated_at,
    }
}

pub open spec fn delete_prepared(
    c: PrLifecycleControllerView,
    comment: IssueCommentView,
    operation_id: Seq<char>,
    attempt_id: Seq<char>,
) -> PrLifecycleControllerView {
    match comment_delete_fault(c, comment) {
        Some(_) => c,
        None => PrLifecycleControllerView {
            confirmation: Some(
                frozen_discussion(
                    c.snapshot->0,
                    delete_action_of(comment),
                    operation_id,
                    attempt_id,
                    None,
                ),
            ),
            ..c
        },
    }
}

/// Why what is to be confirmed cannot be sent: nothing is open, or what was visible changed.
pub open spec fn confirmation_fault(c: PrLifecycleControllerView) -> Option<Seq<char>> {
    match c.confirmation {
        None => Some("No lifecycle confirmation is open."@),
        Some(FrozenMutationView::Lifecycle { form_witness, .. }) => if form_witness is Some
            && c.metadata_form != form_witness {
            Some(
                "The visible metadata form changed after confirmation was requested; zero writes sent. Apply again to freeze the new value."@,
            )
        } else {
            None
        },
        Some(FrozenMutationView::Discussion { body_witness, .. }) => if body_witness is Some && !(
        c.discussion_form matches Some(form) && form.body == body_witness->0) {
            Some(
                "The visible discussion text changed after confirmation was requested; zero writes sent. Apply again to freeze the new body."@,
            )
        } else {
            None
        },
    }
}

pub open spec fn confirmed(c: PrLifecycleControllerView) -> PrLifecycleControllerView {
    match confirmation_fault(c) {
        Some(_) => c,
        None => PrLifecycleControllerView {
            active_operation: Some(operation_of(c.confirmation->0)),
            ..c
        },
    }
}

pub open spec fn finished(
    c: PrLifecycleControllerView,
    operation_id: Seq<char>,
    acknowledged: bool,
    notice: Seq<char>,
) -> PrLifecycleControllerView {
    if c.active_operation != Some(operation_id) {
        c
    } else {
        PrLifecycleControllerView {
            active_operation: None,
            confirmation: None,
            editing_metadata: c.editing_metadata && !acknowledged,
            discussion_form: if acknowledged {
                None
            } else {
                c.discussion_form
            },
            notice: Some(notice),
            ..c
        }
    }
}

pub open spec fn is_own_comment(c: PrLifecycleControllerView, comment: IssueCommentView) -> bool {
    c.snapshot is Some && comment.author is Some && text::same_ignoring_case(
        comment.author->0,
        c.snapshot->0.viewer_login,
    ) && comment_belongs(c.repository, c.pull_request, comment)
}

pub open spec fn choice_set_of(
    choices: PullRequestLifecycleChoices,
    kind: ChoiceKind,
) -> ProviderChoiceSet {
    match kind {
        ChoiceKind::Branch => choices.branches,
        ChoiceKind::Label => choices.labels,
        ChoiceKind::Assignee => choices.assignees,
        ChoiceKind::ReviewerUser => choices.reviewer_users,
        ChoiceKind::ReviewerTeam => choices.reviewer_teams,
    }
}

// ---------------------------------------------------------------------------
// The controller

impl PrLifecycleController {
    pub fn new(repository: Repository, pull_request: u64) -> (r: Self)
        ensures
            r@ == (PrLifecycleControllerView {
                repository: repository@,
                pull_request,
                snapshot: None,
                choices: None,
                metadata_form: None,
                editing_metadata: false,
                discussion_form: None,
                confirmation: None,
                active_operation: None,
                notice: None,
            }),
    {
        PrLifecycleController {
            repository,
            pull_request,
            snapshot: None,
            choices: None,
            metadata_form: None,
            editing_metadata: false,
            discussion_form: None,
            confirmation: None,
            active_operation: None,
            notice: None,
        }
    }

    fn is_for(&self, snapshot: &PullRequestLifecycleSnapshot) -> (r: bool)
        ensures
            r == snapshot_belongs(self@, snapshot@),
    {
        text::same_text(&snapshot.repository.cache_key(), &self.repository.cache_key())
            && snapshot.pull_request.pull_request == self.pull_request
            && text::equals_ignoring_case(&snapshot.pull_request.owner, &self.repository.owner)
            && text::equals_ignoring_case(
            &snapshot.pull_request.repository,
            &self.repository.name,
        ) && text::equals_ignoring_case(&snapshot.pull_request.host, &self.repository.host)
    }

    pub fn install_snapshot(&mut self, snapshot: PullRequestLifecycleSnapshot) -> (r: Result<
        (),
        String,
    >)
        ensures
            match r {
                Ok(_) => snapshot_belongs(old(self)@, snapshot@),
                Err(e) => !snapshot_belongs(old(self)@, snapshot@) && e@
                    == "Lifecycle snapshot targets another account, repository, or PR."@,
            },
            final(self)@ == snapshot_installed(old(self)@, snapshot@),
    {
        if !self.is_for(&snapshot) {
            return Err(
                "Lifecycle snapshot targets another account, repository, or PR.".to_owned(),
            );
        }
        if !self.editing_metadata {
            self.metadata_form = Some(form_from_snapshot(&snapshot));
        }
        self.snapshot = Some(snapshot);
        Ok(())
    }

    pub fn install_choices(&mut self, choices: PullRequestLifecycleChoices) -> (r: Result<
        (),
        String,
    >)
        ensures
            ({
                let fits = domain::cache_key_of(choices.repository@) == domain::cache_key_of(
                    old(self)@.repository,
                );
                &&& match r {
                    Ok(_) => fits,
                    Err(e) => !fits && e@
                        == "Lifecycle choices target another account or repository."@,
                }
                &&& final(self)@ == if fits {
                    PrLifecycleControllerView { choices: Some(choices), ..old(self)@ }
                } else {
                    old(self)@
                }
            }),
    {
        if !text::same_text(&choices.repository.cache_key(), &self.repository.cache_key()) {
            return Err("Lifecycle choices target another account or repository.".to_owned());
        }
        self.choices = Some(choices);
        Ok(())
    }

    /// Begins to edit the fields of the pull request. Returns what they are.
    pub fn begin_metadata_edit(&mut self) -> (r: Result<MetadataForm, String>)
        ensures
            match r {
                Ok(form) => edit_fault(old(self)@) is None && form@ == form_of(
                    old(self)@.snapshot->0,
                ),
                Err(e) => edit_fault(old(self)@) == Some(e@),
            },
            final(self)@ == editing(old(self)@),
    {
        let form = match &self.snapshot {
            None => {
                return Err("Lifecycle metadata is still loading.".to_owned());
            },
            Some(snapshot) => {
                if !snapshot.can_update_metadata.available {
                    return Err(
                        capability_reason(
                            "Metadata editing is unavailable",
                            &snapshot.can_update_metadata.reason,
                        ),
                    );
                }
                form_from_snapshot(snapshot)
            },
        };
        self.metadata_form = Some(form.clone());
        self.editing_metadata = true;
        self.confirmation = None;
        Ok(form)
    }

    pub fn stage_metadata(&mut self, title: String, body: String, base_branch: String)
        ensures
            final(self)@ == if old(self)@.editing_metadata {
                PrLifecycleControllerView {
                    metadata_form: Some(
                        MetadataFormView {
                            title: title@,
                            body: body@,
                            base_branch: base_branch@,
                        },
                    ),
                    ..old(self)@
                }
            } else {
                old(self)@
            },
    {
        if self.editing_metadata {
            self.metadata_form = Some(MetadataForm { title, body, base_branch });
        }
    }

    pub fn cancel_metadata(&mut self)
        ensures
            final(self)@ == edit_cancelled(old(self)@),
    {
        self.editing_metadata = false;
        self.confirmation = None;
        let form: Option<MetadataForm> = match &self.snapshot {
            Some(snapshot) => Some(form_from_snapshot(snapshot)),
            None => None,
        };
        self.metadata_form = form;
    }

    /// Freezes the one change that the form makes.
    pub fn prepare_metadata_apply(&mut self, operation_id: String, attempt_id: String) -> (r: Result<
        (),
        String,
    >)
        ensures
            fault_of(r) == apply_fault(old(self)@),
            final(self)@ == apply_prepared(old(self)@, operation_id@, attempt_id@),
    {
        let (frozen, form) = match (&self.snapshot, &self.metadata_form) {
            (None, _) => {
                return Err("Lifecycle metadata is still loading.".to_owned());
            },
            (Some(_), None) => {
                return Err("Metadata form is unavailable.".to_owned());
            },
            (Some(snapshot), Some(form)) => {
                if let Err(e) = validate_form(form) {
                    return Err(e);
                }
                match single_change(snapshot, form) {
                    Err(e) => {
                        return Err(e);
                    },
                    Ok(action) => (
                        PullRequestLifecycleRequest {
                            operation_id,
                            attempt_id,
                            target: mutation_target(snapshot),
                            action,
                        },
                        form.clone(),
                    ),
                }
            },
        };
        let summary = lifecycle_summary(&frozen.action);
        self.confirmation = Some(
            FrozenMutation::Lifecycle { request: frozen, form_witness: Some(form), summary },
        );
        Ok(())
    }

    pub fn prepare_lifecycle_action(
        &mut self,
        action: PullRequestLifecycleAction,
        operation_id: String,
        attempt_id: String,
    ) -> (r: Result<(), String>)
        ensures
            fault_of(r) == action_fault(old(self)@, action@),
            final(self)@ == action_prepared(old(self)@, action@, operation_id@, attempt_id@),
    {
        let target = match &self.snapshot {
            None => {
                return Err("Lifecycle metadata is still loading.".to_owned());
            },
            Some(snapshot) => {
                if let Err(e) = validate_action_capability(snapshot, &action) {
                    return Err(e);
                }
                mutation_target(snapshot)
            },
        };
        let summary = lifecycle_summary(&action);
        self.confirmation = Some(
            FrozenMutation::Lifecycle {
                request: PullRequestLifecycleRequest { operation_id, attempt_id, target, action },
                form_witness: None,
                summary,
            },
        );
        Ok(())
    }

    pub fn begin_comment_create(&mut self) -> (r: Result<(), String>)
        ensures
            fault_of(r) == comment_fault(old(self)@),
            final(self)@ == if r is Ok {
                composing(old(self)@, DiscussionModeView::Create, Seq::empty())
            } else {
                old(self)@
            },
    {
        match &self.snapshot {
            None => {
                return Err("Lifecycle metadata is still loading.".to_owned());
            },
            Some(snapshot) => {
                if !snapshot.can_comment.available {
                    return Err(
                        capability_reason(
                            "Commenting is unavailable",
                            &snapshot.can_comment.reason,
                        ),
                    );
                }
            },
        }
        self.discussion_form = Some(
            DiscussionForm { mode: DiscussionMode::Create, body: String::new() },
        );
        self.confirmation = None;
        Ok(())
    }

    fn check_own_comment(&self, comment: &IssueComment, anonymous: &str, foreign: &str) -> (r: Result<
        String,
        String,
    >)
        ensures
            match r {
                Ok(author) => own_comment_fault(self@, comment@, anonymous@, foreign@) is None
                    && comment@.author == Some(author@),
                Err(e) => own_comment_fault(self@, comment@, anonymous@, foreign@) == Some(e@),
            },
    {
        match (&self.snapshot, &comment.author) {
            (None, _) => Err("Lifecycle metadata is still loading.".to_owned()),
            (Some(_), None) => Err(anonymous.to_owned()),
            (Some(snapshot), Some(author)) => {
                if !text::equals_ignoring_case(author, &snapshot.viewer_login) {
                    return Err(foreign.to_owned());
                }
                if !comment_is_of(&self.repository, self.pull_request, comment) {
                    return Err(
                        "Comment coordinates do not exactly match this pull request.".to_owned(),
                    );
                }
                Ok(author.clone())
            },
        }
    }

    /// Begins to edit a comment of the user. Returns its text.
    pub fn begin_comment_edit(&mut self, comment: IssueComment) -> (r: Result<String, String>)
        ensures
            match r {
                Ok(body) => comment_edit_fault(old(self)@, comment@) is None && body@
                    == comment@.body,
                Err(e) => comment_edit_fault(old(self)@, comment@) == Some(e@),
            },
            final(self)@ == if r is Ok {
                composing(
                    old(self)@,
                    DiscussionModeView::Edit {
                        comment: comment@,
                        selected_author: comment@.author->0,
                    },
                    comment@.body,
                )
            } else {
                old(self)@
            },
    {
        let author = match self.check_own_comment(
            &comment,
            "A comment without an exact author cannot be edited.",
            "Only an exact current-user issue comment can be edited.",
        ) {
            Ok(author) => author,
            Err(e) => {
                return Err(e);
            },
        };
        let body = comment.body.clone();
        self.discussion_form = Some(
            DiscussionForm {
                mode: DiscussionMode::Edit { comment, selected_author: author },
                body: body.clone(),
            },
        );
        self.confirmation = None;
        Ok(body)
    }

    pub fn stage_discussion_body(&mut self, body: String)
        ensures
            final(self)@ == (match old(self)@.discussion_form {
                Some(form) => PrLifecycleControllerView {
                    discussion_form: Some(DiscussionFormView { body: body@, ..form }),
                    ..old(self)@
                },
                None => old(self)@,
            }),
    {
        let mode = match &self.discussion_form {
            Some(form) => form.mode.clone(),
            None => {
                return;
            },
        };
        self.discussion_form = Some(DiscussionForm { mode, body });
    }

    pub fn cancel_discussion(&mut self)
        ensures
            final(self)@ == (PrLifecycleControllerView {
                discussion_form: None,
                confirmation: None,
                ..old(self)@
            }),
    {
        self.discussion_form = None;
        self.confirmation = None;
    }

    /// Freezes the comment that is written.
    pub fn prepare_discussion_apply(&mut self, operation_id: String, attempt_id: String) -> (r:
        Result<(), String>)
        ensures
            fault_of(r) == discussion_fault(old(self)@),
            final(self)@ == discussion_prepared(old(self)@, operation_id@, attempt_id@),
    {
        let (target, action, body) = match (&self.snapshot, &self.discussion_form) {
            (None, _) => {
                return Err("Lifecycle metadata is still loading.".to_owned());
            },
            (Some(_), None) => {
                return Err("No top-level discussion composer is open.".to_owned());
            },
            (Some(snapshot), Some(form)) => {
                if let Err(e) = validate_body(&form.body) {
                    return Err(e);
                }
                let action = match &form.mode {
                    DiscussionMode::Create => PullRequestDiscussionAction::Create {
                        body: form.body.clone(),
                    },
                    DiscussionMode::Edit { comment, selected_author } => {
                        if text::same_text(&form.body, &comment.body) {
                            return Err("The comment body did not change.".to_owned());
                        }
                        PullRequestDiscussionAction::Edit {
                            comment: comment.coordinates.clone(),
                            selected_author: selected_author.clone(),
                            observed_body: comment.body.clone(),
                            observed_updated_at: comment.updated_at.clone(),
                            body: form.body.clone(),
                        }
                    },
                };
                (mutation_target(snapshot), action, form.body.clone())
            },
        };
        let summary = discussion_summary(&action);
        self.confirmation = Some(
            FrozenMutation::Discussion {
                request: PullRequestDiscussionRequest { operation_id, attempt_id, target, action },
                body_witness: Some(body),
                summary,
            },
        );
        Ok(())
    }

    pub fn prepare_comment_delete(
        &mut self,
        comment: IssueComment,
        operation_id: String,
        attempt_id: String,
    ) -> (r: Result<(), String>)
        ensures
            fault_of(r) == comment_delete_fault(old(self)@, comment@),
            final(self)@ == delete_prepared(old(self)@, comment@, operation_id@, attempt_id@),
    {
        let author = match self.check_own_comment(
            &comment,
            "A comment without an exact author cannot be deleted.",
            "Only an exact current-user issue comment can be deleted.",
        ) {
            Ok(author) => author,
            Err(e) => {
                return Err(e);
            },
        };
        let target = match &self.snapshot {
            Some(snapshot) => mutation_target(snapshot),
            None => {
                return Err("Lifecycle metadata is still loading.".to_owned());
            },
        };
        let action = PullRequestDiscussionAction::Delete {
            comment: comment.coordinates,
            selected_author: author,
            observed_body: comment.body,
            observed_updated_at: comment.updated_at,
        };
        let summary = discussion_summary(&action);
        self.confirmation = Some(
            FrozenMutation::Discussion {
                request: PullRequestDiscussionRequest { operation_id, attempt_id, target, action },
                body_witness: None,
                summary,
            },
        );
        Ok(())
    }

    fn witness_fault(&self) -> (r: Option<&'static str>)
        ensures
            match r {
                Some(e) => confirmation_fault(self@) == Some(e@),
                None => confirmation_fault(self@) is None,
            },
    {
        match &self.confirmation {
            None => Some("No lifecycle confirmation is open."),
            Some(FrozenMutation::Lifecycle { form_witness, .. }) => {
                if form_witness.is_some() && !same_optional_metadata_form(
                    &self.metadata_form,
                    form_witness,
                ) {
                    return Some(
                        "The visible metadata form changed after confirmation was requested; zero writes sent. Apply again to freeze the new value.",
                    );
                }
                None
            },
            Some(FrozenMutation::Discussion { body_witness, .. }) => match body_witness {
                None => None,
                Some(witness) => {
                    let same: bool = match &self.discussion_form {
                        Some(form) => text::same_text(&form.body, witness),
                        None => false,
                    };
                    if same {
                        None
                    } else {
                        Some(
                            "The visible discussion text changed after confirmation was requested; zero writes sent. Apply again to freeze the new body.",
                        )
                    }
                },
            },
        }
    }

    /// Hands out what is confirmed, if what was visible then still is.
    pub fn take_confirmed(&mut self) -> (r: Result<FrozenMutation, String>)
        ensures
            match r {
                Ok(frozen) => confirmation_fault(old(self)@) is None && old(self)@.confirmation
                    == Some(frozen@),
                Err(e) => confirmation_fault(old(self)@) == Some(e@),
            },
            final(self)@ == confirmed(old(self)@),
    {
        if let Some(e) = self.witness_fault() {
            return Err(e.to_owned());
        }
        let frozen = match &self.confirmation {
            Some(frozen) => frozen.clone(),
            None => {
                return Err("No lifecycle confirmation is open.".to_owned());
            },
        };
        self.active_operation = Some(frozen.operation_id().to_owned());
        Ok(frozen)
    }

    pub fn finish_operation(&mut self, operation_id: &str, acknowledged: bool, notice: String)
        ensures
            final(self)@ == finished(old(self)@, operation_id@, acknowledged, notice@),
    {
        let active: bool = match &self.active_operation {
            Some(id) => text::same_text(id, operation_id),
            None => false,
        };
        if !active {
            return;
        }
        self.active_operation = None;
        self.confirmation = None;
        if acknowledged {
            self.editing_metadata = false;
            self.discussion_form = None;
        }
        self.notice = Some(notice);
    }

    pub fn cancel_confirmation(&mut self)
        ensures
            final(self)@ == if old(self)@.active_operation is None {
                PrLifecycleControllerView { confirmation: None, ..old(self)@ }
            } else {
                old(self)@
            },
    {
        if self.active_operation.is_none() {
            self.confirmation = None;
        }
    }

    pub fn current_user_comment(&self, comment: &IssueComment) -> (r: bool)
        ensures
            r == is_own_comment(self@, comment@),
    {
        match (&self.snapshot, &comment.author) {
            (Some(snapshot), Some(author)) => text::equals_ignoring_case(
                author,
                &snapshot.viewer_login,
            ) && comment_is_of(&self.repository, self.pull_request, comment),
            _ => false,
        }
    }

    /// The values of a kind, whether they are all, and what was said of them.
    pub fn choices_for(&self, kind: ChoiceKind) -> (r: Option<
        (&[ProviderChoice], bool, Option<&str>),
    >)
        ensures
            match r {
                Some((values, complete, notice)) => self@.choices matches Some(c) && {
                    let set = choice_set_of(c, kind);
                    &&& values@ == set.values@
                    &&& complete == set.complete
                    &&& match notice {
                        Some(n) => text::option_text(set.notice) == Some(n@),
                        None => set.notice is None,
                    }
                },
                None => self@.choices is None,
            },
    {
        let set = match &self.choices {
            None => {
                return None;
            },
            Some(choices) => match kind {
                ChoiceKind::Branch => &choices.branches,
                ChoiceKind::Label => &choices.labels,
                ChoiceKind::Assignee => &choices.assignees,
                ChoiceKind::ReviewerUser => &choices.reviewer_users,
                ChoiceKind::ReviewerTeam => &choices.reviewer_teams,
            },
        };
        let notice: Option<&str> = match &set.notice {
            Some(n) => Some(n.as_str()),
            None => None,
        };
        Some((set.values.as_slice(), set.complete, notice))
    }
}

fn single_change(snapshot: &PullRequestLifecycleSnapshot, form: &MetadataForm) -> (r: Result<
    PullRequestLifecycleAction,
    String,
>)
    ensures
        ({
            let changes = changes_of(snapshot@, form@);
            match r {
                Ok(action) => changes.len() == 1 && action@ == changes[0],
                Err(e) => changes.len() != 1 && e@ == if changes.len() == 0 {
                    "No metadata value changed."@
                } else {
                    "Apply one metadata field at a time so each confirmation and provider acknowledgement has one exact affected value."@
                },
            }
        }),
{
    let mut found: Option<PullRequestLifecycleAction> = None;
    let mut more: bool = false;
    if !text::same_text(&form.title, &snapshot.title) {
        found = Some(
            PullRequestLifecycleAction::UpdateTitle {
                observed: snapshot.title.clone(),
                value: form.title.clone(),
            },
        );
    }
    if !text::same_text(&form.body, &snapshot.body) {
        if found.is_some() {
            more = true;
        } else {
            found = Some(
                PullRequestLifecycleAction::UpdateBody {
                    observed: snapshot.body.clone(),
                    value: form.body.clone(),
                },
            );
        }
    }
    if !text::same_text(&form.base_branch, &snapshot.base_branch) {
        if found.is_some() {
            more = true;
        } else {
            found = Some(
                PullRequestLifecycleAction::UpdateBaseBranch {
                    observed: snapshot.base_branch.clone(),
                    value: form.base_branch.clone(),
                },
            );
        }
    }
    if more {
        return Err(
            "Apply one metadata field at a time so each confirmation and provider acknowledgement has one exact affected value.".to_owned(),
        );
    }
    match found {
        Some(action) => Ok(action),
        None => Err("No metadata value changed.".to_owned()),
    }
}

pub fn discussion_summary(action: &PullRequestDiscussionAction) -> (r: String)
    ensures
        r@ == discussion_summary_of(action@),
{
    match action {
        PullRequestDiscussionAction::Create { body } => two(
            "Create top-level comment with exact body ",
            &text::debug_text(body),
        ),
        PullRequestDiscussionAction::Edit { comment, observed_body, body, .. } => {
            let mut out: String = "Edit exact comment ".to_owned();
            out.append(&comment.remote_id);
            out.append(": ");
            out.append(&text::debug_text(observed_body));
            out.append(" → ");
            out.append(&text::debug_text(body));
            out
        },
        PullRequestDiscussionAction::Delete { comment, observed_body, .. } => {
            let mut out: String = "Delete exact comment ".to_owned();
            out.append(&comment.remote_id);
            out.append(" with frozen body ");
            out.append(&text::debug_text(observed_body));
            out
        },
    }
}

pub fn reviewer(kind: &str, name: String) -> (r: PullRequestReviewer)
    ensures
        r@ == (PullRequestReviewerView { kind: kind@, name: name@ }),
{
    PullRequestReviewer { kind: kind.to_owned(), name }
}

// ---------------------------------------------------------------------------
// Laws

/// A form that is being edited survives a fresh read of the pull request, and a read of
/// another pull request changes nothing.
pub proof fn law_edited_forms_survive_reads(
    c: PrLifecycleControllerView,
    snapshot: PullRequestLifecycleSnapshotView,
)
    ensures
        c.editing_metadata ==> snapshot_installed(c, snapshot).metadata_form == c.metadata_form,
        snapshot_installed(c, snapshot).discussion_form == c.discussion_form,
        snapshot_installed(c, snapshot).confirmation == c.confirmation,
        !snapshot_belongs(c, snapshot) ==> snapshot_installed(c, snapshot) == c,
{
}

/// What is confirmed changes exactly one field, from the value that was observed to the one
/// that is visible, and only while that is still visible.
pub proof fn law_one_exact_change_is_confirmed(
    c: PrLifecycleControllerView,
    operation_id: Seq<char>,
    attempt_id: Seq<char>,
    other: MetadataFormView,
)
    requires
        apply_fault(c) is None,
    ensures
        ({
            let asked = apply_prepared(c, operation_id, attempt_id);
            let changed = PrLifecycleControllerView { metadata_form: Some(other), ..asked };
            &&& confirmation_fault(asked) is None
            &&& confirmed(asked).active_operation == Some(operation_id)
            &&& Some(other) != c.metadata_form ==> confirmation_fault(changed) is Some
                && confirmed(changed) == changed
            &&& changes_of(c.snapshot->0, c.metadata_form->0).len() == 1
        }),
{
}

/// A comment is edited or deleted only by its author, under its own identifier and with the
/// text that was observed.
pub proof fn law_only_own_comments_are_changed(
    c: PrLifecycleControllerView,
    comment: IssueCommentView,
    operation_id: Seq<char>,
    attempt_id: Seq<char>,
)
    ensures
        comment_edit_fault(c, comment) is None <==> is_own_comment(c, comment),
        comment_delete_fault(c, comment) is None <==> is_own_comment(c, comment),
        comment_delete_fault(c, comment) is None ==> (delete_prepared(
            c,
            comment,
            operation_id,
            attempt_id,
        ).confirmation matches Some(FrozenMutationView::Discussion { request, .. })
            && request.action == delete_action_of(comment)),
{
}

/// The end of an operation counts only for the one that is under way; a refusal loses no form.
pub proof fn law_only_the_active_operation_ends(
    c: PrLifecycleControllerView,
    operation_id: Seq<char>,
    notice: Seq<char>,
)
    ensures
        c.active_operation != Some(operation_id) ==> finished(c, operation_id, true, notice) == c,
        finished(c, operation_id, false, notice).metadata_form == c.metadata_form,
        finished(c, operation_id, false, notice).discussion_form == c.discussion_form,
        finished(c, operation_id, false, notice).editing_metadata == c.editing_metadata,
{
}

} // verus!

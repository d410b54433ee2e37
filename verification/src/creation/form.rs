//! The form of a new pull request, its validation, and the lane that saves it.

use vstd::prelude::*;
use vstd::string::*;

use crate::domain::{Account, AccountView, Repository, RepositoryView};
use crate::encoding;
use crate::faults;
use crate::text;

verus! {

pub const RECORD_VERSION: u64 = 1;

pub const MAX_FORM_TEXT_BYTES: usize = 1_048_576;

pub const MAX_IDENTITY_BYTES: usize = 256;

/// What the dialog shows of a pull request that is to be created.
#[derive(Debug, PartialEq, Eq)]
pub struct CreationForm {
    pub target_repository: Repository,
    pub base_branch: String,
    pub source_repository: Repository,
    pub source_branch: String,
    pub local_branch: Option<String>,
    pub title: String,
    pub body: String,
    pub draft: bool,
}

#[verifier::ext_equal]
pub struct CreationFormView {
    pub target_repository: RepositoryView,
    pub base_branch: Seq<char>,
    pub source_repository: RepositoryView,
    pub source_branch: Seq<char>,
    pub local_branch: Option<Seq<char>>,
    pub title: Seq<char>,
    pub body: Seq<char>,
    pub draft: bool,
}

impl View for CreationForm {
    type V = CreationFormView;

    open spec fn view(&self) -> CreationFormView {
        CreationFormView {
            target_repository: self.target_repository@,
            base_branch: self.base_branch@,
            source_repository: self.source_repository@,
            source_branch: self.source_branch@,
            local_branch: text::option_text(self.local_branch),
            title: self.title@,
            body: self.body@,
            draft: self.draft,
        }
    }
}

impl Clone for CreationForm {
    fn clone(&self) -> (r: Self)
        ensures
            r == *self,
    {
        CreationForm {
            target_repository: self.target_repository.clone(),
            base_branch: self.base_branch.clone(),
            source_repository: self.source_repository.clone(),
            source_branch: self.source_branch.clone(),
            local_branch: self.local_branch.clone(),
            title: self.title.clone(),
            body: self.body.clone(),
            draft: self.draft,
        }
    }
}

impl CreationForm {
    /// Whether two values agree in every field.
    pub fn same(&self, other: &Self) -> (r: bool)
        ensures
            r == (self@ == other@),
    {
        self.target_repository.same(&other.target_repository)
            && self.base_branch == other.base_branch
            && self.source_repository.same(&other.source_repository)
            && self.source_branch == other.source_branch
            && text::same_option_text(&self.local_branch, &other.local_branch)
            && self.title == other.title
            && self.body == other.body
            && self.draft == other.draft
    }
}

/// What the provider is asked to prepare.
#[derive(Debug, PartialEq, Eq)]
pub struct PullRequestCreationInput {
    pub target_repository: Repository,
    pub base_branch: String,
    pub source_repository: Repository,
    pub source_branch: String,
    pub local_branch: Option<String>,
    pub title: String,
    pub body: String,
    pub draft: bool,
}

#[verifier::ext_equal]
pub struct PullRequestCreationInputView {
    pub target_repository: RepositoryView,
    pub base_branch: Seq<char>,
    pub source_repository: RepositoryView,
    pub source_branch: Seq<char>,
    pub local_branch: Option<Seq<char>>,
    pub title: Seq<char>,
    pub body: Seq<char>,
    pub draft: bool,
}

impl View for PullRequestCreationInput {
    type V = PullRequestCreationInputView;

    open spec fn view(&self) -> PullRequestCreationInputView {
        PullRequestCreationInputView {
            target_repository: self.target_repository@,
            base_branch: self.base_branch@,
            source_repository: self.source_repository@,
            source_branch: self.source_branch@,
            local_branch: text::option_text(self.local_branch),
            title: self.title@,
            body: self.body@,
            draft: self.draft,
        }
    }
}

impl Clone for PullRequestCreationInput {
    fn clone(&self) -> (r: Self)
        ensures
            r == *self,
    {
        PullRequestCreationInput {
            target_repository: self.target_repository.clone(),
            base_branch: self.base_branch.clone(),
            source_repository: self.source_repository.clone(),
            source_branch: self.source_branch.clone(),
            local_branch: self.local_branch.clone(),
            title: self.title.clone(),
            body: self.body.clone(),
            draft: self.draft,
        }
    }
}

impl PullRequestCreationInput {
    /// Whether two values agree in every field.
    pub fn same(&self, other: &Self) -> (r: bool)
        ensures
            r == (self@ == other@),
    {
        self.target_repository.same(&other.target_repository)
            && self.base_branch == other.base_branch
            && self.source_repository.same(&other.source_repository)
            && self.source_branch == other.source_branch
            && text::same_option_text(&self.local_branch, &other.local_branch)
            && self.title == other.title
            && self.body == other.body
            && self.draft == other.draft
    }
}

/// Whether the selected account may do something, and why not.
#[derive(Debug, PartialEq, Eq)]
pub struct ProviderCapability {
    pub available: bool,
    pub reason: Option<String>,
}

#[verifier::ext_equal]
pub struct ProviderCapabilityView {
    pub available: bool,
    pub reason: Option<Seq<char>>,
}

impl View for ProviderCapability {
    type V = ProviderCapabilityView;

    open spec fn view(&self) -> ProviderCapabilityView {
        ProviderCapabilityView {
            available: self.available,
            reason: text::option_text(self.reason),
        }
    }
}

impl Clone for ProviderCapability {
    fn clone(&self) -> (r: Self)
        ensures
            r == *self,
    {
        ProviderCapability {
            available: self.available,
            reason: self.reason.clone(),
        }
    }
}

impl ProviderCapability {
    /// Whether two values agree in every field.
    pub fn same(&self, other: &Self) -> (r: bool)
        ensures
            r == (self@ == other@),
    {
        self.available == other.available
            && text::same_option_text(&self.reason, &other.reason)
    }
}

/// What the provider found when it was asked to prepare a creation.
#[derive(Debug, PartialEq, Eq)]
pub struct PullRequestCreationPreparation {
    pub input: PullRequestCreationInput,
    pub observed_base_sha: String,
    pub observed_source_head_sha: String,
    pub viewer_login: String,
    pub repository_permission: Option<String>,
    pub can_create: ProviderCapability,
    pub reviewed_head_atomically_enforced: bool,
    pub notice: Option<String>,
}

#[verifier::ext_equal]
pub struct PullRequestCreationPreparationView {
    pub input: PullRequestCreationInputView,
    pub observed_base_sha: Seq<char>,
    pub observed_source_head_sha: Seq<char>,
    pub viewer_login: Seq<char>,
    pub repository_permission: Option<Seq<char>>,
    pub can_create: ProviderCapabilityView,
    pub reviewed_head_atomically_enforced: bool,
    pub notice: Option<Seq<char>>,
}

impl View for PullRequestCreationPreparation {
    type V = PullRequestCreationPreparationView;

    open spec fn view(&self) -> PullRequestCreationPreparationView {
        PullRequestCreationPreparationView {
            input: self.input@,
            observed_base_sha: self.observed_base_sha@,
            observed_source_head_sha: self.observed_source_head_sha@,
            viewer_login: self.viewer_login@,
            repository_permission: text::option_text(self.repository_permission),
            can_create: self.can_create@,
            reviewed_head_atomically_enforced: self.reviewed_head_atomically_enforced,
            notice: text::option_text(self.notice),
        }
    }
}

impl Clone for PullRequestCreationPreparation {
    fn clone(&self) -> (r: Self)
        ensures
            r == *self,
    {
        PullRequestCreationPreparation {
            input: self.input.clone(),
            observed_base_sha: self.observed_base_sha.clone(),
            observed_source_head_sha: self.observed_source_head_sha.clone(),
            viewer_login: self.viewer_login.clone(),
            repository_permission: self.repository_permission.clone(),
            can_create: self.can_create.clone(),
            reviewed_head_atomically_enforced: self.reviewed_head_atomically_enforced,
            notice: self.notice.clone(),
        }
    }
}

impl PullRequestCreationPreparation {
    /// Whether two values agree in every field.
    pub fn same(&self, other: &Self) -> (r: bool)
        ensures
            r == (self@ == other@),
    {
        self.input.same(&other.input)
            && self.observed_base_sha == other.observed_base_sha
            && self.observed_source_head_sha == other.observed_source_head_sha
            && self.viewer_login == other.viewer_login
            && text::same_option_text(&self.repository_permission, &other.repository_permission)
            && self.can_create.same(&other.can_create)
            && self.reviewed_head_atomically_enforced == other.reviewed_head_atomically_enforced
            && text::same_option_text(&self.notice, &other.notice)
    }
}

/// A creation under the identity that it is carried out with.
#[derive(Debug, PartialEq, Eq)]
pub struct PullRequestCreationRequest {
    pub operation_id: String,
    pub attempt_id: String,
    pub preparation: PullRequestCreationPreparation,
}

#[verifier::ext_equal]
pub struct PullRequestCreationRequestView {
    pub operation_id: Seq<char>,
    pub attempt_id: Seq<char>,
    pub preparation: PullRequestCreationPreparationView,
}

impl View for PullRequestCreationRequest {
    type V = PullRequestCreationRequestView;

    open spec fn view(&self) -> PullRequestCreationRequestView {
        PullRequestCreationRequestView {
            operation_id: self.operation_id@,
            attempt_id: self.attempt_id@,
            preparation: self.preparation@,
        }
    }
}

impl Clone for PullRequestCreationRequest {
    fn clone(&self) -> (r: Self)
        ensures
            r == *self,
    {
        PullRequestCreationRequest {
            operation_id: self.operation_id.clone(),
            attempt_id: self.attempt_id.clone(),
            preparation: self.preparation.clone(),
        }
    }
}

impl PullRequestCreationRequest {
    /// Whether two values agree in every field.
    pub fn same(&self, other: &Self) -> (r: bool)
        ensures
            r == (self@ == other@),
    {
        self.operation_id == other.operation_id
            && self.attempt_id == other.attempt_id
            && self.preparation.same(&other.preparation)
    }
}

/// Where a pull request lives at its provider.
#[derive(Debug, PartialEq, Eq)]
pub struct ProviderCoordinates {
    pub provider: String,
    pub host: String,
    pub owner: String,
    pub repository: String,
    pub pull_request: u64,
    pub remote_id: String,
}

#[verifier::ext_equal]
pub struct ProviderCoordinatesView {
    pub provider: Seq<char>,
    pub host: Seq<char>,
    pub owner: Seq<char>,
    pub repository: Seq<char>,
    pub pull_request: u64,
    pub remote_id: Seq<char>,
}

impl View for ProviderCoordinates {
    type V = ProviderCoordinatesView;

    open spec fn view(&self) -> ProviderCoordinatesView {
        ProviderCoordinatesView {
            provider: self.provider@,
            host: self.host@,
            owner: self.owner@,
            repository: self.repository@,
            pull_request: self.pull_request,
            remote_id: self.remote_id@,
        }
    }
}

impl Clone for ProviderCoordinates {
    fn clone(&self) -> (r: Self)
        ensures
            r == *self,
    {
        ProviderCoordinates {
            provider: self.provider.clone(),
            host: self.host.clone(),
            owner: self.owner.clone(),
            repository: self.repository.clone(),
            pull_request: self.pull_request,
            remote_id: self.remote_id.clone(),
        }
    }
}

impl ProviderCoordinates {
    /// Whether two values agree in every field.
    pub fn same(&self, other: &Self) -> (r: bool)
        ensures
            r == (self@ == other@),
    {
        self.provider == other.provider
            && self.host == other.host
            && self.owner == other.owner
            && self.repository == other.repository
            && self.pull_request == other.pull_request
            && self.remote_id == other.remote_id
    }
}

/// What the provider answered to a creation.
#[derive(Debug, PartialEq, Eq)]
pub struct PullRequestCreationAcknowledgement {
    pub operation_id: String,
    pub target_repository: Repository,
    pub source_repository: Repository,
    pub pull_request: ProviderCoordinates,
    pub actual_head_sha: String,
    pub reviewed_head_sha: String,
    pub reviewed_head_atomically_enforced: bool,
    pub url: String,
}

#[verifier::ext_equal]
pub struct PullRequestCreationAcknowledgementView {
    pub operation_id: Seq<char>,
    pub target_repository: RepositoryView,
    pub source_repository: RepositoryView,
    pub pull_request: ProviderCoordinatesView,
    pub actual_head_sha: Seq<char>,
    pub reviewed_head_sha: Seq<char>,
    pub reviewed_head_atomically_enforced: bool,
    pub url: Seq<char>,
}

impl View for PullRequestCreationAcknowledgement {
    type V = PullRequestCreationAcknowledgementView;

    open spec fn view(&self) -> PullRequestCreationAcknowledgementView {
        PullRequestCreationAcknowledgementView {
            operation_id: self.operation_id@,
            target_repository: self.target_repository@,
            source_repository: self.source_repository@,
            pull_request: self.pull_request@,
            actual_head_sha: self.actual_head_sha@,
            reviewed_head_sha: self.reviewed_head_sha@,
            reviewed_head_atomically_enforced: self.reviewed_head_atomically_enforced,
            url: self.url@,
        }
    }
}

impl Clone for PullRequestCreationAcknowledgement {
    fn clone(&self) -> (r: Self)
        ensures
            r == *self,
    {
        PullRequestCreationAcknowledgement {
            operation_id: self.operation_id.clone(),
            target_repository: self.target_repository.clone(),
            source_repository: self.source_repository.clone(),
            pull_request: self.pull_request.clone(),
            actual_head_sha: self.actual_head_sha.clone(),
            reviewed_head_sha: self.reviewed_head_sha.clone(),
            reviewed_head_atomically_enforced: self.reviewed_head_atomically_enforced,
            url: self.url.clone(),
        }
    }
}

impl PullRequestCreationAcknowledgement {
    /// Whether two values agree in every field.
    pub fn same(&self, other: &Self) -> (r: bool)
        ensures
            r == (self@ == other@),
    {
        self.operation_id == other.operation_id
            && self.target_repository.same(&other.target_repository)
            && self.source_repository.same(&other.source_repository)
            && self.pull_request.same(&other.pull_request)
            && self.actual_head_sha == other.actual_head_sha
            && self.reviewed_head_sha == other.reviewed_head_sha
            && self.reviewed_head_atomically_enforced == other.reviewed_head_atomically_enforced
            && self.url == other.url
    }
}

/// A form as it is stored.
#[derive(Debug, PartialEq, Eq)]
pub struct DraftRecord {
    pub version: u64,
    pub generation: u64,
    pub form: CreationForm,
}

#[verifier::ext_equal]
pub struct DraftRecordView {
    pub version: u64,
    pub generation: u64,
    pub form: CreationFormView,
}

impl View for DraftRecord {
    type V = DraftRecordView;

    open spec fn view(&self) -> DraftRecordView {
        DraftRecordView {
            version: self.version,
            generation: self.generation,
            form: self.form@,
        }
    }
}

impl Clone for DraftRecord {
    fn clone(&self) -> (r: Self)
        ensures
            r == *self,
    {
        DraftRecord {
            version: self.version,
            generation: self.generation,
            form: self.form.clone(),
        }
    }
}

impl DraftRecord {
    /// Whether two values agree in every field.
    pub fn same(&self, other: &Self) -> (r: bool)
        ensures
            r == (self@ == other@),
    {
        self.version == other.version
            && self.generation == other.generation
            && self.form.same(&other.form)
    }
}

/// A form as it was at some edit.
#[derive(Debug, PartialEq, Eq)]
pub struct DraftSnapshot {
    pub edit_generation: u64,
    pub form: CreationForm,
}

#[verifier::ext_equal]
pub struct DraftSnapshotView {
    pub edit_generation: u64,
    pub form: CreationFormView,
}

impl View for DraftSnapshot {
    type V = DraftSnapshotView;

    open spec fn view(&self) -> DraftSnapshotView {
        DraftSnapshotView {
            edit_generation: self.edit_generation,
            form: self.form@,
        }
    }
}

impl Clone for DraftSnapshot {
    fn clone(&self) -> (r: Self)
        ensures
            r == *self,
    {
        DraftSnapshot {
            edit_generation: self.edit_generation,
            form: self.form.clone(),
        }
    }
}

impl DraftSnapshot {
    /// Whether two values agree in every field.
    pub fn same(&self, other: &Self) -> (r: bool)
        ensures
            r == (self@ == other@),
    {
        self.edit_generation == other.edit_generation
            && self.form.same(&other.form)
    }
}

// ---------------------------------------------------------------------------
// Texts

/// Whether a text may stand in a form: within the limit, without control characters and, where
/// it must not be empty, not blank.
pub open spec fn visible(value: Seq<char>, limit: nat, allow_empty: bool) -> bool {
    &&& allow_empty || !text::blank(value)
    &&& text::byte_len(value) <= limit
    &&& !text::has_control(value)
}

pub open spec fn visible_fault(
    label: Seq<char>,
    value: Seq<char>,
    limit: nat,
    allow_empty: bool,
) -> Option<Seq<char>> {
    if visible(value, limit, allow_empty) {
        None
    } else {
        Some("Invalid "@ + label + "."@)
    }
}

pub fn validate_visible_text(label: &str, value: &str, limit: usize, allow_empty: bool) -> (r: Result<
    (),
    String,
>)
    ensures
        faults::fault_text(r) == visible_fault(label@, value@, limit as nat, allow_empty),
{
    if (!allow_empty && text::is_blank(value)) || text::byte_length(value) > limit
        || text::contains_control(value) {
        let mut out: String = "Invalid ".to_owned();
        out.append(label);
        out.append(".");
        return Err(out);
    }
    Ok(())
}

pub open spec fn identifier_fault(label: Seq<char>, value: Seq<char>) -> Option<Seq<char>> {
    visible_fault(label, value, 512, false)
}

pub fn validate_identifier(label: &str, value: &str) -> (r: Result<(), String>)
    ensures
        faults::fault_text(r) == identifier_fault(label@, value@),
{
    validate_visible_text(label, value, 512, false)
}

/// What a text comes to, or why it is refused.
pub open spec fn outcome_text(r: Result<String, String>) -> Result<Seq<char>, Seq<char>> {
    match r {
        Ok(s) => Ok(s@),
        Err(e) => Err(e@),
    }
}

/// A GitHub name without regard to case.
pub open spec fn canonical_of(value: Seq<char>) -> Result<Seq<char>, Seq<char>> {
    match visible_fault("GitHub identity"@, value, MAX_IDENTITY_BYTES as nat, false) {
        Some(e) => Err(e),
        None => if !vstd::utf8::is_ascii_chars(value) {
            Err("GitHub login/owner/repository authority must use its accepted ASCII identity."@)
        } else {
            Ok(text::lower(value))
        },
    }
}

pub fn canonical_github(value: &str) -> (r: Result<String, String>)
    ensures
        outcome_text(r) == canonical_of(value@),
{
    match validate_visible_text("GitHub identity", value, MAX_IDENTITY_BYTES, false) {
        Err(e) => Err(e),
        Ok(_) => if !value.is_ascii() {
            Err(
                "GitHub login/owner/repository authority must use its accepted ASCII identity.".to_owned(),
            )
        } else {
            Ok(text::to_lower(value))
        },
    }
}

/// A branch, character by character.
pub open spec fn branch_of(value: Seq<char>) -> Result<Seq<char>, Seq<char>> {
    match visible_fault("branch"@, value, MAX_IDENTITY_BYTES as nat, false) {
        Some(e) => Err(e),
        None => Ok(value),
    }
}

pub fn exact_branch(value: &str) -> (r: Result<String, String>)
    ensures
        outcome_text(r) == branch_of(value@),
{
    match validate_visible_text("branch", value, MAX_IDENTITY_BYTES, false) {
        Err(e) => Err(e),
        Ok(_) => Ok(value.to_owned()),
    }
}

pub open spec fn reason_is_bounded(reason: Seq<char>) -> bool {
    &&& reason.len() > 0
    &&& text::byte_len(reason) <= MAX_FORM_TEXT_BYTES
    &&& !reason.contains('\0')
}

pub open spec fn reason_fault(reason: Seq<char>) -> Option<Seq<char>> {
    if reason_is_bounded(reason) {
        None
    } else {
        Some("provider terminal reason is invalid; durable InFlight retained"@)
    }
}

pub fn bounded_reason(reason: &str) -> (r: Result<String, String>)
    ensures
        match r {
            Ok(s) => s@ == reason@ && reason_fault(reason@) is None,
            Err(e) => reason_fault(reason@) == Some(e@),
        },
{
    if reason.is_empty() || text::byte_length(reason) > MAX_FORM_TEXT_BYTES || text::contains_char(
        reason,
        '\0',
    ) {
        return Err("provider terminal reason is invalid; durable InFlight retained".to_owned());
    }
    Ok(reason.to_owned())
}

// ---------------------------------------------------------------------------
// Forms

/// Why a form cannot be stored.
pub open spec fn durable_fault(f: CreationFormView) -> Option<Seq<char>> {
    let limit = MAX_FORM_TEXT_BYTES as nat;
    if visible_fault("base branch"@, f.base_branch, limit, true) is Some {
        visible_fault("base branch"@, f.base_branch, limit, true)
    } else if visible_fault("published source branch"@, f.source_branch, limit, true) is Some {
        visible_fault("published source branch"@, f.source_branch, limit, true)
    } else if visible_fault("title"@, f.title, limit, true) is Some {
        visible_fault("title"@, f.title, limit, true)
    } else if text::byte_len(f.body) > limit || f.body.contains('\0') {
        Some("Invalid body."@)
    } else if f.local_branch matches Some(local) && visible_fault(
        "informational local branch"@,
        local,
        MAX_IDENTITY_BYTES as nat,
        true,
    ) is Some {
        visible_fault(
            "informational local branch"@,
            f.local_branch->0,
            MAX_IDENTITY_BYTES as nat,
            true,
        )
    } else if f.target_repository.account != f.source_repository.account {
        Some("Source and target must use the same explicitly selected GitHub account."@)
    } else {
        None
    }
}

/// Why a form cannot be prepared.
pub open spec fn form_fault(f: CreationFormView) -> Option<Seq<char>> {
    let limit = MAX_FORM_TEXT_BYTES as nat;
    if durable_fault(f) is Some {
        durable_fault(f)
    } else if visible_fault("base branch"@, f.base_branch, limit, false) is Some {
        visible_fault("base branch"@, f.base_branch, limit, false)
    } else if visible_fault("published source branch"@, f.source_branch, limit, false) is Some {
        visible_fault("published source branch"@, f.source_branch, limit, false)
    } else {
        visible_fault("title"@, f.title, limit, false)
    }
}

pub open spec fn input_of(f: CreationFormView) -> PullRequestCreationInputView {
    PullRequestCreationInputView {
        target_repository: f.target_repository,
        base_branch: f.base_branch,
        source_repository: f.source_repository,
        source_branch: f.source_branch,
        local_branch: f.local_branch,
        title: f.title,
        body: f.body,
        draft: f.draft,
    }
}

impl CreationForm {
    pub fn input(&self) -> (r: PullRequestCreationInput)
        ensures
            r@ == input_of(self@),
    {
        PullRequestCreationInput {
            target_repository: self.target_repository.clone(),
            base_branch: self.base_branch.clone(),
            source_repository: self.source_repository.clone(),
            source_branch: self.source_branch.clone(),
            local_branch: self.local_branch.clone(),
            title: self.title.clone(),
            body: self.body.clone(),
            draft: self.draft,
        }
    }

    pub fn validate_durable(&self) -> (r: Result<(), String>)
        ensures
            faults::fault_text(r) == durable_fault(self@),
    {
        if let Err(e) = validate_visible_text(
            "base branch",
            &self.base_branch,
            MAX_FORM_TEXT_BYTES,
            true,
        ) {
            return Err(e);
        }
        if let Err(e) = validate_visible_text(
            "published source branch",
            &self.source_branch,
            MAX_FORM_TEXT_BYTES,
            true,
        ) {
            return Err(e);
        }
        if let Err(e) = validate_visible_text("title", &self.title, MAX_FORM_TEXT_BYTES, true) {
            return Err(e);
        }
        if text::byte_length(&self.body) > MAX_FORM_TEXT_BYTES || text::contains_char(
            &self.body,
            '\0',
        ) {
            return Err("Invalid body.".to_owned());
        }
        if let Some(local) = &self.local_branch {
            if let Err(e) = validate_visible_text(
                "informational local branch",
                local,
                MAX_IDENTITY_BYTES,
                true,
            ) {
                return Err(e);
            }
        }
        if !self.target_repository.account.same(&self.source_repository.account) {
            return Err(
                "Source and target must use the same explicitly selected GitHub account.".to_owned(),
            );
        }
        Ok(())
    }

    pub fn validate(&self) -> (r: Result<(), String>)
        ensures
            faults::fault_text(r) == form_fault(self@),
    {
        if let Err(e) = self.validate_durable() {
            return Err(e);
        }
        if let Err(e) = validate_visible_text(
            "base branch",
            &self.base_branch,
            MAX_FORM_TEXT_BYTES,
            false,
        ) {
            return Err(e);
        }
        if let Err(e) = validate_visible_text(
            "published source branch",
            &self.source_branch,
            MAX_FORM_TEXT_BYTES,
            false,
        ) {
            return Err(e);
        }
        validate_visible_text("title", &self.title, MAX_FORM_TEXT_BYTES, false)
    }
}

/// A form that can be prepared can be stored; unfinished forms can be stored and not prepared.
pub proof fn law_preparable_forms_are_durable(f: CreationFormView)
    ensures
        form_fault(f) is None ==> durable_fault(f) is None,
        text::blank(f.title) ==> form_fault(f) is Some,
        text::blank(f.base_branch) ==> form_fault(f) is Some,
        text::blank(f.source_branch) ==> form_fault(f) is Some,
{
}

// ---------------------------------------------------------------------------
// The save lane

/// Saves of the form, one at a time: the form that is being saved, the form to save next, and
/// the form that is known to be stored.
pub struct DraftSaveLane {
    pub durable_generation: Option<u64>,
    pub durable_form: Option<CreationForm>,
    pub in_flight: Option<DraftSnapshot>,
    pub pending: Option<DraftSnapshot>,
}

#[verifier::ext_equal]
pub struct DraftSaveLaneView {
    pub durable_generation: Option<u64>,
    pub durable_form: Option<CreationFormView>,
    pub in_flight: Option<DraftSnapshotView>,
    pub pending: Option<DraftSnapshotView>,
}

pub open spec fn optional_form(f: Option<CreationForm>) -> Option<CreationFormView> {
    match f {
        Some(x) => Some(x@),
        None => None,
    }
}

pub open spec fn optional_draft(s: Option<DraftSnapshot>) -> Option<DraftSnapshotView> {
    match s {
        Some(x) => Some(x@),
        None => None,
    }
}

impl View for DraftSaveLane {
    type V = DraftSaveLaneView;

    open spec fn view(&self) -> DraftSaveLaneView {
        DraftSaveLaneView {
            durable_generation: self.durable_generation,
            durable_form: optional_form(self.durable_form),
            in_flight: optional_draft(self.in_flight),
            pending: optional_draft(self.pending),
        }
    }
}

pub open spec fn fresh_lane() -> DraftSaveLaneView {
    DraftSaveLaneView {
        durable_generation: None,
        durable_form: None,
        in_flight: None,
        pending: None,
    }
}

/// Whether a form needs no save: it is being saved, or it is what is stored and nothing else
/// is being saved.
pub open spec fn needs_no_save(lane: DraftSaveLaneView, form: CreationFormView) -> bool {
    match lane.in_flight {
        Some(active) => active.form == form,
        None => lane.durable_form == Some(form),
    }
}

pub open spec fn queued(lane: DraftSaveLaneView, snapshot: DraftSnapshotView) -> DraftSaveLaneView {
    DraftSaveLaneView {
        pending: if needs_no_save(lane, snapshot.form) {
            None
        } else {
            Some(snapshot)
        },
        ..lane
    }
}

/// Whether a save can start.
pub open spec fn can_start(lane: DraftSaveLaneView) -> bool {
    lane.in_flight is None && lane.pending is Some
}

pub open spec fn started(lane: DraftSaveLaneView) -> DraftSaveLaneView {
    if can_start(lane) {
        DraftSaveLaneView { in_flight: lane.pending, pending: None, ..lane }
    } else {
        lane
    }
}

/// Why a save receipt is refused.
pub open spec fn receipt_fault(lane: DraftSaveLaneView, record: DraftRecordView) -> Option<
    Seq<char>,
> {
    match lane.in_flight {
        None => Some("Draft save completion has no owned in-flight snapshot."@),
        Some(active) => if active.form != record.form {
            Some("Draft save receipt does not match its owned snapshot."@)
        } else {
            None
        },
    }
}

pub open spec fn saved(lane: DraftSaveLaneView, record: DraftRecordView) -> DraftSaveLaneView {
    if receipt_fault(lane, record) is None {
        DraftSaveLaneView {
            durable_generation: Some(record.generation),
            durable_form: Some(record.form),
            in_flight: None,
            ..lane
        }
    } else {
        DraftSaveLaneView { in_flight: None, ..lane }
    }
}

pub open spec fn is_drained(lane: DraftSaveLaneView, form: CreationFormView) -> bool {
    lane.in_flight is None && lane.pending is None && lane.durable_form == Some(form)
}

impl DraftSaveLane {
    pub fn new() -> (r: Self)
        ensures
            r@ == fresh_lane(),
    {
        DraftSaveLane {
            durable_generation: None,
            durable_form: None,
            in_flight: None,
            pending: None,
        }
    }

    pub fn restore(&mut self, record: &DraftRecord)
        ensures
            final(self)@ == (DraftSaveLaneView {
                durable_generation: Some(record.generation),
                durable_form: Some(record.form@),
                ..old(self)@
            }),
    {
        self.durable_generation = Some(record.generation);
        self.durable_form = Some(record.form.clone());
    }

    pub fn queue(&mut self, snapshot: DraftSnapshot)
        ensures
            final(self)@ == queued(old(self)@, snapshot@),
    {
        let settled: bool = match &self.in_flight {
            Some(active) => active.form.same(&snapshot.form),
            None => match &self.durable_form {
                Some(form) => form.same(&snapshot.form),
                None => false,
            },
        };
        self.pending = if settled {
            None
        } else {
            Some(snapshot)
        };
    }

    /// The save to make now: what the store must hold, and the form.
    pub fn start_next(&mut self) -> (r: Option<(Option<u64>, DraftSnapshot)>)
        ensures
            final(self)@ == started(old(self)@),
            match r {
                Some((expected, snapshot)) => can_start(old(self)@) && expected == old(
                    self,
                ).durable_generation && Some(snapshot@) == old(self)@.pending,
                None => !can_start(old(self)@),
            },
    {
        if self.in_flight.is_some() {
            return None;
        }
        match self.pending.take() {
            None => None,
            Some(snapshot) => {
                self.in_flight = Some(snapshot.clone());
                Some((self.durable_generation, snapshot))
            },
        }
    }

    pub fn complete_success(&mut self, record: &DraftRecord) -> (r: Result<(), String>)
        ensures
            faults::fault_text(r) == receipt_fault(old(self)@, record@),
            final(self)@ == saved(old(self)@, record@),
    {
        match self.in_flight.take() {
            None => Err("Draft save completion has no owned in-flight snapshot.".to_owned()),
            Some(snapshot) => {
                if !snapshot.form.same(&record.form) {
                    return Err(
                        "Draft save receipt does not match its owned snapshot.".to_owned(),
                    );
                }
                self.durable_generation = Some(record.generation);
                self.durable_form = Some(record.form.clone());
                Ok(())
            },
        }
    }

    pub fn complete_failure(&mut self)
        ensures
            final(self)@ == (DraftSaveLaneView { in_flight: None, ..old(self)@ }),
    {
        self.in_flight = None;
    }

    pub fn is_idle_durable(&self, form: &CreationForm) -> (r: bool)
        ensures
            r == is_drained(self@, form@),
    {
        self.in_flight.is_none() && self.pending.is_none() && (match &self.durable_form {
            Some(f) => f.same(form),
            None => false,
        })
    }
}

/// A form that was queued is the form that is stored once its save has been acknowledged.
pub proof fn law_queued_form_becomes_durable(
    lane: DraftSaveLaneView,
    snapshot: DraftSnapshotView,
    record: DraftRecordView,
)
    requires
        lane.in_flight is None,
        record.form == snapshot.form,
    ensures
        ({
            let q = queued(lane, snapshot);
            if can_start(q) {
                is_drained(saved(started(q), record), snapshot.form)
            } else {
                is_drained(q, snapshot.form)
            }
        }),
{
}

/// A form that is queued while another is being saved is saved next, and is stored once both
/// saves have been acknowledged.
pub proof fn law_typing_during_a_save_is_saved_next(
    lane: DraftSaveLaneView,
    latest: DraftSnapshotView,
    first_record: DraftRecordView,
    second_record: DraftRecordView,
)
    requires
        lane.in_flight is Some,
        lane.in_flight->0.form == first_record.form,
        latest.form != first_record.form,
        second_record.form == latest.form,
    ensures
        ({
            let after_first = saved(queued(lane, latest), first_record);
            &&& !is_drained(after_first, latest.form)
            &&& can_start(after_first)
            &&& started(after_first).in_flight == Some(latest)
            &&& is_drained(saved(started(after_first), second_record), latest.form)
        }),
{
}

/// Only one save runs at a time.
pub proof fn law_one_save_at_a_time(lane: DraftSaveLaneView, snapshot: DraftSnapshotView)
    ensures
        lane.in_flight is Some ==> !can_start(queued(lane, snapshot)),
        lane.in_flight is Some ==> queued(lane, snapshot).in_flight == lane.in_flight,
{
}

// ---------------------------------------------------------------------------
// Stored drafts

/// The account whose draft a store keeps; without one the store keeps the shared draft.
pub struct DraftOwner {
    pub account: Option<(String, String)>,
}

pub open spec fn owner_pair(owner: DraftOwner) -> Option<(Seq<char>, Seq<char>)> {
    encoding::pair_text(owner.account)
}

pub open spec fn pair_of(account: AccountView) -> Result<(Seq<char>, Seq<char>), Seq<char>> {
    match canonical_of(account.host) {
        Err(e) => Err(e),
        Ok(host) => match canonical_of(account.login) {
            Err(e) => Err(e),
            Ok(login) => Ok((host, login)),
        },
    }
}

impl DraftOwner {
    pub fn for_account(account: &Account) -> (r: Result<DraftOwner, String>)
        ensures
            match r {
                Ok(owner) => pair_of(account@) is Ok && owner_pair(owner) == Some(
                    pair_of(account@)->Ok_0,
                ),
                Err(e) => pair_of(account@) == Err::<(Seq<char>, Seq<char>), Seq<char>>(e@),
            },
    {
        match canonical_github(&account.host) {
            Err(e) => Err(e),
            Ok(host) => match canonical_github(&account.login) {
                Err(e) => Err(e),
                Ok(login) => Ok(DraftOwner { account: Some((host, login)) }),
            },
        }
    }

    pub fn copy(&self) -> (r: DraftOwner)
        ensures
            r == *self,
    {
        DraftOwner {
            account: match &self.account {
                Some(pair) => Some((pair.0.clone(), pair.1.clone())),
                None => None,
            },
        }
    }

    /// Whether a form belongs to the account of this store.
    pub open spec fn owns(self, form: CreationFormView) -> bool {
        match owner_pair(self) {
            None => true,
            Some(pair) => text::same_ignoring_case(form.target_repository.account.host, pair.0)
                && text::same_ignoring_case(form.target_repository.account.login, pair.1),
        }
    }

    pub fn draft_matches_account(&self, form: &CreationForm) -> (r: bool)
        ensures
            r == self.owns(form@),
    {
        match &self.account {
            None => true,
            Some(pair) => text::equals_ignoring_case(
                &form.target_repository.account.host,
                &pair.0,
            ) && text::equals_ignoring_case(&form.target_repository.account.login, &pair.1),
        }
    }

    pub open spec fn file_name(self) -> Seq<char> {
        match owner_pair(self) {
            Some(pair) => "account-"@ + encoding::hex(
                encoding::sha256_of(
                    vstd::utf8::encode_utf8(encoding::json_of_pair(pair.0, pair.1)),
                ),
            ) + ".json"@,
            None => "form.json"@,
        }
    }

    /// The name of the file that keeps the draft.
    pub fn draft_file(&self) -> (r: String)
        ensures
            r@ == self.file_name(),
    {
        match &self.account {
            Some(pair) => {
                let json = encoding::pair_json(&pair.0, &pair.1);
                let mut out: String = "account-".to_owned();
                out.append(&encoding::digest_text(&json.as_str().as_bytes_vec()));
                out.append(".json");
                out
            },
            None => "form.json".to_owned(),
        }
    }

    /// Why a draft that was read cannot be used.
    pub open spec fn draft_fault(self, record: DraftRecordView) -> Option<Seq<char>> {
        if record.version != RECORD_VERSION {
            Some(
                "Creation draft uses unsupported version "@ + text::decimal(record.version as nat)
                    + "; the original was preserved."@,
            )
        } else if durable_fault(record.form) is Some {
            durable_fault(record.form)
        } else if !self.owns(record.form) {
            Some("Creation draft belongs to another account; the original was preserved."@)
        } else {
            None
        }
    }

    pub fn validate_draft(&self, record: &DraftRecord) -> (r: Result<(), String>)
        ensures
            faults::fault_text(r) == self.draft_fault(record@),
    {
        if record.version != RECORD_VERSION {
            let mut out: String = "Creation draft uses unsupported version ".to_owned();
            out.append(&text::decimal_text(record.version));
            out.append("; the original was preserved.");
            return Err(out);
        }
        if let Err(e) = record.form.validate_durable() {
            return Err(e);
        }
        if !self.draft_matches_account(&record.form) {
            return Err(
                "Creation draft belongs to another account; the original was preserved.".to_owned(),
            );
        }
        Ok(())
    }

    /// What a store gives as its draft: its own, or else the shared draft where it belongs to
    /// the same account.
    pub fn choose_draft(
        &self,
        own: Option<DraftRecord>,
        shared: Option<DraftRecord>,
    ) -> (r: Option<DraftRecord>)
        ensures
            r == match own {
                Some(record) => Some(record),
                None => match shared {
                    Some(record) => if self.account is Some && self.owns(record.form@) {
                        Some(record)
                    } else {
                        None
                    },
                    None => None,
                },
            },
    {
        match own {
            Some(record) => Some(record),
            None => match shared {
                Some(record) => if self.account.is_some() && self.draft_matches_account(
                    &record.form,
                ) {
                    Some(record)
                } else {
                    None
                },
                None => None,
            },
        }
    }

    /// Why a form cannot be saved, whatever the store holds.
    pub open spec fn form_fault(self, form: CreationFormView) -> Option<Seq<char>> {
        if durable_fault(form) is Some {
            durable_fault(form)
        } else if !self.owns(form) {
            Some(
                "Creation draft account differs from its storage lane; no text was overwritten."@,
            )
        } else {
            None
        }
    }

    /// What is tested of a form before the store is read.
    pub fn validate_form(&self, form: &CreationForm) -> (r: Result<(), String>)
        ensures
            match r {
                Ok(_) => self.form_fault(form@) is None,
                Err(e) => self.form_fault(form@) == Some(e@),
            },
    {
        if let Err(e) = form.validate_durable() {
            return Err(e);
        }
        if !self.draft_matches_account(form) {
            return Err(
                "Creation draft account differs from its storage lane; no text was overwritten.".to_owned(),
            );
        }
        Ok(())
    }

    /// Why a form cannot be saved over what the store holds.
    pub open spec fn save_fault(
        self,
        expected: Option<u64>,
        current: Option<u64>,
        form: CreationFormView,
    ) -> Option<Seq<char>> {
        if self.form_fault(form) is Some {
            self.form_fault(form)
        } else if current != expected {
            Some(
                "The durable creation draft changed in another window; this stale snapshot was not written. Reload before preparing."@,
            )
        } else if expected == Some(u64::MAX) {
            Some("Creation draft generation is exhausted."@)
        } else {
            None
        }
    }

    /// The record to store, unless the draft in the store is not the one that the caller saw.
    pub fn next_draft(
        &self,
        expected: Option<u64>,
        current: Option<u64>,
        form: CreationForm,
    ) -> (r: Result<DraftRecord, String>)
        ensures
            match r {
                Err(e) => self.save_fault(expected, current, form@) == Some(e@),
                Ok(record) => {
                    &&& self.save_fault(expected, current, form@) is None
                    &&& record.version == RECORD_VERSION
                    &&& record.generation == match expected {
                        Some(g) => g + 1,
                        None => 1,
                    }
                    &&& record.form == form
                },
            },
    {
        if let Err(e) = self.validate_form(&form) {
            return Err(e);
        }
        let same: bool = match (current, expected) {
            (Some(a), Some(b)) => a == b,
            (None, None) => true,
            _ => false,
        };
        if !same {
            return Err(
                "The durable creation draft changed in another window; this stale snapshot was not written. Reload before preparing.".to_owned(),
            );
        }
        let last: u64 = match expected {
            Some(g) => g,
            None => 0,
        };
        if last == u64::MAX {
            return Err("Creation draft generation is exhausted.".to_owned());
        }
        Ok(DraftRecord { version: RECORD_VERSION, generation: last + 1, form })
    }
}

/// A draft that was saved can be read back by the same store, and only a save that names its
/// generation replaces it.
pub proof fn law_saved_drafts_are_read_back(
    owner: DraftOwner,
    expected: Option<u64>,
    current: Option<u64>,
    form: CreationFormView,
    record: DraftRecordView,
    stale: Option<u64>,
    other: CreationFormView,
)
    requires
        owner.save_fault(expected, current, form) is None,
        record.version == RECORD_VERSION,
        record.form == form,
        stale != Some(record.generation),
    ensures
        owner.draft_fault(record) is None,
        owner.save_fault(stale, Some(record.generation), other) is Some,
{
}

} // verus!

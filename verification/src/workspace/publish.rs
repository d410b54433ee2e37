//! The publication of the source branch of a pull request: what is prepared, confirmed and
//! recorded. What is read of the provider and of the checkout is handed in.

use vstd::prelude::*;
use vstd::string::*;

use crate::domain;
use crate::domain::{Repository, RepositoryView};
use crate::text;
use crate::workspace::git;
use crate::workspace::git::{
    BranchOid, BranchOidView, HeadState, HeadStateView, LocalSnapshot, LocalSnapshotView,
    SnapshotGuard, SnapshotGuardView,
};

verus! {

/// What identifies a directory.
#[derive(Debug, PartialEq, Eq)]
pub struct FilesystemIdentity {
    pub device: u64,
    pub inode: u64,
}

#[verifier::ext_equal]
pub struct FilesystemIdentityView {
    pub device: u64,
    pub inode: u64,
}

impl View for FilesystemIdentity {
    type V = FilesystemIdentityView;

    open spec fn view(&self) -> FilesystemIdentityView {
        FilesystemIdentityView {
            device: self.device,
            inode: self.inode,
        }
    }
}

impl Clone for FilesystemIdentity {
    fn clone(&self) -> (r: Self)
        ensures
            r == *self,
    {
        FilesystemIdentity {
            device: self.device,
            inode: self.inode,
        }
    }
}

impl FilesystemIdentity {
    /// Whether two values agree in every field.
    pub fn same(&self, other: &Self) -> (r: bool)
        ensures
            r == (self@ == other@),
    {
        self.device == other.device
            && self.inode == other.inode
    }
}

/// The directories of a checkout, by their identities.
#[derive(Debug, PartialEq, Eq)]
pub struct PrPublishFilesystemIdentity {
    pub checkout: FilesystemIdentity,
    pub git_dir: FilesystemIdentity,
    pub common_git_dir: FilesystemIdentity,
}

#[verifier::ext_equal]
pub struct PrPublishFilesystemIdentityView {
    pub checkout: FilesystemIdentityView,
    pub git_dir: FilesystemIdentityView,
    pub common_git_dir: FilesystemIdentityView,
}

impl View for PrPublishFilesystemIdentity {
    type V = PrPublishFilesystemIdentityView;

    open spec fn view(&self) -> PrPublishFilesystemIdentityView {
        PrPublishFilesystemIdentityView {
            checkout: self.checkout@,
            git_dir: self.git_dir@,
            common_git_dir: self.common_git_dir@,
        }
    }
}

impl Clone for PrPublishFilesystemIdentity {
    fn clone(&self) -> (r: Self)
        ensures
            r == *self,
    {
        PrPublishFilesystemIdentity {
            checkout: self.checkout.clone(),
            git_dir: self.git_dir.clone(),
            common_git_dir: self.common_git_dir.clone(),
        }
    }
}

impl PrPublishFilesystemIdentity {
    /// Whether two values agree in every field.
    pub fn same(&self, other: &Self) -> (r: bool)
        ensures
            r == (self@ == other@),
    {
        self.checkout.same(&other.checkout)
            && self.git_dir.same(&other.git_dir)
            && self.common_git_dir.same(&other.common_git_dir)
    }
}

/// How the source branch gets published.
#[derive(Debug, PartialEq, Eq)]
pub enum PrPublishMode {
    UpToDate,
    Publish,
    RepublishWithLease,
}

#[verifier::ext_equal]
pub enum PrPublishModeView {
    UpToDate,
    Publish,
    RepublishWithLease,
}

impl View for PrPublishMode {
    type V = PrPublishModeView;

    open spec fn view(&self) -> PrPublishModeView {
        match self {
            PrPublishMode::UpToDate => PrPublishModeView::UpToDate,
            PrPublishMode::Publish => PrPublishModeView::Publish,
            PrPublishMode::RepublishWithLease => PrPublishModeView::RepublishWithLease,
        }
    }
}

impl Clone for PrPublishMode {
    fn clone(&self) -> (r: Self)
        ensures
            r == *self,
    {
        match self {
            PrPublishMode::UpToDate => PrPublishMode::UpToDate,
            PrPublishMode::Publish => PrPublishMode::Publish,
            PrPublishMode::RepublishWithLease => PrPublishMode::RepublishWithLease,
        }
    }
}

impl PrPublishMode {
    /// Whether two values are the same, with the same fields.
    pub fn same(&self, other: &Self) -> (r: bool)
        ensures
            r == (self@ == other@),
    {
        match (self, other) {
            (PrPublishMode::UpToDate, PrPublishMode::UpToDate) => true,
            (PrPublishMode::Publish, PrPublishMode::Publish) => true,
            (PrPublishMode::RepublishWithLease, PrPublishMode::RepublishWithLease) => true,
            _ => false,
        }
    }
}

/// The pull request that a checkout belongs to.
#[derive(Debug, PartialEq, Eq)]
pub struct AssociationKey {
    pub provider: String,
    pub host: String,
    pub account: String,
    pub repository: String,
    pub pull_request: u64,
}

#[verifier::ext_equal]
pub struct AssociationKeyView {
    pub provider: Seq<char>,
    pub host: Seq<char>,
    pub account: Seq<char>,
    pub repository: Seq<char>,
    pub pull_request: u64,
}

impl View for AssociationKey {
    type V = AssociationKeyView;

    open spec fn view(&self) -> AssociationKeyView {
        AssociationKeyView {
            provider: self.provider@,
            host: self.host@,
            account: self.account@,
            repository: self.repository@,
            pull_request: self.pull_request,
        }
    }
}

impl Clone for AssociationKey {
    fn clone(&self) -> (r: Self)
        ensures
            r == *self,
    {
        AssociationKey {
            provider: self.provider.clone(),
            host: self.host.clone(),
            account: self.account.clone(),
            repository: self.repository.clone(),
            pull_request: self.pull_request,
        }
    }
}

impl AssociationKey {
    /// Whether two values agree in every field.
    pub fn same(&self, other: &Self) -> (r: bool)
        ensures
            r == (self@ == other@),
    {
        self.provider == other.provider
            && self.host == other.host
            && self.account == other.account
            && self.repository == other.repository
            && self.pull_request == other.pull_request
    }
}

/// A checkout, its pull request and its directories.
#[derive(Debug, PartialEq, Eq)]
pub struct CheckoutAssociation {
    pub key: AssociationKey,
    pub filesystem: PrPublishFilesystemIdentity,
}

#[verifier::ext_equal]
pub struct CheckoutAssociationView {
    pub key: AssociationKeyView,
    pub filesystem: PrPublishFilesystemIdentityView,
}

impl View for CheckoutAssociation {
    type V = CheckoutAssociationView;

    open spec fn view(&self) -> CheckoutAssociationView {
        CheckoutAssociationView {
            key: self.key@,
            filesystem: self.filesystem@,
        }
    }
}

impl Clone for CheckoutAssociation {
    fn clone(&self) -> (r: Self)
        ensures
            r == *self,
    {
        CheckoutAssociation {
            key: self.key.clone(),
            filesystem: self.filesystem.clone(),
        }
    }
}

impl CheckoutAssociation {
    /// Whether two values agree in every field.
    pub fn same(&self, other: &Self) -> (r: bool)
        ensures
            r == (self@ == other@),
    {
        self.key.same(&other.key)
            && self.filesystem.same(&other.filesystem)
    }
}

/// The selected repository, account and pull request. What a log may show of it is
/// `debug_text`.
#[derive(PartialEq, Eq)]
pub struct PrPublishContext {
    pub selected_repository: Repository,
    pub pull_request_number: u64,
}

#[verifier::ext_equal]
pub struct PrPublishContextView {
    pub selected_repository: RepositoryView,
    pub pull_request_number: u64,
}

impl View for PrPublishContext {
    type V = PrPublishContextView;

    open spec fn view(&self) -> PrPublishContextView {
        PrPublishContextView {
            selected_repository: self.selected_repository@,
            pull_request_number: self.pull_request_number,
        }
    }
}

impl Clone for PrPublishContext {
    fn clone(&self) -> (r: Self)
        ensures
            r == *self,
    {
        PrPublishContext {
            selected_repository: self.selected_repository.clone(),
            pull_request_number: self.pull_request_number,
        }
    }
}

impl PrPublishContext {
    /// Whether two values agree in every field.
    pub fn same(&self, other: &Self) -> (r: bool)
        ensures
            r == (self@ == other@),
    {
        self.selected_repository.same(&other.selected_repository)
            && self.pull_request_number == other.pull_request_number
    }
}

/// Where a pull request comes from, as the provider says.
#[derive(Debug, PartialEq, Eq)]
pub struct PullRequestCheckoutSource {
    pub number: u64,
    pub base_repository: Repository,
    pub source_repository: Option<Repository>,
    pub source_branch: String,
    pub target_branch: String,
    pub base_sha: String,
    pub head_sha: String,
}

#[verifier::ext_equal]
pub struct PullRequestCheckoutSourceView {
    pub number: u64,
    pub base_repository: RepositoryView,
    pub source_repository: Option<RepositoryView>,
    pub source_branch: Seq<char>,
    pub target_branch: Seq<char>,
    pub base_sha: Seq<char>,
    pub head_sha: Seq<char>,
}

impl View for PullRequestCheckoutSource {
    type V = PullRequestCheckoutSourceView;

    open spec fn view(&self) -> PullRequestCheckoutSourceView {
        PullRequestCheckoutSourceView {
            number: self.number,
            base_repository: self.base_repository@,
            source_repository: domain::optional_repository(self.source_repository),
            source_branch: self.source_branch@,
            target_branch: self.target_branch@,
            base_sha: self.base_sha@,
            head_sha: self.head_sha@,
        }
    }
}

impl Clone for PullRequestCheckoutSource {
    fn clone(&self) -> (r: Self)
        ensures
            r == *self,
    {
        PullRequestCheckoutSource {
            number: self.number,
            base_repository: self.base_repository.clone(),
            source_repository: self.source_repository.clone(),
            source_branch: self.source_branch.clone(),
            target_branch: self.target_branch.clone(),
            base_sha: self.base_sha.clone(),
            head_sha: self.head_sha.clone(),
        }
    }
}

impl PullRequestCheckoutSource {
    /// Whether two values agree in every field.
    pub fn same(&self, other: &Self) -> (r: bool)
        ensures
            r == (self@ == other@),
    {
        self.number == other.number
            && self.base_repository.same(&other.base_repository)
            && domain::same_optional_repository(&self.source_repository, &other.source_repository)
            && self.source_branch == other.source_branch
            && self.target_branch == other.target_branch
            && self.base_sha == other.base_sha
            && self.head_sha == other.head_sha
    }
}

/// The endpoint that a push goes to.
#[derive(Debug, PartialEq, Eq)]
pub struct PushDestinationObservation {
    pub remote: String,
    pub host: String,
    pub owner: String,
    pub name: String,
    pub configuration_fingerprint: String,
}

#[verifier::ext_equal]
pub struct PushDestinationObservationView {
    pub remote: Seq<char>,
    pub host: Seq<char>,
    pub owner: Seq<char>,
    pub name: Seq<char>,
    pub configuration_fingerprint: Seq<char>,
}

impl View for PushDestinationObservation {
    type V = PushDestinationObservationView;

    open spec fn view(&self) -> PushDestinationObservationView {
        PushDestinationObservationView {
            remote: self.remote@,
            host: self.host@,
            owner: self.owner@,
            name: self.name@,
            configuration_fingerprint: self.configuration_fingerprint@,
        }
    }
}

impl Clone for PushDestinationObservation {
    fn clone(&self) -> (r: Self)
        ensures
            r == *self,
    {
        PushDestinationObservation {
            remote: self.remote.clone(),
            host: self.host.clone(),
            owner: self.owner.clone(),
            name: self.name.clone(),
            configuration_fingerprint: self.configuration_fingerprint.clone(),
        }
    }
}

impl PushDestinationObservation {
    /// Whether two values agree in every field.
    pub fn same(&self, other: &Self) -> (r: bool)
        ensures
            r == (self@ == other@),
    {
        self.remote == other.remote
            && self.host == other.host
            && self.owner == other.owner
            && self.name == other.name
            && self.configuration_fingerprint == other.configuration_fingerprint
    }
}

/// A publication as it was prepared. What a log may show of it is `debug_text`.
#[derive(PartialEq, Eq)]
pub struct PrPublishPreparation {
    pub selected_host: String,
    pub selected_account: String,
    pub selected_repository: String,
    pub pull_request_number: u64,
    pub source_host: String,
    pub source_repository: String,
    pub local_branch: String,
    pub local_oid: String,
    pub remote_branch: String,
    pub provider_head_oid: String,
    pub expected_remote_oid: String,
    pub destination: PushDestinationObservation,
    pub filesystem: PrPublishFilesystemIdentity,
    pub mode: PrPublishMode,
    pub snapshot_guard: SnapshotGuard,
    pub selected_repository_identity: Repository,
    pub prepared_source: PullRequestCheckoutSource,
}

#[verifier::ext_equal]
pub struct PrPublishPreparationView {
    pub selected_host: Seq<char>,
    pub selected_account: Seq<char>,
    pub selected_repository: Seq<char>,
    pub pull_request_number: u64,
    pub source_host: Seq<char>,
    pub source_repository: Seq<char>,
    pub local_branch: Seq<char>,
    pub local_oid: Seq<char>,
    pub remote_branch: Seq<char>,
    pub provider_head_oid: Seq<char>,
    pub expected_remote_oid: Seq<char>,
    pub destination: PushDestinationObservationView,
    pub filesystem: PrPublishFilesystemIdentityView,
    pub mode: PrPublishModeView,
    pub snapshot_guard: SnapshotGuardView,
    pub selected_repository_identity: RepositoryView,
    pub prepared_source: PullRequestCheckoutSourceView,
}

impl View for PrPublishPreparation {
    type V = PrPublishPreparationView;

    open spec fn view(&self) -> PrPublishPreparationView {
        PrPublishPreparationView {
            selected_host: self.selected_host@,
            selected_account: self.selected_account@,
            selected_repository: self.selected_repository@,
            pull_request_number: self.pull_request_number,
            source_host: self.source_host@,
            source_repository: self.source_repository@,
            local_branch: self.local_branch@,
            local_oid: self.local_oid@,
            remote_branch: self.remote_branch@,
            provider_head_oid: self.provider_head_oid@,
            expected_remote_oid: self.expected_remote_oid@,
            destination: self.destination@,
            filesystem: self.filesystem@,
            mode: self.mode@,
            snapshot_guard: self.snapshot_guard@,
            selected_repository_identity: self.selected_repository_identity@,
            prepared_source: self.prepared_source@,
        }
    }
}

impl Clone for PrPublishPreparation {
    fn clone(&self) -> (r: Self)
        ensures
            r == *self,
    {
        PrPublishPreparation {
            selected_host: self.selected_host.clone(),
            selected_account: self.selected_account.clone(),
            selected_repository: self.selected_repository.clone(),
            pull_request_number: self.pull_request_number,
            source_host: self.source_host.clone(),
            source_repository: self.source_repository.clone(),
            local_branch: self.local_branch.clone(),
            local_oid: self.local_oid.clone(),
            remote_branch: self.remote_branch.clone(),
            provider_head_oid: self.provider_head_oid.clone(),
            expected_remote_oid: self.expected_remote_oid.clone(),
            destination: self.destination.clone(),
            filesystem: self.filesystem.clone(),
            mode: self.mode.clone(),
            snapshot_guard: self.snapshot_guard.clone(),
            selected_repository_identity: self.selected_repository_identity.clone(),
            prepared_source: self.prepared_source.clone(),
        }
    }
}

impl PrPublishPreparation {
    /// Whether two values agree in every field.
    pub fn same(&self, other: &Self) -> (r: bool)
        ensures
            r == (self@ == other@),
    {
        self.selected_host == other.selected_host
            && self.selected_account == other.selected_account
            && self.selected_repository == other.selected_repository
            && self.pull_request_number == other.pull_request_number
            && self.source_host == other.source_host
            && self.source_repository == other.source_repository
            && self.local_branch == other.local_branch
            && self.local_oid == other.local_oid
            && self.remote_branch == other.remote_branch
            && self.provider_head_oid == other.provider_head_oid
            && self.expected_remote_oid == other.expected_remote_oid
            && self.destination.same(&other.destination)
            && self.filesystem.same(&other.filesystem)
            && self.mode.same(&other.mode)
            && self.snapshot_guard.same(&other.snapshot_guard)
            && self.selected_repository_identity.same(&other.selected_repository_identity)
            && self.prepared_source.same(&other.prepared_source)
    }
}

/// The record of an attempt at a publication. It holds no path and no address.
#[derive(Debug, PartialEq, Eq)]
pub struct PrPublishAttempt {
    pub request_id: u64,
    pub attempt_id: u64,
    pub selected_host: String,
    pub selected_account: String,
    pub selected_repository: String,
    pub pull_request_number: u64,
    pub source_host: String,
    pub source_repository: String,
    pub local_branch: String,
    pub local_oid: String,
    pub destination_remote: String,
    pub destination_repository: String,
    pub destination_configuration_fingerprint: String,
    pub remote_branch: String,
    pub provider_head_oid: String,
    pub expected_remote_oid: String,
    pub filesystem: PrPublishFilesystemIdentity,
    pub mode: PrPublishMode,
}

#[verifier::ext_equal]
pub struct PrPublishAttemptView {
    pub request_id: u64,
    pub attempt_id: u64,
    pub selected_host: Seq<char>,
    pub selected_account: Seq<char>,
    pub selected_repository: Seq<char>,
    pub pull_request_number: u64,
    pub source_host: Seq<char>,
    pub source_repository: Seq<char>,
    pub local_branch: Seq<char>,
    pub local_oid: Seq<char>,
    pub destination_remote: Seq<char>,
    pub destination_repository: Seq<char>,
    pub destination_configuration_fingerprint: Seq<char>,
    pub remote_branch: Seq<char>,
    pub provider_head_oid: Seq<char>,
    pub expected_remote_oid: Seq<char>,
    pub filesystem: PrPublishFilesystemIdentityView,
    pub mode: PrPublishModeView,
}

impl View for PrPublishAttempt {
    type V = PrPublishAttemptView;

    open spec fn view(&self) -> PrPublishAttemptView {
        PrPublishAttemptView {
            request_id: self.request_id,
            attempt_id: self.attempt_id,
            selected_host: self.selected_host@,
            selected_account: self.selected_account@,
            selected_repository: self.selected_repository@,
            pull_request_number: self.pull_request_number,
            source_host: self.source_host@,
            source_repository: self.source_repository@,
            local_branch: self.local_branch@,
            local_oid: self.local_oid@,
            destination_remote: self.destination_remote@,
            destination_repository: self.destination_repository@,
            destination_configuration_fingerprint: self.destination_configuration_fingerprint@,
            remote_branch: self.remote_branch@,
            provider_head_oid: self.provider_head_oid@,
            expected_remote_oid: self.expected_remote_oid@,
            filesystem: self.filesystem@,
            mode: self.mode@,
        }
    }
}

impl Clone for PrPublishAttempt {
    fn clone(&self) -> (r: Self)
        ensures
            r == *self,
    {
        PrPublishAttempt {
            request_id: self.request_id,
            attempt_id: self.attempt_id,
            selected_host: self.selected_host.clone(),
            selected_account: self.selected_account.clone(),
            selected_repository: self.selected_repository.clone(),
            pull_request_number: self.pull_request_number,
            source_host: self.source_host.clone(),
            source_repository: self.source_repository.clone(),
            local_branch: self.local_branch.clone(),
            local_oid: self.local_oid.clone(),
            destination_remote: self.destination_remote.clone(),
            destination_repository: self.destination_repository.clone(),
            destination_configuration_fingerprint: self.destination_configuration_fingerprint.clone(),
            remote_branch: self.remote_branch.clone(),
            provider_head_oid: self.provider_head_oid.clone(),
            expected_remote_oid: self.expected_remote_oid.clone(),
            filesystem: self.filesystem.clone(),
            mode: self.mode.clone(),
        }
    }
}

impl PrPublishAttempt {
    /// Whether two values agree in every field.
    pub fn same(&self, other: &Self) -> (r: bool)
        ensures
            r == (self@ == other@),
    {
        self.request_id == other.request_id
            && self.attempt_id == other.attempt_id
            && self.selected_host == other.selected_host
            && self.selected_account == other.selected_account
            && self.selected_repository == other.selected_repository
            && self.pull_request_number == other.pull_request_number
            && self.source_host == other.source_host
            && self.source_repository == other.source_repository
            && self.local_branch == other.local_branch
            && self.local_oid == other.local_oid
            && self.destination_remote == other.destination_remote
            && self.destination_repository == other.destination_repository
            && self.destination_configuration_fingerprint == other.destination_configuration_fingerprint
            && self.remote_branch == other.remote_branch
            && self.provider_head_oid == other.provider_head_oid
            && self.expected_remote_oid == other.expected_remote_oid
            && self.filesystem.same(&other.filesystem)
            && self.mode.same(&other.mode)
    }
}

pub open spec fn optional_pr_publish_attempt(x: Option<PrPublishAttempt>) -> Option<PrPublishAttemptView> {
    match x {
        Some(v) => Some(v@),
        None => None,
    }
}

pub fn same_optional_pr_publish_attempt(a: &Option<PrPublishAttempt>, b: &Option<PrPublishAttempt>) -> (r: bool)
    ensures
        r == (optional_pr_publish_attempt(*a) == optional_pr_publish_attempt(*b)),
{
    match (a, b) {
        (Some(x), Some(y)) => x.same(y),
        (None, None) => true,
        _ => false,
    }
}

/// The push that a confirmed publication makes.
#[derive(Debug, PartialEq, Eq)]
pub struct PrPublishDispatch {
    pub destination: PushDestinationObservation,
    pub local_branch: String,
    pub local_oid: String,
    pub remote_branch: String,
    pub expected_remote_oid: String,
    pub with_lease: bool,
}

#[verifier::ext_equal]
pub struct PrPublishDispatchView {
    pub destination: PushDestinationObservationView,
    pub local_branch: Seq<char>,
    pub local_oid: Seq<char>,
    pub remote_branch: Seq<char>,
    pub expected_remote_oid: Seq<char>,
    pub with_lease: bool,
}

impl View for PrPublishDispatch {
    type V = PrPublishDispatchView;

    open spec fn view(&self) -> PrPublishDispatchView {
        PrPublishDispatchView {
            destination: self.destination@,
            local_branch: self.local_branch@,
            local_oid: self.local_oid@,
            remote_branch: self.remote_branch@,
            expected_remote_oid: self.expected_remote_oid@,
            with_lease: self.with_lease,
        }
    }
}

impl Clone for PrPublishDispatch {
    fn clone(&self) -> (r: Self)
        ensures
            r == *self,
    {
        PrPublishDispatch {
            destination: self.destination.clone(),
            local_branch: self.local_branch.clone(),
            local_oid: self.local_oid.clone(),
            remote_branch: self.remote_branch.clone(),
            expected_remote_oid: self.expected_remote_oid.clone(),
            with_lease: self.with_lease,
        }
    }
}

impl PrPublishDispatch {
    /// Whether two values agree in every field.
    pub fn same(&self, other: &Self) -> (r: bool)
        ensures
            r == (self@ == other@),
    {
        self.destination.same(&other.destination)
            && self.local_branch == other.local_branch
            && self.local_oid == other.local_oid
            && self.remote_branch == other.remote_branch
            && self.expected_remote_oid == other.expected_remote_oid
            && self.with_lease == other.with_lease
    }
}

/// The branch that a checkout is on, its commit, and the state it was read in.
#[derive(Debug, PartialEq, Eq)]
pub struct LocalHead {
    pub branch: String,
    pub oid: String,
    pub guard: SnapshotGuard,
}

#[verifier::ext_equal]
pub struct LocalHeadView {
    pub branch: Seq<char>,
    pub oid: Seq<char>,
    pub guard: SnapshotGuardView,
}

impl View for LocalHead {
    type V = LocalHeadView;

    open spec fn view(&self) -> LocalHeadView {
        LocalHeadView {
            branch: self.branch@,
            oid: self.oid@,
            guard: self.guard@,
        }
    }
}

impl Clone for LocalHead {
    fn clone(&self) -> (r: Self)
        ensures
            r == *self,
    {
        LocalHead {
            branch: self.branch.clone(),
            oid: self.oid.clone(),
            guard: self.guard.clone(),
        }
    }
}

impl LocalHead {
    /// Whether two values agree in every field.
    pub fn same(&self, other: &Self) -> (r: bool)
        ensures
            r == (self@ == other@),
    {
        self.branch == other.branch
            && self.oid == other.oid
            && self.guard.same(&other.guard)
    }
}

/// How far a preparation is: what is to be read next, or what it came to.
#[derive(PartialEq, Eq)]
pub enum PublishState {
    CheckingCheckout,
    ReadingSnapshot { source_repository: Repository },
    ObservingDestination { source_repository: Repository, head: LocalHead },
    ObservingBranch { source_repository: Repository, head: LocalHead, destination: PushDestinationObservation },
    ComparingHistory { source_repository: Repository, head: LocalHead, destination: PushDestinationObservation, expected: String },
    Prepared { preparation: PrPublishPreparation },
    Refused { reason: String },
}

#[verifier::ext_equal]
pub enum PublishStateView {
    CheckingCheckout,
    ReadingSnapshot { source_repository: RepositoryView },
    ObservingDestination { source_repository: RepositoryView, head: LocalHeadView },
    ObservingBranch { source_repository: RepositoryView, head: LocalHeadView, destination: PushDestinationObservationView },
    ComparingHistory { source_repository: RepositoryView, head: LocalHeadView, destination: PushDestinationObservationView, expected: Seq<char> },
    Prepared { preparation: PrPublishPreparationView },
    Refused { reason: Seq<char> },
}

impl View for PublishState {
    type V = PublishStateView;

    open spec fn view(&self) -> PublishStateView {
        match self {
            PublishState::CheckingCheckout => PublishStateView::CheckingCheckout,
            PublishState::ReadingSnapshot { source_repository } => PublishStateView::ReadingSnapshot { source_repository: source_repository@ },
            PublishState::ObservingDestination { source_repository, head } => PublishStateView::ObservingDestination { source_repository: source_repository@, head: head@ },
            PublishState::ObservingBranch { source_repository, head, destination } => PublishStateView::ObservingBranch { source_repository: source_repository@, head: head@, destination: destination@ },
            PublishState::ComparingHistory { source_repository, head, destination, expected } => PublishStateView::ComparingHistory { source_repository: source_repository@, head: head@, destination: destination@, expected: expected@ },
            PublishState::Prepared { preparation } => PublishStateView::Prepared { preparation: preparation@ },
            PublishState::Refused { reason } => PublishStateView::Refused { reason: reason@ },
        }
    }
}

impl Clone for PublishState {
    fn clone(&self) -> (r: Self)
        ensures
            r == *self,
    {
        match self {
            PublishState::CheckingCheckout => PublishState::CheckingCheckout,
            PublishState::ReadingSnapshot { source_repository } => PublishState::ReadingSnapshot { source_repository: source_repository.clone() },
            PublishState::ObservingDestination { source_repository, head } => PublishState::ObservingDestination { source_repository: source_repository.clone(), head: head.clone() },
            PublishState::ObservingBranch { source_repository, head, destination } => PublishState::ObservingBranch { source_repository: source_repository.clone(), head: head.clone(), destination: destination.clone() },
            PublishState::ComparingHistory { source_repository, head, destination, expected } => PublishState::ComparingHistory { source_repository: source_repository.clone(), head: head.clone(), destination: destination.clone(), expected: expected.clone() },
            PublishState::Prepared { preparation } => PublishState::Prepared { preparation: preparation.clone() },
            PublishState::Refused { reason } => PublishState::Refused { reason: reason.clone() },
        }
    }
}

impl PublishState {
    /// Whether two values are the same, with the same fields.
    pub fn same(&self, other: &Self) -> (r: bool)
        ensures
            r == (self@ == other@),
    {
        match (self, other) {
            (PublishState::CheckingCheckout, PublishState::CheckingCheckout) => true,
            (PublishState::ReadingSnapshot { source_repository: source_repository_a }, PublishState::ReadingSnapshot { source_repository: source_repository_b }) => source_repository_a.same(source_repository_b),
            (PublishState::ObservingDestination { source_repository: source_repository_a, head: head_a }, PublishState::ObservingDestination { source_repository: source_repository_b, head: head_b }) => source_repository_a.same(source_repository_b) && head_a.same(head_b),
            (PublishState::ObservingBranch { source_repository: source_repository_a, head: head_a, destination: destination_a }, PublishState::ObservingBranch { source_repository: source_repository_b, head: head_b, destination: destination_b }) => source_repository_a.same(source_repository_b) && head_a.same(head_b) && destination_a.same(destination_b),
            (PublishState::ComparingHistory { source_repository: source_repository_a, head: head_a, destination: destination_a, expected: expected_a }, PublishState::ComparingHistory { source_repository: source_repository_b, head: head_b, destination: destination_b, expected: expected_b }) => source_repository_a.same(source_repository_b) && head_a.same(head_b) && destination_a.same(destination_b) && text::same_text(expected_a, expected_b),
            (PublishState::Prepared { preparation: preparation_a }, PublishState::Prepared { preparation: preparation_b }) => preparation_a.same(preparation_b),
            (PublishState::Refused { reason: reason_a }, PublishState::Refused { reason: reason_b }) => text::same_text(reason_a, reason_b),
            _ => false,
        }
    }
}

/// A preparation under way.
#[derive(PartialEq, Eq)]
pub struct PublishRun {
    pub context: PrPublishContext,
    pub association: CheckoutAssociation,
    pub source: PullRequestCheckoutSource,
    pub state: PublishState,
}

#[verifier::ext_equal]
pub struct PublishRunView {
    pub context: PrPublishContextView,
    pub association: CheckoutAssociationView,
    pub source: PullRequestCheckoutSourceView,
    pub state: PublishStateView,
}

impl View for PublishRun {
    type V = PublishRunView;

    open spec fn view(&self) -> PublishRunView {
        PublishRunView {
            context: self.context@,
            association: self.association@,
            source: self.source@,
            state: self.state@,
        }
    }
}

// ---------------------------------------------------------------------------
// Modes

pub open spec fn mode_label_of(mode: PrPublishModeView) -> Seq<char> {
    match mode {
        PrPublishModeView::UpToDate => "Published"@,
        PrPublishModeView::Publish => "Publish"@,
        PrPublishModeView::RepublishWithLease => "Re-publish with lease"@,
    }
}

impl PrPublishMode {
    pub fn label(&self) -> (r: &'static str)
        ensures
            r@ == mode_label_of(self@),
    {
        match self {
            PrPublishMode::UpToDate => "Published",
            PrPublishMode::Publish => "Publish",
            PrPublishMode::RepublishWithLease => "Re-publish with lease",
        }
    }
}

// ---------------------------------------------------------------------------
// Short object identifiers

/// The number of bytes of a short object identifier.
pub const SHORT_OID_BYTES: usize = 12;

/// The first count of characters, from `k` on, whose UTF-8 form has `n` bytes or more.
pub open spec fn characters_reaching(s: Seq<char>, n: nat, k: int) -> int
    decreases s.len() - k,
{
    if k >= s.len() || text::byte_len(s.take(k)) >= n {
        k
    } else {
        characters_reaching(s, n, k + 1)
    }
}

pub open spec fn short_oid_of(s: Seq<char>) -> Seq<char> {
    if text::byte_len(s) <= SHORT_OID_BYTES {
        s
    } else {
        s.take(characters_reaching(s, SHORT_OID_BYTES as nat, 0))
    }
}

/// Whether a text can be cut after the bytes of a short form, as any hexadecimal one can.
pub open spec fn has_short_form(s: Seq<char>) -> bool {
    text::byte_len(s) <= SHORT_OID_BYTES || text::byte_len(short_oid_of(s)) == SHORT_OID_BYTES
}

pub fn short_oid(oid: &str) -> (r: String)
    requires
        has_short_form(oid@),
    ensures
        r@ == short_oid_of(oid@),
        text::byte_len(oid@) > SHORT_OID_BYTES ==> text::byte_len(r@) == SHORT_OID_BYTES,
{
    first_characters(oid)
}

fn can_shorten(oid: &str) -> (r: bool)
    ensures
        r == has_short_form(oid@),
{
    text::byte_length(oid) <= SHORT_OID_BYTES || text::byte_length(&first_characters(oid))
        == SHORT_OID_BYTES
}

/// As many characters as reach the bytes of a short form.
fn first_characters(oid: &str) -> (r: String)
    ensures
        r@ == short_oid_of(oid@),
{
    if text::byte_length(oid) <= SHORT_OID_BYTES {
        return oid.to_owned();
    }
    let chars = text::chars_of(oid);
    let mut k: usize = 0;
    while k < chars.len()
        invariant
            chars@ == oid@,
            k <= chars@.len(),
            text::byte_len(oid@) > SHORT_OID_BYTES,
            characters_reaching(oid@, SHORT_OID_BYTES as nat, 0) == characters_reaching(
                oid@,
                SHORT_OID_BYTES as nat,
                k as int,
            ),
        decreases chars.len() - k,
    {
        let prefix = text::text_of(&chars, 0, k);
        proof {
            assert(prefix@ =~= oid@.take(k as int));
        }
        if text::byte_length(&prefix) >= SHORT_OID_BYTES {
            return prefix;
        }
        k += 1;
    }
    proof {
        assert(oid@.take(k as int) =~= oid@);
    }
    oid.to_owned()
}

// ---------------------------------------------------------------------------
// Preparations

pub open spec fn is_summarizable(p: PrPublishPreparationView) -> bool {
    &&& has_short_form(p.local_oid)
    &&& p.mode is Publish ==> has_short_form(p.provider_head_oid)
    &&& p.mode is RepublishWithLease ==> has_short_form(p.expected_remote_oid)
}

pub open spec fn summary_of(p: PrPublishPreparationView) -> Seq<char> {
    match p.mode {
        PrPublishModeView::UpToDate => "Published "@ + p.source_repository + " from local "@
            + p.local_branch + " at "@ + short_oid_of(p.local_oid) + " on "@ + p.destination.remote
            + "/"@ + p.remote_branch,
        PrPublishModeView::Publish => "Publish "@ + p.source_repository + " at "@ + short_oid_of(
            p.provider_head_oid,
        ) + " from local "@ + p.local_branch + " at "@ + short_oid_of(p.local_oid) + " to "@
            + p.destination.remote + "/"@ + p.remote_branch + " (non-force)"@,
        PrPublishModeView::RepublishWithLease => "Re-publish "@ + p.source_repository
            + " from local "@ + p.local_branch + " at "@ + short_oid_of(p.local_oid) + " to "@
            + p.destination.remote + "/"@ + p.remote_branch + " with exact lease "@ + short_oid_of(
            p.expected_remote_oid,
        ),
    }
}

pub open spec fn attempt_of(p: PrPublishPreparationView, request_id: u64) -> PrPublishAttemptView {
    PrPublishAttemptView {
        request_id,
        attempt_id: request_id,
        selected_host: p.selected_host,
        selected_account: p.selected_account,
        selected_repository: p.selected_repository,
        pull_request_number: p.pull_request_number,
        source_host: p.source_host,
        source_repository: p.source_repository,
        local_branch: p.local_branch,
        local_oid: p.local_oid,
        destination_remote: p.destination.remote,
        destination_repository: p.destination.host + "/"@ + p.destination.owner + "/"@
            + p.destination.name,
        destination_configuration_fingerprint: p.destination.configuration_fingerprint,
        remote_branch: p.remote_branch,
        provider_head_oid: p.provider_head_oid,
        expected_remote_oid: p.expected_remote_oid,
        filesystem: p.filesystem,
        mode: p.mode,
    }
}

pub open spec fn dispatch_of(
    p: PrPublishPreparationView,
    fresh: Result<PullRequestCheckoutSource, String>,
) -> Result<PrPublishDispatchView, Seq<char>> {
    match fresh {
        Err(_) => Err("fresh PR source revalidation failed before Git dispatch"@),
        Ok(source) => if source@ != p.prepared_source {
            Err("fresh PR source/account/repository/branch/head changed since confirmation"@)
        } else if p.mode is UpToDate {
            Err("the PR source branch already has the prepared local OID"@)
        } else {
            Ok(
                PrPublishDispatchView {
                    destination: p.destination,
                    local_branch: p.local_branch,
                    local_oid: p.local_oid,
                    remote_branch: p.remote_branch,
                    expected_remote_oid: p.expected_remote_oid,
                    with_lease: p.mode is RepublishWithLease,
                },
            )
        },
    }
}

pub open spec fn dispatch_view(r: Result<PrPublishDispatch, String>) -> Result<
    PrPublishDispatchView,
    Seq<char>,
> {
    match r {
        Ok(d) => Ok(d@),
        Err(e) => Err(e@),
    }
}

impl PrPublishPreparation {
    /// Whether the identifiers that the summary shows have a short form.
    pub fn can_summarize(&self) -> (r: bool)
        ensures
            r == is_summarizable(self@),
    {
        can_shorten(&self.local_oid) && match &self.mode {
            PrPublishMode::UpToDate => true,
            PrPublishMode::Publish => can_shorten(&self.provider_head_oid),
            PrPublishMode::RepublishWithLease => can_shorten(&self.expected_remote_oid),
        }
    }

    pub fn summary(&self) -> (r: String)
        requires
            is_summarizable(self@),
        ensures
            r@ == summary_of(self@),
    {
        match &self.mode {
            PrPublishMode::UpToDate => {
                let mut out: String = "Published ".to_owned();
                out.append(&self.source_repository);
                out.append(" from local ");
                out.append(&self.local_branch);
                out.append(" at ");
                out.append(&short_oid(&self.local_oid));
                out.append(" on ");
                out.append(&self.destination.remote);
                out.append("/");
                out.append(&self.remote_branch);
                out
            },
            PrPublishMode::Publish => {
                let mut out: String = "Publish ".to_owned();
                out.append(&self.source_repository);
                out.append(" at ");
                out.append(&short_oid(&self.provider_head_oid));
                out.append(" from local ");
                out.append(&self.local_branch);
                out.append(" at ");
                out.append(&short_oid(&self.local_oid));
                out.append(" to ");
                out.append(&self.destination.remote);
                out.append("/");
                out.append(&self.remote_branch);
                out.append(" (non-force)");
                out
            },
            PrPublishMode::RepublishWithLease => {
                let mut out: String = "Re-publish ".to_owned();
                out.append(&self.source_repository);
                out.append(" from local ");
                out.append(&self.local_branch);
                out.append(" at ");
                out.append(&short_oid(&self.local_oid));
                out.append(" to ");
                out.append(&self.destination.remote);
                out.append("/");
                out.append(&self.remote_branch);
                out.append(" with exact lease ");
                out.append(&short_oid(&self.expected_remote_oid));
                out
            },
        }
    }

    pub fn snapshot_guard(&self) -> (r: &SnapshotGuard)
        ensures
            r@ == self@.snapshot_guard,
    {
        &self.snapshot_guard
    }

    /// What is recorded of an attempt.
    pub fn attempt(&self, request_id: u64) -> (r: PrPublishAttempt)
        ensures
            r@ == attempt_of(self@, request_id),
    {
        let mut destination_repository: String = self.destination.host.clone();
        destination_repository.append("/");
        destination_repository.append(&self.destination.owner);
        destination_repository.append("/");
        destination_repository.append(&self.destination.name);
        PrPublishAttempt {
            request_id,
            attempt_id: request_id,
            selected_host: self.selected_host.clone(),
            selected_account: self.selected_account.clone(),
            selected_repository: self.selected_repository.clone(),
            pull_request_number: self.pull_request_number,
            source_host: self.source_host.clone(),
            source_repository: self.source_repository.clone(),
            local_branch: self.local_branch.clone(),
            local_oid: self.local_oid.clone(),
            destination_remote: self.destination.remote.clone(),
            destination_repository,
            destination_configuration_fingerprint: self.destination.configuration_fingerprint.clone(),
            remote_branch: self.remote_branch.clone(),
            provider_head_oid: self.provider_head_oid.clone(),
            expected_remote_oid: self.expected_remote_oid.clone(),
            filesystem: self.filesystem.clone(),
            mode: self.mode.clone(),
        }
    }

    /// The push to make, given the source as it was read afresh.
    pub fn dispatch(&self, fresh: Result<PullRequestCheckoutSource, String>) -> (r: Result<
        PrPublishDispatch,
        String,
    >)
        ensures
            dispatch_view(r) == dispatch_of(self@, fresh),
    {
        let source = match fresh {
            Ok(source) => source,
            Err(_) => {
                return Err("fresh PR source revalidation failed before Git dispatch".to_owned());
            },
        };
        if !source.same(&self.prepared_source) {
            return Err(
                "fresh PR source/account/repository/branch/head changed since confirmation".to_owned(),
            );
        }
        let with_lease: bool = match &self.mode {
            PrPublishMode::UpToDate => {
                return Err("the PR source branch already has the prepared local OID".to_owned());
            },
            PrPublishMode::Publish => false,
            PrPublishMode::RepublishWithLease => true,
        };
        Ok(
            PrPublishDispatch {
                destination: self.destination.clone(),
                local_branch: self.local_branch.clone(),
                local_oid: self.local_oid.clone(),
                remote_branch: self.remote_branch.clone(),
                expected_remote_oid: self.expected_remote_oid.clone(),
                with_lease,
            },
        )
    }
}

// ---------------------------------------------------------------------------
// Decisions

pub open spec fn accounts_match(a: RepositoryView, b: RepositoryView) -> bool {
    text::same_ignoring_case(a.account.host, b.account.host) && a.account.login == b.account.login
}

pub open spec fn repositories_match(a: RepositoryView, b: RepositoryView) -> bool {
    text::same_ignoring_case(a.host, b.host) && text::same_ignoring_case(a.owner, b.owner)
        && text::same_ignoring_case(a.name, b.name) && accounts_match(a, b)
}

fn same_account(left: &Repository, right: &Repository) -> (r: bool)
    ensures
        r == accounts_match(left@, right@),
{
    text::equals_ignoring_case(&left.account.host, &right.account.host) && left.account.login
        == right.account.login
}

fn same_repository(left: &Repository, right: &Repository) -> (r: bool)
    ensures
        r == repositories_match(left@, right@),
{
    text::equals_ignoring_case(&left.host, &right.host) && text::equals_ignoring_case(
        &left.owner,
        &right.owner,
    ) && text::equals_ignoring_case(&left.name, &right.name) && same_account(left, right)
}

/// Why a source or a checkout is not the selected one.
pub open spec fn identity_fault(
    context: PrPublishContextView,
    key: AssociationKeyView,
    source: PullRequestCheckoutSourceView,
) -> Option<Seq<char>> {
    let selected = context.selected_repository;
    if context.pull_request_number == 0 || !text::same_ignoring_case(
        selected.account.host,
        selected.host,
    ) || source.number != context.pull_request_number || !repositories_match(
        source.base_repository,
        selected,
    ) {
        Some("Fresh PR source does not match the selected repository and PR"@)
    } else if key.provider != "github"@ || !text::same_ignoring_case(key.host, selected.host)
        || key.account != selected.account.login || !text::same_ignoring_case(
        key.repository,
        domain::full_name_of(selected.owner, selected.name),
    ) || key.pull_request != context.pull_request_number {
        Some("Attached checkout identity does not match the selected account/repository/PR"@)
    } else {
        None
    }
}

pub fn validate_selected_identity(
    context: &PrPublishContext,
    key: &AssociationKey,
    source: &PullRequestCheckoutSource,
) -> (r: Result<(), String>)
    ensures
        match r {
            Ok(_) => identity_fault(context@, key@, source@) is None,
            Err(e) => identity_fault(context@, key@, source@) == Some(e@),
        },
{
    let selected = &context.selected_repository;
    if context.pull_request_number == 0 || !text::equals_ignoring_case(
        &selected.account.host,
        &selected.host,
    ) || source.number != context.pull_request_number || !same_repository(
        &source.base_repository,
        selected,
    ) {
        return Err("Fresh PR source does not match the selected repository and PR".to_owned());
    }
    if !text::same_text(&key.provider, "github") || !text::equals_ignoring_case(
        &key.host,
        &selected.host,
    ) || !text::same_text(&key.account, &selected.account.login) || !text::equals_ignoring_case(
        &key.repository,
        &selected.full_name(),
    ) || key.pull_request != context.pull_request_number {
        return Err(
            "Attached checkout identity does not match the selected account/repository/PR".to_owned(),
        );
    }
    Ok(())
}

/// The repository to publish to. The target repository never takes its place.
pub open spec fn source_repository_of(
    context: PrPublishContextView,
    source: PullRequestCheckoutSourceView,
) -> Result<RepositoryView, Seq<char>> {
    match source.source_repository {
        None => Err(
            "The PR source repository was deleted or is unavailable; the target repository will not be used as a fallback"@,
        ),
        Some(repository) => if !text::same_ignoring_case(
            repository.host,
            context.selected_repository.host,
        ) || !text::same_ignoring_case(repository.account.host, repository.host) || !accounts_match(
            repository,
            context.selected_repository,
        ) {
            Err("Fresh PR source account does not match the selected account"@)
        } else {
            Ok(repository)
        },
    }
}

/// The commit that a branch has in a list.
pub open spec fn branch_oid_of(list: Seq<BranchOidView>, branch: Seq<char>) -> Option<Seq<char>>
    decreases list.len(),
{
    if list.len() == 0 {
        None
    } else if list[0].branch == branch {
        Some(list[0].oid)
    } else {
        branch_oid_of(list.drop_first(), branch)
    }
}

/// The branch and commit to publish.
pub open spec fn publishable_head_of(snapshot: LocalSnapshotView) -> Result<
    LocalHeadView,
    Seq<char>,
> {
    if !snapshot.operation_is_default {
        Err("Publishing is paused while a merge, rebase, cherry-pick, or revert is active"@)
    } else {
        match snapshot.head {
            HeadStateView::Detached { .. } => Err(
                "Attach a local branch before preparing PR publication"@,
            ),
            HeadStateView::Unborn { .. } => Err(
                "The attached local branch has no commit to publish"@,
            ),
            HeadStateView::Attached { branch, oid } => if branch_oid_of(
                snapshot.local_branch_oids,
                branch,
            ) != Some(oid) {
                Err("Attached local branch identity changed during preparation"@)
            } else {
                Ok(LocalHeadView { branch, oid, guard: snapshot.guard })
            },
        }
    }
}

/// The commit that the destination has, where the provider says the same.
pub open spec fn expected_remote_of(
    source: PullRequestCheckoutSourceView,
    remote: Option<Seq<char>>,
) -> Result<Seq<char>, Seq<char>> {
    match remote {
        None => Err(
            "The configured push endpoint does not contain the fresh PR source branch; no absent state was inferred"@,
        ),
        Some(oid) => if oid != source.head_sha {
            Err(
                "Provider and installed Git report different PR source heads; refresh before publishing"@,
            )
        } else {
            Ok(oid)
        },
    }
}

pub open spec fn mode_of(local_oid: Seq<char>, expected: Seq<char>, is_ancestor: bool) -> PrPublishModeView {
    if local_oid == expected {
        PrPublishModeView::UpToDate
    } else if is_ancestor {
        PrPublishModeView::Publish
    } else {
        PrPublishModeView::RepublishWithLease
    }
}

pub open spec fn preparation_of(
    run: PublishRunView,
    source_repository: RepositoryView,
    head: LocalHeadView,
    destination: PushDestinationObservationView,
    expected: Seq<char>,
    mode: PrPublishModeView,
) -> PrPublishPreparationView {
    let selected = run.context.selected_repository;
    PrPublishPreparationView {
        selected_host: selected.host,
        selected_account: selected.account.login,
        selected_repository: domain::full_name_of(selected.owner, selected.name),
        pull_request_number: run.context.pull_request_number,
        source_host: source_repository.host,
        source_repository: domain::full_name_of(source_repository.owner, source_repository.name),
        local_branch: head.branch,
        local_oid: head.oid,
        remote_branch: run.source.source_branch,
        provider_head_oid: run.source.head_sha,
        expected_remote_oid: expected,
        destination,
        filesystem: run.association.filesystem,
        mode,
        snapshot_guard: head.guard,
        selected_repository_identity: selected,
        prepared_source: run.source,
    }
}

// ---------------------------------------------------------------------------
// Transitions

pub open spec fn refused(run: PublishRunView, reason: Seq<char>) -> PublishRunView {
    PublishRunView { state: PublishStateView::Refused { reason }, ..run }
}

pub open spec fn begun(
    context: PrPublishContextView,
    association: CheckoutAssociationView,
    source: PullRequestCheckoutSourceView,
) -> PublishRunView {
    let run = PublishRunView {
        context,
        association,
        source,
        state: PublishStateView::CheckingCheckout,
    };
    match identity_fault(context, association.key, source) {
        Some(reason) => refused(run, reason),
        None => run,
    }
}

pub open spec fn checked(run: PublishRunView, result: Result<(), String>) -> PublishRunView {
    if !(run.state is CheckingCheckout) {
        run
    } else {
        match result {
            Err(e) => refused(run, e@),
            Ok(_) => match source_repository_of(run.context, run.source) {
                Err(e) => refused(run, e),
                Ok(source_repository) => PublishRunView {
                    state: PublishStateView::ReadingSnapshot { source_repository },
                    ..run
                },
            },
        }
    }
}

pub open spec fn snapshotted(
    run: PublishRunView,
    result: Result<LocalSnapshot, String>,
) -> PublishRunView {
    match run.state {
        PublishStateView::ReadingSnapshot { source_repository } => match result {
            Err(e) => refused(run, e@),
            Ok(snapshot) => match publishable_head_of(snapshot@) {
                Err(e) => refused(run, e),
                Ok(head) => PublishRunView {
                    state: PublishStateView::ObservingDestination { source_repository, head },
                    ..run
                },
            },
        },
        _ => run,
    }
}

pub open spec fn destined(
    run: PublishRunView,
    result: Result<PushDestinationObservation, String>,
) -> PublishRunView {
    match run.state {
        PublishStateView::ObservingDestination { source_repository, head } => match result {
            Err(e) => refused(run, e@),
            Ok(destination) => PublishRunView {
                state: PublishStateView::ObservingBranch {
                    source_repository,
                    head,
                    destination: destination@,
                },
                ..run
            },
        },
        _ => run,
    }
}

pub open spec fn branch_seen(
    run: PublishRunView,
    result: Result<Option<String>, String>,
) -> PublishRunView {
    match run.state {
        PublishStateView::ObservingBranch { source_repository, head, destination } => match result {
            Err(e) => refused(run, e@),
            Ok(remote) => match expected_remote_of(run.source, text::option_text(remote)) {
                Err(e) => refused(run, e),
                Ok(expected) => PublishRunView {
                    state: if head.oid == expected {
                        PublishStateView::Prepared {
                            preparation: preparation_of(
                                run,
                                source_repository,
                                head,
                                destination,
                                expected,
                                PrPublishModeView::UpToDate,
                            ),
                        }
                    } else {
                        PublishStateView::ComparingHistory {
                            source_repository,
                            head,
                            destination,
                            expected,
                        }
                    },
                    ..run
                },
            },
        },
        _ => run,
    }
}

pub open spec fn compared(run: PublishRunView, result: Result<bool, String>) -> PublishRunView {
    match run.state {
        PublishStateView::ComparingHistory {
            source_repository,
            head,
            destination,
            expected,
        } => match result {
            Err(e) => refused(run, e@),
            Ok(is_ancestor) => PublishRunView {
                state: PublishStateView::Prepared {
                    preparation: preparation_of(
                        run,
                        source_repository,
                        head,
                        destination,
                        expected,
                        if is_ancestor {
                            PrPublishModeView::Publish
                        } else {
                            PrPublishModeView::RepublishWithLease
                        },
                    ),
                },
                ..run
            },
        },
        _ => run,
    }
}

// ---------------------------------------------------------------------------
// Runs

impl PrPublishContext {
    pub fn github(selected_repository: Repository, pull_request_number: u64) -> (r: Self)
        ensures
            r@ == (PrPublishContextView {
                selected_repository: selected_repository@,
                pull_request_number,
            }),
    {
        PrPublishContext { selected_repository, pull_request_number }
    }

    /// What a log may show of the context: who and which pull request, and no path.
    pub fn debug_text(&self) -> (r: String)
        ensures
            r@ == context_debug_of(self@),
    {
        let repository = self.selected_repository.full_name();
        let mut out: String = "PrPublishContext { host: ".to_owned();
        out.append(&text::debug_text(&self.selected_repository.host));
        out.append(", repository: ");
        out.append(&text::debug_text(&repository));
        out.append(", account: ");
        out.append(&text::debug_text(&self.selected_repository.account.login));
        out.append(", pull_request_number: ");
        out.append(&text::decimal_text(self.pull_request_number));
        out.append(", .. }");
        out
    }
}

pub open spec fn context_debug_of(c: PrPublishContextView) -> Seq<char> {
    let r = c.selected_repository;
    "PrPublishContext { host: "@ + text::debug_of(r.host) + ", repository: "@ + text::debug_of(
        domain::full_name_of(r.owner, r.name),
    ) + ", account: "@ + text::debug_of(r.account.login) + ", pull_request_number: "@
        + text::decimal(c.pull_request_number as nat) + ", .. }"@
}

pub open spec fn identity_debug_of(i: FilesystemIdentityView) -> Seq<char> {
    "FilesystemIdentity { device: "@ + text::decimal(i.device as nat) + ", inode: "@
        + text::decimal(i.inode as nat) + " }"@
}

fn identity_debug_text(i: &FilesystemIdentity) -> (r: String)
    ensures
        r@ == identity_debug_of(i@),
{
    let mut out: String = "FilesystemIdentity { device: ".to_owned();
    out.append(&text::decimal_text(i.device));
    out.append(", inode: ");
    out.append(&text::decimal_text(i.inode));
    out.append(" }");
    out
}

pub open spec fn filesystem_debug_of(f: PrPublishFilesystemIdentityView) -> Seq<char> {
    "PrPublishFilesystemIdentity { checkout: "@ + identity_debug_of(f.checkout) + ", git_dir: "@
        + identity_debug_of(f.git_dir) + ", common_git_dir: "@ + identity_debug_of(
        f.common_git_dir,
    ) + " }"@
}

fn filesystem_debug_text(f: &PrPublishFilesystemIdentity) -> (r: String)
    ensures
        r@ == filesystem_debug_of(f@),
{
    let mut out: String = "PrPublishFilesystemIdentity { checkout: ".to_owned();
    out.append(&identity_debug_text(&f.checkout));
    out.append(", git_dir: ");
    out.append(&identity_debug_text(&f.git_dir));
    out.append(", common_git_dir: ");
    out.append(&identity_debug_text(&f.common_git_dir));
    out.append(" }");
    out
}

pub open spec fn destination_debug_of(d: PushDestinationObservationView) -> Seq<char> {
    "PushDestinationObservation { remote: "@ + text::debug_of(d.remote) + ", host: "@
        + text::debug_of(d.host) + ", owner: "@ + text::debug_of(d.owner) + ", name: "@
        + text::debug_of(d.name) + ", configuration_fingerprint: "@ + text::debug_of(
        d.configuration_fingerprint,
    ) + " }"@
}

fn destination_debug_text(d: &PushDestinationObservation) -> (r: String)
    ensures
        r@ == destination_debug_of(d@),
{
    let mut out: String = "PushDestinationObservation { remote: ".to_owned();
    out.append(&text::debug_text(&d.remote));
    out.append(", host: ");
    out.append(&text::debug_text(&d.host));
    out.append(", owner: ");
    out.append(&text::debug_text(&d.owner));
    out.append(", name: ");
    out.append(&text::debug_text(&d.name));
    out.append(", configuration_fingerprint: ");
    out.append(&text::debug_text(&d.configuration_fingerprint));
    out.append(" }");
    out
}

pub open spec fn mode_debug_of(m: PrPublishModeView) -> Seq<char> {
    match m {
        PrPublishModeView::UpToDate => "UpToDate"@,
        PrPublishModeView::Publish => "Publish"@,
        PrPublishModeView::RepublishWithLease => "RepublishWithLease"@,
    }
}

fn mode_debug_text(m: &PrPublishMode) -> (r: &'static str)
    ensures
        r@ == mode_debug_of(m@),
{
    match m {
        PrPublishMode::UpToDate => "UpToDate",
        PrPublishMode::Publish => "Publish",
        PrPublishMode::RepublishWithLease => "RepublishWithLease",
    }
}

/// What a log may show of a preparation: neither the state of the checkout, nor the path of the
/// repository, nor how the provider is read again.
pub open spec fn preparation_debug_of(p: PrPublishPreparationView) -> Seq<char> {
    "PrPublishPreparation { selected_host: "@ + text::debug_of(p.selected_host)
        + ", selected_account: "@ + text::debug_of(p.selected_account)
        + ", selected_repository: "@ + text::debug_of(p.selected_repository)
        + ", pull_request_number: "@ + text::decimal(p.pull_request_number as nat)
        + ", source_host: "@ + text::debug_of(p.source_host)
        + ", source_repository: "@ + text::debug_of(p.source_repository)
        + ", local_branch: "@ + text::debug_of(p.local_branch)
        + ", local_oid: "@ + text::debug_of(p.local_oid)
        + ", remote_branch: "@ + text::debug_of(p.remote_branch)
        + ", provider_head_oid: "@ + text::debug_of(p.provider_head_oid)
        + ", expected_remote_oid: "@ + text::debug_of(p.expected_remote_oid)
        + ", destination: "@ + destination_debug_of(p.destination)
        + ", filesystem: "@ + filesystem_debug_of(p.filesystem)
        + ", mode: "@ + mode_debug_of(p.mode)
        + ", snapshot_guard: \"<opaque>\", provider_revalidation: \"<credential-withholding reader>\" }"@
}

impl PrPublishPreparation {
    /// What a log may show of the preparation.
    pub fn debug_text(&self) -> (r: String)
        ensures
            r@ == preparation_debug_of(self@),
    {
        let mut out: String = "PrPublishPreparation { selected_host: ".to_owned();
        out.append(&text::debug_text(&self.selected_host));
        out.append(", selected_account: ");
        out.append(&text::debug_text(&self.selected_account));
        out.append(", selected_repository: ");
        out.append(&text::debug_text(&self.selected_repository));
        out.append(", pull_request_number: ");
        out.append(&text::decimal_text(self.pull_request_number));
        out.append(", source_host: ");
        out.append(&text::debug_text(&self.source_host));
        out.append(", source_repository: ");
        out.append(&text::debug_text(&self.source_repository));
        out.append(", local_branch: ");
        out.append(&text::debug_text(&self.local_branch));
        out.append(", local_oid: ");
        out.append(&text::debug_text(&self.local_oid));
        out.append(", remote_branch: ");
        out.append(&text::debug_text(&self.remote_branch));
        out.append(", provider_head_oid: ");
        out.append(&text::debug_text(&self.provider_head_oid));
        out.append(", expected_remote_oid: ");
        out.append(&text::debug_text(&self.expected_remote_oid));
        out.append(", destination: ");
        out.append(&destination_debug_text(&self.destination));
        out.append(", filesystem: ");
        out.append(&filesystem_debug_text(&self.filesystem));
        out.append(", mode: ");
        out.append(mode_debug_text(&self.mode));
        out.append(
            ", snapshot_guard: \"<opaque>\", provider_revalidation: \"<credential-withholding reader>\" }",
        );
        out
    }
}

fn source_repository(context: &PrPublishContext, source: &PullRequestCheckoutSource) -> (r: Result<
    Repository,
    String,
>)
    ensures
        match r {
            Ok(repository) => source_repository_of(context@, source@) == Ok::<
                RepositoryView,
                Seq<char>,
            >(repository@),
            Err(e) => source_repository_of(context@, source@) == Err::<RepositoryView, Seq<char>>(
                e@,
            ),
        },
{
    match &source.source_repository {
        None => Err(
            "The PR source repository was deleted or is unavailable; the target repository will not be used as a fallback".to_owned(),
        ),
        Some(repository) => {
            if !text::equals_ignoring_case(&repository.host, &context.selected_repository.host)
                || !text::equals_ignoring_case(&repository.account.host, &repository.host)
                || !same_account(repository, &context.selected_repository) {
                Err("Fresh PR source account does not match the selected account".to_owned())
            } else {
                Ok(repository.clone())
            }
        },
    }
}

proof fn lemma_branch_oid_at(list: Seq<BranchOidView>, branch: Seq<char>, i: int)
    requires
        0 <= i <= list.len(),
        forall|k: int| 0 <= k < i ==> (#[trigger] list[k]).branch != branch,
        i < list.len() ==> list[i].branch == branch,
    ensures
        branch_oid_of(list, branch) == if i < list.len() {
            Some(list[i].oid)
        } else {
            None
        },
    decreases list.len(),
{
    if i > 0 {
        assert(list[0].branch != branch);
        lemma_branch_oid_at(list.drop_first(), branch, i - 1);
    }
}

/// Whether a branch has this commit in the list.
fn branch_has_oid(list: &Vec<BranchOid>, branch: &str, oid: &str) -> (r: bool)
    ensures
        r == (branch_oid_of(git::branch_oid_views(list@), branch@) == Some(oid@)),
{
    let ghost all = git::branch_oid_views(list@);
    let mut i: usize = 0;
    while i < list.len()
        invariant
            all == git::branch_oid_views(list@),
            i <= list@.len(),
            forall|k: int| 0 <= k < i ==> (#[trigger] all[k]).branch != branch@,
        decreases list.len() - i,
    {
        if text::same_text(&list[i].branch, branch) {
            proof {
                lemma_branch_oid_at(all, branch@, i as int);
            }
            return text::same_text(&list[i].oid, oid);
        }
        i += 1;
    }
    proof {
        lemma_branch_oid_at(all, branch@, i as int);
    }
    false
}

fn publishable_head(snapshot: &LocalSnapshot) -> (r: Result<LocalHead, String>)
    ensures
        match r {
            Ok(head) => publishable_head_of(snapshot@) == Ok::<LocalHeadView, Seq<char>>(head@),
            Err(e) => publishable_head_of(snapshot@) == Err::<LocalHeadView, Seq<char>>(e@),
        },
{
    if !snapshot.operation_is_default {
        return Err(
            "Publishing is paused while a merge, rebase, cherry-pick, or revert is active".to_owned(),
        );
    }
    match &snapshot.head {
        HeadState::Detached { .. } => Err(
            "Attach a local branch before preparing PR publication".to_owned(),
        ),
        HeadState::Unborn { .. } => Err(
            "The attached local branch has no commit to publish".to_owned(),
        ),
        HeadState::Attached { branch, oid } => {
            if !branch_has_oid(&snapshot.local_branch_oids, branch, oid) {
                return Err(
                    "Attached local branch identity changed during preparation".to_owned(),
                );
            }
            Ok(LocalHead { branch: branch.clone(), oid: oid.clone(), guard: snapshot.guard.clone() })
        },
    }
}

impl PublishRun {
    /// Begins a preparation from the source as it was just read from the provider. What is to
    /// be read next is in the state.
    pub fn begin(
        context: PrPublishContext,
        association: CheckoutAssociation,
        source: PullRequestCheckoutSource,
    ) -> (r: Self)
        ensures
            r@ == begun(context@, association@, source@),
    {
        let state = match validate_selected_identity(&context, &association.key, &source) {
            Ok(_) => PublishState::CheckingCheckout,
            Err(reason) => PublishState::Refused { reason },
        };
        PublishRun { context, association, source, state }
    }

    /// Takes whether the checkout is the one that it was.
    pub fn checkout_checked(&mut self, result: Result<(), String>)
        ensures
            final(self)@ == checked(old(self)@, result),
    {
        match &self.state {
            PublishState::CheckingCheckout => {},
            _ => {
                return;
            },
        }
        self.state = match result {
            Err(reason) => PublishState::Refused { reason },
            Ok(_) => match source_repository(&self.context, &self.source) {
                Err(reason) => PublishState::Refused { reason },
                Ok(source_repository) => PublishState::ReadingSnapshot { source_repository },
            },
        };
    }

    pub fn snapshot_read(&mut self, result: Result<LocalSnapshot, String>)
        ensures
            final(self)@ == snapshotted(old(self)@, result),
    {
        let source_repository = match &self.state {
            PublishState::ReadingSnapshot { source_repository } => source_repository.clone(),
            _ => {
                return;
            },
        };
        self.state = match result {
            Err(reason) => PublishState::Refused { reason },
            Ok(snapshot) => match publishable_head(&snapshot) {
                Err(reason) => PublishState::Refused { reason },
                Ok(head) => PublishState::ObservingDestination { source_repository, head },
            },
        };
    }

    pub fn destination_observed(&mut self, result: Result<PushDestinationObservation, String>)
        ensures
            final(self)@ == destined(old(self)@, result),
    {
        let (source_repository, head) = match &self.state {
            PublishState::ObservingDestination { source_repository, head } => (
                source_repository.clone(),
                head.clone(),
            ),
            _ => {
                return;
            },
        };
        self.state = match result {
            Err(reason) => PublishState::Refused { reason },
            Ok(destination) => PublishState::ObservingBranch {
                source_repository,
                head,
                destination,
            },
        };
    }

    fn preparation(
        &self,
        source_repository: &Repository,
        head: LocalHead,
        destination: PushDestinationObservation,
        expected: String,
        mode: PrPublishMode,
    ) -> (r: PrPublishPreparation)
        ensures
            r@ == preparation_of(
                self@,
                source_repository@,
                head@,
                destination@,
                expected@,
                mode@,
            ),
    {
        let selected = &self.context.selected_repository;
        PrPublishPreparation {
            selected_host: selected.host.clone(),
            selected_account: selected.account.login.clone(),
            selected_repository: selected.full_name(),
            pull_request_number: self.context.pull_request_number,
            source_host: source_repository.host.clone(),
            source_repository: source_repository.full_name(),
            local_branch: head.branch,
            local_oid: head.oid,
            remote_branch: self.source.source_branch.clone(),
            provider_head_oid: self.source.head_sha.clone(),
            expected_remote_oid: expected,
            destination,
            filesystem: self.association.filesystem.clone(),
            mode,
            snapshot_guard: head.guard,
            selected_repository_identity: selected.clone(),
            prepared_source: self.source.clone(),
        }
    }

    /// Takes the commit that the source branch has at the destination.
    pub fn branch_observed(&mut self, result: Result<Option<String>, String>)
        ensures
            final(self)@ == branch_seen(old(self)@, result),
    {
        let (source_repository, head, destination) = match &self.state {
            PublishState::ObservingBranch { source_repository, head, destination } => (
                source_repository.clone(),
                head.clone(),
                destination.clone(),
            ),
            _ => {
                return;
            },
        };
        self.state = match result {
            Err(reason) => PublishState::Refused { reason },
            Ok(None) => PublishState::Refused {
                reason: "The configured push endpoint does not contain the fresh PR source branch; no absent state was inferred".to_owned(),
            },
            Ok(Some(expected)) => {
                if !text::same_text(&expected, &self.source.head_sha) {
                    PublishState::Refused {
                        reason: "Provider and installed Git report different PR source heads; refresh before publishing".to_owned(),
                    }
                } else if text::same_text(&head.oid, &expected) {
                    PublishState::Prepared {
                        preparation: self.preparation(
                            &source_repository,
                            head,
                            destination,
                            expected,
                            PrPublishMode::UpToDate,
                        ),
                    }
                } else {
                    PublishState::ComparingHistory {
                        source_repository,
                        head,
                        destination,
                        expected,
                    }
                }
            },
        };
    }

    /// Takes whether the commit at the destination is an ancestor of the local one.
    pub fn history_compared(&mut self, result: Result<bool, String>)
        ensures
            final(self)@ == compared(old(self)@, result),
    {
        let (source_repository, head, destination, expected) = match &self.state {
            PublishState::ComparingHistory { source_repository, head, destination, expected } => (
                source_repository.clone(),
                head.clone(),
                destination.clone(),
                expected.clone(),
            ),
            _ => {
                return;
            },
        };
        self.state = match result {
            Err(reason) => PublishState::Refused { reason },
            Ok(is_ancestor) => {
                let mode = if is_ancestor {
                    PrPublishMode::Publish
                } else {
                    PrPublishMode::RepublishWithLease
                };
                PublishState::Prepared {
                    preparation: self.preparation(
                        &source_repository,
                        head,
                        destination,
                        expected,
                        mode,
                    ),
                }
            },
        };
    }
}

/// What a preparation comes to, given everything that it may read. A reading that it does not
/// come to asking for changes nothing.
pub open spec fn outcome_of(
    run: PublishRunView,
    checkout: Result<(), String>,
    snapshot: Result<LocalSnapshot, String>,
    destination: Result<PushDestinationObservation, String>,
    remote: Result<Option<String>, String>,
    is_ancestor: Result<bool, String>,
) -> PublishStateView {
    compared(
        branch_seen(
            destined(snapshotted(checked(run, checkout), snapshot), destination),
            remote,
        ),
        is_ancestor,
    ).state
}

/// Prepares a publication from readings that were all made beforehand.
pub fn prepare(
    context: PrPublishContext,
    association: CheckoutAssociation,
    source: PullRequestCheckoutSource,
    checkout: Result<(), String>,
    snapshot: Result<LocalSnapshot, String>,
    destination: Result<PushDestinationObservation, String>,
    remote: Result<Option<String>, String>,
    is_ancestor: Result<bool, String>,
) -> (r: PublishState)
    ensures
        r@ == outcome_of(
            begun(context@, association@, source@),
            checkout,
            snapshot,
            destination,
            remote,
            is_ancestor,
        ),
{
    let mut run = PublishRun::begin(context, association, source);
    run.checkout_checked(checkout);
    run.snapshot_read(snapshot);
    run.destination_observed(destination);
    run.branch_observed(remote);
    run.history_compared(is_ancestor);
    run.state
}

// ---------------------------------------------------------------------------
// Laws

/// A preparation freezes exactly what was read: the selected pull request, the branch that the
/// provider names, the local branch with its commit and state, and the commit at the
/// destination, which is the one that the provider says.
pub proof fn law_a_preparation_freezes_what_was_read(
    context: PrPublishContextView,
    association: CheckoutAssociationView,
    source: PullRequestCheckoutSourceView,
    checkout: Result<(), String>,
    snapshot: Result<LocalSnapshot, String>,
    destination: Result<PushDestinationObservation, String>,
    remote: Result<Option<String>, String>,
    is_ancestor: Result<bool, String>,
)
    ensures
        ({
            let end = outcome_of(
                begun(context, association, source),
                checkout,
                snapshot,
                destination,
                remote,
                is_ancestor,
            );
            end matches PublishStateView::Prepared { preparation } ==> {
                &&& identity_fault(context, association.key, source) is None
                &&& checkout is Ok
                &&& source.source_repository is Some
                &&& preparation.prepared_source == source
                &&& preparation.remote_branch == source.source_branch
                &&& preparation.expected_remote_oid == source.head_sha
                &&& preparation.source_repository == domain::full_name_of(
                    source.source_repository->0.owner,
                    source.source_repository->0.name,
                )
                &&& snapshot matches Ok(s) && s@.head == (HeadStateView::Attached {
                    branch: preparation.local_branch,
                    oid: preparation.local_oid,
                }) && s@.guard == preparation.snapshot_guard
                &&& destination matches Ok(d) && d@ == preparation.destination
                &&& preparation.mode == mode_of(
                    preparation.local_oid,
                    preparation.expected_remote_oid,
                    is_ancestor matches Ok(b) && b,
                )
            }
        }),
{
}

/// A source that was deleted, or that belongs to another account, never has the target
/// repository take its place: nothing is prepared.
pub proof fn law_no_fallback_to_the_target_repository(
    context: PrPublishContextView,
    association: CheckoutAssociationView,
    source: PullRequestCheckoutSourceView,
    checkout: Result<(), String>,
    snapshot: Result<LocalSnapshot, String>,
    destination: Result<PushDestinationObservation, String>,
    remote: Result<Option<String>, String>,
    is_ancestor: Result<bool, String>,
)
    requires
        source_repository_of(context, source) is Err,
    ensures
        outcome_of(
            begun(context, association, source),
            checkout,
            snapshot,
            destination,
            remote,
            is_ancestor,
        ) is Refused,
{
}

/// A push is made only for the source exactly as it was prepared, to the prepared destination
/// and with the prepared commits, and with a lease exactly when history was rewritten.
pub proof fn law_a_changed_source_is_not_pushed(
    p: PrPublishPreparationView,
    fresh: Result<PullRequestCheckoutSource, String>,
)
    ensures
        dispatch_of(p, fresh) is Ok <==> (fresh matches Ok(s) && s@ == p.prepared_source && !(
        p.mode is UpToDate)),
        dispatch_of(p, fresh) matches Ok(d) ==> d.destination == p.destination && d.local_oid
            == p.local_oid && d.expected_remote_oid == p.expected_remote_oid && d.remote_branch
            == p.remote_branch && d.with_lease == (p.mode is RepublishWithLease),
{
}

} // verus!

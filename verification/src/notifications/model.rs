//! The values that notification reads, stores and alerts are made of.

use vstd::prelude::*;
use vstd::string::*;

use crate::clock::ServerDelay;
use crate::domain::{Account, AccountView, Repository, RepositoryView};
use crate::encoding;
use crate::text;

verus! {

/// The pull request that a notification is about.
#[derive(Debug, PartialEq, Eq)]
pub struct NotificationPullRequest {
    pub provider: String,
    pub host: String,
    pub account: String,
    pub owner: String,
    pub repository: String,
    pub pull_request: u64,
}

#[verifier::ext_equal]
pub struct NotificationPullRequestView {
    pub provider: Seq<char>,
    pub host: Seq<char>,
    pub account: Seq<char>,
    pub owner: Seq<char>,
    pub repository: Seq<char>,
    pub pull_request: u64,
}

impl View for NotificationPullRequest {
    type V = NotificationPullRequestView;

    open spec fn view(&self) -> NotificationPullRequestView {
        NotificationPullRequestView {
            provider: self.provider@,
            host: self.host@,
            account: self.account@,
            owner: self.owner@,
            repository: self.repository@,
            pull_request: self.pull_request,
        }
    }
}

impl Clone for NotificationPullRequest {
    fn clone(&self) -> (r: Self)
        ensures
            r == *self,
    {
        NotificationPullRequest {
            provider: self.provider.clone(),
            host: self.host.clone(),
            account: self.account.clone(),
            owner: self.owner.clone(),
            repository: self.repository.clone(),
            pull_request: self.pull_request,
        }
    }
}

impl NotificationPullRequest {
    /// Whether two values agree in every field.
    pub fn same(&self, other: &Self) -> (r: bool)
        ensures
            r == (self@ == other@),
    {
        self.provider == other.provider
            && self.host == other.host
            && self.account == other.account
            && self.owner == other.owner
            && self.repository == other.repository
            && self.pull_request == other.pull_request
    }
}

/// A repository as the notifications of one account name it.
#[derive(Debug, PartialEq, Eq)]
pub struct NotificationRepositoryScope {
    pub provider: String,
    pub host: String,
    pub account: String,
    pub owner: String,
    pub repository: String,
}

#[verifier::ext_equal]
pub struct NotificationRepositoryScopeView {
    pub provider: Seq<char>,
    pub host: Seq<char>,
    pub account: Seq<char>,
    pub owner: Seq<char>,
    pub repository: Seq<char>,
}

impl View for NotificationRepositoryScope {
    type V = NotificationRepositoryScopeView;

    open spec fn view(&self) -> NotificationRepositoryScopeView {
        NotificationRepositoryScopeView {
            provider: self.provider@,
            host: self.host@,
            account: self.account@,
            owner: self.owner@,
            repository: self.repository@,
        }
    }
}

impl Clone for NotificationRepositoryScope {
    fn clone(&self) -> (r: Self)
        ensures
            r == *self,
    {
        NotificationRepositoryScope {
            provider: self.provider.clone(),
            host: self.host.clone(),
            account: self.account.clone(),
            owner: self.owner.clone(),
            repository: self.repository.clone(),
        }
    }
}

impl NotificationRepositoryScope {
    /// Whether two values agree in every field.
    pub fn same(&self, other: &Self) -> (r: bool)
        ensures
            r == (self@ == other@),
    {
        self.provider == other.provider
            && self.host == other.host
            && self.account == other.account
            && self.owner == other.owner
            && self.repository == other.repository
    }
}

/// What makes one remote event that event.
#[derive(Debug, PartialEq, Eq)]
pub struct NotificationEventIdentity {
    pub target: NotificationPullRequest,
    pub source: String,
    pub remote_event_id: String,
}

#[verifier::ext_equal]
pub struct NotificationEventIdentityView {
    pub target: NotificationPullRequestView,
    pub source: Seq<char>,
    pub remote_event_id: Seq<char>,
}

impl View for NotificationEventIdentity {
    type V = NotificationEventIdentityView;

    open spec fn view(&self) -> NotificationEventIdentityView {
        NotificationEventIdentityView {
            target: self.target@,
            source: self.source@,
            remote_event_id: self.remote_event_id@,
        }
    }
}

impl Clone for NotificationEventIdentity {
    fn clone(&self) -> (r: Self)
        ensures
            r == *self,
    {
        NotificationEventIdentity {
            target: self.target.clone(),
            source: self.source.clone(),
            remote_event_id: self.remote_event_id.clone(),
        }
    }
}

impl NotificationEventIdentity {
    /// Whether two values agree in every field.
    pub fn same(&self, other: &Self) -> (r: bool)
        ensures
            r == (self@ == other@),
    {
        self.target.same(&other.target)
            && self.source == other.source
            && self.remote_event_id == other.remote_event_id
    }
}

#[derive(Clone, Copy, Debug, PartialEq, Eq, Structural)]
pub enum NotificationAlertKind {
    ReviewRequest,
    Mention,
    Reply,
    FailedCheckOwnPullRequest,
}

/// What proves that an event concerns the account. Proof of another sort than a request to look
/// at the change is carried as its text.
#[derive(Debug, PartialEq, Eq)]
pub enum NotificationEvidence {
    ReviewRequested { timeline_event_id: String, requested_reviewer: String },
    Other { text: String },
}

#[verifier::ext_equal]
pub enum NotificationEvidenceView {
    ReviewRequested { timeline_event_id: Seq<char>, requested_reviewer: Seq<char> },
    Other { text: Seq<char> },
}

impl View for NotificationEvidence {
    type V = NotificationEvidenceView;

    open spec fn view(&self) -> NotificationEvidenceView {
        match self {
            NotificationEvidence::ReviewRequested {
                timeline_event_id,
                requested_reviewer,
            } => NotificationEvidenceView::ReviewRequested {
                timeline_event_id: timeline_event_id@,
                requested_reviewer: requested_reviewer@,
            },
            NotificationEvidence::Other { text } => NotificationEvidenceView::Other { text: text@ },
        }
    }
}

impl Clone for NotificationEvidence {
    fn clone(&self) -> (r: Self)
        ensures
            r == *self,
    {
        match self {
            NotificationEvidence::ReviewRequested {
                timeline_event_id,
                requested_reviewer,
            } => NotificationEvidence::ReviewRequested {
                timeline_event_id: timeline_event_id.clone(),
                requested_reviewer: requested_reviewer.clone(),
            },
            NotificationEvidence::Other { text } => NotificationEvidence::Other {
                text: text.clone(),
            },
        }
    }
}

/// An event with the proof that it concerns the account.
#[derive(Debug, PartialEq, Eq)]
pub struct ProviderNotificationEvent {
    pub identity: NotificationEventIdentity,
    pub occurred_at: String,
    pub actor: Option<String>,
    pub alert_kind: NotificationAlertKind,
    pub summary: String,
    pub url: String,
    pub evidence: NotificationEvidence,
}

#[verifier::ext_equal]
pub struct ProviderNotificationEventView {
    pub identity: NotificationEventIdentityView,
    pub occurred_at: Seq<char>,
    pub actor: Option<Seq<char>>,
    pub alert_kind: NotificationAlertKind,
    pub summary: Seq<char>,
    pub url: Seq<char>,
    pub evidence: NotificationEvidenceView,
}

impl View for ProviderNotificationEvent {
    type V = ProviderNotificationEventView;

    open spec fn view(&self) -> ProviderNotificationEventView {
        ProviderNotificationEventView {
            identity: self.identity@,
            occurred_at: self.occurred_at@,
            actor: text::option_text(self.actor),
            alert_kind: self.alert_kind,
            summary: self.summary@,
            url: self.url@,
            evidence: self.evidence@,
        }
    }
}

impl Clone for ProviderNotificationEvent {
    fn clone(&self) -> (r: Self)
        ensures
            r == *self,
    {
        ProviderNotificationEvent {
            identity: self.identity.clone(),
            occurred_at: self.occurred_at.clone(),
            actor: self.actor.clone(),
            alert_kind: self.alert_kind,
            summary: self.summary.clone(),
            url: self.url.clone(),
            evidence: self.evidence.clone(),
        }
    }
}

/// The unread events of one pull request, and the candidates of which nothing is known, which
/// are carried as their texts.
#[derive(Clone, Debug, PartialEq, Eq)]
pub struct PullRequestUnreadSummary {
    pub target: NotificationPullRequest,
    pub unread_events: Vec<ProviderNotificationEvent>,
    pub unknown_candidates: Vec<String>,
}

/// Whether the read of one repository saw everything, and why not.
#[derive(Debug, PartialEq, Eq)]
pub struct RepositoryNotificationCompleteness {
    pub target: NotificationRepositoryScope,
    pub complete: bool,
    pub reasons: Vec<String>,
}

#[verifier::ext_equal]
pub struct RepositoryNotificationCompletenessView {
    pub target: NotificationRepositoryScopeView,
    pub complete: bool,
    pub reasons: Seq<Seq<char>>,
}

impl View for RepositoryNotificationCompleteness {
    type V = RepositoryNotificationCompletenessView;

    open spec fn view(&self) -> RepositoryNotificationCompletenessView {
        RepositoryNotificationCompletenessView {
            target: self.target@,
            complete: self.complete,
            reasons: text::texts(self.reasons@),
        }
    }
}

impl Clone for RepositoryNotificationCompleteness {
    fn clone(&self) -> (r: Self)
        ensures
            r@ == self@,
    {
        RepositoryNotificationCompleteness {
            target: self.target.clone(),
            complete: self.complete,
            reasons: text::clone_texts(&self.reasons),
        }
    }
}

/// A notification whose event could not be proven.
#[derive(Debug, PartialEq, Eq)]
pub struct IncompleteNotificationCandidate {
    pub target: Option<NotificationPullRequest>,
    pub provider_notification_id: Option<String>,
    pub kind: String,
    pub reason: String,
}

#[verifier::ext_equal]
pub struct IncompleteNotificationCandidateView {
    pub target: Option<NotificationPullRequestView>,
    pub provider_notification_id: Option<Seq<char>>,
    pub kind: Seq<char>,
    pub reason: Seq<char>,
}

impl View for IncompleteNotificationCandidate {
    type V = IncompleteNotificationCandidateView;

    open spec fn view(&self) -> IncompleteNotificationCandidateView {
        IncompleteNotificationCandidateView {
            target: match self.target {
                Some(x) => Some(x@),
                None => None,
            },
            provider_notification_id: text::option_text(self.provider_notification_id),
            kind: self.kind@,
            reason: self.reason@,
        }
    }
}

impl Clone for IncompleteNotificationCandidate {
    fn clone(&self) -> (r: Self)
        ensures
            r == *self,
    {
        IncompleteNotificationCandidate {
            target: self.target.clone(),
            provider_notification_id: self.provider_notification_id.clone(),
            kind: self.kind.clone(),
            reason: self.reason.clone(),
        }
    }
}

/// What an account has unread.
#[derive(Clone, Debug, PartialEq, Eq)]
pub struct NotificationSnapshot {
    pub state_version: u64,
    pub unread_by_pull_request: Vec<PullRequestUnreadSummary>,
    pub repository_completeness: Vec<RepositoryNotificationCompleteness>,
    pub incomplete_candidates: Vec<IncompleteNotificationCandidate>,
    pub notices: Vec<String>,
}

#[verifier::ext_equal]
pub struct NotificationSnapshotView {
    pub state_version: u64,
    pub unread_by_pull_request: Seq<PullRequestUnreadSummary>,
    pub repository_completeness: Seq<RepositoryNotificationCompleteness>,
    pub incomplete_candidates: Seq<IncompleteNotificationCandidate>,
    pub notices: Seq<String>,
}

impl View for NotificationSnapshot {
    type V = NotificationSnapshotView;

    open spec fn view(&self) -> NotificationSnapshotView {
        NotificationSnapshotView {
            state_version: self.state_version,
            unread_by_pull_request: self.unread_by_pull_request@,
            repository_completeness: self.repository_completeness@,
            incomplete_candidates: self.incomplete_candidates@,
            notices: self.notices@,
        }
    }
}

/// The events that stand on the screen, with the version of the state they came from.
#[derive(Clone, Debug, PartialEq, Eq)]
pub struct DisplayedNotificationSet {
    pub state_version: u64,
    pub events: Vec<NotificationEventIdentity>,
}

/// The validators of earlier responses, which let a server answer that nothing changed.
#[derive(Clone, Debug, PartialEq, Eq)]
pub struct NotificationConditionalCache {
    pub entries: Vec<(String, String)>,
}

impl NotificationConditionalCache {
    pub fn empty() -> (r: Self)
        ensures
            r.entries@ == Seq::<(String, String)>::empty(),
    {
        NotificationConditionalCache { entries: Vec::new() }
    }

    pub fn copy(&self) -> (r: Self)
        ensures
            r.entries@ == self.entries@,
    {
        let mut entries: Vec<(String, String)> = Vec::new();
        let mut i: usize = 0;
        while i < self.entries.len()
            invariant
                i <= self.entries@.len(),
                entries@ =~= self.entries@.take(i as int),
            decreases self.entries.len() - i,
        {
            entries.push((self.entries[i].0.clone(), self.entries[i].1.clone()));
            i += 1;
        }
        NotificationConditionalCache { entries }
    }
}

/// The delays that a response asked for.
#[derive(Clone, Copy, Debug, PartialEq, Eq, Structural)]
pub struct NotificationPollDirective {
    pub x_poll_interval: Option<ServerDelay>,
    pub rate_limit: Option<ServerDelay>,
}

/// Where the activation of an alert leads.
#[derive(Debug, PartialEq, Eq)]
pub struct NotificationRoute {
    pub account: Account,
    pub owner: String,
    pub repository: String,
    pub pull_request: u64,
}

#[verifier::ext_equal]
pub struct NotificationRouteView {
    pub account: AccountView,
    pub owner: Seq<char>,
    pub repository: Seq<char>,
    pub pull_request: u64,
}

impl View for NotificationRoute {
    type V = NotificationRouteView;

    open spec fn view(&self) -> NotificationRouteView {
        NotificationRouteView {
            account: self.account@,
            owner: self.owner@,
            repository: self.repository@,
            pull_request: self.pull_request,
        }
    }
}

impl Clone for NotificationRoute {
    fn clone(&self) -> (r: Self)
        ensures
            r == *self,
    {
        NotificationRoute {
            account: self.account.clone(),
            owner: self.owner.clone(),
            repository: self.repository.clone(),
            pull_request: self.pull_request,
        }
    }
}

/// An alert as the platform shows it.
#[derive(Debug, PartialEq, Eq)]
pub struct SystemNotification {
    pub tag: String,
    pub title: String,
    pub body: String,
}

#[verifier::ext_equal]
pub struct SystemNotificationView {
    pub tag: Seq<char>,
    pub title: Seq<char>,
    pub body: Seq<char>,
}

impl View for SystemNotification {
    type V = SystemNotificationView;

    open spec fn view(&self) -> SystemNotificationView {
        SystemNotificationView {
            tag: self.tag@,
            title: self.title@,
            body: self.body@,
        }
    }
}

impl Clone for SystemNotification {
    fn clone(&self) -> (r: Self)
        ensures
            r == *self,
    {
        SystemNotification {
            tag: self.tag.clone(),
            title: self.title.clone(),
            body: self.body.clone(),
        }
    }
}

/// An alert that waits to be handed to the platform. The lease is the registry lock that is
/// held until the platform has the alert.
#[derive(Debug, PartialEq, Eq)]
pub struct QueuedNotification {
    pub delivery_lease: Option<u64>,
    pub account_key: String,
    pub consent_generation: u64,
    pub selection: String,
    pub selection_generation: u64,
    pub notification: SystemNotification,
    pub route: NotificationRoute,
}

#[verifier::ext_equal]
pub struct QueuedNotificationView {
    pub delivery_lease: Option<u64>,
    pub account_key: Seq<char>,
    pub consent_generation: u64,
    pub selection: Seq<char>,
    pub selection_generation: u64,
    pub notification: SystemNotificationView,
    pub route: NotificationRouteView,
}

impl View for QueuedNotification {
    type V = QueuedNotificationView;

    open spec fn view(&self) -> QueuedNotificationView {
        QueuedNotificationView {
            delivery_lease: self.delivery_lease,
            account_key: self.account_key@,
            consent_generation: self.consent_generation,
            selection: self.selection@,
            selection_generation: self.selection_generation,
            notification: self.notification@,
            route: self.route@,
        }
    }
}

impl Clone for QueuedNotification {
    fn clone(&self) -> (r: Self)
        ensures
            r == *self,
    {
        QueuedNotification {
            delivery_lease: self.delivery_lease,
            account_key: self.account_key.clone(),
            consent_generation: self.consent_generation,
            selection: self.selection.clone(),
            selection_generation: self.selection_generation,
            notification: self.notification.clone(),
            route: self.route.clone(),
        }
    }
}

// ---------------------------------------------------------------------------
// Identity texts

/// The key of an account: the JSON pair of its host and login without regard to case.
pub open spec fn account_key_of(account: AccountView) -> Seq<char> {
    encoding::json_of_pair(text::lower(account.host), text::lower(account.login))
}

pub fn account_key(account: &Account) -> (r: String)
    ensures
        r@ == account_key_of(account@),
        encoding::pair_in_json(r@) == Some(
            (text::lower(account.host@), text::lower(account.login@)),
        ),
{
    let host = text::to_lower(&account.host);
    let login = text::to_lower(&account.login);
    encoding::pair_json(&host, &login)
}

pub open spec fn schedule_key_of(account: AccountView) -> Seq<char> {
    "notifications:"@ + account_key_of(account)
}

pub fn schedule_key(account: &Account) -> (r: String)
    ensures
        r@ == schedule_key_of(account@),
{
    let mut out: String = "notifications:".to_owned();
    out.append(&account_key(account));
    out
}

pub open spec fn scope_of(repository: RepositoryView) -> NotificationRepositoryScopeView {
    NotificationRepositoryScopeView {
        provider: "github"@,
        host: repository.host,
        account: repository.account.login,
        owner: repository.owner,
        repository: repository.name,
    }
}

pub fn repository_scope(repository: &Repository) -> (r: NotificationRepositoryScope)
    ensures
        r@ == scope_of(repository@),
{
    NotificationRepositoryScope {
        provider: "github".to_owned(),
        host: repository.host.clone(),
        account: repository.account.login.clone(),
        owner: repository.owner.clone(),
        repository: repository.name.clone(),
    }
}

/// A scope as a JSON object, its fields in the order of their declaration. That order is fixed
/// here: another writer gives the same text only if it keeps to it.
pub open spec fn scope_key_of(scope: NotificationRepositoryScopeView) -> Seq<char> {
    "{\"provider\":"@ + encoding::json_of_text(scope.provider) + ",\"host\":"@
        + encoding::json_of_text(scope.host) + ",\"account\":"@ + encoding::json_of_text(
        scope.account,
    ) + ",\"owner\":"@ + encoding::json_of_text(scope.owner) + ",\"repository\":"@
        + encoding::json_of_text(scope.repository) + "}"@
}

pub fn scope_key(scope: &NotificationRepositoryScope) -> (r: String)
    ensures
        r@ == scope_key_of(scope@),
{
    let mut out: String = "{\"provider\":".to_owned();
    out.append(&encoding::text_json(&scope.provider));
    out.append(",\"host\":");
    out.append(&encoding::text_json(&scope.host));
    out.append(",\"account\":");
    out.append(&encoding::text_json(&scope.account));
    out.append(",\"owner\":");
    out.append(&encoding::text_json(&scope.owner));
    out.append(",\"repository\":");
    out.append(&encoding::text_json(&scope.repository));
    out.append("}");
    out
}

pub open spec fn pull_request_json_of(target: NotificationPullRequestView) -> Seq<char> {
    "{\"provider\":"@ + encoding::json_of_text(target.provider) + ",\"host\":"@
        + encoding::json_of_text(target.host) + ",\"account\":"@ + encoding::json_of_text(
        target.account,
    ) + ",\"owner\":"@ + encoding::json_of_text(target.owner) + ",\"repository\":"@
        + encoding::json_of_text(target.repository) + ",\"pull_request\":"@ + text::decimal(
        target.pull_request as nat,
    ) + "}"@
}

pub fn pull_request_json(target: &NotificationPullRequest) -> (r: String)
    ensures
        r@ == pull_request_json_of(target@),
{
    let mut out: String = "{\"provider\":".to_owned();
    out.append(&encoding::text_json(&target.provider));
    out.append(",\"host\":");
    out.append(&encoding::text_json(&target.host));
    out.append(",\"account\":");
    out.append(&encoding::text_json(&target.account));
    out.append(",\"owner\":");
    out.append(&encoding::text_json(&target.owner));
    out.append(",\"repository\":");
    out.append(&encoding::text_json(&target.repository));
    out.append(",\"pull_request\":");
    out.append(&text::decimal_text(target.pull_request));
    out.append("}");
    out
}

/// An identity as a JSON object. The order of the fields, those of its pull request among them,
/// is fixed here, and so are the tags that are digests of this text: another writer gives the
/// same only if it keeps to that order.
pub open spec fn identity_json_of(identity: NotificationEventIdentityView) -> Seq<char> {
    "{\"target\":"@ + pull_request_json_of(identity.target) + ",\"source\":"@
        + encoding::json_of_text(identity.source) + ",\"remote_event_id\":"@
        + encoding::json_of_text(identity.remote_event_id) + "}"@
}

pub fn identity_json(identity: &NotificationEventIdentity) -> (r: String)
    ensures
        r@ == identity_json_of(identity@),
{
    let mut out: String = "{\"target\":".to_owned();
    out.append(&pull_request_json(&identity.target));
    out.append(",\"source\":");
    out.append(&encoding::text_json(&identity.source));
    out.append(",\"remote_event_id\":");
    out.append(&encoding::text_json(&identity.remote_event_id));
    out.append("}");
    out
}

pub open spec fn optional_json(o: Option<Seq<char>>) -> Seq<char> {
    match o {
        Some(s) => encoding::json_of_text(s),
        None => "null"@,
    }
}

/// A candidate as a JSON object. The order of the fields is fixed here: another writer gives the
/// same text only if it keeps to it.
pub open spec fn candidate_json_of(c: IncompleteNotificationCandidateView) -> Seq<char> {
    "{\"target\":"@ + (match c.target {
        Some(t) => pull_request_json_of(t),
        None => "null"@,
    }) + ",\"provider_notification_id\":"@ + optional_json(c.provider_notification_id)
        + ",\"kind\":"@ + encoding::json_of_text(c.kind) + ",\"reason\":"@
        + encoding::json_of_text(c.reason) + "}"@
}

pub fn candidate_json(c: &IncompleteNotificationCandidate) -> (r: String)
    ensures
        r@ == candidate_json_of(c@),
{
    let mut out: String = "{\"target\":".to_owned();
    match &c.target {
        Some(t) => out.append(&pull_request_json(t)),
        None => out.append("null"),
    }
    out.append(",\"provider_notification_id\":");
    match &c.provider_notification_id {
        Some(s) => out.append(&encoding::text_json(s)),
        None => out.append("null"),
    }
    out.append(",\"kind\":");
    out.append(&encoding::text_json(&c.kind));
    out.append(",\"reason\":");
    out.append(&encoding::text_json(&c.reason));
    out.append("}");
    out
}

// ---------------------------------------------------------------------------
// Alerts

pub open spec fn alert_label_of(kind: NotificationAlertKind) -> Seq<char> {
    match kind {
        NotificationAlertKind::ReviewRequest => "Review requested"@,
        NotificationAlertKind::Mention => "Proven mention"@,
        NotificationAlertKind::Reply => "Review-thread reply"@,
        NotificationAlertKind::FailedCheckOwnPullRequest => "Failed check on your pull request"@,
    }
}

pub fn alert_label(kind: &NotificationAlertKind) -> (r: &'static str)
    ensures
        r@ == alert_label_of(*kind),
{
    match kind {
        NotificationAlertKind::ReviewRequest => "Review requested",
        NotificationAlertKind::Mention => "Proven mention",
        NotificationAlertKind::Reply => "Review-thread reply",
        NotificationAlertKind::FailedCheckOwnPullRequest => "Failed check on your pull request",
    }
}

/// What the tag of every alert begins with.
pub open spec fn tag_namespace() -> Seq<char> {
    "cibergit-notification-"@
}

/// The bytes whose digest tells the alert of an event from every other: the key of the
/// account, a zero byte and the identity of the event as JSON.
pub open spec fn tag_bytes_of(account: AccountView, identity: NotificationEventIdentityView) -> Seq<
    u8,
> {
    vstd::utf8::encode_utf8(account_key_of(account)) + seq![0u8] + vstd::utf8::encode_utf8(
        identity_json_of(identity),
    )
}

pub open spec fn stable_event_tag_of(
    account: AccountView,
    identity: NotificationEventIdentityView,
) -> Seq<char> {
    tag_namespace() + encoding::hex(encoding::sha256_of(tag_bytes_of(account, identity)))
}

pub fn stable_event_tag(account: &Account, event: &ProviderNotificationEvent) -> (r: String)
    ensures
        r@ == stable_event_tag_of(account@, event.identity@),
        r@.len() == tag_namespace().len() + 64,
{
    let mut bytes: Vec<u8> = account_key(account).as_str().as_bytes_vec();
    bytes.push(0u8);
    let mut identity: Vec<u8> = identity_json(&event.identity).as_str().as_bytes_vec();
    bytes.append(&mut identity);
    proof {
        assert(bytes@ =~= tag_bytes_of(account@, event.identity@));
    }
    let mut out: String = "cibergit-notification-".to_owned();
    out.append(&encoding::digest_text(&bytes));
    out
}

pub open spec fn system_notification_of(
    account: AccountView,
    event: ProviderNotificationEventView,
) -> SystemNotificationView {
    SystemNotificationView {
        tag: stable_event_tag_of(account, event.identity),
        title: alert_label_of(event.alert_kind) + " · "@ + event.identity.target.owner + "/"@
            + event.identity.target.repository + " #"@ + text::decimal(
            event.identity.target.pull_request as nat,
        ),
        body: event.summary,
    }
}

pub fn system_notification(account: &Account, event: &ProviderNotificationEvent) -> (r:
    SystemNotification)
    ensures
        r@ == system_notification_of(account@, event@),
{
    let mut title: String = alert_label(&event.alert_kind).to_owned();
    title.append(" · ");
    title.append(&event.identity.target.owner);
    title.append("/");
    title.append(&event.identity.target.repository);
    title.append(" #");
    title.append(&text::decimal_text(event.identity.target.pull_request));
    SystemNotification {
        tag: stable_event_tag(account, event),
        title,
        body: event.summary.clone(),
    }
}

} // verus!

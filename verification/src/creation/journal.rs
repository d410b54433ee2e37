//! The durable journal of creations: who may create, what was admitted and how it ended.

use vstd::prelude::*;
use vstd::string::*;

use crate::creation::form;
use crate::creation::form::{
    PullRequestCreationAcknowledgement, PullRequestCreationAcknowledgementView,
    PullRequestCreationInputView, PullRequestCreationPreparation, PullRequestCreationRequest,
    PullRequestCreationRequestView,
};
use crate::domain;
use crate::domain::RepositoryView;
use crate::encoding;
use crate::faults;
use crate::sort;
use crate::text;

verus! {

pub const MAX_ATTEMPTS_PER_AUTHORITY: usize = 64;

pub const MAX_DISCOVERED_JOURNALS: usize = 256;

// ---------------------------------------------------------------------------
// Authority

/// Who creates from where to where. GitHub names are kept without regard to case, branches
/// exactly.
#[derive(Debug, PartialEq, Eq)]
pub struct CreationAuthorityKey {
    pub provider: String,
    pub account_host: String,
    pub account_login: String,
    pub target_host: String,
    pub target_owner: String,
    pub target_repository: String,
    pub base_branch: String,
    pub source_host: String,
    pub source_owner: String,
    pub source_repository: String,
    pub source_branch: String,
}

#[verifier::ext_equal]
pub struct CreationAuthorityKeyView {
    pub provider: Seq<char>,
    pub account_host: Seq<char>,
    pub account_login: Seq<char>,
    pub target_host: Seq<char>,
    pub target_owner: Seq<char>,
    pub target_repository: Seq<char>,
    pub base_branch: Seq<char>,
    pub source_host: Seq<char>,
    pub source_owner: Seq<char>,
    pub source_repository: Seq<char>,
    pub source_branch: Seq<char>,
}

impl View for CreationAuthorityKey {
    type V = CreationAuthorityKeyView;

    open spec fn view(&self) -> CreationAuthorityKeyView {
        CreationAuthorityKeyView {
            provider: self.provider@,
            account_host: self.account_host@,
            account_login: self.account_login@,
            target_host: self.target_host@,
            target_owner: self.target_owner@,
            target_repository: self.target_repository@,
            base_branch: self.base_branch@,
            source_host: self.source_host@,
            source_owner: self.source_owner@,
            source_repository: self.source_repository@,
            source_branch: self.source_branch@,
        }
    }
}

impl Clone for CreationAuthorityKey {
    fn clone(&self) -> (r: Self)
        ensures
            r == *self,
    {
        CreationAuthorityKey {
            provider: self.provider.clone(),
            account_host: self.account_host.clone(),
            account_login: self.account_login.clone(),
            target_host: self.target_host.clone(),
            target_owner: self.target_owner.clone(),
            target_repository: self.target_repository.clone(),
            base_branch: self.base_branch.clone(),
            source_host: self.source_host.clone(),
            source_owner: self.source_owner.clone(),
            source_repository: self.source_repository.clone(),
            source_branch: self.source_branch.clone(),
        }
    }
}

impl CreationAuthorityKey {
    /// Whether two values agree in every field.
    pub fn same(&self, other: &Self) -> (r: bool)
        ensures
            r == (self@ == other@),
    {
        self.provider == other.provider
            && self.account_host == other.account_host
            && self.account_login == other.account_login
            && self.target_host == other.target_host
            && self.target_owner == other.target_owner
            && self.target_repository == other.target_repository
            && self.base_branch == other.base_branch
            && self.source_host == other.source_host
            && self.source_owner == other.source_owner
            && self.source_repository == other.source_repository
            && self.source_branch == other.source_branch
    }
}

/// The fault of a name, where it has one.
pub open spec fn error_of(r: Result<Seq<char>, Seq<char>>) -> Option<Seq<char>> {
    match r {
        Ok(_) => None,
        Err(e) => Some(e),
    }
}

/// What each part of an authority is refused for, in the order of the parts.
pub open spec fn authority_findings(input: PullRequestCreationInputView) -> Seq<Option<Seq<char>>> {
    seq![
        if input.target_repository.account == input.source_repository.account {
            None
        } else {
            Some("Creation authority cannot span selected accounts."@)
        },
        error_of(form::canonical_of(input.target_repository.account.host)),
        error_of(form::canonical_of(input.target_repository.account.login)),
        error_of(form::canonical_of(input.target_repository.host)),
        error_of(form::canonical_of(input.target_repository.owner)),
        error_of(form::canonical_of(input.target_repository.name)),
        error_of(form::branch_of(input.base_branch)),
        error_of(form::canonical_of(input.source_repository.host)),
        error_of(form::canonical_of(input.source_repository.owner)),
        error_of(form::canonical_of(input.source_repository.name)),
        error_of(form::branch_of(input.source_branch)),
    ]
}

pub open spec fn authority_fault(input: PullRequestCreationInputView) -> Option<Seq<char>> {
    faults::first_fault(authority_findings(input))
}

/// The authority of an input that has one.
pub open spec fn authority_of(input: PullRequestCreationInputView) -> CreationAuthorityKeyView {
    CreationAuthorityKeyView {
        provider: "github"@,
        account_host: text::lower(input.target_repository.account.host),
        account_login: text::lower(input.target_repository.account.login),
        target_host: text::lower(input.target_repository.host),
        target_owner: text::lower(input.target_repository.owner),
        target_repository: text::lower(input.target_repository.name),
        base_branch: input.base_branch,
        source_host: text::lower(input.source_repository.host),
        source_owner: text::lower(input.source_repository.owner),
        source_repository: text::lower(input.source_repository.name),
        source_branch: input.source_branch,
    }
}

/// The key as a JSON object, its fields in the order of their declaration.
pub open spec fn key_json_of(key: CreationAuthorityKeyView) -> Seq<char> {
    "{\"provider\":"@ + encoding::json_of_text(key.provider) + ",\"account_host\":"@ + encoding::json_of_text(key.account_host) + ",\"account_login\":"@ + encoding::json_of_text(key.account_login) + ",\"target_host\":"@ + encoding::json_of_text(key.target_host) + ",\"target_owner\":"@ + encoding::json_of_text(key.target_owner) + ",\"target_repository\":"@ + encoding::json_of_text(key.target_repository) + ",\"base_branch\":"@ + encoding::json_of_text(key.base_branch) + ",\"source_host\":"@ + encoding::json_of_text(key.source_host) + ",\"source_owner\":"@ + encoding::json_of_text(key.source_owner) + ",\"source_repository\":"@ + encoding::json_of_text(key.source_repository) + ",\"source_branch\":"@ + encoding::json_of_text(key.source_branch) + "}"@
}

fn finding_of(r: &Result<String, String>) -> (f: Result<(), String>)
    ensures
        faults::fault_text(f) == error_of(form::outcome_text(*r)),
{
    match r {
        Ok(_) => Ok(()),
        Err(e) => Err(e.clone()),
    }
}

fn text_of(r: Result<String, String>) -> (s: String)
    ensures
        form::outcome_text(r) matches Ok(t) ==> s@ == t,
{
    match r {
        Ok(s) => s,
        Err(_) => String::new(),
    }
}

impl CreationAuthorityKey {
    pub fn from_preparation(preparation: &PullRequestCreationPreparation) -> (r: Result<Self, String>)
        ensures
            match r {
                Ok(key) => authority_fault(preparation.input@) is None && key@ == authority_of(
                    preparation.input@,
                ),
                Err(e) => authority_fault(preparation.input@) == Some(e@),
            },
    {
        let input = &preparation.input;
        let same: bool = input.target_repository.account.same(&input.source_repository.account);
        let account_host = form::canonical_github(&input.target_repository.account.host);
        let account_login = form::canonical_github(&input.target_repository.account.login);
        let target_host = form::canonical_github(&input.target_repository.host);
        let target_owner = form::canonical_github(&input.target_repository.owner);
        let target_repository = form::canonical_github(&input.target_repository.name);
        let base_branch = form::exact_branch(&input.base_branch);
        let source_host = form::canonical_github(&input.source_repository.host);
        let source_owner = form::canonical_github(&input.source_repository.owner);
        let source_repository = form::canonical_github(&input.source_repository.name);
        let source_branch = form::exact_branch(&input.source_branch);
        let findings: Vec<Result<(), String>> = vec![
            faults::check(same, "Creation authority cannot span selected accounts."),
            finding_of(&account_host),
            finding_of(&account_login),
            finding_of(&target_host),
            finding_of(&target_owner),
            finding_of(&target_repository),
            finding_of(&base_branch),
            finding_of(&source_host),
            finding_of(&source_owner),
            finding_of(&source_repository),
            finding_of(&source_branch),
        ];
        let ghost views = findings@.map_values(|f: Result<(), String>| faults::fault_text(f));
        proof {
            assert(views =~= authority_findings(input@));
        }
        if let Err(e) = faults::first_of(findings) {
            return Err(e);
        }
        proof {
            faults::lemma_no_fault(authority_findings(input@));
            assert(authority_findings(input@)[1] is None);
            assert(authority_findings(input@)[2] is None);
            assert(authority_findings(input@)[3] is None);
            assert(authority_findings(input@)[4] is None);
            assert(authority_findings(input@)[5] is None);
            assert(authority_findings(input@)[6] is None);
            assert(authority_findings(input@)[7] is None);
            assert(authority_findings(input@)[8] is None);
            assert(authority_findings(input@)[9] is None);
            assert(authority_findings(input@)[10] is None);
        }
        Ok(
            CreationAuthorityKey {
                provider: "github".to_owned(),
                account_host: text_of(account_host),
                account_login: text_of(account_login),
                target_host: text_of(target_host),
                target_owner: text_of(target_owner),
                target_repository: text_of(target_repository),
                base_branch: text_of(base_branch),
                source_host: text_of(source_host),
                source_owner: text_of(source_owner),
                source_repository: text_of(source_repository),
                source_branch: text_of(source_branch),
            },
        )
    }

    pub fn json(&self) -> (r: String)
        ensures
            r@ == key_json_of(self@),
    {
        let mut out: String = "{\"provider\":".to_owned();
        out.append(&encoding::text_json(&self.provider));
        out.append(",\"account_host\":");
        out.append(&encoding::text_json(&self.account_host));
        out.append(",\"account_login\":");
        out.append(&encoding::text_json(&self.account_login));
        out.append(",\"target_host\":");
        out.append(&encoding::text_json(&self.target_host));
        out.append(",\"target_owner\":");
        out.append(&encoding::text_json(&self.target_owner));
        out.append(",\"target_repository\":");
        out.append(&encoding::text_json(&self.target_repository));
        out.append(",\"base_branch\":");
        out.append(&encoding::text_json(&self.base_branch));
        out.append(",\"source_host\":");
        out.append(&encoding::text_json(&self.source_host));
        out.append(",\"source_owner\":");
        out.append(&encoding::text_json(&self.source_owner));
        out.append(",\"source_repository\":");
        out.append(&encoding::text_json(&self.source_repository));
        out.append(",\"source_branch\":");
        out.append(&encoding::text_json(&self.source_branch));
        out.append("}");
        out
    }

    /// The name under which the journal and the lock of this authority are kept.
    pub fn component(&self) -> (r: String)
        ensures
            r@ == component_of(self@),
    {
        encoding::digest_text(&self.json().as_str().as_bytes_vec())
    }

    pub open spec fn summary_of(key: CreationAuthorityKeyView) -> Seq<char> {
        key.source_owner + ":"@ + key.source_branch + " → "@ + key.target_owner + "/"@
            + key.target_repository + ":"@ + key.base_branch + " as "@ + key.account_login
    }

    pub fn summary(&self) -> (r: String)
        ensures
            r@ == Self::summary_of(self@),
    {
        let mut out: String = self.source_owner.clone();
        out.append(":");
        out.append(&self.source_branch);
        out.append(" → ");
        out.append(&self.target_owner);
        out.append("/");
        out.append(&self.target_repository);
        out.append(":");
        out.append(&self.base_branch);
        out.append(" as ");
        out.append(&self.account_login);
        out
    }
}

pub open spec fn component_of(key: CreationAuthorityKeyView) -> Seq<char> {
    encoding::hex(encoding::sha256_of(vstd::utf8::encode_utf8(key_json_of(key))))
}

/// Title, body, draft flag and reviewed commits have no part in an authority, and neither has
/// the case of GitHub names; the branches have.
pub proof fn law_authority_is_source_target_and_account(
    a: PullRequestCreationInputView,
    b: PullRequestCreationInputView,
)
    requires
        text::same_ignoring_case(
            a.target_repository.account.host,
            b.target_repository.account.host,
        ),
        text::same_ignoring_case(
            a.target_repository.account.login,
            b.target_repository.account.login,
        ),
        text::same_ignoring_case(a.target_repository.host, b.target_repository.host),
        text::same_ignoring_case(a.target_repository.owner, b.target_repository.owner),
        text::same_ignoring_case(a.target_repository.name, b.target_repository.name),
        text::same_ignoring_case(a.source_repository.host, b.source_repository.host),
        text::same_ignoring_case(a.source_repository.owner, b.source_repository.owner),
        text::same_ignoring_case(a.source_repository.name, b.source_repository.name),
    ensures
        (authority_of(a) == authority_of(b)) == (a.base_branch == b.base_branch && a.source_branch
            == b.source_branch),
{
}

// ---------------------------------------------------------------------------
// Attempts

/// The frozen request inside the payload of a provider context, as far as it can be read.
#[derive(Debug, PartialEq, Eq)]
pub enum ContextRequest {
    Absent,
    Invalid,
    Decoded(PullRequestCreationRequest),
}

pub enum ContextRequestView {
    Absent,
    Invalid,
    Decoded(PullRequestCreationRequestView),
}

impl View for ContextRequest {
    type V = ContextRequestView;

    open spec fn view(&self) -> ContextRequestView {
        match self {
            ContextRequest::Absent => ContextRequestView::Absent,
            ContextRequest::Invalid => ContextRequestView::Invalid,
            ContextRequest::Decoded(r) => ContextRequestView::Decoded(r@),
        }
    }
}

impl Clone for ContextRequest {
    fn clone(&self) -> (r: Self)
        ensures
            r == *self,
    {
        match self {
            ContextRequest::Absent => ContextRequest::Absent,
            ContextRequest::Invalid => ContextRequest::Invalid,
            ContextRequest::Decoded(r) => ContextRequest::Decoded(r.clone()),
        }
    }
}

/// The context of a provider mutation. The payload is JSON.
#[derive(Debug, PartialEq, Eq)]
pub struct MutationContext {
    pub operation_id: String,
    pub attempt_id: String,
    pub action: String,
    pub payload: String,
    pub request: ContextRequest,
}

#[verifier::ext_equal]
pub struct MutationContextView {
    pub operation_id: Seq<char>,
    pub attempt_id: Seq<char>,
    pub action: Seq<char>,
    pub payload: Seq<char>,
    pub request: ContextRequestView,
}

impl View for MutationContext {
    type V = MutationContextView;

    open spec fn view(&self) -> MutationContextView {
        MutationContextView {
            operation_id: self.operation_id@,
            attempt_id: self.attempt_id@,
            action: self.action@,
            payload: self.payload@,
            request: self.request@,
        }
    }
}

impl Clone for MutationContext {
    fn clone(&self) -> (r: Self)
        ensures
            r == *self,
    {
        MutationContext {
            operation_id: self.operation_id.clone(),
            attempt_id: self.attempt_id.clone(),
            action: self.action.clone(),
            payload: self.payload.clone(),
            request: self.request.clone(),
        }
    }
}

/// A stored acknowledgement: its JSON, and its value where the JSON holds one.
#[derive(Debug, PartialEq, Eq)]
pub struct AcknowledgementRecord {
    pub raw: String,
    pub decoded: Option<PullRequestCreationAcknowledgement>,
}

#[verifier::ext_equal]
pub struct AcknowledgementRecordView {
    pub raw: Seq<char>,
    pub decoded: Option<PullRequestCreationAcknowledgementView>,
}

impl View for AcknowledgementRecord {
    type V = AcknowledgementRecordView;

    open spec fn view(&self) -> AcknowledgementRecordView {
        AcknowledgementRecordView {
            raw: self.raw@,
            decoded: match self.decoded {
                Some(x) => Some(x@),
                None => None,
            },
        }
    }
}

impl Clone for AcknowledgementRecord {
    fn clone(&self) -> (r: Self)
        ensures
            r == *self,
    {
        AcknowledgementRecord {
            raw: self.raw.clone(),
            decoded: self.decoded.clone(),
        }
    }
}

#[derive(Debug, PartialEq, Eq)]
pub enum CreationAttemptStatus {
    InFlight,
    NotStarted { reason: String },
    Acknowledged { acknowledgement: AcknowledgementRecord },
    Uncertain { reason: String },
}

pub enum CreationAttemptStatusView {
    InFlight,
    NotStarted { reason: Seq<char> },
    Acknowledged { acknowledgement: AcknowledgementRecordView },
    Uncertain { reason: Seq<char> },
}

impl View for CreationAttemptStatus {
    type V = CreationAttemptStatusView;

    open spec fn view(&self) -> CreationAttemptStatusView {
        match self {
            CreationAttemptStatus::InFlight => CreationAttemptStatusView::InFlight,
            CreationAttemptStatus::NotStarted { reason } => CreationAttemptStatusView::NotStarted {
                reason: reason@,
            },
            CreationAttemptStatus::Acknowledged {
                acknowledgement,
            } => CreationAttemptStatusView::Acknowledged { acknowledgement: acknowledgement@ },
            CreationAttemptStatus::Uncertain { reason } => CreationAttemptStatusView::Uncertain {
                reason: reason@,
            },
        }
    }
}

impl Clone for CreationAttemptStatus {
    fn clone(&self) -> (r: Self)
        ensures
            r == *self,
    {
        match self {
            CreationAttemptStatus::InFlight => CreationAttemptStatus::InFlight,
            CreationAttemptStatus::NotStarted { reason } => CreationAttemptStatus::NotStarted {
                reason: reason.clone(),
            },
            CreationAttemptStatus::Acknowledged {
                acknowledgement,
            } => CreationAttemptStatus::Acknowledged { acknowledgement: acknowledgement.clone() },
            CreationAttemptStatus::Uncertain { reason } => CreationAttemptStatus::Uncertain {
                reason: reason.clone(),
            },
        }
    }
}

/// Whether it is not known how an attempt ended.
pub open spec fn is_unresolved(status: CreationAttemptStatusView) -> bool {
    status is InFlight || status is Uncertain
}

impl CreationAttemptStatus {
    pub fn unresolved(&self) -> (r: bool)
        ensures
            r == is_unresolved(self@),
    {
        match self {
            CreationAttemptStatus::InFlight => true,
            CreationAttemptStatus::Uncertain { .. } => true,
            _ => false,
        }
    }
}

/// One attempt to create.
#[derive(Debug, PartialEq, Eq)]
pub struct CreationAttempt {
    pub request: PullRequestCreationRequest,
    pub context: MutationContext,
    pub status: CreationAttemptStatus,
}

#[verifier::ext_equal]
pub struct CreationAttemptView {
    pub request: PullRequestCreationRequestView,
    pub context: MutationContextView,
    pub status: CreationAttemptStatusView,
}

impl View for CreationAttempt {
    type V = CreationAttemptView;

    open spec fn view(&self) -> CreationAttemptView {
        CreationAttemptView {
            request: self.request@,
            context: self.context@,
            status: self.status@,
        }
    }
}

impl Clone for CreationAttempt {
    fn clone(&self) -> (r: Self)
        ensures
            r == *self,
    {
        CreationAttempt {
            request: self.request.clone(),
            context: self.context.clone(),
            status: self.status.clone(),
        }
    }
}

/// All attempts of one authority.
#[derive(Clone, Debug, PartialEq, Eq)]
pub struct CreationJournalRecord {
    pub version: u64,
    pub key: CreationAuthorityKey,
    pub attempts: Vec<CreationAttempt>,
}

#[verifier::ext_equal]
pub struct CreationJournalView {
    pub version: u64,
    pub key: CreationAuthorityKeyView,
    pub attempts: Seq<CreationAttemptView>,
}

pub open spec fn attempt_views(attempts: Seq<CreationAttempt>) -> Seq<CreationAttemptView> {
    attempts.map_values(|a: CreationAttempt| a@)
}

impl View for CreationJournalRecord {
    type V = CreationJournalView;

    open spec fn view(&self) -> CreationJournalView {
        CreationJournalView {
            version: self.version,
            key: self.key@,
            attempts: attempt_views(self.attempts@),
        }
    }
}

// ---------------------------------------------------------------------------
// Validation

/// Whether a provider context belongs to a request.
pub open spec fn context_names(context: MutationContextView, request: PullRequestCreationRequestView) -> bool {
    &&& context.operation_id == request.operation_id
    &&& context.attempt_id == request.attempt_id
    &&& context.action == "create-pr"@
}

fn context_matches(context: &MutationContext, request: &PullRequestCreationRequest) -> (r: bool)
    ensures
        r == context_names(context@, request@),
{
    context.operation_id == request.operation_id && context.attempt_id == request.attempt_id
        && text::same_text(&context.action, "create-pr")
}

/// Whether an acknowledgement is about exactly this request.
pub open spec fn acknowledges(
    a: PullRequestCreationAcknowledgementView,
    request: PullRequestCreationRequestView,
) -> bool {
    let input = request.preparation.input;
    &&& a.operation_id == request.operation_id
    &&& a.target_repository == input.target_repository
    &&& a.source_repository == input.source_repository
    &&& a.reviewed_head_sha == request.preparation.observed_source_head_sha
    &&& a.pull_request.provider == "github"@
    &&& text::same_ignoring_case(a.pull_request.host, input.target_repository.host)
    &&& text::same_ignoring_case(a.pull_request.owner, input.target_repository.owner)
    &&& text::same_ignoring_case(a.pull_request.repository, input.target_repository.name)
    &&& a.pull_request.pull_request != 0
}

fn acknowledgement_matches(
    a: &PullRequestCreationAcknowledgement,
    request: &PullRequestCreationRequest,
) -> (r: bool)
    ensures
        r == acknowledges(a@, request@),
{
    let input = &request.preparation.input;
    a.operation_id == request.operation_id && a.target_repository.same(&input.target_repository)
        && a.source_repository.same(&input.source_repository) && a.reviewed_head_sha
        == request.preparation.observed_source_head_sha && text::same_text(
        &a.pull_request.provider,
        "github",
    ) && text::equals_ignoring_case(&a.pull_request.host, &input.target_repository.host)
        && text::equals_ignoring_case(&a.pull_request.owner, &input.target_repository.owner)
        && text::equals_ignoring_case(&a.pull_request.repository, &input.target_repository.name)
        && a.pull_request.pull_request != 0
}

pub open spec fn status_fault(
    status: CreationAttemptStatusView,
    request: PullRequestCreationRequestView,
) -> Option<Seq<char>> {
    match status {
        CreationAttemptStatusView::InFlight => None,
        CreationAttemptStatusView::NotStarted { reason } => form::reason_fault(reason),
        CreationAttemptStatusView::Uncertain { reason } => form::reason_fault(reason),
        CreationAttemptStatusView::Acknowledged {
            acknowledgement,
        } => match acknowledgement.decoded {
            None => Some(
                "Creation journal contains an invalid acknowledgement; the original was preserved."@,
            ),
            Some(a) => if acknowledges(a, request) {
                None
            } else {
                Some(
                    "Creation journal acknowledgement does not match its exact frozen request; the original was preserved."@,
                )
            },
        },
    }
}

/// Whether an earlier attempt has the identity of attempt `i`.
pub open spec fn repeats_identity(attempts: Seq<CreationAttemptView>, i: int) -> bool {
    exists|j: int|
        0 <= j < i && (#[trigger] attempts[j]).request.operation_id
            == attempts[i].request.operation_id && attempts[j].request.attempt_id
            == attempts[i].request.attempt_id
}

/// What is wrong with attempt `i` of a journal.
pub open spec fn attempt_fault(journal: CreationJournalView, i: int) -> Option<Seq<char>> {
    let attempt = journal.attempts[i];
    let input = attempt.request.preparation.input;
    if form::identifier_fault("operation ID"@, attempt.request.operation_id) is Some {
        form::identifier_fault("operation ID"@, attempt.request.operation_id)
    } else if form::identifier_fault("attempt ID"@, attempt.request.attempt_id) is Some {
        form::identifier_fault("attempt ID"@, attempt.request.attempt_id)
    } else if !context_names(attempt.context, attempt.request) {
        Some(
            "Creation journal contains a mismatched provider context; the original was preserved."@,
        )
    } else if authority_fault(input) is Some {
        authority_fault(input)
    } else if authority_of(input) != journal.key {
        Some(
            "Creation journal contains a request for another authority; the original was preserved."@,
        )
    } else if repeats_identity(journal.attempts, i) {
        Some(
            "Creation journal repeats an operation/attempt identity; the original was preserved."@,
        )
    } else {
        status_fault(attempt.status, attempt.request)
    }
}

pub open spec fn attempt_faults(journal: CreationJournalView) -> Seq<Option<Seq<char>>> {
    Seq::new(journal.attempts.len(), |i: int| attempt_fault(journal, i))
}

/// What is wrong with a journal, the first fault of it.
pub open spec fn journal_fault(journal: CreationJournalView) -> Option<Seq<char>> {
    if journal.version != form::RECORD_VERSION {
        Some(
            "Creation journal uses unsupported version "@ + text::decimal(journal.version as nat)
                + "; the original was preserved."@,
        )
    } else if journal.attempts.len() > MAX_ATTEMPTS_PER_AUTHORITY {
        Some(
            "Creation journal exceeds its bounded attempt count; the original was preserved."@,
        )
    } else {
        faults::first_fault(attempt_faults(journal))
    }
}

impl CreationJournalRecord {
    fn validate_attempt(&self, i: usize) -> (r: Result<(), String>)
        requires
            i < self.attempts@.len(),
        ensures
            faults::fault_text(r) == attempt_fault(self@, i as int),
    {
        let attempt = &self.attempts[i];
        let ghost views = self@.attempts;
        assert(views[i as int] == attempt@);
        if let Err(e) = form::validate_identifier("operation ID", &attempt.request.operation_id) {
            return Err(e);
        }
        if let Err(e) = form::validate_identifier("attempt ID", &attempt.request.attempt_id) {
            return Err(e);
        }
        if !context_matches(&attempt.context, &attempt.request) {
            return Err(
                "Creation journal contains a mismatched provider context; the original was preserved.".to_owned(),
            );
        }
        match CreationAuthorityKey::from_preparation(&attempt.request.preparation) {
            Err(e) => {
                return Err(e);
            },
            Ok(key) => {
                if !key.same(&self.key) {
                    return Err(
                        "Creation journal contains a request for another authority; the original was preserved.".to_owned(),
                    );
                }
            },
        }
        let mut j: usize = 0;
        while j < i
            invariant
                j <= i < self.attempts@.len(),
                views == self@.attempts,
                attempt@ == views[i as int],
                forall|k: int|
                    0 <= k < j ==> !((#[trigger] views[k]).request.operation_id
                        == views[i as int].request.operation_id && views[k].request.attempt_id
                        == views[i as int].request.attempt_id),
                form::identifier_fault("operation ID"@, attempt@.request.operation_id) is None,
                form::identifier_fault("attempt ID"@, attempt@.request.attempt_id) is None,
                context_names(attempt@.context, attempt@.request),
                authority_fault(attempt@.request.preparation.input) is None,
                authority_of(attempt@.request.preparation.input) == self@.key,
            decreases i - j,
        {
            assert(views[j as int] == self.attempts@[j as int]@);
            if self.attempts[j].request.operation_id == attempt.request.operation_id
                && self.attempts[j].request.attempt_id == attempt.request.attempt_id {
                return Err(
                    "Creation journal repeats an operation/attempt identity; the original was preserved.".to_owned(),
                );
            }
            j += 1;
        }
        match &attempt.status {
            CreationAttemptStatus::InFlight => Ok(()),
            CreationAttemptStatus::NotStarted { reason } => match form::bounded_reason(reason) {
                Ok(_) => Ok(()),
                Err(e) => Err(e),
            },
            CreationAttemptStatus::Uncertain { reason } => match form::bounded_reason(reason) {
                Ok(_) => Ok(()),
                Err(e) => Err(e),
            },
            CreationAttemptStatus::Acknowledged {
                acknowledgement,
            } => match &acknowledgement.decoded {
                None => Err(
                    "Creation journal contains an invalid acknowledgement; the original was preserved.".to_owned(),
                ),
                Some(a) => if acknowledgement_matches(a, &attempt.request) {
                    Ok(())
                } else {
                    Err(
                        "Creation journal acknowledgement does not match its exact frozen request; the original was preserved.".to_owned(),
                    )
                },
            },
        }
    }

    pub fn validate(&self) -> (r: Result<(), String>)
        ensures
            faults::fault_text(r) == journal_fault(self@),
    {
        if self.version != form::RECORD_VERSION {
            let mut out: String = "Creation journal uses unsupported version ".to_owned();
            out.append(&text::decimal_text(self.version));
            out.append("; the original was preserved.");
            return Err(out);
        }
        if self.attempts.len() > MAX_ATTEMPTS_PER_AUTHORITY {
            return Err(
                "Creation journal exceeds its bounded attempt count; the original was preserved.".to_owned(),
            );
        }
        let ghost findings = attempt_faults(self@);
        let mut i: usize = 0;
        while i < self.attempts.len()
            invariant
                i <= self.attempts@.len(),
                findings == attempt_faults(self@),
                findings.len() == self.attempts@.len(),
                journal_fault(self@) == faults::first_fault(findings),
                forall|k: int| 0 <= k < i ==> (#[trigger] findings[k]) is None,
            decreases self.attempts.len() - i,
        {
            let found = self.validate_attempt(i);
            proof {
                assert(findings[i as int] == attempt_fault(self@, i as int));
                faults::lemma_first_fault_at(findings, i as int);
            }
            if let Err(e) = found {
                return Err(e);
            }
            i += 1;
        }
        proof {
            faults::lemma_first_fault_at(findings, i as int);
        }
        Ok(())
    }

    /// The journal of an authority that has none yet.
    pub fn empty(key: CreationAuthorityKey) -> (r: Self)
        ensures
            r@ == (CreationJournalView {
                version: form::RECORD_VERSION,
                key: key@,
                attempts: Seq::empty(),
            }),
            journal_fault(r@) is None,
    {
        let r = CreationJournalRecord {
            version: form::RECORD_VERSION,
            key,
            attempts: Vec::new(),
        };
        proof {
            assert(r@.attempts =~= Seq::<CreationAttemptView>::empty());
            faults::lemma_first_fault_at(attempt_faults(r@), 0);
        }
        r
    }

    /// Why a journal that was read from the file `stem` cannot be used for `key`.
    pub open spec fn opened_fault(
        journal: CreationJournalView,
        key: CreationAuthorityKeyView,
        stem: Seq<char>,
    ) -> Option<Seq<char>> {
        if journal_fault(journal) is Some {
            journal_fault(journal)
        } else if journal.key != key || component_of(key) != stem {
            Some(
                "Creation journal path and authority identity disagree; the original was preserved."@,
            )
        } else {
            None
        }
    }

    pub fn validate_opened(&self, key: &CreationAuthorityKey, stem: &str) -> (r: Result<(), String>)
        ensures
            faults::fault_text(r) == Self::opened_fault(self@, key@, stem@),
    {
        if let Err(e) = self.validate() {
            return Err(e);
        }
        if !self.key.same(key) || !text::same_text(&key.component(), stem) {
            return Err(
                "Creation journal path and authority identity disagree; the original was preserved.".to_owned(),
            );
        }
        Ok(())
    }
}

// ---------------------------------------------------------------------------
// Admission

pub open spec fn context_fault(
    request: PullRequestCreationRequestView,
    context: MutationContextView,
) -> Option<Seq<char>> {
    if !context_names(context, request) {
        Some("Provider creation context does not match the frozen request."@)
    } else {
        match context.request {
            ContextRequestView::Absent => Some(
                "Provider creation context omits the frozen request."@,
            ),
            ContextRequestView::Invalid => Some(
                "Provider creation context contains an invalid frozen request."@,
            ),
            ContextRequestView::Decoded(observed) => if observed == request {
                None
            } else {
                Some("Provider creation context changed after confirmation."@)
            },
        }
    }
}

pub fn validate_context(request: &PullRequestCreationRequest, context: &MutationContext) -> (r: Result<
    (),
    String,
>)
    ensures
        faults::fault_text(r) == context_fault(request@, context@),
{
    if !context_matches(context, request) {
        return Err("Provider creation context does not match the frozen request.".to_owned());
    }
    match &context.request {
        ContextRequest::Absent => Err(
            "Provider creation context omits the frozen request.".to_owned(),
        ),
        ContextRequest::Invalid => Err(
            "Provider creation context contains an invalid frozen request.".to_owned(),
        ),
        ContextRequest::Decoded(observed) => if observed.same(request) {
            Ok(())
        } else {
            Err("Provider creation context changed after confirmation.".to_owned())
        },
    }
}

/// Why a request has no authority to be admitted under.
pub open spec fn admission_key_fault(
    request: PullRequestCreationRequestView,
    context: MutationContextView,
) -> Option<Seq<char>> {
    if context_fault(request, context) is Some {
        context_fault(request, context)
    } else {
        authority_fault(request.preparation.input)
    }
}

/// The authority to lock and to load before a request is admitted.
pub fn admission_key(
    request: &PullRequestCreationRequest,
    context: &MutationContext,
) -> (r: Result<CreationAuthorityKey, String>)
    ensures
        match r {
            Ok(key) => admission_key_fault(request@, context@) is None && key@ == authority_of(
                request.preparation.input@,
            ),
            Err(e) => admission_key_fault(request@, context@) == Some(e@),
        },
{
    if let Err(e) = validate_context(request, context) {
        return Err(e);
    }
    CreationAuthorityKey::from_preparation(&request.preparation)
}

pub open spec fn has_unresolved(journal: CreationJournalView) -> bool {
    exists|i: int| 0 <= i < journal.attempts.len() && is_unresolved((#[trigger] journal.attempts[i]).status)
}

pub open spec fn knows_identity(
    journal: CreationJournalView,
    request: PullRequestCreationRequestView,
) -> bool {
    exists|i: int|
        0 <= i < journal.attempts.len() && ((#[trigger] journal.attempts[i]).request.operation_id
            == request.operation_id || journal.attempts[i].request.attempt_id
            == request.attempt_id)
}

pub open spec fn was_acknowledged(
    journal: CreationJournalView,
    request: PullRequestCreationRequestView,
) -> bool {
    exists|i: int|
        0 <= i < journal.attempts.len() && (#[trigger] journal.attempts[i]).request.preparation
            == request.preparation && journal.attempts[i].status is Acknowledged
}

/// Why a request is not admitted to a journal.
pub open spec fn admission_fault(
    journal: CreationJournalView,
    request: PullRequestCreationRequestView,
) -> Option<Seq<char>> {
    if has_unresolved(journal) {
        Some(
            "this exact source-to-target authority has an unresolved creation; zero writes sent and the retained context must be reconciled explicitly"@,
        )
    } else if knows_identity(journal, request) {
        Some("this operation or attempt identity was already admitted; zero writes sent"@)
    } else if was_acknowledged(journal, request) {
        Some("this exact frozen creation was already acknowledged; zero writes sent"@)
    } else if journal.attempts.len() >= MAX_ATTEMPTS_PER_AUTHORITY {
        Some(
            "creation authority journal is full; zero writes sent and existing records were preserved"@,
        )
    } else {
        None
    }
}

pub open spec fn in_flight_attempt(
    request: PullRequestCreationRequestView,
    context: MutationContextView,
) -> CreationAttemptView {
    CreationAttemptView { request, context, status: CreationAttemptStatusView::InFlight }
}

/// The journal with a request admitted to it.
pub open spec fn admitted(
    journal: CreationJournalView,
    request: PullRequestCreationRequestView,
    context: MutationContextView,
) -> CreationJournalView {
    CreationJournalView {
        attempts: journal.attempts.push(in_flight_attempt(request, context)),
        ..journal
    }
}

impl CreationJournalRecord {
    /// Admits a request as the one attempt in flight. The journal is unchanged where it is
    /// refused.
    pub fn admit_attempt(&mut self, request: &PullRequestCreationRequest, context: &MutationContext) -> (r:
        Result<(), String>)
        ensures
            faults::fault_text(r) == admission_fault(old(self)@, request@),
            r is Ok ==> final(self)@ == admitted(old(self)@, request@, context@),
            r is Err ==> *final(self) == *old(self),
    {
        let ghost views = self@.attempts;
        let mut unresolved: bool = false;
        let mut known: bool = false;
        let mut acknowledged: bool = false;
        let mut i: usize = 0;
        while i < self.attempts.len()
            invariant
                i <= self.attempts@.len(),
                views == self@.attempts,
                *self == *old(self),
                unresolved == (exists|k: int|
                    0 <= k < i && is_unresolved((#[trigger] views[k]).status)),
                known == (exists|k: int|
                    0 <= k < i && ((#[trigger] views[k]).request.operation_id
                        == request@.operation_id || views[k].request.attempt_id
                        == request@.attempt_id)),
                acknowledged == (exists|k: int|
                    0 <= k < i && (#[trigger] views[k]).request.preparation
                        == request@.preparation && views[k].status is Acknowledged),
            decreases self.attempts.len() - i,
        {
            let attempt = &self.attempts[i];
            assert(views[i as int] == attempt@);
            unresolved = unresolved || attempt.status.unresolved();
            known = known || attempt.request.operation_id == request.operation_id
                || attempt.request.attempt_id == request.attempt_id;
            let done: bool = match &attempt.status {
                CreationAttemptStatus::Acknowledged { .. } => true,
                _ => false,
            };
            acknowledged = acknowledged || (done && attempt.request.preparation.same(
                &request.preparation,
            ));
            i += 1;
        }
        if unresolved {
            return Err(
                "this exact source-to-target authority has an unresolved creation; zero writes sent and the retained context must be reconciled explicitly".to_owned(),
            );
        }
        if known {
            return Err(
                "this operation or attempt identity was already admitted; zero writes sent".to_owned(),
            );
        }
        if acknowledged {
            return Err(
                "this exact frozen creation was already acknowledged; zero writes sent".to_owned(),
            );
        }
        if self.attempts.len() >= MAX_ATTEMPTS_PER_AUTHORITY {
            return Err(
                "creation authority journal is full; zero writes sent and existing records were preserved".to_owned(),
            );
        }
        self.attempts.push(
            CreationAttempt {
                request: request.clone(),
                context: context.clone(),
                status: CreationAttemptStatus::InFlight,
            },
        );
        proof {
            assert(self@.attempts =~= views.push(in_flight_attempt(request@, context@)));
        }
        Ok(())
    }
}

/// The identity of an admitted attempt: the JSON of its authority, identities and context. The
/// order of the fields of the context is fixed here, and so is the digest that identifies the
/// record: another writer gives the same only if it keeps to that order.
pub open spec fn record_json_of(
    key: CreationAuthorityKeyView,
    request: PullRequestCreationRequestView,
    context: MutationContextView,
) -> Seq<char> {
    "["@ + key_json_of(key) + ","@ + encoding::json_of_text(request.operation_id) + ","@
        + encoding::json_of_text(request.attempt_id) + ",{\"operation_id\":"@
        + encoding::json_of_text(context.operation_id) + ",\"attempt_id\":"@
        + encoding::json_of_text(context.attempt_id) + ",\"action\":"@ + encoding::json_of_text(
        context.action,
    ) + ",\"payload\":"@ + context.payload + "}]"@
}

/// What the provider gets for an admitted attempt.
#[derive(Debug, PartialEq, Eq)]
pub struct MutationAdmissionReceipt {
    pub operation_id: String,
    pub attempt_id: String,
    pub durable_record_id: String,
}

#[verifier::ext_equal]
pub struct MutationAdmissionReceiptView {
    pub operation_id: Seq<char>,
    pub attempt_id: Seq<char>,
    pub durable_record_id: Seq<char>,
}

impl View for MutationAdmissionReceipt {
    type V = MutationAdmissionReceiptView;

    open spec fn view(&self) -> MutationAdmissionReceiptView {
        MutationAdmissionReceiptView {
            operation_id: self.operation_id@,
            attempt_id: self.attempt_id@,
            durable_record_id: self.durable_record_id@,
        }
    }
}

impl Clone for MutationAdmissionReceipt {
    fn clone(&self) -> (r: Self)
        ensures
            r == *self,
    {
        MutationAdmissionReceipt {
            operation_id: self.operation_id.clone(),
            attempt_id: self.attempt_id.clone(),
            durable_record_id: self.durable_record_id.clone(),
        }
    }
}

pub fn admission_receipt(
    key: &CreationAuthorityKey,
    request: &PullRequestCreationRequest,
    context: &MutationContext,
) -> (r: MutationAdmissionReceipt)
    ensures
        r@ == (MutationAdmissionReceiptView {
            operation_id: request@.operation_id,
            attempt_id: request@.attempt_id,
            durable_record_id: encoding::hex(
                encoding::sha256_of(
                    vstd::utf8::encode_utf8(record_json_of(key@, request@, context@)),
                ),
            ),
        }),
{
    let mut json: String = "[".to_owned();
    json.append(&key.json());
    json.append(",");
    json.append(&encoding::text_json(&request.operation_id));
    json.append(",");
    json.append(&encoding::text_json(&request.attempt_id));
    json.append(",{\"operation_id\":");
    json.append(&encoding::text_json(&context.operation_id));
    json.append(",\"attempt_id\":");
    json.append(&encoding::text_json(&context.attempt_id));
    json.append(",\"action\":");
    json.append(&encoding::text_json(&context.action));
    json.append(",\"payload\":");
    json.append(&context.payload);
    json.append("}]");
    MutationAdmissionReceipt {
        operation_id: request.operation_id.clone(),
        attempt_id: request.attempt_id.clone(),
        durable_record_id: encoding::digest_text(&json.as_str().as_bytes_vec()),
    }
}

// ---------------------------------------------------------------------------
// Ends of attempts

/// How a provider mutation ended.
pub enum MutationTerminalRecord {
    NotStarted { reason: String },
    Acknowledged { acknowledgement: AcknowledgementRecord },
    Uncertain { reason: String },
}

/// Whether attempt `i` is the one in flight for this request.
pub open spec fn is_held(attempt: CreationAttemptView, request: PullRequestCreationRequestView) -> bool {
    &&& attempt.request.operation_id == request.operation_id
    &&& attempt.request.attempt_id == request.attempt_id
    &&& attempt.status is InFlight
}

/// The first attempt in flight for this request; the number of attempts where there is none.
pub open spec fn held_index(
    attempts: Seq<CreationAttemptView>,
    request: PullRequestCreationRequestView,
) -> nat
    decreases attempts.len(),
{
    if attempts.len() == 0 || is_held(attempts[0], request) {
        0
    } else {
        1 + held_index(attempts.drop_first(), request)
    }
}

proof fn lemma_held_index(
    attempts: Seq<CreationAttemptView>,
    request: PullRequestCreationRequestView,
    i: int,
)
    requires
        0 <= i <= attempts.len(),
        forall|k: int| 0 <= k < i ==> !is_held(#[trigger] attempts[k], request),
        i < attempts.len() ==> is_held(attempts[i], request),
    ensures
        held_index(attempts, request) == i,
    decreases attempts.len(),
{
    if i > 0 {
        assert(!is_held(attempts[0], request));
        lemma_held_index(attempts.drop_first(), request, i - 1);
    }
}

pub open spec fn terminal_fault(
    journal: CreationJournalView,
    request: PullRequestCreationRequestView,
    record: MutationTerminalRecord,
) -> Option<Seq<char>> {
    if held_index(journal.attempts, request) >= journal.attempts.len() {
        Some("held creation attempt is no longer the retained InFlight record"@)
    } else {
        match record {
            MutationTerminalRecord::NotStarted { reason } => form::reason_fault(reason@),
            MutationTerminalRecord::Uncertain { reason } => form::reason_fault(reason@),
            MutationTerminalRecord::Acknowledged { .. } => None,
        }
    }
}

pub open spec fn terminal_status(record: MutationTerminalRecord) -> CreationAttemptStatusView {
    match record {
        MutationTerminalRecord::NotStarted { reason } => CreationAttemptStatusView::NotStarted {
            reason: reason@,
        },
        MutationTerminalRecord::Uncertain { reason } => CreationAttemptStatusView::Uncertain {
            reason: reason@,
        },
        MutationTerminalRecord::Acknowledged {
            acknowledgement,
        } => CreationAttemptStatusView::Acknowledged { acknowledgement: acknowledgement@ },
    }
}

/// The journal with the attempt in flight ended.
pub open spec fn ended(
    journal: CreationJournalView,
    request: PullRequestCreationRequestView,
    record: MutationTerminalRecord,
) -> CreationJournalView {
    let i = held_index(journal.attempts, request) as int;
    CreationJournalView {
        attempts: journal.attempts.update(
            i,
            CreationAttemptView { status: terminal_status(record), ..journal.attempts[i] },
        ),
        ..journal
    }
}

impl CreationJournalRecord {
    /// Records how the attempt in flight ended. The journal is unchanged where it is refused.
    pub fn record_terminal(
        &mut self,
        request: &PullRequestCreationRequest,
        record: &MutationTerminalRecord,
    ) -> (r: Result<(), String>)
        ensures
            faults::fault_text(r) == terminal_fault(old(self)@, request@, *record),
            r is Ok ==> final(self)@ == ended(old(self)@, request@, *record),
            r is Err ==> *final(self) == *old(self),
    {
        let ghost views = self@.attempts;
        let mut i: usize = 0;
        let mut found: bool = false;
        while i < self.attempts.len() && !found
            invariant
                i <= self.attempts@.len(),
                views == self@.attempts,
                *self == *old(self),
                forall|k: int| 0 <= k < i ==> !is_held(#[trigger] views[k], request@),
                found ==> i < self.attempts@.len() && is_held(views[i as int], request@),
            decreases self.attempts.len() - i + (if found { 0int } else { 1int }),
        {
            let attempt = &self.attempts[i];
            assert(views[i as int] == attempt@);
            let in_flight: bool = match &attempt.status {
                CreationAttemptStatus::InFlight => true,
                _ => false,
            };
            if in_flight && attempt.request.operation_id == request.operation_id
                && attempt.request.attempt_id == request.attempt_id {
                found = true;
            } else {
                i += 1;
            }
        }
        proof {
            lemma_held_index(views, request@, i as int);
        }
        if !found {
            return Err(
                "held creation attempt is no longer the retained InFlight record".to_owned(),
            );
        }
        let status: CreationAttemptStatus = match record {
            MutationTerminalRecord::NotStarted { reason } => match form::bounded_reason(reason) {
                Err(e) => {
                    return Err(e);
                },
                Ok(reason) => CreationAttemptStatus::NotStarted { reason },
            },
            MutationTerminalRecord::Uncertain { reason } => match form::bounded_reason(reason) {
                Err(e) => {
                    return Err(e);
                },
                Ok(reason) => CreationAttemptStatus::Uncertain { reason },
            },
            MutationTerminalRecord::Acknowledged {
                acknowledgement,
            } => CreationAttemptStatus::Acknowledged { acknowledgement: acknowledgement.clone() },
        };
        let after = CreationAttempt {
            request: self.attempts[i].request.clone(),
            context: self.attempts[i].context.clone(),
            status,
        };
        self.attempts.set(i, after);
        proof {
            assert(self@.attempts =~= ended(old(self)@, request@, *record).attempts);
        }
        Ok(())
    }
}

// ---------------------------------------------------------------------------
// Laws of admission

/// An admitted attempt is the one unresolved attempt of its journal, and while it is, no
/// other request is admitted to the authority.
pub proof fn law_one_creation_at_a_time(
    journal: CreationJournalView,
    request: PullRequestCreationRequestView,
    context: MutationContextView,
    next: PullRequestCreationRequestView,
)
    requires
        admission_fault(journal, request) is None,
    ensures
        has_unresolved(admitted(journal, request, context)),
        admission_fault(admitted(journal, request, context), next) == Some(
            "this exact source-to-target authority has an unresolved creation; zero writes sent and the retained context must be reconciled explicitly"@,
        ),
        held_index(admitted(journal, request, context).attempts, request)
            == journal.attempts.len(),
{
    let after = admitted(journal, request, context);
    assert(is_unresolved(after.attempts[journal.attempts.len() as int].status));
    assert forall|k: int| 0 <= k < journal.attempts.len() implies !is_held(
        #[trigger] after.attempts[k],
        request,
    ) by {
        assert(after.attempts[k] == journal.attempts[k]);
        assert(!is_unresolved(journal.attempts[k].status));
    }
    lemma_held_index(after.attempts, request, journal.attempts.len() as int);
}

/// An attempt whose outcome is uncertain keeps its authority closed to every request.
pub proof fn law_uncertain_attempts_stay_closed(
    journal: CreationJournalView,
    request: PullRequestCreationRequestView,
    context: MutationContextView,
    record: MutationTerminalRecord,
    next: PullRequestCreationRequestView,
)
    requires
        admission_fault(journal, request) is None,
        record is Uncertain,
    ensures
        ({
            let after = ended(admitted(journal, request, context), request, record);
            admission_fault(after, next) == Some(
                "this exact source-to-target authority has an unresolved creation; zero writes sent and the retained context must be reconciled explicitly"@,
            )
        }),
{
    law_one_creation_at_a_time(journal, request, context, next);
    let after = ended(admitted(journal, request, context), request, record);
    assert(is_unresolved(after.attempts[journal.attempts.len() as int].status));
}

/// A request whose creation was acknowledged is never admitted again: not under its own
/// identity, nor the same preparation under another.
pub proof fn law_acknowledged_creations_cannot_replay(
    journal: CreationJournalView,
    request: PullRequestCreationRequestView,
    context: MutationContextView,
    record: MutationTerminalRecord,
    next: PullRequestCreationRequestView,
)
    requires
        admission_fault(journal, request) is None,
        record is Acknowledged,
        next.preparation == request.preparation || next.operation_id == request.operation_id
            || next.attempt_id == request.attempt_id,
    ensures
        admission_fault(ended(admitted(journal, request, context), request, record), next) is Some,
{
    law_one_creation_at_a_time(journal, request, context, next);
    let after = ended(admitted(journal, request, context), request, record);
    let i = journal.attempts.len() as int;
    assert(after.attempts[i].request == request);
    assert(after.attempts[i].status is Acknowledged);
}

/// An attempt that never started leaves its authority open: a request with new identities is
/// admitted, though it prepares the same creation.
pub proof fn law_not_started_allows_a_retry(
    journal: CreationJournalView,
    request: PullRequestCreationRequestView,
    context: MutationContextView,
    record: MutationTerminalRecord,
    next: PullRequestCreationRequestView,
)
    requires
        admission_fault(journal, request) is None,
        record is NotStarted,
        !knows_identity(journal, next),
        next.operation_id != request.operation_id,
        next.attempt_id != request.attempt_id,
        next.preparation == request.preparation,
        journal.attempts.len() + 1 < MAX_ATTEMPTS_PER_AUTHORITY,
    ensures
        admission_fault(ended(admitted(journal, request, context), request, record), next) is None,
{
    law_one_creation_at_a_time(journal, request, context, next);
    let after = ended(admitted(journal, request, context), request, record);
    let n = journal.attempts.len() as int;
    assert forall|i: int| 0 <= i < after.attempts.len() implies !is_unresolved(
        (#[trigger] after.attempts[i]).status,
    ) && after.attempts[i].request.operation_id != next.operation_id
        && after.attempts[i].request.attempt_id != next.attempt_id && !(
    after.attempts[i].request.preparation == next.preparation
        && after.attempts[i].status is Acknowledged) by {
        if i < n {
            assert(after.attempts[i] == journal.attempts[i]);
            assert(!is_unresolved(journal.attempts[i].status));
            assert(!(journal.attempts[i].request.operation_id == next.operation_id
                || journal.attempts[i].request.attempt_id == next.attempt_id));
            assert(!(journal.attempts[i].request.preparation == request.preparation
                && journal.attempts[i].status is Acknowledged));
        }
    }
}

// ---------------------------------------------------------------------------
// Recovery

/// What the dialog shows of a recorded attempt.
#[derive(Debug, PartialEq, Eq)]
pub struct AttemptSummary {
    pub authority: String,
    pub operation_id: String,
    pub attempt_id: String,
    pub source: String,
    pub target: String,
    pub title: String,
    pub reviewed_head: String,
    pub status: String,
    pub unresolved: bool,
    pub acknowledgement: Option<PullRequestCreationAcknowledgement>,
}

#[verifier::ext_equal]
pub struct AttemptSummaryView {
    pub authority: Seq<char>,
    pub operation_id: Seq<char>,
    pub attempt_id: Seq<char>,
    pub source: Seq<char>,
    pub target: Seq<char>,
    pub title: Seq<char>,
    pub reviewed_head: Seq<char>,
    pub status: Seq<char>,
    pub unresolved: bool,
    pub acknowledgement: Option<PullRequestCreationAcknowledgementView>,
}

impl View for AttemptSummary {
    type V = AttemptSummaryView;

    open spec fn view(&self) -> AttemptSummaryView {
        AttemptSummaryView {
            authority: self.authority@,
            operation_id: self.operation_id@,
            attempt_id: self.attempt_id@,
            source: self.source@,
            target: self.target@,
            title: self.title@,
            reviewed_head: self.reviewed_head@,
            status: self.status@,
            unresolved: self.unresolved,
            acknowledgement: match self.acknowledgement {
                Some(x) => Some(x@),
                None => None,
            },
        }
    }
}

impl Clone for AttemptSummary {
    fn clone(&self) -> (r: Self)
        ensures
            r == *self,
    {
        AttemptSummary {
            authority: self.authority.clone(),
            operation_id: self.operation_id.clone(),
            attempt_id: self.attempt_id.clone(),
            source: self.source.clone(),
            target: self.target.clone(),
            title: self.title.clone(),
            reviewed_head: self.reviewed_head.clone(),
            status: self.status.clone(),
            unresolved: self.unresolved,
            acknowledgement: self.acknowledgement.clone(),
        }
    }
}

pub open spec fn place_of(repository: RepositoryView, branch: Seq<char>) -> Seq<char> {
    domain::full_name_of(repository.owner, repository.name) + ":"@ + branch
}

fn place(repository: &domain::Repository, branch: &str) -> (r: String)
    ensures
        r@ == place_of(repository@, branch@),
{
    let mut out = repository.full_name();
    out.append(":");
    out.append(branch);
    out
}

pub open spec fn status_text(status: CreationAttemptStatusView) -> Seq<char> {
    match status {
        CreationAttemptStatusView::InFlight => "In flight — outcome unknown; never retry implicitly"@,
        CreationAttemptStatusView::NotStarted { reason } => "Not started — "@ + reason,
        CreationAttemptStatusView::Acknowledged { .. } => "Acknowledged and durably recorded"@,
        CreationAttemptStatusView::Uncertain { reason } => "Uncertain — "@ + reason,
    }
}

pub open spec fn summary_of(key: CreationAuthorityKeyView, attempt: CreationAttemptView) -> AttemptSummaryView {
    let input = attempt.request.preparation.input;
    AttemptSummaryView {
        authority: CreationAuthorityKey::summary_of(key),
        operation_id: attempt.request.operation_id,
        attempt_id: attempt.request.attempt_id,
        source: place_of(input.source_repository, input.source_branch),
        target: place_of(input.target_repository, input.base_branch),
        title: input.title,
        reviewed_head: attempt.request.preparation.observed_source_head_sha,
        status: status_text(attempt.status),
        unresolved: is_unresolved(attempt.status),
        acknowledgement: match attempt.status {
            CreationAttemptStatusView::Acknowledged { acknowledgement } => acknowledgement.decoded,
            _ => None,
        },
    }
}

fn summarize(key: &CreationAuthorityKey, attempt: &CreationAttempt) -> (r: AttemptSummary)
    ensures
        r@ == summary_of(key@, attempt@),
{
    let input = &attempt.request.preparation.input;
    let (status, unresolved, acknowledgement): (
        String,
        bool,
        Option<PullRequestCreationAcknowledgement>,
    ) = match &attempt.status {
        CreationAttemptStatus::InFlight => (
            "In flight — outcome unknown; never retry implicitly".to_owned(),
            true,
            None,
        ),
        CreationAttemptStatus::NotStarted { reason } => {
            let mut s: String = "Not started — ".to_owned();
            s.append(reason);
            (s, false, None)
        },
        CreationAttemptStatus::Acknowledged { acknowledgement } => (
            "Acknowledged and durably recorded".to_owned(),
            false,
            acknowledgement.decoded.clone(),
        ),
        CreationAttemptStatus::Uncertain { reason } => {
            let mut s: String = "Uncertain — ".to_owned();
            s.append(reason);
            (s, true, None)
        },
    };
    AttemptSummary {
        authority: key.summary(),
        operation_id: attempt.request.operation_id.clone(),
        attempt_id: attempt.request.attempt_id.clone(),
        source: place(&input.source_repository, &input.source_branch),
        target: place(&input.target_repository, &input.base_branch),
        title: input.title.clone(),
        reviewed_head: attempt.request.preparation.observed_source_head_sha.clone(),
        status,
        unresolved,
        acknowledgement,
    }
}

/// A journal that was found, with the stem of its file name and its path as it is shown.
pub struct FoundJournal {
    pub stem: String,
    pub path: String,
    pub journal: CreationJournalRecord,
}

pub open spec fn found_fault(found: FoundJournal) -> Option<Seq<char>> {
    if journal_fault(found.journal@) is Some {
        journal_fault(found.journal@)
    } else if component_of(found.journal.key@) != found.stem@ {
        Some(
            "Creation journal "@ + found.path@
                + " has the wrong authority filename; it was preserved."@,
        )
    } else {
        None
    }
}

impl FoundJournal {
    /// What is tested of a journal before the next one is read.
    pub fn validate(&self) -> (r: Result<(), String>)
        ensures
            match r {
                Ok(_) => found_fault(*self) is None,
                Err(e) => found_fault(*self) == Some(e@),
            },
    {
        if let Err(e) = self.journal.validate() {
            return Err(e);
        }
        if !text::same_text(&self.journal.key.component(), &self.stem) {
            let mut out: String = "Creation journal ".to_owned();
            out.append(&self.path);
            out.append(" has the wrong authority filename; it was preserved.");
            return Err(out);
        }
        Ok(())
    }
}

pub open spec fn summaries_of(journal: CreationJournalView) -> Seq<AttemptSummaryView> {
    journal.attempts.map_values(|a: CreationAttemptView| summary_of(journal.key, a))
}

pub open spec fn found_summaries(found: Seq<FoundJournal>) -> Seq<AttemptSummaryView> {
    crate::seqs::concat(found.map_values(|f: FoundJournal| summaries_of(f.journal@)))
}

pub open spec fn found_faults(found: Seq<FoundJournal>) -> Seq<Option<Seq<char>>> {
    found.map_values(|f: FoundJournal| found_fault(f))
}

pub open spec fn by_operation(s: Seq<AttemptSummaryView>) -> Seq<AttemptSummaryView> {
    sort::sort_by_key(
        s.map_values(|a: AttemptSummaryView| (a.operation_id, a)),
    ).map_values(|p: (Seq<char>, AttemptSummaryView)| p.1)
}

pub open spec fn summary_views(s: Seq<AttemptSummary>) -> Seq<AttemptSummaryView> {
    s.map_values(|a: AttemptSummary| a@)
}

fn sort_by_operation(items: Vec<AttemptSummary>) -> (r: Vec<AttemptSummary>)
    ensures
        summary_views(r@) == by_operation(summary_views(items@)),
{
    let ghost all = items@;
    let mut pairs: Vec<(String, AttemptSummary)> = Vec::new();
    let mut i: usize = 0;
    while i < items.len()
        invariant
            i <= items@.len(),
            items@ == all,
            pairs@.len() == i,
            forall|k: int|
                #![trigger pairs@[k]]
                0 <= k < i ==> pairs@[k].1 == all[k] && pairs@[k].0@ == all[k].operation_id@,
        decreases items.len() - i,
    {
        pairs.push((items[i].operation_id.clone(), items[i].clone()));
        i += 1;
    }
    let ghost f = |a: AttemptSummary| a@;
    proof {
        let wanted = summary_views(all).map_values(|a: AttemptSummaryView| (a.operation_id, a));
        assert(sort::map_items(sort::keyed(pairs@), f) =~= wanted);
        sort::law_sorting_looks_at_keys_only(sort::keyed(pairs@), f);
    }
    let sorted = sort::sort_pairs(pairs);
    let mut out: Vec<AttemptSummary> = Vec::new();
    let mut j: usize = 0;
    while j < sorted.len()
        invariant
            j <= sorted@.len(),
            out@.len() == j,
            forall|k: int| #![trigger out@[k]] 0 <= k < j ==> out@[k] == sorted@[k].1,
        decreases sorted.len() - j,
    {
        out.push(sorted[j].1.clone());
        j += 1;
    }
    proof {
        let mapped = sort::map_items(sort::keyed(sorted@), f);
        assert(summary_views(out@) =~= mapped.map_values(
            |p: (Seq<char>, AttemptSummaryView)| p.1,
        ));
    }
    out
}

/// The summaries of all attempts in the journals that were found, by operation. Nothing is
/// hidden: one journal that cannot be used refuses them all.
pub fn load_attempt_summaries(found: &Vec<FoundJournal>) -> (r: Result<Vec<AttemptSummary>, String>)
    ensures
        match r {
            Err(e) => {
                if found@.len() > MAX_DISCOVERED_JOURNALS {
                    e@
                        == "Creation recovery has more journals than the bounded discovery limit; no record was hidden or changed."@
                } else {
                    faults::first_fault(found_faults(found@)) == Some(e@)
                }
            },
            Ok(list) => found@.len() <= MAX_DISCOVERED_JOURNALS && faults::first_fault(
                found_faults(found@),
            ) is None && summary_views(list@) == by_operation(found_summaries(found@)),
        },
{
    if found.len() > MAX_DISCOVERED_JOURNALS {
        return Err(
            "Creation recovery has more journals than the bounded discovery limit; no record was hidden or changed.".to_owned(),
        );
    }
    let ghost findings = found_faults(found@);
    let ghost parts = found@.map_values(|f: FoundJournal| summaries_of(f.journal@));
    let mut summaries: Vec<AttemptSummary> = Vec::new();
    let mut i: usize = 0;
    proof {
        assert(parts.take(0) =~= Seq::<Seq<AttemptSummaryView>>::empty());
        assert(summary_views(summaries@) =~= Seq::<AttemptSummaryView>::empty());
    }
    while i < found.len()
        invariant
            i <= found@.len(),
            found@.len() <= MAX_DISCOVERED_JOURNALS,
            findings == found_faults(found@),
            parts == found@.map_values(|f: FoundJournal| summaries_of(f.journal@)),
            forall|k: int| 0 <= k < i ==> (#[trigger] findings[k]) is None,
            summary_views(summaries@) == crate::seqs::concat(parts.take(i as int)),
        decreases found.len() - i,
    {
        let item = &found[i];
        proof {
            assert(findings[i as int] == found_fault(*item));
            faults::lemma_first_fault_at(findings, i as int);
        }
        if let Err(e) = item.validate() {
            return Err(e);
        }
        let ghost before = summary_views(summaries@);
        let ghost wanted = summaries_of(item.journal@);
        let mut j: usize = 0;
        proof {
            assert(before + wanted.take(0) =~= before);
        }
        while j < item.journal.attempts.len()
            invariant
                j <= item.journal.attempts@.len(),
                wanted == summaries_of(item.journal@),
                summary_views(summaries@) == before + wanted.take(j as int),
            decreases item.journal.attempts.len() - j,
        {
            let ghost prior = summaries@;
            let piece = summarize(&item.journal.key, &item.journal.attempts[j]);
            summaries.push(piece);
            proof {
                assert(wanted[j as int] == piece@);
                assert(summary_views(summaries@) =~= summary_views(prior).push(piece@));
                assert(before + wanted.take(j + 1) =~= (before + wanted.take(j as int)).push(
                    piece@,
                ));
            }
            j += 1;
        }
        proof {
            assert(wanted.take(j as int) =~= wanted);
            crate::seqs::lemma_concat_step(parts, i as int);
            assert(parts[i as int] == wanted);
        }
        i += 1;
    }
    proof {
        faults::lemma_first_fault_at(findings, i as int);
        assert(parts.take(i as int) =~= parts);
    }
    Ok(sort_by_operation(summaries))
}

// ---------------------------------------------------------------------------
// Laws of the list

/// Putting the summaries in order loses none and adds none.
pub proof fn law_ordering_keeps_every_summary(s: Seq<AttemptSummaryView>, a: AttemptSummaryView)
    ensures
        by_operation(s).contains(a) <==> s.contains(a),
        by_operation(s).len() == s.len(),
{
    broadcast use vstd::seq_lib::group_to_multiset_ensures;

    let pairs = s.map_values(|a: AttemptSummaryView| (a.operation_id, a));
    let sorted = sort::sort_by_key(pairs);
    let x = (a.operation_id, a);
    sort::law_sorting_orders_and_keeps(pairs);
    if s.contains(a) {
        let i = s.index_of(a);
        assert(pairs[i] == x);
        assert(sorted.to_multiset().count(x) == pairs.to_multiset().count(x));
        let k = sorted.index_of(x);
        assert(by_operation(s)[k] == a);
    }
    if by_operation(s).contains(a) {
        let k = by_operation(s).index_of(a);
        assert(sorted.contains(sorted[k]));
        assert(sorted.to_multiset().count(sorted[k]) == pairs.to_multiset().count(sorted[k]));
        let i = pairs.index_of(sorted[k]);
        assert(s[i] == a);
    }
}

proof fn lemma_found_has(found: Seq<FoundJournal>, i: int, k: int)
    requires
        0 <= i < found.len(),
        0 <= k < found[i].journal@.attempts.len(),
    ensures
        found_summaries(found).contains(
            summary_of(found[i].journal@.key, found[i].journal@.attempts[k]),
        ),
    decreases found.len(),
{
    let f = |f: FoundJournal| summaries_of(f.journal@);
    let front = found.drop_last();
    let before = found_summaries(front);
    let all = found_summaries(found);
    let x = summary_of(found[i].journal@.key, found[i].journal@.attempts[k]);
    assert(found.map_values(f).drop_last() =~= front.map_values(f));
    assert(found.map_values(f).last() == summaries_of(found.last().journal@));
    assert(all == before + summaries_of(found.last().journal@));
    if i < front.len() {
        lemma_found_has(front, i, k);
        let at = before.index_of(x);
        assert(all[at] == x);
    } else {
        assert(summaries_of(found.last().journal@)[k] == x);
        assert(all[before.len() + k] == x);
    }
}

/// Every attempt of every journal that was found is in the list of summaries.
pub proof fn law_every_attempt_is_listed(found: Seq<FoundJournal>, i: int, k: int)
    requires
        0 <= i < found.len(),
        0 <= k < found[i].journal@.attempts.len(),
    ensures
        by_operation(found_summaries(found)).contains(
            summary_of(found[i].journal@.key, found[i].journal@.attempts[k]),
        ),
{
    lemma_found_has(found, i, k);
    law_ordering_keeps_every_summary(
        found_summaries(found),
        summary_of(found[i].journal@.key, found[i].journal@.attempts[k]),
    );
}

/// The summaries are in the order of their operations.
pub proof fn law_summaries_are_ordered_by_operation(s: Seq<AttemptSummaryView>, i: int, j: int)
    requires
        0 <= i < j < by_operation(s).len(),
    ensures
        !text::text_less(by_operation(s)[j].operation_id, by_operation(s)[i].operation_id),
{
    broadcast use vstd::seq_lib::group_to_multiset_ensures;

    let pairs = s.map_values(|a: AttemptSummaryView| (a.operation_id, a));
    let sorted = sort::sort_by_key(pairs);
    sort::law_sorting_orders_and_keeps(pairs);
    assert(!text::text_less(sorted[j].0, sorted[i].0));
    assert forall|k: int| 0 <= k < sorted.len() implies (#[trigger] sorted[k]).0
        == sorted[k].1.operation_id by {
        assert(sorted.contains(sorted[k]));
        assert(sorted.to_multiset().count(sorted[k]) == pairs.to_multiset().count(sorted[k]));
        let m = pairs.index_of(sorted[k]);
        assert(pairs[m] == (s[m].operation_id, s[m]));
    }
}

/// A journal that was found is used exactly if it is accepted and its file has the name of its
/// authority.
pub proof fn law_found_journals_have_their_name(found: FoundJournal)
    ensures
        found_fault(found) is None <==> journal_fault(found.journal@) is None && component_of(
            found.journal.key@,
        ) == found.stem@,
        journal_fault(found.journal@) is None && component_of(found.journal.key@) != found.stem@
            ==> found_fault(found) == Some(
            "Creation journal "@ + found.path@
                + " has the wrong authority filename; it was preserved."@,
        ),
{
}

} // verus!

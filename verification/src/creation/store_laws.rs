//! What storing drafts and admitting creations is for: which forms and drafts are accepted, which
//! authority a creation is under, and how an attempt ends.

use vstd::prelude::*;

use crate::creation::form;
use crate::creation::form::{
    CreationFormView, DraftOwner, DraftRecordView, DraftSaveLaneView, DraftSnapshotView,
    PullRequestCreationAcknowledgementView, PullRequestCreationInputView,
    PullRequestCreationRequestView,
};
use crate::creation::journal;
use crate::creation::journal::{
    CreationAttemptStatusView, CreationAttemptView, CreationAuthorityKey,
    CreationAuthorityKeyView, CreationJournalRecord, CreationJournalView, MutationContextView,
    MutationTerminalRecord,
};
use crate::faults;
use crate::text;

verus! {

// ---------------------------------------------------------------------------
// Forms

/// Whether a text may be stored: of a bounded length and without control characters.
pub open spec fn storable(value: Seq<char>, limit: nat) -> bool {
    &&& text::byte_len(value) <= limit
    &&& forall|i: int| 0 <= i < value.len() ==> !text::is_control_char(#[trigger] value[i])
}

proof fn lemma_storable(value: Seq<char>, limit: nat)
    ensures
        storable(value, limit) <==> text::byte_len(value) <= limit && !text::has_control(value),
{
    if text::has_control(value) {
        let i = choose|i: int| 0 <= i < value.len() && text::is_control_char(#[trigger] value[i]);
        assert(text::is_control_char(value[i]));
    }
}

/// A text is visible exactly if it is bounded, has no control characters, and is not blank where
/// it must not be; the message names it.
pub proof fn law_visible_texts_are_bounded(
    label: Seq<char>,
    value: Seq<char>,
    limit: nat,
    allow_empty: bool,
)
    ensures
        ({
            let fault = form::visible_fault(label, value, limit, allow_empty);
            &&& fault is None <==> storable(value, limit) && (allow_empty || !text::blank(value))
            &&& fault matches Some(e) ==> e == "Invalid "@ + label + "."@
        }),
{
    lemma_storable(value, limit);
}

/// A form can be stored exactly if its branches and its title are bounded and without control
/// characters, its body is bounded and without a zero, its local branch is a bounded name, and
/// both repositories are of one account.
pub proof fn law_storable_forms(f: CreationFormView)
    ensures
        form::durable_fault(f) is None <==> {
            &&& storable(f.base_branch, 1_048_576)
            &&& storable(f.source_branch, 1_048_576)
            &&& storable(f.title, 1_048_576)
            &&& text::byte_len(f.body) <= 1_048_576
            &&& !f.body.contains('\0')
            &&& f.local_branch matches Some(b) ==> storable(b, 256)
            &&& f.target_repository.account == f.source_repository.account
        },
{
    lemma_storable(f.base_branch, 1_048_576);
    lemma_storable(f.source_branch, 1_048_576);
    lemma_storable(f.title, 1_048_576);
    if let Some(b) = f.local_branch {
        lemma_storable(b, 256);
    }
}

/// A form can be prepared exactly if it can be stored and neither branch nor the title is blank;
/// the first that is wrong is named.
pub proof fn law_preparable_forms(f: CreationFormView)
    ensures
        ({
            let fault = form::form_fault(f);
            &&& fault is None <==> form::durable_fault(f) is None && !text::blank(f.base_branch)
                && !text::blank(f.source_branch) && !text::blank(f.title)
            &&& form::durable_fault(f) is Some ==> fault == form::durable_fault(f)
            &&& form::durable_fault(f) is None ==> {
                &&& text::blank(f.base_branch) ==> fault == Some("Invalid "@ + "base branch"@ + "."@)
                &&& !text::blank(f.base_branch) && text::blank(f.source_branch) ==> fault == Some(
                    "Invalid "@ + "published source branch"@ + "."@,
                )
                &&& !text::blank(f.base_branch) && !text::blank(f.source_branch) && text::blank(
                    f.title,
                ) ==> fault == Some("Invalid "@ + "title"@ + "."@)
            }
        }),
{
}

/// What is prepared is the form, each field in its place.
pub proof fn law_the_input_is_the_form(f: CreationFormView)
    ensures
        ({
            let input = form::input_of(f);
            &&& input.target_repository == f.target_repository
            &&& input.source_repository == f.source_repository
            &&& input.base_branch == f.base_branch
            &&& input.source_branch == f.source_branch
            &&& input.local_branch == f.local_branch
            &&& input.title == f.title
            &&& input.body == f.body
            &&& input.draft == f.draft
        }),
{
}

/// A name is taken in lower case and only in ASCII; a branch is taken as it is.
pub proof fn law_names_are_lowered_and_branches_are_not(value: Seq<char>)
    ensures
        ({
            let name = form::canonical_of(value);
            let branch = form::branch_of(value);
            let fits = storable(value, 256) && !text::blank(value);
            &&& name is Ok <==> fits && vstd::utf8::is_ascii_chars(value)
            &&& name matches Ok(n) ==> n == text::lower(value)
            &&& branch is Ok <==> fits
            &&& branch matches Ok(b) ==> b == value
        }),
{
    lemma_storable(value, 256);
}

// ---------------------------------------------------------------------------
// Saves

/// The latest form waits to be stored unless it is being stored, or is stored and nothing else is
/// being stored; what waited before is replaced either way.
pub proof fn law_only_what_changed_waits(lane: DraftSaveLaneView, snapshot: DraftSnapshotView)
    ensures
        ({
            let after = form::queued(lane, snapshot);
            let being = lane.in_flight matches Some(p) && p.form == snapshot.form;
            let stored = lane.in_flight is None && lane.durable_form == Some(snapshot.form);
            &&& being || stored ==> after.pending is None
            &&& !being && !stored ==> after.pending == Some(snapshot)
            &&& after.in_flight == lane.in_flight
            &&& after.durable_form == lane.durable_form
            &&& after.durable_generation == lane.durable_generation
        }),
{
}

/// A receipt for the form that is being stored makes it the stored one; any other receipt only
/// ends the save.
pub proof fn law_a_receipt_is_for_the_form_being_stored(
    lane: DraftSaveLaneView,
    record: DraftRecordView,
)
    ensures
        ({
            let after = form::saved(lane, record);
            let fault = form::receipt_fault(lane, record);
            let right = lane.in_flight matches Some(p) && p.form == record.form;
            &&& fault is None <==> right
            &&& lane.in_flight is None ==> fault == Some(
                "Draft save completion has no owned in-flight snapshot."@,
            )
            &&& lane.in_flight is Some && !right ==> fault == Some(
                "Draft save receipt does not match its owned snapshot."@,
            )
            &&& after.in_flight is None
            &&& after.pending == lane.pending
            &&& right ==> after.durable_form == Some(record.form) && after.durable_generation
                == Some(record.generation)
            &&& !right ==> after.durable_form == lane.durable_form && after.durable_generation
                == lane.durable_generation
        }),
{
}

/// Everything is stored exactly if nothing is being stored or waits and the stored form is this
/// one.
pub proof fn law_everything_is_stored(lane: DraftSaveLaneView, f: CreationFormView)
    ensures
        form::is_drained(lane, f) <==> lane.in_flight is None && lane.pending is None
            && lane.durable_form == Some(f),
        form::can_start(lane) <==> lane.in_flight is None && lane.pending is Some,
{
}

/// A draft belongs to the account of its target, ignoring case; the shared store takes any.
pub proof fn law_drafts_belong_to_the_account_of_the_target(
    owner: DraftOwner,
    f: CreationFormView,
)
    ensures
        ({
            let account = f.target_repository.account;
            &&& owner.account is None ==> owner.owns(f)
            &&& owner.account matches Some(pair) ==> (owner.owns(f) <==> text::lower(account.host)
                == text::lower(pair.0@) && text::lower(account.login) == text::lower(pair.1@))
        }),
{
}

/// A draft that was read is used exactly if its version is the present one, its form can be
/// stored, and it belongs to the account.
pub proof fn law_drafts_that_can_be_used(owner: DraftOwner, record: DraftRecordView)
    ensures
        ({
            let fault = owner.draft_fault(record);
            &&& fault is None <==> record.version == 1 && form::durable_fault(record.form) is None
                && owner.owns(record.form)
            &&& record.version != 1 ==> fault == Some(
                "Creation draft uses unsupported version "@ + text::decimal(record.version as nat)
                    + "; the original was preserved."@,
            )
            &&& record.version == 1 && form::durable_fault(record.form) is None && !owner.owns(
                record.form,
            ) ==> fault == Some(
                "Creation draft belongs to another account; the original was preserved."@,
            )
        }),
{
}

/// A form replaces the stored draft exactly if it can be stored, belongs to the account, and the
/// stored draft is the one that the caller saw and can be counted on.
pub proof fn law_a_stale_draft_is_not_written(
    owner: DraftOwner,
    expected: Option<u64>,
    current: Option<u64>,
    f: CreationFormView,
)
    ensures
        ({
            let fault = owner.save_fault(expected, current, f);
            let fits = form::durable_fault(f) is None && owner.owns(f);
            &&& fault is None <==> fits && current == expected && expected != Some(u64::MAX)
            &&& fits && current != expected ==> fault == Some(
                "The durable creation draft changed in another window; this stale snapshot was not written. Reload before preparing."@,
            )
            &&& form::durable_fault(f) is None && !owner.owns(f) ==> fault == Some(
                "Creation draft account differs from its storage lane; no text was overwritten."@,
            )
        }),
{
}

// ---------------------------------------------------------------------------
// Authorities

/// The authority of a creation is its account, its source and its target, each name in lower
/// case and each branch as it is.
pub proof fn law_the_authority_names_source_and_target(input: PullRequestCreationInputView)
    ensures
        ({
            let key = journal::authority_of(input);
            let t = input.target_repository;
            let s = input.source_repository;
            &&& key.provider == "github"@
            &&& key.account_host == text::lower(t.account.host)
            &&& key.account_login == text::lower(t.account.login)
            &&& key.target_host == text::lower(t.host)
            &&& key.target_owner == text::lower(t.owner)
            &&& key.target_repository == text::lower(t.name)
            &&& key.base_branch == input.base_branch
            &&& key.source_host == text::lower(s.host)
            &&& key.source_owner == text::lower(s.owner)
            &&& key.source_repository == text::lower(s.name)
            &&& key.source_branch == input.source_branch
        }),
{
}

/// A creation has an authority exactly if both repositories are of one account, every name is
/// accepted, and both branches are.
pub proof fn law_creations_with_an_authority(input: PullRequestCreationInputView)
    ensures
        journal::authority_fault(input) is None <==> {
            let t = input.target_repository;
            let s = input.source_repository;
            &&& t.account == s.account
            &&& form::canonical_of(t.account.host) is Ok
            &&& form::canonical_of(t.account.login) is Ok
            &&& form::canonical_of(t.host) is Ok
            &&& form::canonical_of(t.owner) is Ok
            &&& form::canonical_of(t.name) is Ok
            &&& form::branch_of(input.base_branch) is Ok
            &&& form::canonical_of(s.host) is Ok
            &&& form::canonical_of(s.owner) is Ok
            &&& form::canonical_of(s.name) is Ok
            &&& form::branch_of(input.source_branch) is Ok
        },
{
    let findings = journal::authority_findings(input);
    let t = input.target_repository;
    let s = input.source_repository;
    faults::lemma_no_fault_of_all(findings);
    assert(findings.len() == 11);
    assert(findings[0] is None <==> t.account == s.account);
    assert(findings[1] is None <==> form::canonical_of(t.account.host) is Ok);
    assert(findings[2] is None <==> form::canonical_of(t.account.login) is Ok);
    assert(findings[3] is None <==> form::canonical_of(t.host) is Ok);
    assert(findings[4] is None <==> form::canonical_of(t.owner) is Ok);
    assert(findings[5] is None <==> form::canonical_of(t.name) is Ok);
    assert(findings[6] is None <==> form::branch_of(input.base_branch) is Ok);
    assert(findings[7] is None <==> form::canonical_of(s.host) is Ok);
    assert(findings[8] is None <==> form::canonical_of(s.owner) is Ok);
    assert(findings[9] is None <==> form::canonical_of(s.name) is Ok);
    assert(findings[10] is None <==> form::branch_of(input.source_branch) is Ok);
}

// ---------------------------------------------------------------------------
// Attempts

/// A request is admitted exactly if no attempt of its authority is unresolved, neither of its
/// identities was admitted before, its preparation was not acknowledged, and there is room.
pub proof fn law_requests_that_are_admitted(
    j: CreationJournalView,
    request: PullRequestCreationRequestView,
)
    ensures
        journal::admission_fault(j, request) is None <==> j.attempts.len()
            < 64 && forall|i: int|
            0 <= i < j.attempts.len() ==> {
                let a = #[trigger] j.attempts[i];
                &&& a.status is NotStarted || a.status is Acknowledged
                &&& a.request.operation_id != request.operation_id
                &&& a.request.attempt_id != request.attempt_id
                &&& a.status is Acknowledged ==> a.request.preparation != request.preparation
            },
{
    if journal::admission_fault(j, request) is None {
        assert forall|i: int| 0 <= i < j.attempts.len() implies {
            let a = #[trigger] j.attempts[i];
            &&& a.status is NotStarted || a.status is Acknowledged
            &&& a.request.operation_id != request.operation_id
            &&& a.request.attempt_id != request.attempt_id
            &&& a.status is Acknowledged ==> a.request.preparation != request.preparation
        } by {
            assert(!journal::is_unresolved(j.attempts[i].status));
        }
    }
}

/// Each refusal of a request has its own message, in this order: an unresolved attempt, a known
/// identity, an acknowledged preparation, a full journal.
pub proof fn law_refusals_are_told_apart(
    j: CreationJournalView,
    request: PullRequestCreationRequestView,
    i: int,
)
    requires
        0 <= i < j.attempts.len(),
    ensures
        ({
            let fault = journal::admission_fault(j, request);
            let a = j.attempts[i];
            let open = a.status is InFlight || a.status is Uncertain;
            &&& open ==> fault == Some(
                "this exact source-to-target authority has an unresolved creation; zero writes sent and the retained context must be reconciled explicitly"@,
            )
            &&& !journal::has_unresolved(j) && (a.request.operation_id == request.operation_id
                || a.request.attempt_id == request.attempt_id) ==> fault == Some(
                "this operation or attempt identity was already admitted; zero writes sent"@,
            )
            &&& !journal::has_unresolved(j) && !journal::knows_identity(j, request) && a.status
                is Acknowledged && a.request.preparation == request.preparation ==> fault == Some(
                "this exact frozen creation was already acknowledged; zero writes sent"@,
            )
        }),
{
    let a = j.attempts[i];
    if a.status is InFlight || a.status is Uncertain {
        assert(journal::is_unresolved(j.attempts[i].status));
    }
}

/// An admitted request is the last attempt, in flight, with its context; the others stay.
pub proof fn law_an_admitted_request_is_in_flight(
    j: CreationJournalView,
    request: PullRequestCreationRequestView,
    context: MutationContextView,
)
    ensures
        ({
            let after = journal::admitted(j, request, context);
            &&& after.attempts.len() == j.attempts.len() + 1
            &&& after.attempts.last().request == request
            &&& after.attempts.last().context == context
            &&& after.attempts.last().status is InFlight
            &&& forall|i: int|
                0 <= i < j.attempts.len() ==> #[trigger] after.attempts[i] == j.attempts[i]
            &&& after.key == j.key
            &&& after.version == j.version
        }),
{
}

proof fn lemma_first_held(
    attempts: Seq<CreationAttemptView>,
    request: PullRequestCreationRequestView,
)
    ensures
        ({
            let i = journal::held_index(attempts, request);
            &&& i <= attempts.len()
            &&& i < attempts.len() ==> journal::is_held(attempts[i as int], request)
            &&& forall|k: int| 0 <= k < i ==> !journal::is_held(#[trigger] attempts[k], request)
        }),
    decreases attempts.len(),
{
    if attempts.len() > 0 && !journal::is_held(attempts[0], request) {
        let rest = attempts.drop_first();
        lemma_first_held(rest, request);
        let i = journal::held_index(rest, request) as int;
        assert(journal::held_index(attempts, request) == i + 1);
        if i < rest.len() {
            assert(attempts[i + 1] == rest[i]);
        }
        assert forall|k: int| 0 <= k < i + 1 implies !journal::is_held(
            #[trigger] attempts[k],
            request,
        ) by {
            if k > 0 {
                assert(attempts[k] == rest[k - 1]);
            }
        }
    }
}

/// The end of an attempt is recorded for the attempt in flight that has both identities of the
/// request, and for no other; only its status changes, to what is said of the end.
pub proof fn law_the_end_is_recorded_for_its_attempt(
    j: CreationJournalView,
    request: PullRequestCreationRequestView,
    record: MutationTerminalRecord,
)
    requires
        journal::terminal_fault(j, request, record) is None,
    ensures
        ({
            let after = journal::ended(j, request, record);
            let i = journal::held_index(j.attempts, request) as int;
            &&& 0 <= i < j.attempts.len()
            &&& j.attempts[i].request.operation_id == request.operation_id
            &&& j.attempts[i].request.attempt_id == request.attempt_id
            &&& j.attempts[i].status is InFlight
            &&& after.attempts.len() == j.attempts.len()
            &&& after.attempts[i].request == j.attempts[i].request
            &&& after.attempts[i].context == j.attempts[i].context
            &&& after.attempts[i].status == match record {
                MutationTerminalRecord::NotStarted { reason } =>
                    CreationAttemptStatusView::NotStarted { reason: reason@ },
                MutationTerminalRecord::Uncertain { reason } =>
                    CreationAttemptStatusView::Uncertain { reason: reason@ },
                MutationTerminalRecord::Acknowledged { acknowledgement } =>
                    CreationAttemptStatusView::Acknowledged { acknowledgement: acknowledgement@ },
            }
            &&& forall|k: int|
                0 <= k < j.attempts.len() && k != i ==> #[trigger] after.attempts[k]
                    == j.attempts[k]
            &&& after.key == j.key
        }),
{
    lemma_first_held(j.attempts, request);
}

/// The end is refused exactly if no such attempt is in flight, or its reason is empty, too long
/// or holds a zero.
pub proof fn law_ends_that_are_refused(
    j: CreationJournalView,
    request: PullRequestCreationRequestView,
    record: MutationTerminalRecord,
)
    ensures
        ({
            let fault = journal::terminal_fault(j, request, record);
            let held = exists|i: int|
                0 <= i < j.attempts.len() && (#[trigger] j.attempts[i]).status is InFlight
                    && j.attempts[i].request.operation_id == request.operation_id
                    && j.attempts[i].request.attempt_id == request.attempt_id;
            let said = match record {
                MutationTerminalRecord::NotStarted { reason } => form::reason_is_bounded(reason@),
                MutationTerminalRecord::Uncertain { reason } => form::reason_is_bounded(reason@),
                MutationTerminalRecord::Acknowledged { .. } => true,
            };
            &&& fault is None <==> held && said
            &&& !held ==> fault == Some(
                "held creation attempt is no longer the retained InFlight record"@,
            )
        }),
{
    lemma_first_held(j.attempts, request);
    let i = journal::held_index(j.attempts, request) as int;
    if i < j.attempts.len() {
        assert(j.attempts[i].status is InFlight);
    }
    if exists|k: int|
        0 <= k < j.attempts.len() && (#[trigger] j.attempts[k]).status is InFlight
            && j.attempts[k].request.operation_id == request.operation_id
            && j.attempts[k].request.attempt_id == request.attempt_id {
        let k = choose|k: int|
            0 <= k < j.attempts.len() && (#[trigger] j.attempts[k]).status is InFlight
                && j.attempts[k].request.operation_id == request.operation_id
                && j.attempts[k].request.attempt_id == request.attempt_id;
        assert(journal::is_held(j.attempts[k], request));
    }
}

/// An acknowledgement is of a request exactly if it is of its operation, its repositories and the
/// commit that was reviewed, and names a pull request of the target.
pub proof fn law_acknowledgements_are_of_the_request(
    a: PullRequestCreationAcknowledgementView,
    request: PullRequestCreationRequestView,
)
    ensures
        journal::acknowledges(a, request) <==> {
            let t = request.preparation.input.target_repository;
            &&& a.operation_id == request.operation_id
            &&& a.target_repository == t
            &&& a.source_repository == request.preparation.input.source_repository
            &&& a.reviewed_head_sha == request.preparation.observed_source_head_sha
            &&& a.pull_request.provider == "github"@
            &&& text::lower(a.pull_request.host) == text::lower(t.host)
            &&& text::lower(a.pull_request.owner) == text::lower(t.owner)
            &&& text::lower(a.pull_request.repository) == text::lower(t.name)
            &&& a.pull_request.pull_request != 0
        },
{
}

/// A context is of a request exactly if it has both its identities, is for creating a pull request,
/// and carries exactly that request.
pub proof fn law_contexts_carry_the_request(
    request: PullRequestCreationRequestView,
    context: MutationContextView,
)
    ensures
        journal::context_fault(request, context) is None <==> {
            &&& context.operation_id == request.operation_id
            &&& context.attempt_id == request.attempt_id
            &&& context.action == "create-pr"@
            &&& context.request matches journal::ContextRequestView::Decoded(observed)
            &&& observed == request
        },
        journal::admission_key_fault(request, context) is None <==> journal::context_fault(
            request,
            context,
        ) is None && journal::authority_fault(request.preparation.input) is None,
{
}

/// A journal is accepted exactly if its version is the present one, it keeps to its bound, and
/// each attempt is accepted: its identities, its context, its authority and its status.
pub proof fn law_journals_that_are_accepted(j: CreationJournalView)
    ensures
        journal::journal_fault(j) is None <==> j.version == 1 && j.attempts.len()
            <= 64 && forall|i: int|
            0 <= i < j.attempts.len() ==> {
                let a = #[trigger] j.attempts[i];
                &&& form::identifier_fault("operation ID"@, a.request.operation_id) is None
                &&& form::identifier_fault("attempt ID"@, a.request.attempt_id) is None
                &&& a.context.operation_id == a.request.operation_id
                &&& a.context.attempt_id == a.request.attempt_id
                &&& a.context.action == "create-pr"@
                &&& journal::authority_fault(a.request.preparation.input) is None
                &&& journal::authority_of(a.request.preparation.input) == j.key
                &&& !journal::repeats_identity(j.attempts, i)
                &&& journal::status_fault(a.status, a.request) is None
            },
{
    let found = journal::attempt_faults(j);
    faults::lemma_no_fault_of_all(found);
    assert forall|i: int| 0 <= i < j.attempts.len() implies #[trigger] found[i]
        == journal::attempt_fault(j, i) by {}
    if faults::first_fault(found) is None {
        assert forall|i: int| 0 <= i < j.attempts.len() implies {
            let a = #[trigger] j.attempts[i];
            &&& form::identifier_fault("operation ID"@, a.request.operation_id) is None
            &&& form::identifier_fault("attempt ID"@, a.request.attempt_id) is None
            &&& a.context.operation_id == a.request.operation_id
            &&& a.context.attempt_id == a.request.attempt_id
            &&& a.context.action == "create-pr"@
            &&& journal::authority_fault(a.request.preparation.input) is None
            &&& journal::authority_of(a.request.preparation.input) == j.key
            &&& !journal::repeats_identity(j.attempts, i)
            &&& journal::status_fault(a.status, a.request) is None
        } by {
            assert(found[i] is None);
        }
    } else {
        let i = choose|i: int| 0 <= i < found.len() && !(#[trigger] found[i] is None);
        assert(journal::attempt_fault(j, i) is Some);
        assert(j.attempts[i].request == j.attempts[i].request);
    }
}

/// A journal is used for an authority only under the name of that authority.
pub proof fn law_journals_are_found_under_their_authority(
    j: CreationJournalView,
    key: CreationAuthorityKeyView,
    stem: Seq<char>,
)
    ensures
        CreationJournalRecord::opened_fault(j, key, stem) is None <==> journal::journal_fault(j)
            is None && j.key == key && journal::component_of(key) == stem,
{
}

/// The summary of an attempt names its source and its target, each with its branch, its title,
/// the commit that was reviewed and how it stands; an acknowledgement is part of it where there
/// is one.
pub proof fn law_summaries_say_how_an_attempt_stands(
    key: CreationAuthorityKeyView,
    a: CreationAttemptView,
)
    ensures
        ({
            let s = journal::summary_of(key, a);
            let input = a.request.preparation.input;
            let from = input.source_repository;
            let to = input.target_repository;
            &&& s.operation_id == a.request.operation_id
            &&& s.attempt_id == a.request.attempt_id
            &&& s.source == from.owner + "/"@ + from.name + ":"@ + input.source_branch
            &&& s.target == to.owner + "/"@ + to.name + ":"@ + input.base_branch
            &&& s.title == input.title
            &&& s.reviewed_head == a.request.preparation.observed_source_head_sha
            &&& s.unresolved <==> a.status is InFlight || a.status is Uncertain
            &&& match a.status {
                CreationAttemptStatusView::InFlight => s.status
                    == "In flight — outcome unknown; never retry implicitly"@
                    && s.acknowledgement is None,
                CreationAttemptStatusView::NotStarted { reason } => s.status == "Not started — "@
                    + reason && s.acknowledgement is None,
                CreationAttemptStatusView::Uncertain { reason } => s.status == "Uncertain — "@
                    + reason && s.acknowledgement is None,
                CreationAttemptStatusView::Acknowledged { acknowledgement } => s.status
                    == "Acknowledged and durably recorded"@ && s.acknowledgement
                    == acknowledgement.decoded,
            }
            &&& s.authority == key.source_owner + ":"@ + key.source_branch + " → "@
                + key.target_owner + "/"@ + key.target_repository + ":"@ + key.base_branch
                + " as "@ + key.account_login
            &&& s.authority == CreationAuthorityKey::summary_of(key)
        }),
{
}

} // verus!

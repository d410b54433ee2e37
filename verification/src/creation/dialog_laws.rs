//! What the dialog that creates a pull request is for: which form is stored, prepared and
//! confirmed, and what is asked of the outside at each step.

use vstd::prelude::*;

use crate::creation::dialog;
use crate::creation::dialog::{
    DialogEffectView, DialogStateView, DialogView, ProviderMutationOutcome,
};
use crate::creation::form;
use crate::creation::form::{
    CreationFormView, DraftRecord, DraftSnapshotView, PullRequestCreationAcknowledgementView,
    PullRequestCreationPreparation,
};
use crate::creation::journal;
use crate::creation::journal::AttemptSummary;
use crate::domain;
use crate::domain::Repository;
use crate::text;

verus! {

/// The form is made of the fields as they are shown: the two repositories that are chosen, the
/// branches, the texts and the draft flag; a local branch is part of it unless it is blank.
pub proof fn law_the_form_is_what_is_shown(d: DialogView)
    ensures
        ({
            let shown = dialog::shown_form(d);
            &&& d.target_index >= d.repositories.len() ==> shown
                == Err::<CreationFormView, Seq<char>>(
                "Choose an explicitly added target repository."@,
            )
            &&& d.target_index < d.repositories.len() && d.source_index >= d.repositories.len()
                ==> shown == Err::<CreationFormView, Seq<char>>(
                "Choose an explicitly added source repository."@,
            )
            &&& shown matches Ok(f) ==> {
                &&& d.target_index < d.repositories.len()
                &&& d.source_index < d.repositories.len()
                &&& f.target_repository == d.repositories[d.target_index as int]@
                &&& f.source_repository == d.repositories[d.source_index as int]@
                &&& f.base_branch == d.base_branch
                &&& f.source_branch == d.source_branch
                &&& f.title == d.title
                &&& f.body == d.body
                &&& f.draft == d.draft
                &&& f.local_branch is None <==> text::blank(d.local_branch)
                &&& f.local_branch matches Some(b) ==> b == text::trimmed(d.local_branch)
                &&& form::durable_fault(f) is None
            }
        }),
{
    text::law_trimmed_is_empty_iff_blank(d.local_branch);
}

/// A repository is found at the first place that has its key.
pub proof fn law_repositories_are_found_by_key(repositories: Seq<Repository>, key: Seq<char>)
    ensures
        match dialog::position_of(repositories, key) {
            Some(i) => 0 <= i < repositories.len() && domain::cache_key_of(repositories[i]@) == key
                && forall|k: int|
                0 <= k < i ==> domain::cache_key_of((#[trigger] repositories[k])@) != key,
            None => forall|k: int|
                0 <= k < repositories.len() ==> domain::cache_key_of((#[trigger] repositories[k])@)
                    != key,
        },
    decreases repositories.len(),
{
    if repositories.len() > 0 && domain::cache_key_of(repositories[0]@) != key {
        let rest = repositories.drop_first();
        law_repositories_are_found_by_key(rest, key);
        match dialog::position_of(rest, key) {
            Some(i) => {
                assert(repositories[i + 1] == rest[i]);
                assert forall|k: int| 0 <= k < i + 1 implies domain::cache_key_of(
                    (#[trigger] repositories[k])@,
                ) != key by {
                    if k > 0 {
                        assert(rest[k - 1] == repositories[k]);
                    }
                }
            },
            None => {
                assert forall|k: int| 0 <= k < repositories.len() implies domain::cache_key_of(
                    (#[trigger] repositories[k])@,
                ) != key by {
                    if k > 0 {
                        assert(rest[k - 1] == repositories[k]);
                    }
                }
            },
        }
    }
}

/// Loading is asked for under a new number, where there is a store; where there is none the
/// dialog is unavailable.
pub proof fn law_loading_is_asked_for(d: DialogView)
    ensures
        ({
            let after = dialog::load_begun(d);
            &&& d.store is None ==> after.state is Unavailable && after.notice is Some
                && after.effects == d.effects
            &&& d.store is Some ==> after.state == d.state && after.effects == d.effects.push(
                DialogEffectView::Load {
                    lifetime: d.lifetime_id,
                    generation: after.load_generation,
                },
            )
            &&& d.store is Some && d.load_generation < u64::MAX ==> after.load_generation
                == d.load_generation + 1
        }),
{
}

/// The branches of the two chosen repositories are asked for, each in its place; they are shared
/// if both are the same repository.
pub proof fn law_branches_are_asked_for(d: DialogView)
    requires
        d.target_index < d.repositories.len(),
        d.source_index < d.repositories.len(),
    ensures
        ({
            let after = dialog::choices_begun(d);
            let target = d.repositories[d.target_index as int]@;
            let source = d.repositories[d.source_index as int]@;
            &&& after.choices_loading
            &&& d.choice_generation < u64::MAX ==> after.choice_generation == d.choice_generation
                + 1
            &&& after.effects == d.effects.push(
                DialogEffectView::Choices {
                    lifetime: d.lifetime_id,
                    generation: after.choice_generation,
                    target,
                    source,
                    shared: domain::cache_key_of(target) == domain::cache_key_of(source),
                },
            )
        }),
{
}

/// A form that waits is stored over the version that is known to be there; only one is stored at
/// a time, and without a store nothing that waits for it goes on.
pub proof fn law_a_waiting_form_is_stored(d: DialogView)
    ensures
        ({
            let after = dialog::save_begun(d);
            let lane = d.draft_lane;
            let can = lane.in_flight is None && lane.pending is Some;
            &&& !can ==> after == d
            &&& can && d.store is Some ==> {
                &&& after.effects == d.effects.push(
                    DialogEffectView::Save {
                        lifetime: d.lifetime_id,
                        generation: after.save_generation,
                        expected: lane.durable_generation,
                        form: lane.pending->0.form,
                    },
                )
                &&& d.save_generation < u64::MAX ==> after.save_generation == d.save_generation + 1
                &&& after.draft_lane.in_flight == lane.pending
                &&& after.draft_lane.pending is None
                &&& after.draft_lane.durable_form == lane.durable_form
                &&& after.draft_lane.durable_generation == lane.durable_generation
                &&& after.state == d.state
                &&& after.close_after_save == d.close_after_save
                &&& after.prepare_queued == d.prepare_queued
            }
            &&& can && d.store is None ==> {
                &&& after.effects == d.effects
                &&& !after.close_after_save
                &&& after.prepare_queued is None
                &&& !after.form_disabled
                &&& after.draft_lane.in_flight is None
                &&& after.notice is Some
            }
        }),
{
}

/// A change counts, takes back a preparation that waits and a confirmation that is shown, and is
/// stored a little later.
pub proof fn law_a_change_takes_back_the_confirmation(d: DialogView)
    ensures
        ({
            let after = dialog::edited(d);
            &&& d.edit_generation < u64::MAX ==> after.edit_generation == d.edit_generation + 1
            &&& after.prepare_queued is None
            &&& after.effects == d.effects.push(
                DialogEffectView::Debounce {
                    lifetime: d.lifetime_id,
                    edit_generation: after.edit_generation,
                },
            )
            &&& d.state is Confirmation ==> after.state is Editing && after.frozen is None
                && after.notice is Some
            &&& !(d.state is Confirmation) ==> after.state == d.state && after.frozen == d.frozen
            &&& after.title == d.title
            &&& after.body == d.body
            &&& after.base_branch == d.base_branch
            &&& after.source_branch == d.source_branch
            &&& after.local_branch == d.local_branch
            &&& after.draft == d.draft
        }),
{
}

/// A form that is stored already is prepared at once: the outside is asked to prepare exactly
/// the form that is shown.
pub proof fn law_a_stored_form_is_prepared_at_once(d: DialogView)
    requires
        d.state is Editing,
        d.store is Some,
        dialog::shown_form(d) is Ok,
        form::form_fault(dialog::shown_form(d)->Ok_0) is None,
        d.draft_lane.in_flight is None,
        d.draft_lane.pending is None,
        d.draft_lane.durable_form == Some(dialog::shown_form(d)->Ok_0),
    ensures
        ({
            let after = dialog::prepare_requested(d);
            &&& after.state is Preparing
            &&& after.form_disabled
            &&& d.operation_generation < u64::MAX ==> after.operation_generation
                == d.operation_generation + 1
            &&& after.effects == d.effects.push(DialogEffectView::Focus).push(
                DialogEffectView::Prepare {
                    lifetime: d.lifetime_id,
                    generation: after.operation_generation,
                    edit_generation: d.edit_generation,
                    form: dialog::shown_form(d)->Ok_0,
                },
            )
        }),
{
}

/// Preparing is refused, with the reason and nothing asked, unless the dialog is being edited, has
/// a store, and its form can be prepared.
pub proof fn law_other_forms_are_not_prepared(d: DialogView)
    ensures
        ({
            let after = dialog::prepare_requested(d);
            &&& !(d.state is Editing) ==> after == d
            &&& d.state is Editing && d.store is None ==> after == DialogView {
                notice: Some("Durable creation storage is unavailable; zero writes sent."@),
                ..d
            }
            &&& d.state is Editing && d.store is Some ==> {
                &&& dialog::shown_form(d) matches Err(e) ==> after == DialogView {
                    notice: Some(e),
                    ..d
                }
                &&& dialog::shown_form(d) matches Ok(f) ==> (form::form_fault(f) matches Some(e)
                    ==> after == DialogView { notice: Some(e), ..d })
            }
        }),
{
}

/// A preparation of the form that is still shown is put up for confirmation, with exactly that
/// form, that preparation and the two identifiers.
pub proof fn law_a_preparation_is_put_up_for_confirmation(
    d: DialogView,
    form: CreationFormView,
    preparation: PullRequestCreationPreparation,
    operation_id: String,
    attempt_id: String,
)
    requires
        dialog::shown_form(d) == Ok::<CreationFormView, Seq<char>>(form),
        preparation.can_create.available,
    ensures
        ({
            let after = dialog::prepare_settled(
                d,
                d.edit_generation,
                form,
                Ok(preparation),
                Ok(operation_id),
                Ok(attempt_id),
            );
            &&& after.state is Confirmation
            &&& after.notice is None
            &&& after.frozen matches Some(frozen)
            &&& frozen.visible_form == form
            &&& frozen.request.operation_id == operation_id@
            &&& frozen.request.attempt_id == attempt_id@
            &&& frozen.request.preparation == preparation@
            &&& after.effects == d.effects
        }),
{
}

/// A preparation that was refused, that is of another form than the shown one, or that the account
/// may not carry out goes back to editing, says why, and confirms nothing new.
pub proof fn law_other_preparations_go_back_to_editing(
    d: DialogView,
    edit_generation: u64,
    form: CreationFormView,
    result: Result<PullRequestCreationPreparation, String>,
    operation_id: Result<String, String>,
    attempt_id: Result<String, String>,
)
    requires
        result is Err || !result->Ok_0.can_create.available || operation_id is Err || attempt_id
            is Err || d.edit_generation != edit_generation || dialog::shown_form(d) != Ok::<
            CreationFormView,
            Seq<char>,
        >(form),
    ensures
        ({
            let after = dialog::prepare_settled(
                d,
                edit_generation,
                form,
                result,
                operation_id,
                attempt_id,
            );
            &&& after.state is Editing
            &&& !after.form_disabled
            &&& after.notice is Some
            &&& after.frozen is None || after.frozen == d.frozen
            &&& result is Ok && (d.edit_generation != edit_generation || dialog::shown_form(d)
                != Ok::<CreationFormView, Seq<char>>(form)) ==> after.frozen is None
                && after.notice == Some(
                "Visible creation fields changed while preparation was pending. The result was discarded; prepare again."@,
            )
            &&& after.effects == d.effects
            &&& result matches Err(e) ==> after.notice == Some(
                "PR creation preparation refused; zero writes sent: "@ + e@,
            )
            &&& result matches Ok(p) ==> (d.edit_generation == edit_generation
                && dialog::shown_form(d) == Ok::<CreationFormView, Seq<char>>(form)
                && !p.can_create.available ==> (p.can_create.reason matches Some(reason)
                ==> after.notice == Some(reason@)))
        }),
{
}

/// Confirming asks for exactly the request that was put up, once, where the form is still the one
/// that was put up; otherwise nothing is asked for and editing goes on.
pub proof fn law_confirming_creates_what_was_put_up(d: DialogView)
    ensures
        ({
            let after = dialog::confirmed(d);
            let up = d.state is Confirmation && d.frozen is Some;
            let same = dialog::shown_form(d) == Ok::<CreationFormView, Seq<char>>(
                d.frozen->0.visible_form,
            );
            &&& !up ==> after == d
            &&& up && !same ==> after.state is Editing && after.frozen is None && after.effects
                == d.effects && !after.form_disabled && after.notice is Some
            &&& up && same && d.store is None ==> after == d
            &&& up && same && d.store is Some ==> {
                &&& after.state is Creating
                &&& d.operation_generation < u64::MAX ==> after.operation_generation
                    == d.operation_generation + 1
                &&& after.effects == d.effects.push(DialogEffectView::Focus).push(
                    DialogEffectView::Create {
                        lifetime: d.lifetime_id,
                        generation: after.operation_generation,
                        request: d.frozen->0.request,
                    },
                )
            }
        }),
{
}

/// The answer of the provider decides what follows: an acknowledgement is shown, a refusal goes
/// back to editing with its reason, and an unresolved outcome stays as such.
pub proof fn law_answers_are_shown(
    d: DialogView,
    outcome: ProviderMutationOutcome,
    attempts: Vec<AttemptSummary>,
    error: String,
)
    ensures
        ({
            let after = dialog::create_settled(d, outcome, Ok(attempts));
            let unread = dialog::create_settled(d, outcome, Err(error));
            &&& after.attempts == journal::summary_views(attempts@)
            &&& unread.attempts == d.attempts
            &&& unread.state == after.state
            &&& unread.notice == Some(
                "Creation finished, but recovery records cannot be read: "@ + error@
                    + ". Do not retry."@,
            )
            &&& after.effects == d.effects
            &&& match outcome {
                ProviderMutationOutcome::Acknowledged { acknowledgement } => after.state
                    == DialogStateView::Acknowledged(acknowledgement@) && after.frozen == d.frozen,
                ProviderMutationOutcome::PreflightRejected { reason } => after.state is Editing
                    && after.frozen is None && !after.form_disabled && after.notice == Some(
                    "Creation refused: "@ + reason@,
                ),
                ProviderMutationOutcome::Uncertain { reason } => after.state
                    == DialogStateView::Uncertain(reason@) && after.frozen == d.frozen,
            }
        }),
{
}

/// Closing with everything stored closes at once; with work pending it is refused; otherwise the
/// form is stored first.
pub proof fn law_closing_loses_nothing(d: DialogView)
    requires
        !d.close_after_save,
    ensures
        ({
            let after = dialog::close_requested(d);
            let shown = dialog::shown_form(d);
            &&& d.state is Unavailable ==> after.closed
            &&& dialog::is_busy(d.state) ==> after.closed == d.closed && after.notice is Some
                && after.effects == d.effects
            &&& !(d.state is Unavailable) && !dialog::is_busy(d.state) ==> {
                &&& d.store is None ==> after.closed == d.closed && after.notice is Some
                &&& d.store is Some && shown is Err ==> after.closed == d.closed && after.notice
                    == Some(
                    "Close refused because the latest form cannot be saved: "@ + shown->Err_0,
                )
                &&& d.store is Some && shown is Ok && form::is_drained(d.draft_lane, shown->Ok_0)
                    ==> after.closed && after.effects == d.effects
                &&& d.store is Some && shown is Ok && !form::is_drained(d.draft_lane, shown->Ok_0)
                    ==> after.close_after_save && after.form_disabled && after.closed == d.closed
            }
        }),
{
}

/// Opening what was created closes the dialog and then opens that, and nothing else.
pub proof fn law_opening_follows_closing(
    d: DialogView,
    a: PullRequestCreationAcknowledgementView,
)
    ensures
        ({
            let waiting = DialogView { recovery_open: Some(a), ..d };
            let plain = DialogView { recovery_open: None, ..d };
            &&& dialog::close_finished(waiting).closed
            &&& dialog::close_finished(waiting).recovery_open is None
            &&& dialog::close_finished(waiting).effects == d.effects.push(
                DialogEffectView::Open { acknowledgement: a },
            )
            &&& dialog::close_finished(plain).closed
            &&& dialog::close_finished(plain).effects == d.effects
            &&& dialog::is_busy(d.state) || d.close_after_save ==> dialog::open_requested(d, a)
                == d
        }),
        !dialog::is_busy(d.state) && !d.close_after_save ==> {
            let after = dialog::open_requested(d, a);
            let shown = dialog::shown_form(d);
            let storable = d.store is Some && shown is Ok;
            &&& d.state is Unavailable || storable && form::is_drained(d.draft_lane, shown->Ok_0)
                ==> after.closed && after.effects == d.effects.push(
                DialogEffectView::Open { acknowledgement: a },
            )
            &&& !(d.state is Unavailable) && storable && !form::is_drained(
                d.draft_lane,
                shown->Ok_0,
            ) ==> after.close_after_save && after.recovery_open == Some(a) && after.closed
                == d.closed
            &&& !(d.state is Unavailable) && !storable && !d.closed ==> !after.closed
                && after.recovery_open is None && after.effects == d.effects
        },
{
}

/// Cancelling goes back to editing without a confirmation and asks for nothing; work that is
/// pending is not cancelled.
pub proof fn law_cancelling_writes_nothing(d: DialogView)
    ensures
        ({
            let after = dialog::cancelled(d);
            &&& dialog::is_busy(d.state) ==> after == d
            &&& !dialog::is_busy(d.state) && !(d.state is Unavailable) ==> {
                &&& after.state is Editing
                &&& after.frozen is None
                &&& after.prepare_queued is None
                &&& !after.close_after_save
                &&& !after.form_disabled
                &&& after.effects == d.effects
                &&& after.draft_lane == d.draft_lane
            }
            &&& d.state is Confirmation ==> dialog::left(d) == after
            &&& !(d.state is Confirmation) ==> dialog::left(d) == dialog::close_requested(d)
        }),
{
}

/// Choosing a repository chooses the target or the source, as asked, and leaves the other; it
/// counts as a change and drops the confirmation. Nothing is chosen while work or closing is
/// pending.
pub proof fn law_the_repository_that_is_asked_for_is_chosen(
    d: DialogView,
    target: bool,
    index: usize,
)
    ensures
        ({
            let after = dialog::repository_chosen(d, target, index);
            let may = !dialog::is_busy(d.state) && !(d.state is Unavailable) && !(d.state
                is Confirmation) && !d.close_after_save && d.prepare_queued is None && index
                < d.repositories.len();
            &&& !may ==> after == d
            &&& may ==> {
                &&& target ==> after.target_index == index && after.source_index == d.source_index
                &&& !target ==> after.source_index == index && after.target_index
                    == d.target_index
                &&& after.frozen is None
                &&& after.state is Editing
                &&& d.edit_generation < u64::MAX ==> after.edit_generation == d.edit_generation + 1
                &&& after.target_choices is None
                &&& after.source_choices is None
            }
        }),
{
}

/// What was loaded is shown: without a draft the empty form, with one its repositories, branches,
/// texts and flag; a failed load makes the dialog unavailable and says why.
pub proof fn law_a_loaded_draft_is_shown(
    d: DialogView,
    record: DraftRecord,
    attempts: Vec<AttemptSummary>,
    error: String,
)
    ensures
        ({
            let f = record@.form;
            let failed = dialog::load_settled(d, Err(error));
            let empty = dialog::load_settled(d, Ok((None, attempts)));
            let after = dialog::load_settled(d, Ok((Some(record), attempts)));
            let target = dialog::position_of(
                d.repositories,
                domain::cache_key_of(f.target_repository),
            );
            let source = dialog::position_of(
                d.repositories,
                domain::cache_key_of(f.source_repository),
            );
            &&& failed.state is Unavailable
            &&& failed.notice == Some(error@)
            &&& failed.attempts == d.attempts
            &&& empty.state is Editing
            &&& !empty.form_disabled
            &&& empty.attempts == journal::summary_views(attempts@)
            &&& after.attempts == journal::summary_views(attempts@)
            &&& target is None || source is None ==> after.state is Unavailable && after.title
                == d.title && after.draft_lane == d.draft_lane
            &&& target is Some && source is Some ==> {
                &&& after.state is Editing
                &&& !after.form_disabled
                &&& after.target_index == target->0 as usize
                &&& after.source_index == source->0 as usize
                &&& after.base_branch == f.base_branch
                &&& after.source_branch == f.source_branch
                &&& f.local_branch matches Some(b) ==> after.local_branch == b
                &&& f.local_branch is None ==> after.local_branch.len() == 0
                &&& after.title == f.title
                &&& after.body == f.body
                &&& after.draft == f.draft
                &&& after.draft_lane.durable_form == Some(f)
                &&& after.draft_lane.durable_generation == Some(record@.generation)
            }
        }),
{
}

/// A save that failed loses nothing of the form, and nothing that waited for it goes on.
pub proof fn law_a_failed_save_stops_what_waits(d: DialogView, error: String)
    ensures
        ({
            let after = dialog::save_settled(d, Err(error));
            &&& after.draft_lane.in_flight is None
            &&& after.draft_lane.pending == d.draft_lane.pending
            &&& after.draft_lane.durable_form == d.draft_lane.durable_form
            &&& !after.close_after_save
            &&& after.prepare_queued is None
            &&& !after.form_disabled
            &&& after.notice == Some(
                "Creation draft could not be made durable; close/prepare was refused: "@ + error@,
            )
            &&& after.title == d.title
            &&& after.body == d.body
            &&& after.effects == d.effects
        }),
{
}

/// Once everything is stored, closing goes on before preparing; a preparation that waited goes on
/// only if it is of the form that is shown and stored.
pub proof fn law_what_waited_goes_on(d: DialogView)
    requires
        dialog::shown_form(d) is Ok,
        form::is_drained(d.draft_lane, dialog::shown_form(d)->Ok_0),
    ensures
        ({
            let shown = dialog::shown_form(d)->Ok_0;
            let after = dialog::lane_drained(d);
            &&& d.close_after_save ==> after.closed && !after.close_after_save
            &&& !d.close_after_save && d.prepare_queued is None ==> after == d
            &&& !d.close_after_save && d.prepare_queued == Some(
                DraftSnapshotView { edit_generation: d.edit_generation, form: shown },
            ) ==> {
                &&& after.state is Preparing
                &&& after.prepare_queued is None
                &&& after.effects == d.effects.push(
                    DialogEffectView::Prepare {
                        lifetime: d.lifetime_id,
                        generation: after.operation_generation,
                        edit_generation: d.edit_generation,
                        form: shown,
                    },
                )
            }
            &&& !d.close_after_save && d.prepare_queued is Some && (
            d.prepare_queued->0.edit_generation != d.edit_generation || d.prepare_queued->0.form
                != shown) ==> after.prepare_queued is None && !after.form_disabled
                && after.effects == d.effects && after.state == d.state
        }),
{
}

/// A reply counts exactly if it is for this dialog and for the latest request of its kind.
pub proof fn law_replies_are_for_the_latest_request(
    lifetime: Seq<char>,
    other: Seq<char>,
    generation: u64,
    earlier: u64,
)
    ensures
        dialog::reply_is_current(lifetime, lifetime, generation, generation),
        lifetime != other ==> !dialog::reply_is_current(lifetime, other, generation, generation),
        generation != earlier ==> !dialog::reply_is_current(
            lifetime,
            lifetime,
            generation,
            earlier,
        ),
{
}

/// Numbers count on by one and stay at the last one.
pub proof fn law_numbers_count_on(n: u64)
    ensures
        n < u64::MAX ==> dialog::bump(n) == n + 1,
        dialog::bump(u64::MAX) == u64::MAX,
{
}

/// Closing that waited is given up, with the reason and an open form, where the form that is shown
/// then cannot be stored; where it is another one than was stored, that one is stored first.
pub proof fn law_closing_waits_for_the_form_that_is_shown(d: DialogView)
    requires
        d.close_after_save,
    ensures
        ({
            let after = dialog::lane_drained(d);
            let shown = dialog::shown_form(d);
            &&& shown matches Err(e) ==> {
                &&& !after.close_after_save
                &&& !after.form_disabled
                &&& after.closed == d.closed
                &&& after.effects == d.effects
                &&& after.notice == Some(
                    "Close refused because the latest form cannot be saved: "@ + e,
                )
            }
            &&& shown matches Ok(f) ==> !form::is_drained(d.draft_lane, f) ==> after.closed
                == d.closed
            &&& shown matches Ok(f) ==> d.store is Some && d.draft_lane.in_flight is None
                && d.draft_lane.durable_form != Some(f) ==> {
                &&& after.close_after_save
                &&& after.effects.len() == d.effects.len() + 1
                &&& after.effects.last() matches DialogEffectView::Save { form, .. } && form == f
            }
        }),
{
}

} // verus!

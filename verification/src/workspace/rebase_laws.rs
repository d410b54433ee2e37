//! What the rebase panel is for: which command each request comes to, what a confirmation runs,
//! and what is shown of a plan, of a result and of an observation.

use vstd::prelude::*;

use crate::text;
use crate::workspace::command;
use crate::workspace::command::{
    ConflictReadView, RebaseCommandView, RebaseEffectResult, StoreCallView, StoreReplyView,
};
use crate::workspace::conflict;
use crate::workspace::conflict::{ConflictContextState, ConflictPresentationView, ConflictSource};
use crate::workspace::conflict_laws;
use crate::workspace::git;
use crate::workspace::git::{
    CommitEntryView, ConflictFile, ConflictFileView, LocalSnapshot, PlanActionView, PrepareOutcome,
    PrepareOutcomeView, RebaseOperationView, RebaseOperationViewView, RebasePlan,
};
use crate::workspace::lifecycle;
use crate::workspace::lifecycle::{
    DispatchTicket, FrozenIntentView, FrozenRebaseIntentView, ObservationTicket, PhaseView,
};
use crate::workspace::rebase;
use crate::workspace::rebase::{
    BaseStepView, LocalWorkspaceView, RenderBatches, WorkspaceEffectView,
};

verus! {

/// The request that waits for a confirmation.
pub open spec fn waiting(w: LocalWorkspaceView) -> Option<FrozenRebaseIntentView> {
    match w.operations.phase {
        PhaseView::AwaitingConfirmation(FrozenIntentView::Rebase(intent)) => Some(intent),
        _ => None,
    }
}

/// Whether nothing is pending, running or unsettled, and the panel and the lifecycle know the
/// same state of a checkout.
pub open spec fn at_rest(w: LocalWorkspaceView) -> bool {
    &&& w.ready
    &&& w.operations.phase is Idle
    &&& !w.operations.observations_in_flight.pr_publish
    &&& w.operations.checkout_epoch is Some
    &&& w.snapshot is Some
    &&& w.operations.snapshot is Some
    &&& w.operations.snapshot->0.guard == w.snapshot->0.guard
}

/// Whether a rebase is under way whose identity is known.
pub open spec fn under_way(w: LocalWorkspaceView) -> bool {
    w.rebase.operation is Some && w.rebase.operation->0.active is Some
}

/// A request leaves one question, with the number and the summary of what waits; the inputs, the
/// plan and what is shown of the operation stay.
pub open spec fn asks_to_confirm(w: LocalWorkspaceView, asked: LocalWorkspaceView) -> bool {
    &&& waiting(asked) is Some
    &&& waiting(asked)->0.id == w.operations.next_request_id
    &&& waiting(asked)->0.checkout_epoch == w.operations.checkout_epoch->0
    &&& asked.effects == w.effects.push(
        WorkspaceEffectView::RequestConfirmation {
            request_id: w.operations.next_request_id,
            summary: command::command_summary_of(waiting(asked)->0.command),
        },
    )
    &&& asked.rebase.editors_disabled
    &&& asked.rebase.status == "Confirmation required: "@ + command::command_summary_of(
        waiting(asked)->0.command,
    )
    &&& asked.rebase.message == w.rebase.message
    &&& asked.rebase.base == w.rebase.base
    &&& asked.rebase.steps == w.rebase.steps
    &&& asked.rebase.operation == w.rebase.operation
    &&& asked.rebase.preparation == w.rebase.preparation
    &&& asked.snapshot == w.snapshot
}

/// A request that is refused asks for nothing but that the refusal is shown, or does nothing.
pub open spec fn refuses(w: LocalWorkspaceView, asked: LocalWorkspaceView) -> bool {
    &&& asked.operations == w.operations
    &&& asked.rebase == w.rebase
    &&& asked.snapshot == w.snapshot
    &&& asked == w || (asked.effects.len() == w.effects.len() + 1 && asked.effects.last()
        is ReportError)
}

/// Amending takes over what stands in the message editor, exactly as it stands there; the message
/// is kept only where the editor holds nothing but white space.
pub proof fn law_amending_takes_the_displayed_message(w: LocalWorkspaceView)
    ensures
        ({
            let asked = rebase::amend_requested(w);
            &&& at_rest(w) && under_way(w) ==> asks_to_confirm(w, asked)
            &&& waiting(asked) is Some && waiting(w) is None ==> (match waiting(asked)->0.command {
                RebaseCommandView::Amend { operation_id, active, guard, message } => {
                    &&& message is Some <==> exists|i: int|
                        0 <= i < w.rebase.message.len() && !text::is_space(
                            #[trigger] w.rebase.message[i],
                        )
                    &&& message is Some ==> message->0 == w.rebase.message
                    &&& Some(operation_id) == rebase::operation_id_of(w.rebase.operation)
                    &&& Some(active) == w.rebase.operation->0.active
                    &&& guard == w.snapshot->0.guard
                },
                _ => false,
            })
            &&& waiting(asked) is None ==> refuses(w, asked)
        }),
{
    text::law_trimmed_is_empty_iff_blank(w.rebase.message);
}

/// Amending from end to end: what a request for the displayed message comes to, once it is
/// confirmed by its number, is one run of exactly that amendment.
pub proof fn law_a_confirmed_amendment_is_run(w: LocalWorkspaceView)
    requires
        at_rest(w),
        under_way(w),
    ensures
        ({
            let asked = rebase::amend_requested(w);
            let done = rebase::action_confirmed(asked, w.operations.next_request_id);
            &&& done.effects.len() == w.effects.len() + 2
            &&& (match done.effects.last() {
                WorkspaceEffectView::RunRebase { command, .. } => {
                    &&& command is Amend
                    &&& !text::blank(w.rebase.message) ==> command->Amend_message == Some(
                        w.rebase.message,
                    )
                    &&& text::blank(w.rebase.message) ==> command->Amend_message is None
                    &&& command->Amend_operation_id == w.rebase.operation->0.operation_id
                },
                _ => false,
            })
        }),
{
    text::law_trimmed_is_empty_iff_blank(w.rebase.message);
}

/// A part of a split is committed with the text of the message editor, whatever it is.
pub proof fn law_a_split_part_takes_the_displayed_message(w: LocalWorkspaceView)
    ensures
        ({
            let asked = rebase::split_part_requested(w);
            &&& at_rest(w) && under_way(w) ==> asks_to_confirm(w, asked)
            &&& waiting(asked) is Some && waiting(w) is None ==> (match waiting(asked)->0.command {
                RebaseCommandView::CommitSplitPart { operation_id, active, guard, message } => {
                    &&& message == w.rebase.message
                    &&& operation_id == w.rebase.operation->0.operation_id
                    &&& Some(active) == w.rebase.operation->0.active
                    &&& guard == w.snapshot->0.guard
                },
                _ => false,
            })
            &&& waiting(asked) is None ==> refuses(w, asked)
        }),
{
}

/// Continuing, skipping, aborting and splitting each ask for themselves, of the operation that is
/// shown, in the state of the checkout that is shown. At rest they are admitted.
pub proof fn law_steps_of_a_rebase_ask_for_themselves(w: LocalWorkspaceView)
    ensures
        at_rest(w) && under_way(w) ==> {
            &&& asks_to_confirm(w, rebase::continue_requested(w))
            &&& asks_to_confirm(w, rebase::skip_requested(w))
            &&& asks_to_confirm(w, rebase::abort_requested(w))
            &&& asks_to_confirm(w, rebase::split_begun_requested(w))
            &&& asks_to_confirm(w, rebase::split_finished_requested(w))
        },
        waiting(w) is None ==> {
            let shown = w.rebase.operation->0;
            let guard = w.snapshot->0.guard;
            &&& waiting(rebase::continue_requested(w)) matches Some(i) ==> (
            i.command matches RebaseCommandView::Continue { operation_id, active, guard: g }
                && operation_id == shown.operation_id && Some(active) == shown.active && g == guard)
            &&& waiting(rebase::skip_requested(w)) matches Some(i) ==> (
            i.command matches RebaseCommandView::Skip { operation_id, active, guard: g }
                && operation_id == shown.operation_id && Some(active) == shown.active && g == guard)
            &&& waiting(rebase::abort_requested(w)) matches Some(i) ==> (
            i.command matches RebaseCommandView::Abort { operation_id, active, guard: g }
                && operation_id == shown.operation_id && Some(active) == shown.active && g == guard)
            &&& waiting(rebase::split_begun_requested(w)) matches Some(i) ==> (
            i.command matches RebaseCommandView::BeginSplit { operation_id, active, guard: g }
                && operation_id == shown.operation_id && Some(active) == shown.active && g == guard)
            &&& waiting(rebase::split_finished_requested(w)) matches Some(i) ==> (
            i.command matches RebaseCommandView::FinishSplit { operation_id, active, guard: g }
                && operation_id == shown.operation_id && Some(active) == shown.active && g == guard)
        },
        waiting(rebase::continue_requested(w)) is None ==> refuses(w, rebase::continue_requested(w)),
        waiting(rebase::skip_requested(w)) is None ==> refuses(w, rebase::skip_requested(w)),
        waiting(rebase::abort_requested(w)) is None ==> refuses(w, rebase::abort_requested(w)),
        waiting(rebase::split_begun_requested(w)) is None ==> refuses(
            w,
            rebase::split_begun_requested(w),
        ),
        waiting(rebase::split_finished_requested(w)) is None ==> refuses(
            w,
            rebase::split_finished_requested(w),
        ),
{
}

/// Making a stash, restoring it, finishing its restoration and archiving an operation each ask
/// for themselves, of what is shown. At rest they are admitted.
pub proof fn law_stashes_and_archives_ask_for_themselves(w: LocalWorkspaceView)
    ensures
        at_rest(w) && w.rebase.operation is Some ==> {
            &&& asks_to_confirm(w, rebase::stash_restore_requested(w))
            &&& asks_to_confirm(w, rebase::stash_restore_finish_requested(w))
            &&& asks_to_confirm(w, rebase::retire_requested(w))
        },
        at_rest(w) && (w.rebase.preparation matches Some(PrepareOutcomeView::Dirty(d)) && d.guard
            == w.snapshot->0.guard) ==> asks_to_confirm(w, rebase::stash_creation_requested(w)),
        waiting(w) is None ==> {
            &&& waiting(rebase::stash_restore_requested(w)) matches Some(i) ==> (
            i.command matches RebaseCommandView::RestoreStash { operation_id, guard }
                && operation_id == w.rebase.operation->0.operation_id && guard
                == w.snapshot->0.guard)
            &&& waiting(rebase::stash_restore_finish_requested(w)) matches Some(i) ==> (
            i.command matches RebaseCommandView::FinishStashRestore { operation_id, guard }
                && operation_id == w.rebase.operation->0.operation_id && guard
                == w.snapshot->0.guard)
            &&& waiting(rebase::retire_requested(w)) matches Some(i) ==> (
            i.command matches RebaseCommandView::Retire { operation_id } && operation_id
                == w.rebase.operation->0.operation_id)
            &&& waiting(rebase::stash_creation_requested(w)) matches Some(i) ==> (
            i.command matches RebaseCommandView::CreateStash(dirty) && w.rebase.preparation
                == Some(PrepareOutcomeView::Dirty(dirty)))
        },
        waiting(rebase::stash_restore_requested(w)) is None ==> refuses(
            w,
            rebase::stash_restore_requested(w),
        ),
        waiting(rebase::stash_restore_finish_requested(w)) is None ==> refuses(
            w,
            rebase::stash_restore_finish_requested(w),
        ),
        waiting(rebase::retire_requested(w)) is None ==> refuses(w, rebase::retire_requested(w)),
        waiting(rebase::stash_creation_requested(w)) is None ==> refuses(
            w,
            rebase::stash_creation_requested(w),
        ),
{
}

/// A conflict is staged as it was read: the exact file, for the rebase under way, or for its
/// stash while that is being restored.
pub proof fn law_the_conflict_that_is_shown_is_staged(w: LocalWorkspaceView, index: int)
    requires
        0 <= index,
    ensures
        ({
            let asked = rebase::staging_requested(w, index);
            &&& at_rest(w) && w.rebase.operation is Some && index < w.rebase.conflicts.len()
                ==> asks_to_confirm(w, asked)
            &&& waiting(asked) is Some && waiting(w) is None ==> (match waiting(asked)->0.command {
                RebaseCommandView::StageConflict {
                    operation_id,
                    active,
                    expected,
                    guard,
                    stash_restore,
                } => {
                    let shown = w.rebase.operation->0;
                    &&& index < w.rebase.conflicts.len()
                    &&& expected == w.rebase.conflicts[index]
                    &&& operation_id == shown.operation_id
                    &&& guard == w.snapshot->0.guard
                    &&& stash_restore <==> shown.stash_restore is Conflicted
                    &&& !stash_restore ==> active == shown.active
                },
                _ => false,
            })
            &&& waiting(asked) is None ==> refuses(w, asked)
        }),
{
}

/// From its presentation, a conflict is staged only while it is current, and then it is exactly
/// the file that is presented.
pub proof fn law_the_presented_conflict_is_staged(w: LocalWorkspaceView)
    ensures
        ({
            let asked = rebase::presented_staging_requested(w);
            waiting(asked) is Some && waiting(w) is None ==> {
                &&& w.rebase.conflict_view matches Some(v) && v.state is Current
                    && waiting(asked)->0.command is StageConflict
                    && waiting(asked)->0.command->expected == v.conflict
            }
        }),
        at_rest(w) && w.rebase.operation is Some && (w.rebase.conflict_view matches Some(v)
            && v.state is Current && w.rebase.conflicts.contains(v.conflict)) ==> waiting(
            rebase::presented_staging_requested(w),
        ) is Some,
{
    if let Some(v) = w.rebase.conflict_view {
        lemma_position_holds(w.rebase.conflicts, v.conflict);
        if let Some(i) = rebase::conflict_position(w.rebase.conflicts, v.conflict) {
            law_the_conflict_that_is_shown_is_staged(w, i);
        }
    }
}

proof fn lemma_position_holds(conflicts: Seq<ConflictFileView>, file: ConflictFileView)
    ensures
        rebase::conflict_position(conflicts, file) matches Some(i) ==> 0 <= i < conflicts.len()
            && conflicts[i] == file,
        conflicts.contains(file) ==> rebase::conflict_position(conflicts, file) is Some,
    decreases conflicts.len(),
{
    if conflicts.len() > 0 && conflicts[0] != file {
        lemma_position_holds(conflicts.drop_first(), file);
        if conflicts.contains(file) {
            let i = choose|i: int| 0 <= i < conflicts.len() && conflicts[i] == file;
            assert(conflicts.drop_first()[i - 1] == file);
        }
    }
}

/// A rebase is started with the plan that was found valid, which is the plan that is displayed,
/// on the preparation that is displayed. A plan that is not the displayed one, or a reworded
/// message that was not applied, starts nothing.
pub proof fn law_the_displayed_plan_is_started(w: LocalWorkspaceView, plan: RebasePlan)
    ensures
        ({
            let asked = rebase::plan_settled(w, Ok(plan), true);
            &&& waiting(asked) is Some && waiting(w) is None ==> (match waiting(asked)->0.command {
                RebaseCommandView::Start { preparation, plan: started } => {
                    &&& started == plan@
                    &&& started.steps == w.rebase.steps
                    &&& w.rebase.preparation == Some(PrepareOutcomeView::Ready(preparation))
                    &&& preparation.guard == w.snapshot->0.guard
                },
                _ => false,
            })
            &&& at_rest(w) && (w.rebase.preparation matches Some(PrepareOutcomeView::Ready(p))
                && p.guard == w.snapshot->0.guard) && plan@.steps == w.rebase.steps
                && w.rebase.selected_step is None ==> waiting(asked) is Some
            &&& plan@.steps != w.rebase.steps ==> asked.operations == w.operations
        }),
        rebase::plan_settled(w, Ok(plan), false).operations == w.operations,
        rebase::plan_settled(w, Ok(plan), false).effects == w.effects,
{
}

/// A plan that is not valid starts nothing and says why; the steps stay for correction.
pub proof fn law_an_invalid_plan_starts_nothing(w: LocalWorkspaceView, error: String, start: bool)
    ensures
        ({
            let after = rebase::plan_settled(w, Err(error), start);
            &&& after.operations == w.operations
            &&& after.effects == w.effects
            &&& after.rebase.steps == w.rebase.steps
            &&& after.rebase.preparation == w.rebase.preparation
            &&& after.rebase.status == "Plan invalid: "@ + error@
        }),
{
}

/// Asking to start has the displayed plan validated against the displayed inventory, and nothing
/// else.
pub proof fn law_starting_validates_the_displayed_plan(w: LocalWorkspaceView)
    requires
        w.operations.phase is Idle,
    ensures
        w.rebase.preparation matches Some(PrepareOutcomeView::Ready(p)) ==> rebase::start_requested(
            w,
        ) == (LocalWorkspaceView {
            effects: w.effects.push(
                WorkspaceEffectView::ValidatePlan {
                    inventory: p.inventory,
                    steps: w.rebase.steps,
                    start: true,
                },
            ),
            ..w
        }),
        !(w.rebase.preparation matches Some(PrepareOutcomeView::Ready(_))) ==> refuses(
            w,
            rebase::start_requested(w),
        ),
{
}

/// Every command is carried out by the call of its own kind with everything that was confirmed.
pub proof fn law_each_command_is_its_own_call(command: RebaseCommandView)
    ensures
        (match (command, command::store_call_of(command)) {
            (RebaseCommandView::CreateStash(d), Ok(StoreCallView::CreateStash(c))) => c == d,
            (
                RebaseCommandView::Start { preparation, plan },
                Ok(StoreCallView::Start { preparation: p, plan: q }),
            ) => p == preparation && q == plan,
            (
                RebaseCommandView::Continue { operation_id, active, guard },
                Ok(StoreCallView::Continue { operation_id: o, active: a, guard: g }),
            ) => o == operation_id && a == active && g == guard,
            (
                RebaseCommandView::Skip { operation_id, active, guard },
                Ok(StoreCallView::Skip { operation_id: o, active: a, guard: g }),
            ) => o == operation_id && a == active && g == guard,
            (
                RebaseCommandView::Abort { operation_id, active, guard },
                Ok(StoreCallView::Abort { operation_id: o, active: a, guard: g }),
            ) => o == operation_id && a == active && g == guard,
            (
                RebaseCommandView::Amend { operation_id, active, guard, message },
                Ok(StoreCallView::Amend { operation_id: o, active: a, guard: g, message: m }),
            ) => o == operation_id && a == active && g == guard && m == message,
            (
                RebaseCommandView::BeginSplit { operation_id, active, guard },
                Ok(StoreCallView::BeginSplit { operation_id: o, active: a, guard: g }),
            ) => o == operation_id && a == active && g == guard,
            (
                RebaseCommandView::CommitSplitPart { operation_id, active, guard, message },
                Ok(
                    StoreCallView::CommitSplitPart {
                        operation_id: o,
                        active: a,
                        guard: g,
                        message: m,
                    },
                ),
            ) => o == operation_id && a == active && g == guard && m == message,
            (
                RebaseCommandView::FinishSplit { operation_id, active, guard },
                Ok(StoreCallView::FinishSplit { operation_id: o, active: a, guard: g }),
            ) => o == operation_id && a == active && g == guard,
            (
                RebaseCommandView::StageConflict { operation_id, expected, guard, stash_restore, .. },
                Ok(StoreCallView::StageStashResolution { operation_id: o, expected: e, guard: g }),
            ) => stash_restore && o == operation_id && e == expected && g == guard,
            (
                RebaseCommandView::StageConflict {
                    operation_id,
                    active,
                    expected,
                    guard,
                    stash_restore,
                },
                Ok(
                    StoreCallView::StageResolution {
                        operation_id: o,
                        active: a,
                        expected: e,
                        guard: g,
                    },
                ),
            ) => !stash_restore && o == operation_id && active == Some(a) && e == expected && g
                == guard,
            (
                RebaseCommandView::RestoreStash { operation_id, guard },
                Ok(StoreCallView::RestoreStash { operation_id: o, guard: g }),
            ) => o == operation_id && g == guard,
            (
                RebaseCommandView::FinishStashRestore { operation_id, guard },
                Ok(StoreCallView::FinishStashRestore { operation_id: o, guard: g }),
            ) => o == operation_id && g == guard,
            (
                RebaseCommandView::Retire { operation_id },
                Ok(StoreCallView::Retire { operation_id: o }),
            ) => o == operation_id,
            (
                RebaseCommandView::StageConflict { active, stash_restore, .. },
                Err(_),
            ) => !stash_restore && active is None,
            _ => false,
        }),
{
}

/// A command is for the state of the checkout that it carries.
pub proof fn law_commands_keep_to_their_state(command: RebaseCommandView)
    ensures
        ({
            let guard = command::command_guard_of(command);
            match command {
                RebaseCommandView::CreateStash(d) => guard == Some(d.guard),
                RebaseCommandView::Start { preparation, .. } => guard == Some(preparation.guard),
                RebaseCommandView::Continue { guard: g, .. } => guard == Some(g),
                RebaseCommandView::Skip { guard: g, .. } => guard == Some(g),
                RebaseCommandView::Abort { guard: g, .. } => guard == Some(g),
                RebaseCommandView::Amend { guard: g, .. } => guard == Some(g),
                RebaseCommandView::BeginSplit { guard: g, .. } => guard == Some(g),
                RebaseCommandView::CommitSplitPart { guard: g, .. } => guard == Some(g),
                RebaseCommandView::FinishSplit { guard: g, .. } => guard == Some(g),
                RebaseCommandView::StageConflict { guard: g, .. } => guard == Some(g),
                RebaseCommandView::RestoreStash { guard: g, .. } => guard == Some(g),
                RebaseCommandView::FinishStashRestore { guard: g, .. } => guard == Some(g),
                RebaseCommandView::Retire { .. } => guard is None,
            }
        }),
{
}

/// The conflicts of a stash are read while it is being restored, else those of a rebase that is
/// stopped at some; of anything else none are read.
pub proof fn law_the_conflicts_at_hand_are_read(o: RebaseOperationViewView)
    ensures
        (match command::conflict_read_of(Some(o)) {
            ConflictReadView::OfStash { operation_id } => o.stash_restore is Conflicted
                && operation_id == o.operation_id,
            ConflictReadView::OfRebase { active } => !(o.stash_restore is Conflicted)
                && o.state is Conflicted && o.active == Some(active),
            ConflictReadView::Nothing => !(o.stash_restore is Conflicted) && !(o.state is Conflicted
                && o.active is Some),
        }),
        command::conflict_read_of(None) is Nothing,
{
}

/// A reply of the store is taken over as it is: a preparation, an operation with its conflicts,
/// or that the operation is archived.
pub proof fn law_replies_are_taken_over(reply: StoreReplyView, conflicts: Seq<ConflictFileView>)
    ensures
        ({
            let effect = command::effect_of(reply, conflicts);
            &&& effect.conflicts == conflicts
            &&& effect.retired <==> reply is Retired
            &&& effect.operation is Some <==> reply is Observed
            &&& effect.preparation is Some <==> reply is Prepared
            &&& reply matches StoreReplyView::Observed(o) ==> effect.operation == Some(o)
            &&& reply matches StoreReplyView::Prepared(p) ==> effect.preparation == Some(p)
        }),
{
}

/// A preparation offers each commit once, in its order, to be picked as it is, and selects the
/// first; an external workflow offers none. A failure keeps what was shown and says why.
pub proof fn law_a_preparation_offers_its_commits(
    w: LocalWorkspaceView,
    ticket: ObservationTicket,
    oid: String,
    outcome: PrepareOutcome,
    error: String,
)
    requires
        lifecycle::is_current(w.operations, ticket),
    ensures
        ({
            let after = rebase::prepare_settled(w, ticket, Ok((oid, outcome))).rebase;
            &&& after.preparation == Some(outcome@)
            &&& outcome@ matches PrepareOutcomeView::Ready(p) ==> {
                &&& after.steps.len() == p.inventory.commits.len()
                &&& forall|i: int|
                    0 <= i < after.steps.len() ==> (#[trigger] after.steps[i]).commit_oid
                        == p.inventory.commits[i].oid && after.steps[i].action is Pick
            }
            &&& outcome@ matches PrepareOutcomeView::Dirty(p) ==> {
                &&& after.steps.len() == p.inventory.commits.len()
                &&& forall|i: int|
                    0 <= i < after.steps.len() ==> (#[trigger] after.steps[i]).commit_oid
                        == p.inventory.commits[i].oid && after.steps[i].action is Pick
            }
            &&& outcome@ is ExternalWorkflow ==> after.steps.len() == 0
            &&& after.selected_step is None <==> after.steps.len() == 0
            &&& after.selected_step is Some ==> after.selected_step == Some(0usize)
            &&& after.base == w.rebase.base
        }),
        ({
            let after = rebase::prepare_settled(w, ticket, Err(error));
            &&& after.rebase == w.rebase
            &&& after.effects == w.effects.push(
                WorkspaceEffectView::ReportError {
                    message: "Rebase preparation refused: "@ + error@,
                },
            )
        }),
{
}

/// Preparing asks for the base that is entered, without the white space around it, and only where
/// no rebase is shown, nothing is pending and some base is entered.
pub proof fn law_preparing_resolves_the_entered_base(w: LocalWorkspaceView)
    ensures
        ({
            let after = rebase::prepare_begun(w);
            let asked = after.effects.len() == w.effects.len() + 1 && after.effects.last()
                is PrepareRebase;
            &&& asked ==> !text::blank(w.rebase.base) && w.rebase.operation is None && w.ready
                && waiting(w) is None
            &&& at_rest(w) && !text::blank(w.rebase.base) && w.rebase.operation is None ==> asked
            &&& asked ==> (match after.effects.last() {
                WorkspaceEffectView::PrepareRebase { ticket, .. } => {
                    &&& ticket.kind is Rebase
                    &&& lifecycle::is_current(after.operations, ticket)
                },
                _ => false,
            })
            &&& after.rebase.base == w.rebase.base
            &&& after.rebase.steps == w.rebase.steps
            &&& after.rebase.preparation == w.rebase.preparation
        }),
{
    text::law_trimmed_is_empty_iff_blank(w.rebase.base);
}

/// What is done with a step is set for the selected step alone.
pub proof fn law_an_action_is_set_for_the_selected_step(w: LocalWorkspaceView, action: PlanActionView)
    requires
        w.operations.phase is Idle,
        w.rebase.selected_step is Some,
        w.rebase.selected_step->0 < w.rebase.steps.len(),
    ensures
        ({
            let after = rebase::action_set(w, action);
            let at = w.rebase.selected_step->0 as int;
            &&& after.rebase.steps.len() == w.rebase.steps.len()
            &&& after.rebase.steps[at].action == action
            &&& forall|i: int|
                0 <= i < w.rebase.steps.len() ==> (#[trigger] after.rebase.steps[i]).commit_oid
                    == w.rebase.steps[i].commit_oid
            &&& forall|i: int|
                0 <= i < w.rebase.steps.len() && i != at ==> (#[trigger] after.rebase.steps[i])
                    == w.rebase.steps[i]
            &&& after.rebase.selected_step == w.rebase.selected_step
            &&& after.operations == w.operations
        }),
{
}

/// A step that is moved by one changes places with its neighbour and stays selected; at the end
/// of the plan nothing moves.
pub proof fn law_a_step_changes_places_with_its_neighbour(w: LocalWorkspaceView, on: bool)
    requires
        w.operations.phase is Idle,
        w.rebase.selected_step is Some,
        w.rebase.selected_step->0 < w.rebase.steps.len() < usize::MAX,
    ensures
        ({
            let at = w.rebase.selected_step->0 as int;
            let next = if on {
                at + 1
            } else {
                at - 1
            };
            let delta = if on {
                1isize
            } else {
                -1isize
            };
            let after = rebase::step_moved(w, delta).rebase;
            if 0 <= next < w.rebase.steps.len() {
                &&& after.steps.len() == w.rebase.steps.len()
                &&& after.steps[next] == w.rebase.steps[at]
                &&& after.steps[at] == w.rebase.steps[next]
                &&& forall|i: int|
                    0 <= i < w.rebase.steps.len() && i != at && i != next ==> (
                    #[trigger] after.steps[i]) == w.rebase.steps[i]
                &&& after.selected_step == Some(next as usize)
            } else {
                after == w.rebase
            }
        }),
{
}

/// The keys move as they are named: up and left back, down and right on. Any other key, and any
/// key without the platform's modifier, is left to others.
pub proof fn law_keys_move_as_they_are_named(w: LocalWorkspaceView, key: Seq<char>)
    requires
        w.rebase.open,
    ensures
        w.rebase.conflict_view is None ==> {
            &&& rebase::key_handled(w, true, "up"@) == Some(rebase::step_moved(w, -1isize))
            &&& rebase::key_handled(w, true, "down"@) == Some(rebase::step_moved(w, 1isize))
            &&& key != "up"@ && key != "down"@ ==> rebase::key_handled(w, true, key) is None
        },
        w.rebase.conflict_view is Some ==> {
            &&& rebase::key_handled(w, true, "left"@) == Some(rebase::source_moved(w, -1isize))
            &&& rebase::key_handled(w, true, "right"@) == Some(rebase::source_moved(w, 1isize))
            &&& key != "left"@ && key != "right"@ ==> rebase::key_handled(w, true, key) is None
        },
        rebase::key_handled(w, false, key) is None,
{
    reveal_strlit("up");
    reveal_strlit("down");
    reveal_strlit("left");
    reveal_strlit("right");
    assert("up"@.len() != "down"@.len());
    assert("left"@.len() != "right"@.len());
}

/// Selecting a step shows its new message if it is reworded, else the message of its commit.
pub proof fn law_selecting_shows_the_message(w: LocalWorkspaceView, index: usize)
    requires
        w.operations.phase is Idle,
        index < w.rebase.steps.len(),
    ensures
        ({
            let after = rebase::step_selected(w, index);
            let step = w.rebase.steps[index as int];
            &&& after.rebase.selected_step == Some(index)
            &&& after.rebase.steps == w.rebase.steps
            &&& step.action matches PlanActionView::Reword { message } ==> after.rebase.message
                == message
            &&& !(step.action is Reword) && (w.rebase.preparation matches Some(
                PrepareOutcomeView::Ready(p),
            )) ==> {
                let commits = w.rebase.preparation->0->Ready_0.inventory.commits;
                &&& forall|i: int|
                    0 <= i < commits.len() && (forall|k: int|
                        0 <= k < i ==> (#[trigger] commits[k]).oid != step.commit_oid) && (
                    #[trigger] commits[i]).oid == step.commit_oid ==> after.rebase.message
                        == commits[i].message
            }
        }),
{
    let step = w.rebase.steps[index as int];
    if let Some(PrepareOutcomeView::Ready(p)) = w.rebase.preparation {
        let commits = p.inventory.commits;
        assert forall|i: int|
            0 <= i < commits.len() && (forall|k: int|
                0 <= k < i ==> (#[trigger] commits[k]).oid != step.commit_oid) && (
            #[trigger] commits[i]).oid == step.commit_oid implies rebase::commit_message_of(
            commits,
            step.commit_oid,
        ) == Some(commits[i].message) by {
            lemma_first_message(commits, step.commit_oid, i);
        }
    }
}

proof fn lemma_first_message(commits: Seq<git::CommitEntryView>, oid: Seq<char>, i: int)
    requires
        0 <= i < commits.len(),
        forall|k: int| 0 <= k < i ==> (#[trigger] commits[k]).oid != oid,
        commits[i].oid == oid,
    ensures
        rebase::commit_message_of(commits, oid) == Some(commits[i].message),
    decreases commits.len(),
{
    if i > 0 {
        assert(commits[0].oid != oid);
        lemma_first_message(commits.drop_first(), oid, i - 1);
    }
}

/// A change of the base drops what was prepared for the other base; the base that is shown is the
/// one that was entered.
pub proof fn law_another_base_needs_another_preparation(w: LocalWorkspaceView, base: Seq<char>)
    requires
        w.operations.phase is Idle,
    ensures
        rebase::base_set(w, base).rebase.base == base,
        rebase::base_set(w, base).rebase.preparation is None,
        w.rebase.preparation is Some ==> rebase::base_set(w, base).rebase.steps.len() == 0,
        rebase::base_candidate_selected(w, base).rebase.base == base,
        rebase::base_candidate_selected(w, base).rebase.preparation is None,
        rebase::base_candidate_selected(w, base).rebase.steps.len() == 0,
        rebase::preparation_cancelled(w).rebase.preparation is None,
        rebase::preparation_cancelled(w).rebase.steps.len() == 0,
        rebase::preparation_cancelled(w).rebase.selected_step is None,
        rebase::preparation_cancelled(w).rebase.base == w.rebase.base,
        rebase::base_set(w, base).operations == w.operations,
        rebase::preparation_cancelled(w).operations == w.operations,
{
}

/// What came of a transition is shown, the editors are open again, the checkout is read again, and
/// it is idle if its state could be read. A transition that stopped keeps plan and inputs.
pub proof fn law_results_are_shown(
    w: LocalWorkspaceView,
    ticket: DispatchTicket,
    effect: Result<RebaseEffectResult, String>,
    refresh: Result<LocalSnapshot, String>,
)
    requires
        lifecycle::is_running(w.operations, ticket, lifecycle::Lane::Rebase),
    ensures
        ({
            let after = rebase::run_settled(w, ticket, effect, refresh);
            &&& !after.rebase.editors_disabled
            &&& refresh is Ok ==> after.operations.phase is Idle && after.snapshot == Some(
                refresh->Ok_0@,
            )
            &&& refresh is Err ==> after.operations.phase is AwaitingAuthoritativeSnapshot
                && after.snapshot == w.snapshot
            &&& w.ready && w.operations.checkout_epoch is Some ==> after.effects.len()
                == w.effects.len() + 2 && after.effects[w.effects.len() as int] is ObserveRebase
            &&& effect is Ok ==> after.effects.last() is SnapshotChanged
            &&& effect is Err ==> after.effects.last() is EmitError && after.rebase.steps
                == w.rebase.steps && after.rebase.preparation == w.rebase.preparation
                && after.rebase.operation == w.rebase.operation
            &&& effect matches Ok(e) ==> {
                &&& e@.retired ==> after.rebase.operation is None && after.rebase.preparation
                    is None && after.rebase.steps.len() == 0 && after.rebase.conflicts.len() == 0
                &&& !e@.retired && e@.operation is Some ==> after.rebase.operation == e@.operation
                    && after.rebase.conflicts == e@.conflicts
                &&& !e@.retired && e@.operation is None ==> after.rebase.operation
                    == w.rebase.operation && after.rebase.conflicts == w.rebase.conflicts
                &&& !e@.retired && e@.preparation is Some ==> after.rebase.preparation == Some(
                    PrepareOutcomeView::Ready(e@.preparation->0),
                )
                &&& !e@.retired && e@.preparation is None ==> after.rebase.preparation
                    == w.rebase.preparation
                &&& !e@.retired ==> after.rebase.steps == w.rebase.steps
            }
            &&& after.rebase.base == w.rebase.base
            &&& after.rebase.message == w.rebase.message
        }),
{
}

/// An observation shows the operation and the conflicts that were read; a failed one keeps them
/// and says why.
pub proof fn law_observations_are_shown(
    w: LocalWorkspaceView,
    ticket: ObservationTicket,
    operation: Option<RebaseOperationView>,
    conflicts: Vec<ConflictFile>,
    error: String,
)
    requires
        lifecycle::is_current(w.operations, ticket),
    ensures
        ({
            let after = rebase::observe_settled(w, ticket, Ok((operation, conflicts)));
            &&& after.rebase.operation == git::optional_rebase_operation_view(operation)
            &&& after.rebase.conflicts == git::conflict_file_views(conflicts@)
            &&& after.rebase.conflict_view is Some <==> w.rebase.conflict_view is Some
            &&& after.rebase.show_operation_details ==> w.rebase.show_operation_details
            &&& !lifecycle::is_current(after.operations, ticket)
        }),
        ({
            let after = rebase::observe_settled(w, ticket, Err(error));
            &&& after.rebase.operation == w.rebase.operation
            &&& after.rebase.conflicts == w.rebase.conflicts
            &&& after.rebase.status == "Rebase observation failed: "@ + error@
            &&& !lifecycle::is_current(after.operations, ticket)
        }),
        !lifecycle::is_current(rebase::observe_settled(w, ticket, Err(error)).operations, ticket),
{
}

/// The panel opens and closes by turns; it is read anew when it opens, and stays open while a
/// confirmation waits.
pub proof fn law_the_panel_opens_and_closes(w: LocalWorkspaceView)
    ensures
        waiting(w) is None ==> rebase::toggled(w).rebase.open == !w.rebase.open,
        w.rebase.open && waiting(w) is Some ==> rebase::toggled(w).rebase.open,
        !w.rebase.open && at_rest(w) ==> rebase::toggled(w).effects.len() == w.effects.len() + 1
            && rebase::toggled(w).effects.last() is ObserveRebase,
        w.rebase.open ==> rebase::toggled(w).effects == w.effects,
        rebase::toggled(w).rebase.steps == w.rebase.steps,
        rebase::toggled(w).rebase.preparation == w.rebase.preparation,
{
}

/// A confirmation is cancelled by its own number: nothing waits any more, the editors are open, and
/// nothing was run. Another number changes nothing but that it is reported.
pub proof fn law_cancelling_runs_nothing(w: LocalWorkspaceView, request_id: u64)
    ensures
        ({
            let after = rebase::action_cancelled(w, request_id);
            if waiting(w) is Some && waiting(w)->0.id == request_id {
                &&& after.operations.phase is Idle
                &&& !after.rebase.editors_disabled
                &&& after.effects == w.effects
                &&& after.rebase.steps == w.rebase.steps
                &&& after.rebase.message == w.rebase.message
                &&& after.rebase.preparation == w.rebase.preparation
            } else {
                refuses(w, after) && after != w
            }
        }),
{
    assert(rebase::action_cancelled(w, request_id).effects.len() >= w.effects.len());
}

/// Opening a conflict presents the file with that number, for the operation that is shown.
pub proof fn law_opening_presents_the_conflict(w: LocalWorkspaceView, index: usize)
    requires
        w.operations.phase is Idle,
    ensures
        ({
            let after = rebase::conflict_opened(w, index);
            &&& index < w.rebase.conflicts.len() && w.rebase.operation is Some
                && conflict::identity_of(w.rebase.operation->0) is Some ==> {
                &&& after.rebase.conflict_view is Some
                &&& after.rebase.conflict_view->0.conflict == w.rebase.conflicts[index as int]
                &&& after.rebase.conflict_view->0.state is Current
                &&& Some(after.rebase.conflict_view->0.operation) == conflict::identity_of(
                    w.rebase.operation->0,
                )
            }
            &&& index >= w.rebase.conflicts.len() ==> after == w
            &&& after.operations == w.operations
            &&& after.effects == w.effects
            &&& after.rebase.conflicts == w.rebase.conflicts
        }),
        rebase::conflict_closed(w).rebase.conflict_view is None,
        rebase::conflict_closed(w).rebase.conflicts == w.rebase.conflicts,
{
}

/// The side that is asked for is selected, and the details are shown and hidden by turns; nothing
/// else changes. Neither happens while inputs are frozen.
pub proof fn law_the_side_that_is_asked_for_is_selected(
    w: LocalWorkspaceView,
    source: ConflictSource,
    delta: isize,
)
    requires
        w.rebase.conflict_view is Some,
    ensures
        ({
            let v = w.rebase.conflict_view->0;
            let a = rebase::source_selected(w, source);
            let b = rebase::source_moved(w, delta);
            let c = rebase::details_toggled(w);
            &&& !rebase::inputs_frozen(w) ==> {
                &&& a.rebase.conflict_view == Some(
                    ConflictPresentationView { selected: source, ..v },
                )
                &&& b.rebase.conflict_view == Some(
                    ConflictPresentationView {
                        selected: conflict::moved_by(v.selected, delta as int),
                        ..v
                    },
                )
                &&& c.rebase.conflict_view == Some(
                    ConflictPresentationView { show_details: !v.show_details, ..v },
                )
            }
            &&& rebase::inputs_frozen(w) ==> a.rebase.conflict_view == Some(v)
                && b.rebase.conflict_view == Some(v) && c.rebase.conflict_view == Some(v)
            &&& a.operations == w.operations && b.operations == w.operations && c.operations
                == w.operations
            &&& a.effects == w.effects && b.effects == w.effects && c.effects == w.effects
        }),
{
}

/// Refreshing takes over the conflict that is at the path now, in the same operation; where there
/// is none, or the operation is another one, the presentation stays.
pub proof fn law_a_refresh_takes_over_what_is_at_the_path(w: LocalWorkspaceView)
    requires
        w.rebase.conflict_view is Some,
        !rebase::inputs_frozen(w),
    ensures
        ({
            let v = w.rebase.conflict_view->0;
            let after = rebase::sources_refreshed(w);
            let at = conflict::conflict_at(w.rebase.conflicts, v.conflict.path.raw);
            let same = w.rebase.operation is Some && conflict::identity_of(w.rebase.operation->0)
                == Some(v.operation);
            &&& same && at is Some ==> {
                let shown = after.rebase.conflict_view->0;
                &&& after.rebase.conflict_view is Some
                &&& shown.conflict == w.rebase.conflicts[at->0]
                &&& shown.state is Current
                &&& shown.selected == v.selected
            }
            &&& !same || at is None ==> after.rebase.conflict_view == Some(v)
            &&& after.operations == w.operations
            &&& after.effects == w.effects
        }),
{
    let v = w.rebase.conflict_view->0;
    conflict_laws::law_conflicts_are_found_by_path(w.rebase.conflicts, v.conflict.path.raw);
}

/// A base is resolved exactly if it is `HEAD`, a full name of a reference, or forty hexadecimal
/// digits; anything else is refused.
pub proof fn law_bases_are_named_in_full(base: Seq<char>)
    ensures
        ({
            let step = rebase::base_step_of(base);
            let full = base == "HEAD"@ || text::starts_with_text(base, "refs/"@) || (base.len()
                == 40 && forall|i: int|
                0 <= i < 40 ==> {
                    let c = #[trigger] base[i];
                    ('0' <= c && c <= '9') || ('a' <= c && c <= 'f') || ('A' <= c && c <= 'F')
                });
            &&& full ==> step == (BaseStepView::Resolve { base })
            &&& !full ==> step is Refuse
        }),
{
    if base.len() == 40 {
        if forall|i: int|
            0 <= i < 40 ==> {
                let c = #[trigger] base[i];
                ('0' <= c && c <= '9') || ('a' <= c && c <= 'f') || ('A' <= c && c <= 'F')
            } {
            assert forall|i: int| 0 <= i < base.len() implies rebase::is_hex_char(
                #[trigger] base[i],
            ) by {}
        }
        if forall|i: int| 0 <= i < base.len() ==> rebase::is_hex_char(#[trigger] base[i]) {
            assert forall|i: int| 0 <= i < 40 implies {
                let c = #[trigger] base[i];
                ('0' <= c && c <= '9') || ('a' <= c && c <= 'f') || ('A' <= c && c <= 'F')
            } by {
                assert(rebase::is_hex_char(base[i]));
            }
        }
    }
}

/// The message of a commit is that of the first commit with its identifier.
pub proof fn law_messages_are_found_by_commit(commits: Seq<CommitEntryView>, oid: Seq<char>)
    ensures
        match rebase::commit_message_of(commits, oid) {
            Some(message) => exists|i: int|
                0 <= i < commits.len() && (#[trigger] commits[i]).oid == oid && commits[i].message
                    == message && forall|k: int| 0 <= k < i ==> (#[trigger] commits[k]).oid != oid,
            None => forall|k: int| 0 <= k < commits.len() ==> (#[trigger] commits[k]).oid != oid,
        },
    decreases commits.len(),
{
    if commits.len() > 0 {
        let rest = commits.drop_first();
        if commits[0].oid == oid {
            assert(commits[0].message == rebase::commit_message_of(commits, oid)->0);
        } else {
            law_messages_are_found_by_commit(rest, oid);
            match rebase::commit_message_of(rest, oid) {
                Some(message) => {
                    let i = choose|i: int|
                        0 <= i < rest.len() && (#[trigger] rest[i]).oid == oid && rest[i].message
                            == message && forall|k: int|
                            0 <= k < i ==> (#[trigger] rest[k]).oid != oid;
                    assert(commits[i + 1] == rest[i]);
                    assert forall|k: int| 0 <= k < i + 1 implies (#[trigger] commits[k]).oid
                        != oid by {
                        if k > 0 {
                            assert(rest[k - 1] == commits[k]);
                        }
                    }
                },
                None => {
                    assert forall|k: int| 0 <= k < commits.len() implies (
                    #[trigger] commits[k]).oid != oid by {
                        if k > 0 {
                            assert(rest[k - 1] == commits[k]);
                        }
                    }
                },
            }
        }
    }
}

/// What came of a transition is said: its own message, or its error, and that the checkout could
/// not be read where it could not.
pub proof fn law_what_came_of_it_is_said(message: Seq<char>, error: Seq<char>)
    ensures
        rebase::effect_status(message, None) == message,
        rebase::effect_status(message, Some(error)) == message
            + " Authoritative worktree refresh failed: "@ + error,
        rebase::stopped_status(message, None) == "Rebase transition stopped: "@ + message + "."@
            + " It will not be replayed automatically; observe actual Git state."@,
        rebase::stopped_status(message, Some(error)) == "Rebase transition stopped: "@ + message
            + "."@ + (" Worktree refresh also failed: "@ + error + "."@)
            + " It will not be replayed automatically; observe actual Git state."@,
{
    let head = "Rebase transition stopped: "@ + message + "."@;
    assert(head + Seq::<char>::empty() =~= head);
}

/// The state of a presentation is named as it is.
pub proof fn law_the_state_of_a_presentation_is_named(w: LocalWorkspaceView)
    ensures
        ({
            let said = rebase::context_status_of(w);
            &&& said is Some <==> w.rebase.conflict_view is Some
            &&& w.rebase.conflict_view matches Some(v) ==> match v.state {
                ConflictContextState::Current => said == Some("current"@),
                ConflictContextState::StagesChanged => said == Some("stages-changed"@),
                ConflictContextState::ConflictResolved => said == Some("resolved-by-git"@),
                ConflictContextState::OperationChanged => said == Some("operation-changed"@),
                ConflictContextState::OperationUnavailable => said == Some(
                    "operation-unavailable"@,
                ),
            }
        }),
{
}

/// Of each side the largest batch that was drawn is kept, apart from the other sides.
pub proof fn law_the_largest_batch_is_kept(
    b: RenderBatches,
    source: ConflictSource,
    other: ConflictSource,
    n: usize,
)
    ensures
        ({
            let after = rebase::with_batch(b, source, n);
            let had = rebase::batch_of(b, source);
            &&& n > had ==> rebase::batch_of(after, source) == n
            &&& n <= had ==> rebase::batch_of(after, source) == had
            &&& other != source ==> rebase::batch_of(after, other) == rebase::batch_of(b, other)
        }),
{
}

/// A panel that is new is closed and empty, with open editors.
pub proof fn law_a_new_panel_is_closed()
    ensures
        ({
            let p = rebase::fresh_panel();
            &&& !p.open
            &&& !p.editors_disabled
            &&& !p.show_operation_details
            &&& p.base.len() == 0
            &&& p.message.len() == 0
            &&& p.operation is None
            &&& p.preparation is None
            &&& p.steps.len() == 0
            &&& p.selected_step is None
            &&& p.conflicts.len() == 0
            &&& p.conflict_view is None
        }),
{
}

/// An observation of the same operation keeps its details shown; one of another hides them. A
/// presentation is held against what was observed.
pub proof fn law_details_are_of_the_operation(
    w: LocalWorkspaceView,
    ticket: ObservationTicket,
    operation: Option<RebaseOperationView>,
    conflicts: Vec<ConflictFile>,
)
    requires
        lifecycle::is_current(w.operations, ticket),
    ensures
        ({
            let after = rebase::observe_settled(w, ticket, Ok((operation, conflicts)));
            let before = w.rebase.operation;
            let now = git::optional_rebase_operation_view(operation);
            let same = before is None && now is None || before is Some && now is Some
                && before->0.operation_id == now->0.operation_id;
            &&& after.rebase.show_operation_details <==> w.rebase.show_operation_details && same
            &&& w.rebase.conflict_view matches Some(v) ==> after.rebase.conflict_view == Some(
                ConflictPresentationView {
                    state: conflict::observed_state(
                        v,
                        now,
                        git::conflict_file_views(conflicts@),
                    ),
                    ..v
                },
            )
        }),
{
}

/// The rebase under way is observed exactly where the checkout is there and ready and no command
/// runs: one read of this kind is asked for, and nothing that is shown changes.
pub proof fn law_the_rebase_is_observed(w: LocalWorkspaceView)
    ensures
        ({
            let after = rebase::observe_begun(w);
            let runs = w.operations.phase matches PhaseView::Running(r) && r.ticket.lane is Rebase;
            let may = w.ready && !runs && w.operations.checkout_epoch is Some;
            &&& !may ==> after == w
            &&& may ==> {
                &&& after.rebase == w.rebase
                &&& after.snapshot == w.snapshot
                &&& after.operations.phase == w.operations.phase
                &&& after.effects.len() == w.effects.len() + 1
                &&& after.effects.last() matches WorkspaceEffectView::ObserveRebase { ticket }
                    && ticket.kind is Rebase && lifecycle::is_current(after.operations, ticket)
            }
        }),
{
}

/// What was done is said: where a base, a preparation, a plan, a confirmation or a presentation
/// changed, the status says which.
pub proof fn law_what_was_done_is_said(
    w: LocalWorkspaceView,
    base: Seq<char>,
    index: usize,
    error: String,
)
    requires
        !rebase::inputs_frozen(w),
    ensures
        w.rebase.preparation is Some ==> rebase::base_set(w, base).rebase.status
            == "Base input changed; prepare a new immutable inventory before Start"@,
        w.rebase.preparation is None ==> rebase::base_set(w, base).rebase.status
            == w.rebase.status,
        rebase::base_candidate_selected(w, base).rebase.status
            == "Immutable base candidate selected; Prepare performs the bounded inventory read"@,
        rebase::preparation_cancelled(w).rebase.status
            == "Preparation cancelled; Git was not changed"@,
        rebase::plan_settled(w, Err(error), false).rebase.status == "Plan invalid: "@ + error@,
        index < w.rebase.conflicts.len() && w.rebase.operation is Some ==> {
            let opened = rebase::conflict_opened(w, index);
            let file = w.rebase.conflicts[index as int];
            &&& conflict::presented(w.rebase.operation->0, file) is Some ==> opened.rebase.status
                == "Showing immutable sources for "@ + file.path.display
                + ". Resolve the result in your own editor, refresh, then stage explicitly"@
            &&& conflict::presented(w.rebase.operation->0, file) is None ==> opened.rebase.status
                == "Conflict sources are unavailable because the exact operation identity is missing"@
                && opened.rebase.conflict_view == w.rebase.conflict_view
        },
        rebase::conflict_closed(w).rebase.status
            == "Closed the source presentation; the file on disk was not changed"@,
        rebase::conflict_closed(w).rebase.conflict_view is None,
        w.rebase.conflict_view is Some ==> {
            let v = w.rebase.conflict_view->0;
            let after = rebase::sources_refreshed(w);
            let found = conflict::conflict_at(w.rebase.conflicts, v.conflict.path.raw);
            &&& w.rebase.operation is None ==> after.rebase.status
                == "The original operation is no longer available; source context was not changed"@
            &&& w.rebase.operation is Some && found is None ==> after.rebase.status
                == "Git no longer reports this path as unmerged; source context was not changed"@
            &&& w.rebase.operation is Some && found is Some ==> {
                &&& conflict::identity_of(w.rebase.operation->0) == Some(v.operation)
                    ==> after.rebase.status
                    == "Refreshed immutable source stages; the file on disk was not changed"@
                &&& conflict::identity_of(w.rebase.operation->0) != Some(v.operation)
                    ==> after.rebase.status
                    == "The operation identity changed; this presentation cannot attach to the new operation"@
            }
        },
{
    if let Some(v) = w.rebase.conflict_view {
        conflict_laws::law_conflicts_are_found_by_path(w.rebase.conflicts, v.conflict.path.raw);
    }
}

/// Going over to the local changes closes the panel and says why, and changes nothing else.
pub proof fn law_the_panel_gives_way_to_the_local_changes(w: LocalWorkspaceView, status: Seq<char>)
    requires
        !rebase::inputs_frozen(w),
    ensures
        ({
            let after = rebase::routed(w, status);
            &&& !after.rebase.open
            &&& after.status == status
            &&& after.rebase.steps == w.rebase.steps
            &&& after.rebase.preparation == w.rebase.preparation
            &&& after.rebase.operation == w.rebase.operation
            &&& after.operations == w.operations
            &&& after.snapshot == w.snapshot
            &&& after.effects == w.effects
        }),
{
}

/// What is done with a step that is named by its place is set for that step alone, which is
/// selected then; a place without a step changes nothing.
pub proof fn law_an_action_is_set_for_the_step_at_its_place(
    w: LocalWorkspaceView,
    index: usize,
    action: PlanActionView,
)
    requires
        !rebase::inputs_frozen(w),
    ensures
        ({
            let after = rebase::step_action_set(w, index, action);
            &&& index >= w.rebase.steps.len() ==> after == w
            &&& index < w.rebase.steps.len() ==> {
                &&& after.rebase.selected_step == Some(index)
                &&& after.rebase.steps.len() == w.rebase.steps.len()
                &&& after.rebase.steps[index as int].action == action
                &&& after.rebase.steps[index as int].commit_oid
                    == w.rebase.steps[index as int].commit_oid
                &&& forall|i: int|
                    0 <= i < w.rebase.steps.len() && i != index ==> #[trigger] after.rebase.steps[i]
                        == w.rebase.steps[i]
                &&& after.rebase.message == w.rebase.message
                &&& after.rebase.base == w.rebase.base
                &&& after.operations == w.operations
            }
        }),
{
}

} // verus!

//! What the panel of a rebase shows: what can be pressed in each state, and what is said of the
//! plan, the operation, the conflicts and the confirmation.

use vstd::prelude::*;

use crate::text;
use crate::workspace::command;
use crate::workspace::conflict;
use crate::workspace::conflict::{ConflictPresentationView, ConflictSource};
use crate::workspace::git::{
    CommitInventoryView, ConflictFileView, DirtyPreparationView, LocalSnapshotView,
    PrepareOutcomeView, RebaseOperationViewView, RebaseStateView, SplitStateView, StashReceiptView,
    StashRestoreStateView,
};
use crate::workspace::lifecycle::{FrozenIntentView, FrozenRebaseIntentView, PhaseView};
use crate::workspace::panel;
use crate::workspace::panel::{PanelButtonView, PanelControlView};
use crate::workspace::rebase;
use crate::workspace::rebase::LocalWorkspaceView;

verus! {

/// Whether exactly these controls can be pressed, in this order.
pub open spec fn are_controls(
    buttons: Seq<PanelButtonView>,
    controls: Seq<PanelControlView>,
) -> bool {
    &&& buttons.len() == controls.len()
    &&& forall|i: int| 0 <= i < buttons.len() ==> (#[trigger] buttons[i]).control == controls[i]
}

/// A short identifier is its beginning, of at most ten characters; a headline is the first line
/// of a message.
pub proof fn law_short_forms(oid: Seq<char>, message: Seq<char>)
    ensures
        oid.len() <= 10 ==> panel::short_of(oid) == oid,
        oid.len() > 10 ==> panel::short_of(oid) == oid.take(10),
        panel::headline_of(message) == text::first_line_of(message, "(empty message)"@),
        panel::headline_of(Seq::empty()) == "(empty message)"@,
{
}

/// Each state of an operation has its own label.
pub proof fn law_states_are_labelled()
    ensures
        panel::state_label_of(RebaseStateView::Prepared) == "Ready to start"@,
        panel::state_label_of(RebaseStateView::Running) == "Rebase running"@,
        panel::state_label_of(RebaseStateView::PausedForEdit) == "Paused for editing"@,
        panel::state_label_of(RebaseStateView::Conflicted) == "Conflicts to resolve"@,
        panel::state_label_of(RebaseStateView::Completed) == "Rebase completed"@,
        panel::state_label_of(RebaseStateView::Aborted) == "Rebase aborted"@,
        panel::state_label_of(RebaseStateView::FailedUncertain) == "Outcome uncertain"@,
{
}

/// A row of the plan shows the action of its step, its commit and the headline of that commit; the
/// selected one, it alone, is marked.
pub proof fn law_plan_rows_show_their_steps(w: LocalWorkspaceView, frozen: bool, i: int)
    requires
        0 <= i < w.rebase.steps.len(),
    ensures
        ({
            let rows = panel::plan_rows_of(w, frozen);
            let step = w.rebase.steps[i];
            &&& rows.len() == w.rebase.steps.len()
            &&& rows[i].action == command::plan_label_of(step.action)
            &&& rows[i].oid == panel::short_of(step.commit_oid)
            &&& rows[i].selected <==> (w.rebase.selected_step matches Some(s) && s == i)
            &&& rows[i].frozen == frozen
            &&& rebase::inventory_of(w.rebase) is None ==> rows[i].title == "unknown commit"@
            &&& rebase::inventory_of(w.rebase) matches Some(inventory) ==> (
            rebase::commit_message_of(inventory.commits, step.commit_oid) matches Some(message)
                ==> rows[i].title == panel::headline_of(message))
        }),
{
}

/// Each button of the editor of the plan has its own control.
pub proof fn law_the_plan_editor_offers_every_action(frozen: bool)
    ensures
        are_controls(
            panel::plan_editor_of(frozen),
            seq![
                PanelControlView::Pick,
                PanelControlView::Squash,
                PanelControlView::Fixup,
                PanelControlView::Drop,
                PanelControlView::Reword,
                PanelControlView::Edit,
                PanelControlView::MoveUp,
                PanelControlView::MoveDown,
            ],
        ),
        panel::plan_editor_of(frozen)[0].label == "Pick"@,
        panel::plan_editor_of(frozen)[1].label == "Squash"@,
        panel::plan_editor_of(frozen)[2].label == "Fixup"@,
        panel::plan_editor_of(frozen)[3].label == "Drop"@,
        panel::plan_editor_of(frozen)[4].label == "Reword"@,
        panel::plan_editor_of(frozen)[5].label == "Edit"@,
        panel::plan_editor_of(frozen)[6].label == "Move up"@,
        panel::plan_editor_of(frozen)[7].label == "Move down"@,
        forall|i: int| 0 <= i < 8 ==> (#[trigger] panel::plan_editor_of(frozen)[i]).frozen == frozen,
{
}

/// A preparation that is ready shows its plan and offers to start it; one of a dirty checkout says
/// what is dirty and offers to commit, to stash or to give up; an external workflow is explained.
pub proof fn law_preparations_offer_what_follows(
    w: LocalWorkspaceView,
    outcome: PrepareOutcomeView,
    frozen: bool,
)
    ensures
        ({
            let p = panel::preparation_panel_of(w, outcome, frozen);
            &&& outcome is Ready ==> {
                &&& p.rows == panel::plan_rows_of(w, frozen)
                &&& p.editor == panel::plan_editor_of(frozen)
                &&& are_controls(p.buttons, seq![PanelControlView::RequestStart])
                &&& p.notice is None
            }
            &&& outcome matches PrepareOutcomeView::Dirty(dirty) ==> {
                &&& p.notice == Some(panel::dirty_notice_of(dirty))
                &&& are_controls(
                    p.buttons,
                    seq![
                        PanelControlView::RouteDirtyCommit,
                        PanelControlView::CreateStash,
                        PanelControlView::CancelPreparation,
                    ],
                )
                &&& p.rows.len() == 0
            }
            &&& outcome matches PrepareOutcomeView::ExternalWorkflow { explanation } ==> {
                &&& p.notice matches Some(n) && n.body == explanation
                &&& p.buttons.len() == 0
                &&& p.rows.len() == 0
            }
        }),
{
}

/// The summary of a preparation counts its commits and names the branch, the base and the head.
pub proof fn law_preparations_are_summarised(inventory: CommitInventoryView)
    ensures
        panel::inventory_summary_of(inventory) == seq![
            text::decimal(inventory.commits.len()) + " commits · "@ + inventory.branch,
            "base "@ + inventory.base_oid,
            "head "@ + inventory.head_oid,
        ],
{
}

/// What is dirty is counted by kind.
pub proof fn law_dirt_is_counted(dirty: DirtyPreparationView)
    ensures
        panel::dirty_notice_of(dirty).body == text::decimal(dirty.staged as nat) + " staged · "@
            + text::decimal(dirty.unstaged as nat) + " unstaged · "@ + text::decimal(
            dirty.untracked as nat,
        ) + " untracked · "@ + text::decimal(dirty.conflicts as nat)
            + " conflicts. Stash includes untracked; ignored files remain outside it. The exact retained stash receipt appears after creation."@,
{
}

/// A base is chosen by its commit: the upstream first, then every local branch, then the step to
/// prepare.
pub proof fn law_bases_are_chosen_by_commit(s: LocalSnapshotView, i: int)
    requires
        0 <= i < s.local_branch_oids.len(),
    ensures
        ({
            let list = panel::base_choices_of(Some(s));
            let first: int = if s.upstream_oid is Some {
                1
            } else {
                0
            };
            let branch = s.local_branch_oids[i];
            &&& list.len() == first + s.local_branch_oids.len() + 1
            &&& s.upstream_oid matches Some(oid) ==> list[0].control
                == (PanelControlView::SelectBase { oid }) && list[0].label == "Upstream · "@
                + panel::short_of(oid)
            &&& list[first + i].control == (PanelControlView::SelectBase { oid: branch.oid })
            &&& list[first + i].label == branch.branch + " · "@ + panel::short_of(branch.oid)
            &&& list.last().control == PanelControlView::Prepare
        }),
{
}

/// A side that is shown has its own label, summary and number of lines; its details are shown when
/// asked for. Side by side all three are shown, otherwise the selected one.
pub proof fn law_sides_are_shown(v: ConflictPresentationView, source: ConflictSource)
    ensures
        ({
            let shown = panel::source_panel_of(v, source);
            let stage = match source {
                ConflictSource::Base => v.conflict.base,
                ConflictSource::Ours => v.conflict.ours,
                ConflictSource::Theirs => v.conflict.theirs,
            };
            &&& shown.label == conflict::source_label_of(v, source)
            &&& shown.summary == conflict::source_summary_of(stage)
            &&& shown.selected <==> v.selected == source
            &&& v.show_details ==> shown.details == Some(conflict::source_details_of(stage))
            &&& !v.show_details ==> shown.details is None
            &&& text::lines_of(conflict::source_text_of(stage)).len() <= usize::MAX ==> shown.count
                == text::lines_of(conflict::source_text_of(stage)).len()
            &&& panel::shown_sources_of(v, false) == seq![panel::source_panel_of(v, v.selected)]
            &&& panel::shown_sources_of(v, true) == seq![
                panel::source_panel_of(v, ConflictSource::Base),
                panel::source_panel_of(v, ConflictSource::Ours),
                panel::source_panel_of(v, ConflictSource::Theirs),
            ]
        }),
{
}

/// A presented conflict can be staged exactly while it is current, and refreshed exactly when its
/// stages changed; each side can be selected.
pub proof fn law_a_presented_conflict_offers_what_it_may(
    v: ConflictPresentationView,
    wide: bool,
    frozen: bool,
)
    ensures
        ({
            let p = panel::conflict_panel_of(v, wide, frozen);
            &&& p.path == v.conflict.path.display
            &&& p.stage is Some <==> v.state is Current
            &&& p.stage matches Some(b) ==> b.control == PanelControlView::StagePresented
                && b.frozen == frozen
            &&& p.refresh is Some <==> v.state is StagesChanged
            &&& p.refresh matches Some(b) ==> b.control == PanelControlView::RefreshConflict
            &&& p.explanation is Some <==> !(v.state is Current)
            &&& p.close.control == PanelControlView::CloseConflict
            &&& p.details.control == PanelControlView::ToggleConflictDetails
            &&& p.operation is Some <==> v.show_details
            &&& p.sources == panel::shown_sources_of(v, wide)
            &&& are_controls(
                p.selectors,
                seq![
                    PanelControlView::SelectSource { source: ConflictSource::Base },
                    PanelControlView::SelectSource { source: ConflictSource::Ours },
                    PanelControlView::SelectSource { source: ConflictSource::Theirs },
                ],
            )
            &&& p.selectors[0].selected <==> v.selected is Base
            &&& p.selectors[1].selected <==> v.selected is Ours
            &&& p.selectors[2].selected <==> v.selected is Theirs
            &&& forall|i: int| 0 <= i < 3 ==> (#[trigger] p.selectors[i]).frozen == frozen
        }),
{
}

/// A conflict in the list is opened and staged by its own place.
pub proof fn law_listed_conflicts_are_opened_by_place(
    files: Seq<ConflictFileView>,
    details: bool,
    frozen: bool,
    i: int,
)
    requires
        0 <= i < files.len() <= usize::MAX,
    ensures
        ({
            let cards = panel::conflict_cards_of(files, details, frozen);
            &&& cards.len() == files.len()
            &&& cards[i].path == files[i].path.display
            &&& cards[i].open.control == (PanelControlView::OpenConflict { index: i as usize })
            &&& cards[i].stage.control == (PanelControlView::StageConflict { index: i as usize })
            &&& cards[i].open.frozen == frozen
            &&& cards[i].stage.frozen == frozen
        }),
{
}

/// In each state exactly what is possible can be asked for: nothing while the outcome is uncertain or
/// the start has not run; to observe or abort while running; to edit, amend, split, go on or abort at
/// an edit; to stage, commit, finish or abort in a split; to go on, skip or abort at a conflict; to
/// finish restoring at a conflict of the stash; and to restore or close once it is over.
pub proof fn law_controls_follow_the_state(o: RebaseOperationViewView)
    ensures
        ({
            let b = panel::operation_buttons_of(o);
            let over = o.state is Completed || o.state is Aborted;
            &&& o.state is FailedUncertain || o.state is Prepared ==> b.len() == 0
            &&& o.state is Running ==> are_controls(
                b,
                seq![PanelControlView::Observe, PanelControlView::Abort],
            )
            &&& o.state is PausedForEdit && o.split is None ==> b.len() == 5 && b[0].control
                is RouteToLocalChanges && b[1].control == PanelControlView::Amend && b[2].control
                == PanelControlView::BeginSplit && b[3].control == PanelControlView::Continue
                && b[4].control == PanelControlView::Abort
            &&& o.state is PausedForEdit && o.split is Some ==> b.len() == 4 && b[0].control
                is RouteToLocalChanges && b[1].control == PanelControlView::CommitSplitPart
                && b[2].control == PanelControlView::FinishSplit && b[3].control
                == PanelControlView::Abort
            &&& o.state is Conflicted && o.stash_restore is Conflicted ==> are_controls(
                b,
                seq![PanelControlView::FinishStashRestore],
            )
            &&& o.state is Conflicted && !(o.stash_restore is Conflicted) && o.split is None
                ==> are_controls(
                b,
                seq![PanelControlView::Continue, PanelControlView::Skip, PanelControlView::Abort],
            )
            &&& o.state is Conflicted && !(o.stash_restore is Conflicted) && o.split is Some
                ==> b.len() == 0
            &&& over && o.stash is Some && o.stash_restore is NotStarted ==> are_controls(
                b,
                seq![PanelControlView::RestoreStash, PanelControlView::Retire],
            )
            &&& over && !(o.stash is Some && o.stash_restore is NotStarted) ==> are_controls(
                b,
                seq![PanelControlView::Retire],
            )
        }),
{
}

/// The panel of an operation says its state and attempt, its branch, base and original head, its
/// conflicts, its stash and its split, and the commits that came of it once it is over.
pub proof fn law_an_operation_is_shown(
    w: LocalWorkspaceView,
    o: RebaseOperationViewView,
    controls: bool,
    inputs: bool,
)
    ensures
        ({
            let p = panel::operation_panel_of(w, o, controls, inputs);
            let over = o.state is Completed || o.state is Aborted;
            &&& p.heading == panel::state_label_of(o.state) + " · attempt "@ + text::decimal(
                o.attempt as nat,
            )
            &&& p.original_head == panel::short_of(o.original_head_oid)
            &&& p.branch == "branch "@ + o.original_branch
            &&& p.base == "base "@ + panel::short_of(o.base_oid)
            &&& p.conflicts == panel::conflict_cards_of(
                w.rebase.conflicts,
                w.rebase.show_operation_details,
                controls,
            )
            &&& p.conflicts_heading is Some <==> w.rebase.conflicts.len() > 0
            &&& p.split is Some <==> o.split is Some
            &&& p.stash is Some <==> o.stash is Some
            &&& p.message_label is Some <==> o.state is PausedForEdit
            &&& over ==> p.results.len() == o.resulting_commits.len() && forall|i: int|
                0 <= i < p.results.len() ==> #[trigger] p.results[i] == o.resulting_commits[i].oid
                    + "  "@ + panel::headline_of(o.resulting_commits[i].message)
            &&& !over ==> p.results.len() == 0
            &&& !w.rebase.show_operation_details ==> p.details.len() == 0 && p.details_heading
                is None
            &&& w.rebase.show_operation_details ==> p.details.len() >= 3 && p.details[0]
                == "operation "@ + o.operation_id && p.details[1] == "base "@ + o.base_oid
                && p.details[2] == "original "@ + o.original_head_oid
            &&& p.buttons == panel::operation_buttons_of(o)
        }),
{
}

/// A split says where it stopped, what its parent is, which tree it must come to, and how many
/// replacements there are.
pub proof fn law_a_split_is_described(split: SplitStateView)
    requires
        split.rewritten_stopped_oid is Some,
        split.replacement_commit_count is Some,
    ensures
        panel::split_notice_of(split).body == "stopped "@ + split.stopped_oid
            + " · rewritten stop "@ + split.rewritten_stopped_oid->0 + " · parent "@
            + split.parent_oid + " · required tree "@ + split.required_tree_oid
            + " · replacements "@ + text::decimal(split.replacement_commit_count->0 as nat),
{
}

/// A stash says its identifier and what it holds, each flag in its place.
pub proof fn law_a_stash_is_described(stash: StashReceiptView, restore: StashRestoreStateView)
    ensures
        ({
            let flag = |b: bool|
                if b {
                    "true"@
                } else {
                    "false"@
                };
            panel::stash_notice_of(stash, restore).body == "OID "@ + stash.oid
                + " · includes untracked: "@ + flag(stash.includes_untracked)
                + " · ignored excluded: "@ + flag(stash.ignored_files_excluded)
                + " · retained after restore: "@ + flag(stash.retained_after_restore)
                + " · restore "@ + panel::restore_name_of(restore)
        }),
{
}

/// A stop names its commit and, where it is known, the headline of that commit.
pub proof fn law_a_stop_is_named(w: LocalWorkspaceView, o: RebaseOperationViewView)
    ensures
        ({
            let line = panel::stopped_line_of(w, o);
            &&& line is Some <==> o.active is Some && o.active->0.stopped_oid is Some
            &&& o.active matches Some(active) ==> (active.stopped_oid matches Some(oid) ==> (
            rebase::inventory_of(w.rebase) is None ==> line == Some(
                "stopped "@ + panel::short_of(oid),
            )))
            &&& o.active matches Some(active) ==> (active.stopped_oid matches Some(oid) ==> (
            rebase::inventory_of(w.rebase) matches Some(inventory) ==> (rebase::commit_message_of(
                inventory.commits,
                oid,
            ) matches Some(message) ==> line == Some(
                "stopped "@ + panel::short_of(oid) + " · "@ + panel::headline_of(message),
            ))))
        }),
{
}

/// A confirmation says what will be done and with what, and is given or taken back by its own
/// number.
pub proof fn law_a_confirmation_is_given_by_its_number(pending: FrozenRebaseIntentView)
    ensures
        ({
            let p = panel::confirmation_panel_of(pending);
            &&& p.notice.body == command::command_summary_of(pending.command)
            &&& p.frozen == command::frozen_description_of(pending.editable_inputs)
            &&& are_controls(
                p.buttons,
                seq![
                    PanelControlView::Confirm { request_id: pending.id },
                    PanelControlView::CancelRequest { request_id: pending.id },
                ],
            )
        }),
{
}

/// The panel shows one thing at a time: an open conflict, else the operation, else the
/// preparation, else the choice of a base; a confirmation that is pending and the status are always
/// shown.
pub proof fn law_one_thing_is_shown_at_a_time(w: LocalWorkspaceView, wide: bool)
    ensures
        ({
            let c = panel::content_of(w, wide);
            let open = w.rebase.conflict_view is Some;
            let going = w.rebase.operation is Some;
            let prepared = w.rebase.preparation is Some;
            &&& c.conflict is Some <==> open
            &&& c.operation is Some <==> !open && going
            &&& c.preparation is Some <==> !open && !going && prepared
            &&& c.base_heading is Some <==> !open && !going && !prepared
            &&& !open && !going && !prepared ==> c.choices == panel::base_choices_of(w.snapshot)
            &&& open || going || prepared ==> c.choices.len() == 0
            &&& c.confirmation is Some <==> (
            w.operations.phase matches PhaseView::AwaitingConfirmation(FrozenIntentView::Rebase(_)))
            &&& w.operations.phase matches PhaseView::AwaitingConfirmation(
                FrozenIntentView::Rebase(p),
            ) ==> c.confirmation == Some(panel::confirmation_panel_of(p))
            &&& c.status == w.rebase.status
            &&& c.back.control == PanelControlView::Toggle
        }),
{
}

} // verus!

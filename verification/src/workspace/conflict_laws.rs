//! What the presentation of a conflict is for: which sides are shown, what is said of them, and
//! when they are still those of Git.

use vstd::prelude::*;

use crate::text;
use crate::workspace::command;
use crate::workspace::command::{RebaseCommandView, RebaseEditableInputIdentityView};
use crate::workspace::conflict;
use crate::workspace::conflict::{
    ConflictContextState, ConflictOperationIdentityView, ConflictPresentationView, ConflictSource,
};
use crate::workspace::git::{
    BlobContentView, ConflictFileView, ConflictStageView, PlanActionView, PlanStepView,
    RebaseOperationViewView,
};

verus! {

// ---------------------------------------------------------------------------
// Sides

/// Each side shows its own stage of the conflict, under its own name.
pub proof fn law_each_side_shows_its_stage(p: ConflictPresentationView)
    ensures
        conflict::stage_of(p, ConflictSource::Base) == p.conflict.base,
        conflict::stage_of(p, ConflictSource::Ours) == p.conflict.ours,
        conflict::stage_of(p, ConflictSource::Theirs) == p.conflict.theirs,
        conflict::source_label_of(p, ConflictSource::Base) == "Base"@,
        p.operation is Rebase ==> conflict::source_label_of(p, ConflictSource::Ours)
            == "Already rebased (ours)"@ && conflict::source_label_of(p, ConflictSource::Theirs)
            == "Replayed commit (theirs)"@,
        p.operation is StashRestore ==> conflict::source_label_of(p, ConflictSource::Ours)
            == "Current worktree (ours)"@ && conflict::source_label_of(p, ConflictSource::Theirs)
            == "Restored stash (theirs)"@,
{
}

/// One step on goes from the base to ours, to theirs and around; one step back goes the other way.
pub proof fn law_sides_follow_one_another()
    ensures
        conflict::moved_by(ConflictSource::Base, 1) == ConflictSource::Ours,
        conflict::moved_by(ConflictSource::Ours, 1) == ConflictSource::Theirs,
        conflict::moved_by(ConflictSource::Theirs, 1) == ConflictSource::Base,
        conflict::moved_by(ConflictSource::Base, -1) == ConflictSource::Theirs,
        conflict::moved_by(ConflictSource::Ours, -1) == ConflictSource::Base,
        conflict::moved_by(ConflictSource::Theirs, -1) == ConflictSource::Ours,
        forall|s: ConflictSource| #[trigger] conflict::moved_by(s, 0) == s,
{
}

/// What a side shows is its text, where it is one; otherwise it says what stands there instead.
pub proof fn law_a_side_shows_its_text(stage: ConflictStageView)
    ensures
        match stage.content {
            BlobContentView::Utf8(content) => conflict::source_text_of(stage) == content
                && conflict::content_kind_of(stage.content) == "UTF-8 · "@ + text::decimal(
                text::byte_len(content),
            ) + " bytes"@,
            BlobContentView::Symlink(target) => conflict::source_text_of(stage)
                == "<symbolic-link target bytes: "@ + text::lossy_of(target) + ">"@
                && conflict::content_kind_of(stage.content) == "symlink · "@ + text::decimal(
                target.len(),
            ) + " target bytes"@,
            BlobContentView::TooLarge { bytes, limit } => conflict::source_text_of(stage)
                == "<Git object is "@ + text::decimal(bytes as nat)
                + " bytes; internal text limit is "@ + text::decimal(limit as nat) + " bytes>"@
                && conflict::content_kind_of(stage.content) == "too large · "@ + text::decimal(
                bytes as nat,
            ) + " bytes (limit "@ + text::decimal(limit as nat) + ")"@,
            BlobContentView::Deleted => conflict::source_text_of(stage)
                == "<missing stage — this side deleted the path>"@ && conflict::content_kind_of(
                stage.content,
            ) == "deleted / missing stage"@,
            BlobContentView::Binary => conflict::source_text_of(stage)
                == "<binary Git object — read-only metadata only>"@ && conflict::content_kind_of(
                stage.content,
            ) == "binary"@,
            BlobContentView::Media => conflict::source_text_of(stage)
                == "<media Git object — no decoded preview>"@ && conflict::content_kind_of(
                stage.content,
            ) == "media"@,
            BlobContentView::NonUtf8 => conflict::source_text_of(stage)
                == "<non-UTF-8 Git object — read-only metadata only>"@
                && conflict::content_kind_of(stage.content) == "non-UTF-8"@,
        },
{
}

/// The summary of a side has the beginning of its identifier, ten characters of it, its mode and
/// its kind; the details have all of the identifier.
pub proof fn law_summaries_identify_the_stage(stage: ConflictStageView)
    ensures
        ({
            let kind = conflict::content_kind_of(stage.content);
            let mode = match stage.mode {
                Some(m) => m,
                None => "no mode"@,
            };
            let s = conflict::source_summary_of(stage);
            &&& stage.oid is None ==> s == "missing"@ + " · "@ + mode + " · "@ + kind
            &&& stage.oid matches Some(oid) ==> (oid.len() <= 10 ==> s == oid + " · "@ + mode
                + " · "@ + kind)
            &&& stage.oid matches Some(oid) ==> (oid.len() > 10 ==> s == oid.take(10) + " · "@ + mode
                + " · "@ + kind)
            &&& stage.oid matches Some(oid) ==> (stage.mode matches Some(m)
                ==> conflict::source_details_of(stage) == "object "@ + oid + "\nmode "@ + m
                + "\ncontent "@ + kind)
        }),
{
    if let Some(oid) = stage.oid {
        if oid.len() <= 10 {
            assert(oid.take(oid.len() as int) =~= oid);
        }
    }
}

/// A line that is shown is the line of the text with that number; an empty one is shown as a
/// space, and so is one that there is not.
pub proof fn law_shown_lines_are_those_of_the_text(s: Seq<char>, from: int, to: int, k: int)
    requires
        0 <= from <= to,
        0 <= k < to - from,
    ensures
        ({
            let rows = conflict::shown_rows(s, from, to);
            let lines = text::lines_of(s);
            &&& rows.len() == to - from
            &&& from + k < lines.len() && lines[from + k].len() > 0 ==> rows[k] == lines[from + k]
            &&& from + k < lines.len() && lines[from + k].len() == 0 ==> rows[k] == " "@
            &&& from + k >= lines.len() ==> rows[k] == " "@
        }),
{
}

/// A tab is as wide as four characters, an ASCII character as one, and any other as two; the width
/// of a line is that of its characters together.
pub proof fn law_widths_add_up(line: Seq<char>, c: char)
    ensures
        conflict::width_of(Seq::empty()) == 0,
        c == '\t' ==> conflict::width_of(line.push(c)) == conflict::width_of(line) + 4,
        c != '\t' && (c as u32) < 128 ==> conflict::width_of(line.push(c)) == conflict::width_of(
            line,
        ) + 1,
        (c as u32) >= 128 ==> conflict::width_of(line.push(c)) == conflict::width_of(line) + 2,
{
    assert(line.push(c).drop_last() =~= line);
}

// ---------------------------------------------------------------------------
// Presentations

/// A presentation is of the restored stash while that is in conflict, else of the active rebase;
/// without either there is none.
pub proof fn law_a_presentation_is_of_its_operation(o: RebaseOperationViewView)
    ensures
        ({
            let identity = conflict::identity_of(o);
            &&& o.stash_restore is Conflicted ==> identity == Some(
                ConflictOperationIdentityView::StashRestore { operation_id: o.operation_id },
            )
            &&& !(o.stash_restore is Conflicted) && o.active is None ==> identity is None
            &&& !(o.stash_restore is Conflicted) ==> (o.active matches Some(active) ==> identity
                == Some(
                ConflictOperationIdentityView::Rebase { operation_id: o.operation_id, active },
            ))
            &&& identity matches Some(i) ==> conflict::operation_id_of(i) == o.operation_id
        }),
{
}

/// A conflict is presented as it is, with our side selected and without details.
pub proof fn law_a_conflict_is_presented_as_it_is(
    o: RebaseOperationViewView,
    file: ConflictFileView,
)
    ensures
        ({
            let p = conflict::presented(o, file);
            &&& p is Some <==> conflict::identity_of(o) is Some
            &&& p matches Some(v) ==> {
                &&& conflict::identity_of(o) == Some(v.operation)
                &&& v.conflict == file
                &&& v.selected is Ours
                &&& !v.show_details
                &&& v.state is Current
            }
        }),
{
}

/// A presentation takes over the conflict of its own path in its own operation, and is current
/// then; what is selected and shown stays. Any other conflict it leaves.
pub proof fn law_a_refresh_takes_over_the_conflict(
    p: ConflictPresentationView,
    o: RebaseOperationViewView,
    file: ConflictFileView,
)
    ensures
        ({
            let after = conflict::refreshed(p, o, file);
            let may = conflict::identity_of(o) == Some(p.operation) && file.path.raw
                == p.conflict.path.raw;
            &&& may ==> after.conflict == file && after.state is Current && after.selected
                == p.selected && after.show_details == p.show_details && after.operation
                == p.operation
            &&& !may ==> after == p
        }),
{
}

/// The conflict at a path is the first one there.
pub proof fn law_conflicts_are_found_by_path(conflicts: Seq<ConflictFileView>, raw: Seq<u8>)
    ensures
        match conflict::conflict_at(conflicts, raw) {
            Some(i) => 0 <= i < conflicts.len() && conflicts[i].path.raw == raw && forall|k: int|
                0 <= k < i ==> (#[trigger] conflicts[k]).path.raw != raw,
            None => forall|k: int|
                0 <= k < conflicts.len() ==> (#[trigger] conflicts[k]).path.raw != raw,
        },
    decreases conflicts.len(),
{
    if conflicts.len() > 0 && conflicts[0].path.raw != raw {
        let rest = conflicts.drop_first();
        law_conflicts_are_found_by_path(rest, raw);
        match conflict::conflict_at(rest, raw) {
            Some(i) => {
                assert(conflicts[i + 1] == rest[i]);
                assert forall|k: int| 0 <= k < i + 1 implies (#[trigger] conflicts[k]).path.raw
                    != raw by {
                    if k > 0 {
                        assert(rest[k - 1] == conflicts[k]);
                    }
                }
            },
            None => {
                assert forall|k: int| 0 <= k < conflicts.len() implies (
                #[trigger] conflicts[k]).path.raw != raw by {
                    if k > 0 {
                        assert(rest[k - 1] == conflicts[k]);
                    }
                }
            },
        }
    }
}

/// An observation tells how a presentation stands: its operation may be gone or another one, its
/// conflict may be gone or changed, or all is as it was.
pub proof fn law_an_observation_tells_what_changed(
    p: ConflictPresentationView,
    o: Option<RebaseOperationViewView>,
    conflicts: Seq<ConflictFileView>,
)
    ensures
        ({
            let state = conflict::observed_state(p, o, conflicts);
            let identity = match o {
                Some(x) => conflict::identity_of(x),
                None => None,
            };
            let at = conflict::conflict_at(conflicts, p.conflict.path.raw);
            &&& state is OperationUnavailable <==> identity is None
            &&& state is OperationChanged <==> identity is Some && identity != Some(p.operation)
            &&& state is ConflictResolved <==> identity == Some(p.operation) && at is None
            &&& state is StagesChanged <==> identity == Some(p.operation) && at is Some
                && conflicts[at->0] != p.conflict
            &&& state is Current <==> identity == Some(p.operation) && at is Some
                && conflicts[at->0] == p.conflict
        }),
{
}

/// Only a current presentation needs no explanation; every other state has its own.
pub proof fn law_each_change_is_explained(a: ConflictContextState)
    ensures
        conflict::explanation_of(a) is None <==> a is Current,
        a is StagesChanged ==> conflict::explanation_of(a) == Some(
            "Git's source stages or the result on disk changed. This frozen context cannot be staged. Refresh the source context after reviewing the change."@,
        ),
        a is ConflictResolved ==> conflict::explanation_of(a) == Some(
            "Git no longer reports this path as unmerged. This frozen context cannot advance or stage anything."@,
        ),
        a is OperationChanged ==> conflict::explanation_of(a) == Some(
            "The rebase or stash-restore identity changed. This presentation will not attach to the new operation even if the path is the same."@,
        ),
        a is OperationUnavailable ==> conflict::explanation_of(a) == Some(
            "The observed operation ended or became unavailable. This source context is now read-only evidence."@,
        ),
{
}

// ---------------------------------------------------------------------------
// What is said of a command

/// Each kind of step has its own word.
pub proof fn law_steps_are_named(message: Seq<char>)
    ensures
        command::plan_label_of(PlanActionView::Pick) == "pick"@,
        command::plan_label_of(PlanActionView::Squash) == "squash"@,
        command::plan_label_of(PlanActionView::Fixup) == "fixup"@,
        command::plan_label_of(PlanActionView::Drop) == "drop"@,
        command::plan_label_of(PlanActionView::Reword { message }) == "reword"@,
        command::plan_label_of(PlanActionView::Edit) == "edit"@,
{
}

/// A stash says how many entries of each kind it takes, a start how many commits, an amendment
/// whether the message changes, and a staging which path.
pub proof fn law_summaries_say_what_a_command_does(c: RebaseCommandView)
    ensures
        ({
            let s = command::command_summary_of(c);
            &&& c matches RebaseCommandView::CreateStash(dirty) ==> s == "Stash "@ + text::decimal(
                dirty.staged as nat,
            ) + " staged, "@ + text::decimal(dirty.unstaged as nat) + " unstaged, and "@
                + text::decimal(dirty.untracked as nat)
                + " untracked entries (ignored files excluded)"@
            &&& c matches RebaseCommandView::Start { plan, .. } ==> s == "Start the frozen "@
                + text::decimal(plan.steps.len()) + "-commit linear rebase plan"@
            &&& c matches RebaseCommandView::StageConflict { expected, .. } ==> s
                == "Re-read exact conflict stages and disk identity, then stage "@
                + expected.path.display
            &&& c matches RebaseCommandView::Amend { message, .. } ==> (message is Some ==> s
                == "Amend the edit-stop commit with staged content and the displayed message"@)
            &&& c matches RebaseCommandView::Amend { message, .. } ==> (message is None ==> s
                == "Amend the edit-stop commit with staged content and keep its message"@)
            &&& c is Continue ==> s == "Continue the currently observed rebase"@
            &&& c is Skip ==> s == "Skip the currently stopped replay commit"@
            &&& c is CommitSplitPart ==> s == "Commit the currently staged split part"@
        }),
{
}

/// What is frozen is described by its text.
pub proof fn law_frozen_texts_are_shown(message: Seq<char>)
    ensures
        command::frozen_description_of(RebaseEditableInputIdentityView::NoInput) is None,
        command::frozen_description_of(RebaseEditableInputIdentityView::AmendMessage(message))
            == Some("Frozen amend editor = "@ + text::debug_of(message)),
        command::frozen_description_of(RebaseEditableInputIdentityView::SplitPartMessage(message))
            == Some("Frozen split-part editor = "@ + text::debug_of(message)),
{
}

/// A frozen step has its place in the plan, its action, its commit and, if it has one, its new
/// message.
pub proof fn law_frozen_steps_are_numbered(steps: Seq<PlanStepView>, i: int)
    requires
        0 <= i < steps.len(),
    ensures
        ({
            let shown = command::frozen_step_of(steps, i);
            let head = text::decimal((i + 1) as nat) + ". "@ + command::plan_label_of(
                steps[i].action,
            ) + " "@ + steps[i].commit_oid;
            &&& steps[i].action matches PlanActionView::Reword { message } ==> shown == head + (
            " message "@ + text::debug_of(message))
            &&& !(steps[i].action is Reword) ==> shown == head
        }),
{
    let head = text::decimal((i + 1) as nat) + ". "@ + command::plan_label_of(steps[i].action)
        + " "@ + steps[i].commit_oid;
    assert(head + Seq::<char>::empty() =~= head);
}

/// The lines whose number is a multiple of 64 are noted, the first one at the start, and no others.
pub proof fn law_every_sixty_fourth_line_is_noted(s: Seq<char>)
    ensures
        64 * (conflict::checkpoints_in(s) - 1) < text::lines_of(s).len() <= 64
            * conflict::checkpoints_in(s),
        conflict::byte_of_line(s, 0) == 0,
{
    text::lemma_has_a_line(s);
    assert(s.take(0) =~= Seq::<char>::empty());
    vstd::utf8::is_ascii_chars_encode_utf8(Seq::<char>::empty());
}

} // verus!

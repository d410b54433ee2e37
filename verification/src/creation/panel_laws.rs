//! What the panel of the creation dialog shows: what can be chosen, what is confirmed, what came
//! of it, and what is recorded.

use vstd::prelude::*;

use crate::creation::dialog;
use crate::creation::dialog::{
    DialogStateView, DialogView, FrozenCreationView, ProviderChoiceSet,
};
use crate::creation::form::PullRequestCreationAcknowledgementView;
use crate::creation::journal::AttemptSummaryView;
use crate::creation::panel;
use crate::domain::Repository;
use crate::text;

verus! {

/// Every repository can be chosen by its name and account, and the chosen one, it alone, is
/// marked.
pub proof fn law_every_repository_is_listed(
    repositories: Seq<Repository>,
    target: bool,
    selected: usize,
    inert: bool,
    i: int,
)
    requires
        0 <= i < repositories.len(),
    ensures
        ({
            let list = panel::repository_choices_of(repositories, target, selected, inert);
            &&& list.len() == repositories.len()
            &&& list[i].label == repositories[i].owner@ + "/"@ + repositories[i].name@ + " · "@
                + repositories[i].account.login@
            &&& list[i].selected <==> i == selected
            &&& list[i].enabled <==> !inert
        }),
{
}

/// The first twenty-four branches are listed by name, in order; that there are more, or that not
/// all were read, is said.
pub proof fn law_the_first_branches_are_listed(
    prefix: Seq<char>,
    set: ProviderChoiceSet,
    inert: bool,
)
    ensures
        ({
            let shown = panel::branch_panel_of(prefix, Some(set), inert);
            let all = set.values@;
            &&& all.len() <= 24 ==> shown.choices.len() == all.len() && shown.truncated is None
            &&& all.len() > 24 ==> shown.choices.len() == 24 && shown.truncated is Some
            &&& shown.incomplete is Some <==> !set.complete
            &&& forall|i: int|
                0 <= i < shown.choices.len() ==> (#[trigger] shown.choices[i]).label
                    == all[i].name@ && shown.choices[i].enabled == !inert
            &&& panel::branch_panel_of(prefix, None, inert).choices.len() == 0
        }),
{
}

/// The form shows the target's choices as the target's and the source's as the source's, whether a
/// draft is made, and whether choices are being read.
pub proof fn law_the_form_shows_both_sides(d: DialogView)
    ensures
        ({
            let f = panel::form_panel_of(d);
            let inert = dialog::is_busy(d.state) || d.state is Unavailable || d.state
                is Confirmation || d.close_after_save || d.prepare_queued is Some;
            &&& f.inert == inert
            &&& f.target_repositories == panel::repository_choices_of(
                d.repositories,
                true,
                d.target_index,
                inert,
            )
            &&& f.source_repositories == panel::repository_choices_of(
                d.repositories,
                false,
                d.source_index,
                inert,
            )
            &&& f.target_branches == panel::branch_panel_of("target"@, d.target_choices, inert)
            &&& f.source_branches == panel::branch_panel_of("source"@, d.source_choices, inert)
            &&& d.draft ==> f.draft_label == "● Draft PR"@
            &&& !d.draft ==> f.draft_label == "○ Normal PR"@
            &&& f.loading is Some <==> d.choices_loading
            &&& f.notice == d.choices_notice
        }),
{
}

/// A confirmation shows the way from the source to the target, each with its branch, the account,
/// whether it is a draft, and the title; the details are shown when asked for.
pub proof fn law_a_confirmation_shows_the_way(frozen: FrozenCreationView, disclosed: bool)
    ensures
        ({
            let shown = panel::confirmation_panel_of(frozen, disclosed);
            let input = frozen.request.preparation.input;
            let s = input.source_repository;
            let t = input.target_repository;
            &&& shown.route == (s.owner + "/"@ + s.name) + ":"@ + input.source_branch + "  →  "@ + (
            t.owner + "/"@ + t.name) + ":"@ + input.base_branch
            &&& input.draft ==> shown.account == "Account "@
                + frozen.request.preparation.viewer_login + " · "@ + "draft"@
            &&& !input.draft ==> shown.account == "Account "@
                + frozen.request.preparation.viewer_login + " · "@ + "normal"@
            &&& shown.title == input.title
            &&& disclosed ==> shown.details == Some(dialog::details_of(frozen))
            &&& !disclosed ==> shown.details is None
        }),
{
}

/// The details of a confirmation name the operation, the attempt and both commits, and end with the
/// body as it is.
pub proof fn law_the_details_name_every_part(frozen: FrozenCreationView)
    ensures
        ({
            let p = frozen.request.preparation;
            let local = match p.input.local_branch {
                Some(b) => b,
                None => "not supplied"@,
            };
            dialog::details_of(frozen) == "Operation: "@ + frozen.request.operation_id
                + "\nAttempt: "@ + frozen.request.attempt_id + "\nTarget base OID: "@
                + p.observed_base_sha + "\nReviewed source OID: "@ + p.observed_source_head_sha
                + "\nCapability: available\nLocal branch: "@ + local + "\nBody (exact, "@
                + text::decimal(text::byte_len(p.input.body)) + " bytes):\n"@ + p.input.body
        }),
{
}

/// What was created is shown with its number, its address, the commit it has and the one that was
/// reviewed; that they differ is said exactly if they do.
pub proof fn law_what_was_created_is_shown(a: PullRequestCreationAcknowledgementView)
    ensures
        ({
            let shown = panel::created_panel_of(a);
            &&& shown.heading == "Created #"@ + text::decimal(a.pull_request.pull_request as nat)
            &&& shown.url == a.url
            &&& shown.actual == "Actual created head: "@ + a.actual_head_sha
            &&& shown.reviewed == "Reviewed preparation head: "@ + a.reviewed_head_sha
            &&& shown.moved is Some <==> a.actual_head_sha != a.reviewed_head_sha
            &&& shown.open.enabled
        }),
{
}

/// A record is shown with its way, how it stands, its identities, the reviewed commit and the
/// title; what it created can be opened where that is known.
pub proof fn law_records_are_shown(a: AttemptSummaryView, index: int, enabled: bool)
    ensures
        ({
            let card = panel::card_of(a, index, enabled);
            &&& card.route == a.source + " → "@ + a.target
            &&& card.status == a.status
            &&& card.line == a.operation_id + " / "@ + a.attempt_id + " · reviewed "@
                + a.reviewed_head + " · "@ + a.title
            &&& card.authority == a.authority
            &&& card.unresolved == a.unresolved
            &&& card.open is Some <==> a.acknowledgement is Some
            &&& card.open matches Some(open) ==> open.enabled == enabled
        }),
{
}

/// The unresolved records are counted one by one.
pub proof fn law_unresolved_records_are_counted(
    attempts: Seq<AttemptSummaryView>,
    a: AttemptSummaryView,
)
    ensures
        panel::unresolved_count(Seq::empty()) == 0,
        a.unresolved ==> panel::unresolved_count(attempts.push(a)) == panel::unresolved_count(
            attempts,
        ) + 1,
        !a.unresolved ==> panel::unresolved_count(attempts.push(a)) == panel::unresolved_count(
            attempts,
        ),
{
    assert(attempts.push(a).drop_last() =~= attempts);
}

/// The records are listed from the last to the first, when asked for; how many there are, and how
/// many are unresolved, is always said.
pub proof fn law_records_are_listed_from_the_last(
    attempts: Seq<AttemptSummaryView>,
    disclosed: bool,
    enabled: bool,
)
    ensures
        ({
            let shown = panel::attempts_panel_of(attempts, disclosed, enabled);
            &&& shown.label == text::decimal(attempts.len()) + " recovery records · "@
                + text::decimal(panel::unresolved_count(attempts)) + " unresolved"@
            &&& !disclosed ==> shown.cards.len() == 0
            &&& disclosed ==> shown.cards.len() == attempts.len() && forall|i: int|
                0 <= i < attempts.len() ==> #[trigger] shown.cards[i] == panel::card_of(
                    attempts[attempts.len() - 1 - i],
                    i,
                    enabled,
                )
        }),
{
}

/// The panel is there until the dialog is closed. It shows the form, the confirmation or the
/// outcome, whichever it is time for, with the notice and the progress.
pub proof fn law_the_panel_follows_the_state(d: DialogView)
    ensures
        ({
            let shown = panel::panel_of(d);
            let outcome = d.state is Acknowledged || d.state is Uncertain;
            &&& shown is Some <==> !d.closed
            &&& shown matches Some(p) ==> {
                &&& p.form is Some <==> !(d.state is Confirmation) && !outcome
                &&& p.form matches Some(f) ==> f == panel::form_panel_of(d)
                &&& p.confirmation is Some <==> d.state is Confirmation && d.frozen is Some
                &&& p.confirmation matches Some(c) ==> c == panel::confirmation_panel_of(
                    d.frozen->0,
                    d.details_disclosed,
                )
                &&& d.state matches DialogStateView::Acknowledged(a) ==> p.created == Some(
                    panel::created_panel_of(a),
                )
                &&& !(d.state is Acknowledged) ==> p.created is None
                &&& d.state matches DialogStateView::Uncertain(reason) ==> (
                p.unresolved matches Some(u) && u.reason == reason)
                &&& !(d.state is Uncertain) ==> p.unresolved is None
                &&& p.notice == d.notice
                &&& p.notice_is_error == (d.state is Uncertain)
                &&& p.close_enabled == !dialog::is_busy(d.state)
                &&& p.progress is Some <==> dialog::is_busy(d.state)
            }
        }),
{
}

/// What can be pressed: leaving unless work is pending, preparing while editing with a store, and
/// creating from a confirmation; nothing once there is an outcome.
pub proof fn law_buttons_follow_the_state(d: DialogView)
    ensures
        ({
            let b = panel::buttons_of(d);
            let outcome = d.state is Acknowledged || d.state is Uncertain;
            &&& outcome ==> b.len() == 0
            &&& !outcome ==> b.len() >= 1 && b[0].id == "cancel-pr-creation"@ && b[0].enabled
                == !dialog::is_busy(d.state)
            &&& d.state is Editing ==> b.len() == 2 && b[1].id == "prepare-pr-creation"@
                && b[1].enabled == (d.store is Some) && b[0].label == "Close"@
            &&& d.state is Confirmation ==> b.len() == 2 && b[1].id == "confirm-pr-creation"@
                && b[1].enabled && b[0].label == "Cancel confirmation"@
            &&& !outcome && !(d.state is Editing) && !(d.state is Confirmation) ==> b.len() == 1
        }),
{
}

} // verus!

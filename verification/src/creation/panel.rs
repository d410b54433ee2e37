//! What the dialog that creates a pull request shows.

use vstd::prelude::*;
use vstd::string::*;

use crate::creation::dialog;
use crate::creation::dialog::{
    DialogState, DialogStateView, DialogView, FrozenCreation, FrozenCreationView,
    PrCreationDialog, ProviderChoiceSet,
};
use crate::creation::form::{
    PullRequestCreationAcknowledgement, PullRequestCreationAcknowledgementView,
};
use crate::creation::journal;
use crate::creation::journal::{AttemptSummary, AttemptSummaryView};
use crate::domain;
use crate::domain::Repository;
use crate::text;

verus! {

/// The number of branches that are offered as buttons.
pub const LISTED_BRANCHES: usize = 24;

/// A button that chooses something.
#[derive(Debug, PartialEq, Eq)]
pub struct Choice {
    pub id: String,
    pub label: String,
    pub selected: bool,
    pub enabled: bool,
}

#[verifier::ext_equal]
pub struct ChoiceView {
    pub id: Seq<char>,
    pub label: Seq<char>,
    pub selected: bool,
    pub enabled: bool,
}

impl View for Choice {
    type V = ChoiceView;

    open spec fn view(&self) -> ChoiceView {
        ChoiceView {
            id: self.id@,
            label: self.label@,
            selected: self.selected,
            enabled: self.enabled,
        }
    }
}

/// The published branches that are offered.
#[derive(Debug, PartialEq, Eq)]
pub struct BranchPanel {
    pub choices: Vec<Choice>,
    pub truncated: Option<String>,
    pub incomplete: Option<String>,
}

#[verifier::ext_equal]
pub struct BranchPanelView {
    pub choices: Seq<ChoiceView>,
    pub truncated: Option<Seq<char>>,
    pub incomplete: Option<Seq<char>>,
}

impl View for BranchPanel {
    type V = BranchPanelView;

    open spec fn view(&self) -> BranchPanelView {
        BranchPanelView {
            choices: self.choices@.map_values(|x: Choice| x@),
            truncated: text::option_text(self.truncated),
            incomplete: text::option_text(self.incomplete),
        }
    }
}

/// The form.
#[derive(Debug, PartialEq, Eq)]
pub struct FormPanel {
    pub inert: bool,
    pub target_heading: String,
    pub base_label: String,
    pub base_placeholder: String,
    pub source_heading: String,
    pub source_label: String,
    pub source_placeholder: String,
    pub local_label: String,
    pub local_placeholder: String,
    pub title_label: String,
    pub title_placeholder: String,
    pub body_label: String,
    pub body_placeholder: String,
    pub target_repositories: Vec<Choice>,
    pub target_branches: BranchPanel,
    pub source_repositories: Vec<Choice>,
    pub source_branches: BranchPanel,
    pub draft_label: String,
    pub loading: Option<String>,
    pub notice: Option<String>,
}

#[verifier::ext_equal]
pub struct FormPanelView {
    pub inert: bool,
    pub target_heading: Seq<char>,
    pub base_label: Seq<char>,
    pub base_placeholder: Seq<char>,
    pub source_heading: Seq<char>,
    pub source_label: Seq<char>,
    pub source_placeholder: Seq<char>,
    pub local_label: Seq<char>,
    pub local_placeholder: Seq<char>,
    pub title_label: Seq<char>,
    pub title_placeholder: Seq<char>,
    pub body_label: Seq<char>,
    pub body_placeholder: Seq<char>,
    pub target_repositories: Seq<ChoiceView>,
    pub target_branches: BranchPanelView,
    pub source_repositories: Seq<ChoiceView>,
    pub source_branches: BranchPanelView,
    pub draft_label: Seq<char>,
    pub loading: Option<Seq<char>>,
    pub notice: Option<Seq<char>>,
}

impl View for FormPanel {
    type V = FormPanelView;

    open spec fn view(&self) -> FormPanelView {
        FormPanelView {
            inert: self.inert,
            target_heading: self.target_heading@,
            base_label: self.base_label@,
            base_placeholder: self.base_placeholder@,
            source_heading: self.source_heading@,
            source_label: self.source_label@,
            source_placeholder: self.source_placeholder@,
            local_label: self.local_label@,
            local_placeholder: self.local_placeholder@,
            title_label: self.title_label@,
            title_placeholder: self.title_placeholder@,
            body_label: self.body_label@,
            body_placeholder: self.body_placeholder@,
            target_repositories: self.target_repositories@.map_values(|x: Choice| x@),
            target_branches: self.target_branches@,
            source_repositories: self.source_repositories@.map_values(|x: Choice| x@),
            source_branches: self.source_branches@,
            draft_label: self.draft_label@,
            loading: text::option_text(self.loading),
            notice: text::option_text(self.notice),
        }
    }
}

/// The confirmation of a creation.
#[derive(Debug, PartialEq, Eq)]
pub struct ConfirmationPanel {
    pub heading: String,
    pub route: String,
    pub account: String,
    pub title: String,
    pub warning: String,
    pub disclosure_label: String,
    pub details: Option<String>,
}

#[verifier::ext_equal]
pub struct ConfirmationPanelView {
    pub heading: Seq<char>,
    pub route: Seq<char>,
    pub account: Seq<char>,
    pub title: Seq<char>,
    pub warning: Seq<char>,
    pub disclosure_label: Seq<char>,
    pub details: Option<Seq<char>>,
}

impl View for ConfirmationPanel {
    type V = ConfirmationPanelView;

    open spec fn view(&self) -> ConfirmationPanelView {
        ConfirmationPanelView {
            heading: self.heading@,
            route: self.route@,
            account: self.account@,
            title: self.title@,
            warning: self.warning@,
            disclosure_label: self.disclosure_label@,
            details: text::option_text(self.details),
        }
    }
}

/// A creation that was acknowledged.
#[derive(Debug, PartialEq, Eq)]
pub struct CreatedPanel {
    pub heading: String,
    pub url: String,
    pub actual: String,
    pub reviewed: String,
    pub moved: Option<String>,
    pub open: Choice,
}

#[verifier::ext_equal]
pub struct CreatedPanelView {
    pub heading: Seq<char>,
    pub url: Seq<char>,
    pub actual: Seq<char>,
    pub reviewed: Seq<char>,
    pub moved: Option<Seq<char>>,
    pub open: ChoiceView,
}

impl View for CreatedPanel {
    type V = CreatedPanelView;

    open spec fn view(&self) -> CreatedPanelView {
        CreatedPanelView {
            heading: self.heading@,
            url: self.url@,
            actual: self.actual@,
            reviewed: self.reviewed@,
            moved: text::option_text(self.moved),
            open: self.open@,
        }
    }
}

/// A creation whose outcome is unknown.
#[derive(Debug, PartialEq, Eq)]
pub struct UnresolvedPanel {
    pub heading: String,
    pub reason: String,
    pub advice: String,
}

#[verifier::ext_equal]
pub struct UnresolvedPanelView {
    pub heading: Seq<char>,
    pub reason: Seq<char>,
    pub advice: Seq<char>,
}

impl View for UnresolvedPanel {
    type V = UnresolvedPanelView;

    open spec fn view(&self) -> UnresolvedPanelView {
        UnresolvedPanelView {
            heading: self.heading@,
            reason: self.reason@,
            advice: self.advice@,
        }
    }
}

/// One recorded attempt.
#[derive(Debug, PartialEq, Eq)]
pub struct AttemptCard {
    pub route: String,
    pub status: String,
    pub line: String,
    pub authority: String,
    pub unresolved: bool,
    pub open: Option<Choice>,
}

#[verifier::ext_equal]
pub struct AttemptCardView {
    pub route: Seq<char>,
    pub status: Seq<char>,
    pub line: Seq<char>,
    pub authority: Seq<char>,
    pub unresolved: bool,
    pub open: Option<ChoiceView>,
}

impl View for AttemptCard {
    type V = AttemptCardView;

    open spec fn view(&self) -> AttemptCardView {
        AttemptCardView {
            route: self.route@,
            status: self.status@,
            line: self.line@,
            authority: self.authority@,
            unresolved: self.unresolved,
            open: match self.open {
                Some(x) => Some(x@),
                None => None,
            },
        }
    }
}

/// The recorded attempts.
#[derive(Debug, PartialEq, Eq)]
pub struct AttemptsPanel {
    pub label: String,
    pub cards: Vec<AttemptCard>,
}

#[verifier::ext_equal]
pub struct AttemptsPanelView {
    pub label: Seq<char>,
    pub cards: Seq<AttemptCardView>,
}

impl View for AttemptsPanel {
    type V = AttemptsPanelView;

    open spec fn view(&self) -> AttemptsPanelView {
        AttemptsPanelView {
            label: self.label@,
            cards: self.cards@.map_values(|x: AttemptCard| x@),
        }
    }
}

/// The whole dialog.
#[derive(Debug, PartialEq, Eq)]
pub struct DialogPanel {
    pub heading: String,
    pub about: String,
    pub close_enabled: bool,
    pub form: Option<FormPanel>,
    pub confirmation: Option<ConfirmationPanel>,
    pub created: Option<CreatedPanel>,
    pub unresolved: Option<UnresolvedPanel>,
    pub notice: Option<String>,
    pub notice_is_error: bool,
    pub progress: Option<String>,
    pub buttons: Vec<Choice>,
    pub attempts: AttemptsPanel,
}

#[verifier::ext_equal]
pub struct DialogPanelView {
    pub heading: Seq<char>,
    pub about: Seq<char>,
    pub close_enabled: bool,
    pub form: Option<FormPanelView>,
    pub confirmation: Option<ConfirmationPanelView>,
    pub created: Option<CreatedPanelView>,
    pub unresolved: Option<UnresolvedPanelView>,
    pub notice: Option<Seq<char>>,
    pub notice_is_error: bool,
    pub progress: Option<Seq<char>>,
    pub buttons: Seq<ChoiceView>,
    pub attempts: AttemptsPanelView,
}

impl View for DialogPanel {
    type V = DialogPanelView;

    open spec fn view(&self) -> DialogPanelView {
        DialogPanelView {
            heading: self.heading@,
            about: self.about@,
            close_enabled: self.close_enabled,
            form: match self.form {
                Some(x) => Some(x@),
                None => None,
            },
            confirmation: match self.confirmation {
                Some(x) => Some(x@),
                None => None,
            },
            created: match self.created {
                Some(x) => Some(x@),
                None => None,
            },
            unresolved: match self.unresolved {
                Some(x) => Some(x@),
                None => None,
            },
            notice: text::option_text(self.notice),
            notice_is_error: self.notice_is_error,
            progress: text::option_text(self.progress),
            buttons: self.buttons@.map_values(|x: Choice| x@),
            attempts: self.attempts@,
        }
    }
}

pub open spec fn bool_of(b: bool) -> Seq<char> {
    if b {
        "true"@
    } else {
        "false"@
    }
}

fn bool_text(b: bool) -> (r: &'static str)
    ensures
        r@ == bool_of(b),
{
    if b {
        "true"
    } else {
        "false"
    }
}

// ---------------------------------------------------------------------------
// The form

pub open spec fn repository_choice_of(
    repositories: Seq<Repository>,
    target: bool,
    selected: usize,
    inert: bool,
    index: int,
) -> ChoiceView {
    ChoiceView {
        id: "creation-repository-"@ + bool_of(target) + "-"@ + text::decimal(index as nat),
        label: domain::full_name_of(
            repositories[index].owner@,
            repositories[index].name@,
        ) + " · "@
            + repositories[index].account.login@,
        selected: selected == index,
        enabled: !inert,
    }
}

pub open spec fn repository_choices_of(
    repositories: Seq<Repository>,
    target: bool,
    selected: usize,
    inert: bool,
) -> Seq<ChoiceView> {
    Seq::new(
        repositories.len(),
        |i: int| repository_choice_of(repositories, target, selected, inert, i),
    )
}

pub open spec fn choice_views(s: Seq<Choice>) -> Seq<ChoiceView> {
    s.map_values(|x: Choice| x@)
}

pub fn repository_choices(
    repositories: &Vec<Repository>,
    target: bool,
    selected: usize,
    inert: bool,
) -> (r: Vec<Choice>)
    ensures
        choice_views(r@) == repository_choices_of(repositories@, target, selected, inert),
{
    let mut out: Vec<Choice> = Vec::new();
    let mut i: usize = 0;
    while i < repositories.len()
        invariant
            i <= repositories@.len(),
            out@.len() == i,
            forall|k: int|
                0 <= k < i ==> (#[trigger] out@[k])@ == repository_choice_of(
                    repositories@,
                    target,
                    selected,
                    inert,
                    k,
                ),
        decreases repositories.len() - i,
    {
        let repository = &repositories[i];
        let mut id: String = "creation-repository-".to_owned();
        id.append(bool_text(target));
        id.append("-");
        id.append(&text::decimal_of_usize(i));
        let mut label: String = repository.full_name();
        label.append(" · ");
        label.append(&repository.account.login);
        out.push(Choice { id, label, selected: selected == i, enabled: !inert });
        i += 1;
    }
    proof {
        assert(choice_views(out@) =~= repository_choices_of(
            repositories@,
            target,
            selected,
            inert,
        ));
    }
    out
}

pub open spec fn listed_branches(count: nat) -> nat {
    if count < LISTED_BRANCHES {
        count
    } else {
        LISTED_BRANCHES as nat
    }
}

pub open spec fn branch_choice_of(
    prefix: Seq<char>,
    choices: ProviderChoiceSet,
    inert: bool,
    index: int,
) -> ChoiceView {
    ChoiceView {
        id: "creation-"@ + prefix + "-branch-"@ + text::decimal(index as nat),
        label: choices.values@[index].name@,
        selected: false,
        enabled: !inert,
    }
}

pub open spec fn branch_panel_of(
    prefix: Seq<char>,
    choices: Option<ProviderChoiceSet>,
    inert: bool,
) -> BranchPanelView {
    match choices {
        None => BranchPanelView { choices: Seq::empty(), truncated: None, incomplete: None },
        Some(set) => BranchPanelView {
            choices: Seq::new(
                listed_branches(set.values@.len()),
                |i: int| branch_choice_of(prefix, set, inert, i),
            ),
            truncated: if set.values@.len() > LISTED_BRANCHES {
                Some(
                    "Showing 24 of "@ + text::decimal(set.values@.len())
                        + " bounded branch choices. Type an exact published branch to use a value outside this viewport."@,
                )
            } else {
                None
            },
            incomplete: if set.complete {
                None
            } else {
                Some(
                    match set.notice {
                        Some(n) => n@,
                        None => "Branch choices are incomplete; typed values still require provider verification."@,
                    },
                )
            },
        },
    }
}

pub fn branch_choices(
    prefix: &str,
    choices: &Option<ProviderChoiceSet>,
    inert: bool,
) -> (r: BranchPanel)
    ensures
        r@ == branch_panel_of(prefix@, *choices, inert),
{
    match choices {
        None => {
            let r = BranchPanel { choices: Vec::new(), truncated: None, incomplete: None };
            proof {
                assert(r@ =~= branch_panel_of(prefix@, *choices, inert));
            }
            r
        },
        Some(set) => {
            let mut out: Vec<Choice> = Vec::new();
            let mut i: usize = 0;
            while i < set.values.len() && i < LISTED_BRANCHES
                invariant
                    i <= listed_branches(set.values@.len()),
                    out@.len() == i,
                    forall|k: int|
                        0 <= k < i ==> (#[trigger] out@[k])@ == branch_choice_of(
                            prefix@,
                            *set,
                            inert,
                            k,
                        ),
                decreases set.values.len() - i,
            {
                let mut id: String = "creation-".to_owned();
                id.append(prefix);
                id.append("-branch-");
                id.append(&text::decimal_of_usize(i));
                let label = set.values[i].name.clone();
                out.push(Choice { id, label, selected: false, enabled: !inert });
                i += 1;
            }
            let truncated: Option<String> = if set.values.len() > LISTED_BRANCHES {
                let mut s: String = "Showing 24 of ".to_owned();
                s.append(&text::decimal_of_usize(set.values.len()));
                s.append(
                    " bounded branch choices. Type an exact published branch to use a value outside this viewport.",
                );
                Some(s)
            } else {
                None
            };
            let incomplete: Option<String> = if set.complete {
                None
            } else {
                match &set.notice {
                    Some(n) => Some(n.clone()),
                    None => Some(
                        "Branch choices are incomplete; typed values still require provider verification.".to_owned(),
                    ),
                }
            };
            let r = BranchPanel { choices: out, truncated, incomplete };
            proof {
                assert(r@.choices =~= branch_panel_of(prefix@, *choices, inert).choices);
                assert(r@ =~= branch_panel_of(prefix@, *choices, inert));
            }
            r
        },
    }
}

/// Whether the form takes no choices now.
pub open spec fn is_inert(d: DialogView) -> bool {
    d.close_after_save || d.prepare_queued is Some || dialog::is_busy(d.state)
        || d.state is Unavailable || d.state is Confirmation
}

pub open spec fn form_panel_of(d: DialogView) -> FormPanelView {
    let inert = is_inert(d);
    FormPanelView {
        inert,
        target_heading: "Target repository + account"@,
        base_label: "Target base branch"@,
        base_placeholder: "Published target branch"@,
        source_heading: "Published source repository"@,
        source_label: "Published source branch"@,
        source_placeholder: "Published source branch"@,
        local_label: "Local branch · informational only"@,
        local_placeholder: "Local branch (informational)"@,
        title_label: "Title"@,
        title_placeholder: "Pull request title"@,
        body_label: "Description · Markdown"@,
        body_placeholder: "Description (Markdown)"@,
        target_repositories: repository_choices_of(d.repositories, true, d.target_index, inert),
        target_branches: branch_panel_of("target"@, d.target_choices, inert),
        source_repositories: repository_choices_of(d.repositories, false, d.source_index, inert),
        source_branches: branch_panel_of("source"@, d.source_choices, inert),
        draft_label: if d.draft {
            "● Draft PR"@
        } else {
            "○ Normal PR"@
        },
        loading: if d.choices_loading {
            Some("Loading bounded published branch choices…"@)
        } else {
            None
        },
        notice: d.choices_notice,
    }
}

pub fn render_form(d: &PrCreationDialog) -> (r: FormPanel)
    ensures
        r@ == form_panel_of(d@),
{
    let inert: bool = d.close_after_save || d.prepare_queued.is_some() || d.state.busy()
        || d.state.is_unavailable() || d.state.is_confirmation();
    let loading: Option<String> = if d.choices.loading {
        Some("Loading bounded published branch choices…".to_owned())
    } else {
        None
    };
    let draft_label: String = if d.draft {
        "● Draft PR".to_owned()
    } else {
        "○ Normal PR".to_owned()
    };
    let r = FormPanel {
        inert,
        target_heading: "Target repository + account".to_owned(),
        base_label: "Target base branch".to_owned(),
        base_placeholder: "Published target branch".to_owned(),
        source_heading: "Published source repository".to_owned(),
        source_label: "Published source branch".to_owned(),
        source_placeholder: "Published source branch".to_owned(),
        local_label: "Local branch · informational only".to_owned(),
        local_placeholder: "Local branch (informational)".to_owned(),
        title_label: "Title".to_owned(),
        title_placeholder: "Pull request title".to_owned(),
        body_label: "Description · Markdown".to_owned(),
        body_placeholder: "Description (Markdown)".to_owned(),
        target_repositories: repository_choices(&d.repositories, true, d.target_index, inert),
        target_branches: branch_choices("target", &d.choices.target, inert),
        source_repositories: repository_choices(&d.repositories, false, d.source_index, inert),
        source_branches: branch_choices("source", &d.choices.source, inert),
        draft_label,
        loading,
        notice: d.choices.notice.clone(),
    };
    proof {
        assert(r@ =~= form_panel_of(d@));
    }
    r
}

// ---------------------------------------------------------------------------
// Confirmation and outcome

pub open spec fn confirmation_panel_of(
    frozen: FrozenCreationView,
    details_disclosed: bool,
) -> ConfirmationPanelView {
    let preparation = frozen.request.preparation;
    let input = preparation.input;
    ConfirmationPanelView {
        heading: "Confirm immutable PR creation"@,
        warning: "GitHub cannot atomically require the reviewed source head during creation. The source is re-read under durable admission; the acknowledgement will show actual and reviewed heads separately."@,
        route: domain::full_name_of(
            input.source_repository.owner,
            input.source_repository.name,
        ) + ":"@ + input.source_branch + "  →  "@
            + domain::full_name_of(
            input.target_repository.owner,
            input.target_repository.name,
        ) + ":"@ + input.base_branch,
        account: "Account "@ + preparation.viewer_login + " · "@ + (if input.draft {
            "draft"@
        } else {
            "normal"@
        }),
        title: input.title,
        disclosure_label: if details_disclosed {
            "Hide full request details"@
        } else {
            "Show full request details"@
        },
        details: if details_disclosed {
            Some(dialog::details_of(frozen))
        } else {
            None
        },
    }
}

pub fn render_confirmation(frozen: &FrozenCreation, details_disclosed: bool) -> (r:
    ConfirmationPanel)
    ensures
        r@ == confirmation_panel_of(frozen@, details_disclosed),
{
    let preparation = &frozen.request.preparation;
    let input = &preparation.input;
    let mut route: String = input.source_repository.full_name();
    route.append(":");
    route.append(&input.source_branch);
    route.append("  →  ");
    route.append(&input.target_repository.full_name());
    route.append(":");
    route.append(&input.base_branch);
    let mut account: String = "Account ".to_owned();
    account.append(&preparation.viewer_login);
    account.append(" · ");
    if input.draft {
        account.append("draft");
    } else {
        account.append("normal");
    }
    let disclosure_label: String = if details_disclosed {
        "Hide full request details".to_owned()
    } else {
        "Show full request details".to_owned()
    };
    let details: Option<String> = if details_disclosed {
        Some(dialog::confirmation_details(frozen))
    } else {
        None
    };
    ConfirmationPanel {
        heading: "Confirm immutable PR creation".to_owned(),
        route,
        account,
        title: input.title.clone(),
        warning: "GitHub cannot atomically require the reviewed source head during creation. The source is re-read under durable admission; the acknowledgement will show actual and reviewed heads separately.".to_owned(),
        disclosure_label,
        details,
    }
}

pub open spec fn created_panel_of(a: PullRequestCreationAcknowledgementView) -> CreatedPanelView {
    CreatedPanelView {
        heading: "Created #"@ + text::decimal(a.pull_request.pull_request as nat),
        url: a.url,
        actual: "Actual created head: "@ + a.actual_head_sha,
        reviewed: "Reviewed preparation head: "@ + a.reviewed_head_sha,
        moved: if a.actual_head_sha == a.reviewed_head_sha {
            None
        } else {
            Some(
                "The published head moved during GitHub creation. Actual is not relabeled as reviewed."@,
            )
        },
        open: ChoiceView {
            id: "open-created-pr"@,
            label: "Open PR"@,
            selected: false,
            enabled: true,
        },
    }
}

pub fn render_created(a: &PullRequestCreationAcknowledgement) -> (r: CreatedPanel)
    ensures
        r@ == created_panel_of(a@),
{
    let mut heading: String = "Created #".to_owned();
    heading.append(&text::decimal_text(a.pull_request.pull_request));
    let mut actual: String = "Actual created head: ".to_owned();
    actual.append(&a.actual_head_sha);
    let mut reviewed: String = "Reviewed preparation head: ".to_owned();
    reviewed.append(&a.reviewed_head_sha);
    let moved: Option<String> = if a.actual_head_sha == a.reviewed_head_sha {
        None
    } else {
        Some(
            "The published head moved during GitHub creation. Actual is not relabeled as reviewed.".to_owned(),
        )
    };
    let open = Choice {
        id: "open-created-pr".to_owned(),
        label: "Open PR".to_owned(),
        selected: false,
        enabled: true,
    };
    CreatedPanel { heading, url: a.url.clone(), actual, reviewed, moved, open }
}

pub open spec fn unresolved_panel_of(reason: Seq<char>) -> UnresolvedPanelView {
    UnresolvedPanelView {
        heading: "Creation outcome unresolved"@,
        reason,
        advice: "The exact request/context is durable. Do not retry: an unknown ID, lost reply, or terminal-save failure cannot be resolved by body search, branch-only adoption, or absence."@,
    }
}

// ---------------------------------------------------------------------------
// Recorded attempts

pub open spec fn unresolved_count(attempts: Seq<AttemptSummaryView>) -> nat
    decreases attempts.len(),
{
    if attempts.len() == 0 {
        0
    } else {
        unresolved_count(attempts.drop_last()) + if attempts.last().unresolved {
            1nat
        } else {
            0nat
        }
    }
}

/// The card of an attempt, `index` counted from the last one.
pub open spec fn card_of(a: AttemptSummaryView, index: int, enabled: bool) -> AttemptCardView {
    AttemptCardView {
        route: a.source + " → "@ + a.target,
        status: a.status,
        line: a.operation_id + " / "@ + a.attempt_id + " · reviewed "@ + a.reviewed_head + " · "@
            + a.title,
        authority: a.authority,
        unresolved: a.unresolved,
        open: match a.acknowledgement {
            Some(_) => Some(
                ChoiceView {
                    id: "open-durable-created-pr-"@ + text::decimal(index as nat),
                    label: "Open this exact PR"@,
                    selected: false,
                    enabled,
                },
            ),
            None => None,
        },
    }
}

pub open spec fn attempts_panel_of(
    attempts: Seq<AttemptSummaryView>,
    disclosed: bool,
    enabled: bool,
) -> AttemptsPanelView {
    AttemptsPanelView {
        label: text::decimal(attempts.len()) + " recovery records · "@ + text::decimal(
            unresolved_count(attempts),
        ) + " unresolved"@,
        cards: if disclosed {
            Seq::new(
                attempts.len(),
                |i: int| card_of(attempts[attempts.len() - 1 - i], i, enabled),
            )
        } else {
            Seq::empty()
        },
    }
}

fn render_card(a: &AttemptSummary, index: usize, enabled: bool) -> (r: AttemptCard)
    ensures
        r@ == card_of(a@, index as int, enabled),
{
    let mut route: String = a.source.clone();
    route.append(" → ");
    route.append(&a.target);
    let mut line: String = a.operation_id.clone();
    line.append(" / ");
    line.append(&a.attempt_id);
    line.append(" · reviewed ");
    line.append(&a.reviewed_head);
    line.append(" · ");
    line.append(&a.title);
    let open: Option<Choice> = match &a.acknowledgement {
        Some(_) => {
            let mut id: String = "open-durable-created-pr-".to_owned();
            id.append(&text::decimal_of_usize(index));
            Some(Choice { id, label: "Open this exact PR".to_owned(), selected: false, enabled })
        },
        None => None,
    };
    AttemptCard {
        route,
        status: a.status.clone(),
        line,
        authority: a.authority.clone(),
        unresolved: a.unresolved,
        open,
    }
}

fn count_unresolved(attempts: &Vec<AttemptSummary>) -> (r: usize)
    ensures
        r == unresolved_count(journal::summary_views(attempts@)),
{
    let ghost all = journal::summary_views(attempts@);
    let mut n: usize = 0;
    let mut i: usize = 0;
    while i < attempts.len()
        invariant
            all == journal::summary_views(attempts@),
            i <= attempts@.len(),
            n <= i,
            n == unresolved_count(all.take(i as int)),
        decreases attempts.len() - i,
    {
        proof {
            assert(all.take(i + 1).drop_last() =~= all.take(i as int));
            assert(all.take(i + 1).last() == attempts@[i as int]@);
        }
        if attempts[i].unresolved {
            n += 1;
        }
        i += 1;
    }
    proof {
        assert(all.take(i as int) =~= all);
    }
    n
}

pub fn render_attempts(attempts: &Vec<AttemptSummary>, disclosed: bool, enabled: bool) -> (r:
    AttemptsPanel)
    ensures
        r@ == attempts_panel_of(journal::summary_views(attempts@), disclosed, enabled),
{
    let ghost all = journal::summary_views(attempts@);
    let mut label: String = text::decimal_of_usize(attempts.len());
    label.append(" recovery records · ");
    label.append(&text::decimal_of_usize(count_unresolved(attempts)));
    label.append(" unresolved");
    let mut cards: Vec<AttemptCard> = Vec::new();
    if disclosed {
        let mut i: usize = 0;
        while i < attempts.len()
            invariant
                all == journal::summary_views(attempts@),
                i <= attempts@.len(),
                cards@.len() == i,
                forall|k: int|
                    0 <= k < i ==> (#[trigger] cards@[k])@ == card_of(
                        all[all.len() - 1 - k],
                        k,
                        enabled,
                    ),
            decreases attempts.len() - i,
        {
            let at: usize = attempts.len() - 1 - i;
            cards.push(render_card(&attempts[at], i, enabled));
            i += 1;
        }
    }
    let r = AttemptsPanel { label, cards };
    proof {
        assert(r@.cards =~= attempts_panel_of(all, disclosed, enabled).cards);
        assert(r@ =~= attempts_panel_of(all, disclosed, enabled));
    }
    r
}

// ---------------------------------------------------------------------------
// The whole dialog

pub open spec fn progress_of(state: DialogStateView) -> Option<Seq<char>> {
    match state {
        DialogStateView::Preparing => Some("Preparing with fresh read-only provider state…"@),
        DialogStateView::Creating => Some(
            "Creation admitted durably; waiting for the single provider result…"@,
        ),
        DialogStateView::Loading => Some("Loading durable creation draft and recovery records…"@),
        _ => None,
    }
}

fn render_progress(state: &DialogState) -> (r: Option<String>)
    ensures
        text::option_text(r) == progress_of(state@),
{
    match state {
        DialogState::Preparing => Some(
            "Preparing with fresh read-only provider state…".to_owned(),
        ),
        DialogState::Creating => Some(
            "Creation admitted durably; waiting for the single provider result…".to_owned(),
        ),
        DialogState::Loading => Some(
            "Loading durable creation draft and recovery records…".to_owned(),
        ),
        _ => None,
    }
}

pub open spec fn has_outcome(state: DialogStateView) -> bool {
    state is Acknowledged || state is Uncertain
}

pub open spec fn buttons_of(d: DialogView) -> Seq<ChoiceView> {
    let leave = ChoiceView {
        id: "cancel-pr-creation"@,
        label: if d.state is Confirmation {
            "Cancel confirmation"@
        } else {
            "Close"@
        },
        selected: false,
        enabled: !dialog::is_busy(d.state),
    };
    if has_outcome(d.state) {
        Seq::empty()
    } else if d.state is Editing {
        seq![
            leave,
            ChoiceView {
                id: "prepare-pr-creation"@,
                label: "Prepare creation…"@,
                selected: false,
                enabled: d.store is Some,
            },
        ]
    } else if d.state is Confirmation {
        seq![
            leave,
            ChoiceView {
                id: "confirm-pr-creation"@,
                label: "Create pull request"@,
                selected: false,
                enabled: true,
            },
        ]
    } else {
        seq![leave]
    }
}

fn render_buttons(d: &PrCreationDialog, outcome: bool) -> (r: Vec<Choice>)
    requires
        outcome == has_outcome(d@.state),
    ensures
        choice_views(r@) == buttons_of(d@),
{
    let mut out: Vec<Choice> = Vec::new();
    if !outcome {
        let confirmation: bool = d.state.is_confirmation();
        let label: String = if confirmation {
            "Cancel confirmation".to_owned()
        } else {
            "Close".to_owned()
        };
        out.push(
            Choice {
                id: "cancel-pr-creation".to_owned(),
                label,
                selected: false,
                enabled: !d.state.busy(),
            },
        );
        if d.state.is_editing() {
            out.push(
                Choice {
                    id: "prepare-pr-creation".to_owned(),
                    label: "Prepare creation…".to_owned(),
                    selected: false,
                    enabled: d.store.is_some(),
                },
            );
        }
        if confirmation {
            out.push(
                Choice {
                    id: "confirm-pr-creation".to_owned(),
                    label: "Create pull request".to_owned(),
                    selected: false,
                    enabled: true,
                },
            );
        }
    }
    proof {
        assert(choice_views(out@) =~= buttons_of(d@));
    }
    out
}

pub open spec fn panel_of(d: DialogView) -> Option<DialogPanelView> {
    if d.closed {
        None
    } else {
        Some(
            DialogPanelView {
                heading: "Create pull request"@,
                about: "Published branch only · no automatic push · explicit immutable confirmation"@,
                close_enabled: !dialog::is_busy(d.state),
                form: if d.state is Confirmation || has_outcome(d.state) {
                    None
                } else {
                    Some(form_panel_of(d))
                },
                confirmation: if d.state is Confirmation && d.frozen is Some {
                    Some(confirmation_panel_of(d.frozen->0, d.details_disclosed))
                } else {
                    None
                },
                created: match d.state {
                    DialogStateView::Acknowledged(a) => Some(created_panel_of(a)),
                    _ => None,
                },
                unresolved: match d.state {
                    DialogStateView::Uncertain(reason) => Some(unresolved_panel_of(reason)),
                    _ => None,
                },
                notice: d.notice,
                notice_is_error: d.state is Uncertain,
                progress: progress_of(d.state),
                buttons: buttons_of(d),
                attempts: attempts_panel_of(
                    d.attempts,
                    d.attempts_disclosed,
                    !dialog::is_busy(d.state) && !d.close_after_save,
                ),
            },
        )
    }
}

pub open spec fn optional_panel(p: Option<DialogPanel>) -> Option<DialogPanelView> {
    match p {
        Some(x) => Some(x@),
        None => None,
    }
}

/// What the dialog shows; nothing once it is closed.
pub fn render(d: &PrCreationDialog) -> (r: Option<DialogPanel>)
    ensures
        optional_panel(r) == panel_of(d@),
{
    if d.closed {
        return None;
    }
    let confirmation: bool = d.state.is_confirmation();
    let mut created: Option<CreatedPanel> = None;
    let mut unresolved: Option<UnresolvedPanel> = None;
    match &d.state {
        DialogState::Acknowledged(a) => {
            created = Some(render_created(a));
        },
        DialogState::Uncertain(reason) => {
            unresolved = Some(
                UnresolvedPanel {
                    heading: "Creation outcome unresolved".to_owned(),
                    reason: reason.clone(),
                    advice: "The exact request/context is durable. Do not retry: an unknown ID, lost reply, or terminal-save failure cannot be resolved by body search, branch-only adoption, or absence.".to_owned(),
                },
            );
        },
        _ => {},
    }
    let notice_is_error: bool = unresolved.is_some();
    let outcome: bool = created.is_some() || unresolved.is_some();
    let form: Option<FormPanel> = if confirmation || outcome {
        None
    } else {
        Some(render_form(d))
    };
    let mut shown: Option<ConfirmationPanel> = None;
    if confirmation {
        if let Some(frozen) = &d.frozen {
            shown = Some(render_confirmation(frozen, d.details_disclosed));
        }
    }
    let attempts = render_attempts(
        &d.attempts,
        d.attempts_disclosed,
        !d.state.busy() && !d.close_after_save,
    );
    let buttons = render_buttons(d, outcome);
    let r = DialogPanel {
        heading: "Create pull request".to_owned(),
        about: "Published branch only · no automatic push · explicit immutable confirmation".to_owned(),
        close_enabled: !d.state.busy(),
        form,
        confirmation: shown,
        created,
        unresolved,
        notice: d.notice.clone(),
        notice_is_error,
        progress: render_progress(&d.state),
        buttons,
        attempts,
    };
    proof {
        assert(r@ =~= panel_of(d@)->0);
    }
    Some(r)
}

// ---------------------------------------------------------------------------
// Laws

/// The form takes choices exactly when the dialog would act on them, and a creation can be
/// confirmed from the panel exactly in a confirmation.
pub proof fn law_the_panel_offers_what_the_dialog_takes(d: DialogView)
    requires
        !d.closed,
    ensures
        is_inert(d) == !dialog::can_choose(d),
        (exists|i: int|
            0 <= i < buttons_of(d).len() && (#[trigger] buttons_of(d)[i]).id
                == "confirm-pr-creation"@) == (d.state is Confirmation),
{
    reveal_strlit("confirm-pr-creation");
    reveal_strlit("cancel-pr-creation");
    reveal_strlit("prepare-pr-creation");
    assert("confirm-pr-creation"@.len() != "cancel-pr-creation"@.len());
    assert("confirm-pr-creation"@[0] != "prepare-pr-creation"@[0]);
    if d.state is Confirmation {
        assert(buttons_of(d)[1].id == "confirm-pr-creation"@);
    }
}

} // verus!

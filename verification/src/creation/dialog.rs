//! The dialog that creates a pull request, as a state machine. What it asks of the world are
//! its effects; what comes back are the calls whose names begin with `complete`.

use vstd::prelude::*;
use vstd::string::*;

use crate::creation::form;
use crate::creation::form::{
    CreationForm, CreationFormView, DraftOwner, DraftRecord, DraftRecordView, DraftSaveLane,
    DraftSaveLaneView, DraftSnapshot, DraftSnapshotView, ProviderCoordinates,
    ProviderCoordinatesView, PullRequestCreationAcknowledgement,
    PullRequestCreationAcknowledgementView, PullRequestCreationPreparation,
    PullRequestCreationRequest, PullRequestCreationRequestView,
};
use crate::creation::journal;
use crate::creation::journal::{AttemptSummary, AttemptSummaryView};
use crate::domain;
use crate::domain::{Repository, RepositoryView};
use crate::encoding;
use crate::text;

verus! {

/// A value that the provider offers.
#[derive(Debug, PartialEq, Eq)]
pub struct ProviderChoice {
    pub remote_id: Option<String>,
    pub name: String,
}

#[verifier::ext_equal]
pub struct ProviderChoiceView {
    pub remote_id: Option<Seq<char>>,
    pub name: Seq<char>,
}

impl View for ProviderChoice {
    type V = ProviderChoiceView;

    open spec fn view(&self) -> ProviderChoiceView {
        ProviderChoiceView {
            remote_id: text::option_text(self.remote_id),
            name: self.name@,
        }
    }
}

impl Clone for ProviderChoice {
    fn clone(&self) -> (r: Self)
        ensures
            r == *self,
    {
        ProviderChoice {
            remote_id: self.remote_id.clone(),
            name: self.name.clone(),
        }
    }
}

/// The values that the provider offers, and whether these are all.
#[derive(Clone, Debug, PartialEq, Eq)]
pub struct ProviderChoiceSet {
    pub values: Vec<ProviderChoice>,
    pub complete: bool,
    pub notice: Option<String>,
}

/// The published branches of the two repositories.
pub struct ChoiceState {
    pub target: Option<ProviderChoiceSet>,
    pub source: Option<ProviderChoiceSet>,
    pub loading: bool,
    pub notice: Option<String>,
}

/// A creation as it was confirmed: the form that was visible and the request.
#[derive(Debug, PartialEq, Eq)]
pub struct FrozenCreation {
    pub visible_form: CreationForm,
    pub request: PullRequestCreationRequest,
}

#[verifier::ext_equal]
pub struct FrozenCreationView {
    pub visible_form: CreationFormView,
    pub request: PullRequestCreationRequestView,
}

impl View for FrozenCreation {
    type V = FrozenCreationView;

    open spec fn view(&self) -> FrozenCreationView {
        FrozenCreationView {
            visible_form: self.visible_form@,
            request: self.request@,
        }
    }
}

impl Clone for FrozenCreation {
    fn clone(&self) -> (r: Self)
        ensures
            r == *self,
    {
        FrozenCreation {
            visible_form: self.visible_form.clone(),
            request: self.request.clone(),
        }
    }
}

#[derive(Debug, PartialEq, Eq)]
pub enum DialogState {
    Loading,
    Unavailable,
    Editing,
    Preparing,
    Confirmation,
    Creating,
    Acknowledged(PullRequestCreationAcknowledgement),
    Uncertain(String),
}

pub enum DialogStateView {
    Loading,
    Unavailable,
    Editing,
    Preparing,
    Confirmation,
    Creating,
    Acknowledged(PullRequestCreationAcknowledgementView),
    Uncertain(Seq<char>),
}

impl View for DialogState {
    type V = DialogStateView;

    open spec fn view(&self) -> DialogStateView {
        match self {
            DialogState::Loading => DialogStateView::Loading,
            DialogState::Unavailable => DialogStateView::Unavailable,
            DialogState::Editing => DialogStateView::Editing,
            DialogState::Preparing => DialogStateView::Preparing,
            DialogState::Confirmation => DialogStateView::Confirmation,
            DialogState::Creating => DialogStateView::Creating,
            DialogState::Acknowledged(a) => DialogStateView::Acknowledged(a@),
            DialogState::Uncertain(s) => DialogStateView::Uncertain(s@),
        }
    }
}

/// Whether work of the dialog is pending.
pub open spec fn is_busy(state: DialogStateView) -> bool {
    state is Loading || state is Preparing || state is Creating
}

impl DialogState {
    pub fn busy(&self) -> (r: bool)
        ensures
            r == is_busy(self@),
    {
        match self {
            DialogState::Loading => true,
            DialogState::Preparing => true,
            DialogState::Creating => true,
            _ => false,
        }
    }

    pub fn is_unavailable(&self) -> (r: bool)
        ensures
            r == self@ is Unavailable,
    {
        match self {
            DialogState::Unavailable => true,
            _ => false,
        }
    }

    pub fn is_editing(&self) -> (r: bool)
        ensures
            r == self@ is Editing,
    {
        match self {
            DialogState::Editing => true,
            _ => false,
        }
    }

    pub fn is_confirmation(&self) -> (r: bool)
        ensures
            r == self@ is Confirmation,
    {
        match self {
            DialogState::Confirmation => true,
            _ => false,
        }
    }
}

/// What the dialog asks of the world.
#[derive(Debug, PartialEq, Eq)]
pub enum DialogEffect {
    /// Read the stored draft and the recorded attempts.
    Load { lifetime: String, generation: u64 },
    /// Store the form, if the store still holds `expected`.
    Save { lifetime: String, generation: u64, expected: Option<u64>, form: CreationForm },
    /// Read the published branches of both repositories; where they share them, of the target.
    Choices {
        lifetime: String,
        generation: u64,
        target: Repository,
        source: Repository,
        shared: bool,
    },
    /// Ask the provider, read-only, what the creation would be.
    Prepare { lifetime: String, generation: u64, edit_generation: u64, form: CreationForm },
    /// Carry the creation out, under its durable admission.
    Create { lifetime: String, generation: u64, request: PullRequestCreationRequest },
    /// Report back when the form has not been edited for a while.
    Debounce { lifetime: String, edit_generation: u64 },
    /// Move the focus to the dialog.
    Focus,
    /// Open this pull request.
    Open { acknowledgement: PullRequestCreationAcknowledgement },
}

pub enum DialogEffectView {
    Load { lifetime: Seq<char>, generation: u64 },
    Save { lifetime: Seq<char>, generation: u64, expected: Option<u64>, form: CreationFormView },
    Choices {
        lifetime: Seq<char>,
        generation: u64,
        target: RepositoryView,
        source: RepositoryView,
        shared: bool,
    },
    Prepare { lifetime: Seq<char>, generation: u64, edit_generation: u64, form: CreationFormView },
    Create { lifetime: Seq<char>, generation: u64, request: PullRequestCreationRequestView },
    Debounce { lifetime: Seq<char>, edit_generation: u64 },
    Focus,
    Open { acknowledgement: PullRequestCreationAcknowledgementView },
}

impl View for DialogEffect {
    type V = DialogEffectView;

    open spec fn view(&self) -> DialogEffectView {
        match self {
            DialogEffect::Load { lifetime, generation } => DialogEffectView::Load {
                lifetime: lifetime@,
                generation: *generation,
            },
            DialogEffect::Save { lifetime, generation, expected, form } => DialogEffectView::Save {
                lifetime: lifetime@,
                generation: *generation,
                expected: *expected,
                form: form@,
            },
            DialogEffect::Choices {
                lifetime,
                generation,
                target,
                source,
                shared,
            } => DialogEffectView::Choices {
                lifetime: lifetime@,
                generation: *generation,
                target: target@,
                source: source@,
                shared: *shared,
            },
            DialogEffect::Prepare {
                lifetime,
                generation,
                edit_generation,
                form,
            } => DialogEffectView::Prepare {
                lifetime: lifetime@,
                generation: *generation,
                edit_generation: *edit_generation,
                form: form@,
            },
            DialogEffect::Create { lifetime, generation, request } => DialogEffectView::Create {
                lifetime: lifetime@,
                generation: *generation,
                request: request@,
            },
            DialogEffect::Debounce { lifetime, edit_generation } => DialogEffectView::Debounce {
                lifetime: lifetime@,
                edit_generation: *edit_generation,
            },
            DialogEffect::Focus => DialogEffectView::Focus,
            DialogEffect::Open { acknowledgement } => DialogEffectView::Open {
                acknowledgement: acknowledgement@,
            },
        }
    }
}

pub open spec fn effect_views(s: Seq<DialogEffect>) -> Seq<DialogEffectView> {
    s.map_values(|e: DialogEffect| e@)
}

pub struct PrCreationDialog {
    pub store: Option<DraftOwner>,
    pub repositories: Vec<Repository>,
    pub target_index: usize,
    pub source_index: usize,
    pub base_branch: String,
    pub source_branch: String,
    pub local_branch: String,
    pub title: String,
    pub body: String,
    pub form_disabled: bool,
    pub draft: bool,
    pub draft_lane: DraftSaveLane,
    pub edit_generation: u64,
    pub load_generation: u64,
    pub choice_generation: u64,
    pub save_generation: u64,
    pub operation_generation: u64,
    pub lifetime_id: String,
    pub state: DialogState,
    pub choices: ChoiceState,
    pub frozen: Option<FrozenCreation>,
    pub attempts: Vec<AttemptSummary>,
    pub attempts_disclosed: bool,
    pub details_disclosed: bool,
    pub notice: Option<String>,
    pub recovery_open_acknowledgement: Option<PullRequestCreationAcknowledgement>,
    pub prepare_queued: Option<DraftSnapshot>,
    pub close_after_save: bool,
    pub closed: bool,
    pub effects: Vec<DialogEffect>,
}

#[verifier::ext_equal]
pub struct DialogView {
    pub store: Option<DraftOwner>,
    pub repositories: Seq<Repository>,
    pub target_index: usize,
    pub source_index: usize,
    pub base_branch: Seq<char>,
    pub source_branch: Seq<char>,
    pub local_branch: Seq<char>,
    pub title: Seq<char>,
    pub body: Seq<char>,
    pub form_disabled: bool,
    pub draft: bool,
    pub draft_lane: DraftSaveLaneView,
    pub edit_generation: u64,
    pub load_generation: u64,
    pub choice_generation: u64,
    pub save_generation: u64,
    pub operation_generation: u64,
    pub lifetime_id: Seq<char>,
    pub state: DialogStateView,
    pub target_choices: Option<ProviderChoiceSet>,
    pub source_choices: Option<ProviderChoiceSet>,
    pub choices_loading: bool,
    pub choices_notice: Option<Seq<char>>,
    pub frozen: Option<FrozenCreationView>,
    pub attempts: Seq<AttemptSummaryView>,
    pub attempts_disclosed: bool,
    pub details_disclosed: bool,
    pub notice: Option<Seq<char>>,
    pub recovery_open: Option<PullRequestCreationAcknowledgementView>,
    pub prepare_queued: Option<DraftSnapshotView>,
    pub close_after_save: bool,
    pub closed: bool,
    pub effects: Seq<DialogEffectView>,
}

pub open spec fn optional_frozen(f: Option<FrozenCreation>) -> Option<FrozenCreationView> {
    match f {
        Some(x) => Some(x@),
        None => None,
    }
}

pub open spec fn optional_acknowledgement(a: Option<PullRequestCreationAcknowledgement>) -> Option<
    PullRequestCreationAcknowledgementView,
> {
    match a {
        Some(x) => Some(x@),
        None => None,
    }
}

impl View for PrCreationDialog {
    type V = DialogView;

    open spec fn view(&self) -> DialogView {
        DialogView {
            store: self.store,
            repositories: self.repositories@,
            target_index: self.target_index,
            source_index: self.source_index,
            base_branch: self.base_branch@,
            source_branch: self.source_branch@,
            local_branch: self.local_branch@,
            title: self.title@,
            body: self.body@,
            form_disabled: self.form_disabled,
            draft: self.draft,
            draft_lane: self.draft_lane@,
            edit_generation: self.edit_generation,
            load_generation: self.load_generation,
            choice_generation: self.choice_generation,
            save_generation: self.save_generation,
            operation_generation: self.operation_generation,
            lifetime_id: self.lifetime_id@,
            state: self.state@,
            target_choices: self.choices.target,
            source_choices: self.choices.source,
            choices_loading: self.choices.loading,
            choices_notice: text::option_text(self.choices.notice),
            frozen: optional_frozen(self.frozen),
            attempts: journal::summary_views(self.attempts@),
            attempts_disclosed: self.attempts_disclosed,
            details_disclosed: self.details_disclosed,
            notice: text::option_text(self.notice),
            recovery_open: optional_acknowledgement(self.recovery_open_acknowledgement),
            prepare_queued: form::optional_draft(self.prepare_queued),
            close_after_save: self.close_after_save,
            closed: self.closed,
            effects: effect_views(self.effects@),
        }
    }
}

// ---------------------------------------------------------------------------
// Small transitions

pub open spec fn bump(n: u64) -> u64 {
    if n < u64::MAX {
        (n + 1) as u64
    } else {
        n
    }
}

pub open spec fn noticed(d: DialogView, notice: Seq<char>) -> DialogView {
    DialogView { notice: Some(notice), ..d }
}

pub open spec fn asking(d: DialogView, effect: DialogEffectView) -> DialogView {
    DialogView { effects: d.effects.push(effect), ..d }
}

/// Whether a reply belongs to this dialog and to the latest request of its kind.
pub open spec fn reply_is_current(
    current_lifetime: Seq<char>,
    reply_lifetime: Seq<char>,
    current_generation: u64,
    reply_generation: u64,
) -> bool {
    current_lifetime == reply_lifetime && current_generation == reply_generation
}

pub fn callback_matches(
    current_lifetime: &str,
    reply_lifetime: &str,
    current_generation: u64,
    reply_generation: u64,
) -> (r: bool)
    ensures
        r == reply_is_current(
            current_lifetime@,
            reply_lifetime@,
            current_generation,
            reply_generation,
        ),
{
    text::same_text(current_lifetime, reply_lifetime) && current_generation == reply_generation
}

/// The first repository with this key.
pub open spec fn position_of(repositories: Seq<Repository>, key: Seq<char>) -> Option<int>
    decreases repositories.len(),
{
    if repositories.len() == 0 {
        None
    } else if domain::cache_key_of(repositories[0]@) == key {
        Some(0)
    } else {
        match position_of(repositories.drop_first(), key) {
            Some(i) => Some(i + 1),
            None => None,
        }
    }
}

proof fn lemma_position(repositories: Seq<Repository>, key: Seq<char>, i: int)
    requires
        0 <= i <= repositories.len(),
        forall|k: int| 0 <= k < i ==> domain::cache_key_of((#[trigger] repositories[k])@) != key,
        i < repositories.len() ==> domain::cache_key_of(repositories[i]@) == key,
    ensures
        position_of(repositories, key) == if i < repositories.len() {
            Some(i)
        } else {
            None
        },
    decreases repositories.len(),
{
    if i > 0 {
        assert(domain::cache_key_of(repositories[0]@) != key);
        lemma_position(repositories.drop_first(), key, i - 1);
    }
}

pub fn position(repositories: &Vec<Repository>, wanted: &Repository) -> (r: Option<usize>)
    ensures
        match r {
            Some(i) => position_of(repositories@, domain::cache_key_of(wanted@)) == Some(i as int)
                && i < repositories@.len(),
            None => position_of(repositories@, domain::cache_key_of(wanted@)) is None,
        },
{
    let key = wanted.cache_key();
    let mut i: usize = 0;
    while i < repositories.len()
        invariant
            i <= repositories@.len(),
            key@ == domain::cache_key_of(wanted@),
            forall|k: int|
                0 <= k < i ==> domain::cache_key_of((#[trigger] repositories@[k])@) != key@,
        decreases repositories.len() - i,
    {
        if repositories[i].cache_key() == key {
            proof {
                lemma_position(repositories@, key@, i as int);
            }
            return Some(i);
        }
        i += 1;
    }
    proof {
        lemma_position(repositories@, key@, i as int);
    }
    None
}

/// The form as it stands in the dialog, where it can be stored.
pub open spec fn shown_form(d: DialogView) -> Result<CreationFormView, Seq<char>> {
    if d.target_index >= d.repositories.len() {
        Err("Choose an explicitly added target repository."@)
    } else if d.source_index >= d.repositories.len() {
        Err("Choose an explicitly added source repository."@)
    } else {
        let shown = CreationFormView {
            target_repository: d.repositories[d.target_index as int]@,
            base_branch: d.base_branch,
            source_repository: d.repositories[d.source_index as int]@,
            source_branch: d.source_branch,
            local_branch: if text::trimmed(d.local_branch).len() == 0 {
                None
            } else {
                Some(text::trimmed(d.local_branch))
            },
            title: d.title,
            body: d.body,
            draft: d.draft,
        };
        match form::durable_fault(shown) {
            Some(e) => Err(e),
            None => Ok(shown),
        }
    }
}

/// Whether the form in the dialog is still this one.
pub open spec fn shows(d: DialogView, form: CreationFormView) -> bool {
    shown_form(d) == Ok::<CreationFormView, Seq<char>>(form)
}

// ---------------------------------------------------------------------------
// Transitions

pub open spec fn load_begun(d: DialogView) -> DialogView {
    match d.store {
        None => DialogView {
            state: DialogStateView::Unavailable,
            notice: Some(
                "Private creation storage is unavailable; preparation and creation remain disabled."@,
            ),
            ..d
        },
        Some(_) => asking(
            DialogView { load_generation: bump(d.load_generation), ..d },
            DialogEffectView::Load {
                lifetime: d.lifetime_id,
                generation: bump(d.load_generation),
            },
        ),
    }
}

pub open spec fn choices_begun(d: DialogView) -> DialogView {
    if d.target_index >= d.repositories.len() || d.source_index >= d.repositories.len() {
        d
    } else {
        asking(
            DialogView {
                choices_loading: true,
                choice_generation: bump(d.choice_generation),
                ..d
            },
            DialogEffectView::Choices {
                lifetime: d.lifetime_id,
                generation: bump(d.choice_generation),
                target: d.repositories[d.target_index as int]@,
                source: d.repositories[d.source_index as int]@,
                shared: domain::cache_key_of(d.repositories[d.source_index as int]@)
                    == domain::cache_key_of(d.repositories[d.target_index as int]@),
            },
        )
    }
}

/// The next save, where one can start.
pub open spec fn save_begun(d: DialogView) -> DialogView {
    if !form::can_start(d.draft_lane) {
        d
    } else if d.store is None {
        DialogView {
            draft_lane: DraftSaveLaneView { in_flight: None, ..form::started(d.draft_lane) },
            notice: Some(
                "Durable creation storage is unavailable; draft was not closed or prepared."@,
            ),
            close_after_save: false,
            prepare_queued: None,
            form_disabled: false,
            ..d
        }
    } else {
        asking(
            DialogView {
                draft_lane: form::started(d.draft_lane),
                save_generation: bump(d.save_generation),
                ..d
            },
            DialogEffectView::Save {
                lifetime: d.lifetime_id,
                generation: bump(d.save_generation),
                expected: d.draft_lane.durable_generation,
                form: d.draft_lane.pending->0.form,
            },
        )
    }
}

pub open spec fn form_queued(d: DialogView, form: CreationFormView) -> DialogView {
    DialogView {
        draft_lane: form::queued(
            d.draft_lane,
            DraftSnapshotView { edit_generation: d.edit_generation, form },
        ),
        ..d
    }
}

/// The form in the dialog on its way to the store, where it can be stored.
pub open spec fn persisted(d: DialogView) -> DialogView {
    match shown_form(d) {
        Ok(form) => save_begun(form_queued(d, form)),
        Err(_) => d,
    }
}

pub open spec fn close_finished(d: DialogView) -> DialogView {
    match d.recovery_open {
        None => DialogView { closed: true, ..d },
        Some(acknowledgement) => asking(
            DialogView { closed: true, recovery_open: None, ..d },
            DialogEffectView::Open { acknowledgement },
        ),
    }
}

pub open spec fn prepare_begun(d: DialogView, snapshot: DraftSnapshotView) -> DialogView {
    asking(
        DialogView {
            state: DialogStateView::Preparing,
            operation_generation: bump(d.operation_generation),
            ..d
        },
        DialogEffectView::Prepare {
            lifetime: d.lifetime_id,
            generation: bump(d.operation_generation),
            edit_generation: snapshot.edit_generation,
            form: snapshot.form,
        },
    )
}

/// What waited for the saves to be done goes on: closing first, then preparing.
pub open spec fn lane_drained(d: DialogView) -> DialogView {
    if d.close_after_save {
        match shown_form(d) {
            Ok(form) => if form::is_drained(d.draft_lane, form) {
                close_finished(DialogView { close_after_save: false, ..d })
            } else {
                save_begun(form_queued(d, form))
            },
            Err(e) => DialogView {
                close_after_save: false,
                form_disabled: false,
                notice: Some(
                    "Close refused because the latest form cannot be saved: "@ + e,
                ),
                ..d
            },
        }
    } else {
        match d.prepare_queued {
            None => d,
            Some(snapshot) => if d.edit_generation == snapshot.edit_generation && shows(
                d,
                snapshot.form,
            ) && form::is_drained(d.draft_lane, snapshot.form) {
                prepare_begun(DialogView { prepare_queued: None, ..d }, snapshot)
            } else {
                DialogView {
                    prepare_queued: None,
                    form_disabled: false,
                    notice: Some(
                        "Visible creation fields changed while the draft save was pending. The latest text remains queued for durable save; prepare again."@,
                    ),
                    ..d
                }
            },
        }
    }
}

pub open spec fn save_settled(d: DialogView, result: Result<DraftRecord, String>) -> DialogView {
    match result {
        Err(e) => DialogView {
            draft_lane: DraftSaveLaneView { in_flight: None, ..d.draft_lane },
            close_after_save: false,
            prepare_queued: None,
            form_disabled: false,
            notice: Some(
                "Creation draft could not be made durable; close/prepare was refused: "@ + e@,
            ),
            ..d
        },
        Ok(record) => receipt_taken(d, record@),
    }
}

/// After a save: the next one, or what waited for the last.
pub open spec fn receipt_taken(d: DialogView, record: DraftRecordView) -> DialogView {
    let after = DialogView { draft_lane: form::saved(d.draft_lane, record), ..d };
    match form::receipt_fault(d.draft_lane, record) {
        Some(e) => DialogView {
            notice: Some(e),
            close_after_save: false,
            prepare_queued: None,
            form_disabled: false,
            ..after
        },
        None => {
            let next = save_begun(after);
            if next.draft_lane.in_flight is None {
                lane_drained(next)
            } else {
                next
            }
        },
    }
}

pub open spec fn edited(d: DialogView) -> DialogView {
    let counted = DialogView {
        edit_generation: bump(d.edit_generation),
        prepare_queued: None,
        ..d
    };
    let told = if d.state is Confirmation {
        DialogView {
            state: DialogStateView::Editing,
            frozen: None,
            notice: Some(
                "Visible creation fields changed. The prior confirmation was discarded; prepare again."@,
            ),
            ..counted
        }
    } else if is_busy(d.state) {
        noticed(
            counted,
            "A visible field changed while work was pending. The result will be discarded and no stale confirmation can be used."@,
        )
    } else {
        counted
    };
    asking(
        told,
        DialogEffectView::Debounce {
            lifetime: d.lifetime_id,
            edit_generation: bump(d.edit_generation),
        },
    )
}

pub open spec fn prepare_requested(d: DialogView) -> DialogView {
    if !(d.state is Editing) {
        d
    } else if d.store is None {
        noticed(d, "Durable creation storage is unavailable; zero writes sent."@)
    } else {
        match shown_form(d) {
            Err(e) => noticed(d, e),
            Ok(shown) => match form::form_fault(shown) {
                Some(e) => noticed(d, e),
                None => {
                    let snapshot = DraftSnapshotView {
                        edit_generation: d.edit_generation,
                        form: shown,
                    };
                    let waiting = DialogView {
                        form_disabled: true,
                        prepare_queued: Some(snapshot),
                        close_after_save: false,
                        ..asking(d, DialogEffectView::Focus)
                    };
                    let saving = save_begun(form_queued(waiting, shown));
                    if form::is_drained(saving.draft_lane, shown) {
                        lane_drained(saving)
                    } else {
                        noticed(
                            saving,
                            "Saving the exact visible draft before read-only provider preparation…"@,
                        )
                    }
                },
            },
        }
    }
}

/// The dialog back at editing with a notice.
pub open spec fn back_to_editing(d: DialogView, notice: Seq<char>) -> DialogView {
    DialogView {
        state: DialogStateView::Editing,
        form_disabled: false,
        notice: Some(notice),
        ..d
    }
}

/// The form changed while it was prepared.
pub open spec fn preparation_discarded(d: DialogView) -> DialogView {
    DialogView {
        frozen: None,
        ..back_to_editing(
            d,
            "Visible creation fields changed while preparation was pending. The result was discarded; prepare again."@,
        )
    }
}

pub open spec fn confirmation_shown(d: DialogView, frozen: FrozenCreationView) -> DialogView {
    DialogView {
        frozen: Some(frozen),
        state: DialogStateView::Confirmation,
        notice: None,
        ..d
    }
}

pub open spec fn prepare_settled(
    d: DialogView,
    edit_generation: u64,
    form: CreationFormView,
    result: Result<PullRequestCreationPreparation, String>,
    operation_id: Result<String, String>,
    attempt_id: Result<String, String>,
) -> DialogView {
    let unchanged = d.edit_generation == edit_generation && shows(d, form);
    match result {
        Err(e) => back_to_editing(
            d,
            "PR creation preparation refused; zero writes sent: "@ + e@,
        ),
        Ok(preparation) => if !unchanged {
            preparation_discarded(d)
        } else if !preparation.can_create.available {
            back_to_editing(
                d,
                match preparation.can_create.reason {
                    Some(reason) => reason@,
                    None => "Selected account cannot create this pull request."@,
                },
            )
        } else {
            match (operation_id, attempt_id) {
                (Err(e), _) => back_to_editing(d, e@),
                (Ok(_), Err(e)) => back_to_editing(d, e@),
                (Ok(operation), Ok(attempt)) => confirmation_shown(
                    d,
                    FrozenCreationView {
                        visible_form: form,
                        request: PullRequestCreationRequestView {
                            operation_id: operation@,
                            attempt_id: attempt@,
                            preparation: preparation@,
                        },
                    },
                ),
            }
        },
    }
}

pub open spec fn close_begun(d: DialogView) -> DialogView {
    if d.state is Unavailable {
        close_finished(d)
    } else if is_busy(d.state) {
        noticed(
            d,
            "Close is disabled while creation work is pending; no background result was detached."@,
        )
    } else if d.store is None {
        noticed(
            d,
            "Close refused because the latest creation form cannot be made durable."@,
        )
    } else {
        match shown_form(d) {
            Err(e) => noticed(
                d,
                "Close refused because the latest form cannot be saved: "@ + e,
            ),
            Ok(form) => {
                let told = DialogView { prepare_queued: None, ..d };
                if form::is_drained(d.draft_lane, form) {
                    close_finished(told)
                } else {
                    save_begun(
                        form_queued(
                            DialogView {
                                close_after_save: true,
                                form_disabled: true,
                                notice: Some("Saving the latest form before close…"@),
                                ..told
                            },
                            form,
                        ),
                    )
                }
            },
        }
    }
}

pub open spec fn close_requested(d: DialogView) -> DialogView {
    if d.close_after_save {
        d
    } else {
        close_begun(DialogView { recovery_open: None, ..d })
    }
}

pub open spec fn open_requested(
    d: DialogView,
    acknowledgement: PullRequestCreationAcknowledgementView,
) -> DialogView {
    if is_busy(d.state) || d.close_after_save {
        d
    } else {
        let after = close_begun(DialogView { recovery_open: Some(acknowledgement), ..d });
        if !after.closed && !after.close_after_save {
            DialogView { recovery_open: None, ..after }
        } else {
            after
        }
    }
}

pub open spec fn confirmed(d: DialogView) -> DialogView {
    if !(d.state is Confirmation) || d.frozen is None {
        d
    } else if !shows(d, d.frozen->0.visible_form) {
        DialogView {
            frozen: None,
            ..back_to_editing(
                d,
                "Visible form no longer matches the immutable confirmation. Zero writes sent; prepare again."@,
            )
        }
    } else if d.store is None {
        d
    } else {
        asking(
            asking(
                DialogView {
                    state: DialogStateView::Creating,
                    operation_generation: bump(d.operation_generation),
                    ..d
                },
                DialogEffectView::Focus,
            ),
            DialogEffectView::Create {
                lifetime: d.lifetime_id,
                generation: bump(d.operation_generation),
                request: d.frozen->0.request,
            },
        )
    }
}

/// How the provider answered a creation.
pub enum ProviderMutationOutcome {
    Acknowledged { acknowledgement: PullRequestCreationAcknowledgement },
    PreflightRejected { reason: String },
    Uncertain { reason: String },
}

pub open spec fn create_settled(
    d: DialogView,
    outcome: ProviderMutationOutcome,
    attempts: Result<Vec<AttemptSummary>, String>,
) -> DialogView {
    let told = match outcome {
        ProviderMutationOutcome::Acknowledged { acknowledgement } => DialogView {
            notice: Some(
                "GitHub acknowledgement and exact PR coordinates are durable. Open PR is now available."@,
            ),
            state: DialogStateView::Acknowledged(acknowledgement@),
            ..d
        },
        ProviderMutationOutcome::PreflightRejected { reason } => DialogView {
            frozen: None,
            ..back_to_editing(d, "Creation refused: "@ + reason@)
        },
        ProviderMutationOutcome::Uncertain { reason } => DialogView {
            notice: Some(
                "Creation outcome is unresolved. The exact context is retained below; there is no implicit retry or branch/body search."@,
            ),
            state: DialogStateView::Uncertain(reason@),
            ..d
        },
    };
    match attempts {
        Ok(list) => DialogView { attempts: journal::summary_views(list@), ..told },
        Err(e) => noticed(
            told,
            "Creation finished, but recovery records cannot be read: "@ + e@
                + ". Do not retry."@,
        ),
    }
}

/// The control that leaves: it cancels a confirmation, and closes the dialog otherwise.
pub open spec fn left(d: DialogView) -> DialogView {
    if d.state is Confirmation {
        cancelled(d)
    } else {
        close_requested(d)
    }
}

pub open spec fn cancelled(d: DialogView) -> DialogView {
    if d.state is Unavailable {
        close_requested(d)
    } else if is_busy(d.state) {
        d
    } else {
        DialogView {
            prepare_queued: None,
            close_after_save: false,
            frozen: None,
            ..back_to_editing(
                d,
                "Creation confirmation cancelled; zero writes sent. The durable draft is retained."@,
            )
        }
    }
}

/// Whether the repositories and branches can be chosen now.
pub open spec fn can_choose(d: DialogView) -> bool {
    !(is_busy(d.state) || d.state is Unavailable || d.close_after_save || d.prepare_queued is Some
        || d.state is Confirmation)
}

pub open spec fn repository_chosen(d: DialogView, target: bool, index: usize) -> DialogView {
    if !can_choose(d) || index >= d.repositories.len() {
        d
    } else {
        persisted(
            choices_begun(
                DialogView {
                    target_index: if target {
                        index
                    } else {
                        d.target_index
                    },
                    source_index: if target {
                        d.source_index
                    } else {
                        index
                    },
                    frozen: None,
                    state: DialogStateView::Editing,
                    target_choices: None,
                    source_choices: None,
                    edit_generation: bump(d.edit_generation),
                    ..d
                },
            ),
        )
    }
}

/// The fields of the dialog with the texts of a form.
pub open spec fn filled(d: DialogView, form: CreationFormView) -> DialogView {
    DialogView {
        base_branch: form.base_branch,
        source_branch: form.source_branch,
        local_branch: match form.local_branch {
            Some(s) => s,
            None => Seq::empty(),
        },
        title: form.title,
        body: form.body,
        ..d
    }
}

pub open spec fn load_settled(
    d: DialogView,
    result: Result<(Option<DraftRecord>, Vec<AttemptSummary>), String>,
) -> DialogView {
    match result {
        Err(e) => DialogView {
            state: DialogStateView::Unavailable,
            notice: Some(e@),
            ..d
        },
        Ok((draft, attempts)) => {
            let told = DialogView { attempts: journal::summary_views(attempts@), ..d };
            match draft {
                None => choices_begun(
                    DialogView { state: DialogStateView::Editing, form_disabled: false, ..told },
                ),
                Some(record) => draft_installed(told, record@),
            }
        },
    }
}

/// The dialog with the choice of repositories and the form of a stored draft.
pub open spec fn draft_adopted(
    d: DialogView,
    record: DraftRecordView,
    target: usize,
    source: usize,
) -> DialogView {
    DialogView {
        target_index: target,
        source_index: source,
        draft: record.form.draft,
        draft_lane: DraftSaveLaneView {
            durable_generation: Some(record.generation),
            durable_form: Some(record.form),
            ..d.draft_lane
        },
        state: DialogStateView::Editing,
        form_disabled: false,
        ..d
    }
}

pub open spec fn draft_installed(d: DialogView, record: DraftRecordView) -> DialogView {
    let target = position_of(
        d.repositories,
        domain::cache_key_of(record.form.target_repository),
    );
    let source = position_of(
        d.repositories,
        domain::cache_key_of(record.form.source_repository),
    );
    if target is None || source is None {
        DialogView {
            state: DialogStateView::Unavailable,
            notice: Some(
                "The saved creation draft names a repository that is no longer explicitly selected. It was preserved and not guessed into another repository."@,
            ),
            ..d
        }
    } else {
        choices_begun(
            filled(
                draft_adopted(d, record, target->0 as usize, source->0 as usize),
                record.form,
            ),
        )
    }
}

// ---------------------------------------------------------------------------
// The dialog

impl PrCreationDialog {
    /// A dialog for these repositories. It begins by loading what is stored.
    pub fn new(
        repositories: Vec<Repository>,
        preferred: Option<Repository>,
        lifetime_id: String,
    ) -> (r: Self)
        ensures
            ({
                let wanted = match preferred {
                    Some(p) => position_of(repositories@, domain::cache_key_of(p@)),
                    None => None,
                };
                let index = match wanted {
                    Some(i) => i as usize,
                    None => 0,
                };
                let blank = DialogView {
                    store: r.store,
                    repositories: repositories@,
                    target_index: index,
                    source_index: index,
                    base_branch: Seq::empty(),
                    source_branch: Seq::empty(),
                    local_branch: Seq::empty(),
                    title: Seq::empty(),
                    body: Seq::empty(),
                    form_disabled: true,
                    draft: false,
                    draft_lane: form::fresh_lane(),
                    edit_generation: 0,
                    load_generation: 0,
                    choice_generation: 0,
                    save_generation: 0,
                    operation_generation: 0,
                    lifetime_id: lifetime_id@,
                    state: DialogStateView::Loading,
                    target_choices: None,
                    source_choices: None,
                    choices_loading: false,
                    choices_notice: None,
                    frozen: None,
                    attempts: Seq::empty(),
                    attempts_disclosed: true,
                    details_disclosed: false,
                    notice: None,
                    recovery_open: None,
                    prepare_queued: None,
                    close_after_save: false,
                    closed: false,
                    effects: Seq::empty(),
                };
                &&& r@ == load_begun(blank)
                &&& r.store is Some == (index < repositories@.len() && form::pair_of(
                    repositories@[index as int].account@,
                ) is Ok)
                &&& r.store matches Some(owner) ==> form::owner_pair(owner) == Some(
                    form::pair_of(repositories@[index as int].account@)->Ok_0,
                )
            }),
    {
        let index: usize = match &preferred {
            Some(p) => match position(&repositories, p) {
                Some(i) => i,
                None => 0,
            },
            None => 0,
        };
        let store: Option<DraftOwner> = if index < repositories.len() {
            match DraftOwner::for_account(&repositories[index].account) {
                Ok(owner) => Some(owner),
                Err(_) => None,
            }
        } else {
            None
        };
        let mut r = PrCreationDialog {
            store,
            repositories,
            target_index: index,
            source_index: index,
            base_branch: String::new(),
            source_branch: String::new(),
            local_branch: String::new(),
            title: String::new(),
            body: String::new(),
            form_disabled: true,
            draft: false,
            draft_lane: DraftSaveLane::new(),
            edit_generation: 0,
            load_generation: 0,
            choice_generation: 0,
            save_generation: 0,
            operation_generation: 0,
            lifetime_id,
            state: DialogState::Loading,
            choices: ChoiceState { target: None, source: None, loading: false, notice: None },
            frozen: None,
            attempts: Vec::new(),
            attempts_disclosed: true,
            details_disclosed: false,
            notice: None,
            recovery_open_acknowledgement: None,
            prepare_queued: None,
            close_after_save: false,
            closed: false,
            effects: Vec::new(),
        };
        proof {
            assert(r@.attempts =~= Seq::<AttemptSummaryView>::empty());
            assert(r@.effects =~= Seq::<DialogEffectView>::empty());
        }
        r.start_load();
        r
    }

    pub fn is_closed(&self) -> (r: bool)
        ensures
            r == self.closed,
    {
        self.closed
    }

    fn ask(&mut self, effect: DialogEffect)
        ensures
            final(self)@ == asking(old(self)@, effect@),
            final(self).store == old(self).store,
    {
        self.effects.push(effect);
        proof {
            assert(self@.effects =~= old(self)@.effects.push(effect@));
            assert(self@ =~= asking(old(self)@, effect@));
        }
    }

    fn say(&mut self, notice: &str)
        ensures
            final(self)@ == noticed(old(self)@, notice@),
    {
        self.notice = Some(notice.to_owned());
        proof {
            assert(self@ =~= noticed(old(self)@, notice@));
        }
    }

    /// Hands the effects to the caller.
    pub fn take_effects(&mut self) -> (r: Vec<DialogEffect>)
        ensures
            effect_views(r@) == old(self)@.effects,
            final(self)@ == (DialogView { effects: Seq::empty(), ..old(self)@ }),
    {
        let mut effects: Vec<DialogEffect> = Vec::new();
        std::mem::swap(&mut effects, &mut self.effects);
        proof {
            assert(self@.effects =~= Seq::<DialogEffectView>::empty());
            assert(self@ =~= (DialogView { effects: Seq::empty(), ..old(self)@ }));
        }
        effects
    }

    fn start_load(&mut self)
        ensures
            final(self)@ == load_begun(old(self)@),
            final(self).store == old(self).store,
    {
        if self.store.is_none() {
            self.state = DialogState::Unavailable;
            self.say(
                "Private creation storage is unavailable; preparation and creation remain disabled.",
            );
            proof {
                assert(self@ =~= load_begun(old(self)@));
            }
            return;
        }
        self.load_generation = self.load_generation.saturating_add(1);
        let generation: u64 = self.load_generation;
        let lifetime = self.lifetime_id.clone();
        self.ask(DialogEffect::Load { lifetime, generation });
        proof {
            assert(self@ =~= load_begun(old(self)@));
        }
    }

    /// Takes what the store holds, or the reason why it cannot be read.
    pub fn complete_load(
        &mut self,
        lifetime: &str,
        generation: u64,
        result: Result<(Option<DraftRecord>, Vec<AttemptSummary>), String>,
    )
        ensures
            final(self)@ == if reply_is_current(
                old(self)@.lifetime_id,
                lifetime@,
                old(self)@.load_generation,
                generation,
            ) {
                load_settled(old(self)@, result)
            } else {
                old(self)@
            },
    {
        if !callback_matches(&self.lifetime_id, lifetime, self.load_generation, generation) {
            return;
        }
        match result {
            Err(error) => {
                self.state = DialogState::Unavailable;
                self.notice = Some(error);
                proof {
                    assert(self@ =~= load_settled(old(self)@, result));
                }
            },
            Ok((draft, attempts)) => self.install_loaded(draft, attempts),
        }
    }

    fn install_loaded(&mut self, draft: Option<DraftRecord>, attempts: Vec<AttemptSummary>)
        ensures
            final(self)@ == load_settled(
                old(self)@,
                Ok::<(Option<DraftRecord>, Vec<AttemptSummary>), String>((draft, attempts)),
            ),
    {
        self.attempts = attempts;
        let ghost told = DialogView {
            attempts: journal::summary_views(attempts@),
            ..old(self)@
        };
        proof {
            assert(self@ =~= told);
        }
        match draft {
            None => {
                self.state = DialogState::Editing;
                self.form_disabled = false;
                proof {
                    assert(self@ =~= DialogView {
                        state: DialogStateView::Editing,
                        form_disabled: false,
                        ..told
                    });
                }
                self.load_choices();
            },
            Some(record) => self.install_draft(&record),
        }
    }

    fn install_draft(&mut self, record: &DraftRecord)
        ensures
            final(self)@ == draft_installed(old(self)@, record@),
    {
        let target = position(&self.repositories, &record.form.target_repository);
        let source = position(&self.repositories, &record.form.source_repository);
        match (target, source) {
            (Some(t), Some(s)) => {
                self.target_index = t;
                self.source_index = s;
                self.draft = record.form.draft;
                self.draft_lane.restore(record);
                self.state = DialogState::Editing;
                self.form_disabled = false;
                proof {
                    assert(self@ =~= draft_adopted(old(self)@, record@, t, s));
                }
                self.set_form_values(&record.form);
                self.load_choices();
            },
            _ => {
                self.state = DialogState::Unavailable;
                self.say(
                    "The saved creation draft names a repository that is no longer explicitly selected. It was preserved and not guessed into another repository.",
                );
                proof {
                    assert(self@ =~= draft_installed(old(self)@, record@));
                }
            },
        }
    }

    fn set_form_values(&mut self, form: &CreationForm)
        ensures
            final(self)@ == filled(old(self)@, form@),
    {
        self.base_branch = form.base_branch.clone();
        self.source_branch = form.source_branch.clone();
        self.local_branch = match &form.local_branch {
            Some(s) => s.clone(),
            None => String::new(),
        };
        self.title = form.title.clone();
        self.body = form.body.clone();
        proof {
            assert(self@ =~= filled(old(self)@, form@));
        }
    }

    /// Takes note that a visible field was edited. The caller has changed the field.
    pub fn form_changed(&mut self)
        ensures
            final(self)@ == edited(old(self)@),
    {
        self.edit_generation = self.edit_generation.saturating_add(1);
        let edit_generation: u64 = self.edit_generation;
        self.prepare_queued = None;
        if self.state.is_confirmation() {
            self.state = DialogState::Editing;
            self.frozen = None;
            self.say(
                "Visible creation fields changed. The prior confirmation was discarded; prepare again.",
            );
        } else if self.state.busy() {
            self.say(
                "A visible field changed while work was pending. The result will be discarded and no stale confirmation can be used.",
            );
        }
        let lifetime = self.lifetime_id.clone();
        self.ask(DialogEffect::Debounce { lifetime, edit_generation });
        proof {
            assert(self@ =~= edited(old(self)@));
        }
    }

    /// The form has not been edited for a while: it is stored.
    pub fn complete_debounce(&mut self, lifetime: &str, edit_generation: u64)
        ensures
            final(self)@ == if old(self)@.lifetime_id == lifetime@ && old(self)@.edit_generation
                == edit_generation && old(self)@.state is Editing {
                persisted(old(self)@)
            } else {
                old(self)@
            },
    {
        if text::same_text(&self.lifetime_id, lifetime) && self.edit_generation == edit_generation
            && self.state.is_editing() {
            self.persist_form();
        }
    }

    pub fn current_form(&self) -> (r: Result<CreationForm, String>)
        ensures
            match r {
                Ok(form) => shown_form(self@) == Ok::<CreationFormView, Seq<char>>(form@),
                Err(e) => shown_form(self@) == Err::<CreationFormView, Seq<char>>(e@),
            },
    {
        if self.target_index >= self.repositories.len() {
            return Err("Choose an explicitly added target repository.".to_owned());
        }
        if self.source_index >= self.repositories.len() {
            return Err("Choose an explicitly added source repository.".to_owned());
        }
        let local = text::trim(&self.local_branch);
        let local_branch: Option<String> = if local.as_str().is_empty() {
            None
        } else {
            Some(local)
        };
        let form = CreationForm {
            target_repository: self.repositories[self.target_index].clone(),
            base_branch: self.base_branch.clone(),
            source_repository: self.repositories[self.source_index].clone(),
            source_branch: self.source_branch.clone(),
            local_branch,
            title: self.title.clone(),
            body: self.body.clone(),
            draft: self.draft,
        };
        match form.validate_durable() {
            Ok(_) => Ok(form),
            Err(e) => Err(e),
        }
    }

    fn shows_form(&self, form: &CreationForm) -> (r: bool)
        ensures
            r == shows(self@, form@),
    {
        match self.current_form() {
            Ok(current) => current.same(form),
            Err(_) => false,
        }
    }

    fn persist_form(&mut self)
        ensures
            final(self)@ == persisted(old(self)@),
    {
        match self.current_form() {
            Ok(form) => {
                self.queue_form(form);
                self.start_next_draft_save();
            },
            Err(_) => {},
        }
    }

    fn queue_form(&mut self, form: CreationForm)
        ensures
            final(self)@ == form_queued(old(self)@, form@),
    {
        let edit_generation: u64 = self.edit_generation;
        self.draft_lane.queue(DraftSnapshot { edit_generation, form });
        proof {
            assert(self@ =~= form_queued(old(self)@, form@));
        }
    }

    fn start_next_draft_save(&mut self)
        ensures
            final(self)@ == save_begun(old(self)@),
    {
        match self.draft_lane.start_next() {
            None => {
                proof {
                    assert(self@ =~= old(self)@);
                }
            },
            Some((expected, snapshot)) => {
                if self.store.is_none() {
                    self.draft_lane.complete_failure();
                    self.say(
                        "Durable creation storage is unavailable; draft was not closed or prepared.",
                    );
                    self.close_after_save = false;
                    self.prepare_queued = None;
                    self.form_disabled = false;
                    proof {
                        assert(self@ =~= save_begun(old(self)@));
                    }
                    return;
                }
                self.save_generation = self.save_generation.saturating_add(1);
                let generation: u64 = self.save_generation;
                let lifetime = self.lifetime_id.clone();
                self.ask(
                    DialogEffect::Save { lifetime, generation, expected, form: snapshot.form },
                );
                proof {
                    assert(self@ =~= save_begun(old(self)@));
                }
            },
        }
    }

    /// Takes the outcome of a save.
    pub fn complete_save(
        &mut self,
        lifetime: &str,
        generation: u64,
        result: Result<DraftRecord, String>,
    )
        ensures
            final(self)@ == if reply_is_current(
                old(self)@.lifetime_id,
                lifetime@,
                old(self)@.save_generation,
                generation,
            ) {
                save_settled(old(self)@, result)
            } else {
                old(self)@
            },
    {
        if !callback_matches(&self.lifetime_id, lifetime, self.save_generation, generation) {
            return;
        }
        match result {
            Ok(record) => self.take_receipt(&record),
            Err(error) => {
                self.draft_lane.complete_failure();
                self.close_after_save = false;
                self.prepare_queued = None;
                self.form_disabled = false;
                let mut notice: String = "Creation draft could not be made durable; close/prepare was refused: ".to_owned();
                notice.append(&error);
                self.notice = Some(notice);
                proof {
                    assert(self@ =~= save_settled(old(self)@, result));
                }
            },
        }
    }

    fn take_receipt(&mut self, record: &DraftRecord)
        ensures
            final(self)@ == receipt_taken(old(self)@, record@),
    {
        let receipt = self.draft_lane.complete_success(record);
        proof {
            assert(self@ =~= DialogView {
                draft_lane: form::saved(old(self)@.draft_lane, record@),
                ..old(self)@
            });
        }
        match receipt {
            Err(error) => {
                self.notice = Some(error);
                self.close_after_save = false;
                self.prepare_queued = None;
                self.form_disabled = false;
                proof {
                    assert(self@ =~= receipt_taken(old(self)@, record@));
                }
            },
            Ok(_) => {
                self.start_next_draft_save();
                if self.draft_lane.in_flight.is_none() {
                    self.after_draft_lane_drained();
                }
            },
        }
    }

    fn after_draft_lane_drained(&mut self)
        ensures
            final(self)@ == lane_drained(old(self)@),
    {
        if self.close_after_save {
            match self.current_form() {
                Ok(form) => {
                    if self.draft_lane.is_idle_durable(&form) {
                        self.close_after_save = false;
                        proof {
                            assert(self@ =~= DialogView { close_after_save: false, ..old(self)@ });
                        }
                        self.finish_close();
                    } else {
                        self.queue_form(form);
                        self.start_next_draft_save();
                    }
                },
                Err(error) => {
                    self.close_after_save = false;
                    self.form_disabled = false;
                    let mut notice: String = "Close refused because the latest form cannot be saved: ".to_owned();
                    notice.append(&error);
                    self.notice = Some(notice);
                    proof {
                        assert(self@ =~= lane_drained(old(self)@));
                    }
                },
            }
            return;
        }
        match self.prepare_queued.clone() {
            None => {},
            Some(snapshot) => {
                let unchanged: bool = self.edit_generation == snapshot.edit_generation
                    && self.shows_form(&snapshot.form);
                if unchanged && self.draft_lane.is_idle_durable(&snapshot.form) {
                    self.prepare_queued = None;
                    proof {
                        assert(self@ =~= DialogView { prepare_queued: None, ..old(self)@ });
                    }
                    self.begin_provider_prepare(snapshot);
                } else {
                    self.prepare_queued = None;
                    self.form_disabled = false;
                    self.say(
                        "Visible creation fields changed while the draft save was pending. The latest text remains queued for durable save; prepare again.",
                    );
                    proof {
                        assert(self@ =~= lane_drained(old(self)@));
                    }
                }
            },
        }
    }

    fn load_choices(&mut self)
        ensures
            final(self)@ == choices_begun(old(self)@),
    {
        if self.target_index >= self.repositories.len() || self.source_index
            >= self.repositories.len() {
            return;
        }
        let target = self.repositories[self.target_index].clone();
        let source = self.repositories[self.source_index].clone();
        self.choices.loading = true;
        self.choice_generation = self.choice_generation.saturating_add(1);
        let generation: u64 = self.choice_generation;
        let lifetime = self.lifetime_id.clone();
        let shared: bool = text::same_text(&source.cache_key(), &target.cache_key());
        self.ask(DialogEffect::Choices { lifetime, generation, target, source, shared });
        proof {
            assert(self@ =~= choices_begun(old(self)@));
        }
    }

    /// Takes the published branches of the two repositories.
    pub fn complete_choices(
        &mut self,
        lifetime: &str,
        generation: u64,
        result: Result<(ProviderChoiceSet, ProviderChoiceSet), String>,
    )
        ensures
            final(self)@ == if reply_is_current(
                old(self)@.lifetime_id,
                lifetime@,
                old(self)@.choice_generation,
                generation,
            ) {
                match result {
                    Ok((target, source)) => DialogView {
                        choices_loading: false,
                        target_choices: Some(target),
                        source_choices: Some(source),
                        ..old(self)@
                    },
                    Err(e) => DialogView {
                        choices_loading: false,
                        choices_notice: Some(
                            "Published branch choices could not be read; no choice was guessed: "@
                                + e@,
                        ),
                        ..old(self)@
                    },
                }
            } else {
                old(self)@
            },
    {
        if !callback_matches(&self.lifetime_id, lifetime, self.choice_generation, generation) {
            return;
        }
        self.choices.loading = false;
        match result {
            Ok((target, source)) => {
                self.choices.target = Some(target);
                self.choices.source = Some(source);
            },
            Err(error) => {
                let mut notice: String = "Published branch choices could not be read; no choice was guessed: ".to_owned();
                notice.append(&error);
                self.choices.notice = Some(notice);
            },
        }
    }

    /// Stores the exact visible form and has it prepared once it is stored.
    pub fn prepare(&mut self)
        ensures
            final(self)@ == prepare_requested(old(self)@),
    {
        if !self.state.is_editing() {
            return;
        }
        if self.store.is_none() {
            self.say("Durable creation storage is unavailable; zero writes sent.");
            return;
        }
        let form = match self.current_form() {
            Ok(form) => form,
            Err(error) => {
                self.say(&error);
                return;
            },
        };
        if let Err(error) = form.validate() {
            self.say(&error);
            return;
        }
        self.ask(DialogEffect::Focus);
        let edit_generation: u64 = self.edit_generation;
        self.form_disabled = true;
        self.prepare_queued = Some(DraftSnapshot { edit_generation, form: form.clone() });
        self.close_after_save = false;
        let ghost waiting = DialogView {
            form_disabled: true,
            prepare_queued: Some(DraftSnapshotView { edit_generation, form: form@ }),
            close_after_save: false,
            ..asking(old(self)@, DialogEffectView::Focus)
        };
        proof {
            assert(self@ =~= waiting);
        }
        self.queue_form(form.clone());
        self.start_next_draft_save();
        if self.draft_lane.is_idle_durable(&form) {
            self.after_draft_lane_drained();
        } else {
            self.say("Saving the exact visible draft before read-only provider preparation…");
        }
    }

    fn begin_provider_prepare(&mut self, snapshot: DraftSnapshot)
        ensures
            final(self)@ == prepare_begun(old(self)@, snapshot@),
    {
        self.state = DialogState::Preparing;
        self.operation_generation = self.operation_generation.saturating_add(1);
        let generation: u64 = self.operation_generation;
        let lifetime = self.lifetime_id.clone();
        self.ask(
            DialogEffect::Prepare {
                lifetime,
                generation,
                edit_generation: snapshot.edit_generation,
                form: snapshot.form,
            },
        );
        proof {
            assert(self@ =~= prepare_begun(old(self)@, snapshot@));
        }
    }

    fn return_to_editing(&mut self, notice: &str)
        ensures
            final(self)@ == back_to_editing(old(self)@, notice@),
    {
        self.state = DialogState::Editing;
        self.form_disabled = false;
        self.notice = Some(notice.to_owned());
        proof {
            assert(self@ =~= back_to_editing(old(self)@, notice@));
        }
    }

    fn discard_preparation(&mut self)
        ensures
            final(self)@ == preparation_discarded(old(self)@),
    {
        self.return_to_editing(
            "Visible creation fields changed while preparation was pending. The result was discarded; prepare again.",
        );
        self.frozen = None;
        proof {
            assert(self@ =~= preparation_discarded(old(self)@));
        }
    }

    fn show_confirmation(&mut self, frozen: FrozenCreation)
        ensures
            final(self)@ == confirmation_shown(old(self)@, frozen@),
    {
        self.frozen = Some(frozen);
        self.state = DialogState::Confirmation;
        self.notice = None;
        proof {
            assert(self@ =~= confirmation_shown(old(self)@, frozen@));
        }
    }

    /// Takes what the provider found for the form that was prepared. The identities are fresh
    /// ones for the request that is to be confirmed.
    #[verifier::spinoff_prover]
    pub fn complete_prepare(
        &mut self,
        lifetime: &str,
        generation: u64,
        edit_generation: u64,
        form: CreationForm,
        result: Result<PullRequestCreationPreparation, String>,
        operation_id: Result<String, String>,
        attempt_id: Result<String, String>,
    )
        ensures
            final(self)@ == if reply_is_current(
                old(self)@.lifetime_id,
                lifetime@,
                old(self)@.operation_generation,
                generation,
            ) {
                prepare_settled(
                    old(self)@,
                    edit_generation,
                    form@,
                    result,
                    operation_id,
                    attempt_id,
                )
            } else {
                old(self)@
            },
    {
        if !callback_matches(&self.lifetime_id, lifetime, self.operation_generation, generation) {
            return;
        }
        let unchanged: bool = self.edit_generation == edit_generation && self.shows_form(&form);
        match result {
            Err(error) => {
                let mut notice: String = "PR creation preparation refused; zero writes sent: ".to_owned();
                notice.append(&error);
                self.return_to_editing(&notice);
            },
            Ok(preparation) => {
                if !unchanged {
                    self.discard_preparation();
                } else if !preparation.can_create.available {
                    match &preparation.can_create.reason {
                        Some(reason) => self.return_to_editing(reason),
                        None => self.return_to_editing(
                            "Selected account cannot create this pull request.",
                        ),
                    }
                } else {
                    match (operation_id, attempt_id) {
                        (Err(error), _) => self.return_to_editing(&error),
                        (Ok(_), Err(error)) => self.return_to_editing(&error),
                        (Ok(operation), Ok(attempt)) => {
                            self.show_confirmation(
                                FrozenCreation {
                                    visible_form: form,
                                    request: PullRequestCreationRequest {
                                        operation_id: operation,
                                        attempt_id: attempt,
                                        preparation,
                                    },
                                },
                            );
                        },
                    }
                }
            },
        }
    }

    pub fn request_close(&mut self)
        ensures
            final(self)@ == close_requested(old(self)@),
    {
        if self.close_after_save {
            return;
        }
        self.recovery_open_acknowledgement = None;
        proof {
            assert(self@ =~= DialogView { recovery_open: None, ..old(self)@ });
        }
        self.begin_close();
    }

    /// Closes the dialog, its form stored, and opens this pull request.
    pub fn request_open_acknowledgement(
        &mut self,
        acknowledgement: PullRequestCreationAcknowledgement,
    )
        ensures
            final(self)@ == open_requested(old(self)@, acknowledgement@),
    {
        if self.state.busy() || self.close_after_save {
            return;
        }
        self.recovery_open_acknowledgement = Some(acknowledgement);
        proof {
            assert(self@ =~= DialogView { recovery_open: Some(acknowledgement@), ..old(self)@ });
        }
        self.begin_close();
        if !self.closed && !self.close_after_save {
            self.recovery_open_acknowledgement = None;
            proof {
                assert(self@ =~= open_requested(old(self)@, acknowledgement@));
            }
        }
    }

    fn finish_close(&mut self)
        ensures
            final(self)@ == close_finished(old(self)@),
    {
        self.closed = true;
        match self.recovery_open_acknowledgement.take() {
            Some(acknowledgement) => {
                self.ask(DialogEffect::Open { acknowledgement });
            },
            None => {},
        }
        proof {
            assert(self@ =~= close_finished(old(self)@));
        }
    }

    fn begin_close(&mut self)
        ensures
            final(self)@ == close_begun(old(self)@),
    {
        if self.state.is_unavailable() {
            // No editable draft was installed; closing must not replace the stored one.
            self.finish_close();
            return;
        }
        if self.state.busy() {
            self.say(
                "Close is disabled while creation work is pending; no background result was detached.",
            );
            return;
        }
        if self.store.is_none() {
            self.say("Close refused because the latest creation form cannot be made durable.");
            return;
        }
        let form = match self.current_form() {
            Ok(form) => form,
            Err(error) => {
                let mut notice: String = "Close refused because the latest form cannot be saved: ".to_owned();
                notice.append(&error);
                self.say(&notice);
                return;
            },
        };
        self.prepare_queued = None;
        proof {
            assert(self@ =~= DialogView { prepare_queued: None, ..old(self)@ });
        }
        if self.draft_lane.is_idle_durable(&form) {
            self.finish_close();
        } else {
            self.close_after_save = true;
            self.form_disabled = true;
            self.notice = Some("Saving the latest form before close…".to_owned());
            proof {
                assert(self@ =~= DialogView {
                    close_after_save: true,
                    form_disabled: true,
                    notice: Some("Saving the latest form before close…"@),
                    prepare_queued: None,
                    ..old(self)@
                });
            }
            self.queue_form(form);
            self.start_next_draft_save();
        }
    }

    /// Carries out exactly the creation that was confirmed.
    pub fn confirm(&mut self)
        ensures
            final(self)@ == confirmed(old(self)@),
    {
        if !self.state.is_confirmation() {
            return;
        }
        let frozen = match &self.frozen {
            Some(f) => f.clone(),
            None => {
                return;
            },
        };
        if !self.shows_form(&frozen.visible_form) {
            self.return_to_editing(
                "Visible form no longer matches the immutable confirmation. Zero writes sent; prepare again.",
            );
            self.frozen = None;
            proof {
                assert(self@ =~= confirmed(old(self)@));
            }
            return;
        }
        if self.store.is_none() {
            return;
        }
        self.state = DialogState::Creating;
        self.operation_generation = self.operation_generation.saturating_add(1);
        let generation: u64 = self.operation_generation;
        let lifetime = self.lifetime_id.clone();
        self.ask(DialogEffect::Focus);
        self.ask(DialogEffect::Create { lifetime, generation, request: frozen.request });
        proof {
            assert(self@ =~= confirmed(old(self)@));
        }
    }

    /// Takes the answer of the provider and the attempts as they are recorded now.
    pub fn complete_create(
        &mut self,
        lifetime: &str,
        generation: u64,
        outcome: ProviderMutationOutcome,
        attempts: Result<Vec<AttemptSummary>, String>,
    )
        ensures
            final(self)@ == if reply_is_current(
                old(self)@.lifetime_id,
                lifetime@,
                old(self)@.operation_generation,
                generation,
            ) {
                create_settled(old(self)@, outcome, attempts)
            } else {
                old(self)@
            },
    {
        if !callback_matches(&self.lifetime_id, lifetime, self.operation_generation, generation) {
            return;
        }
        match outcome {
            ProviderMutationOutcome::Acknowledged { acknowledgement } => {
                self.say(
                    "GitHub acknowledgement and exact PR coordinates are durable. Open PR is now available.",
                );
                self.state = DialogState::Acknowledged(acknowledgement);
            },
            ProviderMutationOutcome::PreflightRejected { reason } => {
                let mut notice: String = "Creation refused: ".to_owned();
                notice.append(&reason);
                self.return_to_editing(&notice);
                self.frozen = None;
            },
            ProviderMutationOutcome::Uncertain { reason } => {
                self.say(
                    "Creation outcome is unresolved. The exact context is retained below; there is no implicit retry or branch/body search.",
                );
                self.state = DialogState::Uncertain(reason);
            },
        }
        match attempts {
            Ok(list) => {
                self.attempts = list;
            },
            Err(error) => {
                let mut notice: String = "Creation finished, but recovery records cannot be read: ".to_owned();
                notice.append(&error);
                notice.append(". Do not retry.");
                self.say(&notice);
            },
        }
        proof {
            assert(self@ =~= create_settled(old(self)@, outcome, attempts));
        }
    }

    pub fn cancel(&mut self)
        ensures
            final(self)@ == cancelled(old(self)@),
    {
        if self.state.is_unavailable() {
            self.request_close();
            return;
        }
        if self.state.busy() {
            return;
        }
        self.prepare_queued = None;
        self.close_after_save = false;
        self.frozen = None;
        self.return_to_editing(
            "Creation confirmation cancelled; zero writes sent. The durable draft is retained.",
        );
        proof {
            assert(self@ =~= cancelled(old(self)@));
        }
    }

    fn choosable(&self) -> (r: bool)
        ensures
            r == can_choose(self@),
    {
        !(self.state.busy() || self.state.is_unavailable() || self.close_after_save
            || self.prepare_queued.is_some() || self.state.is_confirmation())
    }

    pub fn choose_repository(&mut self, target: bool, index: usize)
        ensures
            final(self)@ == repository_chosen(old(self)@, target, index),
    {
        if !self.choosable() || index >= self.repositories.len() {
            return;
        }
        if target {
            self.target_index = index;
        } else {
            self.source_index = index;
        }
        self.frozen = None;
        self.state = DialogState::Editing;
        self.choices.target = None;
        self.choices.source = None;
        self.edit_generation = self.edit_generation.saturating_add(1);
        proof {
            assert(self@ =~= DialogView {
                target_index: if target {
                    index
                } else {
                    old(self)@.target_index
                },
                source_index: if target {
                    old(self)@.source_index
                } else {
                    index
                },
                frozen: None,
                state: DialogStateView::Editing,
                target_choices: None,
                source_choices: None,
                edit_generation: bump(old(self)@.edit_generation),
                ..old(self)@
            });
        }
        self.load_choices();
        self.persist_form();
    }

    /// Puts a branch into its field, where that is possible now. Returns whether it did; the
    /// caller then reports the edit.
    pub fn use_branch(&mut self, target: bool, value: String) -> (r: bool)
        ensures
            r == can_choose(old(self)@),
            final(self)@ == if r {
                if target {
                    DialogView { base_branch: value@, ..old(self)@ }
                } else {
                    DialogView { source_branch: value@, ..old(self)@ }
                }
            } else {
                old(self)@
            },
    {
        if !self.choosable() {
            return false;
        }
        if target {
            self.base_branch = value;
        } else {
            self.source_branch = value;
        }
        true
    }

    /// Switches between a draft and a normal pull request, where that is possible now.
    pub fn toggle_draft(&mut self)
        ensures
            final(self)@ == if is_busy(old(self)@.state) || old(self)@.state is Unavailable || old(
                self,
            )@.close_after_save || old(self)@.prepare_queued is Some {
                old(self)@
            } else {
                edited(DialogView { draft: !old(self)@.draft, ..old(self)@ })
            },
    {
        if self.state.busy() || self.state.is_unavailable() || self.close_after_save
            || self.prepare_queued.is_some() {
            return;
        }
        self.draft = !self.draft;
        proof {
            assert(self@ =~= DialogView { draft: !old(self)@.draft, ..old(self)@ });
        }
        self.form_changed();
    }

    /// A click on the control for drafts, which a confirmation does not take.
    pub fn click_draft(&mut self)
        ensures
            final(self)@ == if is_busy(old(self)@.state) || old(self)@.state is Confirmation || old(
                self,
            )@.close_after_save || old(self)@.prepare_queued is Some {
                old(self)@
            } else {
                edited(DialogView { draft: !old(self)@.draft, ..old(self)@ })
            },
    {
        if self.state.busy() || self.state.is_confirmation() || self.close_after_save
            || self.prepare_queued.is_some() {
            return;
        }
        self.draft = !self.draft;
        proof {
            assert(self@ =~= DialogView { draft: !old(self)@.draft, ..old(self)@ });
        }
        self.form_changed();
    }

    /// Shows or hides the details of the request that is to be confirmed.
    pub fn toggle_details(&mut self)
        ensures
            final(self)@ == (DialogView {
                details_disclosed: !old(self)@.details_disclosed,
                ..old(self)@
            }),
    {
        self.details_disclosed = !self.details_disclosed;
        proof {
            assert(self@ =~= DialogView {
                details_disclosed: !old(self)@.details_disclosed,
                ..old(self)@
            });
        }
    }

    /// Shows or hides the recorded attempts.
    pub fn toggle_attempts(&mut self)
        ensures
            final(self)@ == (DialogView {
                attempts_disclosed: !old(self)@.attempts_disclosed,
                ..old(self)@
            }),
    {
        self.attempts_disclosed = !self.attempts_disclosed;
        proof {
            assert(self@ =~= DialogView {
                attempts_disclosed: !old(self)@.attempts_disclosed,
                ..old(self)@
            });
        }
    }

    /// Leaves a confirmation, or else the dialog.
    pub fn leave(&mut self)
        ensures
            final(self)@ == left(old(self)@),
    {
        if self.state.is_confirmation() {
            self.cancel();
        } else {
            self.request_close();
        }
    }

    /// Opens the pull request that was created, where one was.
    pub fn open_created(&mut self)
        ensures
            final(self)@ == match old(self)@.state {
                DialogStateView::Acknowledged(a) => open_requested(old(self)@, a),
                _ => old(self)@,
            },
    {
        let acknowledgement = match &self.state {
            DialogState::Acknowledged(acknowledgement) => acknowledgement.clone(),
            _ => {
                return;
            },
        };
        self.request_open_acknowledgement(acknowledgement);
    }

    /// Shows what a creation would look like, without one: the frozen request, acknowledged with
    /// another head than the one that was confirmed.
    pub fn install_synthetic_acknowledgement(&mut self) -> (r: Result<(), String>)
        ensures
            match old(self)@.frozen {
                None => final(self)@ == old(self)@ && (r matches Err(e) && e@
                    == "smoke has no read-only preparation"@),
                Some(frozen) => r is Ok && final(self)@ == (DialogView {
                    state: DialogStateView::Acknowledged(synthetic_of(frozen.request)),
                    notice: Some(
                        "Synthetic outcome control for native evidence; creation transport was not invoked."@,
                    ),
                    ..old(self)@
                }),
            },
    {
        let acknowledgement = match &self.frozen {
            None => {
                return Err("smoke has no read-only preparation".to_owned());
            },
            Some(frozen) => synthetic_acknowledgement(&frozen.request),
        };
        self.state = DialogState::Acknowledged(acknowledgement);
        self.notice = Some(
            "Synthetic outcome control for native evidence; creation transport was not invoked.".to_owned(),
        );
        proof {
            assert(self@ =~= DialogView {
                state: DialogStateView::Acknowledged(synthetic_of(old(self)@.frozen->0.request)),
                notice: Some(
                    "Synthetic outcome control for native evidence; creation transport was not invoked."@,
                ),
                ..old(self)@
            });
        }
        Ok(())
    }
}

/// A made-up acknowledgement of a request.
pub open spec fn synthetic_of(request: PullRequestCreationRequestView) -> PullRequestCreationAcknowledgementView {
    let input = request.preparation.input;
    let target = input.target_repository;
    PullRequestCreationAcknowledgementView {
        operation_id: request.operation_id,
        target_repository: target,
        source_repository: input.source_repository,
        pull_request: ProviderCoordinatesView {
            provider: "github"@,
            host: target.host,
            owner: target.owner,
            repository: target.name,
            pull_request: 4242,
            remote_id: "PR_SYNTHETIC_NATIVE_CREATE"@,
        },
        actual_head_sha: "ffffffffffffffffffffffffffffffffffffffff"@,
        reviewed_head_sha: request.preparation.observed_source_head_sha,
        reviewed_head_atomically_enforced: false,
        url: "https://github.com/"@ + domain::full_name_of(target.owner, target.name)
            + "/pull/4242"@,
    }
}

fn synthetic_acknowledgement(request: &PullRequestCreationRequest) -> (r:
    PullRequestCreationAcknowledgement)
    ensures
        r@ == synthetic_of(request@),
{
    let input = &request.preparation.input;
    let target = &input.target_repository;
    let mut url: String = "https://github.com/".to_owned();
    url.append(&target.full_name());
    url.append("/pull/4242");
    PullRequestCreationAcknowledgement {
        operation_id: request.operation_id.clone(),
        target_repository: target.clone(),
        source_repository: input.source_repository.clone(),
        pull_request: ProviderCoordinates {
            provider: "github".to_owned(),
            host: target.host.clone(),
            owner: target.owner.clone(),
            repository: target.name.clone(),
            pull_request: 4242,
            remote_id: "PR_SYNTHETIC_NATIVE_CREATE".to_owned(),
        },
        actual_head_sha: "ffffffffffffffffffffffffffffffffffffffff".to_owned(),
        reviewed_head_sha: request.preparation.observed_source_head_sha.clone(),
        reviewed_head_atomically_enforced: false,
        url,
    }
}

// ---------------------------------------------------------------------------
// Texts

pub open spec fn details_of(frozen: FrozenCreationView) -> Seq<char> {
    let preparation = frozen.request.preparation;
    let input = preparation.input;
    "Operation: "@ + frozen.request.operation_id + "\nAttempt: "@ + frozen.request.attempt_id
        + "\nTarget base OID: "@ + preparation.observed_base_sha + "\nReviewed source OID: "@
        + preparation.observed_source_head_sha + "\nCapability: available\nLocal branch: "@ + (
    match input.local_branch {
        Some(s) => s,
        None => "not supplied"@,
    }) + "\nBody (exact, "@ + text::decimal(text::byte_len(input.body)) + " bytes):\n"@ + input.body
}

/// Everything that a confirmation is about; it ends with the exact body.
pub fn confirmation_details(frozen: &FrozenCreation) -> (r: String)
    ensures
        r@ == details_of(frozen@),
{
    let preparation = &frozen.request.preparation;
    let input = &preparation.input;
    let mut out: String = "Operation: ".to_owned();
    out.append(&frozen.request.operation_id);
    out.append("\nAttempt: ");
    out.append(&frozen.request.attempt_id);
    out.append("\nTarget base OID: ");
    out.append(&preparation.observed_base_sha);
    out.append("\nReviewed source OID: ");
    out.append(&preparation.observed_source_head_sha);
    out.append("\nCapability: available\nLocal branch: ");
    match &input.local_branch {
        Some(s) => out.append(s),
        None => out.append("not supplied"),
    }
    out.append("\nBody (exact, ");
    out.append(&text::decimal_of_usize(text::byte_length(&input.body)));
    out.append(" bytes):\n");
    out.append(&input.body);
    out
}

pub open spec fn identity_of(prefix: Seq<char>, process: u32, entropy: Seq<u8>) -> Seq<char> {
    prefix + "-"@ + text::decimal(process as nat) + "-"@ + encoding::hex(entropy)
}

/// An identity made of random bytes that the caller has drawn.
pub fn random_identity(prefix: &str, process: u32, entropy: &Vec<u8>) -> (r: String)
    ensures
        r@ == identity_of(prefix@, process, entropy@),
{
    let mut out: String = prefix.to_owned();
    out.append("-");
    out.append(&text::decimal_text(process as u64));
    out.append("-");
    out.append(&encoding::hex_text(entropy));
    out
}

// ---------------------------------------------------------------------------
// Laws

/// A creation is carried out only from a confirmation, for exactly the request that was
/// confirmed and while the form still is the one that was visible then.
pub proof fn law_only_the_confirmed_request_is_carried_out(d: DialogView)
    ensures
        confirmed(d).state is Creating && !(d.state is Creating) ==> {
            &&& d.state is Confirmation
            &&& d.frozen is Some
            &&& shows(d, d.frozen->0.visible_form)
            &&& confirmed(d).effects == d.effects.push(DialogEffectView::Focus).push(
                DialogEffectView::Create {
                    lifetime: d.lifetime_id,
                    generation: bump(d.operation_generation),
                    request: d.frozen->0.request,
                },
            )
        },
{
}

/// An edit discards a confirmation: confirming afterwards carries nothing out.
pub proof fn law_edits_discard_confirmations(d: DialogView)
    requires
        d.state is Confirmation,
    ensures
        edited(d).state is Editing,
        edited(d).frozen is None,
        confirmed(edited(d)) == edited(d),
{
}

/// A reply for an earlier request, or for another dialog, is ignored.
pub proof fn law_late_replies_are_ignored(
    lifetime: Seq<char>,
    reply: Seq<char>,
    current: u64,
    generation: u64,
)
    ensures
        reply_is_current(lifetime, reply, current, generation) ==> lifetime == reply && current
            == generation,
        current < u64::MAX ==> !reply_is_current(lifetime, reply, bump(current), current),
{
}

/// Closing, where it needs no save, closes only with the form stored; a dialog whose draft
/// could not be used closes without a save.
pub proof fn law_closing_stores_the_form_first(d: DialogView)
    requires
        !d.closed,
    ensures
        close_begun(d).closed ==> d.state is Unavailable || (shown_form(d) is Ok
            && form::is_drained(d.draft_lane, shown_form(d)->Ok_0)),
        d.state is Unavailable ==> close_begun(d).draft_lane == d.draft_lane && close_begun(
            d,
        ).effects.len() <= d.effects.len() + 1,
        lane_drained(d).closed ==> d.close_after_save && shown_form(d) is Ok && form::is_drained(
            d.draft_lane,
            shown_form(d)->Ok_0,
        ),
{
}

/// Preparation begins only for a form that is stored exactly as it is visible.
pub proof fn law_preparation_is_of_the_stored_form(d: DialogView)
    requires
        !(d.state is Preparing),
    ensures
        lane_drained(d).state is Preparing ==> {
            &&& d.prepare_queued is Some
            &&& shows(d, d.prepare_queued->0.form)
            &&& d.draft_lane.durable_form == Some(d.prepare_queued->0.form)
        },
{
}

/// While work is pending, neither opening a recorded pull request nor closing does anything
/// but say so.
pub proof fn law_pending_work_is_not_detached(
    d: DialogView,
    acknowledgement: PullRequestCreationAcknowledgementView,
)
    requires
        is_busy(d.state),
        !d.closed,
    ensures
        open_requested(d, acknowledgement) == d,
        !close_requested(d).closed,
        close_requested(d).state == d.state,
        close_requested(d).effects == d.effects,
{
}

/// The disclosure of a confirmation ends with the exact body.
pub proof fn law_details_end_with_the_body(frozen: FrozenCreationView)
    ensures
        ({
            let all = details_of(frozen);
            let body = frozen.request.preparation.input.body;
            all.len() >= body.len() && all.skip(all.len() - body.len()) == body
        }),
{
    let all = details_of(frozen);
    let body = frozen.request.preparation.input.body;
    assert(all.skip(all.len() - body.len()) =~= body);
}

} // verus!

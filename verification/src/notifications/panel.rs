//! What the panel of unread notifications shows.

use vstd::prelude::*;
use vstd::string::*;

use crate::clock::Moment;
use crate::domain::{Account, AccountView};
use crate::notifications::account;
use crate::notifications::account::{AccountStateView, AccountViewState};
use crate::notifications::controller;
use crate::notifications::controller::NotificationController;
use crate::notifications::model;
use crate::notifications::model::{
    IncompleteNotificationCandidate, IncompleteNotificationCandidateView,
    ProviderNotificationEvent, ProviderNotificationEventView, PullRequestUnreadSummary,
    RepositoryNotificationCompleteness, RepositoryNotificationCompletenessView,
};
use crate::seqs;
use crate::text;
use crate::text_map;

verus! {

/// The number of incomplete candidates that a section lists.
pub const LISTED_CANDIDATES: usize = 12;

/// One unread event.
#[derive(Debug, PartialEq, Eq)]
pub struct EventRow {
    pub id: String,
    pub label: String,
    pub occurred_at: String,
    pub summary: String,
    pub line: String,
}

#[verifier::ext_equal]
pub struct EventRowView {
    pub id: Seq<char>,
    pub label: Seq<char>,
    pub occurred_at: Seq<char>,
    pub summary: Seq<char>,
    pub line: Seq<char>,
}

impl View for EventRow {
    type V = EventRowView;

    open spec fn view(&self) -> EventRowView {
        EventRowView {
            id: self.id@,
            label: self.label@,
            occurred_at: self.occurred_at@,
            summary: self.summary@,
            line: self.line@,
        }
    }
}

/// One candidate that is not counted as unread.
#[derive(Debug, PartialEq, Eq)]
pub struct CandidateRow {
    pub title: String,
    pub reason: String,
}

#[verifier::ext_equal]
pub struct CandidateRowView {
    pub title: Seq<char>,
    pub reason: Seq<char>,
}

impl View for CandidateRow {
    type V = CandidateRowView;

    open spec fn view(&self) -> CandidateRowView {
        CandidateRowView {
            title: self.title@,
            reason: self.reason@,
        }
    }
}

/// How complete the read of one repository was.
#[derive(Debug, PartialEq, Eq)]
pub struct CompletenessRow {
    pub text: String,
    pub complete: bool,
}

#[verifier::ext_equal]
pub struct CompletenessRowView {
    pub text: Seq<char>,
    pub complete: bool,
}

impl View for CompletenessRow {
    type V = CompletenessRowView;

    open spec fn view(&self) -> CompletenessRowView {
        CompletenessRowView {
            text: self.text@,
            complete: self.complete,
        }
    }
}

/// What is shown of one account.
#[derive(Debug, PartialEq, Eq)]
pub struct PanelSection {
    pub title: String,
    pub consent_label: String,
    pub about: String,
    pub completeness: Vec<CompletenessRow>,
    pub stale_notice: Option<String>,
    pub server_notice: Option<String>,
    pub events: Vec<EventRow>,
    pub empty_notice: Option<String>,
    pub incomplete_heading: Option<String>,
    pub incomplete: Vec<CandidateRow>,
    pub page_label: String,
    pub previous_label: String,
    pub next_label: String,
    pub mark_label: String,
}

#[verifier::ext_equal]
pub struct PanelSectionView {
    pub title: Seq<char>,
    pub consent_label: Seq<char>,
    pub about: Seq<char>,
    pub completeness: Seq<CompletenessRowView>,
    pub stale_notice: Option<Seq<char>>,
    pub server_notice: Option<Seq<char>>,
    pub events: Seq<EventRowView>,
    pub empty_notice: Option<Seq<char>>,
    pub incomplete_heading: Option<Seq<char>>,
    pub incomplete: Seq<CandidateRowView>,
    pub page_label: Seq<char>,
    pub previous_label: Seq<char>,
    pub next_label: Seq<char>,
    pub mark_label: Seq<char>,
}

impl View for PanelSection {
    type V = PanelSectionView;

    open spec fn view(&self) -> PanelSectionView {
        PanelSectionView {
            title: self.title@,
            consent_label: self.consent_label@,
            about: self.about@,
            completeness: self.completeness@.map_values(|x: CompletenessRow| x@),
            stale_notice: text::option_text(self.stale_notice),
            server_notice: text::option_text(self.server_notice),
            events: self.events@.map_values(|x: EventRow| x@),
            empty_notice: text::option_text(self.empty_notice),
            incomplete_heading: text::option_text(self.incomplete_heading),
            incomplete: self.incomplete@.map_values(|x: CandidateRow| x@),
            page_label: self.page_label@,
            previous_label: self.previous_label@,
            next_label: self.next_label@,
            mark_label: self.mark_label@,
        }
    }
}

/// The whole panel: its heading and the control that closes it, what it says before the stored
/// state is there, and its sections.
pub struct NotificationPanel {
    pub heading: String,
    pub close_label: String,
    pub loading: Option<String>,
    pub sections: Vec<PanelSection>,
}

// ---------------------------------------------------------------------------
// Rows

pub open spec fn event_row_of(e: ProviderNotificationEventView) -> EventRowView {
    let target = e.identity.target;
    EventRowView {
        id: "notification-event-"@ + model::stable_event_tag_of(
            AccountView { host: target.host, login: target.account },
            e.identity,
        ),
        label: model::alert_label_of(e.alert_kind),
        occurred_at: e.occurred_at,
        summary: e.summary,
        line: target.account + " · "@ + target.owner + "/"@ + target.repository + " #"@
            + text::decimal(target.pull_request as nat) + (match e.actor {
            Some(actor) => " · "@ + actor,
            None => Seq::empty(),
        }),
    }
}

pub fn event_row(event: &ProviderNotificationEvent) -> (r: EventRow)
    ensures
        r@ == event_row_of(event@),
{
    let target = &event.identity.target;
    let account = Account { host: target.host.clone(), login: target.account.clone() };
    let mut id: String = "notification-event-".to_owned();
    id.append(&model::stable_event_tag(&account, event));
    let mut line: String = target.account.clone();
    line.append(" · ");
    line.append(&target.owner);
    line.append("/");
    line.append(&target.repository);
    line.append(" #");
    line.append(&text::decimal_text(target.pull_request));
    let mut by: String = String::new();
    if let Some(actor) = &event.actor {
        by = " · ".to_owned();
        by.append(actor);
    }
    line.append(&by);
    EventRow {
        id,
        label: model::alert_label(&event.alert_kind).to_owned(),
        occurred_at: event.occurred_at.clone(),
        summary: event.summary.clone(),
        line,
    }
}

pub open spec fn candidate_row_of(c: IncompleteNotificationCandidateView) -> CandidateRowView {
    CandidateRowView {
        title: (match c.target {
            Some(t) => t.owner + "/"@ + t.repository + " #"@ + text::decimal(t.pull_request as nat),
            None => "Unresolved pull request"@,
        }) + " · "@ + c.kind,
        reason: c.reason,
    }
}

pub fn candidate_row(c: &IncompleteNotificationCandidate) -> (r: CandidateRow)
    ensures
        r@ == candidate_row_of(c@),
{
    let mut title: String = match &c.target {
        Some(t) => {
            let mut s: String = t.owner.clone();
            s.append("/");
            s.append(&t.repository);
            s.append(" #");
            s.append(&text::decimal_text(t.pull_request));
            s
        },
        None => "Unresolved pull request".to_owned(),
    };
    title.append(" · ");
    title.append(&c.kind);
    CandidateRow { title, reason: c.reason.clone() }
}

pub open spec fn completeness_row_of(r: RepositoryNotificationCompletenessView) -> CompletenessRowView {
    CompletenessRowView {
        text: if r.complete {
            r.target.owner + "/"@ + r.target.repository + " · complete"@
        } else {
            r.target.owner + "/"@ + r.target.repository + " · partial: "@ + text::joined(
                r.reasons,
                "; "@,
            )
        },
        complete: r.complete,
    }
}

pub fn completeness_row(r: &RepositoryNotificationCompleteness) -> (row: CompletenessRow)
    ensures
        row@ == completeness_row_of(r@),
{
    let mut line: String = r.target.owner.clone();
    line.append("/");
    line.append(&r.target.repository);
    if r.complete {
        line.append(" · complete");
    } else {
        line.append(" · partial: ");
        line.append(&text::join(&r.reasons, "; "));
    }
    CompletenessRow { text: line, complete: r.complete }
}

// ---------------------------------------------------------------------------
// Sections

pub open spec fn consent_label_of(s: AccountStateView) -> Seq<char> {
    if s.consent_transition {
        "Saving macOS preference…"@
    } else if s.consent_enabled {
        "macOS alerts: on"@
    } else {
        "macOS alerts: off"@
    }
}

pub open spec fn first_items<A>(s: Seq<A>, n: nat) -> Seq<A> {
    if s.len() > n {
        s.take(n as int)
    } else {
        s
    }
}

pub open spec fn events_shown(s: AccountStateView) -> Seq<ProviderNotificationEvent> {
    match s.snapshot {
        Some(snapshot) => account::page_of(
            account::events_of(snapshot.unread_by_pull_request),
            s.page as nat,
        ),
        None => Seq::empty(),
    }
}

pub open spec fn candidates_of(s: AccountStateView) -> Seq<IncompleteNotificationCandidate> {
    match s.snapshot {
        Some(snapshot) => snapshot.incomplete_candidates,
        None => Seq::empty(),
    }
}

pub open spec fn completeness_of(s: AccountStateView) -> Seq<RepositoryNotificationCompleteness> {
    match s.snapshot {
        Some(snapshot) => snapshot.repository_completeness,
        None => Seq::empty(),
    }
}

/// The section of an account.
pub open spec fn section_of(login: Seq<char>, s: AccountStateView, now: Moment) -> PanelSectionView {
    let unread = account::unread_of(s.snapshot);
    let candidates = candidates_of(s);
    PanelSectionView {
        title: login + " · "@ + text::decimal(unread) + " unread"@,
        consent_label: consent_label_of(s),
        about: "In-app unread is always available. macOS alerts are opt-in and requested best effort; this app receives no permission or delivery receipt."@,
        previous_label: "Previous"@,
        next_label: "Next"@,
        mark_label: "Mark displayed read"@,
        completeness: completeness_of(s).map_values(
            |r: RepositoryNotificationCompleteness| completeness_row_of(r@),
        ),
        stale_notice: s.stale_notice,
        server_notice: s.server_gate.notice_of(now),
        events: events_shown(s).map_values(|e: ProviderNotificationEvent| event_row_of(e@)),
        empty_notice: if unread == 0 {
            Some("No proven unread events."@)
        } else {
            None
        },
        incomplete_heading: if candidates.len() > 0 {
            Some(
                "INCOMPLETE CANDIDATES · "@ + text::decimal(candidates.len())
                    + " (not counted unread)"@,
            )
        } else {
            None
        },
        incomplete: first_items(candidates, LISTED_CANDIDATES as nat).map_values(
            |c: IncompleteNotificationCandidate| candidate_row_of(c@),
        ),
        page_label: "Page "@ + text::decimal((s.page + 1) as nat),
    }
}

fn completeness_rows(list: &Vec<RepositoryNotificationCompleteness>) -> (r: Vec<CompletenessRow>)
    ensures
        r@.map_values(|x: CompletenessRow| x@) == list@.map_values(
            |c: RepositoryNotificationCompleteness| completeness_row_of(c@),
        ),
{
    let mut out: Vec<CompletenessRow> = Vec::new();
    let mut i: usize = 0;
    while i < list.len()
        invariant
            i <= list@.len(),
            out@.len() == i,
            forall|k: int| 0 <= k < i ==> (#[trigger] out@[k])@ == completeness_row_of(list@[k]@),
        decreases list.len() - i,
    {
        out.push(completeness_row(&list[i]));
        i += 1;
    }
    proof {
        assert(out@.map_values(|x: CompletenessRow| x@) =~= list@.map_values(
            |c: RepositoryNotificationCompleteness| completeness_row_of(c@),
        ));
    }
    out
}

fn candidate_rows(list: &Vec<IncompleteNotificationCandidate>) -> (r: Vec<CandidateRow>)
    ensures
        r@.map_values(|x: CandidateRow| x@) == first_items(
            list@,
            LISTED_CANDIDATES as nat,
        ).map_values(|c: IncompleteNotificationCandidate| candidate_row_of(c@)),
{
    let mut out: Vec<CandidateRow> = Vec::new();
    let mut i: usize = 0;
    while i < list.len() && i < LISTED_CANDIDATES
        invariant
            i <= list@.len(),
            i <= LISTED_CANDIDATES,
            out@.len() == i,
            forall|k: int| 0 <= k < i ==> (#[trigger] out@[k])@ == candidate_row_of(list@[k]@),
        decreases list.len() - i,
    {
        out.push(candidate_row(&list[i]));
        i += 1;
    }
    proof {
        assert(out@.map_values(|x: CandidateRow| x@) =~= first_items(
            list@,
            LISTED_CANDIDATES as nat,
        ).map_values(|c: IncompleteNotificationCandidate| candidate_row_of(c@)));
    }
    out
}

fn event_rows(all: &Vec<ProviderNotificationEvent>, page: usize) -> (r: Vec<EventRow>)
    ensures
        r@.map_values(|x: EventRow| x@) == account::page_of(all@, page as nat).map_values(
            |e: ProviderNotificationEvent| event_row_of(e@),
        ),
{
    let ghost wanted = account::page_of(all@, page as nat).map_values(
        |e: ProviderNotificationEvent| event_row_of(e@),
    );
    let mut out: Vec<EventRow> = Vec::new();
    if page <= all.len() / account::PAGE_SIZE {
        let from: usize = page * account::PAGE_SIZE;
        let to: usize = if all.len() - from >= account::PAGE_SIZE {
            from + account::PAGE_SIZE
        } else {
            all.len()
        };
        let mut i: usize = from;
        while i < to
            invariant
                from <= i <= to <= all@.len(),
                out@.len() == i - from,
                forall|k: int|
                    0 <= k < i - from ==> (#[trigger] out@[k])@ == event_row_of(all@[from + k]@),
            decreases to - i,
        {
            out.push(event_row(&all[i]));
            i += 1;
        }
    }
    proof {
        assert(out@.map_values(|x: EventRow| x@) =~= wanted);
    }
    out
}

/// The section that shows an account in this state.
pub fn section(login: &str, state: &AccountViewState, now: Moment) -> (r: PanelSection)
    ensures
        r@ == section_of(login@, state@, now),
{
    let events = match &state.snapshot {
        Some(snapshot) => account::flattened_events(snapshot),
        None => Vec::new(),
    };
    proof {
        assert(events@.len() == account::unread_of(state@.snapshot));
    }
    let mut title: String = login.to_owned();
    title.append(" · ");
    title.append(&text::decimal_of_usize(events.len()));
    title.append(" unread");
    let consent_label: String = (if state.consent_transition {
        "Saving macOS preference…"
    } else if state.consent_enabled {
        "macOS alerts: on"
    } else {
        "macOS alerts: off"
    }).to_owned();
    let completeness = match &state.snapshot {
        Some(snapshot) => completeness_rows(&snapshot.repository_completeness),
        None => completeness_rows(&Vec::new()),
    };
    let (incomplete_heading, incomplete): (Option<String>, Vec<CandidateRow>) =
        match &state.snapshot {
        Some(snapshot) => {
            let heading: Option<String> = if snapshot.incomplete_candidates.len() > 0 {
                let mut s: String = "INCOMPLETE CANDIDATES · ".to_owned();
                s.append(&text::decimal_of_usize(snapshot.incomplete_candidates.len()));
                s.append(" (not counted unread)");
                Some(s)
            } else {
                None
            };
            (heading, candidate_rows(&snapshot.incomplete_candidates))
        },
        None => (None, candidate_rows(&Vec::new())),
    };
    let server_notice: Option<String> = match state.server_gate.notice(now) {
        Some(s) => Some(s.to_owned()),
        None => None,
    };
    let mut page_label: String = "Page ".to_owned();
    page_label.append(&text::decimal_wide(state.page as u128 + 1));
    let empty_notice: Option<String> = if events.len() == 0 {
        Some("No proven unread events.".to_owned())
    } else {
        None
    };
    let event_list = event_rows(&events, state.page);
    let r = PanelSection {
        title,
        consent_label,
        about: "In-app unread is always available. macOS alerts are opt-in and requested best effort; this app receives no permission or delivery receipt.".to_owned(),
        completeness,
        stale_notice: state.stale_notice.clone(),
        server_notice,
        events: event_list,
        empty_notice,
        incomplete_heading,
        incomplete,
        page_label,
        previous_label: "Previous".to_owned(),
        next_label: "Next".to_owned(),
        mark_label: "Mark displayed read".to_owned(),
    };
    proof {
        assert(events_shown(state@) == account::page_of(events@, state.page as nat));
        assert(r@ =~= section_of(login@, state@, now));
    }
    r
}

pub open spec fn shown_sections(
    keys: Seq<Seq<char>>,
    states: Map<Seq<char>, AccountStateView>,
    now: Moment,
) -> Seq<PanelSectionView> {
    keys.filter(|k: Seq<char>| states[k].account is Some).map_values(
        |k: Seq<char>| section_of(states[k].account->0.login, states[k], now),
    )
}

fn count_named(
    list: &Vec<PullRequestUnreadSummary>,
    account: &Account,
    owner: &str,
    repo: &str,
    pr: u64,
) -> (r: usize)
    ensures
        r as nat == first_named(list@, account@, owner@, repo@, pr),
{
    let mut i: usize = 0;
    while i < list.len()
        invariant
            i <= list@.len(),
            forall|k: int|
                0 <= k < i ==> !names(
                    (#[trigger] list@[k]).target@,
                    account@,
                    owner@,
                    repo@,
                    pr,
                ),
        decreases list.len() - i,
    {
        let target = &list[i].target;
        if text::equals_ignoring_case(&target.account, &account.login)
            && text::equals_ignoring_case(&target.owner, owner) && text::equals_ignoring_case(
            &target.repository,
            repo,
        ) && target.pull_request == pr {
            proof {
                lemma_first_named(list@, i as int, account@, owner@, repo@, pr);
            }
            return list[i].unread_events.len();
        }
        i += 1;
    }
    proof {
        lemma_first_named(list@, i as int, account@, owner@, repo@, pr);
    }
    0
}

impl NotificationController {
    /// The panel at this moment: the accounts that were named, in the order of their keys.
    pub fn panel(&self, now: Moment) -> (r: NotificationPanel)
        ensures
            r.heading@ == "Unread notifications"@,
            r.close_label@ == "Close"@,
            text::option_text(r.loading) == if self.runtime is Some {
                None
            } else {
                match self.initialization_error {
                    Some(e) => Some(e@),
                    None => Some("Loading private notification state…"@),
                }
            },
            r.sections@.map_values(|x: PanelSection| x@) == shown_sections(
                self.accounts.key_seq(),
                self.states(),
                now,
            ),
    {
        let loading: Option<String> = if self.runtime.is_some() {
            None
        } else {
            match &self.initialization_error {
                Some(e) => Some(e.clone()),
                None => Some("Loading private notification state…".to_owned()),
            }
        };
        let keys = self.accounts.keys();
        let ghost all = self.accounts.key_seq();
        let ghost states = self.states();
        let ghost p = |k: Seq<char>| states[k].account is Some;
        let ghost f = |k: Seq<char>| section_of(states[k].account->0.login, states[k], now);
        let mut sections: Vec<PanelSection> = Vec::new();
        let mut i: usize = 0;
        proof {
            seqs::lemma_filter_nothing(all, p);
            assert(sections@.map_values(|x: PanelSection| x@) =~= all.take(0).filter(p).map_values(f));
        }
        while i < keys.len()
            invariant
                i <= keys@.len(),
                all == text::texts(keys@),
                text_map::lists_keys(keys@, self.accounts@),
                states == self.states(),
                p == (|k: Seq<char>| states[k].account is Some),
                f == (|k: Seq<char>| section_of(states[k].account->0.login, states[k], now)),
                sections@.map_values(|x: PanelSection| x@) == all.take(i as int).filter(
                    p,
                ).map_values(f),
            decreases keys.len() - i,
        {
            proof {
                seqs::lemma_filter_step(all, i as int, p);
                assert(all[i as int] == keys@[i as int]@);
                assert(self.accounts@.contains_key(keys@[i as int]@));
                assert(states.contains_key(keys@[i as int]@));
            }
            if let Some(state) = self.accounts.get(&keys[i]) {
                if let Some(account) = &state.account {
                    let ghost before = sections@;
                    let piece = section(&account.login, state, now);
                    sections.push(piece);
                    proof {
                        assert(piece@ == f(all[i as int]));
                        assert(sections@.map_values(|x: PanelSection| x@) =~= before.map_values(
                            |x: PanelSection| x@,
                        ).push(piece@));
                        assert(all.take(i as int).filter(p).push(all[i as int]).map_values(f)
                            =~= all.take(i as int).filter(p).map_values(f).push(f(all[i as int])));
                    }
                }
            }
            i += 1;
        }
        proof {
            assert(all.take(i as int) =~= all);
            assert(shown_sections(all, states, now) == all.filter(p).map_values(f));
        }
        NotificationPanel {
            heading: "Unread notifications".to_owned(),
            close_label: "Close".to_owned(),
            loading,
            sections,
        }
    }

    /// The unread events of one pull request.
    pub fn unread_for(&self, account: &Account, owner: &str, repo: &str, pr: u64) -> (r: usize)
        ensures
            r as nat == unread_of_pull_request(
                self.states(),
                account@,
                owner@,
                repo@,
                pr,
            ),
    {
        let key = model::account_key(account);
        match self.accounts.get(&key) {
            None => 0,
            Some(state) => match &state.snapshot {
                None => 0,
                Some(snapshot) => {
                    count_named(&snapshot.unread_by_pull_request, account, owner, repo, pr)
                },
            },
        }
    }

    /// The unread events of all accounts.
    pub fn unread_count(&self) -> (r: usize)
        requires
            total_unread(self.accounts.key_seq(), self.states()) <= usize::MAX,
        ensures
            r as nat == total_unread(self.accounts.key_seq(), self.states()),
    {
        let keys = self.accounts.keys();
        let ghost all = self.accounts.key_seq();
        let ghost states = self.states();
        let mut total: usize = 0;
        let mut i: usize = 0;
        proof {
            assert(all.take(0) =~= Seq::<Seq<char>>::empty());
        }
        while i < keys.len()
            invariant
                i <= keys@.len(),
                all == text::texts(keys@),
                text_map::lists_keys(keys@, self.accounts@),
                states == self.states(),
                total_unread(all, states) <= usize::MAX,
                total as nat == total_unread(all.take(i as int), states),
            decreases keys.len() - i,
        {
            proof {
                assert(all.take(i + 1).drop_last() =~= all.take(i as int));
                assert(all.take(i + 1).last() == keys@[i as int]@);
                lemma_total_grows(all, states, i + 1);
                assert(self.accounts@.contains_key(keys@[i as int]@));
                assert(states.contains_key(keys@[i as int]@));
            }
            if let Some(state) = self.accounts.get(&keys[i]) {
                if let Some(snapshot) = &state.snapshot {
                    let count: usize = account::unread_count(snapshot);
                    total = total + count;
                }
            }
            i += 1;
        }
        proof {
            assert(all.take(i as int) =~= all);
        }
        total
    }
}

pub open spec fn total_unread(
    keys: Seq<Seq<char>>,
    states: Map<Seq<char>, AccountStateView>,
) -> nat
    decreases keys.len(),
{
    if keys.len() == 0 {
        0
    } else {
        total_unread(keys.drop_last(), states) + account::unread_of(states[keys.last()].snapshot)
    }
}

proof fn lemma_total_grows(
    keys: Seq<Seq<char>>,
    states: Map<Seq<char>, AccountStateView>,
    i: int,
)
    requires
        0 <= i <= keys.len(),
    ensures
        total_unread(keys.take(i), states) <= total_unread(keys, states),
    decreases keys.len(),
{
    if i == keys.len() {
        assert(keys.take(i) =~= keys);
    } else {
        lemma_total_grows(keys.drop_last(), states, i);
        assert(keys.drop_last().take(i) =~= keys.take(i));
    }
}

pub open spec fn names(
    target: model::NotificationPullRequestView,
    account: AccountView,
    owner: Seq<char>,
    repo: Seq<char>,
    pr: u64,
) -> bool {
    &&& text::same_ignoring_case(target.account, account.login)
    &&& text::same_ignoring_case(target.owner, owner)
    &&& text::same_ignoring_case(target.repository, repo)
    &&& target.pull_request == pr
}

/// The number of events of the first summary that names the pull request.
pub open spec fn first_named(
    unread: Seq<PullRequestUnreadSummary>,
    account: AccountView,
    owner: Seq<char>,
    repo: Seq<char>,
    pr: u64,
) -> nat
    decreases unread.len(),
{
    if unread.len() == 0 {
        0
    } else if names(unread[0].target@, account, owner, repo, pr) {
        unread[0].unread_events@.len()
    } else {
        first_named(unread.drop_first(), account, owner, repo, pr)
    }
}

proof fn lemma_first_named(
    unread: Seq<PullRequestUnreadSummary>,
    i: int,
    account: AccountView,
    owner: Seq<char>,
    repo: Seq<char>,
    pr: u64,
)
    requires
        0 <= i <= unread.len(),
        forall|k: int| 0 <= k < i ==> !names((#[trigger] unread[k]).target@, account, owner, repo, pr),
        i < unread.len() ==> names(unread[i].target@, account, owner, repo, pr),
    ensures
        first_named(unread, account, owner, repo, pr) == if i < unread.len() {
            unread[i].unread_events@.len()
        } else {
            0
        },
    decreases unread.len(),
{
    if i > 0 {
        assert(!names(unread[0].target@, account, owner, repo, pr));
        lemma_first_named(unread.drop_first(), i - 1, account, owner, repo, pr);
    }
}

pub open spec fn unread_of_pull_request(
    states: Map<Seq<char>, AccountStateView>,
    account: AccountView,
    owner: Seq<char>,
    repo: Seq<char>,
    pr: u64,
) -> nat {
    let key = model::account_key_of(account);
    if states.contains_key(key) && states[key].snapshot is Some {
        first_named(states[key].snapshot->0.unread_by_pull_request, account, owner, repo, pr)
    } else {
        0
    }
}

} // verus!
